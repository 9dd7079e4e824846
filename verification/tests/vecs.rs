use borsh::BorshDeserialize;
use bsamples::vecs::produce_vecs;

#[test]
fn vectors_of_strings_decode_to_lengths_zero_one_one() {
    let vecs = produce_vecs().unwrap();
    let lengths: Vec<usize> = vecs
        .strings
        .iter()
        .map(|s| Vec::<String>::try_from_slice(&s.data).unwrap().len())
        .collect();
    assert_eq!(lengths[0], 0);
    assert_eq!(lengths[1], 1);
    assert_eq!(lengths[2], 1);
    assert_eq!(lengths, vec![0, 1, 1, 2]);
}

#[test]
fn vectors_of_strings_are_count_then_items() {
    let vecs = produce_vecs().unwrap();
    assert_eq!(vecs.strings.len(), 4);
    assert_eq!(vecs.strings[0].value, Vec::<String>::new());
    assert_eq!(vecs.strings[0].data, vec![0, 0, 0, 0]);
    assert_eq!(vecs.strings[1].value, vec![String::new()]);
    assert_eq!(vecs.strings[1].data, vec![1, 0, 0, 0, 0, 0, 0, 0]);
    assert_eq!(vecs.strings[2].value, vec![String::from("Bob")]);
    assert_eq!(vecs.strings[2].data, vec![1, 0, 0, 0, 3, 0, 0, 0, 66, 111, 98]);
    assert_eq!(
        vecs.strings[3].value,
        vec![String::from("Bob"), String::from("Harry and Luise")]
    );
    assert_eq!(
        vecs.strings[3].data,
        vec![
            2, 0, 0, 0, 3, 0, 0, 0, 66, 111, 98, 15, 0, 0, 0, 72, 97, 114, 114, 121, 32, 97, 110,
            100, 32, 76, 117, 105, 115, 101
        ]
    );
}

#[test]
fn vectors_of_bytes_are_count_then_bytes() {
    let vecs = produce_vecs().unwrap();
    assert_eq!(vecs.u8s.len(), 3);
    assert_eq!(vecs.u8s[0].value, Vec::<u8>::new());
    assert_eq!(vecs.u8s[0].data, vec![0, 0, 0, 0]);
    assert_eq!(vecs.u8s[1].value, vec![0]);
    assert_eq!(vecs.u8s[1].data, vec![1, 0, 0, 0, 0]);
    assert_eq!(vecs.u8s[2].value, vec![0, 1, 255]);
    assert_eq!(vecs.u8s[2].data, vec![3, 0, 0, 0, 0, 1, 255]);
}

#[test]
fn vectors_rows_decode_to_their_values() {
    let vecs = produce_vecs().unwrap();
    for s in vecs.strings.iter() {
        assert_eq!(Vec::<String>::try_from_slice(&s.data).unwrap(), s.value);
    }
    for s in vecs.u8s.iter() {
        assert_eq!(Vec::<u8>::try_from_slice(&s.data).unwrap(), s.value);
    }
}

#[test]
fn vectors_include_the_empty_vector() {
    let vecs = produce_vecs().unwrap();
    assert!(vecs.strings.iter().any(|s| s.value.is_empty()));
    assert!(vecs.u8s.iter().any(|s| s.value.is_empty()));
}
