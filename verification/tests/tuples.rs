use borsh::BorshDeserialize;
use bsamples::tuples::produce_tuples;

#[test]
fn pairs_of_bytes() {
    let tuples = produce_tuples().unwrap();
    let values: Vec<(u8, u8)> = tuples.u8_u8s.iter().map(|s| s.value).collect();
    assert_eq!(values, vec![(1, 1), (1, 2), (3, 3)]);
    assert_eq!(tuples.u8_u8s[0].data, vec![1, 1]);
    assert_eq!(tuples.u8_u8s[1].data, vec![1, 2]);
    assert_eq!(tuples.u8_u8s[2].data, vec![3, 3]);
}

#[test]
fn triples_of_three_widths() {
    let tuples = produce_tuples().unwrap();
    let values: Vec<(u8, i16, u32)> = tuples.u8_i16_u32s.iter().map(|s| s.value).collect();
    assert_eq!(values, vec![(1, 2, 3), (9, -9, 22), (0, -5, 0)]);
    assert_eq!(tuples.u8_i16_u32s[0].data, vec![1, 2, 0, 3, 0, 0, 0]);
    assert_eq!(tuples.u8_i16_u32s[1].data, vec![9, 0xf7, 0xff, 22, 0, 0, 0]);
    assert_eq!(tuples.u8_i16_u32s[2].data, vec![0, 0xfb, 0xff, 0, 0, 0, 0]);
}

#[test]
fn byte_then_string() {
    let tuples = produce_tuples().unwrap();
    assert_eq!(tuples.u8_strings.len(), 3);
    assert_eq!(tuples.u8_strings[0].value, (1, String::from("1")));
    assert_eq!(tuples.u8_strings[0].data, vec![1, 1, 0, 0, 0, 49]);
    assert_eq!(tuples.u8_strings[1].value, (2, String::from("22")));
    assert_eq!(tuples.u8_strings[1].data, vec![2, 2, 0, 0, 0, 50, 50]);
    assert_eq!(tuples.u8_strings[2].value, (3, String::from("333")));
    assert_eq!(tuples.u8_strings[2].data, vec![3, 3, 0, 0, 0, 51, 51, 51]);
}

#[test]
fn string_then_number() {
    let tuples = produce_tuples().unwrap();
    assert_eq!(tuples.string_u16s.len(), 2);
    assert_eq!(tuples.string_u16s[0].value, (String::from("hello world"), 100));
    assert_eq!(
        tuples.string_u16s[0].data,
        vec![11, 0, 0, 0, 104, 101, 108, 108, 111, 32, 119, 111, 114, 108, 100, 100, 0]
    );
    assert_eq!(tuples.string_u16s[1].value, (String::from("hola mundo"), 200));
    assert_eq!(
        tuples.string_u16s[1].data,
        vec![10, 0, 0, 0, 104, 111, 108, 97, 32, 109, 117, 110, 100, 111, 200, 0]
    );
}

#[test]
fn vector_between_two_bytes() {
    let tuples = produce_tuples().unwrap();
    assert_eq!(tuples.u8_vec_i32s_i8.len(), 3);
    assert_eq!(tuples.u8_vec_i32s_i8[0].value, (1, vec![1, 2, 3, 4], 11));
    assert_eq!(
        tuples.u8_vec_i32s_i8[0].data,
        vec![1, 4, 0, 0, 0, 1, 0, 0, 0, 2, 0, 0, 0, 3, 0, 0, 0, 4, 0, 0, 0, 11]
    );
    assert_eq!(tuples.u8_vec_i32s_i8[1].value, (2, vec![-4, -3, -2, -1, 0, 1, 2, 3, 4], 22));
    assert_eq!(
        tuples.u8_vec_i32s_i8[1].data,
        vec![
            2, 9, 0, 0, 0, 252, 255, 255, 255, 253, 255, 255, 255, 254, 255, 255, 255, 255, 255,
            255, 255, 0, 0, 0, 0, 1, 0, 0, 0, 2, 0, 0, 0, 3, 0, 0, 0, 4, 0, 0, 0, 22
        ]
    );
    assert_eq!(
        tuples.u8_vec_i32s_i8[2].value,
        (3, vec![-1, 0, 1, 2, 3, 4, 5, 6, 7, 8, 9], 33)
    );
    assert_eq!(
        tuples.u8_vec_i32s_i8[2].data,
        vec![
            3, 11, 0, 0, 0, 255, 255, 255, 255, 0, 0, 0, 0, 1, 0, 0, 0, 2, 0, 0, 0, 3, 0, 0, 0, 4,
            0, 0, 0, 5, 0, 0, 0, 6, 0, 0, 0, 7, 0, 0, 0, 8, 0, 0, 0, 9, 0, 0, 0, 33
        ]
    );
}

#[test]
fn vectors_of_pairs() {
    let tuples = produce_tuples().unwrap();
    assert_eq!(tuples.vec_u8_u8s.len(), 2);
    assert_eq!(tuples.vec_u8_u8s[0].value, vec![(1, 1), (2, 2), (3, 3)]);
    assert_eq!(tuples.vec_u8_u8s[0].data, vec![3, 0, 0, 0, 1, 1, 2, 2, 3, 3]);
    assert_eq!(tuples.vec_u8_u8s[1].value, vec![(1, 2), (3, 4), (5, 6)]);
    assert_eq!(tuples.vec_u8_u8s[1].data, vec![3, 0, 0, 0, 1, 2, 3, 4, 5, 6]);
}

#[test]
fn vectors_of_byte_and_string() {
    let tuples = produce_tuples().unwrap();
    assert_eq!(tuples.vec_u8_strings.len(), 2);
    assert_eq!(
        tuples.vec_u8_strings[0].value,
        vec![(1, String::from("1")), (2, String::from("2")), (3, String::from("3"))]
    );
    assert_eq!(
        tuples.vec_u8_strings[0].data,
        vec![3, 0, 0, 0, 1, 1, 0, 0, 0, 49, 2, 1, 0, 0, 0, 50, 3, 1, 0, 0, 0, 51]
    );
    assert_eq!(
        tuples.vec_u8_strings[1].value,
        vec![(1, String::from("22")), (3, String::from("444")), (5, String::from("6666"))]
    );
    assert_eq!(
        tuples.vec_u8_strings[1].data,
        vec![
            3, 0, 0, 0, 1, 2, 0, 0, 0, 50, 50, 3, 3, 0, 0, 0, 52, 52, 52, 5, 4, 0, 0, 0, 54, 54,
            54, 54
        ]
    );
}

#[test]
fn tuples_rows_decode_to_their_values() {
    let tuples = produce_tuples().unwrap();
    for s in tuples.u8_u8s.iter() {
        assert_eq!(<(u8, u8)>::try_from_slice(&s.data).unwrap(), s.value);
    }
    for s in tuples.u8_i16_u32s.iter() {
        assert_eq!(<(u8, i16, u32)>::try_from_slice(&s.data).unwrap(), s.value);
    }
    for s in tuples.u8_strings.iter() {
        assert_eq!(<(u8, String)>::try_from_slice(&s.data).unwrap(), s.value);
    }
    for s in tuples.string_u16s.iter() {
        assert_eq!(<(String, u16)>::try_from_slice(&s.data).unwrap(), s.value);
    }
    for s in tuples.u8_vec_i32s_i8.iter() {
        assert_eq!(<(u8, Vec<i32>, i8)>::try_from_slice(&s.data).unwrap(), s.value);
    }
    for s in tuples.vec_u8_u8s.iter() {
        assert_eq!(Vec::<(u8, u8)>::try_from_slice(&s.data).unwrap(), s.value);
    }
    for s in tuples.vec_u8_strings.iter() {
        assert_eq!(Vec::<(u8, String)>::try_from_slice(&s.data).unwrap(), s.value);
    }
}
