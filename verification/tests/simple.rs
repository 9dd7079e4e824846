use borsh::BorshDeserialize;
use bsamples::simple::produce_simple;

#[test]
fn simple_strings_are_length_prefixed() {
    let simple = produce_simple().unwrap();
    assert_eq!(simple.strings.len(), 3);
    assert_eq!(simple.strings[0].value, "");
    assert_eq!(simple.strings[0].data, vec![0, 0, 0, 0]);
    assert_eq!(simple.strings[1].value, "Bob");
    assert_eq!(simple.strings[1].data, vec![3, 0, 0, 0, 66, 111, 98]);
    assert_eq!(simple.strings[2].value, "Harry and Bob");
    assert_eq!(
        simple.strings[2].data,
        vec![13, 0, 0, 0, 72, 97, 114, 114, 121, 32, 97, 110, 100, 32, 66, 111, 98]
    );
}

#[test]
fn simple_u8s_cover_zero_one_and_max() {
    let simple = produce_simple().unwrap();
    let values: Vec<u8> = simple.u8s.iter().map(|s| s.value).collect();
    assert_eq!(values, vec![0, 1, u8::MAX]);
    assert_eq!(simple.u8s[0].data, vec![0]);
    assert_eq!(simple.u8s[1].data, vec![1]);
    assert_eq!(simple.u8s[2].data, vec![255]);
}

#[test]
fn simple_u128s_are_kept_as_text() {
    let simple = produce_simple().unwrap();
    assert_eq!(simple.u128s.len(), 3);
    assert_eq!(simple.u128s[0].value, "0");
    assert_eq!(simple.u128s[1].value, "255");
    assert_eq!(simple.u128s[2].value, u128::MAX.to_string());
    assert_eq!(simple.u128s[0].data, vec![0u8; 16]);
    assert_eq!(simple.u128s[1].data, vec![255, 0, 0, 0, 0, 0, 0, 0, 0, 0, 0, 0, 0, 0, 0, 0]);
    assert_eq!(simple.u128s[2].data, vec![255u8; 16]);
}

#[test]
fn simple_rows_decode_to_their_values() {
    let simple = produce_simple().unwrap();
    for s in simple.strings.iter() {
        assert_eq!(String::try_from_slice(&s.data).unwrap(), s.value);
    }
    for s in simple.u8s.iter() {
        assert_eq!(u8::try_from_slice(&s.data).unwrap(), s.value);
    }
    for s in simple.u128s.iter() {
        assert_eq!(u128::try_from_slice(&s.data).unwrap().to_string(), s.value);
    }
}

#[test]
fn simple_is_the_same_on_every_run() {
    let first = produce_simple().unwrap();
    let second = produce_simple().unwrap();
    for (a, b) in first.strings.iter().zip(second.strings.iter()) {
        assert_eq!(a.value, b.value);
        assert_eq!(a.data, b.data);
    }
    for (a, b) in first.u128s.iter().zip(second.u128s.iter()) {
        assert_eq!(a.value, b.value);
        assert_eq!(a.data, b.data);
    }
}

#[test]
fn simple_numbers_include_zero_a_middle_value_and_the_maximum() {
    let simple = produce_simple().unwrap();
    assert!(simple.u8s.iter().any(|s| s.value == 0));
    assert!(simple.u8s.iter().any(|s| 0 < s.value && s.value < u8::MAX));
    assert!(simple.u8s.iter().any(|s| s.value == u8::MAX));
    let wide: Vec<u128> = simple.u128s.iter().map(|s| s.value.parse().unwrap()).collect();
    assert!(wide.contains(&0));
    assert!(wide.iter().any(|v| 0 < *v && *v < u128::MAX));
    assert!(wide.contains(&u128::MAX));
}
