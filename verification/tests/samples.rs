use borsh::{BorshDeserialize, BorshSerialize};
use bsamples::encode::Encode;
use bsamples::samples::{produce_samples, produce_stringified_samples, Sample};
use bsamples::text::Textual;

#[test]
fn sample_new_keeps_both_parts() {
    let s = Sample::new(7u8, vec![9u8, 8u8]);
    assert_eq!(s.value, 7);
    assert_eq!(s.data, vec![9u8, 8u8]);
}

#[test]
fn sample_new_does_not_check_the_bytes() {
    let s = Sample::new(String::from("Bob"), Vec::new());
    assert_eq!(s.value, "Bob");
    assert!(s.data.is_empty());
}

#[test]
fn produce_samples_encodes_bytes_in_order() {
    let samples = produce_samples(vec![0u8, 1, 255]).unwrap();
    assert_eq!(samples.len(), 3);
    assert_eq!(samples[0].value, 0);
    assert_eq!(samples[0].data, vec![0u8]);
    assert_eq!(samples[1].value, 1);
    assert_eq!(samples[1].data, vec![1u8]);
    assert_eq!(samples[2].value, 255);
    assert_eq!(samples[2].data, vec![255u8]);
}

#[test]
fn produce_samples_of_nothing_is_empty() {
    let samples = produce_samples(Vec::<String>::new()).unwrap();
    assert!(samples.is_empty());
}

#[test]
fn produce_samples_keeps_one_row_per_value() {
    let inputs: Vec<(u8, String)> = (0u8..40).map(|i| (i, format!("row {}", i))).collect();
    let samples = produce_samples(inputs.clone()).unwrap();
    assert_eq!(samples.len(), inputs.len());
    for (sample, input) in samples.iter().zip(inputs.iter()) {
        assert_eq!(&sample.value, input);
        assert_eq!(sample.data, input.try_to_vec().unwrap());
    }
}

#[test]
fn produce_samples_rows_decode_to_their_values() {
    let inputs = vec![
        vec![Some(1u8), None],
        vec![],
        vec![None, None, Some(255)],
    ];
    let samples = produce_samples(inputs).unwrap();
    for sample in samples.iter() {
        let decoded = Vec::<Option<u8>>::try_from_slice(&sample.data).unwrap();
        assert_eq!(decoded, sample.value);
    }
}

#[test]
fn produce_samples_twice_gives_the_same_bytes() {
    let first = produce_samples(vec![String::from("a"), String::from("bc")]).unwrap();
    let second = produce_samples(vec![String::from("a"), String::from("bc")]).unwrap();
    assert_eq!(first.len(), second.len());
    for (a, b) in first.iter().zip(second.iter()) {
        assert_eq!(a.value, b.value);
        assert_eq!(a.data, b.data);
    }
}

#[test]
fn produce_stringified_samples_renders_decimal() {
    let samples = produce_stringified_samples(vec![0u128, 255, u128::MAX]).unwrap();
    assert_eq!(samples.len(), 3);
    assert_eq!(samples[0].value, "0");
    assert_eq!(samples[1].value, "255");
    assert_eq!(samples[2].value, "340282366920938463463374607431768211455");
    assert_eq!(samples[0].data, vec![0u8; 16]);
    let mut low = vec![0u8; 16];
    low[0] = 255;
    assert_eq!(samples[1].data, low);
    assert_eq!(samples[2].data, vec![255u8; 16]);
}

#[test]
fn produce_stringified_samples_rows_decode_to_the_number_displayed() {
    let samples = produce_stringified_samples(vec![7u128, 1 << 100, 10]).unwrap();
    for sample in samples.iter() {
        let decoded = u128::try_from_slice(&sample.data).unwrap();
        assert_eq!(decoded.to_string(), sample.value);
    }
}

#[test]
fn to_text_is_the_decimal_numeral() {
    assert_eq!(0u128.to_text(), "0");
    assert_eq!(9u128.to_text(), "9");
    assert_eq!(10u128.to_text(), "10");
    assert_eq!(1_000_000u128.to_text(), "1000000");
}

#[test]
fn encode_integers_little_endian() {
    assert_eq!(0x12u8.encode(), Some(vec![0x12]));
    assert_eq!(0x1234u16.encode(), Some(vec![0x34, 0x12]));
    assert_eq!(0x1234_5678u32.encode(), Some(vec![0x78, 0x56, 0x34, 0x12]));
    let wide: u128 = 0x0102_0304_0506_0708_090a_0b0c_0d0e_0f10;
    assert_eq!(
        wide.encode(),
        Some(vec![
            0x10, 0x0f, 0x0e, 0x0d, 0x0c, 0x0b, 0x0a, 0x09, 0x08, 0x07, 0x06, 0x05, 0x04, 0x03,
            0x02, 0x01
        ])
    );
}

#[test]
fn encode_string_prefixes_the_byte_length() {
    assert_eq!(String::new().encode(), Some(vec![0, 0, 0, 0]));
    assert_eq!(String::from("Bob").encode(), Some(vec![3, 0, 0, 0, 66, 111, 98]));
    // Two bytes of UTF-8 for one character: the prefix counts bytes.
    assert_eq!(String::from("\u{e9}").encode(), Some(vec![2, 0, 0, 0, 0xc3, 0xa9]));
}

#[test]
fn encode_array_has_no_prefix() {
    let mut root = [0u8; 32];
    root[0] = 1;
    root[31] = 2;
    let bytes = root.encode().unwrap();
    assert_eq!(bytes.len(), 32);
    assert_eq!(bytes, root.to_vec());
}

#[test]
fn encode_option_marks_presence() {
    assert_eq!(None::<u8>.encode(), Some(vec![0]));
    assert_eq!(Some(0u8).encode(), Some(vec![1, 0]));
    assert_eq!(None::<String>.encode(), Some(vec![0]));
    assert_eq!(Some(String::from("a")).encode(), Some(vec![1, 1, 0, 0, 0, 97]));
    assert_eq!(None::<Vec<u8>>.encode(), Some(vec![0]));
    assert_eq!(Some(vec![9u8]).encode(), Some(vec![1, 1, 0, 0, 0, 9]));
}

#[test]
fn encode_signed_fields_in_twos_complement() {
    assert_eq!((1u8, -1i16, 2u32).encode(), Some(vec![1, 0xff, 0xff, 2, 0, 0, 0]));
    assert_eq!(
        (1u8, vec![-1i32, i32::MIN], -128i8).encode(),
        Some(vec![1, 2, 0, 0, 0, 0xff, 0xff, 0xff, 0xff, 0, 0, 0, 0x80, 0x80])
    );
}
