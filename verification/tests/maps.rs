use borsh::{BorshDeserialize, BorshSerialize};
use bsamples::collections::{byte_btree_map, byte_hash_map};
use bsamples::encode::Encode;
use bsamples::maps::produce_maps;
use std::collections::{BTreeMap, HashMap};

fn spanish_i32() -> Vec<u8> {
    vec![
        3, 0, 0, 0, 3, 0, 0, 0, 68, 111, 115, 255, 255, 255, 255, 4, 0, 0, 0, 84, 114, 101, 115,
        2, 0, 0, 0, 3, 0, 0, 0, 85, 110, 111, 253, 255, 255, 255,
    ]
}

fn german_i32() -> Vec<u8> {
    vec![
        4, 0, 0, 0, 4, 0, 0, 0, 68, 114, 101, 105, 253, 255, 255, 255, 4, 0, 0, 0, 69, 105, 110,
        115, 3, 0, 0, 0, 4, 0, 0, 0, 86, 105, 101, 114, 0, 0, 0, 0, 4, 0, 0, 0, 90, 119, 101, 105,
        1, 0, 0, 0,
    ]
}

#[test]
fn hash_maps_of_bytes_are_written_keys_ascending() {
    let maps = produce_maps().unwrap();
    assert_eq!(maps.hash_map_u8_u8s.len(), 3);
    assert_eq!(maps.hash_map_u8_u8s[0].value, HashMap::from([(1, 11), (2, 12), (3, 13)]));
    assert_eq!(maps.hash_map_u8_u8s[0].data, vec![3, 0, 0, 0, 1, 11, 2, 12, 3, 13]);
    assert_eq!(maps.hash_map_u8_u8s[1].value, HashMap::from([(11, 111), (22, 122), (33, 133)]));
    assert_eq!(maps.hash_map_u8_u8s[1].data, vec![3, 0, 0, 0, 11, 111, 22, 122, 33, 133]);
    assert_eq!(
        maps.hash_map_u8_u8s[2].value,
        HashMap::from([(111, 110), (222, 220), (255, 250)])
    );
    assert_eq!(maps.hash_map_u8_u8s[2].data, vec![3, 0, 0, 0, 111, 110, 222, 220, 255, 250]);
}

#[test]
fn ordered_maps_of_bytes_have_the_bytes_of_hash_maps() {
    let maps = produce_maps().unwrap();
    assert_eq!(maps.btree_map_u8_u8s.len(), 3);
    assert_eq!(maps.btree_map_u8_u8s[0].value, BTreeMap::from([(1, 11), (2, 12), (3, 13)]));
    for (ordered, hashed) in maps.btree_map_u8_u8s.iter().zip(maps.hash_map_u8_u8s.iter()) {
        assert_eq!(ordered.data, hashed.data);
        assert_eq!(ordered.value.len(), hashed.value.len());
        for (k, v) in ordered.value.iter() {
            assert_eq!(hashed.value.get(k), Some(v));
        }
    }
}

#[test]
fn hash_maps_of_strings_are_written_keys_ascending_by_bytes() {
    let maps = produce_maps().unwrap();
    assert_eq!(maps.hash_map_string_i32s.len(), 2);
    assert_eq!(
        maps.hash_map_string_i32s[0].value,
        HashMap::from([
            (String::from("Uno"), -3),
            (String::from("Dos"), -1),
            (String::from("Tres"), 2)
        ])
    );
    assert_eq!(maps.hash_map_string_i32s[0].data, spanish_i32());
    assert_eq!(
        maps.hash_map_string_i32s[1].value,
        HashMap::from([
            (String::from("Eins"), 3),
            (String::from("Zwei"), 1),
            (String::from("Drei"), -3),
            (String::from("Vier"), 0)
        ])
    );
    assert_eq!(maps.hash_map_string_i32s[1].data, german_i32());
}

#[test]
fn hash_maps_of_strings_to_vectors() {
    let maps = produce_maps().unwrap();
    assert_eq!(maps.hash_map_string_vec_i8s.len(), 2);
    assert_eq!(
        maps.hash_map_string_vec_i8s[0].value,
        HashMap::from([
            (String::from("Uno"), vec![-3, -2, -1]),
            (String::from("Dos"), vec![-1, 0, 1, 2, 3, 4]),
            (String::from("Tres"), vec![-3, -2, -1, 0, 1])
        ])
    );
    assert_eq!(
        maps.hash_map_string_vec_i8s[0].data,
        vec![
            3, 0, 0, 0, 3, 0, 0, 0, 68, 111, 115, 6, 0, 0, 0, 255, 0, 1, 2, 3, 4, 4, 0, 0, 0, 84,
            114, 101, 115, 5, 0, 0, 0, 253, 254, 255, 0, 1, 3, 0, 0, 0, 85, 110, 111, 3, 0, 0, 0,
            253, 254, 255
        ]
    );
    assert_eq!(
        maps.hash_map_string_vec_i8s[1].value,
        HashMap::from([
            (String::from("Eins"), vec![3, 2, 1]),
            (String::from("Zwei"), vec![1, 0, -1, -2, -3, -4]),
            (String::from("Drei"), vec![-3, -2, -1, 0, 1]),
            (String::from("Vier"), vec![])
        ])
    );
    assert_eq!(
        maps.hash_map_string_vec_i8s[1].data,
        vec![
            4, 0, 0, 0, 4, 0, 0, 0, 68, 114, 101, 105, 5, 0, 0, 0, 253, 254, 255, 0, 1, 4, 0, 0,
            0, 69, 105, 110, 115, 3, 0, 0, 0, 3, 2, 1, 4, 0, 0, 0, 86, 105, 101, 114, 0, 0, 0, 0,
            4, 0, 0, 0, 90, 119, 101, 105, 6, 0, 0, 0, 1, 0, 255, 254, 253, 252
        ]
    );
}

#[test]
fn vectors_of_hash_maps_come_in_both_orders() {
    let maps = produce_maps().unwrap();
    assert_eq!(maps.vec_hash_map_string_i64s.len(), 2);
    let spanish: HashMap<String, i64> = HashMap::from([
        (String::from("Uno"), -3),
        (String::from("Dos"), -1),
        (String::from("Tres"), 2),
    ]);
    let german: HashMap<String, i64> = HashMap::from([
        (String::from("Eins"), 3),
        (String::from("Zwei"), 1),
        (String::from("Drei"), -3),
        (String::from("Vier"), 0),
    ]);
    assert_eq!(maps.vec_hash_map_string_i64s[0].value, vec![spanish.clone(), german.clone()]);
    assert_eq!(maps.vec_hash_map_string_i64s[1].value, vec![german, spanish]);
    let forth = &maps.vec_hash_map_string_i64s[0].data;
    let back = &maps.vec_hash_map_string_i64s[1].data;
    assert_eq!(
        forth,
        &vec![
            2, 0, 0, 0, 3, 0, 0, 0, 3, 0, 0, 0, 68, 111, 115, 255, 255, 255, 255, 255, 255, 255,
            255, 4, 0, 0, 0, 84, 114, 101, 115, 2, 0, 0, 0, 0, 0, 0, 0, 3, 0, 0, 0, 85, 110, 111,
            253, 255, 255, 255, 255, 255, 255, 255, 4, 0, 0, 0, 4, 0, 0, 0, 68, 114, 101, 105,
            253, 255, 255, 255, 255, 255, 255, 255, 4, 0, 0, 0, 69, 105, 110, 115, 3, 0, 0, 0, 0,
            0, 0, 0, 4, 0, 0, 0, 86, 105, 101, 114, 0, 0, 0, 0, 0, 0, 0, 0, 4, 0, 0, 0, 90, 119,
            101, 105, 1, 0, 0, 0, 0, 0, 0, 0
        ]
    );
    // The same two maps the other way round: 50 bytes of the first, 68 of the second.
    assert_eq!(back.len(), forth.len());
    assert_eq!(back[..4], forth[..4]);
    assert_eq!(back[4..72], forth[54..122]);
    assert_eq!(back[72..122], forth[4..54]);
}

#[test]
fn maps_rows_decode_to_their_values() {
    let maps = produce_maps().unwrap();
    for s in maps.hash_map_u8_u8s.iter() {
        assert_eq!(HashMap::<u8, u8>::try_from_slice(&s.data).unwrap(), s.value);
    }
    for s in maps.btree_map_u8_u8s.iter() {
        assert_eq!(BTreeMap::<u8, u8>::try_from_slice(&s.data).unwrap(), s.value);
    }
    for s in maps.hash_map_string_i32s.iter() {
        assert_eq!(HashMap::<String, i32>::try_from_slice(&s.data).unwrap(), s.value);
    }
    for s in maps.hash_map_string_vec_i8s.iter() {
        assert_eq!(HashMap::<String, Vec<i8>>::try_from_slice(&s.data).unwrap(), s.value);
    }
    for s in maps.vec_hash_map_string_i64s.iter() {
        assert_eq!(Vec::<HashMap<String, i64>>::try_from_slice(&s.data).unwrap(), s.value);
    }
}

#[test]
fn maps_bytes_do_not_depend_on_the_order_of_insertion() {
    let forth = byte_hash_map(&[(1, 11), (2, 12), (3, 13)]);
    let back = byte_hash_map(&[(3, 13), (2, 12), (1, 11)]);
    assert_eq!(forth, back);
    assert_eq!(forth.encode(), back.encode());
    assert_eq!(forth.encode(), Some(vec![3, 0, 0, 0, 1, 11, 2, 12, 3, 13]));
}

#[test]
fn byte_maps_hold_their_pairs() {
    let hashed = byte_hash_map(&[(7, 1), (9, 2)]);
    assert_eq!(hashed, HashMap::from([(7, 1), (9, 2)]));
    let ordered = byte_btree_map(&[(9, 2), (7, 1)]);
    assert_eq!(ordered, BTreeMap::from([(7, 1), (9, 2)]));
    let empty = byte_hash_map(&[]);
    assert!(empty.is_empty());
    assert_eq!(empty.encode(), Some(vec![0, 0, 0, 0]));
}

#[test]
fn byte_maps_keep_the_later_of_two_entries_with_one_key() {
    let hashed = byte_hash_map(&[(7, 1), (7, 2)]);
    assert_eq!(hashed, HashMap::from([(7, 2)]));
    let ordered = byte_btree_map(&[(7, 1), (7, 2)]);
    assert_eq!(ordered, BTreeMap::from([(7, 2)]));
}

#[test]
fn maps_agree_with_the_serializer() {
    let maps = produce_maps().unwrap();
    for s in maps.hash_map_string_i32s.iter() {
        assert_eq!(s.data, s.value.try_to_vec().unwrap());
    }
    for s in maps.vec_hash_map_string_i64s.iter() {
        assert_eq!(s.data, s.value.try_to_vec().unwrap());
    }
}

#[test]
fn maps_are_the_same_on_every_run() {
    let first = produce_maps().unwrap();
    let second = produce_maps().unwrap();
    for (a, b) in first.hash_map_string_vec_i8s.iter().zip(second.hash_map_string_vec_i8s.iter()) {
        assert_eq!(a.value, b.value);
        assert_eq!(a.data, b.data);
    }
    for (a, b) in first.vec_hash_map_string_i64s.iter().zip(second.vec_hash_map_string_i64s.iter())
    {
        assert_eq!(a.value, b.value);
        assert_eq!(a.data, b.data);
    }
}

#[test]
fn maps_drop_no_catalog_entry() {
    let maps = produce_maps().unwrap();
    assert_eq!(maps.hash_map_u8_u8s.len(), 3);
    assert_eq!(maps.btree_map_u8_u8s.len(), 3);
    assert_eq!(maps.hash_map_string_i32s.len(), 2);
    assert_eq!(maps.hash_map_string_vec_i8s.len(), 2);
    assert_eq!(maps.vec_hash_map_string_i64s.len(), 2);
}

#[test]
fn string_keys_are_ordered_by_their_bytes() {
    let map: HashMap<String, i32> = HashMap::from([
        (String::from("b"), 1),
        (String::from("\u{e9}"), 2),
        (String::from("B"), 3),
    ]);
    assert_eq!(
        map.encode(),
        Some(vec![
            3, 0, 0, 0, 1, 0, 0, 0, 0x42, 3, 0, 0, 0, 1, 0, 0, 0, 0x62, 1, 0, 0, 0, 2, 0, 0, 0,
            0xc3, 0xa9, 2, 0, 0, 0
        ])
    );
}
