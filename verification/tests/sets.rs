use borsh::BorshDeserialize;
use bsamples::collections::{byte_btree_set, byte_hash_set};
use bsamples::encode::Encode;
use bsamples::sets::produce_sets;
use std::collections::{BTreeSet, HashSet};

fn spanish() -> HashSet<String> {
    HashSet::from([String::from("Uno"), String::from("Dos"), String::from("Tres")])
}

fn german() -> HashSet<String> {
    HashSet::from([
        String::from("Eins"),
        String::from("Zwei"),
        String::from("Drei"),
        String::from("Vier"),
    ])
}

fn spanish_bytes() -> Vec<u8> {
    vec![
        3, 0, 0, 0, 3, 0, 0, 0, 68, 111, 115, 4, 0, 0, 0, 84, 114, 101, 115, 3, 0, 0, 0, 85, 110,
        111,
    ]
}

fn german_bytes() -> Vec<u8> {
    vec![
        4, 0, 0, 0, 4, 0, 0, 0, 68, 114, 101, 105, 4, 0, 0, 0, 69, 105, 110, 115, 4, 0, 0, 0, 86,
        105, 101, 114, 4, 0, 0, 0, 90, 119, 101, 105,
    ]
}

#[test]
fn hash_sets_of_bytes_are_written_ascending() {
    let sets = produce_sets().unwrap();
    assert_eq!(sets.hash_set_u8s.len(), 3);
    assert_eq!(sets.hash_set_u8s[0].value, HashSet::from([1, 2, 3]));
    assert_eq!(sets.hash_set_u8s[0].data, vec![3, 0, 0, 0, 1, 2, 3]);
    assert_eq!(sets.hash_set_u8s[1].value, HashSet::from([11, 22, 33]));
    assert_eq!(sets.hash_set_u8s[1].data, vec![3, 0, 0, 0, 11, 22, 33]);
    assert_eq!(sets.hash_set_u8s[2].value, HashSet::from([111, 222, 255]));
    assert_eq!(sets.hash_set_u8s[2].data, vec![3, 0, 0, 0, 111, 222, 255]);
}

#[test]
fn ordered_sets_of_bytes_have_the_bytes_of_hash_sets() {
    let sets = produce_sets().unwrap();
    assert_eq!(sets.btree_set_u8s.len(), 3);
    assert_eq!(sets.btree_set_u8s[0].value, BTreeSet::from([1, 2, 3]));
    assert_eq!(sets.btree_set_u8s[1].value, BTreeSet::from([11, 22, 33]));
    assert_eq!(sets.btree_set_u8s[2].value, BTreeSet::from([111, 222, 255]));
    for (ordered, hashed) in sets.btree_set_u8s.iter().zip(sets.hash_set_u8s.iter()) {
        assert_eq!(ordered.data, hashed.data);
    }
}

#[test]
fn hash_sets_of_strings_are_written_ascending_by_bytes() {
    let sets = produce_sets().unwrap();
    assert_eq!(sets.hash_set_strings.len(), 2);
    assert_eq!(sets.hash_set_strings[0].value, spanish());
    assert_eq!(sets.hash_set_strings[0].data, spanish_bytes());
    assert_eq!(sets.hash_set_strings[1].value, german());
    assert_eq!(sets.hash_set_strings[1].data, german_bytes());
}

#[test]
fn vectors_of_hash_sets_come_in_both_orders() {
    let sets = produce_sets().unwrap();
    assert_eq!(sets.vec_hash_set_strings.len(), 2);
    assert_eq!(sets.vec_hash_set_strings[0].value, vec![spanish(), german()]);
    assert_eq!(sets.vec_hash_set_strings[1].value, vec![german(), spanish()]);
    let mut forth = vec![2, 0, 0, 0];
    forth.extend(spanish_bytes());
    forth.extend(german_bytes());
    assert_eq!(sets.vec_hash_set_strings[0].data, forth);
    let mut back = vec![2, 0, 0, 0];
    back.extend(german_bytes());
    back.extend(spanish_bytes());
    assert_eq!(sets.vec_hash_set_strings[1].data, back);
}

#[test]
fn sets_rows_decode_to_their_values() {
    let sets = produce_sets().unwrap();
    for s in sets.hash_set_u8s.iter() {
        assert_eq!(HashSet::<u8>::try_from_slice(&s.data).unwrap(), s.value);
    }
    for s in sets.btree_set_u8s.iter() {
        assert_eq!(BTreeSet::<u8>::try_from_slice(&s.data).unwrap(), s.value);
    }
    for s in sets.hash_set_strings.iter() {
        assert_eq!(HashSet::<String>::try_from_slice(&s.data).unwrap(), s.value);
    }
    for s in sets.vec_hash_set_strings.iter() {
        assert_eq!(Vec::<HashSet<String>>::try_from_slice(&s.data).unwrap(), s.value);
    }
}

#[test]
fn byte_sets_hold_their_items_once() {
    let hashed = byte_hash_set(&[5, 3, 5, 4]);
    assert_eq!(hashed, HashSet::from([3, 4, 5]));
    assert_eq!(hashed.encode(), Some(vec![3, 0, 0, 0, 3, 4, 5]));
    let ordered = byte_btree_set(&[5, 3, 5, 4]);
    assert_eq!(ordered, BTreeSet::from([3, 4, 5]));
    assert_eq!(ordered.encode(), Some(vec![3, 0, 0, 0, 3, 4, 5]));
    let empty = byte_hash_set(&[]);
    assert!(empty.is_empty());
    assert_eq!(empty.encode(), Some(vec![0, 0, 0, 0]));
}

#[test]
fn sets_are_the_same_on_every_run() {
    let first = produce_sets().unwrap();
    let second = produce_sets().unwrap();
    for (a, b) in first.hash_set_strings.iter().zip(second.hash_set_strings.iter()) {
        assert_eq!(a.value, b.value);
        assert_eq!(a.data, b.data);
    }
    for (a, b) in first.vec_hash_set_strings.iter().zip(second.vec_hash_set_strings.iter()) {
        assert_eq!(a.value, b.value);
        assert_eq!(a.data, b.data);
    }
}

#[test]
fn strings_are_ordered_by_their_bytes() {
    let set = HashSet::from([
        String::from("z"),
        String::from("\u{e9}"),
        String::from("a"),
        String::from("Z"),
        String::from("ab"),
        String::new(),
    ]);
    // "" < "Z" < "a" < "ab" < "z" < "é": a prefix first, then byte by byte.
    assert_eq!(
        set.encode(),
        Some(vec![
            6, 0, 0, 0, 0, 0, 0, 0, 1, 0, 0, 0, 0x5a, 1, 0, 0, 0, 0x61, 2, 0, 0, 0, 0x61, 0x62, 1,
            0, 0, 0, 0x7a, 2, 0, 0, 0, 0xc3, 0xa9
        ])
    );
}
