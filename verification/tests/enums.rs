use bsamples::data_enums::{produce_data_enums, CollectionInfo, Simple};
use bsamples::encode::Encode;
use bsamples::enums::{produce_enums, Direction, Milligrams};

#[test]
fn directions_are_their_position() {
    let enums = produce_enums().unwrap();
    assert_eq!(enums.directions.len(), 2);
    assert_eq!(enums.directions[0].value, Direction::Up);
    assert_eq!(enums.directions[0].data, vec![0]);
    assert_eq!(enums.directions[1].value, Direction::Down);
    assert_eq!(enums.directions[1].data, vec![2]);
}

#[test]
fn every_direction_has_its_own_byte() {
    assert_eq!(Direction::Up.encode(), Some(vec![0]));
    assert_eq!(Direction::Right.encode(), Some(vec![1]));
    assert_eq!(Direction::Down.encode(), Some(vec![2]));
    assert_eq!(Direction::Left.encode(), Some(vec![3]));
}

#[test]
fn milligrams_are_their_position_not_their_size() {
    let enums = produce_enums().unwrap();
    assert_eq!(enums.milligrams.len(), 2);
    assert_eq!(enums.milligrams[0].value, Milligrams::Grams);
    assert_eq!(enums.milligrams[0].data, vec![0]);
    assert_eq!(enums.milligrams[1].value, Milligrams::Kilograms);
    assert_eq!(enums.milligrams[1].data, vec![1]);
}

#[test]
fn simples_are_position_then_field() {
    let data_enums = produce_data_enums().unwrap();
    assert_eq!(data_enums.simples.len(), 2);
    assert_eq!(data_enums.simples[0].value, Simple::First { first_field: 11 });
    assert_eq!(data_enums.simples[0].data, vec![0, 11, 0, 0, 0]);
    assert_eq!(data_enums.simples[1].value, Simple::Second { second_field: 22 });
    assert_eq!(data_enums.simples[1].data, vec![1, 22, 0, 0, 0]);
}

#[test]
fn collections_are_position_then_fields_in_order() {
    let data_enums = produce_data_enums().unwrap();
    assert_eq!(data_enums.collections.len(), 2);
    assert_eq!(
        data_enums.collections[0].value,
        CollectionInfo::V1 {
            symbol: String::from("TEST"),
            verified_creators: vec![1, 2, 3],
            whitelist_root: [0; 32],
        }
    );
    let mut expected = vec![0, 4, 0, 0, 0, 84, 69, 83, 84, 3, 0, 0, 0, 1, 2, 3];
    expected.extend_from_slice(&[0u8; 32]);
    assert_eq!(data_enums.collections[0].data, expected);
    assert_eq!(data_enums.collections[1].value, CollectionInfo::V2 { collection_mint: 4 });
    assert_eq!(data_enums.collections[1].data, vec![1, 4]);
}

#[test]
fn collection_fields_are_written_as_they_are() {
    let mut root = [0u8; 32];
    root[5] = 9;
    let info = CollectionInfo::V1 {
        symbol: String::from("\u{e9}"),
        verified_creators: vec![],
        whitelist_root: root,
    };
    let mut expected = vec![0, 2, 0, 0, 0, 0xc3, 0xa9, 0, 0, 0, 0];
    expected.extend_from_slice(&root);
    assert_eq!(info.encode(), Some(expected));
}
