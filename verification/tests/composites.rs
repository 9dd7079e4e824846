use borsh::BorshDeserialize;
use bsamples::composites::produce_composites;

#[test]
fn vectors_of_optional_bytes() {
    let composites = produce_composites().unwrap();
    assert_eq!(composites.vec_opt_u8s.len(), 3);
    assert_eq!(composites.vec_opt_u8s[0].value, Vec::<Option<u8>>::new());
    assert_eq!(composites.vec_opt_u8s[0].data, vec![0, 0, 0, 0]);
    assert_eq!(composites.vec_opt_u8s[1].value, vec![None]);
    assert_eq!(composites.vec_opt_u8s[1].data, vec![1, 0, 0, 0, 0]);
    assert_eq!(composites.vec_opt_u8s[2].value, vec![None, Some(5), Some(7)]);
    assert_eq!(composites.vec_opt_u8s[2].data, vec![3, 0, 0, 0, 0, 1, 5, 1, 7]);
}

#[test]
fn optional_vectors_of_bytes() {
    let composites = produce_composites().unwrap();
    assert_eq!(composites.opt_vec_u8s.len(), 3);
    assert_eq!(composites.opt_vec_u8s[0].value, Some(Vec::new()));
    assert_eq!(composites.opt_vec_u8s[0].data, vec![1, 0, 0, 0, 0]);
    assert_eq!(composites.opt_vec_u8s[1].value, None);
    assert_eq!(composites.opt_vec_u8s[1].data, vec![0]);
    assert_eq!(composites.opt_vec_u8s[2].value, Some(vec![5, 7]));
    assert_eq!(composites.opt_vec_u8s[2].data, vec![1, 2, 0, 0, 0, 5, 7]);
}

#[test]
fn composites_rows_decode_to_their_values() {
    let composites = produce_composites().unwrap();
    for s in composites.vec_opt_u8s.iter() {
        assert_eq!(Vec::<Option<u8>>::try_from_slice(&s.data).unwrap(), s.value);
    }
    for s in composites.opt_vec_u8s.iter() {
        assert_eq!(Option::<Vec<u8>>::try_from_slice(&s.data).unwrap(), s.value);
    }
}

#[test]
fn composites_include_empty_and_absent() {
    let composites = produce_composites().unwrap();
    assert!(composites.vec_opt_u8s.iter().any(|s| s.value.is_empty()));
    assert!(composites.opt_vec_u8s.iter().any(|s| s.value.is_none()));
    assert!(composites.opt_vec_u8s.iter().any(|s| s.value == Some(Vec::new())));
}
