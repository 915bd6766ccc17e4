use nodegaze::FeatureVector;

#[test]
fn index_set_zero_and_nine_packs_two_bytes() {
    let fv = FeatureVector::from_index_set(&vec![0, 9]);
    assert_eq!(fv.le_flags(), &vec![0x01u8, 0x02u8]);
}

#[test]
fn index_set_round_trips_each_bit() {
    let indices: Vec<u32> = vec![1, 5, 13, 14, 27, 45, 2047];
    let fv = FeatureVector::from_index_set(&indices);
    for i in 0..2100u32 {
        assert_eq!(fv.contains(i), indices.contains(&i), "bit {}", i);
    }
}

#[test]
fn index_set_empty_gives_empty_buffer() {
    let fv = FeatureVector::from_index_set(&vec![]);
    assert!(fv.le_flags().is_empty());
    assert!(fv == FeatureVector::empty());
    assert!(!fv.contains(0));
}

#[test]
fn index_set_largest_index_fills_last_byte() {
    let fv = FeatureVector::from_index_set(&vec![2047]);
    assert_eq!(fv.le_flags().len(), 256);
    assert_eq!(fv.le_flags()[255], 0x80);
    assert!(fv.le_flags()[..255].iter().all(|b| *b == 0));
}

#[test]
fn index_set_duplicates_are_one_bit() {
    let fv = FeatureVector::from_index_set(&vec![3, 3, 8, 3]);
    assert_eq!(fv.le_flags(), &vec![0x08u8, 0x01u8]);
}

#[test]
fn big_endian_buffer_matches_index_set() {
    let a = FeatureVector::from_index_set(&vec![0, 9]);
    let b = FeatureVector::from_be_bytes(vec![0x02, 0x01]);
    assert!(a == b);
    assert_eq!(b.le_flags(), &vec![0x01u8, 0x02u8]);
}

#[test]
fn big_endian_leading_zero_bytes_do_not_count() {
    let a = FeatureVector::from_index_set(&vec![1, 15]);
    let b = FeatureVector::from_be_bytes(vec![0x00, 0x00, 0x80, 0x02]);
    assert!(a == b);
    assert!(b.contains(15));
    assert!(!b.contains(16));
}

#[test]
fn different_feature_sets_compare_unequal() {
    let a = FeatureVector::from_index_set(&vec![0, 9]);
    let b = FeatureVector::from_index_set(&vec![0, 8]);
    assert!(!(a == b));
    assert!(!a.same_features(&FeatureVector::empty()));
}

#[test]
fn little_endian_buffer_kept_as_is() {
    let fv = FeatureVector::from_le_bytes(vec![0x00, 0x10]);
    assert!(fv.contains(12));
    assert!(!fv.contains(4));
    assert_eq!(fv.le_flags(), &vec![0x00u8, 0x10u8]);
}
