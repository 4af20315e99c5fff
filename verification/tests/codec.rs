use nwest_shared_component_library::{
    BaseStat, IntegerAttribute, Stat, StatModifier, TypeCategory,
};

#[test]
fn test_attribute_encoding_bytes() {
    let attribute =
        IntegerAttribute::with_min_and_max(0, 100).expect("Failed to create IntegerAttribute");
    let bytes = attribute.encode();
    assert_eq!(
        bytes,
        vec![0, 0, 0, 128, 100, 0, 0, 128, 100, 0, 0, 128]
    );
}

#[test]
fn test_attribute_round_trip() {
    let attribute = IntegerAttribute::new_as_defined(-100, 100, -5)
        .expect("Failed to create IntegerAttribute");
    let bytes = attribute.encode();
    assert_eq!(IntegerAttribute::decode(&bytes), Some(attribute));
}

#[test]
fn test_attribute_round_trip_extremes() {
    let attribute = IntegerAttribute::new_as_defined(i32::MIN, i32::MAX, 0)
        .expect("Failed to create IntegerAttribute");
    let bytes = attribute.encode();
    assert_eq!(IntegerAttribute::decode(&bytes), Some(attribute));
}

#[test]
fn test_attribute_decode_rejects_wrong_length() {
    assert_eq!(IntegerAttribute::decode(&[1, 2, 3]), None);
    assert_eq!(IntegerAttribute::decode(&[]), None);
}

#[test]
fn test_attribute_decode_rejects_bad_bounds() {
    // These bytes place min above max: min = 100, max = 0.
    let bytes = vec![100, 0, 0, 128, 0, 0, 0, 128, 0, 0, 0, 128];
    assert_eq!(IntegerAttribute::decode(&bytes), None);
}

#[test]
fn test_stat_round_trip_none() {
    let stat = Stat::NoStat;
    let bytes = stat.encode();
    assert_eq!(bytes, vec![0]);
    assert_eq!(Stat::decode(&bytes), Some(stat));
}

#[test]
fn test_stat_round_trip_simple() {
    let stat = Stat::Simple(BaseStat::Mana);
    let bytes = stat.encode();
    assert_eq!(bytes, vec![1, 2]);
    assert_eq!(Stat::decode(&bytes), Some(stat));
}

#[test]
fn test_stat_round_trip_complex() {
    let stat = Stat::Complex(
        BaseStat::Damage,
        TypeCategory::Fire,
        StatModifier::Resistance,
    );
    let bytes = stat.encode();
    assert_eq!(bytes, vec![2, 5, 6, 4]);
    assert_eq!(Stat::decode(&bytes), Some(stat));
}

#[test]
fn test_stat_decode_rejects_invalid() {
    assert_eq!(Stat::decode(&[]), None);
    assert_eq!(Stat::decode(&[3]), None);
    assert_eq!(Stat::decode(&[1, 99]), None);
    assert_eq!(Stat::decode(&[2, 0, 0]), None);
    assert_eq!(Stat::decode(&[2, 0, 0, 15]), None);
}
