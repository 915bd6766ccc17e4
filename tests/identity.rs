use nodegaze::{node_info_from_key, FeatureVector, LightningError, NodeId};

const G_HEX: &str = "0279be667ef9dcbbac55a06295ce870b07029bfcdb2dce28d959f2815b16f81798";
const G2_HEX: &str = "02c6047f9441ed7d6d3045406e95c07cd85c778e4b8cef3ca7abac09b95c709ee5";

fn key_of(hex: &str) -> [u8; 33] {
    NodeId::parse(hex, None).unwrap().pubkey
}

#[test]
fn parse_reads_hex_key_bytes() {
    let id = NodeId::parse(G_HEX, Some("alice".to_string())).unwrap();
    assert_eq!(id.pubkey[0], 0x02);
    assert_eq!(id.pubkey[1], 0x79);
    assert_eq!(id.pubkey[32], 0x98);
    assert_eq!(id.alias, Some("alice".to_string()));
}

#[test]
fn parse_rejects_non_key() {
    assert!(matches!(NodeId::parse("zz", None), Err(LightningError::ValidationError(_))));
    let not_on_curve = "02".to_string() + &"00".repeat(32);
    assert!(matches!(NodeId::parse(&not_on_curve, None), Err(LightningError::ValidationError(_))));
}

#[test]
fn validate_single_byte_difference_is_mismatch() {
    let id = NodeId::parse(G_HEX, None).unwrap();
    let mut other = id.pubkey;
    other[17] ^= 0x01;
    let mut alias = "bob".to_string();
    assert_eq!(id.validate(&other, &mut alias), Err(LightningError::IdentityMismatch));
    assert_eq!(alias, "bob");
}

#[test]
fn validate_match_keeps_reported_alias() {
    let id = NodeId::parse(G_HEX, None).unwrap();
    let mut alias = "bob".to_string();
    assert_eq!(id.validate(&key_of(G_HEX), &mut alias), Ok(()));
    assert_eq!(alias, "bob");
}

#[test]
fn validate_pinned_alias_overrides() {
    let id = NodeId::parse(G_HEX, Some("pinned".to_string())).unwrap();
    let mut alias = "bob".to_string();
    assert_eq!(id.validate(&key_of(G_HEX), &mut alias), Ok(()));
    assert_eq!(alias, "pinned");
}

#[test]
fn validate_empty_pinned_alias_does_not_override() {
    let id = NodeId::parse(G_HEX, Some(String::new())).unwrap();
    let mut alias = "bob".to_string();
    assert_eq!(id.validate(&key_of(G_HEX), &mut alias), Ok(()));
    assert_eq!(alias, "bob");
}

#[test]
fn node_info_from_other_key_is_mismatch() {
    let id = NodeId::parse(G_HEX, None).unwrap();
    let r = node_info_from_key(&id, key_of(G2_HEX), FeatureVector::empty(), "x".to_string());
    assert!(matches!(r, Err(LightningError::IdentityMismatch)));
}

#[test]
fn node_info_from_expected_key() {
    let id = NodeId::parse(G_HEX, None).unwrap();
    let fv = FeatureVector::from_index_set(&vec![4]);
    let info = node_info_from_key(&id, key_of(G_HEX), fv.clone(), "x".to_string()).unwrap();
    assert_eq!(info.pubkey, id.pubkey);
    assert!(info.features == fv);
    assert_eq!(info.alias, "x");
}

#[test]
fn same_key_compares_bytes() {
    let a = key_of(G_HEX);
    let b = key_of(G2_HEX);
    assert!(nodegaze::same_key(&a, &a));
    assert!(!nodegaze::same_key(&a, &b));
}
