use authgate::keys::{SigningKey, SigningKeySet};

fn key(kid: &str, modulus: &[u8]) -> SigningKey {
    SigningKey { kid: kid.to_string(), modulus: modulus.to_vec(), exponent: vec![1, 0, 1] }
}

#[test]
fn key_is_built_from_encoded_components() {
    let built = SigningKey::from_encoded("k1".to_string(), b"TWFu", b"AQAB").expect("canonical");
    assert_eq!(built.kid, "k1");
    assert_eq!(built.modulus, b"Man".to_vec());
    assert_eq!(built.exponent, vec![1, 0, 1]);
}

#[test]
fn key_with_a_component_outside_the_alphabet_is_not_built() {
    assert!(SigningKey::from_encoded("k1".to_string(), b"TW+u", b"AQAB").is_none());
    assert!(SigningKey::from_encoded("k1".to_string(), b"TWFu", b"AQAB=").is_none());
    assert!(SigningKey::from_encoded("k1".to_string(), b"T", b"AQAB").is_none());
}

#[test]
fn empty_set_finds_nothing() {
    let set = SigningKeySet::empty();
    assert_eq!(set.len(), 0);
    assert!(set.find("k1").is_none());
    assert!(set.find("").is_none());
}

#[test]
fn set_finds_each_key_by_its_identifier() {
    let set = SigningKeySet::from_keys(vec![key("k1", &[1]), key("k2", &[2]), key("k3", &[3])]);
    assert_eq!(set.len(), 3);
    assert_eq!(set.find("k1").map(|k| k.modulus.clone()), Some(vec![1]));
    assert_eq!(set.find("k2").map(|k| k.modulus.clone()), Some(vec![2]));
    assert_eq!(set.find("k3").map(|k| k.modulus.clone()), Some(vec![3]));
    assert!(set.find("k4").is_none());
    assert!(set.find("K1").is_none());
}

#[test]
fn first_of_two_keys_with_one_identifier_is_kept() {
    let set = SigningKeySet::from_keys(vec![key("k1", &[1]), key("k2", &[2]), key("k1", &[9])]);
    assert_eq!(set.len(), 2);
    assert_eq!(set.find("k1").map(|k| k.modulus.clone()), Some(vec![1]));
    assert_eq!(set.find("k2").map(|k| k.modulus.clone()), Some(vec![2]));
}

#[test]
fn entered_key_replaces_the_key_of_its_identifier() {
    let set = SigningKeySet::empty().with_key(key("k1", &[1])).with_key(key("k2", &[2]));
    assert_eq!(set.len(), 2);
    let set = set.with_key(key("k1", &[7]));
    assert_eq!(set.len(), 2);
    assert_eq!(set.find("k1").map(|k| k.modulus.clone()), Some(vec![7]));
    assert_eq!(set.find("k2").map(|k| k.modulus.clone()), Some(vec![2]));
}

#[test]
fn set_of_no_keys_is_empty() {
    let set = SigningKeySet::from_keys(Vec::new());
    assert_eq!(set.len(), 0);
}
