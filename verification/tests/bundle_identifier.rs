//! Bundle identifier derivation: joining, the reference vector, and order
//! sensitivity.

use sha2::Digest;
use surfpool_bundle::bundle_id::derive_bundle_id;
use surfpool_bundle::bundle_id::join_signatures;

#[test]
fn join_two_signatures_with_single_comma() {
    let sigs = vec!["sig1".to_string(), "sig2".to_string()];
    assert_eq!(join_signatures(&sigs), "sig1,sig2");
}

#[test]
fn join_single_signature_has_no_separator() {
    let sigs = vec!["abc".to_string()];
    assert_eq!(join_signatures(&sigs), "abc");
}

#[test]
fn join_empty_list_is_empty() {
    let sigs: Vec<String> = Vec::new();
    assert_eq!(join_signatures(&sigs), "");
}

#[test]
fn join_three_signatures() {
    let sigs = vec!["a".to_string(), "b".to_string(), "c".to_string()];
    assert_eq!(join_signatures(&sigs), "a,b,c");
}

#[test]
fn reference_vector_sig1_sig2() {
    // SHA-256 of the bytes of "sig1,sig2", hex-encoded in lowercase.
    let sigs = vec!["sig1".to_string(), "sig2".to_string()];
    assert_eq!(
        derive_bundle_id(&sigs),
        "e65aa1eeabb3df0a14091455f8cf4bbdb4929fb52b648fb6c35139609a4d37fa"
    );
}

#[test]
fn identifier_matches_direct_digest() {
    let sigs = vec!["sigA".to_string(), "sigB".to_string()];
    let mut hasher = sha2::Sha256::new();
    hasher.update("sigA,sigB".as_bytes());
    let expected = hex::encode(hasher.finalize());
    assert_eq!(derive_bundle_id(&sigs), expected);
}

#[test]
fn identifier_is_deterministic() {
    let a = vec!["one".to_string(), "two".to_string(), "three".to_string()];
    let b = vec!["one".to_string(), "two".to_string(), "three".to_string()];
    assert_eq!(derive_bundle_id(&a), derive_bundle_id(&b));
}

#[test]
fn identifier_is_order_sensitive() {
    let ab = vec!["one".to_string(), "two".to_string()];
    let ba = vec!["two".to_string(), "one".to_string()];
    assert_ne!(derive_bundle_id(&ab), derive_bundle_id(&ba));
}

#[test]
fn identifier_is_64_lowercase_hex_chars() {
    let sigs = vec!["x".to_string()];
    let id = derive_bundle_id(&sigs);
    assert_eq!(id.len(), 64);
    assert!(id.chars().all(|c| c.is_ascii_hexdigit() && !c.is_ascii_uppercase()));
}
