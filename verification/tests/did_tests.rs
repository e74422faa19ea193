use vc_engine::did::{build_did, DID};
use vc_engine::errors::BuildError;

fn did(method: &str, segments: &[&str]) -> Result<DID, BuildError> {
    build_did(
        method.to_string(),
        segments.iter().map(|s| s.to_string()).collect(),
    )
}

#[test]
fn build_did_succeeds_for_valid_input() {
    let d = did("iota", &["alice"]).unwrap();
    assert_eq!(d.method_name, "iota");
    assert_eq!(d.id_segments, vec!["alice".to_string()]);
    assert!(d.path.is_none());
    assert!(d.query.is_none());
    assert!(d.fragment.is_none());
}

#[test]
fn to_string_is_stable_across_repeated_calls() {
    let d = did("iota", &["alice", "bob"]).unwrap();
    let first = d.to_string();
    let second = d.to_string();
    assert_eq!(first, "did:iota:alice:bob");
    assert_eq!(first, second);
}

#[test]
fn build_did_empty_method_fails() {
    assert_eq!(did("", &["alice"]).unwrap_err(), BuildError::MalformedDID);
}

#[test]
fn build_did_no_segments_fails() {
    assert_eq!(did("iota", &[]).unwrap_err(), BuildError::MalformedDID);
}

#[test]
fn build_did_rejects_uppercase_method() {
    assert_eq!(did("Iota", &["alice"]).unwrap_err(), BuildError::MalformedDID);
}

#[test]
fn build_did_rejects_non_alphanumeric_method() {
    assert_eq!(did("io-ta", &["alice"]).unwrap_err(), BuildError::MalformedDID);
}

#[test]
fn build_did_rejects_empty_segment() {
    assert_eq!(did("iota", &["alice", ""]).unwrap_err(), BuildError::MalformedDID);
}

#[test]
fn build_did_accepts_digits_in_method() {
    let d = did("web3", &["node1"]).unwrap();
    assert_eq!(d.to_string(), "did:web3:node1");
}

#[test]
fn did_build_accepts_optional_parts() {
    let d = DID::build(
        "iota".to_string(),
        vec!["alice".to_string()],
        Some("profile".to_string()),
        None,
        Some("keys".to_string()),
    )
    .unwrap();
    assert_eq!(d.to_string(), "did:iota:alice/profile#keys");
}

#[test]
fn did_build_checks_the_same_invariants() {
    let r = DID::build("".to_string(), vec!["alice".to_string()], None, None, None);
    assert_eq!(r.unwrap_err(), BuildError::MalformedDID);
}

#[test]
fn to_string_renders_path_query_and_fragment() {
    let d = DID {
        method_name: "iota".to_string(),
        id_segments: vec!["alice".to_string()],
        path: Some("profile".to_string()),
        query: Some("v=1".to_string()),
        fragment: Some("keys".to_string()),
    };
    assert_eq!(d.to_string(), "did:iota:alice/profile?v=1#keys");
}
