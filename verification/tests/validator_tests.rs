use vc_engine::credential::{CredentialBuilder, Subject};
use vc_engine::did::build_did;
use vc_engine::presentation::{Presentation, PresentationBuilder};
use vc_engine::sample::sample_exchange;
use vc_engine::timestamp::Timestamp;
use vc_engine::validator::{validate, validate_with_skew, RuleId};
use vc_engine::vc::{Properties, VerifiableCredential};

const BASE_CONTEXT: &str = "https://www.w3.org/2018/credentials/v1";
const EXAMPLES_CONTEXT: &str = "https://www.w3.org/2018/credentials/examples/v1";

fn presentation_with(issuer: &str, issuance: i64, expiration: Option<i64>) -> Presentation {
    let mut b = CredentialBuilder::new()
        .context(EXAMPLES_CONTEXT.to_string())
        .type_("PrescriptionCredential".to_string())
        .issuer(issuer.to_string())
        .try_subject(Subject { id: "did:iota:alice".to_string(), claims: Vec::new() })
        .unwrap()
        .issuance_date(Timestamp::from_seconds(issuance));
    if let Some(exp) = expiration {
        b = b.expiration_date(Timestamp::from_seconds(exp));
    }
    let credential = b.build().unwrap();
    PresentationBuilder::new()
        .context(EXAMPLES_CONTEXT.to_string())
        .type_("PrescriptionCredential".to_string())
        .credential(VerifiableCredential::new(credential, Properties::new()))
        .build()
        .unwrap()
}

#[test]
fn future_issuance_yields_exactly_one_violation() {
    let now = 10_000;
    let p = presentation_with("did:iota:alice", now + 3_600, None);
    let report = validate(&p, Timestamp::from_seconds(now));
    assert!(!report.valid);
    assert_eq!(report.errors.len(), 1);
    assert_eq!(report.errors[0].rule_id, RuleId::IssuedInFuture);
    assert_eq!(report.errors[0].message, "credential issuance date lies in the future");
}

#[test]
fn empty_presentation_yields_only_the_empty_violation() {
    let p = Presentation {
        contexts: vec![BASE_CONTEXT.to_string()],
        id: None,
        types: vec!["VerifiablePresentation".to_string()],
        verifiable_credentials: Vec::new(),
        refresh_service: None,
        terms_of_use: Vec::new(),
    };
    let report = validate(&p, Timestamp::from_seconds(10_000));
    assert!(!report.valid);
    assert_eq!(report.errors.len(), 1);
    assert_eq!(report.errors[0].rule_id, RuleId::EmptyPresentation);
}

#[test]
fn round_trip_validates_cleanly() {
    let did = build_did("iota".to_string(), vec!["alice".to_string()]).unwrap();
    let p = presentation_with(&did.to_string(), 1_000, Some(20_000));
    let report = validate(&p, Timestamp::from_seconds(10_000));
    assert!(report.valid);
    assert!(report.errors.is_empty());
    let method_form = p.validate(Timestamp::from_seconds(10_000));
    assert!(method_form.valid);
}

#[test]
fn expired_credential_yields_one_violation() {
    let p = presentation_with("did:iota:alice", 1_000, Some(2_000));
    let report = validate(&p, Timestamp::from_seconds(10_000));
    assert!(!report.valid);
    assert_eq!(report.errors.len(), 1);
    assert_eq!(report.errors[0].rule_id, RuleId::ExpiredCredential);
}

#[test]
fn invalid_context_uri_yields_one_violation() {
    let mut p = presentation_with("did:iota:alice", 1_000, None);
    p.verifiable_credentials[0].credential.contexts.push("not a uri".to_string());
    let report = validate(&p, Timestamp::from_seconds(10_000));
    assert!(!report.valid);
    assert_eq!(report.errors.len(), 1);
    assert_eq!(report.errors[0].rule_id, RuleId::InvalidContextUri);
    assert_eq!(report.errors[0].message, "context entry is not a valid URI");
}

#[test]
fn missing_base_context_yields_one_violation_per_credential() {
    let mut p = presentation_with("did:iota:alice", 1_000, None);
    p.contexts = vec![EXAMPLES_CONTEXT.to_string()];
    let report = validate(&p, Timestamp::from_seconds(10_000));
    assert!(!report.valid);
    assert_eq!(report.errors.len(), 1);
    assert_eq!(report.errors[0].rule_id, RuleId::MissingBaseContext);
}

#[test]
fn malformed_did_issuer_yields_one_violation() {
    let p = presentation_with("did:iota", 1_000, None);
    let report = validate(&p, Timestamp::from_seconds(10_000));
    assert!(!report.valid);
    assert_eq!(report.errors.len(), 1);
    assert_eq!(report.errors[0].rule_id, RuleId::MalformedIssuer);
}

#[test]
fn uppercase_did_method_in_issuer_is_flagged() {
    let p = presentation_with("did:IOTA:alice", 1_000, None);
    let report = validate(&p, Timestamp::from_seconds(10_000));
    assert!(!report.valid);
    assert_eq!(report.errors[0].rule_id, RuleId::MalformedIssuer);
}

#[test]
fn non_did_issuer_is_not_flagged() {
    let p = presentation_with("https://example.com/issuers/14", 1_000, None);
    let report = validate(&p, Timestamp::from_seconds(10_000));
    assert!(report.valid);
}

#[test]
fn clock_skew_tolerates_slightly_future_issuance() {
    let now = 10_000;
    let p = presentation_with("did:iota:alice", now + 100, None);
    let strict = validate(&p, Timestamp::from_seconds(now));
    assert!(!strict.valid);
    let tolerant = validate_with_skew(&p, Timestamp::from_seconds(now), 3_600);
    assert!(tolerant.valid);
}

#[test]
fn violations_accumulate_instead_of_short_circuiting() {
    let mut p = presentation_with("did:iota", 20_000, Some(20_000));
    // future issuance, malformed issuer, and a bad context all at once
    p.verifiable_credentials[0].credential.contexts.push("not a uri".to_string());
    let report = validate(&p, Timestamp::from_seconds(10_000));
    assert!(!report.valid);
    let rules: Vec<RuleId> = report.errors.iter().map(|e| e.rule_id).collect();
    assert_eq!(
        rules,
        vec![RuleId::IssuedInFuture, RuleId::InvalidContextUri, RuleId::MalformedIssuer]
    );
}

#[test]
fn sample_exchange_reports_clean_validation() {
    let (did_string, report) = sample_exchange(Timestamp::from_seconds(1_700_000_000));
    assert_eq!(did_string, "did:iota:alice");
    assert!(report.valid);
    assert!(report.errors.is_empty());
}
