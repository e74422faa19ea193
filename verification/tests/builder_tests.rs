use vc_engine::credential::{CredentialBuilder, RefreshService, Subject, TermOfUse};
use vc_engine::errors::{BuildError, Field};
use vc_engine::timestamp::Timestamp;

const BASE_CONTEXT: &str = "https://www.w3.org/2018/credentials/v1";
const EXAMPLES_CONTEXT: &str = "https://www.w3.org/2018/credentials/examples/v1";

fn subject() -> Subject {
    Subject { id: "did:iota:alice".to_string(), claims: Vec::new() }
}

fn complete_builder() -> CredentialBuilder {
    CredentialBuilder::new()
        .context(EXAMPLES_CONTEXT.to_string())
        .type_("PrescriptionCredential".to_string())
        .issuer("did:iota:alice".to_string())
        .try_subject(subject())
        .unwrap()
        .issuance_date(Timestamp::from_seconds(1_000))
}

#[test]
fn credential_builder_success_prepends_base_context_and_type() {
    let c = complete_builder().build().unwrap();
    assert_eq!(c.contexts, vec![BASE_CONTEXT.to_string(), EXAMPLES_CONTEXT.to_string()]);
    assert_eq!(
        c.types,
        vec!["VerifiableCredential".to_string(), "PrescriptionCredential".to_string()]
    );
    assert_eq!(c.issuer, "did:iota:alice");
    assert_eq!(c.issuance_date, Timestamp::from_seconds(1_000));
    assert!(c.expiration_date.is_none());
    assert_eq!(c.subject.id, "did:iota:alice");
}

#[test]
fn credential_builder_missing_subject_fails() {
    let r = CredentialBuilder::new()
        .context(EXAMPLES_CONTEXT.to_string())
        .type_("PrescriptionCredential".to_string())
        .issuer("did:iota:alice".to_string())
        .issuance_date(Timestamp::from_seconds(1_000))
        .build();
    assert_eq!(r.unwrap_err(), BuildError::MissingRequiredField(Field::Subject));
}

#[test]
fn credential_builder_expiration_before_issuance_fails() {
    let r = complete_builder()
        .expiration_date(Timestamp::from_seconds(999))
        .build();
    assert_eq!(r.unwrap_err(), BuildError::TemporalInconsistency);
}

#[test]
fn credential_builder_expiration_at_issuance_succeeds() {
    let c = complete_builder()
        .expiration_date(Timestamp::from_seconds(1_000))
        .build()
        .unwrap();
    assert_eq!(c.expiration_date, Some(Timestamp::from_seconds(1_000)));
}

#[test]
fn credential_builder_missing_context_fails() {
    let r = CredentialBuilder::new()
        .type_("PrescriptionCredential".to_string())
        .issuer("did:iota:alice".to_string())
        .try_subject(subject())
        .unwrap()
        .issuance_date(Timestamp::from_seconds(1_000))
        .build();
    assert_eq!(r.unwrap_err(), BuildError::MissingRequiredField(Field::Context));
}

#[test]
fn credential_builder_missing_type_fails() {
    let r = CredentialBuilder::new()
        .context(EXAMPLES_CONTEXT.to_string())
        .issuer("did:iota:alice".to_string())
        .try_subject(subject())
        .unwrap()
        .issuance_date(Timestamp::from_seconds(1_000))
        .build();
    assert_eq!(r.unwrap_err(), BuildError::MissingRequiredField(Field::Type));
}

#[test]
fn credential_builder_missing_issuer_fails() {
    let r = CredentialBuilder::new()
        .context(EXAMPLES_CONTEXT.to_string())
        .type_("PrescriptionCredential".to_string())
        .try_subject(subject())
        .unwrap()
        .issuance_date(Timestamp::from_seconds(1_000))
        .build();
    assert_eq!(r.unwrap_err(), BuildError::MissingRequiredField(Field::Issuer));
}

#[test]
fn credential_builder_missing_issuance_date_fails() {
    let r = CredentialBuilder::new()
        .context(EXAMPLES_CONTEXT.to_string())
        .type_("PrescriptionCredential".to_string())
        .issuer("did:iota:alice".to_string())
        .try_subject(subject())
        .unwrap()
        .build();
    assert_eq!(r.unwrap_err(), BuildError::MissingRequiredField(Field::IssuanceDate));
}

#[test]
fn try_subject_with_empty_id_fails() {
    let r = CredentialBuilder::new()
        .try_subject(Subject { id: String::new(), claims: Vec::new() });
    assert_eq!(r.unwrap_err(), BuildError::InvalidShape(Field::Subject));
}

#[test]
fn try_refresh_service_with_empty_type_fails() {
    let r = CredentialBuilder::new().try_refresh_service(RefreshService {
        id: "https://example.com/refresh".to_string(),
        service_type: String::new(),
    });
    assert_eq!(r.unwrap_err(), BuildError::InvalidShape(Field::RefreshService));
}

#[test]
fn try_refresh_service_allows_empty_id() {
    let b = CredentialBuilder::new()
        .try_refresh_service(RefreshService {
            id: String::new(),
            service_type: "Refresh2020".to_string(),
        })
        .unwrap();
    assert_eq!(b.refresh_service.as_ref().unwrap().service_type, "Refresh2020");
}

#[test]
fn try_terms_of_use_with_empty_type_fails() {
    let r = CredentialBuilder::new()
        .try_terms_of_use(TermOfUse { policy_type: String::new(), id: None });
    assert_eq!(r.unwrap_err(), BuildError::InvalidShape(Field::TermsOfUse));
}
