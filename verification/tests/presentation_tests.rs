use vc_engine::credential::{CredentialBuilder, Subject, TermOfUse};
use vc_engine::errors::{BuildError, Field};
use vc_engine::presentation::PresentationBuilder;
use vc_engine::timestamp::Timestamp;
use vc_engine::vc::{Properties, VerifiableCredential};

const EXAMPLES_CONTEXT: &str = "https://www.w3.org/2018/credentials/examples/v1";

fn sample_verifiable() -> VerifiableCredential {
    let credential = CredentialBuilder::new()
        .context(EXAMPLES_CONTEXT.to_string())
        .type_("PrescriptionCredential".to_string())
        .issuer("did:iota:alice".to_string())
        .try_subject(Subject { id: "did:iota:alice".to_string(), claims: Vec::new() })
        .unwrap()
        .issuance_date(Timestamp::from_seconds(1_000))
        .build()
        .unwrap();
    VerifiableCredential::new(credential, Properties::new())
}

#[test]
fn presentation_preserves_terms_of_use_in_insertion_order() {
    let p = PresentationBuilder::new()
        .context(EXAMPLES_CONTEXT.to_string())
        .type_("PrescriptionCredential".to_string())
        .credential(sample_verifiable())
        .try_terms_of_use(TermOfUse { policy_type: "Policy2019".to_string(), id: None })
        .unwrap()
        .try_terms_of_use(TermOfUse { policy_type: "Policy2020".to_string(), id: None })
        .unwrap()
        .build()
        .unwrap();
    assert_eq!(p.terms_of_use.len(), 2);
    assert_eq!(p.terms_of_use[0].policy_type, "Policy2019");
    assert_eq!(p.terms_of_use[1].policy_type, "Policy2020");
}

#[test]
fn presentation_builder_success_prepends_base_context_and_type() {
    let p = PresentationBuilder::new()
        .context(EXAMPLES_CONTEXT.to_string())
        .id("did:example:id:123".to_string())
        .type_("PrescriptionCredential".to_string())
        .credential(sample_verifiable())
        .build()
        .unwrap();
    assert_eq!(p.contexts[0], "https://www.w3.org/2018/credentials/v1");
    assert_eq!(p.contexts[1], EXAMPLES_CONTEXT);
    assert_eq!(p.types[0], "VerifiablePresentation");
    assert_eq!(p.types[1], "PrescriptionCredential");
    assert_eq!(p.id, Some("did:example:id:123".to_string()));
    assert_eq!(p.verifiable_credentials.len(), 1);
}

#[test]
fn presentation_builder_missing_type_fails() {
    let r = PresentationBuilder::new()
        .context(EXAMPLES_CONTEXT.to_string())
        .credential(sample_verifiable())
        .build();
    assert_eq!(r.unwrap_err(), BuildError::MissingRequiredField(Field::Type));
}

#[test]
fn presentation_builder_without_credentials_fails() {
    let r = PresentationBuilder::new()
        .context(EXAMPLES_CONTEXT.to_string())
        .type_("PrescriptionCredential".to_string())
        .build();
    assert_eq!(
        r.unwrap_err(),
        BuildError::MissingRequiredField(Field::VerifiableCredential)
    );
}

#[test]
fn verifiable_credential_exposes_wrapped_parts() {
    let vc = sample_verifiable();
    assert_eq!(vc.credential().issuer, "did:iota:alice");
    assert_eq!(vc.proof_material().entries.len(), 0);
    let with_proof = VerifiableCredential::new(
        vc.credential().clone(),
        Properties::new().entry("signature".to_string(), "abc".to_string()),
    );
    assert_eq!(with_proof.proof_material().entries[0].0, "signature");
    assert_eq!(with_proof.proof_material().entries[0].1, "abc");
}
