use vstd::prelude::*;

use crate::credential::{append_all, base_credential_context, RefreshService, TermOfUse};
use crate::errors::{BuildError, Field};
use crate::vc::VerifiableCredential;

verus! {

/// The base type that every presentation carries in addition to its
/// specific types.
pub open spec fn base_presentation_type() -> Seq<char> {
    "VerifiablePresentation"@
}

/// A bundle of verifiable credentials assembled by a holder for a
/// verifier, immutable once built.
#[derive(Clone, Debug)]
pub struct Presentation {
    pub contexts: Vec<String>,
    pub id: Option<String>,
    pub types: Vec<String>,
    pub verifiable_credentials: Vec<VerifiableCredential>,
    pub refresh_service: Option<RefreshService>,
    pub terms_of_use: Vec<TermOfUse>,
}

/// Accumulates the fields of a presentation through chained setters and
/// is consumed by `build`.  Duplicate credentials are permitted here:
/// presenting the same credential twice is for validation to catch, not
/// the builder.
#[derive(Debug)]
pub struct PresentationBuilder {
    pub contexts: Vec<String>,
    pub id: Option<String>,
    pub types: Vec<String>,
    pub verifiable_credentials: Vec<VerifiableCredential>,
    pub refresh_service: Option<RefreshService>,
    pub terms_of_use: Vec<TermOfUse>,
}

impl PresentationBuilder {
    pub fn new() -> (r: Self)
        ensures
            r.contexts@.len() == 0,
            r.id is None,
            r.types@.len() == 0,
            r.verifiable_credentials@.len() == 0,
            r.refresh_service is None,
            r.terms_of_use@.len() == 0,
    {
        PresentationBuilder {
            contexts: Vec::new(),
            id: None,
            types: Vec::new(),
            verifiable_credentials: Vec::new(),
            refresh_service: None,
            terms_of_use: Vec::new(),
        }
    }

    /// Appends a context URI; contexts are kept in insertion order.
    pub fn context(self, value: String) -> (r: Self)
        ensures
            r == (PresentationBuilder { contexts: r.contexts, ..self }),
            r.contexts@ == self.contexts@.push(value),
    {
        let mut b = self;
        b.contexts.push(value);
        b
    }

    pub fn id(self, value: String) -> (r: Self)
        ensures
            r == (PresentationBuilder { id: r.id, ..self }),
            r.id == Some(value),
    {
        let mut b = self;
        b.id = Some(value);
        b
    }

    /// Appends a specific presentation type; types are kept in insertion
    /// order.
    pub fn type_(self, value: String) -> (r: Self)
        ensures
            r == (PresentationBuilder { types: r.types, ..self }),
            r.types@ == self.types@.push(value),
    {
        let mut b = self;
        b.types.push(value);
        b
    }

    /// Appends one verifiable credential, in order.
    pub fn credential(self, value: VerifiableCredential) -> (r: Self)
        ensures
            r == (PresentationBuilder {
                verifiable_credentials: r.verifiable_credentials,
                ..self
            }),
            r.verifiable_credentials@ == self.verifiable_credentials@.push(value),
    {
        let mut b = self;
        b.verifiable_credentials.push(value);
        b
    }

    /// Records the refresh service after checking its shape eagerly: the
    /// descriptor must name a non-empty type.
    pub fn try_refresh_service(self, value: RefreshService) -> (r: Result<Self, BuildError>)
        ensures
            value.service_type@.len() > 0 ==> (r matches Ok(b) && b == (PresentationBuilder {
                refresh_service: b.refresh_service,
                ..self
            }) && b.refresh_service == Some(value)),
            value.service_type@.len() == 0 ==> r == Err::<Self, BuildError>(
                BuildError::InvalidShape(Field::RefreshService),
            ),
    {
        if value.service_type.as_str().is_empty() {
            return Err(BuildError::InvalidShape(Field::RefreshService));
        }
        let mut b = self;
        b.refresh_service = Some(value);
        Ok(b)
    }

    /// Appends a terms-of-use entry after checking its shape eagerly: the
    /// entry must name a non-empty type.  Entries that share a type are
    /// deliberately kept: distinct policies may share a type and differ by
    /// id, so insertion order is preserved and nothing is deduplicated.
    pub fn try_terms_of_use(self, value: TermOfUse) -> (r: Result<Self, BuildError>)
        ensures
            value.policy_type@.len() > 0 ==> (r matches Ok(b) && b == (PresentationBuilder {
                terms_of_use: b.terms_of_use,
                ..self
            }) && b.terms_of_use@ == self.terms_of_use@.push(value)),
            value.policy_type@.len() == 0 ==> r == Err::<Self, BuildError>(
                BuildError::InvalidShape(Field::TermsOfUse),
            ),
    {
        if value.policy_type.as_str().is_empty() {
            return Err(BuildError::InvalidShape(Field::TermsOfUse));
        }
        let mut b = self;
        b.terms_of_use.push(value);
        Ok(b)
    }

    /// Consumes the builder.  Fails when no presentation type was set or
    /// when no credential was added; otherwise returns the immutable
    /// presentation, with the base context and base presentation type
    /// prepended to what the caller added.
    pub fn build(self) -> (r: Result<Presentation, BuildError>)
        ensures
            r is Ok <==> self.types@.len() > 0 && self.verifiable_credentials@.len() > 0,
            self.types@.len() == 0 ==> r == Err::<Presentation, BuildError>(
                BuildError::MissingRequiredField(Field::Type),
            ),
            self.types@.len() > 0 && self.verifiable_credentials@.len() == 0 ==> r == Err::<
                Presentation,
                BuildError,
            >(BuildError::MissingRequiredField(Field::VerifiableCredential)),
            self.types@.len() > 0 && self.verifiable_credentials@.len() > 0 ==> (r matches Ok(p)
                && p.contexts@.len() == self.contexts@.len() + 1 && p.contexts@[0]@
                == base_credential_context() && p.contexts@.skip(1) == self.contexts@
                && p.types@.len() == self.types@.len() + 1 && p.types@[0]@
                == base_presentation_type() && p.types@.skip(1) == self.types@ && p.id == self.id
                && p.verifiable_credentials == self.verifiable_credentials && p.refresh_service
                == self.refresh_service && p.terms_of_use == self.terms_of_use),
    {
        if self.types.len() == 0 {
            return Err(BuildError::MissingRequiredField(Field::Type));
        }
        if self.verifiable_credentials.len() == 0 {
            return Err(BuildError::MissingRequiredField(Field::VerifiableCredential));
        }
        let mut contexts: Vec<String> = Vec::new();
        contexts.push(String::from_str("https://www.w3.org/2018/credentials/v1"));
        append_all(&mut contexts, &self.contexts);
        let mut types: Vec<String> = Vec::new();
        types.push(String::from_str("VerifiablePresentation"));
        append_all(&mut types, &self.types);
        proof {
            assert(contexts@.skip(1) =~= self.contexts@);
            assert(types@.skip(1) =~= self.types@);
        }
        Ok(
            Presentation {
                contexts,
                id: self.id,
                types,
                verifiable_credentials: self.verifiable_credentials,
                refresh_service: self.refresh_service,
                terms_of_use: self.terms_of_use,
            },
        )
    }
}

} // verus!
