use vstd::prelude::*;

use crate::errors::{BuildError, Field};
use crate::timestamp::Timestamp;

verus! {

/// The base context URI that every credential's context sequence starts
/// with.
pub open spec fn base_credential_context() -> Seq<char> {
    "https://www.w3.org/2018/credentials/v1"@
}

/// The base type that every credential carries in addition to its
/// specific types.
pub open spec fn base_credential_type() -> Seq<char> {
    "VerifiableCredential"@
}

/// The subject of a credential: the identifier of whom the claims are
/// about, plus the claims themselves as an ordered name-to-value mapping.
#[derive(Clone, Debug)]
pub struct Subject {
    pub id: String,
    pub claims: Vec<(String, String)>,
}

/// A descriptor pointing to where an expired credential can be renewed.
#[derive(Clone, Debug)]
pub struct RefreshService {
    pub id: String,
    pub service_type: String,
}

/// A policy descriptor governing the permitted use of a credential or
/// presentation.
#[derive(Clone, Debug)]
pub struct TermOfUse {
    pub policy_type: String,
    pub id: Option<String>,
}

/// An assertion about a subject, immutable once built.  Its context
/// sequence starts with the base credentials context and its type
/// sequence with the base credential type.
#[derive(Clone, Debug)]
pub struct Credential {
    pub contexts: Vec<String>,
    pub id: Option<String>,
    pub types: Vec<String>,
    pub issuer: String,
    pub issuance_date: Timestamp,
    pub expiration_date: Option<Timestamp>,
    pub subject: Subject,
    pub refresh_service: Option<RefreshService>,
    pub terms_of_use: Vec<TermOfUse>,
}

/// Accumulates the fields of a credential through chained setters and is
/// consumed by `build`, which either produces an immutable `Credential`
/// or fails on the first rule broken.
#[derive(Debug)]
pub struct CredentialBuilder {
    pub contexts: Vec<String>,
    pub id: Option<String>,
    pub types: Vec<String>,
    pub issuer: Option<String>,
    pub issuance_date: Option<Timestamp>,
    pub expiration_date: Option<Timestamp>,
    pub subject: Option<Subject>,
    pub refresh_service: Option<RefreshService>,
    pub terms_of_use: Vec<TermOfUse>,
}

/// Copies every element of `src` onto the end of `dst`, in order.
pub fn append_all(dst: &mut Vec<String>, src: &Vec<String>)
    ensures
        final(dst)@ == old(dst)@ + src@,
{
    let n = src.len();
    let mut i: usize = 0;
    while i < n
        invariant
            n == src@.len(),
            i <= n,
            dst@ == old(dst)@ + src@.take(i as int),
        decreases n - i,
    {
        dst.push(src[i].clone());
        proof {
            assert(dst@ =~= old(dst)@ + src@.take(i + 1));
        }
        i += 1;
    }
    proof {
        assert(old(dst)@ + src@.take(n as int) =~= old(dst)@ + src@);
    }
}

impl CredentialBuilder {
    /// Every required field has been set, and the subject names whom the
    /// claims are about.
    pub open spec fn complete(self) -> bool {
        &&& self.contexts@.len() > 0
        &&& self.types@.len() > 0
        &&& self.issuer is Some
        &&& match self.subject {
            Some(s) => s.id@.len() > 0,
            None => false,
        }
        &&& self.issuance_date is Some
    }

    /// The expiration date, when set, does not precede the issuance date.
    pub open spec fn temporally_consistent(self) -> bool {
        match (self.issuance_date, self.expiration_date) {
            (Some(iss), Some(exp)) => exp.seconds >= iss.seconds,
            _ => true,
        }
    }

    pub fn new() -> (r: Self)
        ensures
            r.contexts@.len() == 0,
            r.id is None,
            r.types@.len() == 0,
            r.issuer is None,
            r.issuance_date is None,
            r.expiration_date is None,
            r.subject is None,
            r.refresh_service is None,
            r.terms_of_use@.len() == 0,
    {
        CredentialBuilder {
            contexts: Vec::new(),
            id: None,
            types: Vec::new(),
            issuer: None,
            issuance_date: None,
            expiration_date: None,
            subject: None,
            refresh_service: None,
            terms_of_use: Vec::new(),
        }
    }

    /// Appends a context URI; contexts are kept in insertion order.
    pub fn context(self, value: String) -> (r: Self)
        ensures
            r == (CredentialBuilder { contexts: r.contexts, ..self }),
            r.contexts@ == self.contexts@.push(value),
    {
        let mut b = self;
        b.contexts.push(value);
        b
    }

    pub fn id(self, value: String) -> (r: Self)
        ensures
            r == (CredentialBuilder { id: r.id, ..self }),
            r.id == Some(value),
    {
        let mut b = self;
        b.id = Some(value);
        b
    }

    /// Appends a specific credential type; types are kept in insertion
    /// order.
    pub fn type_(self, value: String) -> (r: Self)
        ensures
            r == (CredentialBuilder { types: r.types, ..self }),
            r.types@ == self.types@.push(value),
    {
        let mut b = self;
        b.types.push(value);
        b
    }

    pub fn issuer(self, value: String) -> (r: Self)
        ensures
            r == (CredentialBuilder { issuer: r.issuer, ..self }),
            r.issuer == Some(value),
    {
        let mut b = self;
        b.issuer = Some(value);
        b
    }

    pub fn issuance_date(self, value: Timestamp) -> (r: Self)
        ensures
            r == (CredentialBuilder { issuance_date: r.issuance_date, ..self }),
            r.issuance_date == Some(value),
    {
        let mut b = self;
        b.issuance_date = Some(value);
        b
    }

    pub fn expiration_date(self, value: Timestamp) -> (r: Self)
        ensures
            r == (CredentialBuilder { expiration_date: r.expiration_date, ..self }),
            r.expiration_date == Some(value),
    {
        let mut b = self;
        b.expiration_date = Some(value);
        b
    }

    /// Records the subject after checking its shape eagerly: the subject
    /// must name a non-empty `id`.
    pub fn try_subject(self, value: Subject) -> (r: Result<Self, BuildError>)
        ensures
            value.id@.len() > 0 ==> (r matches Ok(b) && b == (CredentialBuilder {
                subject: b.subject,
                ..self
            }) && b.subject == Some(value)),
            value.id@.len() == 0 ==> r == Err::<Self, BuildError>(
                BuildError::InvalidShape(Field::Subject),
            ),
    {
        if value.id.as_str().is_empty() {
            return Err(BuildError::InvalidShape(Field::Subject));
        }
        let mut b = self;
        b.subject = Some(value);
        Ok(b)
    }

    /// Records the refresh service after checking its shape eagerly: the
    /// descriptor must name a non-empty type.
    pub fn try_refresh_service(self, value: RefreshService) -> (r: Result<Self, BuildError>)
        ensures
            value.service_type@.len() > 0 ==> (r matches Ok(b) && b == (CredentialBuilder {
                refresh_service: b.refresh_service,
                ..self
            }) && b.refresh_service == Some(value)),
            value.service_type@.len() == 0 ==> r == Err::<Self, BuildError>(
                BuildError::InvalidShape(Field::RefreshService),
            ),
    {
        if value.service_type.as_str().is_empty() {
            return Err(BuildError::InvalidShape(Field::RefreshService));
        }
        let mut b = self;
        b.refresh_service = Some(value);
        Ok(b)
    }

    /// Appends a terms-of-use entry after checking its shape eagerly: the
    /// entry must name a non-empty type.  Entries are preserved in
    /// insertion order and never deduplicated.
    pub fn try_terms_of_use(self, value: TermOfUse) -> (r: Result<Self, BuildError>)
        ensures
            value.policy_type@.len() > 0 ==> (r matches Ok(b) && b == (CredentialBuilder {
                terms_of_use: b.terms_of_use,
                ..self
            }) && b.terms_of_use@ == self.terms_of_use@.push(value)),
            value.policy_type@.len() == 0 ==> r == Err::<Self, BuildError>(
                BuildError::InvalidShape(Field::TermsOfUse),
            ),
    {
        if value.policy_type.as_str().is_empty() {
            return Err(BuildError::InvalidShape(Field::TermsOfUse));
        }
        let mut b = self;
        b.terms_of_use.push(value);
        Ok(b)
    }

    /// Consumes the builder.  Fails on the first missing required field,
    /// then on a temporal inconsistency; otherwise returns the immutable
    /// credential, with the base context and base type prepended to what
    /// the caller added.
    pub fn build(self) -> (r: Result<Credential, BuildError>)
        ensures
            r is Ok <==> self.complete() && self.temporally_consistent(),
            self.contexts@.len() == 0 ==> r == Err::<Credential, BuildError>(
                BuildError::MissingRequiredField(Field::Context),
            ),
            self.contexts@.len() > 0 && self.types@.len() == 0 ==> r == Err::<
                Credential,
                BuildError,
            >(BuildError::MissingRequiredField(Field::Type)),
            self.contexts@.len() > 0 && self.types@.len() > 0 && self.issuer is None ==> r == Err::<
                Credential,
                BuildError,
            >(BuildError::MissingRequiredField(Field::Issuer)),
            self.contexts@.len() > 0 && self.types@.len() > 0 && self.issuer is Some && !(
            match self.subject {
                Some(s) => s.id@.len() > 0,
                None => false,
            }) ==> r == Err::<Credential, BuildError>(
                BuildError::MissingRequiredField(Field::Subject),
            ),
            self.contexts@.len() > 0 && self.types@.len() > 0 && self.issuer is Some && (
            match self.subject {
                Some(s) => s.id@.len() > 0,
                None => false,
            }) && self.issuance_date is None ==> r == Err::<Credential, BuildError>(
                BuildError::MissingRequiredField(Field::IssuanceDate),
            ),
            self.complete() && !self.temporally_consistent() ==> r == Err::<
                Credential,
                BuildError,
            >(BuildError::TemporalInconsistency),
            self.complete() && self.temporally_consistent() ==> (r matches Ok(c)
                && c.contexts@.len() == self.contexts@.len() + 1 && c.contexts@[0]@
                == base_credential_context() && c.contexts@.skip(1) == self.contexts@
                && c.types@.len() == self.types@.len() + 1 && c.types@[0]@
                == base_credential_type() && c.types@.skip(1) == self.types@ && c.id == self.id && (
            self.issuer matches Some(iss) && c.issuer == iss) && (self.subject matches Some(sub)
                && c.subject == sub) && (self.issuance_date matches Some(t) && c.issuance_date == t)
                && c.expiration_date == self.expiration_date && c.refresh_service
                == self.refresh_service && c.terms_of_use == self.terms_of_use),
    {
        if self.contexts.len() == 0 {
            return Err(BuildError::MissingRequiredField(Field::Context));
        }
        if self.types.len() == 0 {
            return Err(BuildError::MissingRequiredField(Field::Type));
        }
        let issuer = match self.issuer {
            Some(iss) => iss,
            None => {
                return Err(BuildError::MissingRequiredField(Field::Issuer));
            },
        };
        let subject = match self.subject {
            Some(sub) => {
                if sub.id.as_str().is_empty() {
                    return Err(BuildError::MissingRequiredField(Field::Subject));
                }
                sub
            },
            None => {
                return Err(BuildError::MissingRequiredField(Field::Subject));
            },
        };
        let issuance_date = match self.issuance_date {
            Some(t) => t,
            None => {
                return Err(BuildError::MissingRequiredField(Field::IssuanceDate));
            },
        };
        match self.expiration_date {
            Some(exp) => {
                if exp.seconds < issuance_date.seconds {
                    return Err(BuildError::TemporalInconsistency);
                }
            },
            None => {},
        }
        let mut contexts: Vec<String> = Vec::new();
        contexts.push(String::from_str("https://www.w3.org/2018/credentials/v1"));
        append_all(&mut contexts, &self.contexts);
        let mut types: Vec<String> = Vec::new();
        types.push(String::from_str("VerifiableCredential"));
        append_all(&mut types, &self.types);
        proof {
            assert(contexts@.skip(1) =~= self.contexts@);
            assert(types@.skip(1) =~= self.types@);
        }
        Ok(
            Credential {
                contexts,
                id: self.id,
                types,
                issuer,
                issuance_date,
                expiration_date: self.expiration_date,
                subject,
                refresh_service: self.refresh_service,
                terms_of_use: self.terms_of_use,
            },
        )
    }
}

} // verus!
