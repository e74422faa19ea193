use vstd::prelude::*;

verus! {

/// A field of a credential or presentation builder, named so that errors
/// can report which field was missing or malformed.
#[derive(Clone, Copy, Debug, PartialEq, Eq, Structural)]
pub enum Field {
    Context,
    Type,
    Issuer,
    Subject,
    IssuanceDate,
    VerifiableCredential,
    RefreshService,
    TermsOfUse,
}

/// Why a DID, credential or presentation could not be built.
///
/// Builder errors fail the specific call immediately and are surfaced to
/// the caller verbatim: they are deterministic functions of the input, so
/// nothing is retried.
#[derive(Clone, Copy, Debug, PartialEq, Eq, Structural)]
pub enum BuildError {
    /// The method name or the identifier segments break the DID invariants.
    MalformedDID,
    /// A required field was never set before `build` was called.
    MissingRequiredField(Field),
    /// A structured field lacks its minimum required parts.
    InvalidShape(Field),
    /// An expiration date lies strictly before the issuance date.
    TemporalInconsistency,
}

} // verus!
