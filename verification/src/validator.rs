use vstd::prelude::*;

use crate::credential::base_credential_context;
use crate::did::issuer_ok;
use crate::presentation::Presentation;
use crate::timestamp::Timestamp;
use crate::uri::is_valid_uri;
use crate::vc::VerifiableCredential;

verus! {

/// The validation rules, in the order the validator applies them:
/// the presentation must embed at least one credential; no credential may
/// be issued after "now"; no expired credential; every context URI must
/// be syntactically valid; the presentation's contexts must include the
/// base credentials context required by each embedded credential; and a
/// DID-shaped issuer must satisfy the DID invariants.
#[derive(Clone, Copy, Debug, PartialEq, Eq, Structural)]
pub enum RuleId {
    EmptyPresentation,
    IssuedInFuture,
    ExpiredCredential,
    InvalidContextUri,
    MissingBaseContext,
    MalformedIssuer,
}

/// One violation: the rule that fired and a human-readable message.
#[derive(Clone, Debug)]
pub struct ValidationError {
    pub rule_id: RuleId,
    pub message: String,
}

/// The outcome of validating a presentation: `valid` exactly when the
/// error list is empty.  A failed validation is a legitimate result the
/// caller branches on, never an exception.
#[derive(Clone, Debug)]
pub struct ValidationReport {
    pub valid: bool,
    pub errors: Vec<ValidationError>,
}

/// The rule tags of an error list, in order.
pub open spec fn error_rules(es: Seq<ValidationError>) -> Seq<RuleId> {
    es.map_values(|e: ValidationError| e.rule_id)
}

/// Every error message matches its rule's fixed message.
pub open spec fn messages_consistent(es: Seq<ValidationError>) -> bool {
    forall|i: int|
        0 <= i < es.len() ==> (#[trigger] es[i]).message@ == rule_message(es[i].rule_id)
}

/// The fixed message attached to each rule's violations.
pub open spec fn rule_message(rule_id: RuleId) -> Seq<char> {
    match rule_id {
        RuleId::EmptyPresentation => "presentation holds no verifiable credential"@,
        RuleId::IssuedInFuture => "credential issuance date lies in the future"@,
        RuleId::ExpiredCredential => "credential expiration date has passed"@,
        RuleId::InvalidContextUri => "context entry is not a valid URI"@,
        RuleId::MissingBaseContext => "presentation contexts lack the base credentials context"@,
        RuleId::MalformedIssuer => "issuer looks like a DID but is malformed"@,
    }
}

/// The presentation's context sequence holds the base credentials
/// context.
pub open spec fn base_context_present(ctxs: Seq<String>) -> bool {
    exists|i: int| 0 <= i < ctxs.len() && (#[trigger] ctxs[i])@ == base_credential_context()
}

/// One violation per credential issued strictly after `now`, beyond the
/// clock skew tolerance.
pub open spec fn future_issuance_rules(
    creds: Seq<VerifiableCredential>,
    now: int,
    skew: int,
) -> Seq<RuleId>
    decreases creds.len(),
{
    if creds.len() == 0 {
        Seq::empty()
    } else {
        (if creds[0].credential.issuance_date.seconds > now + skew {
            seq![RuleId::IssuedInFuture]
        } else {
            Seq::empty()
        }) + future_issuance_rules(creds.drop_first(), now, skew)
    }
}

/// One violation per credential whose expiration date lies strictly
/// before `now`, beyond the clock skew tolerance.
pub open spec fn expired_rules(
    creds: Seq<VerifiableCredential>,
    now: int,
    skew: int,
) -> Seq<RuleId>
    decreases creds.len(),
{
    if creds.len() == 0 {
        Seq::empty()
    } else {
        (match creds[0].credential.expiration_date {
            Some(exp) => if exp.seconds < now - skew {
                seq![RuleId::ExpiredCredential]
            } else {
                Seq::empty()
            },
            None => Seq::empty(),
        }) + expired_rules(creds.drop_first(), now, skew)
    }
}

/// One violation per context entry that is not a syntactically valid URI.
pub open spec fn invalid_context_rules(ctxs: Seq<String>) -> Seq<RuleId>
    decreases ctxs.len(),
{
    if ctxs.len() == 0 {
        Seq::empty()
    } else {
        (if !is_valid_uri(ctxs[0]@) {
            seq![RuleId::InvalidContextUri]
        } else {
            Seq::empty()
        }) + invalid_context_rules(ctxs.drop_first())
    }
}

/// The context violations of each embedded credential, credential by
/// credential in order.
pub open spec fn credential_context_rules(creds: Seq<VerifiableCredential>) -> Seq<RuleId>
    decreases creds.len(),
{
    if creds.len() == 0 {
        Seq::empty()
    } else {
        invalid_context_rules(creds[0].credential.contexts@) + credential_context_rules(
            creds.drop_first(),
        )
    }
}

/// One violation per embedded credential when the presentation's contexts
/// lack the base context that each credential requires.
pub open spec fn base_context_rules(creds: Seq<VerifiableCredential>, has_base: bool) -> Seq<
    RuleId,
>
    decreases creds.len(),
{
    if creds.len() == 0 {
        Seq::empty()
    } else {
        (if !has_base {
            seq![RuleId::MissingBaseContext]
        } else {
            Seq::empty()
        }) + base_context_rules(creds.drop_first(), has_base)
    }
}

/// One violation per credential whose issuer looks like a DID but breaks
/// the DID invariants.
pub open spec fn issuer_rules(creds: Seq<VerifiableCredential>) -> Seq<RuleId>
    decreases creds.len(),
{
    if creds.len() == 0 {
        Seq::empty()
    } else {
        (if !issuer_ok(creds[0].credential.issuer@) {
            seq![RuleId::MalformedIssuer]
        } else {
            Seq::empty()
        }) + issuer_rules(creds.drop_first())
    }
}

/// Every violation of the presentation, rule by rule in order.  This is
/// the full picture the validator reports: it never stops at the first
/// failure.
pub open spec fn rule_sequence(p: Presentation, now: int, skew: int) -> Seq<RuleId> {
    (if p.verifiable_credentials@.len() == 0 {
        seq![RuleId::EmptyPresentation]
    } else {
        Seq::empty()
    }) + future_issuance_rules(p.verifiable_credentials@, now, skew) + expired_rules(
        p.verifiable_credentials@,
        now,
        skew,
    ) + invalid_context_rules(p.contexts@) + credential_context_rules(p.verifiable_credentials@)
        + base_context_rules(
        p.verifiable_credentials@,
        base_context_present(p.contexts@),
    ) + issuer_rules(p.verifiable_credentials@)
}

proof fn lemma_error_rules_push(es: Seq<ValidationError>, e: ValidationError)
    ensures
        error_rules(es.push(e)) == error_rules(es).push(e.rule_id),
{
    assert(error_rules(es.push(e)) =~= error_rules(es).push(e.rule_id));
}

fn new_error(rule_id: RuleId) -> (r: ValidationError)
    ensures
        r.rule_id == rule_id,
        r.message@ == rule_message(rule_id),
{
    let message = match rule_id {
        RuleId::EmptyPresentation => String::from_str(
            "presentation holds no verifiable credential",
        ),
        RuleId::IssuedInFuture => String::from_str("credential issuance date lies in the future"),
        RuleId::ExpiredCredential => String::from_str("credential expiration date has passed"),
        RuleId::InvalidContextUri => String::from_str("context entry is not a valid URI"),
        RuleId::MissingBaseContext => String::from_str(
            "presentation contexts lack the base credentials context",
        ),
        RuleId::MalformedIssuer => String::from_str("issuer looks like a DID but is malformed"),
    };
    ValidationError { rule_id, message }
}

fn push_error(errors: &mut Vec<ValidationError>, rule_id: RuleId)
    ensures
        error_rules(final(errors)@) == error_rules(old(errors)@).push(rule_id),
        messages_consistent(old(errors)@) ==> messages_consistent(final(errors)@),
{
    let e = new_error(rule_id);
    proof {
        lemma_error_rules_push(errors@, e);
    }
    errors.push(e);
}

fn contains_base_context(ctxs: &Vec<String>) -> (r: bool)
    ensures
        r == base_context_present(ctxs@),
{
    let base = String::from_str("https://www.w3.org/2018/credentials/v1");
    let n = ctxs.len();
    proof {
        assert(ctxs@.skip(0) =~= ctxs@);
    }
    let mut i: usize = 0;
    while i < n
        invariant
            n == ctxs@.len(),
            i <= n,
            base@ == base_credential_context(),
            forall|j: int| 0 <= j < i ==> (#[trigger] ctxs@[j])@ != base_credential_context(),
        decreases n - i,
    {
        if ctxs[i] == base {
            return true;
        }
        i += 1;
    }
    false
}

fn push_invalid_contexts(errors: &mut Vec<ValidationError>, ctxs: &Vec<String>)
    ensures
        error_rules(final(errors)@) == error_rules(old(errors)@) + invalid_context_rules(ctxs@),
        messages_consistent(old(errors)@) ==> messages_consistent(final(errors)@),
{
    let n = ctxs.len();
    proof {
        assert(ctxs@.skip(0) =~= ctxs@);
    }
    let mut i: usize = 0;
    while i < n
        invariant
            n == ctxs@.len(),
            i <= n,
            error_rules(errors@) + invalid_context_rules(ctxs@.skip(i as int)) == error_rules(
                old(errors)@,
            ) + invalid_context_rules(ctxs@),
            messages_consistent(old(errors)@) ==> messages_consistent(errors@),
        decreases n - i,
    {
        proof {
            assert(ctxs@.skip(i as int).drop_first() =~= ctxs@.skip(i + 1));
            assert(ctxs@.skip(i as int)[0] == ctxs@[i as int]);
        }
        let ghost before = error_rules(errors@);
        if !crate::uri::check_uri(ctxs[i].as_str()) {
            push_error(errors, RuleId::InvalidContextUri);
            proof {
                assert(before.push(RuleId::InvalidContextUri) + invalid_context_rules(
                    ctxs@.skip(i + 1),
                ) =~= before + invalid_context_rules(ctxs@.skip(i as int)));
            }
        }
        i += 1;
    }
    proof {
        assert(ctxs@.skip(n as int) =~= Seq::<String>::empty());
        assert(error_rules(errors@) + Seq::<RuleId>::empty() =~= error_rules(errors@));
        assert(error_rules(old(errors)@) + invalid_context_rules(ctxs@) =~= error_rules(
            errors@,
        ));
    }
}

impl Presentation {
    /// Validates this presentation against the injected clock `now` with
    /// zero clock skew tolerance.
    pub fn validate(&self, now: Timestamp) -> (r: ValidationReport)
        ensures
            error_rules(r.errors@) == rule_sequence(*self, now.seconds as int, 0),
            messages_consistent(r.errors@),
            r.valid <==> rule_sequence(*self, now.seconds as int, 0).len() == 0,
    {
        validate_with_skew(self, now, 0)
    }
}

/// Validates a presentation against the injected clock `now` with zero
/// clock skew tolerance.
pub fn validate(p: &Presentation, now: Timestamp) -> (r: ValidationReport)
    ensures
        error_rules(r.errors@) == rule_sequence(*p, now.seconds as int, 0),
        messages_consistent(r.errors@),
        r.valid <==> rule_sequence(*p, now.seconds as int, 0).len() == 0,
{
    validate_with_skew(p, now, 0)
}

/// Validates a presentation against the injected clock `now`, tolerating
/// the given clock skew in seconds.  Pure and total: every violation is
/// collected into the report, in rule order, and nothing is thrown.
pub fn validate_with_skew(p: &Presentation, now: Timestamp, skew_seconds: u32) -> (r:
    ValidationReport)
    ensures
        error_rules(r.errors@) == rule_sequence(*p, now.seconds as int, skew_seconds as int),
        messages_consistent(r.errors@),
        r.valid <==> rule_sequence(*p, now.seconds as int, skew_seconds as int).len() == 0,
{
    let ghost now_s: int = now.seconds as int;
    let ghost skew: int = skew_seconds as int;
    let creds = &p.verifiable_credentials;
    let mut errors: Vec<ValidationError> = Vec::new();

    // at least one embedded credential
    if creds.len() == 0 {
        push_error(&mut errors, RuleId::EmptyPresentation);
    }
    let ghost after_empty = error_rules(errors@);

    // issuance dates not in the future
    let n = creds.len();
    proof {
        assert(creds@.skip(0) =~= creds@);
    }
    let mut i: usize = 0;
    while i < n
        invariant
            n == creds@.len(),
            i <= n,
            error_rules(errors@) + future_issuance_rules(creds@.skip(i as int), now_s, skew)
                == after_empty + future_issuance_rules(creds@, now_s, skew),
            messages_consistent(errors@),
            now_s == now.seconds as int,
            skew == skew_seconds as int,
        decreases n - i,
    {
        proof {
            assert(creds@.skip(i as int).drop_first() =~= creds@.skip(i + 1));
            assert(creds@.skip(i as int)[0] == creds@[i as int]);
        }
        let ghost before = error_rules(errors@);
        if (creds[i].credential.issuance_date.seconds as i128) > (now.seconds as i128) + (
        skew_seconds as i128) {
            push_error(&mut errors, RuleId::IssuedInFuture);
            proof {
                assert(before.push(RuleId::IssuedInFuture) + future_issuance_rules(
                    creds@.skip(i + 1),
                    now_s,
                    skew,
                ) =~= before + future_issuance_rules(creds@.skip(i as int), now_s, skew));
            }
        }
        i += 1;
    }
    proof {
        assert(creds@.skip(n as int) =~= Seq::<VerifiableCredential>::empty());
        assert(error_rules(errors@) =~= after_empty + future_issuance_rules(
            creds@,
            now_s,
            skew,
        ));
    }
    let ghost after_future = error_rules(errors@);

    // expiration dates not in the past
    let mut i: usize = 0;
    while i < n
        invariant
            n == creds@.len(),
            i <= n,
            error_rules(errors@) + expired_rules(creds@.skip(i as int), now_s, skew)
                == after_future + expired_rules(creds@, now_s, skew),
            messages_consistent(errors@),
            now_s == now.seconds as int,
            skew == skew_seconds as int,
        decreases n - i,
    {
        proof {
            assert(creds@.skip(i as int).drop_first() =~= creds@.skip(i + 1));
            assert(creds@.skip(i as int)[0] == creds@[i as int]);
        }
        let ghost before = error_rules(errors@);
        let expired = match &creds[i].credential.expiration_date {
            Some(exp) => (exp.seconds as i128) < (now.seconds as i128) - (skew_seconds as i128),
            None => false,
        };
        if expired {
            push_error(&mut errors, RuleId::ExpiredCredential);
            proof {
                assert(before.push(RuleId::ExpiredCredential) + expired_rules(
                    creds@.skip(i + 1),
                    now_s,
                    skew,
                ) =~= before + expired_rules(creds@.skip(i as int), now_s, skew));
            }
        }
        i += 1;
    }
    proof {
        assert(creds@.skip(n as int) =~= Seq::<VerifiableCredential>::empty());
        assert(error_rules(errors@) =~= after_future + expired_rules(creds@, now_s, skew));
    }
    let ghost after_expired = error_rules(errors@);

    // every context URI, presentation-level first, must be syntactically valid
    push_invalid_contexts(&mut errors, &p.contexts);
    let ghost after_pres_ctx = error_rules(errors@);

    let mut i: usize = 0;
    while i < n
        invariant
            n == creds@.len(),
            i <= n,
            error_rules(errors@) + credential_context_rules(creds@.skip(i as int))
                == after_pres_ctx + credential_context_rules(creds@),
            messages_consistent(errors@),
        decreases n - i,
    {
        proof {
            assert(creds@.skip(i as int).drop_first() =~= creds@.skip(i + 1));
            assert(creds@.skip(i as int)[0] == creds@[i as int]);
        }
        let ghost before = error_rules(errors@);
        push_invalid_contexts(&mut errors, &creds[i].credential.contexts);
        proof {
            assert((before + invalid_context_rules(creds@[i as int].credential.contexts@))
                + credential_context_rules(creds@.skip(i + 1)) =~= before + (
            invalid_context_rules(creds@[i as int].credential.contexts@)
                + credential_context_rules(creds@.skip(i + 1))));
        }
        i += 1;
    }
    proof {
        assert(creds@.skip(n as int) =~= Seq::<VerifiableCredential>::empty());
        assert(error_rules(errors@) =~= after_pres_ctx + credential_context_rules(creds@));
    }
    let ghost after_cred_ctx = error_rules(errors@);

    // the presentation's contexts must cover each credential's base context
    let has_base = contains_base_context(&p.contexts);
    let mut i: usize = 0;
    while i < n
        invariant
            n == creds@.len(),
            i <= n,
            has_base == base_context_present(p.contexts@),
            error_rules(errors@) + base_context_rules(creds@.skip(i as int), has_base)
                == after_cred_ctx + base_context_rules(creds@, has_base),
            messages_consistent(errors@),
        decreases n - i,
    {
        proof {
            assert(creds@.skip(i as int).drop_first() =~= creds@.skip(i + 1));
        }
        let ghost before = error_rules(errors@);
        if !has_base {
            push_error(&mut errors, RuleId::MissingBaseContext);
            proof {
                assert(before.push(RuleId::MissingBaseContext) + base_context_rules(
                    creds@.skip(i + 1),
                    has_base,
                ) =~= before + base_context_rules(creds@.skip(i as int), has_base));
            }
        }
        i += 1;
    }
    proof {
        assert(creds@.skip(n as int) =~= Seq::<VerifiableCredential>::empty());
        assert(error_rules(errors@) =~= after_cred_ctx + base_context_rules(
            creds@,
            base_context_present(p.contexts@),
        ));
    }
    let ghost after_base = error_rules(errors@);

    // DID-shaped issuers must satisfy the DID invariants
    let mut i: usize = 0;
    while i < n
        invariant
            n == creds@.len(),
            i <= n,
            error_rules(errors@) + issuer_rules(creds@.skip(i as int)) == after_base
                + issuer_rules(creds@),
            messages_consistent(errors@),
        decreases n - i,
    {
        proof {
            assert(creds@.skip(i as int).drop_first() =~= creds@.skip(i + 1));
            assert(creds@.skip(i as int)[0] == creds@[i as int]);
        }
        let ghost before = error_rules(errors@);
        if !crate::did::check_issuer(creds[i].credential.issuer.as_str()) {
            push_error(&mut errors, RuleId::MalformedIssuer);
            proof {
                assert(before.push(RuleId::MalformedIssuer) + issuer_rules(creds@.skip(i + 1))
                    =~= before + issuer_rules(creds@.skip(i as int)));
            }
        }
        i += 1;
    }
    proof {
        assert(creds@.skip(n as int) =~= Seq::<VerifiableCredential>::empty());
        assert(error_rules(errors@) =~= after_base + issuer_rules(creds@));
        assert(error_rules(errors@) =~= rule_sequence(*p, now_s, skew));
    }

    let valid = errors.len() == 0;
    proof {
        assert(errors@.len() == error_rules(errors@).len());
    }
    ValidationReport { valid, errors }
}

} // verus!
