use vstd::prelude::*;

use crate::did::{
    did_canonical, first_colon, first_stop, is_did_stop_char, issuer_ok, opt_part,
    segment_part_ok, segments_canonical, valid_id_segments, valid_method_name,
    well_formed_did_string, DID,
};
use crate::uri::is_valid_uri;
use crate::validator::{
    base_context_present, base_context_rules, credential_context_rules, expired_rules,
    future_issuance_rules, invalid_context_rules, issuer_rules, rule_sequence, RuleId,
};
use crate::vc::VerifiableCredential;
use crate::presentation::Presentation;

verus! {

/// Canonicalization is deterministic: two DIDs with identical fields
/// project to the identical canonical string, so repeated calls of
/// `to_string` on equal DIDs are stable.
pub proof fn lemma_canonical_deterministic(d1: DID, d2: DID)
    requires
        d1.method_name@ == d2.method_name@,
        d1.id_segments.deep_view() == d2.id_segments.deep_view(),
        d1.path.deep_view() == d2.path.deep_view(),
        d1.query.deep_view() == d2.query.deep_view(),
        d1.fragment.deep_view() == d2.fragment.deep_view(),
    ensures
        did_canonical(d1) == did_canonical(d2),
{
    assert(d1.id_segments@.len() == d1.id_segments.deep_view().len());
    assert(d2.id_segments@.len() == d2.id_segments.deep_view().len());
    lemma_opt_part_deterministic('/', d1.path, d2.path);
    lemma_opt_part_deterministic('?', d1.query, d2.query);
    lemma_opt_part_deterministic('#', d1.fragment, d2.fragment);
}

proof fn lemma_opt_part_deterministic(marker: char, a: Option<String>, b: Option<String>)
    requires
        a.deep_view() == b.deep_view(),
    ensures
        opt_part(marker, a) == opt_part(marker, b),
{
    match (a, b) {
        (Some(x), Some(y)) => {
            assert(a.deep_view() == Some(x@));
            assert(b.deep_view() == Some(y@));
            assert(x@ == y@);
        },
        (None, None) => {},
        (Some(x), None) => {
            assert(a.deep_view() == Some(x@));
            assert(false);
        },
        (None, Some(y)) => {
            assert(b.deep_view() == Some(y@));
            assert(false);
        },
    }
}

/// A segment that uses none of the characters the canonical form reserves
/// as delimiters, so that the canonical string parses back unambiguously.
pub open spec fn plain_segment(s: Seq<char>) -> bool {
    forall|j: int| 0 <= j < s.len() ==> ((#[trigger] s[j]) != ':' && !is_did_stop_char(s[j]))
}

proof fn lemma_first_stop_all_clear(s: Seq<char>, i: int)
    requires
        0 <= i <= s.len(),
        forall|j: int| i <= j < s.len() ==> !is_did_stop_char(#[trigger] s[j]),
    ensures
        first_stop(s, i) == s.len(),
    decreases s.len() - i,
{
    if i < s.len() {
        lemma_first_stop_all_clear(s, i + 1);
    }
}

proof fn lemma_first_colon_at(s: Seq<char>, i: int, e: int, k: int)
    requires
        0 <= i <= k < e <= s.len(),
        s[k] == ':',
        forall|j: int| i <= j < k ==> (#[trigger] s[j]) != ':',
    ensures
        first_colon(s, i, e) == k,
    decreases k - i,
{
    if i < k {
        lemma_first_colon_at(s, i + 1, e, k);
    }
}

proof fn lemma_segments_canonical_shape(segs: Seq<Seq<char>>, n: int)
    requires
        1 <= n <= segs.len(),
        forall|i: int| 0 <= i < segs.len() ==> (#[trigger] segs[i]).len() > 0,
        forall|i: int| 0 <= i < segs.len() ==> plain_segment(#[trigger] segs[i]),
    ensures
        ({
            let t = segments_canonical(segs, n);
            &&& t.len() >= 2
            &&& t[0] == ':'
            &&& t[1] != ':'
            &&& t[t.len() - 1] != ':'
            &&& forall|j: int| 0 <= j < t.len() ==> !is_did_stop_char(#[trigger] t[j])
            &&& forall|j: int|
                0 <= j < t.len() - 1 ==> !((#[trigger] t[j]) == ':' && t[j + 1] == ':')
        }),
    decreases n,
{
    let t = segments_canonical(segs, n);
    let sn = segs[n - 1];
    assert(plain_segment(sn));
    if n == 1 {
        assert(segments_canonical(segs, 0) == Seq::<char>::empty());
        assert(t =~= Seq::<char>::empty() + seq![':'] + sn);
        assert(t.len() == 1 + sn.len());
        assert forall|j: int| 0 <= j < t.len() implies !is_did_stop_char(#[trigger] t[j]) by {
            if j >= 1 {
                assert(t[j] == sn[j - 1]);
            }
        }
        assert(t[1] == sn[0]);
        assert(t[t.len() - 1] == sn[sn.len() - 1]);
        assert forall|j: int|
            0 <= j < t.len() - 1 implies !((#[trigger] t[j]) == ':' && t[j + 1] == ':') by {
            if j >= 1 {
                assert(t[j + 1] == sn[j]);
            } else {
                assert(t[1] == sn[0]);
            }
        }
    } else {
        lemma_segments_canonical_shape(segs, n - 1);
        let tp = segments_canonical(segs, n - 1);
        assert(t == tp + seq![':'] + sn);
        let b = tp.len() as int;
        assert(t.len() == b + 1 + sn.len());
        assert forall|j: int| 0 <= j < t.len() implies !is_did_stop_char(#[trigger] t[j]) by {
            if j < b {
                assert(t[j] == tp[j]);
            } else if j == b {
                assert(t[j] == ':');
            } else {
                assert(t[j] == sn[j - b - 1]);
            }
        }
        assert(t[0] == tp[0]);
        assert(t[1] == tp[1]);
        assert(t[t.len() - 1] == sn[sn.len() - 1]);
        assert forall|j: int|
            0 <= j < t.len() - 1 implies !((#[trigger] t[j]) == ':' && t[j + 1] == ':') by {
            if j + 1 < b {
                assert(t[j] == tp[j]);
                assert(t[j + 1] == tp[j + 1]);
            } else if j + 1 == b {
                assert(t[j] == tp[b - 1]);
                assert(tp[tp.len() - 1] != ':');
            } else if j == b {
                assert(t[j + 1] == sn[0]);
            } else {
                assert(t[j] == sn[j - b - 1]);
            }
        }
    }
}

/// The canonical string of a valid DID without path, query or fragment,
/// whose segments avoid the delimiter characters, parses back as a
/// well-formed DID string: the defensive issuer check of the validator
/// accepts it.
pub proof fn lemma_canonical_well_formed(d: DID)
    requires
        valid_method_name(d.method_name@),
        valid_id_segments(d.id_segments.deep_view()),
        forall|i: int|
            0 <= i < d.id_segments.deep_view().len() ==> plain_segment(
                #[trigger] d.id_segments.deep_view()[i],
            ),
        d.path is None,
        d.query is None,
        d.fragment is None,
    ensures
        well_formed_did_string(did_canonical(d)),
        issuer_ok(did_canonical(d)),
{
    reveal_strlit("did:");
    let m = d.method_name@;
    let segs = d.id_segments.deep_view();
    let nseg = segs.len() as int;
    assert(d.id_segments@.len() == nseg);
    let t = segments_canonical(segs, nseg);
    let s = did_canonical(d);
    lemma_segments_canonical_shape(segs, nseg);
    assert(opt_part('/', d.path) =~= Seq::<char>::empty());
    assert(opt_part('?', d.query) =~= Seq::<char>::empty());
    assert(opt_part('#', d.fragment) =~= Seq::<char>::empty());
    assert(s =~= "did:"@ + m + t);
    assert("did:"@.len() == 4);
    let p = 4 + m.len() as int;
    assert(s.len() == 4 + m.len() + t.len());
    assert(s.subrange(0, 4) =~= "did:"@);
    assert(crate::did::looks_like_did(s)) by {
        assert(s.len() >= 4);
    }
    // no stop character after the prefix
    assert forall|j: int| 4 <= j < s.len() implies !is_did_stop_char(#[trigger] s[j]) by {
        if j < p {
            assert(s[j] == m[j - 4]);
            assert(crate::did::is_method_char(m[j - 4]));
        } else {
            assert(s[j] == t[j - p]);
        }
    }
    assert forall|j: int| 0 <= j < 4 implies !is_did_stop_char(#[trigger] s[j]) by {
        assert(s[j] == "did:"@[j]);
    }
    lemma_first_stop_all_clear(s, 4);
    assert(first_stop(s, 4) == s.len());
    // the first colon after the prefix ends the method name
    assert forall|j: int| 4 <= j < p implies (#[trigger] s[j]) != ':' by {
        assert(s[j] == m[j - 4]);
        assert(crate::did::is_method_char(m[j - 4]));
    }
    assert(s[p] == t[0]);
    assert(s[p] == ':');
    lemma_first_colon_at(s, 4, s.len() as int, p);
    assert(first_colon(s, 4, first_stop(s, 4)) == p);
    assert(4 < p < s.len());
    assert forall|j: int| 4 <= j < p implies crate::did::is_method_char(#[trigger] s[j]) by {
        assert(s[j] == m[j - 4]);
    }
    // the segment part is well-shaped
    assert(s[p + 1] == t[1]);
    assert(s[s.len() - 1] == t[t.len() - 1]);
    assert forall|j: int|
        p + 1 <= j < s.len() - 1 implies !((#[trigger] s[j]) == ':' && s[j + 1] == ':') by {
        assert(s[j] == t[j - p]);
        assert(s[j + 1] == t[j + 1 - p]);
    }
    assert(segment_part_ok(s, p + 1, s.len() as int));
    assert(well_formed_did_string(s));
}

proof fn lemma_all_valid_contexts(ctxs: Seq<String>)
    requires
        forall|i: int| 0 <= i < ctxs.len() ==> is_valid_uri((#[trigger] ctxs[i])@),
    ensures
        invalid_context_rules(ctxs) == Seq::<RuleId>::empty(),
    decreases ctxs.len(),
{
    if ctxs.len() > 0 {
        assert forall|i: int|
            0 <= i < ctxs.drop_first().len() implies is_valid_uri(
            (#[trigger] ctxs.drop_first()[i])@,
        ) by {
            assert(ctxs.drop_first()[i] == ctxs[i + 1]);
        }
        lemma_all_valid_contexts(ctxs.drop_first());
        assert(invalid_context_rules(ctxs) =~= Seq::<RuleId>::empty());
    } else {
        assert(invalid_context_rules(ctxs) =~= Seq::<RuleId>::empty());
    }
}

/// Round trip: build a DID, embed its canonical string as the issuer of a
/// credential, wrap the credential and present it; then validation at a
/// clock within range reports no violation at all.  The DID must carry no
/// path, query or fragment and its segments must avoid the delimiter
/// characters, so that its canonical form parses back unambiguously; and
/// every context must be a syntactically valid URI, with the base
/// credentials context among the presentation's contexts — all of which
/// hold of built values.
pub proof fn lemma_round_trip(d: DID, vc: VerifiableCredential, p: Presentation, now: int)
    requires
        valid_method_name(d.method_name@),
        valid_id_segments(d.id_segments.deep_view()),
        forall|i: int|
            0 <= i < d.id_segments.deep_view().len() ==> plain_segment(
                #[trigger] d.id_segments.deep_view()[i],
            ),
        d.path is None,
        d.query is None,
        d.fragment is None,
        vc.credential.issuer@ == did_canonical(d),
        vc.credential.issuance_date.seconds <= now,
        vc.credential.expiration_date matches Some(exp) ==> exp.seconds >= now,
        forall|i: int|
            0 <= i < vc.credential.contexts@.len() ==> is_valid_uri(
                (#[trigger] vc.credential.contexts@[i])@,
            ),
        forall|i: int| 0 <= i < p.contexts@.len() ==> is_valid_uri((#[trigger] p.contexts@[i])@),
        base_context_present(p.contexts@),
        p.verifiable_credentials@ == seq![vc],
    ensures
        rule_sequence(p, now, 0) == Seq::<RuleId>::empty(),
{
    let creds = p.verifiable_credentials@;
    assert(creds.len() == 1);
    assert(creds[0] == vc);
    assert(creds.drop_first() =~= Seq::<VerifiableCredential>::empty());
    let empty_creds = Seq::<VerifiableCredential>::empty();
    assert(future_issuance_rules(empty_creds, now, 0) == Seq::<RuleId>::empty());
    assert(expired_rules(empty_creds, now, 0) == Seq::<RuleId>::empty());
    assert(credential_context_rules(empty_creds) == Seq::<RuleId>::empty());
    assert(base_context_rules(empty_creds, base_context_present(p.contexts@)) == Seq::<
        RuleId,
    >::empty());
    assert(issuer_rules(empty_creds) == Seq::<RuleId>::empty());
    assert(future_issuance_rules(creds, now, 0) =~= Seq::<RuleId>::empty());
    assert(expired_rules(creds, now, 0) =~= Seq::<RuleId>::empty());
    lemma_all_valid_contexts(p.contexts@);
    lemma_all_valid_contexts(vc.credential.contexts@);
    assert(credential_context_rules(creds) =~= Seq::<RuleId>::empty());
    assert(base_context_rules(creds, base_context_present(p.contexts@)) =~= Seq::<
        RuleId,
    >::empty());
    lemma_canonical_well_formed(d);
    assert(issuer_ok(creds[0].credential.issuer@));
    assert(issuer_rules(creds) =~= Seq::<RuleId>::empty());
    assert(rule_sequence(p, now, 0) =~= Seq::<RuleId>::empty());
}

} // verus!
