use vstd::prelude::*;

use crate::credential::{base_credential_context, CredentialBuilder, RefreshService, Subject, TermOfUse};
use crate::did::{build_did, did_canonical, valid_id_segments, valid_method_name, DID};
use crate::laws::{lemma_round_trip, plain_segment};
use crate::presentation::PresentationBuilder;
use crate::timestamp::Timestamp;
use crate::uri::{is_valid_uri, uri_split_at};
use crate::validator::{validate, ValidationReport};
use crate::vc::{Properties, VerifiableCredential};

verus! {

proof fn lemma_sample_strings()
    ensures
        valid_method_name("iota"@),
        "alice"@.len() > 0,
        plain_segment("alice"@),
        is_valid_uri(base_credential_context()),
        is_valid_uri("https://www.w3.org/2018/credentials/examples/v1"@),
{
    reveal_strlit("iota");
    reveal_strlit("alice");
    reveal_strlit("https://www.w3.org/2018/credentials/v1");
    reveal_strlit("https://www.w3.org/2018/credentials/examples/v1");
    assert(valid_method_name("iota"@));
    assert(plain_segment("alice"@));
    assert(uri_split_at("https://www.w3.org/2018/credentials/v1"@, 5));
    assert(uri_split_at("https://www.w3.org/2018/credentials/examples/v1"@, 5));
}

/// The exchange the demo endpoint runs end to end: build the `iota`
/// method DID for `alice`, issue a prescription credential about that
/// subject at the injected clock, wrap it with empty proof material,
/// present it, and validate the presentation at the same clock.  The
/// canonical DID string comes back together with the validation report,
/// which is proven clean.
pub fn sample_exchange(now: Timestamp) -> (r: (String, ValidationReport))
    ensures
        r.0@ == "did:iota:alice"@,
        r.1.valid,
        r.1.errors@.len() == 0,
{
    proof {
        lemma_sample_strings();
    }
    let mut segments: Vec<String> = Vec::new();
    segments.push(String::from_str("alice"));
    proof {
        assert(segments.deep_view() =~= seq!["alice"@]);
        assert(valid_id_segments(segments.deep_view()));
    }
    let did: DID = match build_did(String::from_str("iota"), segments) {
        Ok(d) => d,
        Err(_) => {
            proof {
                assert(false);
            }
            vstd::pervasive::unreached()
        },
    };
    let did_string = did.to_string();
    proof {
        reveal_strlit("did:");
        reveal_strlit("iota");
        reveal_strlit("alice");
        reveal_strlit("did:iota:alice");
        assert(crate::did::segments_canonical(did.id_segments.deep_view(), 0)
            == Seq::<char>::empty());
        assert(did_string@ =~= "did:iota:alice"@);
    }

    let credential = match CredentialBuilder::new().issuer(did.to_string()).context(
        String::from_str("https://www.w3.org/2018/credentials/examples/v1"),
    ).type_(String::from_str("PrescriptionCredential")).try_subject(
        Subject { id: String::from_str("did:iota:alice"), claims: Vec::new() },
    ) {
        Ok(b) => {
            proof {
                reveal_strlit("did:iota:alice");
            }
            match b.issuance_date(now).build() {
                Ok(c) => c,
                Err(_) => {
                    proof {
                        assert(false);
                    }
                    vstd::pervasive::unreached()
                },
            }
        },
        Err(_) => {
            proof {
                reveal_strlit("did:iota:alice");
                assert(false);
            }
            vstd::pervasive::unreached()
        },
    };

    let verifiable = VerifiableCredential::new(credential, Properties::new());

    let builder = PresentationBuilder::new().context(
        String::from_str("https://www.w3.org/2018/credentials/examples/v1"),
    ).id(String::from_str("did:example:id:123")).type_(
        String::from_str("PrescriptionCredential"),
    ).credential(verifiable);
    let builder = match builder.try_refresh_service(
        RefreshService { id: String::new(), service_type: String::from_str("Refresh2020") },
    ) {
        Ok(b) => b,
        Err(_) => {
            proof {
                reveal_strlit("Refresh2020");
                assert(false);
            }
            vstd::pervasive::unreached()
        },
    };
    let builder = match builder.try_terms_of_use(
        TermOfUse { policy_type: String::from_str("Policy2019"), id: None },
    ) {
        Ok(b) => b,
        Err(_) => {
            proof {
                reveal_strlit("Policy2019");
                assert(false);
            }
            vstd::pervasive::unreached()
        },
    };
    let builder = match builder.try_terms_of_use(
        TermOfUse { policy_type: String::from_str("Policy2020"), id: None },
    ) {
        Ok(b) => b,
        Err(_) => {
            proof {
                reveal_strlit("Policy2020");
                assert(false);
            }
            vstd::pervasive::unreached()
        },
    };
    let presentation = match builder.build() {
        Ok(p) => p,
        Err(_) => {
            proof {
                assert(false);
            }
            vstd::pervasive::unreached()
        },
    };

    let report = validate(&presentation, now);
    proof {
        assert(presentation.verifiable_credentials@ =~= seq![verifiable]);
        assert forall|i: int|
            0 <= i < verifiable.credential.contexts@.len() implies is_valid_uri(
            (#[trigger] verifiable.credential.contexts@[i])@,
        ) by {
            if i == 0 {
                assert(verifiable.credential.contexts@[0]@ == base_credential_context());
            } else {
                assert(verifiable.credential.contexts@[i]
                    == verifiable.credential.contexts@.skip(1)[i - 1]);
            }
        }
        assert forall|i: int|
            0 <= i < presentation.contexts@.len() implies is_valid_uri(
            (#[trigger] presentation.contexts@[i])@,
        ) by {
            if i == 0 {
                assert(presentation.contexts@[0]@ == base_credential_context());
            } else {
                assert(presentation.contexts@[i] == presentation.contexts@.skip(1)[i - 1]);
            }
        }
        assert(presentation.contexts@[0]@ == base_credential_context());
        lemma_round_trip(did, verifiable, presentation, now.seconds as int);
    }
    (did_string, report)
}

} // verus!
