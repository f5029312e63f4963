//! Versioned legal acceptance of the Terms/Privacy documents, distinct from
//! analytics consent. Public account authentication stays unavailable until
//! approved documents are configured.

use vstd::prelude::*;
use crate::auth::gateway::legal_ready_spec;
use crate::config::runtime::LegalConfig;
use crate::error::{ApiError, ErrorCode, params_doc, existing_params};
use crate::json::{JsonV, entries_insert};
use crate::text::{chars_of, own, str_eq, trim_chars};

verus! {

#[derive(Debug)]
/// A Terms/Privacy version pair.
pub struct LegalAcceptance {
    pub terms_version: String,
    pub privacy_version: String,
}

/// The currently approved versions; `AUTH_LEGAL_DOCUMENTS_UNAVAILABLE` until
/// legal documents are enabled and fully configured.
pub fn current_versions(legal: &LegalConfig) -> (r: Result<LegalAcceptance, ApiError>)
    ensures
        legal_ready_spec(
            legal.public_auth_enabled,
            legal.terms_version@,
            legal.privacy_version@,
            legal.terms_url@,
            legal.privacy_url@,
        ) ==> (r matches Ok(a) && a.terms_version@ == legal.terms_version@ && a.privacy_version@
            == legal.privacy_version@),
        !legal_ready_spec(
            legal.public_auth_enabled,
            legal.terms_version@,
            legal.privacy_version@,
            legal.terms_url@,
            legal.privacy_url@,
        ) ==> (r matches Err(e) && e.code == ErrorCode::AuthLegalDocumentsUnavailable && e.message@
            == "approved legal documents are not configured"@),
{
    if !crate::auth::gateway::legal_ready(legal) {
        return Err(
            ApiError::new(ErrorCode::AuthLegalDocumentsUnavailable, "approved legal documents are not configured"),
        );
    }
    Ok(
        LegalAcceptance {
            terms_version: own(legal.terms_version.as_str()),
            privacy_version: own(legal.privacy_version.as_str()),
        },
    )
}

/// The explicit acceptance of a login: it must accept exactly the current
/// versions. A refusal names the current versions in its params.
pub fn validate_acceptance(
    legal: &LegalConfig,
    accepted: bool,
    terms_version: Option<&str>,
    privacy_version: Option<&str>,
) -> (r: Result<LegalAcceptance, ApiError>)
    ensures
        ({
            let ready = legal_ready_spec(
                legal.public_auth_enabled,
                legal.terms_version@,
                legal.privacy_version@,
                legal.terms_url@,
                legal.privacy_url@,
            );
            let tv = match terms_version {
                Some(t) => t@,
                None => Seq::empty(),
            };
            let pv = match privacy_version {
                Some(p) => p@,
                None => Seq::empty(),
            };
            let matches = accepted && tv == legal.terms_version@ && pv == legal.privacy_version@;
            &&& !ready ==> (r matches Err(e) && e.code == ErrorCode::AuthLegalDocumentsUnavailable)
            &&& ready && matches ==> (r matches Ok(a) && a.terms_version@ == legal.terms_version@
                && a.privacy_version@ == legal.privacy_version@)
            &&& ready && !matches ==> (r matches Err(e) && e.code == ErrorCode::AuthLegalConsentRequired
                && e.message@ == "current legal document versions must be explicitly accepted"@ && e.details@
                == params_doc(
                seq![
                    ("terms_version"@, JsonV::Str(legal.terms_version@)),
                    ("privacy_version"@, JsonV::Str(legal.privacy_version@)),
                ],
            ))
        }),
{
    let current = current_versions(legal)?;
    proof {
        reveal_strlit("");
    }
    let terms = match terms_version {
        Some(t) => t,
        None => "",
    };
    let privacy = match privacy_version {
        Some(p) => p,
        None => "",
    };
    if !accepted || !str_eq(terms, current.terms_version.as_str()) || !str_eq(
        privacy,
        current.privacy_version.as_str(),
    ) {
        let e0 = ApiError::new(
            ErrorCode::AuthLegalConsentRequired,
            "current legal document versions must be explicitly accepted",
        );
        let e1 = e0.with_param("terms_version", current.terms_version.as_str());
        let e2 = e1.with_param("privacy_version", current.privacy_version.as_str());
        proof {
            reveal_strlit("params");
            reveal_strlit("terms_version");
            reveal_strlit("privacy_version");
            assert(existing_params(e0.details@) =~= Seq::empty()) by {
                assert(params_doc(Seq::<(Seq<char>, JsonV)>::empty()).get("params"@) == Some(
                    JsonV::Object(Seq::<(Seq<char>, JsonV)>::empty()),
                ));
            }
            let p1 = entries_insert(Seq::empty(), "terms_version"@, JsonV::Str(legal.terms_version@));
            assert(p1 =~= seq![("terms_version"@, JsonV::Str(legal.terms_version@))]);
            assert(params_doc(p1).get("params"@) == Some(JsonV::Object(p1)));
            assert(p1.drop_first() =~= Seq::<(Seq<char>, JsonV)>::empty());
            assert(p1[0].1.is_scalar());
            assert(crate::json::safe_entries(p1) =~= p1);
            assert(existing_params(e1.details@) =~= p1);
            assert("terms_version"@.len() == 13);
            assert("privacy_version"@.len() == 15);
            assert("terms_version"@ != "privacy_version"@);
            assert(p1[0].0 != "privacy_version"@);
            assert(p1.drop_first() =~= Seq::<(Seq<char>, JsonV)>::empty());
            assert(crate::json::entries_without(p1.drop_first(), "privacy_version"@) =~= Seq::<(Seq<char>, JsonV)>::empty());
            assert(crate::json::entries_without(p1, "privacy_version"@) =~= p1);
            assert(entries_insert(p1, "privacy_version"@, JsonV::Str(legal.privacy_version@)) =~= seq![
                ("terms_version"@, JsonV::Str(legal.terms_version@)),
                ("privacy_version"@, JsonV::Str(legal.privacy_version@)),
            ]);
        }
        return Err(e2);
    }
    Ok(current)
}

/// What a login must do about legal acceptance, once approved documents are
/// configured: nothing when the user already accepted the current pair
/// (`already_accepted`), otherwise an explicit acceptance of it.
pub fn acceptance_for_login(
    legal: &LegalConfig,
    already_accepted: bool,
    accepted: bool,
    terms_version: Option<&str>,
    privacy_version: Option<&str>,
) -> (r: Result<Option<LegalAcceptance>, ApiError>)
    ensures
        ({
            let ready = legal_ready_spec(
                legal.public_auth_enabled,
                legal.terms_version@,
                legal.privacy_version@,
                legal.terms_url@,
                legal.privacy_url@,
            );
            let tv = match terms_version {
                Some(t) => t@,
                None => Seq::empty(),
            };
            let pv = match privacy_version {
                Some(p) => p@,
                None => Seq::empty(),
            };
            &&& !ready ==> (r matches Err(e) && e.code == ErrorCode::AuthLegalDocumentsUnavailable)
            &&& ready && already_accepted ==> (r matches Ok(None))
            &&& ready && !already_accepted && accepted && tv == legal.terms_version@ && pv == legal.privacy_version@
                ==> (r matches Ok(Some(a)) && a.terms_version@ == legal.terms_version@ && a.privacy_version@
                == legal.privacy_version@)
            &&& ready && !already_accepted && !(accepted && tv == legal.terms_version@ && pv == legal.privacy_version@)
                ==> (r matches Err(e) && e.code == ErrorCode::AuthLegalConsentRequired)
        }),
{
    current_versions(legal)?;
    if already_accepted {
        return Ok(None);
    }
    let a = validate_acceptance(legal, accepted, terms_version, privacy_version)?;
    Ok(Some(a))
}

} // verus!
