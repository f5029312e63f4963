//! Deployment secrets. They come only from the environment, are never
//! serialized, logged or returned by an API.

use vstd::prelude::*;
use crate::codec::{base64_standard_decode, decode_standard};
use crate::text::{append_str, own};

verus! {

#[derive(Debug)]
/// All deployment secrets loaded at boot.
pub struct Secrets {
    pub database_url: Option<String>,
    pub jwt_secret: String,
    pub phira_credential_key: Vec<u8>,
    pub github_client_id: Option<String>,
    pub github_client_secret: Option<String>,
    pub pmp_openuds_token: Option<String>,
}

/// An environment value counts only when set and non-empty.
pub open spec fn env_value(v: Option<String>) -> Option<Seq<char>> {
    match v {
        Some(s) => if s@.len() > 0 { Some(s@) } else { None },
        None => None,
    }
}

pub open spec fn opt_text(v: Option<String>) -> Option<Seq<char>> {
    match v {
        Some(s) => Some(s@),
        None => None,
    }
}

fn env_or(v: Option<String>) -> (r: Option<String>)
    ensures
        opt_text(r) == env_value(v),
{
    match v {
        Some(s) => if s.unicode_len() > 0 { Some(s) } else { None },
        None => None,
    }
}

/// Why a set of environment values does not make valid secrets, if it
/// does not: a missing JWT secret, a missing credential key, a credential key
/// that is not base64, or one that does not decode to 32 bytes.
pub open spec fn secrets_problem(jwt: Option<String>, credential_b64: Option<String>) -> Option<Seq<char>> {
    if env_value(jwt) is None {
        Some("PPB_JWT_SECRET is required"@)
    } else if env_value(credential_b64) is None {
        Some("PPB_PHIRA_CREDENTIAL_KEY is required"@)
    } else {
        match base64_standard_decode(credential_b64->0@) {
            Err(e) => Some("PPB_PHIRA_CREDENTIAL_KEY not valid base64: "@ + e),
            Ok(k) => if k.len() != 32 {
                Some("PPB_PHIRA_CREDENTIAL_KEY must decode to 32 bytes (AES-256)"@)
            } else {
                None
            },
        }
    }
}

impl Secrets {
    /// Secrets from the raw environment values (`PPB_DATABASE_URL`,
    /// `PPB_JWT_SECRET`, `PPB_PHIRA_CREDENTIAL_KEY` (base64 of 32 bytes),
    /// `PPB_GITHUB_CLIENT_ID`/`_SECRET`, `PPB_PMP_OPENUDS_TOKEN`).
    pub fn from_values(
        database_url: Option<String>,
        jwt_secret: Option<String>,
        credential_b64: Option<String>,
        github_client_id: Option<String>,
        github_client_secret: Option<String>,
        pmp_openuds_token: Option<String>,
    ) -> (r: Result<Secrets, String>)
        ensures
            match secrets_problem(jwt_secret, credential_b64) {
                Some(m) => r matches Err(e) && e@ == m,
                None => r matches Ok(s) && Some(s.jwt_secret@) == env_value(jwt_secret)
                    && base64_standard_decode(credential_b64->0@) == Ok::<Seq<u8>, Seq<char>>(s.phira_credential_key@)
                    && opt_text(s.database_url) == env_value(database_url)
                    && opt_text(s.github_client_id) == env_value(github_client_id)
                    && opt_text(s.github_client_secret) == env_value(github_client_secret)
                    && opt_text(s.pmp_openuds_token) == env_value(pmp_openuds_token),
            },
    {
        let jwt = match env_or(jwt_secret) {
            Some(j) => j,
            None => return Err(own("PPB_JWT_SECRET is required")),
        };
        let cred = match env_or(credential_b64) {
            Some(c) => c,
            None => return Err(own("PPB_PHIRA_CREDENTIAL_KEY is required")),
        };
        let key = match decode_standard(cred.as_str()) {
            Ok(k) => k,
            Err(e) => {
                let mut m = own("PPB_PHIRA_CREDENTIAL_KEY not valid base64: ");
                append_str(&mut m, e.as_str());
                return Err(m);
            },
        };
        if key.len() != 32 {
            return Err(own("PPB_PHIRA_CREDENTIAL_KEY must decode to 32 bytes (AES-256)"));
        }
        Ok(
            Secrets {
                database_url: env_or(database_url),
                jwt_secret: jwt,
                phira_credential_key: key,
                github_client_id: env_or(github_client_id),
                github_client_secret: env_or(github_client_secret),
                pmp_openuds_token: env_or(pmp_openuds_token),
            },
        )
    }

    /// Whether GitHub OAuth is configured (both id and secret present).
    pub fn github_configured(&self) -> (b: bool)
        ensures
            b == (self.github_client_id is Some && self.github_client_secret is Some),
    {
        self.github_client_id.is_some() && self.github_client_secret.is_some()
    }
}

} // verus!
