//! Identity bindings and the state of a user's Phira credential. Ids are
//! 128-bit UUID values, times Unix milliseconds.

use vstd::prelude::*;
use crate::text::own;

verus! {

#[derive(Debug)]
/// A login identity bound to a user.
pub struct UserIdentity {
    pub id: u128,
    pub user_id: u128,
    /// `phira | github`.
    pub provider: String,
    pub provider_id: String,
    pub provider_name: String,
    pub linked_at: i64,
}

#[derive(Debug)]
/// What is known of a user's stored Phira credential; never its ciphertext.
pub struct PhiraCredentialState {
    pub user_id: u128,
    pub has_credential: bool,
    pub state: String,
    pub refresh_expires_at: Option<i64>,
    pub updated_at: Option<i64>,
}

/// The credential state of `user_id` from its stored row
/// `(refresh_expires_at, state, updated_at)`; `none` when there is no row.
pub fn credential_state_of(user_id: u128, row: Option<(i64, String, i64)>) -> (c: PhiraCredentialState)
    ensures
        c.user_id == user_id,
        match row {
            Some((expires, state, updated)) => c.has_credential && c.state@ == state@ && c.refresh_expires_at == Some(
                expires,
            ) && c.updated_at == Some(updated),
            None => !c.has_credential && c.state@ == "none"@ && c.refresh_expires_at is None && c.updated_at is None,
        },
{
    match row {
        Some((expires, state, updated)) => PhiraCredentialState {
            user_id,
            has_credential: true,
            state,
            refresh_expires_at: Some(expires),
            updated_at: Some(updated),
        },
        None => PhiraCredentialState {
            user_id,
            has_credential: false,
            state: own("none"),
            refresh_expires_at: None,
            updated_at: None,
        },
    }
}

} // verus!
