//! Principal and client types shared by sessions, tokens and audit records.

use vstd::prelude::*;

verus! {

/// Principal type. Root is a local emergency principal, never a user row.
#[derive(Clone, Copy, Debug, PartialEq, Eq, Structural)]
pub enum PrincipalType {
    User,
    Root,
}

impl PrincipalType {
    pub open spec fn text(self) -> Seq<char> {
        match self {
            PrincipalType::User => "user"@,
            PrincipalType::Root => "root"@,
        }
    }

    /// The principal whose wire name is exactly `s`, if any.
    pub open spec fn from_text(s: Seq<char>) -> Option<PrincipalType> {
        if s == "user"@ {
            Some(PrincipalType::User)
        } else if s == "root"@ {
            Some(PrincipalType::Root)
        } else {
            None
        }
    }

    /// Read a wire name.
    pub fn parse(s: &str) -> (r: Option<PrincipalType>)
        ensures
            r == PrincipalType::from_text(s@),
    {
        if crate::text::str_eq(s, "user") {
            Some(PrincipalType::User)
        } else if crate::text::str_eq(s, "root") {
            Some(PrincipalType::Root)
        } else {
            None
        }
    }

    /// Wire name (`user` / `root`).
    pub fn as_str(&self) -> (s: &'static str)
        ensures
            s@ == self.text(),
    {
        match self {
            PrincipalType::User => "user",
            PrincipalType::Root => "root",
        }
    }
}

/// Client type carried in sessions and tokens.
#[derive(Clone, Copy, Debug, PartialEq, Eq, Structural)]
pub enum ClientType {
    Ppf,
    Panel,
    Windows,
    Android,
}

impl ClientType {
    pub open spec fn text(self) -> Seq<char> {
        match self {
            ClientType::Ppf => "ppf"@,
            ClientType::Panel => "panel"@,
            ClientType::Windows => "windows"@,
            ClientType::Android => "android"@,
        }
    }

    /// The client whose wire name is exactly `s`, if any.
    pub open spec fn from_text(s: Seq<char>) -> Option<ClientType> {
        if s == "ppf"@ {
            Some(ClientType::Ppf)
        } else if s == "panel"@ {
            Some(ClientType::Panel)
        } else if s == "windows"@ {
            Some(ClientType::Windows)
        } else if s == "android"@ {
            Some(ClientType::Android)
        } else {
            None
        }
    }

    /// Wire name (lowercase).
    pub fn as_str(&self) -> (s: &'static str)
        ensures
            s@ == self.text(),
    {
        match self {
            ClientType::Ppf => "ppf",
            ClientType::Panel => "panel",
            ClientType::Windows => "windows",
            ClientType::Android => "android",
        }
    }

    /// Parse a wire string (exact, lowercase).
    pub fn parse(s: &str) -> (r: Option<ClientType>)
        ensures
            r == ClientType::from_text(s@),
    {
        if crate::text::str_eq(s, "ppf") {
            Some(ClientType::Ppf)
        } else if crate::text::str_eq(s, "panel") {
            Some(ClientType::Panel)
        } else if crate::text::str_eq(s, "windows") {
            Some(ClientType::Windows)
        } else if crate::text::str_eq(s, "android") {
            Some(ClientType::Android)
        } else {
            None
        }
    }
}

/// Parsing a client's own wire name gives the client back.
pub proof fn lemma_client_type_round_trip(c: ClientType)
    ensures
        ClientType::from_text(c.text()) == Some(c),
{
    reveal_strlit("ppf");
    reveal_strlit("panel");
    reveal_strlit("windows");
    reveal_strlit("android");
    assert("panel"@.len() != "ppf"@.len());
    assert("windows"@.len() != "ppf"@.len() && "windows"@.len() != "panel"@.len());
    assert("android"@.len() != "ppf"@.len() && "android"@.len() != "panel"@.len());
    assert("android"@[0] != "windows"@[0]);
}

#[derive(Debug)]
/// An authenticated principal. Ids are UUIDs held as their 128-bit value.
pub struct AuthPrincipal {
    /// User id; meaningful only for `PrincipalType::User`.
    pub sub: u128,
    /// Session id.
    pub sid: u128,
    pub principal_type: PrincipalType,
    pub client_type: ClientType,
    pub request_id: String,
}

impl AuthPrincipal {
    pub fn is_root(&self) -> (r: bool)
        ensures
            r == (self.principal_type == PrincipalType::Root),
    {
        self.principal_type == PrincipalType::Root
    }
}

} // verus!
