//! Request ids and the final normalization of REST error envelopes.

use vstd::prelude::*;
use crate::error::{ErrorBody, ErrorCode, ErrorDetails, ErrorEnvelope};
use crate::json::{Json, JsonV, entries_view};
use crate::text::{byte_len, chars_of, own, string_from_chars, trim, trim_chars};

verus! {

/// `uuid::Uuid::new_v4().to_string()`: a random UUID in its 36-character
/// hyphenated form. Only its length is stated.
#[verifier::external_body]
pub(crate) fn new_uuid_text() -> (s: String)
    ensures
        s@.len() == 36,
{
    uuid::Uuid::new_v4().to_string()
}

/// An `X-Request-Id` value accepted from a client: trimmed, non-empty, at
/// most 128 bytes, only visible ASCII.
pub open spec fn acceptable_request_id(t: Seq<char>) -> bool {
    t.len() > 0 && byte_len(t) <= 128 && forall|i: int| 0 <= i < t.len() ==> '!' <= #[trigger] t[i] <= '~'
}

fn acceptable_exec(t: &[char]) -> (b: bool)
    ensures
        b == acceptable_request_id(t@),
{
    if t.len() == 0 {
        return false;
    }
    if crate::text::byte_len_chars(t) > 128 {
        return false;
    }
    let mut i: usize = 0;
    while i < t.len()
        invariant
            i <= t@.len(),
            forall|k: int| 0 <= k < i ==> '!' <= #[trigger] t@[k] <= '~',
        decreases t@.len() - i,
    {
        if !('!' <= t[i] && t[i] <= '~') {
            return false;
        }
        i = i + 1;
    }
    true
}

/// The request id of a request: its trimmed `X-Request-Id` when
/// acceptable, otherwise a fresh UUID.
pub fn read_request_id(header: Option<&str>) -> (id: String)
    ensures
        match header {
            Some(h) => acceptable_request_id(trim(h@)) ==> id@ == trim(h@),
            None => true,
        },
        !(header matches Some(h) && acceptable_request_id(trim(h@))) ==> id@.len() == 36,
{
    match header {
        Some(h) => {
            let t = trim_chars(chars_of(h).as_slice());
            if acceptable_exec(t.as_slice()) {
                return string_from_chars(t.as_slice());
            }
            new_uuid_text()
        },
        None => new_uuid_text(),
    }
}

/// An envelope as it leaves the server: stamped with the request id; an
/// `INTERNAL_ERROR` keeps neither its message nor its details.
pub fn normalize_envelope(env: ErrorEnvelope, request_id: &str) -> (r: ErrorEnvelope)
    ensures
        r.error.code == env.error.code,
        r.error.request_id@ == request_id@,
        env.error.code == ErrorCode::InternalError ==> r.error.message@ == "internal server error"@
            && r.error.details.params@.len() == 0,
        env.error.code != ErrorCode::InternalError ==> r.error.message == env.error.message
            && r.error.details.params == env.error.details.params,
{
    let internal = env.error.code == ErrorCode::InternalError;
    let ErrorEnvelope { error } = env;
    let ErrorBody { code, message, request_id: _, details } = error;
    if internal {
        ErrorEnvelope {
            error: ErrorBody {
                code,
                message: own("internal server error"),
                request_id: own(request_id),
                details: ErrorDetails { params: Vec::new() },
            },
        }
    } else {
        ErrorEnvelope { error: ErrorBody { code, message, request_id: own(request_id), details } }
    }
}

/// The last-resort body: an `INTERNAL_ERROR` envelope for `request_id`.
pub fn fallback_internal(request_id: &str) -> (j: Json)
    ensures
        j@ == JsonV::Object(
            seq![
                ("error"@, JsonV::Object(
                    seq![
                        ("code"@, JsonV::Str("INTERNAL_ERROR"@)),
                        ("details"@, JsonV::Object(seq![("params"@, JsonV::Object(Seq::empty()))])),
                        ("message"@, JsonV::Str("internal server error"@)),
                        ("request_id"@, JsonV::Str(request_id@)),
                    ],
                )),
            ],
        ),
{
    let params = Json::Object(Vec::new());
    let mut d: Vec<(String, Json)> = Vec::new();
    d.push((own("params"), params));
    let details = Json::Object(d);
    let mut e: Vec<(String, Json)> = Vec::new();
    e.push((own("code"), Json::Str(own("INTERNAL_ERROR"))));
    e.push((own("details"), details));
    e.push((own("message"), Json::Str(own("internal server error"))));
    e.push((own("request_id"), Json::Str(own(request_id))));
    let inner = Json::Object(e);
    let mut top: Vec<(String, Json)> = Vec::new();
    top.push((own("error"), inner));
    let j = Json::Object(top);
    proof {
        crate::json::lemma_object_view(params);
        assert(entries_view(Seq::<(String, Json)>::empty()) =~= Seq::<(Seq<char>, JsonV)>::empty());
        crate::json::lemma_object_view(details);
        assert(entries_view(d@) =~= seq![("params"@, JsonV::Object(Seq::empty()))]);
        crate::json::lemma_object_view(inner);
        assert(entries_view(e@) =~= seq![
            ("code"@, JsonV::Str("INTERNAL_ERROR"@)),
            ("details"@, JsonV::Object(seq![("params"@, JsonV::Object(Seq::empty()))])),
            ("message"@, JsonV::Str("internal server error"@)),
            ("request_id"@, JsonV::Str(request_id@)),
        ]);
        crate::json::lemma_object_view(j);
        assert(entries_view(top@) =~= seq![("error"@, inner@)]);
    }
    j
}

/// Whether a response status is a client or server error.
pub fn is_error_status(status: u16) -> (b: bool)
    ensures
        b == (400 <= status <= 599),
{
    400 <= status && status <= 599
}

} // verus!
