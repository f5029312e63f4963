//! Command runs: what an audit record keeps of a command's arguments.

use vstd::prelude::*;
use crate::json::{Json, JsonV, deep_clone, entries_view, lemma_object_view};
use crate::text::{chars_of, contains, has_sub, lower, own, to_lower_chars};

verus! {

/// A key whose lower-cased form mentions a password, token or secret.
pub open spec fn is_sensitive_key(k: Seq<char>) -> bool {
    has_sub(lower(k), "password"@) || has_sub(lower(k), "token"@) || has_sub(lower(k), "secret"@)
}

/// The redacted form of one argument.
pub open spec fn redacted_entry(e: (Seq<char>, JsonV)) -> (Seq<char>, JsonV) {
    if is_sensitive_key(e.0) {
        (e.0, JsonV::Str("[REDACTED]"@))
    } else {
        e
    }
}

/// The arguments kept for audit: every member of an object argument, with
/// sensitive values replaced by `[REDACTED]`; `{}` for any other value.
pub open spec fn redacted(args: JsonV) -> JsonV {
    match args {
        JsonV::Object(es) => JsonV::Object(Seq::new(es.len(), |i: int| redacted_entry(es[i]))),
        _ => JsonV::Object(Seq::empty()),
    }
}

pub fn is_sensitive(k: &str) -> (b: bool)
    ensures
        b == is_sensitive_key(k@),
{
    let l = to_lower_chars(chars_of(k).as_slice());
    let p = chars_of("password");
    let t = chars_of("token");
    let s = chars_of("secret");
    contains(l.as_slice(), p.as_slice()) || contains(l.as_slice(), t.as_slice()) || contains(
        l.as_slice(),
        s.as_slice(),
    )
}

/// Redact args for audit: only keep what is safe (no passwords/tokens).
pub fn redact_args(args: &Json) -> (r: Json)
    ensures
        r@ == redacted(args@),
{
    match args {
        Json::Object(es) => {
            proof {
                lemma_object_view(*args);
            }
            let ghost ev = entries_view(es@);
            let mut out: Vec<(String, Json)> = Vec::new();
            let mut i: usize = 0;
            while i < es.len()
                invariant
                    i <= es@.len(),
                    ev == entries_view(es@),
                    entries_view(out@) == Seq::new(i as nat, |k: int| redacted_entry(ev[k])),
                decreases es@.len() - i,
            {
                let ghost before = entries_view(out@);
                let key = own(es[i].0.as_str());
                if is_sensitive(es[i].0.as_str()) {
                    out.push((key, Json::Str(own("[REDACTED]"))));
                } else {
                    out.push((key, deep_clone(&es[i].1)));
                }
                assert(entries_view(out@) =~= before.push(redacted_entry(ev[i as int])));
                assert(entries_view(out@) =~= Seq::new((i + 1) as nat, |k: int| redacted_entry(ev[k])));
                i = i + 1;
            }
            let r = Json::Object(out);
            proof {
                lemma_object_view(r);
                assert(entries_view(out@) =~= Seq::new(ev.len(), |k: int| redacted_entry(ev[k])));
            }
            r
        },
        _ => {
            let r = Json::Object(Vec::new());
            proof {
                lemma_object_view(r);
                assert(entries_view(Seq::<(String, Json)>::empty()) =~= Seq::<(Seq<char>, JsonV)>::empty());
            }
            r
        },
    }
}

/// Redaction keeps every key, in order, and no sensitive value survives it.
pub proof fn lemma_redaction_hides_secrets(args: JsonV)
    requires
        args is Object,
    ensures
        redacted(args)->Object_0.len() == args->Object_0.len(),
        forall|i: int|
            0 <= i < args->Object_0.len() ==> (#[trigger] redacted(args)->Object_0[i]).0 == args->Object_0[i].0,
        forall|i: int|
            0 <= i < args->Object_0.len() && is_sensitive_key(args->Object_0[i].0) ==> (#[trigger] redacted(
                args,
            )->Object_0[i]).1 == JsonV::Str("[REDACTED]"@),
{
}

/// The command-run list's scope filter: `personal` or `server`, or none.
pub fn scope_filter(scope: Option<&str>) -> (r: Option<&str>)
    ensures
        r == (match scope {
            Some(s) => if s@ == "personal"@ || s@ == "server"@ {
                Some(s)
            } else {
                None::<&str>
            },
            None => None::<&str>,
        }),
{
    match scope {
        Some(s) => if crate::text::str_eq(s, "personal") || crate::text::str_eq(s, "server") {
            Some(s)
        } else {
            None
        },
        None => None,
    }
}

} // verus!
