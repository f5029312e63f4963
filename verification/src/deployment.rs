//! Controlled deployment adapter: fixed argv commands configured by the
//! operator; clients may only supply values for allow-listed, typed startup
//! arguments. Deliberately not a remote shell.

use vstd::prelude::*;
use crate::config::runtime::texts;
use crate::json::{Json, JsonV, dec_text, entries_get, entries_view, i64_text, int_text, lemma_object_view};
use crate::text::{
    append_chars, append_str, byte_len, chars_of, contains_char, has_char, is_prefix, own, starts_with, str_eq,
    split_on, string_from_chars, trim, trim_chars, utf8_width,
};

verus! {

#[derive(Debug)]
/// One allow-listed startup argument.
pub struct StartupArgSpec {
    pub key: String,
    pub flag: String,
    /// `string` | `integer` | `boolean`.
    pub kind: String,
    pub required: bool,
    pub min: Option<i64>,
    pub max: Option<i64>,
    pub max_len: Option<usize>,
    pub allowed_values: Vec<String>,
}

/// Model of a startup argument spec.
pub struct ArgSpecV {
    pub key: Seq<char>,
    pub flag: Seq<char>,
    pub kind: Seq<char>,
    pub required: bool,
    pub min: Option<i64>,
    pub max: Option<i64>,
    pub max_len: Option<usize>,
    pub allowed: Seq<Seq<char>>,
}

pub open spec fn spec_view(s: StartupArgSpec) -> ArgSpecV {
    ArgSpecV {
        key: s.key@,
        flag: s.flag@,
        kind: s.kind@,
        required: s.required,
        min: s.min,
        max: s.max,
        max_len: s.max_len,
        allowed: texts(s.allowed_values@),
    }
}

pub open spec fn specs_view(s: Seq<StartupArgSpec>) -> Seq<ArgSpecV> {
    Seq::new(s.len(), |i: int| spec_view(s[i]))
}

#[derive(Debug)]
/// A fixed operator-configured command.
pub struct FixedCommand {
    pub argv: Vec<String>,
    pub cwd: Option<String>,
}

#[derive(Debug)]
/// What the adapter can do.
pub struct DeploymentCapabilities {
    pub supervisor_start: bool,
    pub supervisor_stop: bool,
    pub startup_args: Vec<StartupArgSpec>,
    pub ppf_build: bool,
    pub backup: bool,
}

#[derive(Debug)]
pub struct DeploymentAdapter {
    pub supervisor_start: Option<FixedCommand>,
    pub supervisor_stop: Option<FixedCommand>,
    pub startup_args: Vec<StartupArgSpec>,
    pub ppf_build: Option<FixedCommand>,
    pub backup: Option<FixedCommand>,
    pub env_allowlist: Vec<String>,
    pub timeout_secs: u64,
}

fn clone_strings(v: &Vec<String>) -> (r: Vec<String>)
    ensures
        texts(r@) == texts(v@),
{
    let mut r: Vec<String> = Vec::new();
    let mut i: usize = 0;
    while i < v.len()
        invariant
            i <= v@.len(),
            texts(r@) == texts(v@).take(i as int),
        decreases v@.len() - i,
    {
        let ghost before = r@;
        let x = own(v[i].as_str());
        r.push(x);
        proof {
            crate::config::runtime::lemma_texts_push(before, x);
            assert(texts(v@).take(i + 1) =~= texts(v@).take(i as int).push(v@[i as int]@));
        }
        i = i + 1;
    }
    assert(texts(v@).take(v@.len() as int) =~= texts(v@));
    r
}

fn clone_spec(s: &StartupArgSpec) -> (r: StartupArgSpec)
    ensures
        spec_view(r) == spec_view(*s),
{
    StartupArgSpec {
        key: own(s.key.as_str()),
        flag: own(s.flag.as_str()),
        kind: own(s.kind.as_str()),
        required: s.required,
        min: s.min,
        max: s.max,
        max_len: s.max_len,
        allowed_values: clone_strings(&s.allowed_values),
    }
}

impl DeploymentAdapter {
    /// An adapter with nothing configured.
    pub fn disabled() -> (a: DeploymentAdapter)
        ensures
            a.supervisor_start is None,
            a.supervisor_stop is None,
            a.startup_args@.len() == 0,
            a.ppf_build is None,
            a.backup is None,
            a.env_allowlist@.len() == 0,
            a.timeout_secs == 5,
    {
        DeploymentAdapter {
            supervisor_start: None,
            supervisor_stop: None,
            startup_args: Vec::new(),
            ppf_build: None,
            backup: None,
            env_allowlist: Vec::new(),
            timeout_secs: 5,
        }
    }

    /// What is configured.
    pub fn capabilities(&self) -> (c: DeploymentCapabilities)
        ensures
            c.supervisor_start == self.supervisor_start is Some,
            c.supervisor_stop == self.supervisor_stop is Some,
            specs_view(c.startup_args@) == specs_view(self.startup_args@),
            c.ppf_build == self.ppf_build is Some,
            c.backup == self.backup is Some,
    {
        let mut specs: Vec<StartupArgSpec> = Vec::new();
        let mut i: usize = 0;
        while i < self.startup_args.len()
            invariant
                i <= self.startup_args@.len(),
                specs_view(specs@) == specs_view(self.startup_args@).take(i as int),
            decreases self.startup_args@.len() - i,
        {
            let ghost before = specs_view(specs@);
            let c = clone_spec(&self.startup_args[i]);
            specs.push(c);
            assert(specs_view(specs@) =~= before.push(spec_view(c)));
            assert(specs_view(self.startup_args@).take(i + 1) =~= specs_view(self.startup_args@).take(i as int).push(
                spec_view(self.startup_args@[i as int]),
            ));
            i = i + 1;
        }
        assert(specs_view(self.startup_args@).take(self.startup_args@.len() as int) =~= specs_view(
            self.startup_args@,
        ));
        DeploymentCapabilities {
            supervisor_start: self.supervisor_start.is_some(),
            supervisor_stop: self.supervisor_stop.is_some(),
            startup_args: specs,
            ppf_build: self.ppf_build.is_some(),
            backup: self.backup.is_some(),
        }
    }

    /// Whether the deployment command of a job type is configured (job types
    /// without one need none).
    pub fn job_configured(&self, job_type: &str) -> (b: bool)
        ensures
            b == (if job_type@ == "ppf.build"@ {
                self.ppf_build is Some
            } else if job_type@ == "backup"@ {
                self.backup is Some
            } else {
                true
            }),
    {
        if str_eq(job_type, "ppf.build") {
            self.ppf_build.is_some()
        } else if str_eq(job_type, "backup") {
            self.backup.is_some()
        } else {
            true
        }
    }

    /// The argv a client's startup arguments add to the fixed start command.
    pub fn validate_startup_args(&self, args: &Json) -> (r: Result<Vec<String>, String>)
        ensures
            match startup_argv(specs_view(self.startup_args@), args@) {
                Ok(v) => r matches Ok(x) && texts(x@) == v,
                Err(m) => r matches Err(e) && e@ == m,
            },
    {
        validate_startup_args(&self.startup_args, args)
    }
}

/// Some spec allows `key`.
pub open spec fn key_allowed(specs: Seq<ArgSpecV>, key: Seq<char>) -> bool {
    exists|i: int| 0 <= i < specs.len() && (#[trigger] specs[i]).key == key
}

/// The first key of `es` that no spec allows.
pub open spec fn first_unknown_key(es: Seq<(Seq<char>, JsonV)>, specs: Seq<ArgSpecV>) -> Option<Seq<char>>
    decreases es.len(),
{
    if es.len() == 0 {
        None
    } else if !key_allowed(specs, es[0].0) {
        Some(es[0].0)
    } else {
        first_unknown_key(es.drop_first(), specs)
    }
}

/// The effective length limit of a string argument: 256 by default,
/// clamped to 1..=4096.
pub open spec fn string_limit(max_len: Option<usize>) -> int {
    let m = match max_len {
        Some(m) => m as int,
        None => 256,
    };
    if m < 1 {
        1
    } else if m > 4096 {
        4096
    } else {
        m
    }
}

pub open spec fn arg_msg(key: Seq<char>, tail: Seq<char>) -> Seq<char> {
    "startup arg `"@ + key + tail
}

/// The argv one spec contributes for the arguments object `es`.
pub open spec fn one_arg(s: ArgSpecV, es: Seq<(Seq<char>, JsonV)>) -> Result<Seq<Seq<char>>, Seq<char>> {
    match entries_get(es, s.key) {
        None => if s.required {
            Err(arg_msg(s.key, "` is required"@))
        } else {
            Ok(Seq::empty())
        },
        Some(v) => if s.kind == "boolean"@ {
            match v.as_bool() {
                None => Err(arg_msg(s.key, "` must be boolean"@)),
                Some(b) => Ok(if b { seq![s.flag] } else { Seq::empty() }),
            }
        } else if s.kind == "integer"@ {
            match v.as_i64() {
                None => Err(arg_msg(s.key, "` must be integer"@)),
                Some(n) => if (s.min matches Some(lo) && n < lo) || (s.max matches Some(hi) && n > hi) {
                    Err(arg_msg(s.key, "` is outside its allowed range"@))
                } else {
                    Ok(seq![s.flag, int_text(n as int)])
                },
            }
        } else if s.kind == "string"@ {
            match v.as_str() {
                None => Err(arg_msg(s.key, "` must be string"@)),
                Some(t) => if t.len() == 0 || byte_len(t) > string_limit(s.max_len) || has_char(t, '\0') {
                    Err(arg_msg(s.key, "` has invalid length/content"@))
                } else if s.allowed.len() > 0 && !s.allowed.contains(t) {
                    Err(arg_msg(s.key, "` is not an allowed value"@))
                } else {
                    Ok(seq![s.flag, t])
                },
            }
        } else {
            Err(arg_msg(s.key, "` has unsupported kind `"@ + s.kind + "`"@))
        },
    }
}

/// The argv of all specs, in spec order; the first failing spec decides.
pub open spec fn specs_argv(specs: Seq<ArgSpecV>, es: Seq<(Seq<char>, JsonV)>) -> Result<Seq<Seq<char>>, Seq<char>>
    decreases specs.len(),
{
    if specs.len() == 0 {
        Ok(Seq::empty())
    } else {
        match one_arg(specs[0], es) {
            Err(e) => Err(e),
            Ok(piece) => match specs_argv(specs.drop_first(), es) {
                Ok(rest) => Ok(piece + rest),
                Err(e) => Err(e),
            },
        }
    }
}

/// The argv a client's startup arguments add: the arguments must be an
/// object whose keys are all allow-listed.
pub open spec fn startup_argv(specs: Seq<ArgSpecV>, args: JsonV) -> Result<Seq<Seq<char>>, Seq<char>> {
    match args {
        JsonV::Object(es) => match first_unknown_key(es, specs) {
            Some(k) => Err(arg_msg(k, "` is not allowlisted"@)),
            None => specs_argv(specs, es),
        },
        _ => Err("server.start args must be an object"@),
    }
}

fn arg_error(key: &str, tail: &str) -> (e: String)
    ensures
        e@ == arg_msg(key@, tail@),
{
    let mut e = own("startup arg `");
    append_str(&mut e, key);
    append_str(&mut e, tail);
    e
}

fn spec_has_key(specs: &Vec<StartupArgSpec>, key: &str) -> (b: bool)
    ensures
        b == key_allowed(specs_view(specs@), key@),
{
    let mut i: usize = 0;
    while i < specs.len()
        invariant
            i <= specs@.len(),
            forall|k: int| 0 <= k < i ==> specs@[k].key@ != key@,
        decreases specs@.len() - i,
    {
        if str_eq(specs[i].key.as_str(), key) {
            assert(specs_view(specs@)[i as int].key == key@);
            return true;
        }
        i = i + 1;
    }
    assert forall|k: int| 0 <= k < specs_view(specs@).len() implies (#[trigger] specs_view(specs@)[k]).key != key@ by {
        assert(specs_view(specs@)[k] == spec_view(specs@[k]));
    }
    false
}

fn one_arg_exec(s: &StartupArgSpec, obj: &Json) -> (r: Result<Vec<String>, String>)
    requires
        obj is Object,
    ensures
        match one_arg(spec_view(*s), obj@->Object_0) {
            Ok(v) => r matches Ok(x) && texts(x@) == v,
            Err(m) => r matches Err(e) && e@ == m,
        },
{
    proof {
        lemma_object_view(*obj);
    }
    let mut out: Vec<String> = Vec::new();
    let value = match obj.get(s.key.as_str()) {
        None => {
            if s.required {
                return Err(arg_error(s.key.as_str(), "` is required"));
            }
            assert(texts(out@) =~= Seq::<Seq<char>>::empty());
            return Ok(out);
        },
        Some(v) => v,
    };
    if str_eq(s.kind.as_str(), "boolean") {
        match value.as_bool() {
            None => Err(arg_error(s.key.as_str(), "` must be boolean")),
            Some(b) => {
                if b {
                    out.push(own(s.flag.as_str()));
                }
                assert(texts(out@) =~= (if b { seq![s.flag@] } else { Seq::<Seq<char>>::empty() }));
                Ok(out)
            },
        }
    } else if str_eq(s.kind.as_str(), "integer") {
        match value.as_i64() {
            None => Err(arg_error(s.key.as_str(), "` must be integer")),
            Some(n) => {
                let below = match s.min {
                    Some(lo) => n < lo,
                    None => false,
                };
                let above = match s.max {
                    Some(hi) => n > hi,
                    None => false,
                };
                if below || above {
                    return Err(arg_error(s.key.as_str(), "` is outside its allowed range"));
                }
                out.push(own(s.flag.as_str()));
                let t = i64_text(n);
                out.push(string_from_chars(t.as_slice()));
                assert(texts(out@) =~= seq![s.flag@, int_text(n as int)]);
                Ok(out)
            },
        }
    } else if str_eq(s.kind.as_str(), "string") {
        match value.as_str() {
            None => Err(arg_error(s.key.as_str(), "` must be string")),
            Some(t) => {
                let m0: usize = match s.max_len {
                    Some(m) => m,
                    None => 256,
                };
                let limit: usize = if m0 < 1 {
                    1
                } else if m0 > 4096 {
                    4096
                } else {
                    m0
                };
                let cs = chars_of(t);
                let n = crate::text::byte_len_chars(cs.as_slice());
                if cs.len() == 0 || n > limit as u128 || contains_char(cs.as_slice(), '\0') {
                    return Err(arg_error(s.key.as_str(), "` has invalid length/content"));
                }
                if s.allowed_values.len() > 0 && !crate::auth::gateway::list_contains(&s.allowed_values, t) {
                    return Err(arg_error(s.key.as_str(), "` is not an allowed value"));
                }
                out.push(own(s.flag.as_str()));
                out.push(own(t));
                assert(texts(out@) =~= seq![s.flag@, t@]);
                Ok(out)
            },
        }
    } else {
        let mut tail = own("` has unsupported kind `");
        append_str(&mut tail, s.kind.as_str());
        append_str(&mut tail, "`");
        Err(arg_error(s.key.as_str(), tail.as_str()))
    }
}

proof fn lemma_first_unknown_skip(es: Seq<(Seq<char>, JsonV)>, specs: Seq<ArgSpecV>, i: int)
    requires
        0 <= i <= es.len(),
        forall|j: int| 0 <= j < i ==> key_allowed(specs, (#[trigger] es[j]).0),
    ensures
        first_unknown_key(es, specs) == first_unknown_key(es.skip(i), specs),
    decreases i,
{
    if i == 0 {
        assert(es.skip(0) =~= es);
    } else {
        assert(es.drop_first().skip(i - 1) =~= es.skip(i));
        assert forall|j: int| 0 <= j < i - 1 implies key_allowed(specs, (#[trigger] es.drop_first()[j]).0) by {
            assert(es.drop_first()[j] == es[j + 1]);
        }
        assert(key_allowed(specs, es[0].0));
        lemma_first_unknown_skip(es.drop_first(), specs, i - 1);
    }
}

/// The argv a client's startup arguments add to the fixed start command.
pub fn validate_startup_args(specs: &Vec<StartupArgSpec>, args: &Json) -> (r: Result<Vec<String>, String>)
    ensures
        match startup_argv(specs_view(specs@), args@) {
            Ok(v) => r matches Ok(x) && texts(x@) == v,
            Err(m) => r matches Err(e) && e@ == m,
        },
{
    let es = match args {
        Json::Object(es) => es,
        _ => return Err(own("server.start args must be an object")),
    };
    proof {
        lemma_object_view(*args);
    }
    let ghost ev = entries_view(es@);
    let ghost sv = specs_view(specs@);
    let mut i: usize = 0;
    while i < es.len()
        invariant
            i <= es@.len(),
            ev == entries_view(es@),
            sv == specs_view(specs@),
            forall|j: int| 0 <= j < i ==> key_allowed(sv, (#[trigger] ev[j]).0),
            args@ == JsonV::Object(ev),
        decreases es@.len() - i,
    {
        if !spec_has_key(specs, es[i].0.as_str()) {
            proof {
                lemma_first_unknown_skip(ev, sv, i as int);
                assert(ev.skip(i as int)[0] == ev[i as int]);
                assert(ev[i as int].0 == es@[i as int].0@);
                assert(!key_allowed(sv, ev.skip(i as int)[0].0));
                assert(first_unknown_key(ev.skip(i as int), sv) == Some(ev[i as int].0));
            }
            return Err(arg_error(es[i].0.as_str(), "` is not allowlisted"));
        }
        assert(ev[i as int].0 == es@[i as int].0@);
        i = i + 1;
    }
    proof {
        lemma_first_unknown_skip(ev, sv, es@.len() as int);
        assert(ev.skip(es@.len() as int).len() == 0);
    }
    let mut argv: Vec<String> = Vec::new();
    let mut k: usize = 0;
    assert(sv.skip(0) =~= sv);
    while k < specs.len()
        invariant
            k <= specs@.len(),
            sv == specs_view(specs@),
            ev == entries_view(es@),
            *args == Json::Object(*es),
            args@ == JsonV::Object(ev),
            first_unknown_key(ev, sv) is None,
            specs_argv(sv, ev) == (match specs_argv(sv.skip(k as int), ev) {
                Ok(rest) => Ok(texts(argv@) + rest),
                Err(e) => Err::<Seq<Seq<char>>, Seq<char>>(e),
            }),
        decreases specs@.len() - k,
    {
        let ghost rest = sv.skip(k as int);
        assert(rest[0] == spec_view(specs@[k as int]));
        assert(rest.drop_first() =~= sv.skip(k + 1));
        match one_arg_exec(&specs[k], args) {
            Err(e) => {
                assert(specs_argv(rest, ev) == Err::<Seq<Seq<char>>, Seq<char>>(e@));
                return Err(e);
            },
            Ok(piece) => {
                let ghost before = texts(argv@);
                let mut p = piece;
                let ghost pv = texts(p@);
                argv.append(&mut p);
                assert(texts(argv@) =~= before + pv);
                proof {
                    match specs_argv(sv.skip(k + 1), ev) {
                        Ok(r2) => {
                            assert(before + (pv + r2) =~= (before + pv) + r2);
                        },
                        Err(_) => {},
                    }
                }
            },
        }
        k = k + 1;
    }
    assert(sv.skip(specs@.len() as int).len() == 0);
    assert(texts(argv@) + Seq::<Seq<char>>::empty() =~= texts(argv@));
    Ok(argv)
}

/// The schema rule of one spec: non-empty NUL-free key and flag, a known
/// kind, and `min <= max` when both are set.
pub open spec fn spec_problem(s: ArgSpecV) -> Option<Seq<char>> {
    if s.key.len() == 0 || s.flag.len() == 0 || has_char(s.flag, '\0') {
        Some("startup arg schema key/flag must be non-empty and NUL-free"@)
    } else if !(s.kind == "string"@ || s.kind == "integer"@ || s.kind == "boolean"@) {
        Some("unsupported startup arg kind: "@ + s.kind)
    } else if s.min matches Some(lo) && s.max matches Some(hi) && lo > hi {
        Some("startup arg "@ + s.key + " has min > max"@)
    } else {
        None
    }
}

/// The first problem of a startup-argument schema, checked spec by spec; a
/// key seen earlier is a duplicate.
pub open spec fn schema_problem(specs: Seq<ArgSpecV>, seen: Set<Seq<char>>) -> Option<Seq<char>>
    decreases specs.len(),
{
    if specs.len() == 0 {
        None
    } else if specs[0].key.len() == 0 || specs[0].flag.len() == 0 || has_char(specs[0].flag, '\0') {
        spec_problem(specs[0])
    } else if seen.contains(specs[0].key) {
        Some("duplicate startup arg schema key: "@ + specs[0].key)
    } else if spec_problem(specs[0]) is Some {
        spec_problem(specs[0])
    } else {
        schema_problem(specs.drop_first(), seen.insert(specs[0].key))
    }
}

/// Checks a startup-argument schema.
pub fn validate_arg_specs(specs: &Vec<StartupArgSpec>) -> (r: Result<(), String>)
    ensures
        match schema_problem(specs_view(specs@), Set::empty()) {
            None => r is Ok,
            Some(m) => r matches Err(e) && e@ == m,
        },
{
    let ghost sv = specs_view(specs@);
    let mut seen: Vec<String> = Vec::new();
    let mut i: usize = 0;
    assert(sv.skip(0) =~= sv);
    assert(Set::<Seq<char>>::empty() =~= texts(seen@).to_set());
    while i < specs.len()
        invariant
            i <= specs@.len(),
            sv == specs_view(specs@),
            schema_problem(sv, Set::empty()) == schema_problem(sv.skip(i as int), texts(seen@).to_set()),
        decreases specs@.len() - i,
    {
        let ghost rest = sv.skip(i as int);
        assert(rest[0] == spec_view(specs@[i as int]));
        assert(rest.drop_first() =~= sv.skip(i + 1));
        let s = &specs[i];
        let flag = chars_of(s.flag.as_str());
        if s.key.unicode_len() == 0 || flag.len() == 0 || contains_char(flag.as_slice(), '\0') {
            return Err(own("startup arg schema key/flag must be non-empty and NUL-free"));
        }
        if crate::auth::gateway::list_contains(&seen, s.key.as_str()) {
            let mut m = own("duplicate startup arg schema key: ");
            append_str(&mut m, s.key.as_str());
            proof {
                assert(texts(seen@).to_set().contains(s.key@));
            }
            return Err(m);
        }
        proof {
            assert(!texts(seen@).to_set().contains(s.key@));
        }
        if !(str_eq(s.kind.as_str(), "string") || str_eq(s.kind.as_str(), "integer") || str_eq(
            s.kind.as_str(),
            "boolean",
        )) {
            let mut m = own("unsupported startup arg kind: ");
            append_str(&mut m, s.kind.as_str());
            return Err(m);
        }
        let bad_range = match (s.min, s.max) {
            (Some(lo), Some(hi)) => lo > hi,
            _ => false,
        };
        if bad_range {
            let mut m = own("startup arg ");
            append_str(&mut m, s.key.as_str());
            append_str(&mut m, " has min > max");
            return Err(m);
        }
        let ghost old_seen = texts(seen@);
        seen.push(own(s.key.as_str()));
        assert(texts(seen@) =~= old_seen.push(s.key@));
        assert(texts(seen@).to_set() =~= old_seen.to_set().insert(s.key@)) by {
            old_seen.lemma_push_to_set_commute(s.key@);
        }
        i = i + 1;
    }
    assert(sv.skip(specs@.len() as int).len() == 0);
    Ok(())
}

/// An environment name a deployment command may receive: not `PPB_…`, only
/// ASCII letters, digits and `_`.
pub open spec fn safe_env_name(name: Seq<char>) -> bool {
    !is_prefix("PPB_"@, name) && forall|i: int|
        0 <= i < name.len() ==> ('a' <= #[trigger] name[i] <= 'z' || 'A' <= name[i] <= 'Z' || '0' <= name[i] <= '9'
            || name[i] == '_')
}

pub fn is_safe_env_name(name: &str) -> (b: bool)
    ensures
        b == safe_env_name(name@),
{
    let cs = chars_of(name);
    if starts_with(cs.as_slice(), chars_of("PPB_").as_slice()) {
        return false;
    }
    let mut i: usize = 0;
    while i < cs.len()
        invariant
            i <= cs@.len(),
            cs@ == name@,
            forall|k: int|
                0 <= k < i ==> ('a' <= #[trigger] cs@[k] <= 'z' || 'A' <= cs@[k] <= 'Z' || '0' <= cs@[k] <= '9'
                    || cs@[k] == '_'),
        decreases cs@.len() - i,
    {
        let c = cs[i];
        if !(('a' <= c && c <= 'z') || ('A' <= c && c <= 'Z') || ('0' <= c && c <= '9') || c == '_') {
            return false;
        }
        i = i + 1;
    }
    true
}

/// Whether an injected build variable reaches the command: `NUXT_…` and safe.
pub fn injectable_env(name: &str) -> (b: bool)
    ensures
        b == (is_prefix("NUXT_"@, name@) && safe_env_name(name@)),
{
    starts_with(chars_of(name).as_slice(), chars_of("NUXT_").as_slice()) && is_safe_env_name(name)
}

/// The command timeout: 120 s by default, clamped to 5..=3600.
pub fn command_timeout_secs(configured: Option<u64>) -> (t: u64)
    ensures
        t == (match configured {
            Some(v) => if v < 5 { 5 } else if v > 3600 { 3600 } else { v },
            None => 120,
        }),
{
    match configured {
        Some(v) => if v < 5 { 5 } else if v > 3600 { 3600 } else { v },
        None => 120,
    }
}

/// The PPF build config keys passed to the build, and their variables.
pub open spec fn build_env_mappings() -> Seq<(Seq<char>, Seq<char>)> {
    seq![
        ("site_name"@, "NUXT_PUBLIC_SITE_NAME"@),
        ("site_description"@, "NUXT_PUBLIC_SITE_DESCRIPTION"@),
        ("canonical_url"@, "NUXT_PUBLIC_SITE_URL"@),
        ("analytics_provider"@, "NUXT_PUBLIC_ANALYTICS_PROVIDER"@),
        ("plausible_domain"@, "NUXT_PUBLIC_PLAUSIBLE_DOMAIN"@),
        ("ga_id"@, "NUXT_PUBLIC_GA_ID"@),
        ("search_verification_google"@, "NUXT_PUBLIC_SEARCH_VERIFICATION_GOOGLE"@),
        ("search_verification_bing"@, "NUXT_PUBLIC_SEARCH_VERIFICATION_BING"@),
    ]
}

/// The build environment of a PPF config: each mapped string value,
/// trimmed, when not blank, in mapping order.
pub open spec fn build_env(config: Option<JsonV>, maps: Seq<(Seq<char>, Seq<char>)>) -> Seq<(Seq<char>, Seq<char>)>
    decreases maps.len(),
{
    if maps.len() == 0 {
        Seq::empty()
    } else {
        let prev = build_env(config, maps.drop_last());
        match config {
            Some(JsonV::Object(_)) => match config->0.get_str(maps.last().0) {
                Some(v) => if trim(v).len() > 0 {
                    prev.push((maps.last().1, trim(v)))
                } else {
                    prev
                },
                None => prev,
            },
            _ => prev,
        }
    }
}

/// The `NUXT_PUBLIC_*` variables of a PPF build.
pub fn ppf_build_environment(config: Option<&Json>) -> (r: Vec<(String, String)>)
    ensures
        Seq::new(r@.len(), |i: int| (r@[i].0@, r@[i].1@)) == build_env(
            match config {
                Some(c) => Some(c@),
                None => None,
            },
            build_env_mappings(),
        ),
{
    let keys: [&str; 8] = [
        "site_name",
        "site_description",
        "canonical_url",
        "analytics_provider",
        "plausible_domain",
        "ga_id",
        "search_verification_google",
        "search_verification_bing",
    ];
    let names: [&str; 8] = [
        "NUXT_PUBLIC_SITE_NAME",
        "NUXT_PUBLIC_SITE_DESCRIPTION",
        "NUXT_PUBLIC_SITE_URL",
        "NUXT_PUBLIC_ANALYTICS_PROVIDER",
        "NUXT_PUBLIC_PLAUSIBLE_DOMAIN",
        "NUXT_PUBLIC_GA_ID",
        "NUXT_PUBLIC_SEARCH_VERIFICATION_GOOGLE",
        "NUXT_PUBLIC_SEARCH_VERIFICATION_BING",
    ];
    let ghost maps = build_env_mappings();
    let ghost cv = match config {
        Some(c) => Some(c@),
        None => None::<JsonV>,
    };
    assert(maps.len() == 8);
    assert forall|i: int| 0 <= i < 8 implies (#[trigger] maps[i]) == (keys@[i]@, names@[i]@) by {}
    let mut out: Vec<(String, String)> = Vec::new();
    let mut i: usize = 0;
    while i < 8
        invariant
            i <= 8,
            maps == build_env_mappings(),
            maps.len() == 8,
            forall|j: int| 0 <= j < 8 ==> (#[trigger] maps[j]) == (keys@[j]@, names@[j]@),
            cv == (match config {
                Some(c) => Some(c@),
                None => None::<JsonV>,
            }),
            Seq::new(out@.len(), |k: int| (out@[k].0@, out@[k].1@)) == build_env(cv, maps.take(i as int)),
        decreases 8 - i,
    {
        let ghost before = Seq::new(out@.len(), |k: int| (out@[k].0@, out@[k].1@));
        assert(maps.take(i + 1).drop_last() =~= maps.take(i as int));
        assert(maps.take(i + 1).last() == maps[i as int]);
        match config {
            Some(c) => {
                if c.is_object() {
                    match c.get_str(keys[i]) {
                        Some(v) => {
                            let t = trim_chars(chars_of(v).as_slice());
                            if t.len() > 0 {
                                out.push((own(names[i]), string_from_chars(t.as_slice())));
                                assert(Seq::new(out@.len(), |k: int| (out@[k].0@, out@[k].1@)) =~= before.push(
                                    (names@[i as int]@, trim(v@)),
                                ));
                            }
                        },
                        None => {},
                    }
                }
            },
            None => {},
        }
        i = i + 1;
    }
    assert(maps.take(8) =~= maps);
    out
}

/// The allow-list of extra environment names: the comma-separated entries,
/// trimmed, keeping the non-empty safe ones.
pub open spec fn env_allowlist_of(parts: Seq<Seq<char>>) -> Seq<Seq<char>>
    decreases parts.len(),
{
    if parts.len() == 0 {
        Seq::empty()
    } else {
        let prev = env_allowlist_of(parts.drop_last());
        let t = trim(parts.last());
        if t.len() > 0 && safe_env_name(t) {
            prev.push(t)
        } else {
            prev
        }
    }
}

/// Parse `PPB_DEPLOYMENT_ENV_ALLOWLIST`.
pub fn parse_env_allowlist(raw: &str) -> (r: Vec<String>)
    ensures
        texts(r@) == env_allowlist_of(split_on(raw@, ',')),
    decreases raw@.len(),
{
    let cs = chars_of(raw);
    match crate::text::split_once_exec(cs.as_slice(), ',') {
        None => {
            let mut r: Vec<String> = Vec::new();
            let t = trim_chars(cs.as_slice());
            let ts = string_from_chars(t.as_slice());
            if t.len() > 0 && is_safe_env_name(ts.as_str()) {
                r.push(ts);
            }
            proof {
                assert(split_on(raw@, ',') =~= seq![raw@]);
                lemma_allowlist_prepend(raw@, Seq::empty());
                assert(seq![raw@] + Seq::<Seq<char>>::empty() =~= seq![raw@]);
                assert(env_allowlist_of(Seq::<Seq<char>>::empty()) =~= Seq::<Seq<char>>::empty());
            }
            assert(texts(r@) =~= env_allowlist_of(split_on(raw@, ',')));
            r
        },
        Some((a, b)) => {
            let head = string_from_chars(a.as_slice());
            let tail = string_from_chars(b.as_slice());
            proof {
                let i = crate::text::first_index_of(raw@, ',')->0;
                crate::text::lemma_first_index_bounds(raw@, ',');
                assert(split_on(raw@, ',') == seq![raw@.take(i)] + split_on(raw@.skip(i + 1), ','));
            }
            let rest = parse_env_allowlist(tail.as_str());
            let mut r: Vec<String> = Vec::new();
            let t = trim_chars(a.as_slice());
            let ts = string_from_chars(t.as_slice());
            if t.len() > 0 && is_safe_env_name(ts.as_str()) {
                r.push(ts);
            }
            let mut k: usize = 0;
            let ghost first = texts(r@);
            while k < rest.len()
                invariant
                    k <= rest@.len(),
                    texts(r@) == first + texts(rest@).take(k as int),
                decreases rest@.len() - k,
            {
                let ghost before = r@;
                let x = own(rest[k].as_str());
                r.push(x);
                proof {
                    crate::config::runtime::lemma_texts_push(before, x);
                    assert(texts(rest@).take(k + 1) =~= texts(rest@).take(k as int).push(rest@[k as int]@));
                    assert(texts(r@) =~= first + texts(rest@).take(k + 1));
                }
                k = k + 1;
            }
            assert(texts(rest@).take(rest@.len() as int) =~= texts(rest@));
            proof {
                lemma_allowlist_prepend(head@, split_on(tail@, ','));
            }
            r
        },
    }
}

proof fn lemma_allowlist_prepend(h: Seq<char>, parts: Seq<Seq<char>>)
    ensures
        env_allowlist_of(seq![h] + parts) == (if trim(h).len() > 0 && safe_env_name(trim(h)) {
            seq![trim(h)]
        } else {
            Seq::empty()
        }) + env_allowlist_of(parts),
    decreases parts.len(),
{
    let x: Seq<Seq<char>> = if trim(h).len() > 0 && safe_env_name(trim(h)) {
        seq![trim(h)]
    } else {
        Seq::empty()
    };
    if parts.len() == 0 {
        assert(seq![h] + parts =~= seq![h]);
        assert(seq![h].drop_last() =~= Seq::<Seq<char>>::empty());
        assert(seq![h].last() == h);
        assert(env_allowlist_of(Seq::<Seq<char>>::empty()) =~= Seq::<Seq<char>>::empty());
        assert(env_allowlist_of(seq![h]) =~= x);
        assert(x + env_allowlist_of(parts) =~= x);
    } else {
        assert((seq![h] + parts).drop_last() =~= seq![h] + parts.drop_last());
        assert((seq![h] + parts).last() == parts.last());
        lemma_allowlist_prepend(h, parts.drop_last());
        let a = env_allowlist_of(parts.drop_last());
        let t = trim(parts.last());
        assert((x + a).push(t) =~= x + a.push(t));
    }
}

// ── commands and their output ────────────────────────────────────────

/// A configured argv is usable: it names an executable (not blank) and no
/// argument holds NUL.
pub open spec fn argv_usable(argv: Seq<Seq<char>>) -> bool {
    argv.len() > 0 && trim(argv[0]).len() > 0 && forall|i: int| 0 <= i < argv.len() ==> !has_char(#[trigger] argv[i], '\0')
}

/// Check a configured command's argv (from the variable `command_name`).
pub fn check_command_argv(command_name: &str, argv: Vec<String>) -> (r: Result<FixedCommand, String>)
    ensures
        argv_usable(texts(argv@)) ==> (r matches Ok(c) && c.argv@ == argv@ && c.cwd is None),
        !argv_usable(texts(argv@)) ==> (r matches Err(e) && e@ == command_name@
            + " must contain a valid executable and NUL-free argv"@),
{
    let mut ok = argv.len() > 0;
    if ok {
        let first = chars_of(argv[0].as_str());
        ok = trim_chars(first.as_slice()).len() > 0;
    }
    let mut i: usize = 0;
    while ok && i < argv.len()
        invariant
            i <= argv@.len(),
            ok ==> argv@.len() > 0 && trim(argv@[0]@).len() > 0,
            ok ==> forall|k: int| 0 <= k < i ==> !has_char(#[trigger] argv@[k]@, '\0'),
            !ok ==> !argv_usable(texts(argv@)),
        decreases argv@.len() - i,
    {
        let cs = chars_of(argv[i].as_str());
        if contains_char(cs.as_slice(), '\0') {
            ok = false;
            proof {
                assert(texts(argv@)[i as int] == argv@[i as int]@);
            }
        }
        i = i + 1;
    }
    proof {
        if ok {
            assert forall|k: int| 0 <= k < texts(argv@).len() implies !has_char(#[trigger] texts(argv@)[k], '\0') by {
                assert(texts(argv@)[k] == argv@[k]@);
            }
            assert(texts(argv@)[0] == argv@[0]@);
        } else if argv@.len() > 0 {
            assert(texts(argv@)[0] == argv@[0]@);
        }
    }
    if ok {
        Ok(FixedCommand { argv, cwd: None })
    } else {
        let mut e = own(command_name);
        append_str(&mut e, " must contain a valid executable and NUL-free argv");
        Err(e)
    }
}

/// The command a deployment job runs, or the capability refusal.
pub fn job_command<'a>(adapter: &'a DeploymentAdapter, job_type: &str) -> (r: Result<&'a FixedCommand, String>)
    ensures
        job_type@ == "ppf.build"@ && adapter.ppf_build is Some ==> r == Ok::<&FixedCommand, String>(
            &adapter.ppf_build->0,
        ),
        job_type@ == "backup"@ && adapter.backup is Some ==> r == Ok::<&FixedCommand, String>(&adapter.backup->0),
        r is Err ==> (r matches Err(e) && e@ == "CAPABILITY_NOT_SUPPORTED: "@ + job_type@
            + " deployment command is not configured"@),
        r is Err <==> !((job_type@ == "ppf.build"@ && adapter.ppf_build is Some) || (job_type@ == "backup"@
            && adapter.backup is Some)),
{
    proof {
        reveal_strlit("ppf.build");
        reveal_strlit("backup");
        assert("ppf.build"@.len() != "backup"@.len());
    }
    let chosen = if str_eq(job_type, "ppf.build") {
        adapter.ppf_build.as_ref()
    } else if str_eq(job_type, "backup") {
        adapter.backup.as_ref()
    } else {
        None
    };
    match chosen {
        Some(c) => Ok(c),
        None => {
            let mut e = own("CAPABILITY_NOT_SUPPORTED: ");
            append_str(&mut e, job_type);
            append_str(&mut e, " deployment command is not configured");
            Err(e)
        },
    }
}

/// The number of leading characters of `s` whose UTF-8 bytes fit in `max`.
pub open spec fn fitting_chars(s: Seq<char>, max: int) -> nat
    decreases s.len(),
{
    if s.len() == 0 || utf8_width(s[0]) > max {
        0
    } else {
        1 + fitting_chars(s.drop_first(), max - utf8_width(s[0]))
    }
}

/// Command output text capped at `max` bytes: longer text is cut at the
/// last character that fits and marked with `…`.
pub open spec fn capped_text(s: Seq<char>, max: int) -> Seq<char> {
    if byte_len(s) <= max {
        s
    } else {
        s.take(fitting_chars(s, max) as int) + "…"@
    }
}

/// Cap `text` at `max` bytes on a character boundary.
pub fn cap_text(text: &str, max: usize) -> (r: String)
    ensures
        r@ == capped_text(text@, max as int),
{
    let cs = chars_of(text);
    let mut used: u128 = 0;
    let mut k: usize = 0;
    let ghost mut rest: Seq<char> = cs@;
    let ghost mut budget: int = max as int;
    while k < cs.len() && used + (crate::text::utf8_width_exec(cs[k]) as u128) <= max as u128
        invariant
            k <= cs@.len(),
            rest == cs@.skip(k as int),
            budget == max - used,
            used <= max,
            fitting_chars(cs@, max as int) == k + fitting_chars(rest, budget),
        decreases cs@.len() - k,
    {
        proof {
            assert(rest[0] == cs@[k as int]);
            assert(rest.drop_first() =~= cs@.skip(k + 1));
        }
        used = used + crate::text::utf8_width_exec(cs[k]) as u128;
        proof {
            rest = rest.drop_first();
            budget = max - used;
        }
        k = k + 1;
    }
    proof {
        if k < cs@.len() {
            assert(rest[0] == cs@[k as int]);
        }
        assert(fitting_chars(rest, budget) == 0);
    }
    let whole = crate::text::byte_len_chars(cs.as_slice());
    if whole <= max as u128 {
        return string_from_chars(cs.as_slice());
    }
    let mut out: Vec<char> = Vec::new();
    let mut j: usize = 0;
    while j < k
        invariant
            j <= k <= cs@.len(),
            out@ == cs@.take(j as int),
        decreases k - j,
    {
        out.push(cs[j]);
        j = j + 1;
        assert(out@ =~= cs@.take(j as int));
    }
    out.push('…');
    proof {
        reveal_strlit("…");
        assert(out@ =~= cs@.take(k as int) + "…"@);
    }
    string_from_chars(out.as_slice())
}

/// The text `String::from_utf8_lossy` makes of `bytes`.
pub uninterp spec fn lossy_text(bytes: Seq<u8>) -> Seq<char>;

/// `String::from_utf8_lossy(bytes)`: invalid sequences become U+FFFD; valid
/// UTF-8 decodes as itself.
#[verifier::external_body]
fn utf8_lossy(bytes: &[u8]) -> (s: String)
    ensures
        s@ == lossy_text(bytes@),
        forall|t: Seq<char>| bytes@ == vstd::utf8::encode_utf8(t) ==> s@ == t,
{
    String::from_utf8_lossy(bytes).into_owned()
}

/// Command output bytes as text capped at `max` bytes.
pub fn truncate_utf8(bytes: &[u8], max: usize) -> (r: String)
    ensures
        r@ == capped_text(lossy_text(bytes@), max as int),
{
    let text = utf8_lossy(bytes);
    cap_text(text.as_str(), max)
}

/// The result of a finished deployment command: its exit code and capped
/// output on success; on failure the status and stderr (stdout when stderr
/// is empty).
pub fn command_outcome(success: bool, status_text: &str, exit_code: Option<i32>, stdout: &[u8], stderr: &[u8]) -> (r:
    Result<Json, String>)
    ensures
        success ==> (r matches Ok(j) && j@ == JsonV::Object(
            seq![
                ("exit_code"@, match exit_code {
                    Some(c) => crate::json::int_json_value(c as i64),
                    None => JsonV::Null,
                }),
                ("stderr"@, JsonV::Str(capped_text(lossy_text(stderr@), 4096))),
                ("stdout"@, JsonV::Str(capped_text(lossy_text(stdout@), 4096))),
            ],
        )),
        !success ==> (r matches Err(e) && e@ == "deployment command exited with "@ + status_text@ + ": "@ + (if capped_text(
            lossy_text(stderr@),
            4096,
        ).len() == 0 {
            capped_text(lossy_text(stdout@), 4096)
        } else {
            capped_text(lossy_text(stderr@), 4096)
        })),
{
    let out = truncate_utf8(stdout, 4096);
    let err = truncate_utf8(stderr, 4096);
    if !success {
        let mut e = own("deployment command exited with ");
        append_str(&mut e, status_text);
        append_str(&mut e, ": ");
        if err.as_str().unicode_len() == 0 {
            append_str(&mut e, out.as_str());
        } else {
            append_str(&mut e, err.as_str());
        }
        return Err(e);
    }
    let code = match exit_code {
        Some(c) => crate::json::int_json(c as i64),
        None => Json::Null,
    };
    let mut es: Vec<(String, Json)> = Vec::new();
    es.push((own("exit_code"), code));
    es.push((own("stderr"), crate::json::json_string(err.as_str())));
    es.push((own("stdout"), crate::json::json_string(out.as_str())));
    let j = Json::Object(es);
    proof {
        lemma_object_view(j);
        assert(entries_view(es@) =~= seq![
            ("exit_code"@, match exit_code {
                Some(c) => crate::json::int_json_value(c as i64),
                None => JsonV::Null,
            }),
            ("stderr"@, JsonV::Str(capped_text(lossy_text(stderr@), 4096))),
            ("stdout"@, JsonV::Str(capped_text(lossy_text(stdout@), 4096))),
        ]);
    }
    Ok(j)
}

} // verus!
