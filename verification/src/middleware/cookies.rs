//! Cookie serialization and lookup. Access cookies are Secure + HttpOnly,
//! SameSite=Lax; `SameSite=None` always implies Secure.

use vstd::prelude::*;
use crate::json::dec_text;
use crate::json::i64_text;
use crate::text::{append_chars, append_str, own, str_eq};

verus! {

/// SameSite policy of a cookie; `CrossSite` is written `SameSite=None`.
#[derive(Clone, Copy, Debug, PartialEq, Eq, Structural)]
pub enum SameSite {
    Strict,
    Lax,
    CrossSite,
}

impl SameSite {
    pub open spec fn text(self) -> Seq<char> {
        match self {
            SameSite::Strict => "Strict"@,
            SameSite::Lax => "Lax"@,
            SameSite::CrossSite => "None"@,
        }
    }

    pub fn as_str(&self) -> (s: &'static str)
        ensures
            s@ == self.text(),
    {
        match self {
            SameSite::Strict => "Strict",
            SameSite::Lax => "Lax",
            SameSite::CrossSite => "None",
        }
    }
}

#[derive(Debug)]
/// Options controlling cookie serialization.
pub struct CookieOpts {
    pub domain: String,
    pub path: String,
    pub secure: bool,
    pub http_only: bool,
    pub same_site: SameSite,
}

impl CookieOpts {
    /// Path `/`, Secure, HttpOnly, SameSite=Lax.
    pub fn new(domain: &str) -> (o: CookieOpts)
        ensures
            o.domain@ == domain@,
            o.path@ == "/"@,
            o.secure,
            o.http_only,
            o.same_site == SameSite::Lax,
    {
        CookieOpts { domain: own(domain), path: own("/"), secure: true, http_only: true, same_site: SameSite::Lax }
    }

    pub fn http_only(self, v: bool) -> (o: CookieOpts)
        ensures
            o.http_only == v,
            o.domain == self.domain,
            o.path == self.path,
            o.secure == self.secure,
            o.same_site == self.same_site,
    {
        CookieOpts { http_only: v, ..self }
    }

    pub fn same_site(self, v: SameSite) -> (o: CookieOpts)
        ensures
            o.same_site == v,
            o.domain == self.domain,
            o.path == self.path,
            o.secure == self.secure,
            o.http_only == self.http_only,
    {
        CookieOpts { same_site: v, ..self }
    }
}

/// The attributes after `name=value`: path, domain, Secure (also forced by
/// SameSite=None), HttpOnly, SameSite.
pub open spec fn cookie_attrs(path: Seq<char>, domain: Seq<char>, secure: bool, http_only: bool, same_site: SameSite) -> Seq<
    char,
> {
    "; Path="@ + path + "; Domain="@ + domain + (if secure || same_site == SameSite::CrossSite {
        "; Secure"@
    } else {
        Seq::empty()
    }) + (if http_only {
        "; HttpOnly"@
    } else {
        Seq::empty()
    }) + "; SameSite="@ + same_site.text()
}

fn push_attrs(s: &mut String, opts: &CookieOpts)
    ensures
        final(s)@ == old(s)@ + cookie_attrs(opts.path@, opts.domain@, opts.secure, opts.http_only, opts.same_site),
{
    let ghost start = s@;
    append_str(s, "; Path=");
    append_str(s, opts.path.as_str());
    append_str(s, "; Domain=");
    append_str(s, opts.domain.as_str());
    let ghost a = s@;
    if opts.secure || opts.same_site == SameSite::CrossSite {
        append_str(s, "; Secure");
    }
    let ghost b = s@;
    if opts.http_only {
        append_str(s, "; HttpOnly");
    }
    let ghost c = s@;
    append_str(s, "; SameSite=");
    append_str(s, opts.same_site.as_str());
    assert(s@ =~= start + cookie_attrs(opts.path@, opts.domain@, opts.secure, opts.http_only, opts.same_site));
}

/// A `Set-Cookie` value; `Max-Age` only for a positive lifetime.
pub open spec fn set_cookie_text(name: Seq<char>, value: Seq<char>, path: Seq<char>, domain: Seq<char>, secure: bool, http_only: bool, same_site: SameSite, max_age: i64) -> Seq<char> {
    name + "="@ + value + cookie_attrs(path, domain, secure, http_only, same_site) + (if max_age > 0 {
        "; Max-Age="@ + dec_text(max_age as nat)
    } else {
        Seq::empty()
    })
}

/// Serialize a `Set-Cookie` header value.
pub fn set_cookie(name: &str, value: &str, opts: &CookieOpts, max_age_secs: i64) -> (s: String)
    ensures
        s@ == set_cookie_text(name@, value@, opts.path@, opts.domain@, opts.secure, opts.http_only, opts.same_site, max_age_secs),
{
    let mut s = own(name);
    append_str(&mut s, "=");
    append_str(&mut s, value);
    push_attrs(&mut s, opts);
    let ghost before = s@;
    if max_age_secs > 0 {
        append_str(&mut s, "; Max-Age=");
        let d = i64_text(max_age_secs);
        append_chars(&mut s, d.as_slice());
    }
    assert(s@ =~= set_cookie_text(name@, value@, opts.path@, opts.domain@, opts.secure, opts.http_only, opts.same_site, max_age_secs));
    s
}

/// A `Set-Cookie` value that deletes the cookie immediately.
pub fn clear_cookie(name: &str, opts: &CookieOpts) -> (s: String)
    ensures
        s@ == name@ + "="@ + cookie_attrs(opts.path@, opts.domain@, opts.secure, opts.http_only, opts.same_site)
            + "; Max-Age=0"@,
{
    let mut s = own(name);
    append_str(&mut s, "=");
    push_attrs(&mut s, opts);
    append_str(&mut s, "; Max-Age=0");
    s
}

/// Every `Set-Cookie` written with `SameSite=None` is Secure.
pub proof fn lemma_samesite_none_is_secure(path: Seq<char>, domain: Seq<char>, secure: bool, http_only: bool)
    ensures
        cookie_attrs(path, domain, secure, http_only, SameSite::CrossSite) == "; Path="@ + path + "; Domain="@ + domain
            + "; Secure"@ + (if http_only {
            "; HttpOnly"@
        } else {
            Seq::empty()
        }) + "; SameSite="@ + "None"@,
{
}

/// The cookies of a `Cookie` header in order: each a (name, value) pair, or
/// `None` where the text does not parse as a cookie.
pub uninterp spec fn cookie_split(header: Seq<char>) -> Seq<Option<(Seq<char>, Seq<char>)>>;

/// The model of a split header.
pub open spec fn cookie_items(r: Seq<Option<(String, String)>>) -> Seq<Option<(Seq<char>, Seq<char>)>> {
    Seq::new(
        r.len(),
        |i: int|
            match r[i] {
                Some(p) => Some((p.0@, p.1@)),
                None => None,
            },
    )
}

/// `cookie::Cookie::split_parse`: each piece of the header as its
/// (name, value), or `None` where it does not parse, in header order.
#[verifier::external_body]
fn split_cookies(header: &str) -> (r: Vec<Option<(String, String)>>)
    ensures
        cookie_items(r@) == cookie_split(header@),
{
    cookie::Cookie::split_parse(header).map(|c| c.ok().map(|c| (c.name().to_string(), c.value().to_string()))).collect()
}

/// The value of the first parsed cookie named `name`.
pub open spec fn first_cookie(items: Seq<Option<(Seq<char>, Seq<char>)>>, name: Seq<char>) -> Option<Seq<char>>
    decreases items.len(),
{
    if items.len() == 0 {
        None
    } else {
        match items[0] {
            Some((n, v)) => if n == name {
                Some(v)
            } else {
                first_cookie(items.drop_first(), name)
            },
            None => first_cookie(items.drop_first(), name),
        }
    }
}

/// An item that is not a cookie named `name`.
pub open spec fn other_cookie(item: Option<(Seq<char>, Seq<char>)>, name: Seq<char>) -> bool {
    match item {
        Some((n, _)) => n != name,
        None => true,
    }
}

proof fn lemma_first_cookie_skip(s: Seq<Option<(Seq<char>, Seq<char>)>>, name: Seq<char>, i: int)
    requires
        0 <= i <= s.len(),
        forall|j: int| 0 <= j < i ==> other_cookie(#[trigger] s[j], name),
    ensures
        first_cookie(s, name) == first_cookie(s.subrange(i, s.len() as int), name),
    decreases i,
{
    if i == 0 {
        assert(s.subrange(0, s.len() as int) =~= s);
    } else {
        assert(other_cookie(s[0], name));
        assert(s.drop_first().subrange(i - 1, s.drop_first().len() as int) =~= s.subrange(i, s.len() as int));
        assert forall|j: int| 0 <= j < i - 1 implies other_cookie(#[trigger] s.drop_first()[j], name) by {
            assert(s.drop_first()[j] == s[j + 1]);
        }
        lemma_first_cookie_skip(s.drop_first(), name, i - 1);
    }
}

/// Read a cookie by name from a request's `Cookie` header.
pub fn get_cookie(cookie_header: Option<&str>, name: &str) -> (r: Option<String>)
    ensures
        match cookie_header {
            Some(h) => match r {
                Some(v) => first_cookie(cookie_split(h@), name@) == Some(v@),
                None => first_cookie(cookie_split(h@), name@) is None,
            },
            None => r is None,
        },
{
    let h = match cookie_header {
        Some(h) => h,
        None => return None,
    };
    let items = split_cookies(h);
    let ghost ps = cookie_items(items@);
    let n = items.len();
    let mut i: usize = 0;
    while i < n
        invariant
            n == items@.len(),
            ps == cookie_items(items@),
            ps == cookie_split(h@),
            cookie_header == Some(h),
            i <= n,
            forall|j: int| 0 <= j < i ==> other_cookie(#[trigger] ps[j], name@),
        decreases n - i,
    {
        assert(ps[i as int] == match items@[i as int] {
            Some(p) => Some((p.0@, p.1@)),
            None => None::<(Seq<char>, Seq<char>)>,
        });
        match &items[i] {
            Some(pair) => {
                if str_eq(pair.0.as_str(), name) {
                    proof {
                        lemma_first_cookie_skip(ps, name@, i as int);
                        let sub = ps.subrange(i as int, ps.len() as int);
                        assert(sub[0] == ps[i as int]);
                    }
                    return Some(own(pair.1.as_str()));
                }
            },
            None => {},
        }
        i = i + 1;
    }
    proof {
        lemma_first_cookie_skip(ps, name@, n as int);
        assert(ps.subrange(n as int, n as int).len() == 0);
    }
    None
}

} // verus!
