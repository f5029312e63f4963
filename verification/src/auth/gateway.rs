//! The standalone login gateway's rules: which `return_to` values may be
//! reflected, where a login redirects, how legal links resolve, which locale
//! a page uses, and how text is escaped into the page.

use vstd::prelude::*;
use crate::codec::{base64_url_nopad, encode_url_nopad};
use crate::config::runtime::{LegalConfig, SecurityConfig, SiteConfig, texts};
use crate::error::{ApiError, ErrorCode};
use crate::json::{Json, JsonV, json_compact, to_text};
use crate::text::{
    append_chars, append_str, byte_len, chars_eq_str, chars_of, contains, contains_char, has_char, has_sub,
    is_prefix, lower, own, starts_with, str_eq, string_from_chars, to_lower_chars, trim, trim_chars,
};

verus! {

#[derive(Debug)]
/// Query of the login page.
pub struct LoginPageParams {
    pub return_to: Option<String>,
    pub client_type: Option<String>,
    pub lang: Option<String>,
    pub intent: Option<String>,
    pub error: Option<String>,
    pub request_id: Option<String>,
}

/// A relative product route that is safe to reflect: starts with `/`, is
/// not protocol-relative, has no backslash, no userinfo `@`, no scheme
/// `://`, and is at most 2048 bytes.
pub open spec fn is_safe_return(v: Seq<char>) -> bool {
    v.len() > 0 && v[0] == '/' && !is_prefix("//"@, v) && !has_char(v, '\\') && !has_char(v, '@') && !has_sub(
        v,
        "://"@,
    ) && byte_len(v) <= 2048
}

pub fn is_safe_return_exec(v: &str) -> (b: bool)
    ensures
        b == is_safe_return(v@),
{
    let cs = chars_of(v);
    let n = crate::text::byte_len_chars(cs.as_slice());
    cs.len() > 0 && cs[0] == '/' && !starts_with(cs.as_slice(), chars_of("//").as_slice()) && !contains_char(
        cs.as_slice(),
        '\\',
    ) && !contains_char(cs.as_slice(), '@') && !contains(cs.as_slice(), chars_of("://").as_slice()) && n <= 2048
}

/// A `return_to` value safe to reflect into the page redirect target; `/`
/// for anything else.
pub fn safe_return_to<'a>(value: Option<&'a str>) -> (r: &'a str)
    ensures
        r@ == (match value {
            Some(v) => if is_safe_return(v@) { v@ } else { "/"@ },
            None => "/"@,
        }),
{
    match value {
        Some(v) => if is_safe_return_exec(v) { v } else { "/" },
        None => "/",
    }
}

/// `/` itself is a safe route, and an unsafe value is replaced by it.
pub proof fn lemma_safe_return_fallback(v: Seq<char>)
    ensures
        is_safe_return("/"@),
        !is_safe_return(v) ==> v != "/"@,
{
    reveal_strlit("/");
    reveal_strlit("//");
    reveal_strlit("://");
    let s = "/"@;
    assert(!is_prefix("//"@, s));
    assert(!has_char(s, '\\'));
    assert(!has_char(s, '@'));
    assert(!has_sub(s, "://"@)) by {
        if has_sub(s, "://"@) {
            let i = choose|i: int| crate::text::occurs_at(s, "://"@, i);
            assert(i + 3 <= 1);
        }
    }
    assert(s.drop_last() =~= Seq::<char>::empty());
    assert(s.last() == '/');
    assert(crate::text::utf8_width('/') == 1);
    assert(byte_len(s.drop_last()) == 0);
    assert(byte_len(s) == 1);
}

/// `s` without its trailing `c` characters.
pub open spec fn trim_end_char(s: Seq<char>, c: char) -> Seq<char>
    decreases s.len(),
{
    if s.len() > 0 && s.last() == c {
        trim_end_char(s.drop_last(), c)
    } else {
        s
    }
}

pub fn trim_end_char_exec(s: &[char], c: char) -> (r: Vec<char>)
    ensures
        r@ == trim_end_char(s@, c),
{
    let mut j: usize = s.len();
    assert(s@.take(j as int) =~= s@);
    while j > 0 && s[j - 1] == c
        invariant
            j <= s@.len(),
            trim_end_char(s@, c) == trim_end_char(s@.take(j as int), c),
        decreases j,
    {
        assert(s@.take(j as int).drop_last() =~= s@.take(j - 1));
        j = j - 1;
    }
    assert(s@.take(j as int).len() > 0 ==> s@.take(j as int).last() == s@[j - 1]);
    let r = crate::text::slice_chars(s, 0, j);
    assert(r@ =~= s@.take(j as int));
    r
}

/// The trusted frontend origin of a client: the Panel's for `panel`, the
/// PPF web origin for every other client.
pub open spec fn trusted_origin(ppf_url: Seq<char>, panel_url: Seq<char>, client_type: Seq<char>) -> Seq<char> {
    if client_type == "panel"@ {
        panel_url
    } else {
        ppf_url
    }
}

/// Where a login for `client_type` redirects: an allow-listed absolute
/// `return_to` as is; a safe relative one joined to the trusted origin;
/// otherwise the trusted origin.
pub open spec fn redirect_target(
    ppf_url: Seq<char>,
    panel_url: Seq<char>,
    allowlist: Seq<Seq<char>>,
    client_type: Seq<char>,
    return_to: Option<Seq<char>>,
) -> Seq<char> {
    let origin = trim_end_char(trusted_origin(ppf_url, panel_url, client_type), '/');
    match return_to {
        Some(v) => if allowlist.contains(v) {
            v
        } else if is_safe_return(v) {
            origin + v
        } else {
            origin
        },
        None => origin,
    }
}

pub fn list_contains(list: &Vec<String>, v: &str) -> (b: bool)
    ensures
        b == texts(list@).contains(v@),
{
    let mut i: usize = 0;
    while i < list.len()
        invariant
            i <= list@.len(),
            forall|k: int| 0 <= k < i ==> list@[k]@ != v@,
        decreases list@.len() - i,
    {
        if str_eq(list[i].as_str(), v) {
            assert(texts(list@)[i as int] == v@);
            return true;
        }
        i = i + 1;
    }
    assert(!texts(list@).contains(v@)) by {
        if texts(list@).contains(v@) {
            let k = choose|k: int| 0 <= k < texts(list@).len() && texts(list@)[k] == v@;
            assert(list@[k]@ == v@);
        }
    }
    false
}

fn trusted_origin_exec<'a>(site: &'a SiteConfig, client_type: &str) -> (r: &'a str)
    ensures
        r@ == trusted_origin(site.ppf_url@, site.panel_url@, client_type@),
{
    if str_eq(client_type, "panel") {
        site.panel_url.as_str()
    } else {
        site.ppf_url.as_str()
    }
}

/// Resolve a relative product route against the trusted origin of the client.
pub fn resolve_redirect_target(
    site: &SiteConfig,
    security: &SecurityConfig,
    client_type: &str,
    return_to: Option<&str>,
) -> (r: String)
    ensures
        r@ == redirect_target(
            site.ppf_url@,
            site.panel_url@,
            texts(security.return_to_allowlist@),
            client_type@,
            match return_to {
                Some(v) => Some(v@),
                None => None,
            },
        ),
{
    let origin = trim_end_char_exec(chars_of(trusted_origin_exec(site, client_type)).as_slice(), '/');
    match return_to {
        Some(v) => {
            if list_contains(&security.return_to_allowlist, v) {
                own(v)
            } else if is_safe_return_exec(v) {
                let mut s = string_from_chars(origin.as_slice());
                append_str(&mut s, v);
                s
            } else {
                string_from_chars(origin.as_slice())
            }
        },
        None => string_from_chars(origin.as_slice()),
    }
}

/// A login never redirects to a foreign absolute URL: the target is an
/// allow-listed value, or starts with the client's trusted origin.
pub proof fn lemma_redirect_stays_trusted(
    ppf_url: Seq<char>,
    panel_url: Seq<char>,
    allowlist: Seq<Seq<char>>,
    client_type: Seq<char>,
    return_to: Option<Seq<char>>,
)
    ensures
        ({
            let t = redirect_target(ppf_url, panel_url, allowlist, client_type, return_to);
            allowlist.contains(t) || is_prefix(
                trim_end_char(trusted_origin(ppf_url, panel_url, client_type), '/'),
                t,
            )
        }),
{
    let origin = trim_end_char(trusted_origin(ppf_url, panel_url, client_type), '/');
    assert(origin.subrange(0, origin.len() as int) =~= origin);
    match return_to {
        Some(v) => {
            if !allowlist.contains(v) && is_safe_return(v) {
                assert((origin + v).subrange(0, origin.len() as int) =~= origin);
            }
        },
        None => {},
    }
}

/// Public authentication is ready: enabled, and both document versions and
/// links configured (non-blank).
pub open spec fn legal_ready_spec(enabled: bool, tv: Seq<char>, pv: Seq<char>, tu: Seq<char>, pu: Seq<char>) -> bool {
    enabled && trim(tv).len() > 0 && trim(pv).len() > 0 && trim(tu).len() > 0 && trim(pu).len() > 0
}

pub fn legal_ready(legal: &LegalConfig) -> (b: bool)
    ensures
        b == legal_ready_spec(
            legal.public_auth_enabled,
            legal.terms_version@,
            legal.privacy_version@,
            legal.terms_url@,
            legal.privacy_url@,
        ),
{
    legal.public_auth_enabled && trim_chars(chars_of(legal.terms_version.as_str()).as_slice()).len() > 0
        && trim_chars(chars_of(legal.privacy_version.as_str()).as_slice()).len() > 0 && trim_chars(
        chars_of(legal.terms_url.as_str()).as_slice(),
    ).len() > 0 && trim_chars(chars_of(legal.privacy_url.as_str()).as_slice()).len() > 0
}

/// Where a legal document link points: an HTTPS (or localhost HTTP) URL as
/// is, a safe relative route on the trusted origin, otherwise `#`.
pub open spec fn legal_link(ppf_url: Seq<char>, panel_url: Seq<char>, client_type: Seq<char>, value: Seq<char>) -> Seq<
    char,
> {
    if is_prefix("https://"@, value) || is_prefix("http://localhost"@, value) || is_prefix("http://127.0.0.1"@, value) {
        value
    } else if is_safe_return(value) {
        trim_end_char(trusted_origin(ppf_url, panel_url, client_type), '/') + value
    } else {
        "#"@
    }
}

pub fn resolve_legal_link(site: &SiteConfig, client_type: &str, value: &str) -> (r: String)
    ensures
        r@ == legal_link(site.ppf_url@, site.panel_url@, client_type@, value@),
{
    let cs = chars_of(value);
    if starts_with(cs.as_slice(), chars_of("https://").as_slice()) || starts_with(
        cs.as_slice(),
        chars_of("http://localhost").as_slice(),
    ) || starts_with(cs.as_slice(), chars_of("http://127.0.0.1").as_slice()) {
        return own(value);
    }
    if is_safe_return_exec(value) {
        let origin = trim_end_char_exec(chars_of(trusted_origin_exec(site, client_type)).as_slice(), '/');
        let mut s = string_from_chars(origin.as_slice());
        append_str(&mut s, value);
        return s;
    }
    own("#")
}

/// The page locale: an explicit `en*`/`zh*` request wins; otherwise English
/// when `Accept-Language` starts with `en`, Chinese by default.
pub open spec fn locale_for(accept_language: Seq<char>, requested: Option<Seq<char>>) -> Seq<char> {
    let explicit = match requested {
        Some(r) => if r == "en"@ || r == "en-US"@ || r == "en-GB"@ {
            Some("en"@)
        } else if r == "zh"@ || r == "zh-CN"@ || r == "zh-TW"@ {
            Some("zh"@)
        } else {
            None
        },
        None => None,
    };
    match explicit {
        Some(l) => l,
        None => if is_prefix("en"@, lower(accept_language)) {
            "en"@
        } else {
            "zh"@
        },
    }
}

pub fn locale_from(accept_language: Option<&str>, requested: Option<&str>) -> (l: &'static str)
    ensures
        l@ == locale_for(
            match accept_language {
                Some(a) => a@,
                None => Seq::empty(),
            },
            match requested {
                Some(r) => Some(r@),
                None => None,
            },
        ),
{
    match requested {
        Some(r) => {
            if str_eq(r, "en") || str_eq(r, "en-US") || str_eq(r, "en-GB") {
                return "en";
            }
            if str_eq(r, "zh") || str_eq(r, "zh-CN") || str_eq(r, "zh-TW") {
                return "zh";
            }
        },
        None => {},
    }
    let accept = match accept_language {
        Some(a) => chars_of(a),
        None => Vec::new(),
    };
    let low = to_lower_chars(accept.as_slice());
    if starts_with(low.as_slice(), chars_of("en").as_slice()) {
        "en"
    } else {
        "zh"
    }
}

/// The client a login page is for: `panel`, otherwise `ppf`.
pub fn page_client_type(param: Option<&str>) -> (c: &'static str)
    ensures
        c@ == (match param {
            Some(p) => if p@ == "panel"@ { "panel"@ } else { "ppf"@ },
            None => "ppf"@,
        }),
{
    match param {
        Some(p) => if str_eq(p, "panel") { "panel" } else { "ppf" },
        None => "ppf",
    }
}

/// HTML text escaping of one character.
pub open spec fn html_escape_char(c: char) -> Seq<char> {
    if c == '&' {
        "&amp;"@
    } else if c == '<' {
        "&lt;"@
    } else if c == '>' {
        "&gt;"@
    } else if c == '"' {
        "&quot;"@
    } else if c == '\'' {
        "&#39;"@
    } else {
        seq![c]
    }
}

/// Escape a map of characters, each replaced by its image.
pub open spec fn escape_with(s: Seq<char>, f: spec_fn(char) -> Seq<char>) -> Seq<char>
    decreases s.len(),
{
    if s.len() == 0 {
        Seq::empty()
    } else {
        escape_with(s.drop_last(), f) + f(s.last())
    }
}

/// Text escaped for an HTML attribute or body.
pub open spec fn html_text(s: Seq<char>) -> Seq<char> {
    escape_with(s, |c: char| html_escape_char(c))
}

/// No markup character survives escaping: escaped text holds no `<`, `>`,
/// `"` or `'`, so it cannot leave an attribute or open a tag.
pub proof fn lemma_html_text_inert(s: Seq<char>)
    ensures
        forall|i: int|
            0 <= i < html_text(s).len() ==> #[trigger] html_text(s)[i] != '<' && html_text(s)[i] != '>'
                && html_text(s)[i] != '"' && html_text(s)[i] != '\'',
    decreases s.len(),
{
    if s.len() > 0 {
        lemma_html_text_inert(s.drop_last());
        reveal_strlit("&amp;");
        reveal_strlit("&lt;");
        reveal_strlit("&gt;");
        reveal_strlit("&quot;");
        reveal_strlit("&#39;");
        let head = html_text(s.drop_last());
        let tail = html_escape_char(s.last());
        assert(html_text(s) == head + tail);
        assert forall|i: int| 0 <= i < html_text(s).len() implies #[trigger] html_text(s)[i] != '<' && html_text(
            s,
        )[i] != '>' && html_text(s)[i] != '"' && html_text(s)[i] != '\'' by {
            if i < head.len() {
                assert(html_text(s)[i] == head[i]);
            } else {
                assert(html_text(s)[i] == tail[i - head.len()]);
            }
        }
    }
}

/// Escape text for an HTML attribute or body.
pub fn html_escape(s: &str) -> (r: String)
    ensures
        r@ == html_text(s@),
{
    let cs = chars_of(s);
    let mut out = String::new();
    let mut i: usize = 0;
    while i < cs.len()
        invariant
            i <= cs@.len(),
            cs@ == s@,
            out@ == html_text(cs@.take(i as int)),
        decreases cs@.len() - i,
    {
        let c = cs[i];
        let piece: &str = if c == '&' {
            "&amp;"
        } else if c == '<' {
            "&lt;"
        } else if c == '>' {
            "&gt;"
        } else if c == '"' {
            "&quot;"
        } else if c == '\'' {
            "&#39;"
        } else {
            ""
        };
        if c == '&' || c == '<' || c == '>' || c == '"' || c == '\'' {
            append_str(&mut out, piece);
        } else {
            crate::text::push_char(&mut out, c);
        }
        assert(cs@.take(i + 1).drop_last() =~= cs@.take(i as int));
        i = i + 1;
    }
    assert(cs@.take(cs@.len() as int) =~= cs@);
    out
}

/// The escape of one character in JSON embedded in an inline script.
pub open spec fn script_escape_char(c: char) -> Seq<char> {
    if c == '&' {
        "\\u0026"@
    } else if c == '<' {
        "\\u003c"@
    } else if c == '>' {
        "\\u003e"@
    } else if c == '\u{2028}' {
        "\\u2028"@
    } else if c == '\u{2029}' {
        "\\u2029"@
    } else {
        seq![c]
    }
}

/// The compact JSON text of `v` with the characters that could end or
/// confuse an inline `<script>` escaped.
pub open spec fn script_json(v: JsonV) -> Seq<char> {
    script_text(json_compact(v))
}

/// Text escaped for an inline `<script>`.
pub open spec fn script_text(s: Seq<char>) -> Seq<char> {
    escape_with(s, |c: char| script_escape_char(c))
}

/// The compact JSON of `v`, made safe to embed in an inline `<script>`.
pub fn json_for_inline_script(v: &Json) -> (r: String)
    ensures
        r@ == script_json(v@),
{
    let t = to_text(v);
    let cs = chars_of(t.as_str());
    let mut out = String::new();
    let mut i: usize = 0;
    while i < cs.len()
        invariant
            i <= cs@.len(),
            cs@ == json_compact(v@),
            out@ == script_text(cs@.take(i as int)),
        decreases cs@.len() - i,
    {
        let c = cs[i];
        if c == '&' {
            append_str(&mut out, "\\u0026");
        } else if c == '<' {
            append_str(&mut out, "\\u003c");
        } else if c == '>' {
            append_str(&mut out, "\\u003e");
        } else if c == '\u{2028}' {
            append_str(&mut out, "\\u2028");
        } else if c == '\u{2029}' {
            append_str(&mut out, "\\u2029");
        } else {
            crate::text::push_char(&mut out, c);
        }
        assert(cs@.take(i + 1).drop_last() =~= cs@.take(i as int));
        i = i + 1;
    }
    assert(cs@.take(cs@.len() as int) =~= cs@);
    out
}

/// `return_to` of a login request: empty, allow-listed, or a safe relative
/// path (no scheme, no `//`, no backslash, no `@`).
pub open spec fn return_to_allowed(allowlist: Seq<Seq<char>>, v: Seq<char>) -> bool {
    v.len() == 0 || allowlist.contains(v) || (v[0] == '/' && !is_prefix("//"@, v) && !has_char(v, '\\') && !has_char(
        v,
        '@',
    ) && !has_sub(v, "://"@))
}

pub fn validate_return_to(allowlist: &Vec<String>, return_to: &str) -> (r: Result<(), ApiError>)
    ensures
        return_to_allowed(texts(allowlist@), return_to@) ==> r is Ok,
        !return_to_allowed(texts(allowlist@), return_to@) ==> (r matches Err(e) && e.code
            == ErrorCode::ValidationFailed && e.message@ == "return_to 不在白名单内"@),
{
    let cs = chars_of(return_to);
    if cs.len() == 0 {
        return Ok(());
    }
    if list_contains(allowlist, return_to) {
        return Ok(());
    }
    let relative = cs[0] == '/' && !starts_with(cs.as_slice(), chars_of("//").as_slice()) && !contains_char(
        cs.as_slice(),
        '\\',
    ) && !contains_char(cs.as_slice(), '@') && !contains(cs.as_slice(), chars_of("://").as_slice());
    if relative {
        return Ok(());
    }
    Err(ApiError::validation("return_to 不在白名单内"))
}

/// `rand::RngCore::fill_bytes` on the thread RNG: `n` random bytes. Only
/// their number is known.
#[verifier::external_body]
pub(crate) fn random_bytes(n: usize) -> (b: Vec<u8>)
    ensures
        b@.len() == n,
{
    let mut bytes = vec![0u8; n];
    rand::RngCore::fill_bytes(&mut rand::thread_rng(), &mut bytes);
    bytes
}

/// A fresh CSP nonce: 18 random bytes, URL-safe base64 without padding.
pub fn new_csp_nonce() -> (s: String)
    ensures
        exists|b: Seq<u8>| b.len() == 18 && s@ == base64_url_nopad(b),
{
    let b = random_bytes(18);
    encode_url_nopad(b.as_slice())
}

/// The security headers of a gateway page whose inline style and script
/// carry `nonce`.
pub open spec fn gateway_headers(nonce: Seq<char>) -> Seq<(Seq<char>, Seq<char>)> {
    seq![
        ("cache-control"@, "no-store, max-age=0"@),
        ("pragma"@, "no-cache"@),
        ("referrer-policy"@, "no-referrer"@),
        ("x-content-type-options"@, "nosniff"@),
        ("x-frame-options"@, "DENY"@),
        ("permissions-policy"@, "camera=(), microphone=(), geolocation=(), payment=()"@),
        ("content-security-policy"@, "default-src 'none'; img-src 'self' data:; style-src 'nonce-"@ + nonce
            + "'; script-src 'nonce-"@ + nonce
            + "'; connect-src 'self'; form-action 'self'; frame-ancestors 'none'; base-uri 'none'; object-src 'none'"@),
    ]
}

pub fn gateway_security_headers(nonce: &str) -> (h: Vec<(&'static str, String)>)
    ensures
        Seq::new(h@.len(), |i: int| (h@[i].0@, h@[i].1@)) == gateway_headers(nonce@),
{
    let mut csp = own("default-src 'none'; img-src 'self' data:; style-src 'nonce-");
    append_str(&mut csp, nonce);
    append_str(&mut csp, "'; script-src 'nonce-");
    append_str(&mut csp, nonce);
    append_str(
        &mut csp,
        "'; connect-src 'self'; form-action 'self'; frame-ancestors 'none'; base-uri 'none'; object-src 'none'",
    );
    let mut h: Vec<(&'static str, String)> = Vec::new();
    h.push(("cache-control", own("no-store, max-age=0")));
    h.push(("pragma", own("no-cache")));
    h.push(("referrer-policy", own("no-referrer")));
    h.push(("x-content-type-options", own("nosniff")));
    h.push(("x-frame-options", own("DENY")));
    h.push(("permissions-policy", own("camera=(), microphone=(), geolocation=(), payment=()")));
    h.push(("content-security-policy", csp));
    assert(Seq::new(h@.len(), |i: int| (h@[i].0@, h@[i].1@)) =~= gateway_headers(nonce@));
    h
}

} // verus!
