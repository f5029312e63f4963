//! Runtime configuration sections, their defaults and validation.

use vstd::prelude::*;
use crate::text::{
    chars_of, has_char, has_sub, is_prefix, lower, own, str_eq, to_lower_chars, trim, trim_chars, chars_eq_str,
    starts_with, contains, contains_char,
};

verus! {

/// The text of each string in a list.
pub open spec fn texts(v: Seq<String>) -> Seq<Seq<char>> {
    Seq::new(v.len(), |i: int| v[i]@)
}

/// Pushing a string pushes its text.
pub proof fn lemma_texts_push(v: Seq<String>, s: String)
    ensures
        texts(v.push(s)) == texts(v).push(s@),
{
    assert(texts(v.push(s)) =~= texts(v).push(s@));
}

fn strings(items: &[&str]) -> (v: Vec<String>)
    ensures
        v@.len() == items@.len(),
        forall|i: int| 0 <= i < items@.len() ==> (#[trigger] v@[i])@ == items@[i]@,
{
    let mut v: Vec<String> = Vec::new();
    let mut i: usize = 0;
    while i < items.len()
        invariant
            i <= items@.len(),
            v@.len() == i,
            forall|k: int| 0 <= k < i ==> (#[trigger] v@[k])@ == items@[k]@,
        decreases items@.len() - i,
    {
        v.push(own(items[i]));
        i = i + 1;
    }
    v
}

#[derive(Debug)]
pub struct ServerConfig {
    pub listen_addr: String,
    pub public_url: String,
    pub graceful_shutdown_secs: u64,
}

impl Default for ServerConfig {
    fn default() -> (c: ServerConfig)
        ensures
            c.listen_addr@ == "0.0.0.0:8080"@,
            c.public_url@ == "https://api-phira.htadiy.com"@,
            c.graceful_shutdown_secs == 15,
    {
        ServerConfig {
            listen_addr: own("0.0.0.0:8080"),
            public_url: own("https://api-phira.htadiy.com"),
            graceful_shutdown_secs: 15,
        }
    }
}

#[derive(Debug)]
pub struct SiteConfig {
    pub ppf_url: String,
    pub panel_url: String,
    pub docs_url: String,
    /// Aggregate visit count baseline (0 when unset).
    pub visit_count: i64,
}

impl Default for SiteConfig {
    fn default() -> (c: SiteConfig)
        ensures
            c.ppf_url@ == "https://phira.htadiy.com"@,
            c.panel_url@ == "https://panel-phira.htadiy.com"@,
            c.docs_url@ == "https://docs.phira.htadiy.com"@,
            c.visit_count == 0,
    {
        SiteConfig {
            ppf_url: own("https://phira.htadiy.com"),
            panel_url: own("https://panel-phira.htadiy.com"),
            docs_url: own("https://docs.phira.htadiy.com"),
            visit_count: 0,
        }
    }
}

#[derive(Debug)]
pub struct CorsConfig {
    pub credentials: bool,
    pub allowed_origins: Vec<String>,
    pub dev_origins: Vec<String>,
}

impl Default for CorsConfig {
    fn default() -> (c: CorsConfig)
        ensures
            c.credentials,
            texts(c.allowed_origins@) == seq!["https://phira.htadiy.com"@, "https://panel-phira.htadiy.com"@],
            texts(c.dev_origins@) == seq!["http://localhost:3000"@, "http://localhost:5173"@],
    {
        let a = strings(&["https://phira.htadiy.com", "https://panel-phira.htadiy.com"]);
        let d = strings(&["http://localhost:3000", "http://localhost:5173"]);
        let c = CorsConfig { credentials: true, allowed_origins: a, dev_origins: d };
        assert(texts(c.allowed_origins@) =~= seq!["https://phira.htadiy.com"@, "https://panel-phira.htadiy.com"@]);
        assert(texts(c.dev_origins@) =~= seq!["http://localhost:3000"@, "http://localhost:5173"@]);
        c
    }
}

/// A byte that may stand in an HTTP header value: visible ASCII, space,
/// tab, or any byte of 0x80 and above.
pub open spec fn header_byte_ok(b: u8) -> bool {
    (b >= 32 && b != 127) || b == 9
}

/// Text that can be sent as an HTTP header value.
pub open spec fn header_value_text(s: Seq<char>) -> bool {
    forall|i: int| 0 <= i < vstd::utf8::encode_utf8(s).len() ==> header_byte_ok(
        #[trigger] vstd::utf8::encode_utf8(s)[i],
    )
}

/// `text.parse::<HeaderValue>()` (the `http` crate's `HeaderValue::from_str`)
/// succeeds: it accepts exactly the strings whose UTF-8 bytes are each a
/// tab or at least 32 and not 127.
#[verifier::external_body]
pub(crate) fn header_value_ok(text: &str) -> (b: bool)
    ensures
        b == header_value_text(text@),
{
    text.parse::<axum::http::HeaderValue>().is_ok()
}

/// The origins a CORS policy allows: the configured and development origins
/// that are valid header values, in order, then `*` when credentials are off.
pub open spec fn cors_origin_list(allowed: Seq<Seq<char>>, dev: Seq<Seq<char>>, credentials: bool) -> Seq<Seq<char>> {
    (allowed + dev).filter(|o: Seq<char>| header_value_text(o)) + if credentials {
        Seq::<Seq<char>>::empty()
    } else {
        seq!["*"@]
    }
}

/// Append to `r` the strings of `v` that are valid header values, in order.
fn push_header_values(r: &mut Vec<String>, v: &Vec<String>)
    ensures
        texts(final(r)@) == texts(old(r)@) + texts(v@).filter(|o: Seq<char>| header_value_text(o)),
{
    let ghost pred = |o: Seq<char>| header_value_text(o);
    let ghost start = texts(r@);
    let mut i: usize = 0;
    while i < v.len()
        invariant
            i <= v@.len(),
            pred == (|o: Seq<char>| header_value_text(o)),
            texts(r@) == start + texts(v@).take(i as int).filter(pred),
        decreases v@.len() - i,
    {
        proof {
            reveal(Seq::filter);
            assert(texts(v@).take(i + 1).drop_last() =~= texts(v@).take(i as int));
            assert(texts(v@).take(i + 1).last() == v@[i as int]@);
        }
        if header_value_ok(v[i].as_str()) {
            let ghost before = r@;
            let x = own(v[i].as_str());
            r.push(x);
            proof {
                lemma_texts_push(before, x);
                assert((start + texts(v@).take(i as int).filter(pred)).push(x@) =~= start + texts(v@).take(i as int).filter(
                    pred,
                ).push(x@));
            }
        }
        i = i + 1;
    }
    assert(texts(v@).take(v@.len() as int) =~= texts(v@));
}

/// The allowed origins of the CORS layer for `cors`.
pub fn cors_origins(cors: &CorsConfig) -> (r: Vec<String>)
    ensures
        texts(r@) == cors_origin_list(texts(cors.allowed_origins@), texts(cors.dev_origins@), cors.credentials),
{
    let ghost pred = |o: Seq<char>| header_value_text(o);
    let mut r: Vec<String> = Vec::new();
    push_header_values(&mut r, &cors.allowed_origins);
    push_header_values(&mut r, &cors.dev_origins);
    proof {
        Seq::filter_distributes_over_add(texts(cors.allowed_origins@), texts(cors.dev_origins@), pred);
        assert(texts(r@) =~= (texts(cors.allowed_origins@) + texts(cors.dev_origins@)).filter(pred));
    }
    if !cors.credentials {
        let ghost before = r@;
        let star = own("*");
        r.push(star);
        proof {
            lemma_texts_push(before, star);
        }
    }
    proof {
        if cors.credentials {
            assert(texts(r@) =~= (texts(cors.allowed_origins@) + texts(cors.dev_origins@)).filter(pred)
                + Seq::<Seq<char>>::empty());
        }
    }
    r
}

#[derive(Debug)]
pub struct SessionConfig {
    pub access_ttl_secs: i64,
    pub refresh_ttl_secs: i64,
    /// Empty means a host-only cookie.
    pub cookie_domain: String,
    pub cookie_secure: bool,
    /// `lax` | `strict` | `none`.
    pub cookie_samesite: String,
    pub csrf_cookie_name: String,
    pub csrf_header_name: String,
    pub reauth_ttl_secs: i64,
}

impl Default for SessionConfig {
    fn default() -> (c: SessionConfig)
        ensures
            c.access_ttl_secs == 3600,
            c.refresh_ttl_secs == 2592000,
            c.cookie_domain@ == Seq::<char>::empty(),
            c.cookie_secure,
            c.cookie_samesite@ == "lax"@,
            c.csrf_cookie_name@ == "ppb_csrf"@,
            c.csrf_header_name@ == "X-CSRF-Token"@,
            c.reauth_ttl_secs == 300,
    {
        SessionConfig {
            access_ttl_secs: 3600,
            refresh_ttl_secs: 2592000,
            cookie_domain: String::new(),
            cookie_secure: true,
            cookie_samesite: own("lax"),
            csrf_cookie_name: own("ppb_csrf"),
            csrf_header_name: own("X-CSRF-Token"),
            reauth_ttl_secs: 300,
        }
    }
}

#[derive(Debug)]
pub struct PmpConfig {
    pub openuds_path: String,
    /// `token` | `approve`.
    pub auth_mode: String,
    pub client_name: String,
    pub reconnect_base_ms: u64,
    pub reconnect_max_ms: u64,
    pub request_timeout_ms: u64,
    pub capabilities: Vec<String>,
    /// Path to PMP `server_config.yml`.
    pub config_path: Option<String>,
    /// PMP HTTP health URL.
    pub http_url: Option<String>,
}

impl Default for PmpConfig {
    fn default() -> (c: PmpConfig)
        ensures
            c.openuds_path@ == "/var/run/pmp-openuds.sock"@,
            c.auth_mode@ == "approve"@,
            c.client_name@ == "ppb-server"@,
            c.reconnect_base_ms == 500,
            c.reconnect_max_ms == 30000,
            c.request_timeout_ms == 10000,
            texts(c.capabilities@) == seq![
                "persist.touches"@,
                "persist.judges"@,
                "persist.rounds"@,
                "room.chat_send"@,
                "stream.touches"@,
                "stream.judges"@,
            ],
            c.config_path is None,
            c.http_url is None,
    {
        let caps = strings(
            &[
                "persist.touches",
                "persist.judges",
                "persist.rounds",
                "room.chat_send",
                "stream.touches",
                "stream.judges",
            ],
        );
        let c = PmpConfig {
            openuds_path: own("/var/run/pmp-openuds.sock"),
            auth_mode: own("approve"),
            client_name: own("ppb-server"),
            reconnect_base_ms: 500,
            reconnect_max_ms: 30000,
            request_timeout_ms: 10000,
            capabilities: caps,
            config_path: None,
            http_url: None,
        };
        assert(texts(c.capabilities@) =~= seq![
            "persist.touches"@,
            "persist.judges"@,
            "persist.rounds"@,
            "room.chat_send"@,
            "stream.touches"@,
            "stream.judges"@,
        ]);
        c
    }
}

#[derive(Debug)]
pub struct PhiraConfig {
    pub base_url: String,
    pub timeout_ms: u64,
    pub access_token_ttl_secs: i64,
    /// Data gateway cache TTL for public data.
    pub gateway_ttl_secs: i64,
    /// Data gateway rate limit (requests/min).
    pub gateway_rate_per_minute: u32,
    pub aggregator_enabled: bool,
    pub aggregator_interval_hours: u64,
    pub aggregator_top_n: i32,
}

impl Default for PhiraConfig {
    fn default() -> (c: PhiraConfig)
        ensures
            c.base_url@ == "https://phira.5wyxi.com"@,
            c.timeout_ms == 15000,
            c.access_token_ttl_secs == 21600,
            c.gateway_ttl_secs == 120,
            c.gateway_rate_per_minute == 60,
            c.aggregator_enabled,
            c.aggregator_interval_hours == 1,
            c.aggregator_top_n == 50,
    {
        PhiraConfig {
            base_url: own("https://phira.5wyxi.com"),
            timeout_ms: 15000,
            access_token_ttl_secs: 21600,
            gateway_ttl_secs: 120,
            gateway_rate_per_minute: 60,
            aggregator_enabled: true,
            aggregator_interval_hours: 1,
            aggregator_top_n: 50,
        }
    }
}

#[derive(Debug)]
pub struct RateLimitConfig {
    pub login_per_minute: u32,
    pub reauth_per_minute: u32,
    pub github_start_per_minute: u32,
    pub github_callback_per_minute: u32,
    pub github_provider_per_minute: u32,
    pub chat_send_per_minute: u32,
    pub social_per_minute: u32,
    pub raw_cli_per_minute: u32,
}

impl Default for RateLimitConfig {
    fn default() -> (c: RateLimitConfig)
        ensures
            c.login_per_minute == 10,
            c.reauth_per_minute == 10,
            c.github_start_per_minute == 10,
            c.github_callback_per_minute == 20,
            c.github_provider_per_minute == 120,
            c.chat_send_per_minute == 60,
            c.social_per_minute == 30,
            c.raw_cli_per_minute == 30,
    {
        RateLimitConfig {
            login_per_minute: 10,
            reauth_per_minute: 10,
            github_start_per_minute: 10,
            github_callback_per_minute: 20,
            github_provider_per_minute: 120,
            chat_send_per_minute: 60,
            social_per_minute: 30,
            raw_cli_per_minute: 30,
        }
    }
}

#[derive(Debug)]
pub struct AuditConfig {
    pub retention_days: i32,
}

impl Default for AuditConfig {
    fn default() -> (c: AuditConfig)
        ensures
            c.retention_days == 90,
    {
        AuditConfig { retention_days: 90 }
    }
}

#[derive(Debug)]
pub struct NotificationConfig {
    pub default_chat_channel: String,
    /// Web Push VAPID private key (PEM); absent means not configured.
    pub vapid_private_key_pem: Option<String>,
    pub vapid_subject: Option<String>,
}

impl Default for NotificationConfig {
    fn default() -> (c: NotificationConfig)
        ensures
            c.default_chat_channel@ == "only_when_companion_background"@,
            c.vapid_private_key_pem is None,
            c.vapid_subject is None,
    {
        NotificationConfig {
            default_chat_channel: own("only_when_companion_background"),
            vapid_private_key_pem: None,
            vapid_subject: None,
        }
    }
}

#[derive(Debug)]
pub struct MetricsConfig {
    pub retention_days: i32,
}

impl Default for MetricsConfig {
    fn default() -> (c: MetricsConfig)
        ensures
            c.retention_days == 30,
    {
        MetricsConfig { retention_days: 30 }
    }
}

#[derive(Debug)]
pub struct SecurityConfig {
    pub return_to_allowlist: Vec<String>,
}

impl Default for SecurityConfig {
    fn default() -> (c: SecurityConfig)
        ensures
            texts(c.return_to_allowlist@) == seq!["https://phira.htadiy.com"@, "https://panel-phira.htadiy.com"@],
    {
        let c = SecurityConfig {
            return_to_allowlist: strings(&["https://phira.htadiy.com", "https://panel-phira.htadiy.com"]),
        };
        assert(texts(c.return_to_allowlist@) =~= seq!["https://phira.htadiy.com"@, "https://panel-phira.htadiy.com"@]);
        c
    }
}

#[derive(Debug)]
pub struct LegalConfig {
    /// Public user authentication stays disabled until approved legal
    /// documents are configured.
    pub public_auth_enabled: bool,
    pub terms_version: String,
    pub privacy_version: String,
    pub terms_url: String,
    pub privacy_url: String,
}

impl Default for LegalConfig {
    fn default() -> (c: LegalConfig)
        ensures
            !c.public_auth_enabled,
            c.terms_version@ == Seq::<char>::empty(),
            c.privacy_version@ == Seq::<char>::empty(),
            c.terms_url@ == Seq::<char>::empty(),
            c.privacy_url@ == Seq::<char>::empty(),
    {
        LegalConfig {
            public_auth_enabled: false,
            terms_version: String::new(),
            privacy_version: String::new(),
            terms_url: String::new(),
            privacy_url: String::new(),
        }
    }
}

#[derive(Debug)]
pub struct GithubConfig {
    pub callback_url: String,
}

impl Default for GithubConfig {
    fn default() -> (c: GithubConfig)
        ensures
            c.callback_url@ == "https://api-phira.htadiy.com/api/v1/auth/github/callback"@,
    {
        GithubConfig { callback_url: own("https://api-phira.htadiy.com/api/v1/auth/github/callback") }
    }
}

#[derive(Debug)]
/// Top-level runtime configuration.
pub struct RuntimeConfig {
    pub server: ServerConfig,
    pub site: SiteConfig,
    pub cors: CorsConfig,
    pub session: SessionConfig,
    pub pmp: PmpConfig,
    pub phira: PhiraConfig,
    pub rate_limit: RateLimitConfig,
    pub audit: AuditConfig,
    pub notifications: NotificationConfig,
    pub metrics: MetricsConfig,
    pub security: SecurityConfig,
    pub github: GithubConfig,
    pub legal: LegalConfig,
}

impl Default for RuntimeConfig {
    fn default() -> (c: RuntimeConfig)
        ensures
            c.cors.credentials,
            texts(c.cors.allowed_origins@) == seq!["https://phira.htadiy.com"@, "https://panel-phira.htadiy.com"@],
            c.pmp.auth_mode@ == "approve"@,
            c.session.cookie_samesite@ == "lax"@,
            !c.legal.public_auth_enabled,
            c.server.public_url@ == "https://api-phira.htadiy.com"@,
            c.site.ppf_url@ == "https://phira.htadiy.com"@,
            c.site.panel_url@ == "https://panel-phira.htadiy.com"@,
            c.session.access_ttl_secs == 3600,
            c.session.refresh_ttl_secs == 2592000,
            c.session.reauth_ttl_secs == 300,
            c.rate_limit.raw_cli_per_minute == 30,
            c.rate_limit.login_per_minute == 10,
    {
        RuntimeConfig {
            server: ServerConfig::default(),
            site: SiteConfig::default(),
            cors: CorsConfig::default(),
            session: SessionConfig::default(),
            pmp: PmpConfig::default(),
            phira: PhiraConfig::default(),
            rate_limit: RateLimitConfig::default(),
            audit: AuditConfig::default(),
            notifications: NotificationConfig::default(),
            metrics: MetricsConfig::default(),
            security: SecurityConfig::default(),
            github: GithubConfig::default(),
            legal: LegalConfig::default(),
        }
    }
}

/// A legal link that is a safe relative path: `/…`, not `//…`, no `\`.
pub open spec fn is_safe_relative_link(v: Seq<char>) -> bool {
    v.len() > 0 && v[0] == '/' && !is_prefix("//"@, v) && !has_char(v, '\\')
}

/// A legal link that is absolute and safe: HTTPS, or HTTP on localhost.
pub open spec fn is_safe_absolute_link(v: Seq<char>) -> bool {
    is_prefix("https://"@, v) || is_prefix("http://localhost"@, v) || is_prefix("http://127.0.0.1"@, v)
}

/// The first problem of a configuration, checked in order; `None` when valid.
pub open spec fn config_problem(
    credentials: bool,
    origins: Seq<Seq<char>>,
    auth_mode: Seq<char>,
    samesite: Seq<char>,
    legal_enabled: bool,
    terms_version: Seq<char>,
    privacy_version: Seq<char>,
    terms_url: Seq<char>,
    privacy_url: Seq<char>,
) -> Option<Seq<char>> {
    let ss = lower(samesite);
    if credentials && origins.contains("*"@) {
        Some("cors.credentials=true forbids '*' allowed_origins"@)
    } else if auth_mode != "token"@ && auth_mode != "approve"@ {
        Some("pmp.auth_mode must be 'token' or 'approve'"@)
    } else if !(ss == "lax"@ || ss == "strict"@ || ss == "none"@) {
        Some("session.cookie_samesite must be lax|strict|none"@)
    } else if !legal_enabled {
        None
    } else if trim(terms_version).len() == 0 {
        Some("legal.terms_version is required when legal.public_auth_enabled=true"@)
    } else if trim(privacy_version).len() == 0 {
        Some("legal.privacy_version is required when legal.public_auth_enabled=true"@)
    } else if trim(terms_url).len() == 0 {
        Some("legal.terms_url is required when legal.public_auth_enabled=true"@)
    } else if trim(privacy_url).len() == 0 {
        Some("legal.privacy_url is required when legal.public_auth_enabled=true"@)
    } else if !is_safe_relative_link(trim(terms_url)) && !is_safe_absolute_link(trim(terms_url)) {
        Some("legal.terms_url must be HTTPS, localhost HTTP, or a safe relative path"@)
    } else if !is_safe_relative_link(trim(privacy_url)) && !is_safe_absolute_link(trim(privacy_url)) {
        Some("legal.privacy_url must be HTTPS, localhost HTTP, or a safe relative path"@)
    } else {
        None
    }
}

pub fn is_safe_relative_link_exec(v: &[char]) -> (b: bool)
    ensures
        b == is_safe_relative_link(v@),
{
    v.len() > 0 && v[0] == '/' && !starts_with(v, chars_of("//").as_slice()) && !contains_char(v, '\\')
}

pub fn is_safe_absolute_link_exec(v: &[char]) -> (b: bool)
    ensures
        b == is_safe_absolute_link(v@),
{
    starts_with(v, chars_of("https://").as_slice()) || starts_with(v, chars_of("http://localhost").as_slice())
        || starts_with(v, chars_of("http://127.0.0.1").as_slice())
}

fn any_star(v: &Vec<String>) -> (b: bool)
    ensures
        b == texts(v@).contains("*"@),
{
    let mut i: usize = 0;
    while i < v.len()
        invariant
            i <= v@.len(),
            forall|k: int| 0 <= k < i ==> v@[k]@ != "*"@,
        decreases v@.len() - i,
    {
        if str_eq(v[i].as_str(), "*") {
            assert(texts(v@)[i as int] == "*"@);
            return true;
        }
        i = i + 1;
    }
    assert(!texts(v@).contains("*"@)) by {
        if texts(v@).contains("*"@) {
            let k = choose|k: int| 0 <= k < texts(v@).len() && texts(v@)[k] == "*"@;
            assert(v@[k]@ == "*"@);
        }
    }
    false
}

impl RuntimeConfig {
    /// Basic sanity validation; the error is the first problem found.
    pub fn validate(&self) -> (r: Result<(), String>)
        ensures
            match config_problem(
                self.cors.credentials,
                texts(self.cors.allowed_origins@),
                self.pmp.auth_mode@,
                self.session.cookie_samesite@,
                self.legal.public_auth_enabled,
                self.legal.terms_version@,
                self.legal.privacy_version@,
                self.legal.terms_url@,
                self.legal.privacy_url@,
            ) {
                None => r is Ok,
                Some(m) => r matches Err(e) && e@ == m,
            },
    {
        if self.cors.credentials && any_star(&self.cors.allowed_origins) {
            return Err(own("cors.credentials=true forbids '*' allowed_origins"));
        }
        if !str_eq(self.pmp.auth_mode.as_str(), "token") && !str_eq(self.pmp.auth_mode.as_str(), "approve") {
            return Err(own("pmp.auth_mode must be 'token' or 'approve'"));
        }
        let ss = to_lower_chars(chars_of(self.session.cookie_samesite.as_str()).as_slice());
        if !(chars_eq_str(ss.as_slice(), "lax") || chars_eq_str(ss.as_slice(), "strict") || chars_eq_str(
            ss.as_slice(),
            "none",
        )) {
            return Err(own("session.cookie_samesite must be lax|strict|none"));
        }
        if !self.legal.public_auth_enabled {
            return Ok(());
        }
        let tv = trim_chars(chars_of(self.legal.terms_version.as_str()).as_slice());
        let pv = trim_chars(chars_of(self.legal.privacy_version.as_str()).as_slice());
        let tu = trim_chars(chars_of(self.legal.terms_url.as_str()).as_slice());
        let pu = trim_chars(chars_of(self.legal.privacy_url.as_str()).as_slice());
        if tv.len() == 0 {
            return Err(own("legal.terms_version is required when legal.public_auth_enabled=true"));
        }
        if pv.len() == 0 {
            return Err(own("legal.privacy_version is required when legal.public_auth_enabled=true"));
        }
        if tu.len() == 0 {
            return Err(own("legal.terms_url is required when legal.public_auth_enabled=true"));
        }
        if pu.len() == 0 {
            return Err(own("legal.privacy_url is required when legal.public_auth_enabled=true"));
        }
        if !is_safe_relative_link_exec(tu.as_slice()) && !is_safe_absolute_link_exec(tu.as_slice()) {
            return Err(own("legal.terms_url must be HTTPS, localhost HTTP, or a safe relative path"));
        }
        if !is_safe_relative_link_exec(pu.as_slice()) && !is_safe_absolute_link_exec(pu.as_slice()) {
            return Err(own("legal.privacy_url must be HTTPS, localhost HTTP, or a safe relative path"));
        }
        Ok(())
    }

    /// VAPID settings from the environment win over the file when non-blank.
    pub fn apply_env_overrides(&mut self, pem: Option<String>, subject: Option<String>)
        ensures
            match pem {
                Some(p) => !crate::text::is_blank(p@) ==> final(self).notifications.vapid_private_key_pem == Some(p),
                None => true,
            },
            (pem is None || crate::text::is_blank(pem->0@)) ==> final(self).notifications.vapid_private_key_pem
                == old(self).notifications.vapid_private_key_pem,
            match subject {
                Some(s) => !crate::text::is_blank(s@) ==> final(self).notifications.vapid_subject == Some(s),
                None => true,
            },
            (subject is None || crate::text::is_blank(subject->0@)) ==> final(self).notifications.vapid_subject
                == old(self).notifications.vapid_subject,
    {
        match pem {
            Some(p) => {
                let blank = crate::text::is_blank_chars(chars_of(p.as_str()).as_slice());
                if !blank {
                    self.notifications.vapid_private_key_pem = Some(p);
                }
            },
            None => {},
        }
        match subject {
            Some(s) => {
                let blank = crate::text::is_blank_chars(chars_of(s.as_str()).as_slice());
                if !blank {
                    self.notifications.vapid_subject = Some(s);
                }
            },
            None => {},
        }
    }
}

/// The default configuration is valid.
pub proof fn lemma_defaults_valid()
    ensures
        config_problem(
            true,
            seq!["https://phira.htadiy.com"@, "https://panel-phira.htadiy.com"@],
            "approve"@,
            "lax"@,
            false,
            Seq::empty(),
            Seq::empty(),
            Seq::empty(),
            Seq::empty(),
        ) is None,
{
    reveal_strlit("*");
    reveal_strlit("https://phira.htadiy.com");
    reveal_strlit("https://panel-phira.htadiy.com");
    reveal_strlit("approve");
    reveal_strlit("token");
    reveal_strlit("lax");
    let s = seq!["https://phira.htadiy.com"@, "https://panel-phira.htadiy.com"@];
    assert(!s.contains("*"@)) by {
        if s.contains("*"@) {
            let k = choose|k: int| 0 <= k < s.len() && s[k] == "*"@;
            assert(s[k].len() != 1);
        }
    }
    assert(lower("lax"@) =~= "lax"@);
    assert("approve"@.len() != "token"@.len());
}

} // verus!
