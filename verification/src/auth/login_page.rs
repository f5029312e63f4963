//! The standalone login page: its design tokens and strings, and the HTML
//! document it is rendered to, with every reflected value escaped.

use vstd::prelude::*;
use crate::auth::gateway::{
    html_escape, html_text, json_for_inline_script, legal_link, legal_ready, legal_ready_spec, resolve_legal_link,
    script_json,
};
use crate::codec::{base64_standard, encode_standard};
use crate::config::runtime::{LegalConfig, SiteConfig};
use crate::json::{dec_text, u64_text, Json, JsonV};
use crate::text::{append_str, chars_of, own, replace_all, replace_chars, str_eq, string_from_chars};

verus! {

#[derive(Debug)]
/// Design tokens of the login page.
pub struct GatewayTokens {
    pub canvas: String,
    pub surface: String,
    pub surface_strong: String,
    pub border: String,
    pub text_primary: String,
    pub text_secondary: String,
    pub accent: String,
    pub accent_text: String,
    pub danger: String,
    pub focus: String,
    pub radius_control_px: u32,
    pub radius_window_px: u32,
    pub max_width_px: u32,
}

#[derive(Debug)]
/// Localized strings of the login page.
pub struct GatewayStrings {
    pub document_title: String,
    pub product: String,
    pub title: String,
    pub subtitle: String,
    pub email: String,
    pub password: String,
    pub sign_in: String,
    pub github: String,
    pub or: String,
    pub consent_prefix: String,
    pub terms: String,
    pub privacy: String,
    pub consent_join: String,
    pub consent_required: String,
    pub legal_unavailable: String,
    pub network_error: String,
    pub generic_error: String,
    pub request_id: String,
    pub github_hint: String,
    pub client_ppf: String,
    pub client_panel: String,
    pub language: String,
    pub zh: String,
    pub en: String,
}

/// The label of the client a page signs in to.
pub open spec fn client_label(s: GatewayStrings, client_type: Seq<char>) -> Seq<char> {
    if client_type == "panel"@ {
        s.client_panel@
    } else {
        s.client_ppf@
    }
}

/// The message shown on arrival for the error code `code`: its text in
/// `errors`, or nothing.
pub open spec fn initial_error_text(errors: JsonV, code: Option<Seq<char>>) -> Seq<char> {
    match code {
        Some(c) => match errors.get(c) {
            Some(JsonV::Str(t)) => t,
            _ => ""@,
        },
        None => ""@,
    }
}

/// `true` or `false` as script text.
pub open spec fn flag_text(b: bool) -> Seq<char> {
    if b {
        "true"@
    } else {
        "false"@
    }
}

/// The attribute that disables a control when it is not enabled.
pub open spec fn disabled_attr(enabled: bool) -> Seq<char> {
    if enabled {
        ""@
    } else {
        " disabled"@
    }
}

/// The login page for the given tokens, strings, error messages, logo and
/// configuration, reflecting `return_to`, `redirect_to` and `client_type`.
pub open spec fn login_page(
    t: GatewayTokens,
    s: GatewayStrings,
    errors: JsonV,
    logo: Seq<u8>,
    site: SiteConfig,
    legal: LegalConfig,
    github_configured: bool,
    return_to: Seq<char>,
    redirect_to: Seq<char>,
    client_type: Seq<char>,
    locale: Seq<char>,
    nonce: Seq<char>,
    github_intent: bool,
    initial_error: Option<Seq<char>>,
) -> Seq<char> {
    let ready = legal_ready_spec(
        legal.public_auth_enabled,
        legal.terms_version@,
        legal.privacy_version@,
        legal.terms_url@,
        legal.privacy_url@,
    );
    let github_ready = ready && github_configured;
    let label = client_label(s, client_type);
    page_head(
        locale,
        html_text(s.document_title@),
        nonce,
        t.canvas@,
        t.surface@,
        t.surface_strong@,
        t.border@,
        t.text_primary@,
        t.text_secondary@,
        t.accent@,
        t.accent_text@,
        t.danger@,
        t.focus@,
        dec_text(t.radius_control_px as nat),
        dec_text(t.radius_window_px as nat),
        dec_text(t.max_width_px as nat),
    ) + page_body(
        if github_intent {
            " github-intent"@
        } else {
            ""@
        },
        base64_standard(logo),
        html_text(s.product@),
        html_text(label),
        html_text(s.title@),
        html_text(replace_all(s.subtitle@, "{client}"@, label)),
        if ready {
            ""@
        } else {
            "<div class=\"legal-unavailable\">"@ + html_text(s.legal_unavailable@) + "</div>"@
        },
        html_text(return_to),
        html_text(redirect_to),
        html_text(client_type),
        html_text(legal.terms_version@),
        html_text(legal.privacy_version@),
        html_text(s.email@),
        disabled_attr(ready),
        html_text(s.password@),
        html_text(s.consent_prefix@),
        html_text(legal_link(site.ppf_url@, site.panel_url@, client_type, legal.terms_url@)),
        html_text(s.terms@),
        html_text(s.consent_join@),
        html_text(legal_link(site.ppf_url@, site.panel_url@, client_type, legal.privacy_url@)),
        html_text(s.privacy@),
        html_text(s.sign_in@),
        html_text(initial_error_text(errors, initial_error)),
        html_text(s.or@),
        disabled_attr(github_ready),
        html_text(s.github@),
        html_text(s.github_hint@),
        html_text(s.language@),
        flag_text(locale == "zh"@),
        html_text(s.zh@),
        flag_text(locale == "en"@),
        html_text(s.en@),
    ) + page_script(
        nonce,
        script_json(errors),
        script_json(JsonV::Str(s.generic_error@)),
        script_json(JsonV::Str(s.network_error@)),
        script_json(JsonV::Str(s.consent_required@)),
        script_json(JsonV::Str(s.request_id@)),
        flag_text(ready),
        flag_text(github_ready),
    )
}

fn flag_str(b: bool) -> (r: &'static str)
    ensures
        r@ == flag_text(b),
{
    if b {
        "true"
    } else {
        "false"
    }
}

fn disabled_str(enabled: bool) -> (r: &'static str)
    ensures
        r@ == disabled_attr(enabled),
{
    if enabled {
        ""
    } else {
        " disabled"
    }
}

fn decimal(n: u32) -> (r: String)
    ensures
        r@ == dec_text(n as nat),
{
    let cs = u64_text(n as u64);
    string_from_chars(cs.as_slice())
}

fn script_string(s: &String) -> (r: String)
    ensures
        r@ == script_json(JsonV::Str(s@)),
{
    let j = Json::Str(own(s.as_str()));
    json_for_inline_script(&j)
}

/// Render the login page. `errors` maps error codes to messages (an object
/// of strings); `initial_error` is the code the page was opened with.
pub fn login_html(
    t: &GatewayTokens,
    s: &GatewayStrings,
    errors: &Json,
    logo: &[u8],
    site: &SiteConfig,
    legal: &LegalConfig,
    github_configured: bool,
    return_to: &str,
    redirect_to: &str,
    client_type: &str,
    locale: &str,
    nonce: &str,
    github_intent: bool,
    initial_error: Option<&str>,
) -> (r: String)
    ensures
        r@ == login_page(
            *t,
            *s,
            errors@,
            logo@,
            *site,
            *legal,
            github_configured,
            return_to@,
            redirect_to@,
            client_type@,
            locale@,
            nonce@,
            github_intent,
            match initial_error {
                Some(c) => Some(c@),
                None => None,
            },
        ),
{
    let ready = legal_ready(legal);
    let github_ready = ready && github_configured;
    let label: &str = if str_eq(client_type, "panel") {
        s.client_panel.as_str()
    } else {
        s.client_ppf.as_str()
    };
    proof {
        reveal_strlit("{client}");
    }
    let raw_subtitle = replace_chars(
        chars_of(s.subtitle.as_str()).as_slice(),
        chars_of("{client}").as_slice(),
        chars_of(label).as_slice(),
    );
    let subtitle = html_escape(string_from_chars(raw_subtitle.as_slice()).as_str());
    let head = write_page_head(
        locale,
        html_escape(s.document_title.as_str()).as_str(),
        nonce,
        t.canvas.as_str(),
        t.surface.as_str(),
        t.surface_strong.as_str(),
        t.border.as_str(),
        t.text_primary.as_str(),
        t.text_secondary.as_str(),
        t.accent.as_str(),
        t.accent_text.as_str(),
        t.danger.as_str(),
        t.focus.as_str(),
        decimal(t.radius_control_px).as_str(),
        decimal(t.radius_window_px).as_str(),
        decimal(t.max_width_px).as_str(),
    );
    let legal_block = if ready {
        own("")
    } else {
        let mut b = own("<div class=\"legal-unavailable\">");
        append_str(&mut b, html_escape(s.legal_unavailable.as_str()).as_str());
        append_str(&mut b, "</div>");
        b
    };
    let error_text: &str = match initial_error {
        Some(code) => match errors.get(code) {
            Some(v) => match v.as_str() {
                Some(text) => text,
                None => "",
            },
            None => "",
        },
        None => "",
    };
    let terms_url = resolve_legal_link(site, client_type, legal.terms_url.as_str());
    let privacy_url = resolve_legal_link(site, client_type, legal.privacy_url.as_str());
    let body = write_page_body(
        if github_intent {
            " github-intent"
        } else {
            ""
        },
        encode_standard(logo).as_str(),
        html_escape(s.product.as_str()).as_str(),
        html_escape(label).as_str(),
        html_escape(s.title.as_str()).as_str(),
        subtitle.as_str(),
        legal_block.as_str(),
        html_escape(return_to).as_str(),
        html_escape(redirect_to).as_str(),
        html_escape(client_type).as_str(),
        html_escape(legal.terms_version.as_str()).as_str(),
        html_escape(legal.privacy_version.as_str()).as_str(),
        html_escape(s.email.as_str()).as_str(),
        disabled_str(ready),
        html_escape(s.password.as_str()).as_str(),
        html_escape(s.consent_prefix.as_str()).as_str(),
        html_escape(terms_url.as_str()).as_str(),
        html_escape(s.terms.as_str()).as_str(),
        html_escape(s.consent_join.as_str()).as_str(),
        html_escape(privacy_url.as_str()).as_str(),
        html_escape(s.privacy.as_str()).as_str(),
        html_escape(s.sign_in.as_str()).as_str(),
        html_escape(error_text).as_str(),
        html_escape(s.or.as_str()).as_str(),
        disabled_str(github_ready),
        html_escape(s.github.as_str()).as_str(),
        html_escape(s.github_hint.as_str()).as_str(),
        html_escape(s.language.as_str()).as_str(),
        flag_str(str_eq(locale, "zh")),
        html_escape(s.zh.as_str()).as_str(),
        flag_str(str_eq(locale, "en")),
        html_escape(s.en.as_str()).as_str(),
    );
    let script = write_page_script(
        nonce,
        json_for_inline_script(errors).as_str(),
        script_string(&s.generic_error).as_str(),
        script_string(&s.network_error).as_str(),
        script_string(&s.consent_required).as_str(),
        script_string(&s.request_id).as_str(),
        flag_str(ready),
        flag_str(github_ready),
    );
    let mut page = head;
    append_str(&mut page, body.as_str());
    append_str(&mut page, script.as_str());
    page
}

/// The page head: document language, title and the style sheet with the design tokens.
pub open spec fn page_head(locale: Seq<char>, document_title: Seq<char>, nonce: Seq<char>, canvas: Seq<char>, surface: Seq<char>, surface_strong: Seq<char>, border: Seq<char>, text: Seq<char>, text2: Seq<char>, accent: Seq<char>, accent_text: Seq<char>, danger: Seq<char>, focus: Seq<char>, radius_control: Seq<char>, radius_window: Seq<char>, max_width: Seq<char>) -> Seq<char> {
    "<!DOCTYPE html>\n<html lang=\""@
        + locale
        + "\">\n<head>\n<meta charset=\"utf-8\">\n<meta name=\"viewport\" content=\"width=device-width, initial-scale=1\">\n<meta name=\"color-scheme\" content=\"dark\">\n<title>"@
        + document_title
        + "</title>\n<style nonce=\""@
        + nonce
        + "\">\n:root{--pp-canvas:"@
        + canvas
        + ";--pp-surface:"@
        + surface
        + ";--pp-surface-strong:"@
        + surface_strong
        + ";--pp-border:"@
        + border
        + ";--pp-text:"@
        + text
        + ";--pp-text-2:"@
        + text2
        + ";--pp-accent:"@
        + accent
        + ";--pp-accent-text:"@
        + accent_text
        + ";--pp-danger:"@
        + danger
        + ";--pp-focus:"@
        + focus
        + ";--pp-radius-control:"@
        + radius_control
        + "px;--pp-radius-window:"@
        + radius_window
        + "px}\n*{box-sizing:border-box} body{margin:0;min-height:100vh;background:var(--pp-canvas);color:var(--pp-text);font-family:Inter,ui-sans-serif,system-ui,-apple-system,BlinkMacSystemFont,\"Segoe UI\",sans-serif;display:grid;place-items:center;padding:24px}\n.shell{width:min("@
        + max_width
        + "px,100%);position:relative} .brand{display:flex;align-items:center;justify-content:space-between;gap:16px;margin:0 2px 14px} .brand img{height:30px;width:auto} .client{font-size:12px;color:var(--pp-text-2);border:1px solid var(--pp-border);border-radius:999px;padding:5px 9px}\n.card{background:var(--pp-surface);border:1px solid var(--pp-border);border-radius:var(--pp-radius-window);box-shadow:0 24px 70px rgba(0,0,0,.34);padding:26px} h1{font-size:24px;line-height:1.2;margin:0;font-weight:680;letter-spacing:-.02em} .subtitle{margin:8px 0 22px;color:var(--pp-text-2);font-size:14px;line-height:1.55}\nlabel.field{display:block;margin:13px 0 6px;font-size:13px;color:var(--pp-text-2)} input[type=email],input[type=password]{width:100%;min-height:44px;padding:10px 12px;border-radius:var(--pp-radius-control);border:1px solid var(--pp-border);background:var(--pp-surface-strong);color:var(--pp-text);outline:none} input:focus-visible,button:focus-visible,a:focus-visible{outline:2px solid var(--pp-focus);outline-offset:2px}\n.action{width:100%;min-height:44px;border-radius:var(--pp-radius-control);border:1px solid transparent;padding:10px 14px;font:inherit;font-weight:650;cursor:pointer;display:flex;align-items:center;justify-content:center;text-decoration:none} .primary{background:var(--pp-accent);color:var(--pp-accent-text)} .secondary{background:var(--pp-surface-strong);color:var(--pp-text);border-color:var(--pp-border)} .action:disabled{cursor:not-allowed;opacity:.45} .github-intent .github{border-color:color-mix(in srgb,var(--pp-accent) 55%,var(--pp-border))}\n.divider{display:flex;align-items:center;gap:10px;color:var(--pp-text-2);font-size:12px;margin:15px 0} .divider:before,.divider:after{content:\"\";height:1px;flex:1;background:var(--pp-border)}\n.consent{display:grid;grid-template-columns:24px 1fr;gap:8px;margin-top:16px;color:var(--pp-text-2);font-size:12px;line-height:1.55} .consent input{width:18px;height:18px;margin:2px 0 0} a{color:var(--pp-accent)} .hint{font-size:12px;color:var(--pp-text-2);line-height:1.5;margin:10px 0 0} .legal-unavailable{border:1px solid color-mix(in srgb,var(--pp-danger) 45%,var(--pp-border));background:color-mix(in srgb,var(--pp-danger) 9%,var(--pp-surface));border-radius:var(--pp-radius-control);padding:10px 12px;color:var(--pp-text);font-size:12px;line-height:1.55;margin-bottom:14px}\n.error{color:var(--pp-danger);font-size:13px;margin-top:12px;min-height:20px;line-height:1.45} .langs{display:flex;justify-content:center;gap:4px;margin-top:14px} .langs button{min-width:44px;min-height:44px;border:0;background:transparent;color:var(--pp-text-2);border-radius:var(--pp-radius-control);cursor:pointer} .langs button[aria-current=true]{color:var(--pp-accent);background:var(--pp-surface-strong)}\n@media (prefers-reduced-motion: reduce){*{scroll-behavior:auto!important;transition:none!important;animation:none!important}} @media (prefers-reduced-transparency: reduce){.card{background:var(--pp-surface-strong);box-shadow:none}}\n</style>\n</head>\n"@
}

fn write_page_head(locale: &str, document_title: &str, nonce: &str, canvas: &str, surface: &str, surface_strong: &str, border: &str, text: &str, text2: &str, accent: &str, accent_text: &str, danger: &str, focus: &str, radius_control: &str, radius_window: &str, max_width: &str) -> (r: String)
    ensures
        r@ == page_head(locale@, document_title@, nonce@, canvas@, surface@, surface_strong@, border@, text@, text2@, accent@, accent_text@, danger@, focus@, radius_control@, radius_window@, max_width@),
{
    let mut r = own("<!DOCTYPE html>\n<html lang=\"");
    append_str(&mut r, locale);
    append_str(&mut r, "\">\n<head>\n<meta charset=\"utf-8\">\n<meta name=\"viewport\" content=\"width=device-width, initial-scale=1\">\n<meta name=\"color-scheme\" content=\"dark\">\n<title>");
    append_str(&mut r, document_title);
    append_str(&mut r, "</title>\n<style nonce=\"");
    append_str(&mut r, nonce);
    append_str(&mut r, "\">\n:root{--pp-canvas:");
    append_str(&mut r, canvas);
    append_str(&mut r, ";--pp-surface:");
    append_str(&mut r, surface);
    append_str(&mut r, ";--pp-surface-strong:");
    append_str(&mut r, surface_strong);
    append_str(&mut r, ";--pp-border:");
    append_str(&mut r, border);
    append_str(&mut r, ";--pp-text:");
    append_str(&mut r, text);
    append_str(&mut r, ";--pp-text-2:");
    append_str(&mut r, text2);
    append_str(&mut r, ";--pp-accent:");
    append_str(&mut r, accent);
    append_str(&mut r, ";--pp-accent-text:");
    append_str(&mut r, accent_text);
    append_str(&mut r, ";--pp-danger:");
    append_str(&mut r, danger);
    append_str(&mut r, ";--pp-focus:");
    append_str(&mut r, focus);
    append_str(&mut r, ";--pp-radius-control:");
    append_str(&mut r, radius_control);
    append_str(&mut r, "px;--pp-radius-window:");
    append_str(&mut r, radius_window);
    append_str(&mut r, "px}\n*{box-sizing:border-box} body{margin:0;min-height:100vh;background:var(--pp-canvas);color:var(--pp-text);font-family:Inter,ui-sans-serif,system-ui,-apple-system,BlinkMacSystemFont,\"Segoe UI\",sans-serif;display:grid;place-items:center;padding:24px}\n.shell{width:min(");
    append_str(&mut r, max_width);
    append_str(&mut r, "px,100%);position:relative} .brand{display:flex;align-items:center;justify-content:space-between;gap:16px;margin:0 2px 14px} .brand img{height:30px;width:auto} .client{font-size:12px;color:var(--pp-text-2);border:1px solid var(--pp-border);border-radius:999px;padding:5px 9px}\n.card{background:var(--pp-surface);border:1px solid var(--pp-border);border-radius:var(--pp-radius-window);box-shadow:0 24px 70px rgba(0,0,0,.34);padding:26px} h1{font-size:24px;line-height:1.2;margin:0;font-weight:680;letter-spacing:-.02em} .subtitle{margin:8px 0 22px;color:var(--pp-text-2);font-size:14px;line-height:1.55}\nlabel.field{display:block;margin:13px 0 6px;font-size:13px;color:var(--pp-text-2)} input[type=email],input[type=password]{width:100%;min-height:44px;padding:10px 12px;border-radius:var(--pp-radius-control);border:1px solid var(--pp-border);background:var(--pp-surface-strong);color:var(--pp-text);outline:none} input:focus-visible,button:focus-visible,a:focus-visible{outline:2px solid var(--pp-focus);outline-offset:2px}\n.action{width:100%;min-height:44px;border-radius:var(--pp-radius-control);border:1px solid transparent;padding:10px 14px;font:inherit;font-weight:650;cursor:pointer;display:flex;align-items:center;justify-content:center;text-decoration:none} .primary{background:var(--pp-accent);color:var(--pp-accent-text)} .secondary{background:var(--pp-surface-strong);color:var(--pp-text);border-color:var(--pp-border)} .action:disabled{cursor:not-allowed;opacity:.45} .github-intent .github{border-color:color-mix(in srgb,var(--pp-accent) 55%,var(--pp-border))}\n.divider{display:flex;align-items:center;gap:10px;color:var(--pp-text-2);font-size:12px;margin:15px 0} .divider:before,.divider:after{content:\"\";height:1px;flex:1;background:var(--pp-border)}\n.consent{display:grid;grid-template-columns:24px 1fr;gap:8px;margin-top:16px;color:var(--pp-text-2);font-size:12px;line-height:1.55} .consent input{width:18px;height:18px;margin:2px 0 0} a{color:var(--pp-accent)} .hint{font-size:12px;color:var(--pp-text-2);line-height:1.5;margin:10px 0 0} .legal-unavailable{border:1px solid color-mix(in srgb,var(--pp-danger) 45%,var(--pp-border));background:color-mix(in srgb,var(--pp-danger) 9%,var(--pp-surface));border-radius:var(--pp-radius-control);padding:10px 12px;color:var(--pp-text);font-size:12px;line-height:1.55;margin-bottom:14px}\n.error{color:var(--pp-danger);font-size:13px;margin-top:12px;min-height:20px;line-height:1.45} .langs{display:flex;justify-content:center;gap:4px;margin-top:14px} .langs button{min-width:44px;min-height:44px;border:0;background:transparent;color:var(--pp-text-2);border-radius:var(--pp-radius-control);cursor:pointer} .langs button[aria-current=true]{color:var(--pp-accent);background:var(--pp-surface-strong)}\n@media (prefers-reduced-motion: reduce){*{scroll-behavior:auto!important;transition:none!important;animation:none!important}} @media (prefers-reduced-transparency: reduce){.card{background:var(--pp-surface-strong);box-shadow:none}}\n</style>\n</head>\n");
    r
}

/// The page body: brand, card with the legal notice, the sign-in form, the GitHub button and the language switch.
pub open spec fn page_body(intent_class: Seq<char>, logo: Seq<char>, product: Seq<char>, client_label: Seq<char>, title: Seq<char>, subtitle: Seq<char>, legal_block: Seq<char>, return_to: Seq<char>, redirect_to: Seq<char>, client_type: Seq<char>, terms_version: Seq<char>, privacy_version: Seq<char>, email: Seq<char>, disabled: Seq<char>, password: Seq<char>, consent_prefix: Seq<char>, terms_url: Seq<char>, terms: Seq<char>, consent_join: Seq<char>, privacy_url: Seq<char>, privacy: Seq<char>, sign_in: Seq<char>, initial_error_text: Seq<char>, or_text: Seq<char>, github_disabled: Seq<char>, github: Seq<char>, github_hint: Seq<char>, language: Seq<char>, zh_current: Seq<char>, zh_label: Seq<char>, en_current: Seq<char>, en_label: Seq<char>) -> Seq<char> {
    "<body>\n<main class=\"shell"@
        + intent_class
        + "\">\n  <div class=\"brand\"><img src=\"data:image/png;base64,"@
        + logo
        + "\" alt=\""@
        + product
        + "\"><span class=\"client\">"@
        + client_label
        + "</span></div>\n  <section class=\"card\" aria-labelledby=\"gateway-title\">\n    <h1 id=\"gateway-title\">"@
        + title
        + "</h1><p class=\"subtitle\">"@
        + subtitle
        + "</p>\n    "@
        + legal_block
        + "\n    <form id=\"login-form\" aria-busy=\"false\">\n      <input type=\"hidden\" name=\"return_to\" value=\""@
        + return_to
        + "\"><input type=\"hidden\" id=\"redirect_to\" value=\""@
        + redirect_to
        + "\"><input type=\"hidden\" name=\"client_type\" value=\""@
        + client_type
        + "\">\n      <input type=\"hidden\" name=\"terms_version\" value=\""@
        + terms_version
        + "\"><input type=\"hidden\" name=\"privacy_version\" value=\""@
        + privacy_version
        + "\">\n      <label class=\"field\" for=\"email\">"@
        + email
        + "</label><input id=\"email\" name=\"email\" type=\"email\" required autocomplete=\"email\""@
        + disabled
        + ">\n      <label class=\"field\" for=\"password\">"@
        + password
        + "</label><input id=\"password\" name=\"password\" type=\"password\" required autocomplete=\"current-password\""@
        + disabled
        + ">\n      <label class=\"consent\"><input id=\"accepted\" name=\"accepted\" type=\"checkbox\""@
        + disabled
        + "><span>"@
        + consent_prefix
        + " <a href=\""@
        + terms_url
        + "\" target=\"_blank\" rel=\"noopener noreferrer\">"@
        + terms
        + "</a> "@
        + consent_join
        + " <a href=\""@
        + privacy_url
        + "\" target=\"_blank\" rel=\"noopener noreferrer\">"@
        + privacy
        + "</a></span></label>\n      <button class=\"action primary\" id=\"submit\" type=\"submit\""@
        + disabled
        + ">"@
        + sign_in
        + "</button>\n      <div class=\"error\" id=\"error\" role=\"alert\">"@
        + initial_error_text
        + "</div>\n    </form>\n    <div class=\"divider\">"@
        + or_text
        + "</div>\n    <button class=\"action secondary github\" id=\"github\" type=\"button\""@
        + github_disabled
        + ">"@
        + github
        + "</button>\n    <p class=\"hint\">"@
        + github_hint
        + "</p>\n  </section>\n  <div class=\"langs\" aria-label=\""@
        + language
        + "\"><button type=\"button\" data-lang=\"zh\" aria-current=\""@
        + zh_current
        + "\">"@
        + zh_label
        + "</button><button type=\"button\" data-lang=\"en\" aria-current=\""@
        + en_current
        + "\">"@
        + en_label
        + "</button></div>\n</main>\n"@
}

fn write_page_body(intent_class: &str, logo: &str, product: &str, client_label: &str, title: &str, subtitle: &str, legal_block: &str, return_to: &str, redirect_to: &str, client_type: &str, terms_version: &str, privacy_version: &str, email: &str, disabled: &str, password: &str, consent_prefix: &str, terms_url: &str, terms: &str, consent_join: &str, privacy_url: &str, privacy: &str, sign_in: &str, initial_error_text: &str, or_text: &str, github_disabled: &str, github: &str, github_hint: &str, language: &str, zh_current: &str, zh_label: &str, en_current: &str, en_label: &str) -> (r: String)
    ensures
        r@ == page_body(intent_class@, logo@, product@, client_label@, title@, subtitle@, legal_block@, return_to@, redirect_to@, client_type@, terms_version@, privacy_version@, email@, disabled@, password@, consent_prefix@, terms_url@, terms@, consent_join@, privacy_url@, privacy@, sign_in@, initial_error_text@, or_text@, github_disabled@, github@, github_hint@, language@, zh_current@, zh_label@, en_current@, en_label@),
{
    let mut r = own("<body>\n<main class=\"shell");
    append_str(&mut r, intent_class);
    append_str(&mut r, "\">\n  <div class=\"brand\"><img src=\"data:image/png;base64,");
    append_str(&mut r, logo);
    append_str(&mut r, "\" alt=\"");
    append_str(&mut r, product);
    append_str(&mut r, "\"><span class=\"client\">");
    append_str(&mut r, client_label);
    append_str(&mut r, "</span></div>\n  <section class=\"card\" aria-labelledby=\"gateway-title\">\n    <h1 id=\"gateway-title\">");
    append_str(&mut r, title);
    append_str(&mut r, "</h1><p class=\"subtitle\">");
    append_str(&mut r, subtitle);
    append_str(&mut r, "</p>\n    ");
    append_str(&mut r, legal_block);
    append_str(&mut r, "\n    <form id=\"login-form\" aria-busy=\"false\">\n      <input type=\"hidden\" name=\"return_to\" value=\"");
    append_str(&mut r, return_to);
    append_str(&mut r, "\"><input type=\"hidden\" id=\"redirect_to\" value=\"");
    append_str(&mut r, redirect_to);
    append_str(&mut r, "\"><input type=\"hidden\" name=\"client_type\" value=\"");
    append_str(&mut r, client_type);
    append_str(&mut r, "\">\n      <input type=\"hidden\" name=\"terms_version\" value=\"");
    append_str(&mut r, terms_version);
    append_str(&mut r, "\"><input type=\"hidden\" name=\"privacy_version\" value=\"");
    append_str(&mut r, privacy_version);
    append_str(&mut r, "\">\n      <label class=\"field\" for=\"email\">");
    append_str(&mut r, email);
    append_str(&mut r, "</label><input id=\"email\" name=\"email\" type=\"email\" required autocomplete=\"email\"");
    append_str(&mut r, disabled);
    append_str(&mut r, ">\n      <label class=\"field\" for=\"password\">");
    append_str(&mut r, password);
    append_str(&mut r, "</label><input id=\"password\" name=\"password\" type=\"password\" required autocomplete=\"current-password\"");
    append_str(&mut r, disabled);
    append_str(&mut r, ">\n      <label class=\"consent\"><input id=\"accepted\" name=\"accepted\" type=\"checkbox\"");
    append_str(&mut r, disabled);
    append_str(&mut r, "><span>");
    append_str(&mut r, consent_prefix);
    append_str(&mut r, " <a href=\"");
    append_str(&mut r, terms_url);
    append_str(&mut r, "\" target=\"_blank\" rel=\"noopener noreferrer\">");
    append_str(&mut r, terms);
    append_str(&mut r, "</a> ");
    append_str(&mut r, consent_join);
    append_str(&mut r, " <a href=\"");
    append_str(&mut r, privacy_url);
    append_str(&mut r, "\" target=\"_blank\" rel=\"noopener noreferrer\">");
    append_str(&mut r, privacy);
    append_str(&mut r, "</a></span></label>\n      <button class=\"action primary\" id=\"submit\" type=\"submit\"");
    append_str(&mut r, disabled);
    append_str(&mut r, ">");
    append_str(&mut r, sign_in);
    append_str(&mut r, "</button>\n      <div class=\"error\" id=\"error\" role=\"alert\">");
    append_str(&mut r, initial_error_text);
    append_str(&mut r, "</div>\n    </form>\n    <div class=\"divider\">");
    append_str(&mut r, or_text);
    append_str(&mut r, "</div>\n    <button class=\"action secondary github\" id=\"github\" type=\"button\"");
    append_str(&mut r, github_disabled);
    append_str(&mut r, ">");
    append_str(&mut r, github);
    append_str(&mut r, "</button>\n    <p class=\"hint\">");
    append_str(&mut r, github_hint);
    append_str(&mut r, "</p>\n  </section>\n  <div class=\"langs\" aria-label=\"");
    append_str(&mut r, language);
    append_str(&mut r, "\"><button type=\"button\" data-lang=\"zh\" aria-current=\"");
    append_str(&mut r, zh_current);
    append_str(&mut r, "\">");
    append_str(&mut r, zh_label);
    append_str(&mut r, "</button><button type=\"button\" data-lang=\"en\" aria-current=\"");
    append_str(&mut r, en_current);
    append_str(&mut r, "\">");
    append_str(&mut r, en_label);
    append_str(&mut r, "</button></div>\n</main>\n");
    r
}

/// The page script: the error messages and state it needs, and the form, GitHub and language handlers.
pub open spec fn page_script(nonce: Seq<char>, error_map: Seq<char>, generic_json: Seq<char>, network_json: Seq<char>, consent_required_json: Seq<char>, request_id_json: Seq<char>, legal_ready_json: Seq<char>, github_ready_json: Seq<char>) -> Seq<char> {
    "<script nonce=\""@
        + nonce
        + "\">\n(function(){\n  const form=document.getElementById('login-form'), err=document.getElementById('error'), github=document.getElementById('github'), submit=document.getElementById('submit');\n  const messages="@
        + error_map
        + ";\n  const generic="@
        + generic_json
        + ", network="@
        + network_json
        + ", consentRequired="@
        + consent_required_json
        + ", requestIdLabel="@
        + request_id_json
        + ";\n  const legalReady="@
        + legal_ready_json
        + ", githubReady="@
        + github_ready_json
        + ";\n  let busy=false;\n  function setBusy(value){busy=value;form.setAttribute('aria-busy',value?'true':'false');form.email.disabled=value||!legalReady;form.password.disabled=value||!legalReady;form.accepted.disabled=value||!legalReady;submit.disabled=value||!legalReady;github.disabled=value||!githubReady}\n  function showApiError(j){const e=j&&j.error?j.error:null;let text=(e&&messages[e.code])||generic;if(e&&e.request_id)text+=' · '+requestIdLabel+': '+e.request_id;err.textContent=text;if(e&&e.code==='AUTH_LEGAL_CONSENT_REQUIRED'&&form.accepted)form.accepted.focus()}\n  form.addEventListener('submit',async function(e){e.preventDefault();if(busy)return;err.textContent='';const body={email:form.email.value,password:form.password.value,client_type:form.client_type.value,return_to:form.return_to.value,accepted:!!(form.accepted&&form.accepted.checked),terms_version:form.terms_version.value,privacy_version:form.privacy_version.value};setBusy(true);try{const res=await fetch('/api/v1/auth/phira/login',{method:'POST',headers:{'Content-Type':'application/json'},credentials:'same-origin',body:JSON.stringify(body)});if(res.ok){window.location.href=document.getElementById('redirect_to').value||'/';return}showApiError(await res.json().catch(()=>({})))}catch(_e){err.textContent=network}finally{setBusy(false)}});\n  github.addEventListener('click',function(){if(busy)return;err.textContent='';setBusy(true);const q=new URLSearchParams({return_to:form.return_to.value,client_type:form.client_type.value,accepted:String(!!(form.accepted&&form.accepted.checked)),terms_version:form.terms_version.value,privacy_version:form.privacy_version.value});window.location.href='/api/v1/auth/github/login/start?'+q.toString()});\n  document.querySelectorAll('[data-lang]').forEach(function(btn){btn.addEventListener('click',function(){const u=new URL(window.location.href);u.searchParams.set('lang',btn.dataset.lang);window.location.href=u.toString()})});\n})();\n</script>\n</body></html>"@
}

fn write_page_script(nonce: &str, error_map: &str, generic_json: &str, network_json: &str, consent_required_json: &str, request_id_json: &str, legal_ready_json: &str, github_ready_json: &str) -> (r: String)
    ensures
        r@ == page_script(nonce@, error_map@, generic_json@, network_json@, consent_required_json@, request_id_json@, legal_ready_json@, github_ready_json@),
{
    let mut r = own("<script nonce=\"");
    append_str(&mut r, nonce);
    append_str(&mut r, "\">\n(function(){\n  const form=document.getElementById('login-form'), err=document.getElementById('error'), github=document.getElementById('github'), submit=document.getElementById('submit');\n  const messages=");
    append_str(&mut r, error_map);
    append_str(&mut r, ";\n  const generic=");
    append_str(&mut r, generic_json);
    append_str(&mut r, ", network=");
    append_str(&mut r, network_json);
    append_str(&mut r, ", consentRequired=");
    append_str(&mut r, consent_required_json);
    append_str(&mut r, ", requestIdLabel=");
    append_str(&mut r, request_id_json);
    append_str(&mut r, ";\n  const legalReady=");
    append_str(&mut r, legal_ready_json);
    append_str(&mut r, ", githubReady=");
    append_str(&mut r, github_ready_json);
    append_str(&mut r, ";\n  let busy=false;\n  function setBusy(value){busy=value;form.setAttribute('aria-busy',value?'true':'false');form.email.disabled=value||!legalReady;form.password.disabled=value||!legalReady;form.accepted.disabled=value||!legalReady;submit.disabled=value||!legalReady;github.disabled=value||!githubReady}\n  function showApiError(j){const e=j&&j.error?j.error:null;let text=(e&&messages[e.code])||generic;if(e&&e.request_id)text+=' · '+requestIdLabel+': '+e.request_id;err.textContent=text;if(e&&e.code==='AUTH_LEGAL_CONSENT_REQUIRED'&&form.accepted)form.accepted.focus()}\n  form.addEventListener('submit',async function(e){e.preventDefault();if(busy)return;err.textContent='';const body={email:form.email.value,password:form.password.value,client_type:form.client_type.value,return_to:form.return_to.value,accepted:!!(form.accepted&&form.accepted.checked),terms_version:form.terms_version.value,privacy_version:form.privacy_version.value};setBusy(true);try{const res=await fetch('/api/v1/auth/phira/login',{method:'POST',headers:{'Content-Type':'application/json'},credentials:'same-origin',body:JSON.stringify(body)});if(res.ok){window.location.href=document.getElementById('redirect_to').value||'/';return}showApiError(await res.json().catch(()=>({})))}catch(_e){err.textContent=network}finally{setBusy(false)}});\n  github.addEventListener('click',function(){if(busy)return;err.textContent='';setBusy(true);const q=new URLSearchParams({return_to:form.return_to.value,client_type:form.client_type.value,accepted:String(!!(form.accepted&&form.accepted.checked)),terms_version:form.terms_version.value,privacy_version:form.privacy_version.value});window.location.href='/api/v1/auth/github/login/start?'+q.toString()});\n  document.querySelectorAll('[data-lang]').forEach(function(btn){btn.addEventListener('click',function(){const u=new URL(window.location.href);u.searchParams.set('lang',btn.dataset.lang);window.location.href=u.toString()})});\n})();\n</script>\n</body></html>");
    r
}

} // verus!
