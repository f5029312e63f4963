//! Error code to human-readable translation registry. Rule-based; the raw
//! log line always stays visible.

use vstd::prelude::*;
use crate::text::{chars_of, contains, has_sub, lower, own, str_eq, to_lower_chars};

verus! {

#[derive(Debug)]
/// Translated error payload: `{title, explanation, module, severity, suggestion?}`.
pub struct TranslatedError {
    pub title: String,
    pub explanation: String,
    pub module: String,
    pub severity: String,
    pub suggestion: Option<String>,
}

/// Model of a translation: (title, explanation, module, severity, suggestion).
pub type TranslationV = (Seq<char>, Seq<char>, Seq<char>, Seq<char>, Option<Seq<char>>);

pub open spec fn translated_view(t: TranslatedError) -> TranslationV {
    (t.title@, t.explanation@, t.module@, t.severity@, match t.suggestion {
        Some(s) => Some(s@),
        None => None,
    })
}

/// The registry of known codes.
pub open spec fn translation_of(code: Seq<char>) -> Option<TranslationV> {
    if code == "PMP_OPENUDS_TIMEOUT"@ {
        Some(("PMP 命令响应超时"@, "PPB 已发送命令，但 PMP 未在预算内返回。"@, "OpenUDS"@, "warning"@, Some("稍后重试，或检查 PMP 是否过载。"@)))
    } else if code == "PMP_OPENUDS_UNAVAILABLE"@ || code == "PMP_UNAVAILABLE"@ {
        Some(("PMP 连接不可用"@, "OpenUDS 连接断开或 PMP 未运行，PPB 将自动重连。"@, "OpenUDS"@, "error"@, Some("确认 PMP 进程与 socket 路径可用。"@)))
    } else if code == "PMP_COMMAND_ERROR"@ {
        Some(("PMP 命令执行失败"@, "PMP 拒绝了该命令或命令执行出错。"@, "PMP"@, "warning"@, None))
    } else if code == "PHIRA_API_UNAVAILABLE"@ {
        Some(("Phira API 不可用"@, "PPB 无法访问 Phira API，请稍后重试。"@, "Phira API"@, "warning"@, None))
    } else if code == "PHIRA_REAUTH_REQUIRED"@ {
        Some(("需要重新验证 Phira 身份"@, "Phira 凭据已过期，请重新登录验证。"@, "Auth"@, "info"@, Some("重新验证 Phira 密码以获取短期授权。"@)))
    } else if code == "RATE_LIMIT"@ {
        Some(("请求过于频繁"@, "超过速率限制，请稍后重试。"@, "PPB"@, "warning"@, None))
    } else if code == "PERMISSION_DENIED"@ {
        Some(("权限不足"@, "当前身份没有执行该操作的权限。"@, "RBAC"@, "warning"@, None))
    } else if code == "CAPABILITY_NOT_SUPPORTED"@ {
        Some(("PMP 能力缺失"@, "当前 PMP 版本不支持该能力，功能已禁用。"@, "PMP"@, "info"@, None))
    } else {
        None
    }
}

fn entry(title: &str, explanation: &str, module: &str, severity: &str, suggestion: Option<&str>) -> (t: TranslatedError)
    ensures
        translated_view(t) == (title@, explanation@, module@, severity@, match suggestion {
            Some(s) => Some(s@),
            None => None::<Seq<char>>,
        }),
{
    TranslatedError {
        title: own(title),
        explanation: own(explanation),
        module: own(module),
        severity: own(severity),
        suggestion: match suggestion {
            Some(s) => Some(own(s)),
            None => None,
        },
    }
}

/// Translate a known error code into a human explanation.
pub fn translate(code: &str) -> (r: Option<TranslatedError>)
    ensures
        match r {
            Some(t) => translation_of(code@) == Some(translated_view(t)),
            None => translation_of(code@) is None,
        },
{
    if str_eq(code, "PMP_OPENUDS_TIMEOUT") {
        Some(entry("PMP 命令响应超时", "PPB 已发送命令，但 PMP 未在预算内返回。", "OpenUDS", "warning", Some("稍后重试，或检查 PMP 是否过载。")))
    } else if str_eq(code, "PMP_OPENUDS_UNAVAILABLE") || str_eq(code, "PMP_UNAVAILABLE") {
        Some(entry("PMP 连接不可用", "OpenUDS 连接断开或 PMP 未运行，PPB 将自动重连。", "OpenUDS", "error", Some("确认 PMP 进程与 socket 路径可用。")))
    } else if str_eq(code, "PMP_COMMAND_ERROR") {
        Some(entry("PMP 命令执行失败", "PMP 拒绝了该命令或命令执行出错。", "PMP", "warning", None))
    } else if str_eq(code, "PHIRA_API_UNAVAILABLE") {
        Some(entry("Phira API 不可用", "PPB 无法访问 Phira API，请稍后重试。", "Phira API", "warning", None))
    } else if str_eq(code, "PHIRA_REAUTH_REQUIRED") {
        Some(entry("需要重新验证 Phira 身份", "Phira 凭据已过期，请重新登录验证。", "Auth", "info", Some("重新验证 Phira 密码以获取短期授权。")))
    } else if str_eq(code, "RATE_LIMIT") {
        Some(entry("请求过于频繁", "超过速率限制，请稍后重试。", "PPB", "warning", None))
    } else if str_eq(code, "PERMISSION_DENIED") {
        Some(entry("权限不足", "当前身份没有执行该操作的权限。", "RBAC", "warning", None))
    } else if str_eq(code, "CAPABILITY_NOT_SUPPORTED") {
        Some(entry("PMP 能力缺失", "当前 PMP 版本不支持该能力，功能已禁用。", "PMP", "info", None))
    } else {
        None
    }
}

/// The line mentions a common network or timeout failure (case-insensitive).
pub open spec fn looks_like_network_error(line: Seq<char>) -> bool {
    let l = lower(line);
    has_sub(l, "timeout"@) || has_sub(l, "timed out"@) || has_sub(l, "connection refused"@) || has_sub(
        l,
        "broken pipe"@,
    ) || has_sub(l, "no route to host"@)
}

/// The translation of a line matching a network pattern.
pub open spec fn network_translation() -> TranslationV {
    ("疑似网络/超时错误"@, "日志行匹配常见网络错误模式。"@, "Network"@, "warning"@, None)
}

/// Best-effort pattern fallback for lines that carry no known code.
pub fn translate_pattern(line: &str) -> (r: Option<TranslatedError>)
    ensures
        looks_like_network_error(line@) ==> (r matches Some(t) && translated_view(t) == network_translation()),
        !looks_like_network_error(line@) ==> r is None,
{
    let l = to_lower_chars(chars_of(line).as_slice());
    let hit = contains(l.as_slice(), chars_of("timeout").as_slice()) || contains(l.as_slice(), chars_of("timed out").as_slice())
        || contains(l.as_slice(), chars_of("connection refused").as_slice()) || contains(
        l.as_slice(),
        chars_of("broken pipe").as_slice(),
    ) || contains(l.as_slice(), chars_of("no route to host").as_slice());
    if hit {
        Some(entry("疑似网络/超时错误", "日志行匹配常见网络错误模式。", "Network", "warning", None))
    } else {
        None
    }
}

/// The translation shown for a code: the registry's, else the pattern fallback.
pub fn translate_any(code: &str) -> (r: Option<TranslatedError>)
    ensures
        match translation_of(code@) {
            Some(t) => r matches Some(x) && translated_view(x) == t,
            None => if looks_like_network_error(code@) {
                r matches Some(x) && translated_view(x) == network_translation()
            } else {
                r is None
            },
        },
{
    match translate(code) {
        Some(t) => Some(t),
        None => translate_pattern(code),
    }
}

} // verus!
