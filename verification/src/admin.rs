//! Administration rules: redemption codes (create / list / redeem checks,
//! code normalization and generation, action validation) and the server
//! operation and broadcast commands sent to PMP.

use vstd::prelude::*;
use crate::error::{ApiError, ErrorCode, params_doc, visible_message};
use crate::json::{Json, JsonNumber, JsonV, NumV, entries_view, json_string, lemma_object_view};
use crate::text::{append_str, chars_of, own, str_eq, string_from_chars, to_upper_chars, trim, trim_chars, upper};

verus! {

// ── redemption codes ──────────────────────────────────────────────────

#[derive(Debug)]
/// Body of a redemption request.
pub struct RedeemCodeBody {
    pub code: String,
}

#[derive(Debug)]
/// Query of the redemption-code list.
pub struct CouponListParams {
    pub page: Option<i64>,
    /// Page size (`pageNum` on the wire).
    pub page_num: Option<i64>,
}

/// The page asked for (default 1, at least 1).
pub open spec fn coupon_page(page: Option<i64>) -> i64 {
    match page {
        Some(p) => if p < 1 {
            1
        } else {
            p
        },
        None => 1,
    }
}

/// The page size asked for (default 50), clamped to 1..=100.
pub open spec fn coupon_page_size(page_num: Option<i64>) -> i64 {
    match page_num {
        Some(n) => if n < 1 {
            1
        } else if n > 100 {
            100
        } else {
            n
        },
        None => 50,
    }
}

impl CouponListParams {
    /// `(page, page size)`.
    pub fn paging(&self) -> (r: (i64, i64))
        ensures
            r.0 == coupon_page(self.page),
            r.1 == coupon_page_size(self.page_num),
    {
        let page = match self.page {
            Some(p) => if p < 1 {
                1
            } else {
                p
            },
            None => 1,
        };
        let n = match self.page_num {
            Some(n) => if n < 1 {
                1
            } else if n > 100 {
                100
            } else {
                n
            },
            None => 50,
        };
        (page, n)
    }
}

/// A code as stored and looked up: trimmed, ASCII upper-case.
pub fn normalize_code(code: &str) -> (r: String)
    ensures
        r@ == upper(trim(code@)),
{
    let cs = chars_of(code);
    let t = trim_chars(cs.as_slice());
    let u = to_upper_chars(t.as_slice());
    string_from_chars(u.as_slice())
}

/// The code alphabet (no look-alike characters).
pub open spec fn code_alphabet() -> Seq<char> {
    "ABCDEFGHJKLMNPQRSTUVWXYZ23456789"@
}

/// A random 12-character code over the code alphabet.
pub fn generate_code() -> (code: String)
    ensures
        code@.len() == 12,
        forall|i: int| 0 <= i < 12 ==> code_alphabet().contains(#[trigger] code@[i]),
{
    let alphabet = chars_of("ABCDEFGHJKLMNPQRSTUVWXYZ23456789");
    proof {
        reveal_strlit("ABCDEFGHJKLMNPQRSTUVWXYZ23456789");
    }
    let mut out: Vec<char> = Vec::new();
    let mut i: usize = 0;
    while i < 12
        invariant
            i <= 12,
            alphabet@ == code_alphabet(),
            alphabet@.len() > 0,
            out@.len() == i,
            forall|k: int| 0 <= k < i ==> code_alphabet().contains(#[trigger] out@[k]),
        decreases 12 - i,
    {
        let k = crate::auth::root::random_below(alphabet.len());
        let c = alphabet[k];
        assert(code_alphabet()[k as int] == c);
        out.push(c);
        i = i + 1;
    }
    string_from_chars(out.as_slice())
}

/// Why a redemption action with arguments `args` is refused, if it is.
pub open spec fn redemption_action_refusal(kind: Seq<char>, args: JsonV) -> Option<(ErrorCode, Seq<char>)> {
    if !(args is Object) {
        Some((ErrorCode::ValidationFailed, "redemption args must be object"@))
    } else if kind == "account_unlock"@ || kind == "admin_alert"@ {
        None
    } else if kind == "account_role"@ {
        if args.get_str("group_id"@) is Some || args.get_str("group_name"@) is Some {
            None
        } else {
            Some((ErrorCode::ValidationFailed, "group target required"@))
        }
    } else if kind == "custom_hook"@ {
        if args.get_str("hook_id"@) == Some("notification.self"@) {
            None
        } else {
            Some((ErrorCode::RedemptionActionUnsupported, "unsupported redemption hook"@))
        }
    } else {
        Some((ErrorCode::RedemptionActionUnsupported, "unsupported redemption action"@))
    }
}

/// Check a redemption action and its arguments.
pub fn validate_redemption_action(kind: &str, args: &Json) -> (r: Result<(), ApiError>)
    ensures
        match redemption_action_refusal(kind@, args@) {
            Some((code, message)) => r matches Err(e) && e.code == code && e.message@ == message,
            None => r is Ok,
        },
{
    if !args.is_object() {
        return Err(ApiError::new(ErrorCode::ValidationFailed, "redemption args must be object"));
    }
    if str_eq(kind, "account_unlock") || str_eq(kind, "admin_alert") {
        Ok(())
    } else if str_eq(kind, "account_role") {
        if args.get_str("group_id").is_some() || args.get_str("group_name").is_some() {
            Ok(())
        } else {
            Err(ApiError::new(ErrorCode::ValidationFailed, "group target required"))
        }
    } else if str_eq(kind, "custom_hook") {
        let hook_ok = match args.get_str("hook_id") {
            Some(h) => str_eq(h, "notification.self"),
            None => false,
        };
        if hook_ok {
            Ok(())
        } else {
            Err(ApiError::new(ErrorCode::RedemptionActionUnsupported, "unsupported redemption hook"))
        }
    } else {
        Err(ApiError::new(ErrorCode::RedemptionActionUnsupported, "unsupported redemption action"))
    }
}

/// The arguments stored with a code: `{}` in place of null.
pub fn coupon_args(args: Json) -> (r: Json)
    ensures
        r@ == (if args@ is Null {
            JsonV::Object(Seq::empty())
        } else {
            args@
        }),
{
    match args {
        Json::Null => {
            let empty: Vec<(String, Json)> = Vec::new();
            let r = Json::Object(empty);
            proof {
                lemma_object_view(r);
                assert(entries_view(empty@) =~= Seq::<(Seq<char>, JsonV)>::empty());
            }
            r
        },
        other => other,
    }
}

/// Why creating a code is refused, if it is: the holder mode must be
/// `creator` or `manual`, `max_uses` (default 1) positive, an expiry in the
/// future, and root cannot hold a `creator` code.
pub open spec fn coupon_create_refusal(
    holder_mode: Seq<char>,
    max_uses: Option<i32>,
    expires_at: Option<i64>,
    now: i64,
    creator_is_root: bool,
) -> Option<Seq<char>> {
    if !(holder_mode == "creator"@ || holder_mode == "manual"@) {
        Some("invalid holder mode"@)
    } else if (match max_uses {
        Some(m) => m,
        None => 1,
    }) <= 0 {
        Some("max uses must be positive"@)
    } else if expires_at matches Some(t) && t <= now {
        Some("expiry must be in future"@)
    } else if holder_mode == "creator"@ && creator_is_root {
        Some("root cannot be redemption holder"@)
    } else {
        None
    }
}

/// The create checks; on success, the code's use limit.
pub fn coupon_create_gate(
    holder_mode: &str,
    max_uses: Option<i32>,
    expires_at: Option<i64>,
    now: i64,
    creator_is_root: bool,
) -> (r: Result<i32, ApiError>)
    ensures
        match coupon_create_refusal(holder_mode@, max_uses, expires_at, now, creator_is_root) {
            Some(m) => r matches Err(e) && e.code == ErrorCode::ValidationFailed && e.message@ == m,
            None => r == Ok::<i32, ApiError>(
                match max_uses {
                    Some(m) => m,
                    None => 1,
                },
            ),
        },
{
    if !(str_eq(holder_mode, "creator") || str_eq(holder_mode, "manual")) {
        return Err(ApiError::new(ErrorCode::ValidationFailed, "invalid holder mode"));
    }
    let uses = match max_uses {
        Some(m) => m,
        None => 1,
    };
    if uses <= 0 {
        return Err(ApiError::new(ErrorCode::ValidationFailed, "max uses must be positive"));
    }
    match expires_at {
        Some(t) => if t <= now {
            return Err(ApiError::new(ErrorCode::ValidationFailed, "expiry must be in future"));
        },
        None => {},
    }
    if str_eq(holder_mode, "creator") && creator_is_root {
        return Err(ApiError::new(ErrorCode::ValidationFailed, "root cannot be redemption holder"));
    }
    Ok(uses)
}

/// A code's list status at `now`.
pub open spec fn coupon_status_text(revoked: bool, expires_at: Option<i64>, now: i64, used_count: i32, max_uses: i32) -> Seq<char> {
    if revoked {
        "revoked"@
    } else if expires_at matches Some(t) && t <= now {
        "expired"@
    } else if used_count >= max_uses {
        "redeemed"@
    } else {
        "active"@
    }
}

pub fn coupon_status(revoked: bool, expires_at: Option<i64>, now: i64, used_count: i32, max_uses: i32) -> (s: &'static str)
    ensures
        s@ == coupon_status_text(revoked, expires_at, now, used_count, max_uses),
{
    if revoked {
        "revoked"
    } else if (match expires_at {
        Some(t) => t <= now,
        None => false,
    }) {
        "expired"
    } else if used_count >= max_uses {
        "redeemed"
    } else {
        "active"
    }
}

/// Why a redemption of a stored code by `caller` is refused, before the
/// caller's earlier redemptions are looked up: revoked, expired, used up,
/// or held by someone else (a `creator` code only by its holder).
pub open spec fn redeem_refusal(
    revoked: bool,
    expires_at: Option<i64>,
    now: i64,
    used_count: i32,
    max_uses: i32,
    holder_mode: Seq<char>,
    holder_user_id: Option<u128>,
    caller: u128,
) -> Option<(ErrorCode, Seq<char>)> {
    if revoked {
        Some((ErrorCode::RedemptionCodeRevoked, "redemption code revoked"@))
    } else if expires_at matches Some(t) && t <= now {
        Some((ErrorCode::RedemptionCodeExpired, "redemption code expired"@))
    } else if used_count >= max_uses {
        Some((ErrorCode::RedemptionCodeLimitReached, "redemption code limit reached"@))
    } else if holder_user_id is Some && holder_user_id != Some(caller) {
        Some((ErrorCode::PermissionDenied, "permission denied"@))
    } else if holder_mode == "creator"@ && holder_user_id != Some(caller) {
        Some((ErrorCode::PermissionDenied, "permission denied"@))
    } else {
        None
    }
}

/// The redemption checks on a stored code.
pub fn redeem_gate(
    revoked: bool,
    expires_at: Option<i64>,
    now: i64,
    used_count: i32,
    max_uses: i32,
    holder_mode: &str,
    holder_user_id: Option<u128>,
    caller: u128,
) -> (r: Result<(), ApiError>)
    ensures
        match redeem_refusal(revoked, expires_at, now, used_count, max_uses, holder_mode@, holder_user_id, caller) {
            Some((code, message)) => r matches Err(e) && e.code == code && e.message@ == message,
            None => r is Ok,
        },
{
    if revoked {
        return Err(ApiError::new(ErrorCode::RedemptionCodeRevoked, "redemption code revoked"));
    }
    match expires_at {
        Some(t) => if t <= now {
            return Err(ApiError::new(ErrorCode::RedemptionCodeExpired, "redemption code expired"));
        },
        None => {},
    }
    if used_count >= max_uses {
        return Err(ApiError::new(ErrorCode::RedemptionCodeLimitReached, "redemption code limit reached"));
    }
    let held_by_caller = match holder_user_id {
        Some(h) => h == caller,
        None => false,
    };
    if holder_user_id.is_some() && !held_by_caller {
        return Err(ApiError::permission_denied());
    }
    if str_eq(holder_mode, "creator") && !held_by_caller {
        return Err(ApiError::permission_denied());
    }
    Ok(())
}

/// A code can be redeemed at most once per user.
pub fn already_redeemed_refusal(prior: bool) -> (r: Result<(), ApiError>)
    ensures
        r is Ok <==> !prior,
        r matches Err(e) ==> e.code == ErrorCode::RedemptionCodeAlreadyUsed && e.message@ == "redemption code already used"@,
{
    if prior {
        Err(ApiError::new(ErrorCode::RedemptionCodeAlreadyUsed, "redemption code already used"))
    } else {
        Ok(())
    }
}

/// A redemption needs a code.
pub fn redemption_code(body: &RedeemCodeBody) -> (r: Result<String, ApiError>)
    ensures
        upper(trim(body.code@)).len() == 0 ==> (r matches Err(e) && e.code == ErrorCode::ValidationFailed
            && e.message@ == "code required"@),
        upper(trim(body.code@)).len() > 0 ==> (r matches Ok(c) && c@ == upper(trim(body.code@))),
{
    let code = normalize_code(body.code.as_str());
    if code.as_str().unicode_len() == 0 {
        Err(ApiError::new(ErrorCode::ValidationFailed, "code required"))
    } else {
        Ok(code)
    }
}

// ── server operations ─────────────────────────────────────────────────

#[derive(Debug)]
/// Toggle of the room creation gate.
pub struct RoomCreationBody {
    pub enabled: bool,
}

#[derive(Debug)]
/// A system broadcast.
pub struct BroadcastBody {
    pub content: String,
    pub room_id: Option<String>,
    pub user_id: Option<i64>,
}

#[derive(Debug)]
/// One PMP command a server operation sends: the permission it needs, the
/// command, its arguments, and whether a critical reauth is required.
pub struct ServerCommand {
    pub permission: &'static str,
    pub command: &'static str,
    pub args: Json,
    pub reauth: bool,
}

/// `{ "enabled": b }`.
fn enabled_args(b: bool) -> (r: Json)
    ensures
        r@ == JsonV::Object(seq![("enabled"@, JsonV::Bool(b))]),
{
    let mut es: Vec<(String, Json)> = Vec::new();
    es.push((own("enabled"), Json::Bool(b)));
    let r = Json::Object(es);
    proof {
        lemma_object_view(r);
        assert(entries_view(es@) =~= seq![("enabled"@, JsonV::Bool(b))]);
    }
    r
}

fn no_args() -> (r: Json)
    ensures
        r@ == JsonV::Object(Seq::empty()),
{
    let es: Vec<(String, Json)> = Vec::new();
    let r = Json::Object(es);
    proof {
        lemma_object_view(r);
        assert(entries_view(es@) =~= Seq::<(Seq<char>, JsonV)>::empty());
    }
    r
}

/// The command of the room-creation toggle.
pub fn room_creation_command(body: &RoomCreationBody) -> (c: ServerCommand)
    ensures
        c.permission@ == "server:manage"@,
        c.command@ == "server.roomcreation"@,
        c.args@ == JsonV::Object(seq![("enabled"@, JsonV::Bool(body.enabled))]),
        !c.reauth,
{
    ServerCommand { permission: "server:manage", command: "server.roomcreation", args: enabled_args(body.enabled), reauth: false }
}

/// The command of a unified server action: `config_reload`, `shutdown`
/// (critical reauth), `roomcreation` (`args.enabled`, default false) or
/// `connections`; anything else is refused.
pub fn server_action_command(action: &str, args: &Json) -> (r: Result<ServerCommand, ApiError>)
    ensures
        action@ == "config_reload"@ ==> (r matches Ok(c) && c.permission@ == "config:reload"@ && c.command@
            == "server.config_reload"@ && c.args@ == JsonV::Object(Seq::empty()) && !c.reauth),
        action@ == "shutdown"@ ==> (r matches Ok(c) && c.permission@ == "server:shutdown"@ && c.command@
            == "server.shutdown"@ && c.args@ == JsonV::Object(Seq::empty()) && c.reauth),
        action@ == "roomcreation"@ ==> (r matches Ok(c) && c.permission@ == "server:manage"@ && c.command@
            == "server.roomcreation"@ && c.args@ == JsonV::Object(
            seq![("enabled"@, JsonV::Bool(
                match args@.get("enabled"@) {
                    Some(JsonV::Bool(b)) => b,
                    _ => false,
                },
            ))],
        ) && !c.reauth),
        action@ == "connections"@ ==> (r matches Ok(c) && c.permission@ == "server:view"@ && c.command@
            == "runtime.status"@ && c.args@ == JsonV::Object(Seq::empty()) && !c.reauth),
        !(action@ == "config_reload"@ || action@ == "shutdown"@ || action@ == "roomcreation"@ || action@
            == "connections"@) ==> (r matches Err(e) && e.code == ErrorCode::ValidationFailed && e.message@
            == "unknown server action: "@ + action@),
{
    proof {
        reveal_strlit("config_reload");
        reveal_strlit("shutdown");
        reveal_strlit("roomcreation");
        reveal_strlit("connections");
        assert("config_reload"@.len() == 13 && "shutdown"@.len() == 8 && "roomcreation"@.len() == 12
            && "connections"@.len() == 11);
        assert("config_reload"@ != "shutdown"@ && "config_reload"@ != "roomcreation"@ && "config_reload"@
            != "connections"@ && "shutdown"@ != "roomcreation"@ && "shutdown"@ != "connections"@ && "roomcreation"@
            != "connections"@);
    }
    if str_eq(action, "config_reload") {
        Ok(ServerCommand { permission: "config:reload", command: "server.config_reload", args: no_args(), reauth: false })
    } else if str_eq(action, "shutdown") {
        Ok(ServerCommand { permission: "server:shutdown", command: "server.shutdown", args: no_args(), reauth: true })
    } else if str_eq(action, "roomcreation") {
        let enabled = match args.get("enabled") {
            Some(v) => match v.as_bool() {
                Some(b) => b,
                None => false,
            },
            None => false,
        };
        Ok(ServerCommand { permission: "server:manage", command: "server.roomcreation", args: enabled_args(enabled), reauth: false })
    } else if str_eq(action, "connections") {
        Ok(ServerCommand { permission: "server:view", command: "runtime.status", args: no_args(), reauth: false })
    } else {
        let mut message = own("unknown server action: ");
        append_str(&mut message, action);
        Err(ApiError::validation(message.as_str()))
    }
}

/// Where a broadcast goes.
#[derive(Clone, Copy, Debug, PartialEq, Eq, Structural)]
pub enum BroadcastScope {
    All,
    Room,
    User,
}

/// The command of a broadcast: server-wide, to a room (`room_id` needed)
/// or to a user (`user_id` needed).
pub fn broadcast_command(scope: BroadcastScope, body: &BroadcastBody) -> (r: Result<ServerCommand, ApiError>)
    ensures
        scope == BroadcastScope::All ==> (r matches Ok(c) && c.permission@ == "broadcast:all"@ && c.command@
            == "broadcast.all"@ && c.args@ == JsonV::Object(seq![("message"@, JsonV::Str(body.content@))])),
        scope == BroadcastScope::Room ==> match body.room_id {
            Some(room) => r matches Ok(c) && c.permission@ == "broadcast:room"@ && c.command@ == "broadcast.room"@
                && c.args@ == JsonV::Object(
                seq![("message"@, JsonV::Str(body.content@)), ("room_id"@, JsonV::Str(room@))],
            ),
            None => r matches Err(e) && e.code == ErrorCode::ValidationFailed && e.message@
                == "room_id required for broadcast.room"@,
        },
        scope == BroadcastScope::User ==> match body.user_id {
            Some(u) => r matches Ok(c) && c.permission@ == "broadcast:user"@ && c.command@ == "broadcast.user"@
                && c.args@ == JsonV::Object(
                seq![("message"@, JsonV::Str(body.content@)), ("user_id"@, JsonV::Number(
                    if u >= 0 {
                        NumV::PosInt(u as u64)
                    } else {
                        NumV::NegInt(u)
                    },
                ))],
            ),
            None => r matches Err(e) && e.code == ErrorCode::ValidationFailed && e.message@
                == "user_id required for broadcast.user"@,
        },
        r matches Ok(c) ==> !c.reauth,
{
    let mut es: Vec<(String, Json)> = Vec::new();
    es.push((own("message"), json_string(body.content.as_str())));
    match scope {
        BroadcastScope::All => {
            let args = Json::Object(es);
            proof {
                lemma_object_view(args);
                assert(entries_view(es@) =~= seq![("message"@, JsonV::Str(body.content@))]);
            }
            Ok(ServerCommand { permission: "broadcast:all", command: "broadcast.all", args, reauth: false })
        },
        BroadcastScope::Room => match &body.room_id {
            Some(room) => {
                es.push((own("room_id"), json_string(room.as_str())));
                let args = Json::Object(es);
                proof {
                    lemma_object_view(args);
                    assert(entries_view(es@) =~= seq![("message"@, JsonV::Str(body.content@)), ("room_id"@, JsonV::Str(room@))]);
                }
                Ok(ServerCommand { permission: "broadcast:room", command: "broadcast.room", args, reauth: false })
            },
            None => Err(ApiError::validation("room_id required for broadcast.room")),
        },
        BroadcastScope::User => match body.user_id {
            Some(u) => {
                let n = if u >= 0 {
                    JsonNumber::PosInt(u as u64)
                } else {
                    JsonNumber::NegInt(u)
                };
                es.push((own("user_id"), Json::Number(n)));
                let args = Json::Object(es);
                proof {
                    lemma_object_view(args);
                    assert(entries_view(es@) =~= seq![("message"@, JsonV::Str(body.content@)), ("user_id"@, JsonV::Number(
                        if u >= 0 {
                            NumV::PosInt(u as u64)
                        } else {
                            NumV::NegInt(u)
                        },
                    ))]);
                }
                Ok(ServerCommand { permission: "broadcast:user", command: "broadcast.user", args, reauth: false })
            },
            None => Err(ApiError::validation("user_id required for broadcast.user")),
        },
    }
}

// ── plugins ───────────────────────────────────────────────────────────

/// A plugin action's body (a call names a method and its arguments).
#[derive(Debug)]
pub struct PluginCallBody {
    pub name: String,
    pub method: String,
    pub args: Vec<Json>,
}

/// `{ "name": name }`.
fn name_args(name: &str) -> (r: Json)
    ensures
        r@ == JsonV::Object(seq![("name"@, JsonV::Str(name@))]),
{
    let mut es: Vec<(String, Json)> = Vec::new();
    es.push((own("name"), json_string(name)));
    let r = Json::Object(es);
    proof {
        lemma_object_view(r);
        assert(entries_view(es@) =~= seq![("name"@, JsonV::Str(name@))]);
    }
    r
}

/// `{ "args": [...], "method": m, "name": n }`.
pub open spec fn call_args(name: Seq<char>, method: Seq<char>, args: Seq<JsonV>) -> JsonV {
    JsonV::Object(
        seq![("args"@, JsonV::Array(args)), ("method"@, JsonV::Str(method)), ("name"@, JsonV::Str(name))],
    )
}

fn call_args_of(name: &str, body: &PluginCallBody) -> (r: Json)
    ensures
        r@ == call_args(name@, body.method@, Seq::new(body.args@.len(), |i: int| body.args@[i]@)),
{
    let mut items: Vec<Json> = Vec::new();
    let mut i: usize = 0;
    while i < body.args.len()
        invariant
            i <= body.args@.len(),
            items@.len() == i,
            forall|k: int| 0 <= k < i ==> (#[trigger] items@[k])@ == body.args@[k]@,
        decreases body.args@.len() - i,
    {
        items.push(crate::json::deep_clone(&body.args[i]));
        i = i + 1;
    }
    let arr = Json::Array(items);
    proof {
        crate::json::lemma_array_view(arr);
        assert(arr@ == JsonV::Array(Seq::new(body.args@.len(), |i: int| body.args@[i]@))) by {
            assert(arr@->Array_0 =~= Seq::new(body.args@.len(), |i: int| body.args@[i]@));
        }
    }
    let mut es: Vec<(String, Json)> = Vec::new();
    es.push((own("args"), arr));
    es.push((own("method"), json_string(body.method.as_str())));
    es.push((own("name"), json_string(name)));
    let r = Json::Object(es);
    proof {
        lemma_object_view(r);
        assert(entries_view(es@) =~= call_args(name@, body.method@, Seq::new(body.args@.len(), |i: int| body.args@[i]@))->Object_0);
    }
    r
}

/// The command of a plugin call.
pub fn plugin_call_command(body: &PluginCallBody) -> (c: ServerCommand)
    ensures
        c.permission@ == "plugin:call"@,
        c.command@ == "plugin.call"@,
        c.args@ == call_args(body.name@, body.method@, Seq::new(body.args@.len(), |i: int| body.args@[i]@)),
        !c.reauth,
{
    ServerCommand { permission: "plugin:call", command: "plugin.call", args: call_args_of(body.name.as_str(), body), reauth: false }
}

/// The command of a plugin action on plugin `name`: `enable`, `disable`,
/// `reload` and `remove` need `plugin:manage`; `call` needs `plugin:call`
/// and a method; anything else is refused.
pub fn plugin_action_command(name: &str, action: &str, body: &PluginCallBody) -> (r: Result<ServerCommand, ApiError>)
    ensures
        (action@ == "enable"@ || action@ == "disable"@ || action@ == "reload"@ || action@ == "remove"@) ==> (r matches Ok(
            c,
        ) && c.permission@ == "plugin:manage"@ && c.command@ == "plugin."@ + action@ && c.args@ == JsonV::Object(
            seq![("name"@, JsonV::Str(name@))],
        ) && !c.reauth),
        action@ == "call"@ && body.method@.len() == 0 ==> (r matches Err(e) && e.code == ErrorCode::ValidationFailed
            && e.message@ == "method required for plugin.call"@),
        action@ == "call"@ && body.method@.len() > 0 ==> (r matches Ok(c) && c.permission@ == "plugin:call"@
            && c.command@ == "plugin.call"@ && c.args@ == call_args(
            name@,
            body.method@,
            Seq::new(body.args@.len(), |i: int| body.args@[i]@),
        ) && !c.reauth),
        !(action@ == "enable"@ || action@ == "disable"@ || action@ == "reload"@ || action@ == "remove"@ || action@
            == "call"@) ==> (r matches Err(e) && e.code == ErrorCode::ValidationFailed && e.message@
            == "unknown plugin action: "@ + action@),
{
    proof {
        reveal_strlit("enable");
        reveal_strlit("disable");
        reveal_strlit("reload");
        reveal_strlit("remove");
        reveal_strlit("call");
        reveal_strlit("plugin.");
        reveal_strlit("plugin.enable");
        reveal_strlit("plugin.disable");
        reveal_strlit("plugin.reload");
        reveal_strlit("plugin.remove");
        assert("plugin.enable"@ =~= "plugin."@ + "enable"@);
        assert("plugin.disable"@ =~= "plugin."@ + "disable"@);
        assert("plugin.reload"@ =~= "plugin."@ + "reload"@);
        assert("plugin.remove"@ =~= "plugin."@ + "remove"@);
        assert("enable"@[0] != "reload"@[0] && "enable"@[0] != "remove"@[0] && "reload"@[2] != "remove"@[2]);
        assert("enable"@ != "disable"@ && "enable"@ != "reload"@ && "enable"@ != "remove"@ && "enable"@ != "call"@);
        assert("disable"@ != "reload"@ && "disable"@ != "remove"@ && "disable"@ != "call"@);
        assert("reload"@ != "remove"@ && "reload"@ != "call"@ && "remove"@ != "call"@);
    }
    if str_eq(action, "enable") {
        Ok(ServerCommand { permission: "plugin:manage", command: "plugin.enable", args: name_args(name), reauth: false })
    } else if str_eq(action, "disable") {
        Ok(ServerCommand { permission: "plugin:manage", command: "plugin.disable", args: name_args(name), reauth: false })
    } else if str_eq(action, "reload") {
        Ok(ServerCommand { permission: "plugin:manage", command: "plugin.reload", args: name_args(name), reauth: false })
    } else if str_eq(action, "remove") {
        Ok(ServerCommand { permission: "plugin:manage", command: "plugin.remove", args: name_args(name), reauth: false })
    } else if str_eq(action, "call") {
        if body.method.as_str().unicode_len() == 0 {
            Err(ApiError::validation("method required for plugin.call"))
        } else {
            Ok(ServerCommand { permission: "plugin:call", command: "plugin.call", args: call_args_of(name, body), reauth: false })
        }
    } else {
        let mut message = own("unknown plugin action: ");
        append_str(&mut message, action);
        Err(ApiError::validation(message.as_str()))
    }
}

} // verus!
