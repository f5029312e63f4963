use ppb_server::account::{check_push_channel, require_user, PushEndpointBody};
use ppb_server::admin::{plugin_action_command, plugin_call_command, PluginCallBody};
use ppb_server::auth::types::{AuthPrincipal, ClientType, PrincipalType};
use ppb_server::commands::scope_filter;
use ppb_server::error::ErrorCode;
use ppb_server::json::{Json, JsonNumber};
use ppb_server::notifications::{
    delivery_status, notification_payload, recipient_target, require_recipients, sorted_unique, summarize_target,
    RecipientTarget,
};

fn obj(entries: Vec<(&str, Json)>) -> Json {
    Json::Object(entries.into_iter().map(|(k, v)| (k.to_string(), v)).collect())
}

fn s(t: &str) -> Json {
    Json::Str(t.to_string())
}

const U1: &str = "00000000-0000-0000-0000-000000000001";
const U2: &str = "00000000-0000-0000-0000-000000000002";

#[test]
fn payload_takes_the_notification_fields() {
    let p = notification_payload(&obj(vec![("type", s("old")), ("extra", s("x"))]), "system", "high", "T", "B", &Json::Array(vec![]), "d", &obj(vec![("all", Json::Bool(true))])).unwrap();
    assert_eq!(p.get_str("type"), Some("system"));
    assert_eq!(p.get_str("extra"), Some("x"));
    assert_eq!(p.get_str("title"), Some("T"));
    assert_eq!(p.get("admin_target").and_then(|t| t.get("all")).and_then(|b| b.as_bool()), Some(true));
    let null = notification_payload(&Json::Null, "system", "", "", "", &Json::Null, "", &Json::Null).unwrap();
    assert_eq!(null.get_str("priority"), Some(""));
    let e = notification_payload(&s("nope"), "system", "", "", "", &Json::Null, "", &Json::Null).unwrap_err();
    assert_eq!(e.message, "notification payload must be an object");
}

#[test]
fn targets_classify_in_order() {
    assert!(matches!(recipient_target(&obj(vec![("all", Json::Bool(true)), ("user_ids", Json::Array(vec![]))])), RecipientTarget::All));
    match recipient_target(&obj(vec![("group_ids", Json::Array(vec![s(U1), s("bad"), s(U2)]))])) {
        RecipientTarget::Groups(g) => assert_eq!(g, vec![1, 2]),
        other => panic!("{other:?}"),
    }
    assert!(matches!(recipient_target(&obj(vec![("group_id", s(U2))])), RecipientTarget::Group(2)));
    match recipient_target(&obj(vec![("group_id", s("bad")), ("user_ids", Json::Array(vec![s(U1)]))])) {
        RecipientTarget::Users(u) => assert_eq!(u, vec![1]),
        other => panic!("{other:?}"),
    }
    assert!(matches!(recipient_target(&Json::Null), RecipientTarget::Nobody));
}

#[test]
fn group_members_sorted_and_unique() {
    assert_eq!(sorted_unique(&vec![5, 1, 5, 3, 1]), vec![1, 3, 5]);
    assert!(sorted_unique(&vec![]).is_empty());
}

#[test]
fn delivery_summaries() {
    assert_eq!(summarize_target(None), "—");
    assert_eq!(summarize_target(Some(&obj(vec![("all", Json::Bool(true))]))), "all");
    assert_eq!(
        summarize_target(Some(&obj(vec![("group_ids", Json::Array(vec![s("a"), s("b")])), ("user_ids", Json::Array(vec![s("c")]))]))),
        "groups:2; users:1"
    );
    assert_eq!(summarize_target(Some(&obj(vec![]))), "—");
    assert_eq!(delivery_status(3), "delivered");
    assert_eq!(delivery_status(0), "queued");
    assert!(require_recipients(0).is_err());
    assert!(require_recipients(2).is_ok());
}

#[test]
fn plugin_actions_map_to_commands() {
    let body = PluginCallBody { name: "p".to_string(), method: String::new(), args: vec![] };
    let c = plugin_action_command("chat", "reload", &body).unwrap();
    assert_eq!(c.command, "plugin.reload");
    assert_eq!(c.permission, "plugin:manage");
    assert_eq!(c.args.get_str("name"), Some("chat"));
    assert_eq!(plugin_action_command("chat", "call", &body).unwrap_err().message, "method required for plugin.call");
    assert_eq!(plugin_action_command("chat", "explode", &body).unwrap_err().message, "unknown plugin action: explode");
    let call = PluginCallBody { name: "p".to_string(), method: "ping".to_string(), args: vec![Json::Number(JsonNumber::PosInt(1))] };
    let c = plugin_action_command("chat", "call", &call).unwrap();
    assert_eq!(c.args.get_str("method"), Some("ping"));
    assert_eq!(c.args.get_str("name"), Some("chat"));
    let direct = plugin_call_command(&call);
    assert_eq!(direct.args.get_str("name"), Some("p"));
}

#[test]
fn command_scope_filter() {
    assert_eq!(scope_filter(Some("personal")), Some("personal"));
    assert_eq!(scope_filter(Some("server")), Some("server"));
    assert_eq!(scope_filter(Some("all")), None);
    assert_eq!(scope_filter(None), None);
}

#[test]
fn push_channels_and_user_only_endpoints() {
    let body = PushEndpointBody { device_id: "d".to_string(), channel: "fcm".to_string(), platform: String::new(), subscription: Json::Null };
    assert!(check_push_channel(&body).is_ok());
    let bad = PushEndpointBody { channel: "sms".to_string(), ..body };
    assert_eq!(check_push_channel(&bad).unwrap_err().message, "channel must be web_push|fcm|wns");
    let root = AuthPrincipal { sub: 0, sid: 1, principal_type: PrincipalType::Root, client_type: ClientType::Panel, request_id: String::new() };
    assert_eq!(require_user(&root).unwrap_err().code, ErrorCode::PermissionDenied);
    let user = AuthPrincipal { principal_type: PrincipalType::User, ..root };
    assert!(require_user(&user).is_ok());
}
