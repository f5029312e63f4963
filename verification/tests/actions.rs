use ppb_server::actions::dispatch::authorize_action;
use ppb_server::error::ErrorCode;
use ppb_server::actions::executor::{fixed_cli_command, normalize_openuds_args};
use ppb_server::actions::registry::ActionRegistry;
use ppb_server::json::{Json, JsonNumber};

fn j(text: &str) -> Json {
    from_serde(&serde_json::from_str(text).unwrap())
}

fn from_serde(v: &serde_json::Value) -> Json {
    match v {
        serde_json::Value::Null => Json::Null,
        serde_json::Value::Bool(b) => Json::Bool(*b),
        serde_json::Value::Number(n) => {
            if let Some(u) = n.as_u64() {
                Json::Number(JsonNumber::PosInt(u))
            } else if let Some(i) = n.as_i64() {
                Json::Number(JsonNumber::NegInt(i))
            } else {
                Json::Number(JsonNumber::Float(n.to_string()))
            }
        }
        serde_json::Value::String(s) => Json::Str(s.clone()),
        serde_json::Value::Array(a) => Json::Array(a.iter().map(from_serde).collect()),
        serde_json::Value::Object(o) => Json::Object(o.iter().map(|(k, v)| (k.clone(), from_serde(v))).collect()),
    }
}

fn as_int(v: Option<&Json>) -> Option<i64> {
    v.and_then(|x| x.as_i64())
}

#[test]
fn normalizes_phira_id_to_user_id_for_player_target() {
    let mut args = j(r#"{ "room_id": "ABC", "phira_id": 42 }"#);
    normalize_openuds_args("room.kick", &mut args);
    assert_eq!(as_int(args.get("user_id")), Some(42));
    assert!(args.get("phira_id").is_none());
}

#[test]
fn keeps_existing_user_id() {
    let mut args = j(r#"{ "room_id": "ABC", "phira_id": 42, "user_id": 7 }"#);
    normalize_openuds_args("room.ban", &mut args);
    assert_eq!(as_int(args.get("user_id")), Some(7));
    assert!(args.get("phira_id").is_some(), "should not clobber explicit user_id");
}

#[test]
fn set_chart_passes_chart_id_through() {
    let mut args = j(r#"{ "room_id": "ABC", "chart_id": 99 }"#);
    normalize_openuds_args("room.set_chart", &mut args);
    assert_eq!(as_int(args.get("chart_id")), Some(99));
}

#[test]
fn fixed_cli_commands_are_server_mapped() {
    assert_eq!(fixed_cli_command("server.connections", &j(r#"{ "enabled": true }"#)), Some("connections on".to_string()));
    assert_eq!(fixed_cli_command("server.connections", &j(r#"{ "enabled": false }"#)), Some("connections off".to_string()));
    assert_eq!(fixed_cli_command("server.connections", &j("{}")), Some("connections".to_string()));
    assert_eq!(fixed_cli_command("room.kick", &j("{}")), None);
}

#[test]
fn update_actions_have_no_direct_cli_mapping() {
    for id in ["pmp.update.check", "pmp.update.apply", "pmp.update.cancel", "pmp.update.force"] {
        assert_eq!(fixed_cli_command(id, &j("{}")), None, "{id} must not cli.execute");
    }
}

#[test]
fn seeds_are_present() {
    let reg = ActionRegistry::new();
    assert!(reg.get("room.kick").is_some());
    assert!(reg.get("room.lock").is_some());
    assert!(reg.get("room.set_host").is_some());
    assert!(reg.get("player.ban").is_some());
    assert!(reg.get("broadcast.all").is_some());
    assert!(reg.get("server.config_reload").is_some());
    assert!(reg.get("pmp.cli.execute").is_some());
    assert!(reg.get("pmp.update.apply").is_some());
    assert!(reg.get("player.ban_ip").is_some());
    assert!(reg.all().len() >= 25);
}

#[test]
fn room_lock_unified_no_unlock() {
    let reg = ActionRegistry::new();
    assert!(reg.get("room.lock").is_some());
    assert!(reg.get("room.unlock").is_none());
}

#[test]
fn host_allowed_actions_are_room_scoped_and_audited() {
    let reg = ActionRegistry::new();
    let mut found = 0;
    for a in reg.all() {
        if a.host_allowed {
            found += 1;
            assert!(a.audit, "host_allowed {} must be audited", a.id);
            assert!(a.queue_key.starts_with("room:"), "host_allowed {} must be room-scoped (got {})", a.id, a.queue_key);
        }
    }
    assert!(found > 0, "expected at least one host_allowed action");
}

#[test]
fn set_api_endpoint_is_not_host_allowed() {
    let reg = ActionRegistry::new();
    let a = reg.get("room.set_api_endpoint").unwrap();
    assert!(!a.host_allowed, "room.set_api_endpoint must not be host_allowed");
    assert!(a.audit, "room.set_api_endpoint must remain audited");
}

#[test]
fn queue_key_substitution() {
    let reg = ActionRegistry::new();
    let kick = *reg.get("room.kick").unwrap();
    let key = reg.resolve_queue_key(&kick, &j(r#"{ "room_id": "ABC" }"#));
    assert_eq!(key, "room:ABC");
    let missing = reg.resolve_queue_key(&kick, &j("{}"));
    assert_eq!(missing, "room:{room_id}");
    let pban = *reg.get("player.ban").unwrap();
    assert_eq!(reg.resolve_queue_key(&pban, &j(r#"{ "user_id": 42 }"#)), "user:42");
    assert_eq!(reg.resolve_queue_key(&pban, &j(r#"{ "user_id": "42" }"#)), "user:42");
}

#[test]
fn update_apply_is_reauth_long_running() {
    let reg = ActionRegistry::new();
    let a = reg.get("pmp.update.apply").unwrap();
    assert!(a.reauth);
    assert!(a.long_running);
    assert_eq!(a.permission, "server:update");
}

#[test]
fn critical_and_raw_actions_need_reauth() {
    let reg = ActionRegistry::new();
    assert!(reg.get("server.shutdown").unwrap().reauth);
    assert!(reg.get("pmp.cli.execute").unwrap().reauth);
    assert!(!reg.get("room.kick").unwrap().reauth);
}

#[test]
fn non_player_action_args_untouched() {
    let mut args = j(r#"{ "room_id": "ABC", "phira_id": 42 }"#);
    normalize_openuds_args("room.set_chart", &mut args);
    assert_eq!(as_int(args.get("phira_id")), Some(42));
    assert!(args.get("user_id").is_none());
}

#[test]
fn update_actions_are_refused_on_the_action_path() {
    let reg = ActionRegistry::new();
    let apply = reg.get("pmp.update.apply").unwrap();
    let e = authorize_action(apply, true, false).unwrap_err();
    assert_eq!(e.code, ErrorCode::LongRunningActionRequiresJob);
    let kick = reg.get("room.kick").unwrap();
    assert!(authorize_action(kick, true, false).is_ok());
    assert_eq!(authorize_action(kick, false, false).unwrap_err().code, ErrorCode::PermissionDenied);
}
