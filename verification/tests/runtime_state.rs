use ppb_server::admin::{
    broadcast_command, coupon_create_gate, coupon_status, generate_code, normalize_code, redeem_gate,
    server_action_command, validate_redemption_action, BroadcastBody, BroadcastScope, CouponListParams,
};
use ppb_server::error::ErrorCode;
use ppb_server::json::{Json, JsonNumber};
use ppb_server::live::{jitter_mode, JitterMode, LiveSession, LiveWsParams, StreamFrame};
use ppb_server::metrics::{HeartbeatCache, Metrics};

fn obj(entries: Vec<(&str, Json)>) -> Json {
    Json::Object(entries.into_iter().map(|(k, v)| (k.to_string(), v)).collect())
}

fn s(t: &str) -> Json {
    Json::Str(t.to_string())
}

#[test]
fn snapshot_shape() {
    let m = Metrics::new();
    m.incr(&m.commands_total);
    let s = m.snapshot();
    assert_eq!(s.get("commands_total").and_then(|v| v.as_u64()), Some(1));
    assert_eq!(s.get("commands_failed").and_then(|v| v.as_u64()), Some(0));
}

#[test]
fn heartbeat_cache_returns_last_counts() {
    let mut c = HeartbeatCache::new();
    assert_eq!(c.get(), (0, 0, 0));
    c.update(3, 2, 1);
    c.update(5, 4, 3);
    assert_eq!(c.get(), (5, 4, 3));
}

#[test]
fn codes_are_normalized_and_generated() {
    assert_eq!(normalize_code("  abc-12 "), "ABC-12");
    let code = generate_code();
    assert_eq!(code.len(), 12);
    assert!(code.chars().all(|c| "ABCDEFGHJKLMNPQRSTUVWXYZ23456789".contains(c)));
}

#[test]
fn coupon_paging_clamps() {
    let p = CouponListParams { page: Some(-3), page_num: Some(1000) };
    assert_eq!(p.paging(), (1, 100));
    assert_eq!(CouponListParams { page: None, page_num: None }.paging(), (1, 50));
}

#[test]
fn redemption_actions_are_checked() {
    assert!(validate_redemption_action("account_unlock", &obj(vec![])).is_ok());
    assert_eq!(validate_redemption_action("account_unlock", &Json::Null).unwrap_err().message, "redemption args must be object");
    assert!(validate_redemption_action("account_role", &obj(vec![("group_name", s("vip"))])).is_ok());
    assert_eq!(validate_redemption_action("account_role", &obj(vec![])).unwrap_err().message, "group target required");
    assert!(validate_redemption_action("custom_hook", &obj(vec![("hook_id", s("notification.self"))])).is_ok());
    assert_eq!(
        validate_redemption_action("custom_hook", &obj(vec![("hook_id", s("shell"))])).unwrap_err().code,
        ErrorCode::RedemptionActionUnsupported
    );
    assert_eq!(validate_redemption_action("grant_admin", &obj(vec![])).unwrap_err().message, "unsupported redemption action");
}

#[test]
fn coupon_creation_rules() {
    assert_eq!(coupon_create_gate("manual", None, None, 0, false).unwrap(), 1);
    assert_eq!(coupon_create_gate("owner", None, None, 0, false).unwrap_err().message, "invalid holder mode");
    assert_eq!(coupon_create_gate("manual", Some(0), None, 0, false).unwrap_err().message, "max uses must be positive");
    assert_eq!(coupon_create_gate("manual", Some(2), Some(10), 10, false).unwrap_err().message, "expiry must be in future");
    assert_eq!(coupon_create_gate("creator", None, None, 0, true).unwrap_err().message, "root cannot be redemption holder");
}

#[test]
fn coupon_statuses_and_redeem_checks() {
    assert_eq!(coupon_status(true, None, 0, 0, 1), "revoked");
    assert_eq!(coupon_status(false, Some(5), 5, 0, 1), "expired");
    assert_eq!(coupon_status(false, None, 0, 1, 1), "redeemed");
    assert_eq!(coupon_status(false, Some(9), 5, 0, 1), "active");
    assert_eq!(redeem_gate(true, None, 0, 0, 1, "manual", None, 1).unwrap_err().code, ErrorCode::RedemptionCodeRevoked);
    assert_eq!(redeem_gate(false, Some(1), 1, 0, 1, "manual", None, 1).unwrap_err().code, ErrorCode::RedemptionCodeExpired);
    assert_eq!(redeem_gate(false, None, 0, 1, 1, "manual", None, 1).unwrap_err().code, ErrorCode::RedemptionCodeLimitReached);
    assert_eq!(redeem_gate(false, None, 0, 0, 1, "manual", Some(2), 1).unwrap_err().code, ErrorCode::PermissionDenied);
    assert_eq!(redeem_gate(false, None, 0, 0, 1, "creator", None, 1).unwrap_err().code, ErrorCode::PermissionDenied);
    assert!(redeem_gate(false, None, 0, 0, 1, "creator", Some(1), 1).is_ok());
}

#[test]
fn server_actions_map_to_commands() {
    let c = server_action_command("shutdown", &Json::Null).unwrap();
    assert_eq!(c.command, "server.shutdown");
    assert!(c.reauth);
    let r = server_action_command("roomcreation", &obj(vec![("enabled", Json::Bool(true))])).unwrap();
    assert_eq!(r.args.get("enabled").and_then(|v| v.as_bool()), Some(true));
    assert_eq!(server_action_command("reboot", &Json::Null).unwrap_err().message, "unknown server action: reboot");
}

#[test]
fn broadcasts_need_their_target() {
    let body = BroadcastBody { content: "hi".to_string(), room_id: None, user_id: Some(7) };
    let all = broadcast_command(BroadcastScope::All, &body).unwrap();
    assert_eq!(all.command, "broadcast.all");
    assert_eq!(all.args.get_str("message"), Some("hi"));
    assert_eq!(broadcast_command(BroadcastScope::Room, &body).unwrap_err().message, "room_id required for broadcast.room");
    let user = broadcast_command(BroadcastScope::User, &body).unwrap();
    assert_eq!(user.args.get("user_id").and_then(|v| v.as_i64()), Some(7));
}

fn frame(room: &str, stream: &str, seq: Option<u64>, round: Option<&str>, user: i64) -> StreamFrame {
    StreamFrame {
        room: Some(room.to_string()),
        stream: stream.to_string(),
        sequence: seq,
        round: round.map(|r| r.to_string()),
        user_id: user,
        timestamp: Json::Number(JsonNumber::PosInt(1)),
        frames: Json::Array(vec![]),
    }
}

#[test]
fn live_mode_defaults_to_low_latency() {
    assert_eq!(jitter_mode(&LiveWsParams { mode: Some("stable".to_string()) }), JitterMode::Stable);
    assert_eq!(jitter_mode(&LiveWsParams { mode: None }), JitterMode::LowLatency);
    assert_eq!(JitterMode::Stable.default_delay_ms(), 2000);
}

#[test]
fn live_session_buffers_and_flushes_room_frames() {
    let mut session = LiveSession::new("R1");
    assert!(session.on_frame(&frame("R2", "touches", Some(1), None, 5)).is_empty());
    let controls = session.on_frame(&frame("R1", "touches", Some(1), Some("r1"), 5));
    assert_eq!(controls.len(), 1);
    assert_eq!(controls[0].get_str("type"), Some("round_switch"));
    let gap = session.on_frame(&frame("R1", "touches", Some(4), Some("r1"), 5));
    assert_eq!(gap.len(), 1);
    assert_eq!(gap[0].get_str("reason"), Some("sequence_gap"));
    assert_eq!(gap[0].get("expected").and_then(|v| v.as_u64()), Some(2));
    let out = session.on_tick();
    assert_eq!(out.len(), 3);
    assert_eq!(out[0].get_str("type"), Some("touches"));
    assert_eq!(out[2].get_str("type"), Some("heartbeat"));
    assert_eq!(session.on_tick().len(), 1);
}

#[test]
fn live_session_player_filter() {
    let mut session = LiveSession::new("R1");
    session.on_client_message(&obj(vec![
        ("players", Json::Array(vec![Json::Number(JsonNumber::PosInt(7))])),
        ("type", s("set_players")),
    ]));
    session.on_frame(&frame("R1", "judges", None, None, 5));
    session.on_frame(&frame("R1", "judges", None, None, 7));
    let out = session.on_tick();
    assert_eq!(out.len(), 2);
    assert_eq!(out[0].get_str("type"), Some("judges"));
    assert_eq!(out[0].get("player").and_then(|v| v.as_i64()), Some(7));
}

#[test]
fn live_session_tracks_each_stream_apart() {
    let mut session = LiveSession::new("R1");
    assert!(session.on_frame(&frame("R1", "touches", Some(1), None, 5)).is_empty());
    assert!(session.on_frame(&frame("R1", "judges", Some(10), None, 5)).is_empty());
    assert!(session.on_frame(&frame("R1", "touches", Some(2), None, 5)).is_empty());
    assert!(session.on_frame(&frame("R1", "judges", Some(11), None, 5)).is_empty());
    let gap = session.on_frame(&frame("R1", "touches", Some(5), None, 5));
    assert_eq!(gap.len(), 1);
    assert_eq!(gap[0].get_str("reason"), Some("sequence_gap"));
    assert_eq!(gap[0].get("expected").and_then(|v| v.as_u64()), Some(3));
    let gap2 = session.on_frame(&frame("R1", "judges", Some(13), None, 5));
    assert_eq!(gap2.len(), 1);
    assert_eq!(gap2[0].get("expected").and_then(|v| v.as_u64()), Some(12));
}
