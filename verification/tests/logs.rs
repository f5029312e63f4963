use ppb_server::json::{Json, JsonNumber};
use ppb_server::logs::history::{history_lines_of, parse_log_frames};
use ppb_server::logs::parse::{log_id_for, parse_log_line, parse_log_line_with_seq};
use ppb_server::logs::translator::{translate, translate_pattern};

fn s(t: &str) -> Json {
    Json::Str(t.to_string())
}

#[test]
fn parses_array_and_object() {
    assert_eq!(parse_log_frames(&Json::Array(vec![s("a"), s("b")])), vec!["a", "b"]);
    assert_eq!(parse_log_frames(&Json::Object(vec![("line".to_string(), s("x"))])), vec!["x"]);
    assert!(parse_log_frames(&Json::Number(JsonNumber::PosInt(42))).is_empty());
}

#[test]
fn history_lines_from_pmp_shape() {
    let v = Json::Object(vec![
        ("count".to_string(), Json::Number(JsonNumber::PosInt(2))),
        ("lines".to_string(), Json::Array(vec![s("a"), s("b")])),
    ]);
    assert_eq!(history_lines_of(&v), vec!["a", "b"]);
}

#[test]
fn structures_unbracketed_line() {
    let e = parse_log_line("2026-08-13T10:00:00.123Z  INFO room::svc: created room ABC");
    assert_eq!(e.level, "info");
    assert_eq!(e.timestamp, "2026-08-13T10:00:00.123Z");
    assert!(e.message.contains("created room ABC"), "message: {}", e.message);
    assert_eq!(e.service, "pmp");
    assert!(e.log_id.starts_with("pmp-legacy-"));
}

#[test]
fn structures_bracketed_line() {
    let e = parse_log_line("[2026-08-13T10:00:00Z] [ERROR] something failed");
    assert_eq!(e.level, "error");
    assert_eq!(e.timestamp, "2026-08-13T10:00:00Z");
    assert_eq!(e.message, "something failed");
}

#[test]
fn keeps_plain_line_as_message() {
    let e = parse_log_line("just some text");
    assert_eq!(e.message, "just some text");
    assert_eq!(e.level, "info");
    assert_eq!(e.timestamp, "");
}

#[test]
fn log_id_is_stable() {
    assert_eq!(log_id_for("same", None), log_id_for("same", None));
    assert_ne!(log_id_for("same", None), log_id_for("other", None));
    assert_ne!(log_id_for("same", Some(1)), log_id_for("same", Some(2)));
}

#[test]
fn sequenced_line_ids_differ_by_sequence() {
    let a = parse_log_line_with_seq("x", Some(1));
    let b = parse_log_line_with_seq("x", Some(2));
    assert_ne!(a.log_id, b.log_id);
}

#[test]
fn known_codes_translate() {
    assert!(translate("PMP_OPENUDS_TIMEOUT").is_some());
    assert!(translate("PHIRA_REAUTH_REQUIRED").is_some());
    assert!(translate("NO_SUCH_CODE").is_none());
}

#[test]
fn pattern_fallback() {
    assert!(translate_pattern("connection refused to upstream").is_some());
    assert!(translate_pattern("normal operation").is_none());
}

#[test]
fn plain_line_with_a_run_of_spaces_keeps_its_level() {
    let e = parse_log_line("2026-08-13T10:00:00.123Z  ERROR room::svc: boom");
    assert_eq!(e.level, "error");
    assert_eq!(e.timestamp, "2026-08-13T10:00:00.123Z");
    assert_eq!(e.message, "room::svc: boom");
}

#[test]
fn whitespace_matches_std() {
    for cp in 0u32..=0x3100 {
        if let Some(c) = char::from_u32(cp) {
            assert_eq!(ppb_server::text::trim_chars(&[c]).is_empty(), c.is_whitespace(), "U+{cp:04X}");
        }
    }
}

#[test]
fn json_log_lines_are_read_by_their_fields() {
    let e = parse_log_line(
        r#"  {"timestamp":"2026-08-13T10:00:00Z","level":"WARN","fields":{"message":"slow","event":"tick","room_id":"R1","user_id":"7"}}  "#,
    );
    assert_eq!(e.timestamp, "2026-08-13T10:00:00Z");
    assert_eq!(e.level, "warn");
    assert_eq!(e.message, "slow");
    assert_eq!(e.event.as_deref(), Some("tick"));
    assert_eq!(e.room_uuid.as_deref(), Some("R1"));
    assert_eq!(e.user_id.as_deref(), Some("7"));
    assert_eq!(e.service, "pmp");
    let plain = parse_log_line("{not json");
    assert_eq!(plain.message, "{not json");
    assert_eq!(plain.level, "info");
    assert!(plain.event.is_none());
}
