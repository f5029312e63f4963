use ppb_server::config::values::{merge_objects, override_config_doc};
use ppb_server::deployment::{
    cap_text, check_command_argv, command_outcome, job_command, truncate_utf8, DeploymentAdapter, FixedCommand,
};
use ppb_server::json::{int_json, json_eq, Json};

fn owned(parts: &[&str]) -> Vec<String> {
    parts.iter().map(|p| p.to_string()).collect()
}

fn entries(items: Vec<(&str, Json)>) -> Vec<(String, Json)> {
    items.into_iter().map(|(k, v)| (k.to_string(), v)).collect()
}

fn num(i: i64) -> Json {
    int_json(i)
}

#[test]
fn command_argv_is_checked() {
    let ok = check_command_argv("PPB_BACKUP_CMD", owned(&["/usr/bin/backup", "--all"]));
    match ok {
        Ok(c) => {
            assert_eq!(c.argv, owned(&["/usr/bin/backup", "--all"]));
            assert!(c.cwd.is_none());
        }
        Err(e) => panic!("unexpected refusal: {e}"),
    }
    let empty = check_command_argv("PPB_BACKUP_CMD", Vec::new());
    assert_eq!(empty.unwrap_err(), "PPB_BACKUP_CMD must contain a valid executable and NUL-free argv");
    let blank = check_command_argv("X", owned(&["   ", "a"]));
    assert_eq!(blank.unwrap_err(), "X must contain a valid executable and NUL-free argv");
    let nul = check_command_argv("X", owned(&["run", "a\0b"]));
    assert!(nul.is_err());
}

#[test]
fn job_command_requires_configuration() {
    let mut adapter = DeploymentAdapter::disabled();
    let refused = job_command(&adapter, "backup");
    assert_eq!(refused.unwrap_err(), "CAPABILITY_NOT_SUPPORTED: backup deployment command is not configured");
    adapter.backup = Some(FixedCommand { argv: owned(&["backup.sh"]), cwd: None });
    assert_eq!(job_command(&adapter, "backup").unwrap().argv, owned(&["backup.sh"]));
    assert!(job_command(&adapter, "ppf.build").is_err());
    assert_eq!(
        job_command(&adapter, "other").unwrap_err(),
        "CAPABILITY_NOT_SUPPORTED: other deployment command is not configured"
    );
}

#[test]
fn text_is_capped_on_a_char_boundary() {
    assert_eq!(cap_text("hello", 5), "hello");
    assert_eq!(cap_text("hello", 3), "hel…");
    // "é" takes two bytes: with three bytes only "aé" fits.
    assert_eq!(cap_text("aéb", 3), "aé…");
    assert_eq!(cap_text("aéb", 2), "a…");
    assert_eq!(cap_text("", 0), "");
}

#[test]
fn output_bytes_become_capped_text() {
    assert_eq!(truncate_utf8(b"plain output", 100), "plain output");
    assert_eq!(truncate_utf8(b"abcdef", 4), "abcd…");
    assert_eq!(truncate_utf8(&[0x61, 0xff, 0x62], 100), "a\u{fffd}b");
}

#[test]
fn command_outcome_reports_success_and_failure() {
    let ok = command_outcome(true, "exit status: 0", Some(0), b"done", b"").unwrap();
    assert_eq!(ok.get("exit_code").and_then(|v| v.as_i64()), Some(0));
    assert_eq!(ok.get("stdout").and_then(|v| v.as_str()), Some("done"));
    assert_eq!(ok.get("stderr").and_then(|v| v.as_str()), Some(""));
    let failed = command_outcome(false, "exit status: 2", Some(2), b"out", b"broken").unwrap_err();
    assert_eq!(failed, "deployment command exited with exit status: 2: broken");
    let quiet = command_outcome(false, "exit status: 1", Some(1), b"only stdout", b"").unwrap_err();
    assert_eq!(quiet, "deployment command exited with exit status: 1: only stdout");
}

#[test]
fn merge_overlays_known_keys_only() {
    let mut base = entries(vec![
        ("server", Json::Object(entries(vec![("host", Json::Str("a".into())), ("port", num(1))]))),
        ("name", Json::Str("old".into())),
    ]);
    let over = entries(vec![
        ("server", Json::Object(entries(vec![("port", num(2)), ("extra", num(9))]))),
        ("name", Json::Str("new".into())),
        ("unknown", num(5)),
    ]);
    merge_objects(&mut base, &over);
    let expected = entries(vec![
        ("server", Json::Object(entries(vec![("host", Json::Str("a".into())), ("port", num(2))]))),
        ("name", Json::Str("new".into())),
    ]);
    assert!(json_eq(&Json::Object(base), &Json::Object(expected)));
}

#[test]
fn merge_replaces_non_objects_wholesale() {
    let mut base = entries(vec![("list", Json::Array(vec![num(1), num(2)])), ("flag", Json::Bool(true))]);
    let over = entries(vec![("list", Json::Object(Vec::new())), ("flag", Json::Bool(false))]);
    merge_objects(&mut base, &over);
    let expected = entries(vec![("list", Json::Object(Vec::new())), ("flag", Json::Bool(false))]);
    assert!(json_eq(&Json::Object(base), &Json::Object(expected)));
}

#[test]
fn override_doc_merges_object_overrides() {
    let doc = Json::Object(entries(vec![
        ("limits", Json::Object(entries(vec![("rps", num(10)), ("burst", num(20))]))),
        ("mode", Json::Str("prod".into())),
    ]));
    let over = Json::Object(entries(vec![
        ("limits", Json::Object(entries(vec![("burst", num(40))]))),
        ("other", num(1)),
    ]));
    let r = override_config_doc(doc, &over);
    let expected = Json::Object(entries(vec![
        ("limits", Json::Object(entries(vec![("rps", num(10)), ("burst", num(40))]))),
        ("mode", Json::Str("prod".into())),
    ]));
    assert!(json_eq(&r, &expected));
}

#[test]
fn override_doc_ignores_non_object_overrides() {
    let doc = Json::Object(entries(vec![("mode", Json::Str("prod".into()))]));
    let r = override_config_doc(doc, &Json::Array(vec![num(1)]));
    let expected = Json::Object(entries(vec![("mode", Json::Str("prod".into()))]));
    assert!(json_eq(&r, &expected));
    let r2 = override_config_doc(Json::Null, &Json::Object(entries(vec![("mode", num(1))])));
    assert!(json_eq(&r2, &Json::Null));
}
