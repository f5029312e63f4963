use ppb_server::account::{presence_status, profile_body, root_probe, user_probe};
use ppb_server::auth::requests::UserSummary;
use ppb_server::auth::types::{AuthPrincipal, ClientType, PrincipalType};
use ppb_server::identities::credential_state_of;
use ppb_server::json::{int_json, json_eq, to_text, Json};
use ppb_server::middleware::csrf::format_uuid;
use ppb_server::text::{sort_strings, text_le_exec};

fn principal(kind: PrincipalType) -> AuthPrincipal {
    AuthPrincipal {
        sub: 0x0123_4567_89ab_cdef_0011_2233_4455_6677,
        sid: 0x67e5_5044_10b1_426f_9247_bb68_0e5f_e0c8,
        principal_type: kind,
        client_type: ClientType::Panel,
        request_id: "req".to_string(),
    }
}

fn strings(items: &[&str]) -> Vec<String> {
    items.iter().map(|s| s.to_string()).collect()
}

#[test]
fn uuid_text_matches_the_uuid_crate() {
    for id in [0u128, 1, u128::MAX, 0x67e5_5044_10b1_426f_9247_bb68_0e5f_e0c8] {
        assert_eq!(format_uuid(id), uuid::Uuid::from_u128(id).to_string());
    }
    assert_eq!(format_uuid(0x67e5_5044_10b1_426f_9247_bb68_0e5f_e0c8), "67e55044-10b1-426f-9247-bb680e5fe0c8");
}

#[test]
fn strings_sort_like_std() {
    let input = strings(&["rooms:write", "admin:*", "rooms:read", "é", "z", "admin", ""]);
    let mut expected = input.clone();
    expected.sort();
    assert_eq!(sort_strings(input), expected);
    assert!(text_le_exec("abc", "abd"));
    assert!(text_le_exec("ab", "abc"));
    assert!(!text_le_exec("abc", "ab"));
    assert!(text_le_exec("same", "same"));
}

#[test]
fn root_probe_reports_every_permission() {
    let j = root_probe(&principal(PrincipalType::Root), None, &strings(&["rooms", "live"]), "csrf");
    assert_eq!(
        to_text(&j),
        "{\"capabilities\":[\"rooms\",\"live\"],\"csrf_token\":\"csrf\",\"identities\":[],\"permissions\":[\"*:*\"],\
\"phira_credential\":null,\"principal\":{\"id\":null,\"type\":\"root\"},\"principal_type\":\"root\",\
\"session\":{\"client_type\":\"panel\",\"created_at\":null,\"sid\":\"67e55044-10b1-426f-9247-bb680e5fe0c8\"},\"user\":null}"
    );
}

#[test]
fn user_probe_sorts_permissions() {
    let user = UserSummary { id: 1, phira_id: 42, username: "neo".into(), avatar: "a.png".into() };
    let j = user_probe(
        &principal(PrincipalType::User),
        &user,
        Json::Array(Vec::new()),
        Json::Null,
        strings(&["rooms:write", "live:read", "rooms:read"]),
        Some("2024-01-01T00:00:00Z"),
        &Vec::new(),
        "t",
    );
    assert_eq!(
        to_text(&j),
        "{\"capabilities\":[],\"csrf_token\":\"t\",\"identities\":[],\"permissions\":[\"live:read\",\"rooms:read\",\"rooms:write\"],\
\"phira_credential\":null,\"principal\":{\"id\":\"00000000-0000-0000-0000-000000000001\",\"phira_id\":42,\"type\":\"user\"},\
\"principal_type\":\"user\",\"session\":{\"client_type\":\"panel\",\"created_at\":\"2024-01-01T00:00:00Z\",\
\"sid\":\"67e55044-10b1-426f-9247-bb680e5fe0c8\"},\"user\":{\"avatar\":\"a.png\",\"id\":\"00000000-0000-0000-0000-000000000001\",\
\"phira_id\":42,\"username\":\"neo\"}}"
    );
}

#[test]
fn presence_follows_room_membership() {
    let in_room = Json::Object(vec![("room_id".to_string(), Json::Str("r1".to_string()))]);
    let lobby = Json::Object(vec![("room_id".to_string(), Json::Str(String::new()))]);
    assert_eq!(presence_status(Some(&in_room)), Some("online"));
    assert_eq!(presence_status(Some(&lobby)), Some("offline"));
    assert_eq!(presence_status(Some(&Json::Null)), Some("offline"));
    assert_eq!(presence_status(None), None);
}

#[test]
fn profile_defaults_and_stats() {
    let empty = profile_body(None, None, None, None, None, None);
    assert_eq!(
        to_text(&empty),
        "{\"background_url\":\"\",\"bio\":\"\",\"friends_count\":null,\"online_status\":null,\
\"profile_visibility\":\"public\",\"rks\":null,\"stats\":null}"
    );
    let stats = Json::Object(vec![("rks".to_string(), int_json(15)), ("plays".to_string(), int_json(3))]);
    let full = profile_body(
        Some("hi".into()),
        Some("bg.png".into()),
        Some("friends".into()),
        Some(stats),
        Some("online"),
        Some(2),
    );
    let expected_stats = Json::Object(vec![("rks".to_string(), int_json(15)), ("plays".to_string(), int_json(3))]);
    assert!(json_eq(full.get("stats").unwrap(), &expected_stats));
    assert_eq!(full.get("rks").and_then(|v| v.as_i64()), Some(15));
    assert_eq!(full.get("profile_visibility").and_then(|v| v.as_str()), Some("friends"));
    assert_eq!(full.get("friends_count").and_then(|v| v.as_i64()), Some(2));
    assert_eq!(full.get("online_status").and_then(|v| v.as_str()), Some("online"));
}

#[test]
fn credential_state_without_row_is_none() {
    let none = credential_state_of(7, None);
    assert!(!none.has_credential);
    assert_eq!(none.state, "none");
    assert!(none.refresh_expires_at.is_none() && none.updated_at.is_none());
    let some = credential_state_of(7, Some((1000, "active".to_string(), 500)));
    assert!(some.has_credential);
    assert_eq!(some.state, "active");
    assert_eq!(some.refresh_expires_at, Some(1000));
    assert_eq!(some.updated_at, Some(500));
    assert_eq!(some.user_id, 7);
}
