use ppb_server::error::ErrorCode;
use ppb_server::join_intent::{online_event_phira_id, JoinIntentStore, MAX_TTL_SECS};
use ppb_server::json::{Json, JsonNumber};

fn store() -> JoinIntentStore {
    JoinIntentStore::new()
}

fn new_user() -> u128 {
    uuid::Uuid::new_v4().as_u128()
}

#[test]
fn create_and_list() {
    let mut s = store();
    let intent = s.create(new_user(), 42, "ABC", Some(300)).unwrap();
    assert_eq!(s.list_for_user(intent.user_id).len(), 1);
}

#[test]
fn rejects_bad_ttl() {
    let mut s = store();
    assert!(s.create(new_user(), 1, "ABC", Some(0)).is_err());
    assert!(s.create(new_user(), 1, "ABC", Some(MAX_TTL_SECS + 1)).is_err());
    assert!(s.create(new_user(), 1, "  ", Some(300)).is_err());
}

#[test]
fn match_online_consumes_and_force_moves() {
    let mut s = store();
    let uid = new_user();
    s.create(uid, 77, "ROOM1", Some(300)).unwrap();
    let intent = s.match_online(77).unwrap();
    assert_eq!(intent.room_id, "ROOM1");
    assert!(s.match_online(77).is_none(), "consumed exactly once");
}

#[test]
fn cancelled_intent_not_matched() {
    let mut s = store();
    let uid = new_user();
    let intent = s.create(uid, 9, "R", Some(300)).unwrap();
    s.cancel(uid, intent.id).unwrap();
    assert!(s.match_online(9).is_none());
}

#[test]
fn cancel_requires_owner() {
    let mut s = store();
    let uid = new_user();
    let intent = s.create(uid, 9, "R", Some(300)).unwrap();
    assert!(s.cancel(new_user(), intent.id).is_err());
    assert!(s.cancel(uid, intent.id).is_ok());
}

#[test]
fn expired_cleaned() {
    let mut s = store();
    let uid = new_user();
    s.create(uid, 5, "R", Some(MAX_TTL_SECS)).unwrap();
    let now = chrono::Utc::now().timestamp_millis();
    s.create_at(new_user(), uid, 6, "R", Some(1), now - 10_000).unwrap();
    let n = s.cleanup_expired();
    assert_eq!(n, 1);
}

#[test]
fn created_intent_is_trimmed_and_expires_after_ttl() {
    let mut s = store();
    let i = s.create_at(1, 2, 3, "  ROOM  ", None, 1_000).unwrap();
    assert_eq!(i.room_id, "ROOM");
    assert_eq!(i.expires_at, 1_000 + 300_000);
    assert_eq!(s.list_for_user_at(2, 1_000).len(), 1);
    assert_eq!(s.list_for_user_at(2, 301_000).len(), 0);
}

#[test]
fn expired_intent_is_consumed_but_not_handed_back() {
    let mut s = store();
    s.create_at(1, 2, 3, "R", Some(1), 0).unwrap();
    assert!(s.match_online_at(3, 5_000).is_none());
    assert!(s.match_online_at(3, 0).is_none());
}

#[test]
fn unknown_intent_cancel_is_not_found() {
    let mut s = store();
    let e = s.cancel(1, 99).unwrap_err();
    assert_eq!(e.code, ErrorCode::ResourceNotFound);
    assert_eq!(e.message, "resource not found: join intent");
}

#[test]
fn online_events_name_positive_phira_ids() {
    let data = Json::Object(vec![("user_id".to_string(), Json::Number(JsonNumber::PosInt(42)))]);
    assert_eq!(online_event_phira_id("user.online", &data), Some(42));
    assert_eq!(online_event_phira_id("user.offline", &data), None);
    let zero = Json::Object(vec![("user_id".to_string(), Json::Number(JsonNumber::PosInt(0)))]);
    assert_eq!(online_event_phira_id("user.online", &zero), None);
}

#[test]
fn a_new_intent_replaces_the_users_earlier_one() {
    let mut s = store();
    let u = new_user();
    let i1 = s.create(u, 1, "A", Some(300)).unwrap();
    let i2 = s.create(u, 2, "B", Some(300)).unwrap();
    assert_ne!(i1.id, i2.id);
    let listed = s.list_for_user(u);
    assert_eq!(listed.len(), 1);
    assert_eq!(listed[0].id, i2.id);
    assert!(s.match_online(1).is_none());
    assert_eq!(s.match_online(2).map(|i| i.id), Some(i2.id));
}
