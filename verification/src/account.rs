//! The signed-in user's own endpoints: rules shared by `/me/*`.

use vstd::prelude::*;
use crate::auth::requests::UserSummary;
use crate::auth::types::{AuthPrincipal, ClientType};
use crate::error::{ApiError, ErrorCode};
use crate::json::{
    Json, JsonV, deep_clone, entries_view, int_json, int_json_value, json_string, lemma_array_view, lemma_object_view,
};
use crate::middleware::csrf::{format_uuid, uuid_text};
use crate::text::{own, sort_strings, str_eq, strings_sorted};

verus! {

#[derive(Debug)]
/// Registration of a push endpoint.
pub struct PushEndpointBody {
    pub device_id: String,
    /// `web_push | fcm | wns`.
    pub channel: String,
    pub platform: String,
    /// The subscription material, encrypted at rest.
    pub subscription: Json,
}

/// The push channels a device may register.
pub open spec fn push_channel_known(channel: Seq<char>) -> bool {
    channel == "web_push"@ || channel == "fcm"@ || channel == "wns"@
}

/// Check the channel of a push registration.
pub fn check_push_channel(body: &PushEndpointBody) -> (r: Result<(), ApiError>)
    ensures
        r is Ok <==> push_channel_known(body.channel@),
        r matches Err(e) ==> e.code == ErrorCode::ValidationFailed && e.message@ == "channel must be web_push|fcm|wns"@,
{
    let c = body.channel.as_str();
    if str_eq(c, "web_push") || str_eq(c, "fcm") || str_eq(c, "wns") {
        Ok(())
    } else {
        Err(ApiError::validation("channel must be web_push|fcm|wns"))
    }
}

/// The `/me` endpoints serve users only: root is refused.
pub fn require_user(auth: &AuthPrincipal) -> (r: Result<(), ApiError>)
    ensures
        r is Ok <==> auth.principal_type != crate::auth::types::PrincipalType::Root,
        r matches Err(e) ==> e.code == ErrorCode::PermissionDenied,
{
    if auth.is_root() {
        Err(ApiError::permission_denied())
    } else {
        Ok(())
    }
}

// ── the session probe and the profile ─────────────────────────────────

/// A list of strings as a JSON array.
pub open spec fn strings_json(v: Seq<String>) -> JsonV {
    JsonV::Array(Seq::new(v.len(), |i: int| JsonV::Str(v[i]@)))
}

/// An optional text: the text, or `null`.
pub open spec fn optional_text(t: Option<Seq<char>>) -> JsonV {
    match t {
        Some(x) => JsonV::Str(x),
        None => JsonV::Null,
    }
}

/// The text of an optional string slice.
pub open spec fn str_opt(o: Option<&str>) -> Option<Seq<char>> {
    match o {
        Some(t) => Some(t@),
        None => None,
    }
}

/// What a probe reports of the session: its client, when it was created
/// (when known) and its id.
pub open spec fn session_json(sid: u128, client: ClientType, created_at: Option<Seq<char>>) -> JsonV {
    JsonV::Object(
        seq![
            ("client_type"@, JsonV::Str(client.text())),
            ("created_at"@, optional_text(created_at)),
            ("sid"@, JsonV::Str(uuid_text(sid))),
        ],
    )
}

/// The session probe of root: every permission, no user, no identities.
pub open spec fn root_probe_json(
    sid: u128,
    client: ClientType,
    created_at: Option<Seq<char>>,
    capabilities: Seq<String>,
    csrf_token: Seq<char>,
) -> JsonV {
    JsonV::Object(
        seq![
            ("capabilities"@, strings_json(capabilities)),
            ("csrf_token"@, JsonV::Str(csrf_token)),
            ("identities"@, JsonV::Array(Seq::empty())),
            ("permissions"@, JsonV::Array(seq![JsonV::Str("*:*"@)])),
            ("phira_credential"@, JsonV::Null),
            ("principal"@, JsonV::Object(seq![("id"@, JsonV::Null), ("type"@, JsonV::Str("root"@))])),
            ("principal_type"@, JsonV::Str("root"@)),
            ("session"@, session_json(sid, client, created_at)),
            ("user"@, JsonV::Null),
        ],
    )
}

/// The session probe of a user, with its permissions as given.
pub open spec fn user_probe_json(
    user: UserSummary,
    identities: JsonV,
    credential: JsonV,
    permissions: Seq<String>,
    sid: u128,
    client: ClientType,
    created_at: Option<Seq<char>>,
    capabilities: Seq<String>,
    csrf_token: Seq<char>,
) -> JsonV {
    JsonV::Object(
        seq![
            ("capabilities"@, strings_json(capabilities)),
            ("csrf_token"@, JsonV::Str(csrf_token)),
            ("identities"@, identities),
            ("permissions"@, strings_json(permissions)),
            ("phira_credential"@, credential),
            ("principal"@, JsonV::Object(
                seq![
                    ("id"@, JsonV::Str(uuid_text(user.id))),
                    ("phira_id"@, int_json_value(user.phira_id)),
                    ("type"@, JsonV::Str("user"@)),
                ],
            )),
            ("principal_type"@, JsonV::Str("user"@)),
            ("session"@, session_json(sid, client, created_at)),
            ("user"@, JsonV::Object(
                seq![
                    ("avatar"@, JsonV::Str(user.avatar@)),
                    ("id"@, JsonV::Str(uuid_text(user.id))),
                    ("phira_id"@, int_json_value(user.phira_id)),
                    ("username"@, JsonV::Str(user.username@)),
                ],
            )),
        ],
    )
}

fn strings_array(v: &Vec<String>) -> (j: Json)
    ensures
        j@ == strings_json(v@),
{
    let mut items: Vec<Json> = Vec::new();
    let mut i: usize = 0;
    while i < v.len()
        invariant
            i <= v@.len(),
            items@.len() == i,
            forall|k: int| 0 <= k < i ==> (#[trigger] items@[k])@ == JsonV::Str(v@[k]@),
        decreases v@.len() - i,
    {
        items.push(json_string(v[i].as_str()));
        i = i + 1;
    }
    let j = Json::Array(items);
    proof {
        lemma_array_view(j);
        assert(Seq::new(items@.len(), |k: int| items@[k]@) =~= Seq::new(v@.len(), |k: int| JsonV::Str(v@[k]@)));
    }
    j
}

fn optional_json(t: Option<&str>) -> (j: Json)
    ensures
        j@ == optional_text(str_opt(t)),
{
    match t {
        Some(x) => json_string(x),
        None => Json::Null,
    }
}

fn session_object(auth: &AuthPrincipal, created_at: Option<&str>) -> (j: Json)
    ensures
        j@ == session_json(auth.sid, auth.client_type, str_opt(created_at)),
{
    let mut es: Vec<(String, Json)> = Vec::new();
    es.push((own("client_type"), json_string(auth.client_type.as_str())));
    es.push((own("created_at"), optional_json(created_at)));
    es.push((own("sid"), json_string(format_uuid(auth.sid).as_str())));
    let j = Json::Object(es);
    proof {
        lemma_object_view(j);
        assert(entries_view(es@) =~= seq![
            ("client_type"@, JsonV::Str(auth.client_type.text())),
            ("created_at"@, optional_text(str_opt(created_at))),
            ("sid"@, JsonV::Str(uuid_text(auth.sid))),
        ]);
    }
    j
}

/// `GET /me` for root: the probe with every permission (`*:*`), the
/// session and the CSRF token bound to it.
pub fn root_probe(auth: &AuthPrincipal, created_at: Option<&str>, capabilities: &Vec<String>, csrf_token: &str) -> (j:
    Json)
    ensures
        j@ == root_probe_json(auth.sid, auth.client_type, str_opt(created_at), capabilities@, csrf_token@),
{
    let mut perms: Vec<Json> = Vec::new();
    perms.push(json_string("*:*"));
    let perms = Json::Array(perms);
    let mut principal: Vec<(String, Json)> = Vec::new();
    principal.push((own("id"), Json::Null));
    principal.push((own("type"), json_string("root")));
    let principal = Json::Object(principal);
    proof {
        lemma_array_view(perms);
        assert(perms@ == JsonV::Array(seq![JsonV::Str("*:*"@)])) by {
            assert(perms@->Array_0 =~= seq![JsonV::Str("*:*"@)]);
        }
        lemma_object_view(principal);
        assert(principal@ == JsonV::Object(seq![("id"@, JsonV::Null), ("type"@, JsonV::Str("root"@))])) by {
            assert(principal@->Object_0 =~= seq![("id"@, JsonV::Null), ("type"@, JsonV::Str("root"@))]);
        }
    }
    let mut es: Vec<(String, Json)> = Vec::new();
    es.push((own("capabilities"), strings_array(capabilities)));
    es.push((own("csrf_token"), json_string(csrf_token)));
    es.push((own("identities"), Json::Array(Vec::new())));
    es.push((own("permissions"), perms));
    es.push((own("phira_credential"), Json::Null));
    es.push((own("principal"), principal));
    es.push((own("principal_type"), json_string("root")));
    es.push((own("session"), session_object(auth, created_at)));
    es.push((own("user"), Json::Null));
    let j = Json::Object(es);
    proof {
        lemma_object_view(j);
        lemma_array_view(es@[2].1);
        assert(es@[2].1@ == JsonV::Array(Seq::empty())) by {
            assert(es@[2].1@->Array_0 =~= Seq::<JsonV>::empty());
        }
        assert(entries_view(es@) =~= root_probe_json(
            auth.sid,
            auth.client_type,
            str_opt(created_at),
            capabilities@,
            csrf_token@,
        )->Object_0);
    }
    j
}

fn user_object(user: &UserSummary, with_profile: bool) -> (j: Json)
    ensures
        with_profile ==> j@ == JsonV::Object(
            seq![
                ("avatar"@, JsonV::Str(user.avatar@)),
                ("id"@, JsonV::Str(uuid_text(user.id))),
                ("phira_id"@, int_json_value(user.phira_id)),
                ("username"@, JsonV::Str(user.username@)),
            ],
        ),
        !with_profile ==> j@ == JsonV::Object(
            seq![
                ("id"@, JsonV::Str(uuid_text(user.id))),
                ("phira_id"@, int_json_value(user.phira_id)),
                ("type"@, JsonV::Str("user"@)),
            ],
        ),
{
    let mut es: Vec<(String, Json)> = Vec::new();
    if with_profile {
        es.push((own("avatar"), json_string(user.avatar.as_str())));
    }
    es.push((own("id"), json_string(format_uuid(user.id).as_str())));
    es.push((own("phira_id"), int_json(user.phira_id)));
    if with_profile {
        es.push((own("username"), json_string(user.username.as_str())));
    } else {
        es.push((own("type"), json_string("user")));
    }
    let j = Json::Object(es);
    proof {
        lemma_object_view(j);
        if with_profile {
            assert(entries_view(es@) =~= seq![
                ("avatar"@, JsonV::Str(user.avatar@)),
                ("id"@, JsonV::Str(uuid_text(user.id))),
                ("phira_id"@, int_json_value(user.phira_id)),
                ("username"@, JsonV::Str(user.username@)),
            ]);
        } else {
            assert(entries_view(es@) =~= seq![
                ("id"@, JsonV::Str(uuid_text(user.id))),
                ("phira_id"@, int_json_value(user.phira_id)),
                ("type"@, JsonV::Str("user"@)),
            ]);
        }
    }
    j
}

/// `GET /me` for a user: the probe with the user, its identities and
/// credential state, its permissions in ascending order, the session and
/// the CSRF token bound to it.
pub fn user_probe(
    auth: &AuthPrincipal,
    user: &UserSummary,
    identities: Json,
    credential: Json,
    permissions: Vec<String>,
    created_at: Option<&str>,
    capabilities: &Vec<String>,
    csrf_token: &str,
) -> (j: Json)
    ensures
        exists|sorted: Seq<String>|
            strings_sorted(sorted) && sorted.to_multiset() == permissions@.to_multiset() && j@ == user_probe_json(
                *user,
                identities@,
                credential@,
                sorted,
                auth.sid,
                auth.client_type,
                str_opt(created_at),
                capabilities@,
                csrf_token@,
            ),
{
    let ghost ids = identities@;
    let ghost cred = credential@;
    let sorted = sort_strings(permissions);
    let mut es: Vec<(String, Json)> = Vec::new();
    es.push((own("capabilities"), strings_array(capabilities)));
    es.push((own("csrf_token"), json_string(csrf_token)));
    es.push((own("identities"), identities));
    es.push((own("permissions"), strings_array(&sorted)));
    es.push((own("phira_credential"), credential));
    es.push((own("principal"), user_object(user, false)));
    es.push((own("principal_type"), json_string("user")));
    es.push((own("session"), session_object(auth, created_at)));
    es.push((own("user"), user_object(user, true)));
    let j = Json::Object(es);
    proof {
        lemma_object_view(j);
        assert(entries_view(es@) =~= user_probe_json(
            *user,
            ids,
            cred,
            sorted@,
            auth.sid,
            auth.client_type,
            str_opt(created_at),
            capabilities@,
            csrf_token@,
        )->Object_0);
    }
    j
}

/// Presence from the game server's player info: `online` in a room,
/// `offline` otherwise; unknown without the info.
pub open spec fn presence_of(info: Option<JsonV>) -> Option<Seq<char>> {
    match info {
        None => None,
        Some(p) => Some(
            if (match p.get("room_id"@) {
                Some(JsonV::Str(r)) => r.len() > 0,
                _ => false,
            }) {
                "online"@
            } else {
                "offline"@
            },
        ),
    }
}

/// The presence of a player whose info was (or could not be) fetched.
pub fn presence_status(info: Option<&Json>) -> (r: Option<&'static str>)
    ensures
        str_opt(r) == presence_of(match info {
            Some(p) => Some(p@),
            None => None,
        }),
{
    match info {
        None => None,
        Some(p) => {
            let in_room = match p.get("room_id") {
                Some(v) => match v.as_str() {
                    Some(r) => r.unicode_len() > 0,
                    None => false,
                },
                None => false,
            };
            if in_room {
                Some("online")
            } else {
                Some("offline")
            }
        },
    }
}

/// The text of an optional string, or the empty text.
pub open spec fn text_or_empty(t: Option<String>) -> Seq<char> {
    match t {
        Some(x) => x@,
        None => Seq::empty(),
    }
}

/// `GET /me/profile`: the stored profile (empty texts and `public`
/// visibility when unset), the player's stats and `rks` from them, presence
/// and friend count; each of the last is `null` when unavailable.
pub open spec fn profile_json(
    bio: Option<String>,
    background: Option<String>,
    visibility: Option<String>,
    stats: Option<JsonV>,
    online_status: Option<Seq<char>>,
    friends_count: Option<i64>,
) -> JsonV {
    JsonV::Object(
        seq![
            ("background_url"@, JsonV::Str(text_or_empty(background))),
            ("bio"@, JsonV::Str(text_or_empty(bio))),
            ("friends_count"@, match friends_count {
                Some(n) => int_json_value(n),
                None => JsonV::Null,
            }),
            ("online_status"@, optional_text(online_status)),
            ("profile_visibility"@, JsonV::Str(
                match visibility {
                    Some(v) => v@,
                    None => "public"@,
                },
            )),
            ("rks"@, match stats {
                Some(v) => match v.get("rks"@) {
                    Some(r) => r,
                    None => JsonV::Null,
                },
                None => JsonV::Null,
            }),
            ("stats"@, match stats {
                Some(v) => v,
                None => JsonV::Null,
            }),
        ],
    )
}

/// Compose the community profile.
pub fn profile_body(
    bio: Option<String>,
    background: Option<String>,
    visibility: Option<String>,
    stats: Option<Json>,
    online_status: Option<&str>,
    friends_count: Option<i64>,
) -> (j: Json)
    ensures
        j@ == profile_json(
            bio,
            background,
            visibility,
            match stats {
                Some(v) => Some(v@),
                None => None,
            },
            str_opt(online_status),
            friends_count,
        ),
{
    let ghost st = match &stats {
        Some(v) => Some(v@),
        None => None,
    };
    let rks = match &stats {
        Some(v) => match v.get("rks") {
            Some(r) => deep_clone(r),
            None => Json::Null,
        },
        None => Json::Null,
    };
    let stats_json = match stats {
        Some(v) => v,
        None => Json::Null,
    };
    let mut es: Vec<(String, Json)> = Vec::new();
    es.push((own("background_url"), match &background {
        Some(b) => json_string(b.as_str()),
        None => Json::Str(String::new()),
    }));
    es.push((own("bio"), match &bio {
        Some(b) => json_string(b.as_str()),
        None => Json::Str(String::new()),
    }));
    es.push((own("friends_count"), match friends_count {
        Some(n) => int_json(n),
        None => Json::Null,
    }));
    es.push((own("online_status"), optional_json(online_status)));
    es.push((own("profile_visibility"), match &visibility {
        Some(v) => json_string(v.as_str()),
        None => json_string("public"),
    }));
    es.push((own("rks"), rks));
    es.push((own("stats"), stats_json));
    let j = Json::Object(es);
    proof {
        lemma_object_view(j);
        assert(entries_view(es@) =~= profile_json(
            bio,
            background,
            visibility,
            st,
            str_opt(online_status),
            friends_count,
        )->Object_0);
    }
    j
}

} // verus!
