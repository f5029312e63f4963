//! The action registry: the seeded set of actions, looked up by id.

use vstd::prelude::*;
use crate::actions::types::{ActionDescriptor, ActionSpec, Executor, Risk};
use crate::json::{Json, JsonV, json_compact, to_text};
use crate::text::{chars_of, contains_char, has_char, is_prefix, replace_all, replace_chars, str_eq, string_from_chars};

verus! {

pub open spec fn spec_action(
    id: Seq<char>,
    permission: Seq<char>,
    executor: Executor,
    risk: Risk,
    audit: bool,
    reauth: bool,
    host_allowed: bool,
    queue_key: Seq<char>,
    long_running: bool,
) -> ActionSpec {
    ActionSpec { id, permission, executor, risk, audit, reauth, host_allowed, queue_key, long_running }
}

/// The seeded actions, in seed order.
pub open spec fn action_seeds() -> Seq<ActionSpec> {
    seq![
        spec_action("room.kick"@, "room:kick"@, Executor::OpenUds, Risk::Medium, true, false, true, "room:{room_id}"@, false),
        spec_action("room.force_move"@, "room:move"@, Executor::OpenUds, Risk::Medium, true, false, true, "room:{room_id}"@, false),
        spec_action("room.start"@, "room:start"@, Executor::OpenUds, Risk::Medium, true, false, true, "room:{room_id}"@, false),
        spec_action("room.cancel_start"@, "room:start"@, Executor::OpenUds, Risk::Medium, true, false, true, "room:{room_id}"@, false),
        spec_action("room.close"@, "room:manage"@, Executor::OpenUds, Risk::High, true, false, false, "room:{room_id}"@, false),
        spec_action("room.set_chart"@, "room:config"@, Executor::OpenUds, Risk::Medium, true, false, true, "room:{room_id}"@, false),
        spec_action("room.lock"@, "room:config"@, Executor::OpenUds, Risk::Medium, true, false, true, "room:{room_id}"@, false),
        spec_action("room.cycle"@, "room:config"@, Executor::OpenUds, Risk::Medium, true, false, true, "room:{room_id}"@, false),
        spec_action("room.set_live"@, "room:config"@, Executor::OpenUds, Risk::Medium, true, false, true, "room:{room_id}"@, false),
        spec_action("room.set_hidden"@, "room:config"@, Executor::OpenUds, Risk::Medium, true, false, true, "room:{room_id}"@, false),
        spec_action("room.set_persistent"@, "room:config"@, Executor::OpenUds, Risk::Medium, true, false, true, "room:{room_id}"@, false),
        spec_action("room.set_api_endpoint"@, "room:config"@, Executor::OpenUds, Risk::High, true, false, false, "room:{room_id}"@, false),
        spec_action("room.set_host"@, "room:config"@, Executor::OpenUds, Risk::High, true, false, false, "room:{room_id}"@, false),
        spec_action("room.set_degraded"@, "room:config"@, Executor::OpenUds, Risk::High, true, false, false, "room:{room_id}"@, false),
        spec_action("room.ban"@, "room:blacklist"@, Executor::OpenUds, Risk::Medium, true, false, true, "room:{room_id}"@, false),
        spec_action("room.unban"@, "room:blacklist"@, Executor::OpenUds, Risk::Medium, true, false, true, "room:{room_id}"@, false),
        spec_action("room.whitelist_add"@, "room:whitelist"@, Executor::OpenUds, Risk::Medium, true, false, true, "room:{room_id}"@, false),
        spec_action("room.whitelist_remove"@, "room:whitelist"@, Executor::OpenUds, Risk::Medium, true, false, true, "room:{room_id}"@, false),
        spec_action("player.kick"@, "user:kick"@, Executor::OpenUds, Risk::Medium, true, false, false, "user:{user_id}"@, false),
        spec_action("player.ban"@, "user:ban"@, Executor::OpenUds, Risk::High, true, false, false, "user:{user_id}"@, false),
        spec_action("player.unban"@, "user:ban"@, Executor::OpenUds, Risk::Medium, true, false, false, "user:{user_id}"@, false),
        spec_action("player.ban_ip"@, "user:ban_ip"@, Executor::OpenUds, Risk::High, true, false, false, "server"@, false),
        spec_action("player.unban_ip"@, "user:ban_ip"@, Executor::OpenUds, Risk::High, true, false, false, "server"@, false),
        spec_action("broadcast.all"@, "broadcast:all"@, Executor::OpenUds, Risk::High, true, false, false, "server"@, false),
        spec_action("broadcast.room"@, "broadcast:room"@, Executor::OpenUds, Risk::Medium, true, false, false, "room:{room_id}"@, false),
        spec_action("broadcast.user"@, "broadcast:user"@, Executor::OpenUds, Risk::Medium, true, false, false, "server"@, false),
        spec_action("server.config_reload"@, "config:reload"@, Executor::OpenUds, Risk::High, true, false, false, "config:pmp"@, false),
        spec_action("server.roomcreation"@, "server:manage"@, Executor::OpenUds, Risk::High, true, false, false, "server"@, false),
        spec_action("server.shutdown"@, "server:shutdown"@, Executor::OpenUds, Risk::Critical, true, true, false, "server"@, false),
        spec_action("pmp.cli.execute"@, "pmp:cli"@, Executor::CliRaw, Risk::High, true, true, false, "server"@, false),
        spec_action("pmp.update.apply"@, "server:update"@, Executor::CliExecute, Risk::Critical, true, true, false, "server"@, true),
    ]
}

/// The models of a sequence of descriptors.
pub open spec fn descriptors(s: Seq<ActionDescriptor>) -> Seq<ActionSpec> {
    Seq::new(s.len(), |i: int| s[i]@)
}

/// The seeded action descriptors. `host_allowed` actions re-derive the real
/// room host at execution time; `{room_id}`/`{user_id}` in a queue key are
/// filled from the action's arguments.
pub fn seed_actions() -> (v: Vec<ActionDescriptor>)
    ensures
        descriptors(v@) == action_seeds(),
{
    let mut v: Vec<ActionDescriptor> = Vec::new();
    v.push(ActionDescriptor::new("room.kick", "room:kick", Executor::OpenUds, Risk::Medium, true, false, true, "room:{room_id}", false));
    v.push(ActionDescriptor::new("room.force_move", "room:move", Executor::OpenUds, Risk::Medium, true, false, true, "room:{room_id}", false));
    v.push(ActionDescriptor::new("room.start", "room:start", Executor::OpenUds, Risk::Medium, true, false, true, "room:{room_id}", false));
    v.push(ActionDescriptor::new("room.cancel_start", "room:start", Executor::OpenUds, Risk::Medium, true, false, true, "room:{room_id}", false));
    v.push(ActionDescriptor::new("room.close", "room:manage", Executor::OpenUds, Risk::High, true, false, false, "room:{room_id}", false));
    v.push(ActionDescriptor::new("room.set_chart", "room:config", Executor::OpenUds, Risk::Medium, true, false, true, "room:{room_id}", false));
    v.push(ActionDescriptor::new("room.lock", "room:config", Executor::OpenUds, Risk::Medium, true, false, true, "room:{room_id}", false));
    v.push(ActionDescriptor::new("room.cycle", "room:config", Executor::OpenUds, Risk::Medium, true, false, true, "room:{room_id}", false));
    v.push(ActionDescriptor::new("room.set_live", "room:config", Executor::OpenUds, Risk::Medium, true, false, true, "room:{room_id}", false));
    v.push(ActionDescriptor::new("room.set_hidden", "room:config", Executor::OpenUds, Risk::Medium, true, false, true, "room:{room_id}", false));
    v.push(ActionDescriptor::new("room.set_persistent", "room:config", Executor::OpenUds, Risk::Medium, true, false, true, "room:{room_id}", false));
    v.push(ActionDescriptor::new("room.set_api_endpoint", "room:config", Executor::OpenUds, Risk::High, true, false, false, "room:{room_id}", false));
    v.push(ActionDescriptor::new("room.set_host", "room:config", Executor::OpenUds, Risk::High, true, false, false, "room:{room_id}", false));
    v.push(ActionDescriptor::new("room.set_degraded", "room:config", Executor::OpenUds, Risk::High, true, false, false, "room:{room_id}", false));
    v.push(ActionDescriptor::new("room.ban", "room:blacklist", Executor::OpenUds, Risk::Medium, true, false, true, "room:{room_id}", false));
    v.push(ActionDescriptor::new("room.unban", "room:blacklist", Executor::OpenUds, Risk::Medium, true, false, true, "room:{room_id}", false));
    v.push(ActionDescriptor::new("room.whitelist_add", "room:whitelist", Executor::OpenUds, Risk::Medium, true, false, true, "room:{room_id}", false));
    v.push(ActionDescriptor::new("room.whitelist_remove", "room:whitelist", Executor::OpenUds, Risk::Medium, true, false, true, "room:{room_id}", false));
    v.push(ActionDescriptor::new("player.kick", "user:kick", Executor::OpenUds, Risk::Medium, true, false, false, "user:{user_id}", false));
    v.push(ActionDescriptor::new("player.ban", "user:ban", Executor::OpenUds, Risk::High, true, false, false, "user:{user_id}", false));
    v.push(ActionDescriptor::new("player.unban", "user:ban", Executor::OpenUds, Risk::Medium, true, false, false, "user:{user_id}", false));
    v.push(ActionDescriptor::new("player.ban_ip", "user:ban_ip", Executor::OpenUds, Risk::High, true, false, false, "server", false));
    v.push(ActionDescriptor::new("player.unban_ip", "user:ban_ip", Executor::OpenUds, Risk::High, true, false, false, "server", false));
    v.push(ActionDescriptor::new("broadcast.all", "broadcast:all", Executor::OpenUds, Risk::High, true, false, false, "server", false));
    v.push(ActionDescriptor::new("broadcast.room", "broadcast:room", Executor::OpenUds, Risk::Medium, true, false, false, "room:{room_id}", false));
    v.push(ActionDescriptor::new("broadcast.user", "broadcast:user", Executor::OpenUds, Risk::Medium, true, false, false, "server", false));
    v.push(ActionDescriptor::new("server.config_reload", "config:reload", Executor::OpenUds, Risk::High, true, false, false, "config:pmp", false));
    v.push(ActionDescriptor::new("server.roomcreation", "server:manage", Executor::OpenUds, Risk::High, true, false, false, "server", false));
    v.push(ActionDescriptor::new("server.shutdown", "server:shutdown", Executor::OpenUds, Risk::Critical, true, true, false, "server", false));
    v.push(ActionDescriptor::new("pmp.cli.execute", "pmp:cli", Executor::CliRaw, Risk::High, true, true, false, "server", false));
    v.push(ActionDescriptor::new("pmp.update.apply", "server:update", Executor::CliExecute, Risk::Critical, true, true, false, "server", true));
    assert(descriptors(v@) =~= action_seeds());
    v
}

/// A room host can only reach room-scoped, audited actions: every
/// `host_allowed` seed is audited and queued under a `room:` key.
pub proof fn lemma_host_allowed_actions_room_scoped()
    ensures
        forall|i: int|
            0 <= i < action_seeds().len() && (#[trigger] action_seeds()[i]).host_allowed ==> action_seeds()[i].audit
                && is_prefix("room:"@, action_seeds()[i].queue_key),
{
    reveal_strlit("room:");
    reveal_strlit("room:{room_id}");
    assert("room:{room_id}"@.subrange(0, 5) =~= "room:"@);
    assert(is_prefix("room:"@, "room:{room_id}"@));
}

/// Every seeded action records an audit entry.
pub proof fn lemma_seeds_audited()
    ensures
        forall|i: int| 0 <= i < action_seeds().len() ==> (#[trigger] action_seeds()[i]).audit,
{
}

/// The raw console and every critical action require a fresh reauth context.
pub proof fn lemma_raw_and_critical_actions_need_reauth()
    ensures
        forall|i: int|
            0 <= i < action_seeds().len() && ((#[trigger] action_seeds()[i]).executor == Executor::CliRaw
                || action_seeds()[i].risk == Risk::Critical) ==> action_seeds()[i].reauth,
{
}

/// Only long-running seeds skip waiting for completion, and each of them
/// needs reauth and runs a fixed CLI command rather than client text.
pub proof fn lemma_long_running_actions_fixed_and_reauthed()
    ensures
        forall|i: int|
            0 <= i < action_seeds().len() && (#[trigger] action_seeds()[i]).long_running ==> action_seeds()[i].reauth
                && action_seeds()[i].executor == Executor::CliExecute,
{
}

/// The first action with id `id`.
pub open spec fn lookup_action(s: Seq<ActionSpec>, id: Seq<char>) -> Option<ActionSpec>
    decreases s.len(),
{
    if s.len() == 0 {
        None
    } else if s[0].id == id {
        Some(s[0])
    } else {
        lookup_action(s.drop_first(), id)
    }
}

proof fn lemma_lookup_skip(s: Seq<ActionSpec>, id: Seq<char>, i: int)
    requires
        0 <= i <= s.len(),
        forall|j: int| 0 <= j < i ==> (#[trigger] s[j]).id != id,
    ensures
        lookup_action(s, id) == lookup_action(s.subrange(i, s.len() as int), id),
    decreases i,
{
    if i == 0 {
        assert(s.subrange(0, s.len() as int) =~= s);
    } else {
        assert(s[0].id != id);
        assert(s.drop_first().subrange(i - 1, s.drop_first().len() as int) =~= s.subrange(i, s.len() as int));
        assert forall|j: int| 0 <= j < i - 1 implies (#[trigger] s.drop_first()[j]).id != id by {
            assert(s.drop_first()[j] == s[j + 1]);
        }
        lemma_lookup_skip(s.drop_first(), id, i - 1);
    }
}

/// An id is found exactly when some action carries it.
pub proof fn lemma_lookup_found(s: Seq<ActionSpec>, id: Seq<char>)
    ensures
        lookup_action(s, id) is Some <==> exists|i: int| 0 <= i < s.len() && (#[trigger] s[i]).id == id,
        lookup_action(s, id) matches Some(a) ==> a.id == id && s.contains(a),
    decreases s.len(),
{
    if s.len() > 0 {
        lemma_lookup_found(s.drop_first(), id);
        if s[0].id != id {
            assert forall|i: int| 0 <= i < s.drop_first().len() implies #[trigger] s.drop_first()[i] == s[i + 1] by {}
            if exists|i: int| 0 <= i < s.len() && (#[trigger] s[i]).id == id {
                let i = choose|i: int| 0 <= i < s.len() && (#[trigger] s[i]).id == id;
                assert(s.drop_first()[i - 1].id == id);
            }
            if lookup_action(s, id) is Some {
                let a = lookup_action(s, id)->0;
                let k = choose|k: int| 0 <= k < s.drop_first().len() && s.drop_first()[k] == a;
                assert(s[k + 1] == a);
            }
        } else {
            assert(s[0] == s[0]);
            assert(s.contains(s[0]));
        }
    }
}

/// The position of `id` among the seeded actions (`-1` when absent).
pub open spec fn seed_position(id: Seq<char>) -> int {
    if id == "room.kick"@ {
        0
    } else if id == "room.force_move"@ {
        1
    } else if id == "room.start"@ {
        2
    } else if id == "room.cancel_start"@ {
        3
    } else if id == "room.close"@ {
        4
    } else if id == "room.set_chart"@ {
        5
    } else if id == "room.lock"@ {
        6
    } else if id == "room.cycle"@ {
        7
    } else if id == "room.set_live"@ {
        8
    } else if id == "room.set_hidden"@ {
        9
    } else if id == "room.set_persistent"@ {
        10
    } else if id == "room.set_api_endpoint"@ {
        11
    } else if id == "room.set_host"@ {
        12
    } else if id == "room.set_degraded"@ {
        13
    } else if id == "room.ban"@ {
        14
    } else if id == "room.unban"@ {
        15
    } else if id == "room.whitelist_add"@ {
        16
    } else if id == "room.whitelist_remove"@ {
        17
    } else if id == "player.kick"@ {
        18
    } else if id == "player.ban"@ {
        19
    } else if id == "player.unban"@ {
        20
    } else if id == "player.ban_ip"@ {
        21
    } else if id == "player.unban_ip"@ {
        22
    } else if id == "broadcast.all"@ {
        23
    } else if id == "broadcast.room"@ {
        24
    } else if id == "broadcast.user"@ {
        25
    } else if id == "server.config_reload"@ {
        26
    } else if id == "server.roomcreation"@ {
        27
    } else if id == "server.shutdown"@ {
        28
    } else if id == "pmp.cli.execute"@ {
        29
    } else if id == "pmp.update.apply"@ {
        30
    } else {
        -1
    }
}

/// No two seeded actions share an id: each id names its own position.
pub proof fn lemma_seed_ids_distinct()
    ensures
        forall|i: int| 0 <= i < action_seeds().len() ==> #[trigger] seed_position(action_seeds()[i].id) == i,
        forall|i: int, j: int| 0 <= i < j < action_seeds().len() ==> action_seeds()[i].id != action_seeds()[j].id,
{
    reveal_strlit("room.kick");
    reveal_strlit("room.force_move");
    reveal_strlit("room.start");
    reveal_strlit("room.cancel_start");
    reveal_strlit("room.close");
    reveal_strlit("room.set_chart");
    reveal_strlit("room.lock");
    reveal_strlit("room.cycle");
    reveal_strlit("room.set_live");
    reveal_strlit("room.set_hidden");
    reveal_strlit("room.set_persistent");
    reveal_strlit("room.set_api_endpoint");
    reveal_strlit("room.set_host");
    reveal_strlit("room.set_degraded");
    reveal_strlit("room.ban");
    reveal_strlit("room.unban");
    reveal_strlit("room.whitelist_add");
    reveal_strlit("room.whitelist_remove");
    reveal_strlit("player.kick");
    reveal_strlit("player.ban");
    reveal_strlit("player.unban");
    reveal_strlit("player.ban_ip");
    reveal_strlit("player.unban_ip");
    reveal_strlit("broadcast.all");
    reveal_strlit("broadcast.room");
    reveal_strlit("broadcast.user");
    reveal_strlit("server.config_reload");
    reveal_strlit("server.roomcreation");
    reveal_strlit("server.shutdown");
    reveal_strlit("pmp.cli.execute");
    reveal_strlit("pmp.update.apply");
        assert("room.force_move"@.len() != "room.kick"@.len());
    assert("room.kick"@.len() == 9);
    assert("room.force_move"@.len() == 15);
    assert("room.start"@.len() == 10);
    assert("room.cancel_start"@.len() == 17);
    assert("room.close"@.len() == 10);
    assert("room.set_chart"@.len() == 14);
    assert("room.lock"@.len() == 9);
    assert("room.cycle"@.len() == 10);
    assert("room.set_live"@.len() == 13);
    assert("room.set_hidden"@.len() == 15);
    assert("room.set_persistent"@.len() == 19);
    assert("room.set_api_endpoint"@.len() == 21);
    assert("room.set_host"@.len() == 13);
    assert("room.set_degraded"@.len() == 17);
    assert("room.ban"@.len() == 8);
    assert("room.unban"@.len() == 10);
    assert("room.whitelist_add"@.len() == 18);
    assert("room.whitelist_remove"@.len() == 21);
    assert("player.kick"@.len() == 11);
    assert("player.ban"@.len() == 10);
    assert("player.unban"@.len() == 12);
    assert("player.ban_ip"@.len() == 13);
    assert("player.unban_ip"@.len() == 15);
    assert("broadcast.all"@.len() == 13);
    assert("broadcast.room"@.len() == 14);
    assert("broadcast.user"@.len() == 14);
    assert("server.config_reload"@.len() == 20);
    assert("server.roomcreation"@.len() == 19);
    assert("server.shutdown"@.len() == 15);
    assert("pmp.cli.execute"@.len() == 15);
    assert("pmp.update.apply"@.len() == 16);
    assert("room.close"@[5] != "room.start"@[5]);
    assert("room.lock"@[5] != "room.kick"@[5]);
    assert("room.cycle"@[5] != "room.start"@[5]);
    assert("room.cycle"@[6] != "room.close"@[6]);
    assert("room.set_hidden"@[5] != "room.force_move"@[5]);
    assert("room.set_host"@[9] != "room.set_live"@[9]);
    assert("room.set_degraded"@[5] != "room.cancel_start"@[5]);
    assert("room.unban"@[5] != "room.start"@[5]);
    assert("room.unban"@[5] != "room.close"@[5]);
    assert("room.unban"@[5] != "room.cycle"@[5]);
    assert("room.whitelist_remove"@[5] != "room.set_api_endpoint"@[5]);
    assert("player.ban"@[0] != "room.start"@[0]);
    assert("player.ban"@[0] != "room.close"@[0]);
    assert("player.ban"@[0] != "room.cycle"@[0]);
    assert("player.ban"@[0] != "room.unban"@[0]);
    assert("player.ban_ip"@[0] != "room.set_live"@[0]);
    assert("player.ban_ip"@[0] != "room.set_host"@[0]);
    assert("player.unban_ip"@[0] != "room.force_move"@[0]);
    assert("player.unban_ip"@[0] != "room.set_hidden"@[0]);
    assert("broadcast.all"@[0] != "room.set_live"@[0]);
    assert("broadcast.all"@[0] != "room.set_host"@[0]);
    assert("broadcast.all"@[0] != "player.ban_ip"@[0]);
    assert("broadcast.room"@[0] != "room.set_chart"@[0]);
    assert("broadcast.user"@[0] != "room.set_chart"@[0]);
    assert("broadcast.user"@[10] != "broadcast.room"@[10]);
    assert("server.roomcreation"@[0] != "room.set_persistent"@[0]);
    assert("server.shutdown"@[0] != "room.force_move"@[0]);
    assert("server.shutdown"@[0] != "room.set_hidden"@[0]);
    assert("server.shutdown"@[0] != "player.unban_ip"@[0]);
    assert("pmp.cli.execute"@[0] != "room.force_move"@[0]);
    assert("pmp.cli.execute"@[0] != "room.set_hidden"@[0]);
    assert("pmp.cli.execute"@[1] != "player.unban_ip"@[1]);
    assert("pmp.cli.execute"@[0] != "server.shutdown"@[0]);
    assert(seed_position(action_seeds()[0].id) == 0);
    assert(seed_position(action_seeds()[1].id) == 1);
    assert(seed_position(action_seeds()[2].id) == 2);
    assert(seed_position(action_seeds()[3].id) == 3);
    assert(seed_position(action_seeds()[4].id) == 4);
    assert(seed_position(action_seeds()[5].id) == 5);
    assert(seed_position(action_seeds()[6].id) == 6);
    assert(seed_position(action_seeds()[7].id) == 7);
    assert(seed_position(action_seeds()[8].id) == 8);
    assert(seed_position(action_seeds()[9].id) == 9);
    assert(seed_position(action_seeds()[10].id) == 10);
    assert(seed_position(action_seeds()[11].id) == 11);
    assert(seed_position(action_seeds()[12].id) == 12);
    assert(seed_position(action_seeds()[13].id) == 13);
    assert(seed_position(action_seeds()[14].id) == 14);
    assert(seed_position(action_seeds()[15].id) == 15);
    assert(seed_position(action_seeds()[16].id) == 16);
    assert(seed_position(action_seeds()[17].id) == 17);
    assert(seed_position(action_seeds()[18].id) == 18);
    assert(seed_position(action_seeds()[19].id) == 19);
    assert(seed_position(action_seeds()[20].id) == 20);
    assert(seed_position(action_seeds()[21].id) == 21);
    assert(seed_position(action_seeds()[22].id) == 22);
    assert(seed_position(action_seeds()[23].id) == 23);
    assert(seed_position(action_seeds()[24].id) == 24);
    assert(seed_position(action_seeds()[25].id) == 25);
    assert(seed_position(action_seeds()[26].id) == 26);
    assert(seed_position(action_seeds()[27].id) == 27);
    assert(seed_position(action_seeds()[28].id) == 28);
    assert(seed_position(action_seeds()[29].id) == 29);
    assert(seed_position(action_seeds()[30].id) == 30);
    assert forall|i: int, j: int| 0 <= i < j < action_seeds().len() implies action_seeds()[i].id != action_seeds()[j].id by {
    assert(seed_position(action_seeds()[i].id) == i);
    assert(seed_position(action_seeds()[j].id) == j);
    }
}

/// Looking up a seeded action's id finds that very action.
pub proof fn lemma_seed_lookup_by_id()
    ensures
        forall|i: int| 0 <= i < action_seeds().len() ==> #[trigger] lookup_action(action_seeds(), action_seeds()[i].id)
            == Some(action_seeds()[i]),
{
    lemma_seed_ids_distinct();
    let s = action_seeds();
    assert forall|i: int| 0 <= i < s.len() implies #[trigger] lookup_action(s, s[i].id) == Some(s[i]) by {
        assert forall|j: int| 0 <= j < i implies (#[trigger] s[j]).id != s[i].id by {}
        lemma_lookup_skip(s, s[i].id, i);
        assert(s.subrange(i, s.len() as int)[0] == s[i]);
    }
}

#[derive(Debug)]
/// Registry of actions keyed by id.
pub struct ActionRegistry {
    actions: Vec<ActionDescriptor>,
}

impl View for ActionRegistry {
    type V = Seq<ActionSpec>;

    closed spec fn view(&self) -> Seq<ActionSpec> {
        descriptors(self.actions@)
    }
}

/// The text `args.user_id` is substituted with: a string as itself, any
/// other value as its JSON text.
pub open spec fn user_id_text(u: JsonV) -> Seq<char> {
    match u {
        JsonV::Str(s) => s,
        _ => json_compact(u),
    }
}

/// The queue key of an action once `{room_id}` (from `args.room_id` as a
/// string) and `{user_id}` (from `args.user_id`, see `user_id_text`) are
/// filled in; a key without `{` is fixed.
pub open spec fn resolved_queue_key(q: Seq<char>, args: JsonV) -> Seq<char> {
    if !has_char(q, '{') {
        q
    } else {
        let k1 = match args.get_str("room_id"@) {
            Some(r) => replace_all(q, "{room_id}"@, r),
            None => q,
        };
        match args.get("user_id"@) {
            Some(u) => replace_all(k1, "{user_id}"@, user_id_text(u)),
            None => k1,
        }
    }
}

impl ActionRegistry {
    /// An empty registry.
    pub fn empty() -> (r: ActionRegistry)
        ensures
            r@ == Seq::<ActionSpec>::empty(),
    {
        let r = ActionRegistry { actions: Vec::new() };
        assert(r@ =~= Seq::<ActionSpec>::empty());
        r
    }

    /// The registry of the seeded actions.
    pub fn new() -> (r: ActionRegistry)
        ensures
            r@ == action_seeds(),
    {
        ActionRegistry { actions: seed_actions() }
    }

    /// The action with id `id`, if any.
    pub fn get(&self, id: &str) -> (r: Option<&ActionDescriptor>)
        ensures
            match r {
                Some(d) => lookup_action(self@, id@) == Some(d@),
                None => lookup_action(self@, id@) is None,
            },
    {
        let ghost s = self@;
        let n = self.actions.len();
        let mut i: usize = 0;
        while i < n
            invariant
                n == self.actions@.len(),
                s == descriptors(self.actions@),
                i <= n,
                forall|j: int| 0 <= j < i ==> (#[trigger] s[j]).id != id@,
            decreases n - i,
        {
            if str_eq(self.actions[i].id, id) {
                proof {
                    lemma_lookup_skip(s, id@, i as int);
                    assert(s.subrange(i as int, s.len() as int)[0] == s[i as int]);
                }
                return Some(&self.actions[i]);
            }
            assert(s[i as int].id != id@);
            i = i + 1;
        }
        proof {
            lemma_lookup_skip(s, id@, n as int);
            assert(s.subrange(n as int, n as int).len() == 0);
        }
        None
    }

    /// Every registered action.
    pub fn all(&self) -> (r: Vec<ActionDescriptor>)
        ensures
            descriptors(r@) == self@,
    {
        let n = self.actions.len();
        let mut r: Vec<ActionDescriptor> = Vec::new();
        let mut i: usize = 0;
        while i < n
            invariant
                n == self.actions@.len(),
                i <= n,
                r@ == self.actions@.subrange(0, i as int),
            decreases n - i,
        {
            r.push(self.actions[i]);
            i = i + 1;
            assert(r@ =~= self.actions@.subrange(0, i as int));
        }
        assert(self.actions@.subrange(0, n as int) =~= self.actions@);
        assert(descriptors(r@) =~= self@);
        r
    }

    /// Resolve the concrete queue key by substituting `{room_id}` and
    /// `{user_id}` from `args`.
    pub fn resolve_queue_key(&self, action: &ActionDescriptor, args: &Json) -> (k: String)
        ensures
            k@ == resolved_queue_key(action.queue_key@, args@),
    {
        let q = chars_of(action.queue_key);
        if !contains_char(q.as_slice(), '{') {
            return string_from_chars(q.as_slice());
        }
        let k1 = match args.get_str("room_id") {
            Some(room_id) => {
                let p = chars_of("{room_id}");
                let r = chars_of(room_id);
                proof {
                    reveal_strlit("{room_id}");
                }
                replace_chars(q.as_slice(), p.as_slice(), r.as_slice())
            },
            None => q,
        };
        let k2 = match args.get("user_id") {
            Some(user_id) => {
                let p = chars_of("{user_id}");
                let r = match user_id {
                    Json::Str(s) => chars_of(s.as_str()),
                    _ => chars_of(to_text(user_id).as_str()),
                };
                proof {
                    reveal_strlit("{user_id}");
                }
                replace_chars(k1.as_slice(), p.as_slice(), r.as_slice())
            },
            None => k1,
        };
        string_from_chars(k2.as_slice())
    }
}

} // verus!
