//! How an action task is routed to PMP: typed OpenUDS commands (with player
//! targets normalized), server-fixed CLI commands, or the raw console.

use vstd::prelude::*;
use crate::actions::registry::{ActionRegistry, lookup_action};
use crate::actions::types::Executor;
use crate::error::entries_without_exec;
use crate::json::{Json, JsonNumber, JsonV, NumV, entries_view, entries_without, lemma_object_view, to_text, json_compact};
use crate::text::{append_str, byte_len, is_char_boundary, own, str_eq};
pub use crate::text::truncate;

verus! {

/// Actions whose player target arrives as `args.phira_id` and goes to PMP
/// as `user_id`.
pub open spec fn is_player_target(action: Seq<char>) -> bool {
    action == "room.kick"@ || action == "room.force_move"@ || action == "room.ban"@ || action == "room.unban"@
        || action == "room.whitelist_add"@ || action == "room.whitelist_remove"@
}

/// `json!(i)` for an `i64`.
pub open spec fn i64_json(i: i64) -> JsonV {
    if i >= 0 {
        JsonV::Number(NumV::PosInt(i as u64))
    } else {
        JsonV::Number(NumV::NegInt(i))
    }
}

/// The arguments sent to PMP: for a player-target action whose `phira_id`
/// is an integer and which has no `user_id`, `phira_id` becomes `user_id`.
pub open spec fn normalized_args(action: Seq<char>, args: JsonV) -> JsonV {
    if is_player_target(action) {
        match args {
            JsonV::Object(es) => match args.get("phira_id"@) {
                Some(v) => match v.as_i64() {
                    Some(p) => if args.get("user_id"@) is None {
                        JsonV::Object(entries_without(es, "phira_id"@).push(("user_id"@, i64_json(p))))
                    } else {
                        args
                    },
                    None => args,
                },
                None => args,
            },
            _ => args,
        }
    } else {
        args
    }
}

/// The server-fixed CLI text of a `CliExecute` action; clients never supply
/// command text for these.
pub open spec fn fixed_cli_text(action: Seq<char>, args: JsonV) -> Option<Seq<char>> {
    if action == "server.connections"@ {
        match args.get("enabled"@) {
            Some(v) => match v.as_bool() {
                Some(true) => Some("connections on"@),
                Some(false) => Some("connections off"@),
                None => Some("connections"@),
            },
            None => Some("connections"@),
        }
    } else {
        None
    }
}

fn is_player_target_exec(action: &str) -> (b: bool)
    ensures
        b == is_player_target(action@),
{
    str_eq(action, "room.kick") || str_eq(action, "room.force_move") || str_eq(action, "room.ban") || str_eq(
        action,
        "room.unban",
    ) || str_eq(action, "room.whitelist_add") || str_eq(action, "room.whitelist_remove")
}

/// Rewrites `args.phira_id` to `args.user_id` for player-target actions.
pub fn normalize_openuds_args(action: &str, args: &mut Json)
    ensures
        final(args)@ == normalized_args(action@, old(args)@),
{
    if !is_player_target_exec(action) {
        return;
    }
    let phira_id = match args.get("phira_id") {
        Some(v) => v.as_i64(),
        None => None,
    };
    match phira_id {
        Some(p) => {
            if args.get("user_id").is_some() {
                return;
            }
            let new_value = match &*args {
                Json::Object(es) => {
                    proof {
                        lemma_object_view(*args);
                    }
                    let mut kept = entries_without_exec(es, "phira_id");
                    let ghost before = entries_view(kept@);
                    let num = if p >= 0 {
                        JsonNumber::PosInt(p as u64)
                    } else {
                        JsonNumber::NegInt(p)
                    };
                    kept.push((own("user_id"), Json::Number(num)));
                    assert(entries_view(kept@) =~= before.push(("user_id"@, i64_json(p))));
                    let r = Json::Object(kept);
                    proof {
                        lemma_object_view(r);
                    }
                    Some(r)
                },
                _ => None,
            };
            match new_value {
                Some(v) => {
                    *args = v;
                },
                None => {},
            }
        },
        None => {},
    }
}

/// Server-fixed CLI mapping for `CliExecute` actions.
pub fn fixed_cli_command(action: &str, args: &Json) -> (r: Option<String>)
    ensures
        match r {
            Some(c) => fixed_cli_text(action@, args@) == Some(c@),
            None => fixed_cli_text(action@, args@) is None,
        },
{
    if !str_eq(action, "server.connections") {
        return None;
    }
    let enabled = match args.get("enabled") {
        Some(v) => v.as_bool(),
        None => None,
    };
    match enabled {
        Some(true) => Some(own("connections on")),
        Some(false) => Some(own("connections off")),
        None => Some(own("connections")),
    }
}

#[derive(Debug)]
/// What running an action task sends to PMP.
pub enum RunStep {
    /// An OpenUDS command named by the action id, with normalized args.
    OpenUds { command: String, args: Json },
    /// A `cli.execute` with this command text.
    Cli { command: String },
}

/// The CLI text a raw-console task carries (`args.command`, empty if absent).
pub open spec fn raw_command(args: JsonV) -> Seq<char> {
    match args.get_str("command"@) {
        Some(c) => c,
        None => Seq::empty(),
    }
}

/// Routes the task `action_id(args)` through the registry. Errors are the
/// executor's messages: unknown action, no fixed CLI mapping, empty raw
/// command, internal executor.
pub fn plan_run(registry: &ActionRegistry, action_id: &str, args: &Json) -> (r: Result<RunStep, String>)
    ensures
        match lookup_action(registry@, action_id@) {
            None => r matches Err(e) && e@ == "unknown action: "@ + action_id@,
            Some(a) => match a.executor {
                Executor::OpenUds => r matches Ok(RunStep::OpenUds { command, args: sent }) && command@ == action_id@
                    && sent@ == normalized_args(action_id@, args@),
                Executor::CliExecute => match fixed_cli_text(action_id@, args@) {
                    Some(c) => r matches Ok(RunStep::Cli { command }) && command@ == c,
                    None => r matches Err(e) && e@ == "no fixed CLI mapping for action "@ + action_id@,
                },
                Executor::CliRaw => if raw_command(args@).len() == 0 {
                    r matches Err(e) && e@ == "cli.execute requires args.command"@
                } else {
                    r matches Ok(RunStep::Cli { command }) && command@ == raw_command(args@)
                },
                Executor::Internal => r matches Err(e) && e@ == "internal executor not implemented in Phase A"@,
            },
        },
{
    let action = match registry.get(action_id) {
        Some(a) => a,
        None => {
            let mut e = own("unknown action: ");
            append_str(&mut e, action_id);
            return Err(e);
        },
    };
    match action.executor {
        Executor::OpenUds => {
            let mut sent = crate::json::deep_clone(args);
            normalize_openuds_args(action_id, &mut sent);
            Ok(RunStep::OpenUds { command: own(action_id), args: sent })
        },
        Executor::CliExecute => match fixed_cli_command(action_id, args) {
            Some(c) => Ok(RunStep::Cli { command: c }),
            None => {
                let mut e = own("no fixed CLI mapping for action ");
                append_str(&mut e, action_id);
                Err(e)
            },
        },
        Executor::CliRaw => {
            let cmd = match args.get_str("command") {
                Some(c) => own(c),
                None => String::new(),
            };
            if cmd.unicode_len() == 0 {
                Err(own("cli.execute requires args.command"))
            } else {
                Ok(RunStep::Cli { command: cmd })
            }
        },
        Executor::Internal => Err(own("internal executor not implemented in Phase A")),
    }
}

/// The run record of a finished task: status, result summary (compact JSON
/// of the reply) and error code (the error cut to 120 bytes).
pub fn run_outcome(result: &Result<Json, String>) -> (o: (&'static str, String, String))
    requires
        result matches Err(e) ==> byte_len(e@) <= 120 || is_char_boundary(e@, 120),
    ensures
        match result {
            Ok(v) => o.0@ == "succeeded"@ && o.1@ == json_compact(v@) && o.2@ == Seq::<char>::empty(),
            Err(e) => o.0@ == "failed"@ && o.1@ == Seq::<char>::empty() && (byte_len(e@) <= 120 ==> o.2@ == e@)
                && (byte_len(e@) > 120 ==> exists|k: int|
                0 <= k <= e@.len() && byte_len(#[trigger] e@.take(k)) == 120 && o.2@ == e@.take(k) + "…"@),
        },
{
    match result {
        Ok(v) => ("succeeded", to_text(v), String::new()),
        Err(e) => ("failed", String::new(), truncate(e.as_str(), 120)),
    }
}

} // verus!
