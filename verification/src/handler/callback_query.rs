//! The payload of a button: how it is written, and how it is read.
//!
//! A payload is `v1:`, the name of an action, `:`, and what the action
//! needs: `del` and `genlink` take the key of a revision, `state` takes
//! `output` or `build`, `:`, and the key of a revision.

use crate::controller::EvalPageState;
use crate::decimal::{
    append_i64, int_text, law_parse_undoes_write, parse_i64_from, parsed_i64,
};
use crate::text::{chars_of, has_prefix_at, starts_with_at};
use vstd::prelude::*;

verus! {

/// What a button asks for.
#[derive(Debug, Clone, Copy, PartialEq, Eq, Structural)]
pub enum CallbackCommand {
    /// Delete the message of a result.
    Delete { revision_id: i64 },
    /// Show another stream of a result.
    State { page_state: EvalPageState, revision_id: i64 },
    /// Make the permalink of a revision.
    GenLink { revision_id: i64 },
}

/// What stands before the key of the revision in the payload of a command.
pub open spec fn callback_prefix(command: CallbackCommand) -> Seq<char> {
    match command {
        CallbackCommand::Delete { .. } => "v1:del:"@,
        CallbackCommand::State { page_state: EvalPageState::Output, .. } => "v1:state:output:"@,
        CallbackCommand::State { page_state: EvalPageState::Build, .. } => "v1:state:build:"@,
        CallbackCommand::GenLink { .. } => "v1:genlink:"@,
    }
}

/// The key of the revision that a command speaks of.
pub open spec fn callback_revision(command: CallbackCommand) -> i64 {
    match command {
        CallbackCommand::Delete { revision_id } => revision_id,
        CallbackCommand::State { revision_id, .. } => revision_id,
        CallbackCommand::GenLink { revision_id } => revision_id,
    }
}

/// The payload of a command.
pub open spec fn callback_text(command: CallbackCommand) -> Seq<char> {
    callback_prefix(command) + int_text(callback_revision(command) as int)
}

/// What follows `prefix` in `payload`, read as the key of a revision.
pub open spec fn key_after(payload: Seq<char>, prefix: Seq<char>) -> Option<i64> {
    parsed_i64(payload.skip(prefix.len() as int))
}

/// The command that a payload asks for, if it asks for one. The key may
/// be written in any way in which a 64-bit integer can be: with a sign, and
/// with leading zeros.
pub open spec fn parsed_callback(payload: Seq<char>) -> Option<CallbackCommand> {
    if has_prefix_at(payload, 0, "v1:del:"@) {
        match key_after(payload, "v1:del:"@) {
            Some(revision_id) => Some(CallbackCommand::Delete { revision_id }),
            None => None,
        }
    } else if has_prefix_at(payload, 0, "v1:state:output:"@) {
        match key_after(payload, "v1:state:output:"@) {
            Some(revision_id) => Some(
                CallbackCommand::State { page_state: EvalPageState::Output, revision_id },
            ),
            None => None,
        }
    } else if has_prefix_at(payload, 0, "v1:state:build:"@) {
        match key_after(payload, "v1:state:build:"@) {
            Some(revision_id) => Some(
                CallbackCommand::State { page_state: EvalPageState::Build, revision_id },
            ),
            None => None,
        }
    } else if has_prefix_at(payload, 0, "v1:genlink:"@) {
        match key_after(payload, "v1:genlink:"@) {
            Some(revision_id) => Some(CallbackCommand::GenLink { revision_id }),
            None => None,
        }
    } else {
        None
    }
}

/// Writes the payload of a command.
pub fn callback_payload(command: CallbackCommand) -> (payload: String)
    ensures
        payload@ == callback_text(command),
{
    let (prefix, revision_id) = match command {
        CallbackCommand::Delete { revision_id } => ("v1:del:", revision_id),
        CallbackCommand::State { page_state: EvalPageState::Output, revision_id } => (
            "v1:state:output:",
            revision_id,
        ),
        CallbackCommand::State { page_state: EvalPageState::Build, revision_id } => (
            "v1:state:build:",
            revision_id,
        ),
        CallbackCommand::GenLink { revision_id } => ("v1:genlink:", revision_id),
    };
    let mut payload = String::from_str(prefix);
    append_i64(&mut payload, revision_id);
    payload
}

/// The key of a revision that follows `prefix` in `payload`, if `payload`
/// begins with `prefix`.
fn key_behind(payload: &Vec<char>, prefix: &str) -> (res: Option<Option<i64>>)
    ensures
        res is Some <==> has_prefix_at(payload@, 0, prefix@),
        res matches Some(key) ==> key == key_after(payload@, prefix@),
{
    let prefix = chars_of(prefix);
    if starts_with_at(payload, 0, &prefix) {
        Some(parse_i64_from(payload, prefix.len()))
    } else {
        None
    }
}

/// Reads the payload of a button. A payload that asks for no command is
/// not an error: it is answered with nothing.
pub fn parse_callback(payload: &str) -> (command: Option<CallbackCommand>)
    ensures
        command == parsed_callback(payload@),
{
    let payload = chars_of(payload);
    if let Some(key) = key_behind(&payload, "v1:del:") {
        return match key {
            Some(revision_id) => Some(CallbackCommand::Delete { revision_id }),
            None => None,
        };
    }
    if let Some(key) = key_behind(&payload, "v1:state:output:") {
        return match key {
            Some(revision_id) => Some(
                CallbackCommand::State { page_state: EvalPageState::Output, revision_id },
            ),
            None => None,
        };
    }
    if let Some(key) = key_behind(&payload, "v1:state:build:") {
        return match key {
            Some(revision_id) => Some(
                CallbackCommand::State { page_state: EvalPageState::Build, revision_id },
            ),
            None => None,
        };
    }
    if let Some(key) = key_behind(&payload, "v1:genlink:") {
        return match key {
            Some(revision_id) => Some(CallbackCommand::GenLink { revision_id }),
            None => None,
        };
    }
    None
}

/// A text that begins with one of two texts that differ at a position
/// within both does not begin with the other.
proof fn lemma_prefixes_differ(text: Seq<char>, one: Seq<char>, other: Seq<char>, at: int)
    requires
        has_prefix_at(text, 0, one),
        0 <= at < one.len(),
        at < other.len(),
        one[at] != other[at],
    ensures
        !has_prefix_at(text, 0, other),
{
    if has_prefix_at(text, 0, other) {
        assert(text.subrange(0, one.len() as int)[at] == one[at]);
        assert(text.subrange(0, other.len() as int)[at] == other[at]);
    }
}

/// Reading undoes writing: the payload of a command asks for that command.
pub proof fn law_payload_is_read_back(command: CallbackCommand)
    ensures
        parsed_callback(callback_text(command)) == Some(command),
{
    reveal_strlit("v1:del:");
    reveal_strlit("v1:state:output:");
    reveal_strlit("v1:state:build:");
    reveal_strlit("v1:genlink:");
    let payload = callback_text(command);
    let prefix = callback_prefix(command);
    let key = int_text(callback_revision(command) as int);
    law_parse_undoes_write(callback_revision(command));
    assert(payload.subrange(0, prefix.len() as int) =~= prefix);
    assert(payload.skip(prefix.len() as int) =~= key);
    assert(has_prefix_at(payload, 0, prefix));
    match command {
        CallbackCommand::Delete { .. } => {},
        CallbackCommand::State { page_state: EvalPageState::Output, .. } => {
            lemma_prefixes_differ(payload, prefix, "v1:del:"@, 3);
        },
        CallbackCommand::State { page_state: EvalPageState::Build, .. } => {
            lemma_prefixes_differ(payload, prefix, "v1:del:"@, 3);
            lemma_prefixes_differ(payload, prefix, "v1:state:output:"@, 9);
        },
        CallbackCommand::GenLink { .. } => {
            lemma_prefixes_differ(payload, prefix, "v1:del:"@, 3);
            lemma_prefixes_differ(payload, prefix, "v1:state:output:"@, 3);
            lemma_prefixes_differ(payload, prefix, "v1:state:build:"@, 3);
        },
    }
}

} // verus!
