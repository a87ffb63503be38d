//! The stream of updates from the chat: where to go on reading, and which
//! messages are submissions.

use crate::text::{chars_of, has_prefix_at, starts_with_at};
use vstd::prelude::*;

verus! {

/// Whether a character is white space, as `char::is_whitespace` says.
pub uninterp spec fn is_whitespace(c: char) -> bool;

/// Calls `char::is_whitespace`, which says whether a character has the
/// Unicode property White_Space. The contract gives that answer a name and
/// says nothing of which characters have the property.
#[verifier::external_body]
fn char_is_whitespace(c: char) -> (res: bool)
    ensures
        res == is_whitespace(c),
{
    c.is_whitespace()
}

/// How many characters of white space a text begins with.
pub open spec fn leading_whitespace(text: Seq<char>) -> nat
    decreases text.len(),
{
    if text.len() > 0 && is_whitespace(text[0]) {
        1 + leading_whitespace(text.skip(1))
    } else {
        0
    }
}

/// How many characters of white space a text ends with.
pub open spec fn trailing_whitespace(text: Seq<char>) -> nat
    decreases text.len(),
{
    if text.len() > 0 && is_whitespace(text.last()) {
        1 + trailing_whitespace(text.drop_last())
    } else {
        0
    }
}

/// A text without the white space that it begins with.
pub open spec fn trimmed_start(text: Seq<char>) -> Seq<char> {
    text.skip(leading_whitespace(text) as int)
}

/// A text without the white space that it begins and ends with.
pub open spec fn trimmed(text: Seq<char>) -> Seq<char> {
    let rest = trimmed_start(text);
    rest.take(rest.len() - trailing_whitespace(rest))
}

/// The word that makes a message a submission.
pub open spec fn command_word() -> Seq<char> {
    "/bval"@
}

/// The code of a submission: a message is one if, white space around it
/// apart, it begins with the command word; the code is what follows the
/// word, without the white space that it begins with.
pub open spec fn submitted_code(text: Seq<char>) -> Option<Seq<char>> {
    let message = trimmed(text);
    if has_prefix_at(message, 0, command_word()) {
        Some(trimmed_start(message.skip(command_word().len() as int)))
    } else {
        None
    }
}

/// The first position from `from` on, and before `to`, that holds no
/// white space; `to` if there is none.
fn skip_whitespace(text: &Vec<char>, from: usize, to: usize) -> (at: usize)
    requires
        from <= to <= text.len(),
    ensures
        from <= at <= to,
        at - from == leading_whitespace(text@.subrange(from as int, to as int)),
{
    let mut at: usize = from;
    while at < to && char_is_whitespace(text[at])
        invariant
            from <= at <= to <= text.len(),
            leading_whitespace(text@.subrange(from as int, to as int)) == (at - from)
                + leading_whitespace(text@.subrange(at as int, to as int)),
        decreases to - at,
    {
        proof {
            let rest = text@.subrange(at as int, to as int);
            assert(rest[0] == text@[at as int]);
            assert(rest.skip(1) =~= text@.subrange(at + 1, to as int));
        }
        at += 1;
    }
    proof {
        let rest = text@.subrange(at as int, to as int);
        if at < to {
            assert(rest[0] == text@[at as int]);
        }
    }
    at
}

/// The position after the last character from `from` on, and before `to`,
/// that is no white space; `from` if there is none.
fn drop_whitespace(text: &Vec<char>, from: usize, to: usize) -> (at: usize)
    requires
        from <= to <= text.len(),
    ensures
        from <= at <= to,
        to - at == trailing_whitespace(text@.subrange(from as int, to as int)),
{
    let mut at: usize = to;
    while at > from && char_is_whitespace(text[at - 1])
        invariant
            from <= at <= to <= text.len(),
            trailing_whitespace(text@.subrange(from as int, to as int)) == (to - at)
                + trailing_whitespace(text@.subrange(from as int, at as int)),
        decreases at - from,
    {
        proof {
            let rest = text@.subrange(from as int, at as int);
            assert(rest.last() == text@[at - 1]);
            assert(rest.drop_last() =~= text@.subrange(from as int, at - 1));
        }
        at -= 1;
    }
    proof {
        let rest = text@.subrange(from as int, at as int);
        if at > from {
            assert(rest.last() == text@[at - 1]);
        }
    }
    at
}

/// Reads a message of the chat: the code of the submission if the message
/// is one, nothing if it is not.
pub fn extract_command(text: &str) -> (code: Option<String>)
    ensures
        match code {
            Some(code) => submitted_code(text@) == Some(code@),
            None => submitted_code(text@) is None,
        },
{
    let chars = chars_of(text);
    let word = chars_of("/bval");
    let begin = skip_whitespace(&chars, 0, chars.len());
    let end = drop_whitespace(&chars, begin, chars.len());
    proof {
        assert(chars@.subrange(0, chars.len() as int) =~= chars@);
        assert(trimmed_start(chars@) =~= chars@.subrange(begin as int, chars.len() as int));
        assert(trimmed(chars@) =~= chars@.subrange(begin as int, end as int));
    }
    let ghost message = chars@.subrange(begin as int, end as int);
    if word.len() <= end - begin && starts_with_at(&chars, begin, &word) {
        let after = begin + word.len();
        let code_begin = skip_whitespace(&chars, after, end);
        proof {
            assert(message.subrange(0, word.len() as int) =~= chars@.subrange(
                begin as int,
                begin + word.len(),
            ));
            assert(message.skip(word.len() as int) =~= chars@.subrange(after as int, end as int));
            assert(trimmed_start(message.skip(word.len() as int)) =~= chars@.subrange(
                code_begin as int,
                end as int,
            ));
            assert(text@.subrange(code_begin as int, end as int) == chars@.subrange(
                code_begin as int,
                end as int,
            ));
        }
        Some(String::from_str(text.substring_char(code_begin, end)))
    } else {
        proof {
            if has_prefix_at(message, 0, word@) {
                assert(message.subrange(0, word.len() as int) =~= chars@.subrange(
                    begin as int,
                    begin + word.len(),
                ));
            }
        }
        None
    }
}

/// The position from which the updates are read on, once the update
/// `update_id` has been seen: behind it, and never back.
pub open spec fn offset_after(current: Option<i64>, update_id: i64) -> int {
    match current {
        Some(offset) if offset > update_id + 1 => offset as int,
        _ => update_id + 1,
    }
}

/// Moves the position from which the updates are read on behind an update
/// that has been seen.
pub fn next_update_offset(current: Option<i64>, update_id: i64) -> (next: Option<i64>)
    requires
        update_id < i64::MAX,
    ensures
        next matches Some(offset) && offset == offset_after(current, update_id),
{
    let next_offset = update_id + 1;
    match current {
        Some(offset) => if offset > next_offset {
            Some(offset)
        } else {
            Some(next_offset)
        },
        None => Some(next_offset),
    }
}

} // verus!
