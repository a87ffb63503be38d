//! Strings as sequences of characters.

use vstd::prelude::*;

verus! {

/// The characters of a string, in order.
pub fn chars_of(text: &str) -> (chars: Vec<char>)
    ensures
        chars@ == text@,
{
    let mut chars: Vec<char> = Vec::new();
    for c in it: text.chars()
        invariant
            it.seq() == text@,
            chars@ == text@.take(it.index() as int),
    {
        chars.push(c);
        assert(text@.take(it.index() + 1) =~= text@.take(it.index() as int).push(c));
    }
    assert(text@.take(text@.len() as int) =~= text@);
    chars
}

/// Whether `text` goes on with `prefix` from the position `at`.
pub open spec fn has_prefix_at(text: Seq<char>, at: int, prefix: Seq<char>) -> bool {
    &&& 0 <= at
    &&& at + prefix.len() <= text.len()
    &&& text.subrange(at, at + prefix.len()) == prefix
}

/// Whether `text` goes on with `prefix` from the position `at`.
pub fn starts_with_at(text: &Vec<char>, at: usize, prefix: &Vec<char>) -> (res: bool)
    ensures
        res == has_prefix_at(text@, at as int, prefix@),
{
    if at > text.len() || prefix.len() > text.len() - at {
        return false;
    }
    let mut i: usize = 0;
    while i < prefix.len()
        invariant
            i <= prefix.len(),
            at + prefix.len() <= text.len(),
            forall|j: int| 0 <= j < i ==> text@[at + j] == prefix@[j],
        decreases prefix.len() - i,
    {
        if text[at + i] != prefix[i] {
            assert(text@.subrange(at as int, at + prefix.len())[i as int] != prefix@[i as int]);
            return false;
        }
        i += 1;
    }
    assert(text@.subrange(at as int, at + prefix.len()) =~= prefix@);
    true
}

} // verus!
