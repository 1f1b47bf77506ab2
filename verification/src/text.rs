//! Character-level edits of strings, for the text fields of the interface.

use vstd::prelude::*;

verus! {

/// Calls `String::push`, which appends one character. Claimed: the text
/// afterwards is the text before, followed by `c`.
#[verifier::external_body]
pub(crate) fn push_char(s: &mut String, c: char)
    ensures
        final(s)@ == old(s)@.push(c),
{
    s.push(c);
}

/// Calls `String::pop`, which removes the last character and returns it, or
/// returns `None` and leaves an empty string as it is. Claimed exactly that.
#[verifier::external_body]
pub(crate) fn pop_char(s: &mut String) -> (r: Option<char>)
    ensures
        old(s)@.len() == 0 ==> r is None && final(s)@ == old(s)@,
        old(s)@.len() > 0 ==> r == Some(old(s)@.last()) && final(s)@ == old(s)@.drop_last(),
{
    s.pop()
}

} // verus!
