//! Small operations on text that the descriptions are built from.

use vstd::prelude::*;
use vstd::string::{StrSliceExecFns, StringExecFns};

verus! {

/// `String::push`, which appends one character to the end of the string.
pub assume_specification[ String::push ](text: &mut String, c: char)
    ensures
        final(text)@ == old(text)@.push(c),
;

/// `inner` between a pair of round brackets.
pub open spec fn in_parens(inner: Seq<char>) -> Seq<char> {
    seq!['('] + inner + seq![')']
}

/// Whether `text` is not empty and its last character is `c`.
pub open spec fn ends_with_char(text: Seq<char>, c: char) -> bool {
    text.len() > 0 && text.last() == c
}

/// Puts `inner` between round brackets.
pub fn parenthesized(inner: &str) -> (text: String)
    ensures
        text@ == in_parens(inner@),
{
    let mut text = String::new();
    text.push('(');
    text.append(inner);
    text.push(')');
    text
}

/// Tells whether `text` ends with the character `c`.
pub fn ends_with(text: &str, c: char) -> (found: bool)
    ensures
        found == ends_with_char(text@, c),
{
    let len: usize = text.unicode_len();
    len > 0 && text.get_char(len - 1) == c
}

} // verus!
