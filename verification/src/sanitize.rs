//! File names that are safe on common file systems.

use vstd::prelude::*;
use crate::text::push_char;

verus! {

/// The characters that may not appear in a file name.
pub open spec fn is_reserved(c: char) -> bool {
    c == '/' || c == '\\' || c == ':' || c == '*' || c == '?' || c == '"' || c == '<' || c == '>'
        || c == '|'
}

/// What a single character becomes in a file name.
pub open spec fn sanitized_char(c: char) -> char {
    if is_reserved(c) {
        '_'
    } else {
        c
    }
}

/// A string with every reserved character replaced by an underscore.
pub open spec fn sanitized(s: Seq<char>) -> Seq<char> {
    Seq::new(s.len(), |i: int| sanitized_char(s[i]))
}

/// Whether a string is free of reserved characters.
pub open spec fn is_safe(s: Seq<char>) -> bool {
    forall|i: int| 0 <= i < s.len() ==> !is_reserved(#[trigger] s[i])
}

/// Tells whether a character is reserved.
pub fn is_reserved_char(c: char) -> (b: bool)
    ensures
        b == is_reserved(c),
{
    c == '/' || c == '\\' || c == ':' || c == '*' || c == '?' || c == '"' || c == '<' || c == '>'
        || c == '|'
}

/// Maps a title to a file name: each reserved character becomes `_`, every
/// other character stays as it is, and nothing is added or removed.
pub fn sanitize_filename(name: &str) -> (out: String)
    ensures
        out@ == sanitized(name@),
        out@.len() == name@.len(),
        is_safe(out@),
        is_safe(name@) ==> out@ == name@,
{
    let mut out = String::new();
    let chars = name.chars();
    for c in it: chars
        invariant
            it.seq() == name@,
            out@ == sanitized(name@.take(it.index() as int)),
    {
        if is_reserved_char(c) {
            push_char(&mut out, '_');
        } else {
            push_char(&mut out, c);
        }
    }
    out
}

} // verus!
