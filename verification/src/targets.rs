//! The places of a template where a value is put in: an opening `{{`, then a
//! `-` or none, then blanks or none, then the name of the value, and after
//! the name a character that does not carry the name on.

use crate::text::{chars_of, found_at, occurs_at};
use vstd::prelude::*;

verus! {

/// Whether `c` is a space, a tab or the end of a line.
pub open spec fn is_blank(c: char) -> bool {
    c == ' ' || c == '\t' || c == '\n' || c == '\r'
}

/// Whether `c` may stand in the name of a value: an ASCII letter or digit,
/// or `_`.
pub open spec fn is_name_char(c: char) -> bool {
    'a' <= c <= 'z' || 'A' <= c <= 'Z' || '0' <= c <= '9' || c == '_'
}

/// The first place of `source` from `from` on that holds no blank; the end
/// of `source`, if blanks are all that is left.
pub open spec fn skip_blanks(source: Seq<char>, from: int) -> int
    decreases source.len() - from,
{
    if 0 <= from < source.len() && is_blank(source[from]) {
        skip_blanks(source, from + 1)
    } else {
        from
    }
}

/// Where the name stands in a target that opens at `at`: after the two
/// braces, after a `-` if one follows them, and after the blanks that follow.
pub open spec fn name_start(source: Seq<char>, at: int) -> int {
    if at + 2 < source.len() && source[at + 2] == '-' {
        skip_blanks(source, at + 3)
    } else {
        skip_blanks(source, at + 2)
    }
}

/// Whether a target for the value `key` opens at place `at` of `source`.
pub open spec fn target_at(source: Seq<char>, key: Seq<char>, at: int) -> bool {
    let start = name_start(source, at);
    let end = start + key.len();
    &&& 0 <= at
    &&& at + 2 <= source.len()
    &&& source[at] == '{'
    &&& source[at + 1] == '{'
    &&& occurs_at(key, source, start)
    &&& end < source.len()
    &&& !is_name_char(source[end])
}

/// Whether `source` has a target for the value `key`.
pub open spec fn has_target(source: Seq<char>, key: Seq<char>) -> bool {
    exists|at: int| target_at(source, key, at)
}

/// Whether `c` is a blank.
fn blank(c: char) -> (blank: bool)
    ensures
        blank == is_blank(c),
{
    c == ' ' || c == '\t' || c == '\n' || c == '\r'
}

/// Whether `c` may stand in the name of a value.
fn name_char(c: char) -> (name: bool)
    ensures
        name == is_name_char(c),
{
    ('a' <= c && c <= 'z') || ('A' <= c && c <= 'Z') || ('0' <= c && c <= '9') || c == '_'
}

/// Whether a target for `key` opens at place `at` of `source`.
fn target_opens_at(source: &Vec<char>, key: &Vec<char>, at: usize) -> (found: bool)
    ensures
        found == target_at(source@, key@, at as int),
{
    let len = source.len();
    if at >= len || len - at < 2 {
        return false;
    }
    if source[at] != '{' || source[at + 1] != '{' {
        return false;
    }
    let inner: usize = if len - at > 2 && source[at + 2] == '-' {
        at + 3
    } else {
        at + 2
    };
    let mut start: usize = inner;
    while start < len && blank(source[start])
        invariant
            inner <= start <= len,
            len == source.len(),
            skip_blanks(source@, start as int) == skip_blanks(source@, inner as int),
        decreases len - start,
    {
        start += 1;
    }
    assert(name_start(source@, at as int) == start);
    if !found_at(key, source, start) {
        return false;
    }
    let end = start + key.len();
    end < len && !name_char(source[end])
}

/// Whether the template `source` has a target for the value `key`.
pub fn template_has_target(source: &str, key: &str) -> (found: bool)
    ensures
        found == has_target(source@, key@),
{
    let within = chars_of(source);
    let wanted = chars_of(key);
    let mut at: usize = 0;
    while at < within.len()
        invariant
            at <= within.len(),
            within@ == source@,
            wanted@ == key@,
            forall|k: int| 0 <= k < at ==> !target_at(source@, key@, k),
        decreases within.len() - at,
    {
        if target_opens_at(&within, &wanted, at) {
            return true;
        }
        at += 1;
    }
    false
}

} // verus!
