//! Text as sequences of characters: command words, joining, and ASCII case.

use vstd::prelude::*;
use vstd::string::*;

verus! {

/// The text of each word of `words`, in order.
pub open spec fn tokens(words: Seq<&str>) -> Seq<Seq<char>> {
    Seq::new(words.len(), |i: int| words[i]@)
}

/// The text of each string of `words`, in order.
pub open spec fn texts(words: Seq<String>) -> Seq<Seq<char>> {
    Seq::new(words.len(), |i: int| words[i]@)
}

/// `parts` written one after another, with `sep` between neighbours and
/// nowhere else.
pub open spec fn join(parts: Seq<Seq<char>>, sep: Seq<char>) -> Seq<char>
    decreases parts.len(),
{
    if parts.len() == 0 {
        Seq::empty()
    } else if parts.len() == 1 {
        parts[0]
    } else {
        join(parts.drop_last(), sep) + sep + parts.last()
    }
}

/// `c` with an ASCII capital replaced by its small letter; every other
/// character is left as it is.
pub open spec fn lowercase(c: char) -> char {
    if 'A' <= c <= 'Z' {
        ((c as u8) + 32) as char
    } else {
        c
    }
}

/// `s` with each character replaced by its `lowercase`.
pub open spec fn lowercased(s: Seq<char>) -> Seq<char> {
    Seq::new(s.len(), |i: int| lowercase(s[i]))
}

/// Whether `needle` stands in `hay` from place `at` on.
pub open spec fn occurs_at(needle: Seq<char>, hay: Seq<char>, at: int) -> bool {
    &&& 0 <= at
    &&& at + needle.len() <= hay.len()
    &&& hay.subrange(at, at + needle.len()) == needle
}

/// Whether `needle` stands somewhere in `hay`.
pub open spec fn occurs_in(needle: Seq<char>, hay: Seq<char>) -> bool {
    exists|at: int| occurs_at(needle, hay, at)
}

/// Whether `hay` begins with `prefix`.
pub open spec fn begins_with(hay: Seq<char>, prefix: Seq<char>) -> bool {
    occurs_at(prefix, hay, 0)
}

/// Joins `words` with `sep`.
pub fn join_words(words: &Vec<&str>, sep: &str) -> (line: String)
    ensures
        line@ == join(tokens(words@), sep@),
{
    let mut line = String::new();
    let mut i: usize = 0;
    while i < words.len()
        invariant
            i <= words.len(),
            line@ == join(tokens(words@).take(i as int), sep@),
        decreases words.len() - i,
    {
        let ghost after = tokens(words@).take(i + 1);
        assert(after.drop_last() =~= tokens(words@).take(i as int));
        if i > 0 {
            line.append(sep);
        }
        line.append(words[i]);
        assert(line@ =~= join(after, sep@));
        i += 1;
    }
    assert(tokens(words@).take(i as int) =~= tokens(words@));
    line
}

/// The characters of `s`.
pub fn chars_of(s: &str) -> (chars: Vec<char>)
    ensures
        chars@ == s@,
{
    let mut chars: Vec<char> = Vec::new();
    for c in it: s.chars()
        invariant
            chars@ == it.seq().take(it.index() as int),
    {
        chars.push(c);
    }
    chars
}

/// The `lowercase` of `c`.
pub fn to_lower(c: char) -> (lower: char)
    ensures
        lower == lowercase(c),
{
    if 'A' <= c && c <= 'Z' {
        ((c as u8) + 32) as char
    } else {
        c
    }
}

/// The characters of `s`, lowercased.
pub fn lowered(s: &str) -> (chars: Vec<char>)
    ensures
        chars@ == lowercased(s@),
{
    let mut chars: Vec<char> = Vec::new();
    for c in it: s.chars()
        invariant
            chars@ == lowercased(it.seq().take(it.index() as int)),
    {
        chars.push(to_lower(c));
        assert(chars@ =~= lowercased(it.seq().take(it.index() + 1)));
    }
    chars
}

/// Whether `chars` spells `word`.
pub fn spells(chars: &Vec<char>, word: &str) -> (same: bool)
    ensures
        same == (chars@ == word@),
{
    let wanted = chars_of(word);
    if chars.len() != wanted.len() {
        return false;
    }
    let mut i: usize = 0;
    while i < chars.len()
        invariant
            i <= chars.len(),
            chars.len() == wanted.len(),
            wanted@ == word@,
            forall|k: int| 0 <= k < i ==> chars@[k] == wanted@[k],
        decreases chars.len() - i,
    {
        if chars[i] != wanted[i] {
            assert(chars@[i as int] != word@[i as int]);
            return false;
        }
        i += 1;
    }
    assert(chars@ =~= wanted@);
    true
}

/// Whether `needle` stands in `hay` from place `at` on.
pub fn found_at(needle: &Vec<char>, hay: &Vec<char>, at: usize) -> (found: bool)
    ensures
        found == occurs_at(needle@, hay@, at as int),
{
    if at > hay.len() || needle.len() > hay.len() - at {
        return false;
    }
    let mut i: usize = 0;
    while i < needle.len()
        invariant
            i <= needle.len(),
            at + needle.len() <= hay.len(),
            forall|k: int| 0 <= k < i ==> hay@[at + k] == needle@[k],
        decreases needle.len() - i,
    {
        if hay[at + i] != needle[i] {
            assert(hay@.subrange(at as int, at + needle.len())[i as int] != needle@[i as int]);
            return false;
        }
        i += 1;
    }
    assert(hay@.subrange(at as int, at + needle.len()) =~= needle@);
    true
}

/// Whether `needle` stands somewhere in `hay`.
pub fn contains(hay: &str, needle: &str) -> (found: bool)
    ensures
        found == occurs_in(needle@, hay@),
{
    let within = chars_of(hay);
    let wanted = chars_of(needle);
    if wanted.len() > within.len() {
        return false;
    }
    let last = within.len() - wanted.len();
    let mut at: usize = 0;
    while at < last
        invariant
            at <= last,
            last + wanted.len() == within.len(),
            within@ == hay@,
            wanted@ == needle@,
            forall|k: int| 0 <= k < at ==> !occurs_at(needle@, hay@, k),
        decreases last - at,
    {
        if found_at(&wanted, &within, at) {
            return true;
        }
        at += 1;
    }
    found_at(&wanted, &within, last)
}

/// Whether `hay` begins with `prefix`.
pub fn starts_with(hay: &str, prefix: &str) -> (found: bool)
    ensures
        found == begins_with(hay@, prefix@),
{
    let within = chars_of(hay);
    let wanted = chars_of(prefix);
    found_at(&wanted, &within, 0)
}

} // verus!
