//! Image identifiers of the form `name[:tag]`.

use crate::error::Error;
use crate::text::chars_of;
use vstd::prelude::*;
use vstd::string::*;

verus! {

/// Whether `c` may stand in a name or a tag: an ASCII letter or digit, or one
/// of `-`, `_` and `.`.
pub open spec fn is_word_char(c: char) -> bool {
    ||| 'a' <= c <= 'z'
    ||| 'A' <= c <= 'Z'
    ||| '0' <= c <= '9'
    ||| c == '-'
    ||| c == '_'
    ||| c == '.'
}

/// Whether `b` is an ASCII letter or digit.
pub open spec fn is_alphanumeric_byte(b: u8) -> bool {
    ||| 0x41 <= b <= 0x5A
    ||| 0x61 <= b <= 0x7A
    ||| 0x30 <= b <= 0x39
}

/// `nom::character::is_alphanumeric` tells whether a byte is one of the ASCII
/// letters `A` to `Z` and `a` to `z` or one of the digits `0` to `9`.
pub assume_specification[ nom::character::is_alphanumeric ](chr: u8) -> (alphanumeric: bool)
    ensures
        alphanumeric == is_alphanumeric_byte(chr),
;

/// Whether `w` is a word: one character or more, each of them a word
/// character.
pub open spec fn is_word(w: Seq<char>) -> bool {
    &&& w.len() > 0
    &&& forall|i: int| 0 <= i < w.len() ==> is_word_char(#[trigger] w[i])
}

/// The number of word characters that `s` begins with.
pub open spec fn word_len(s: Seq<char>) -> nat
    decreases s.len(),
{
    if s.len() > 0 && is_word_char(s[0]) {
        1 + word_len(s.drop_first())
    } else {
        0
    }
}

/// The tag of an identifier that names none.
pub open spec fn default_tag() -> Seq<char> {
    "latest"@
}

/// What an identifier says: the name of an image and its tag.
pub struct Identifier {
    pub name: Seq<char>,
    pub tag: Seq<char>,
}

impl Identifier {
    /// Both the name and the tag are words.
    pub open spec fn valid(self) -> bool {
        is_word(self.name) && is_word(self.tag)
    }

    /// The identifier written out in full, as `name:tag`.
    pub open spec fn text(self) -> Seq<char> {
        self.name + seq![':'] + self.tag
    }
}

/// What `s` says when read as an identifier. The word that `s` begins with is
/// the name, and without one `s` says nothing. A colon and a word right after
/// the name give the tag; anything else there leaves the default tag. What
/// follows the tag is not looked at.
pub open spec fn parse_identifier(s: Seq<char>) -> Option<Identifier> {
    let n = word_len(s) as int;
    let rest = s.skip(n + 1);
    if n == 0 {
        None
    } else if n < s.len() && s[n] == ':' && word_len(rest) > 0 {
        Some(Identifier { name: s.take(n), tag: rest.take(word_len(rest) as int) })
    } else {
        Some(Identifier { name: s.take(n), tag: default_tag() })
    }
}

/// `word_len(s)` is the one `n` with word characters at every place below
/// `n` and none at `n`.
pub proof fn lemma_word_len(s: Seq<char>, n: int)
    requires
        0 <= n <= s.len(),
        forall|i: int| 0 <= i < n ==> is_word_char(#[trigger] s[i]),
        n < s.len() ==> !is_word_char(s[n]),
    ensures
        word_len(s) == n,
    decreases n,
{
    if n > 0 {
        let tail = s.drop_first();
        assert forall|i: int| 0 <= i < n - 1 implies is_word_char(#[trigger] tail[i]) by {
            assert(tail[i] == s[i + 1]);
        }
        lemma_word_len(tail, n - 1);
    }
}

/// The word that `s` begins with ends within `s`, holds word characters
/// only, and is followed by none.
pub proof fn lemma_word_len_bounds(s: Seq<char>)
    ensures
        word_len(s) <= s.len(),
        forall|i: int| 0 <= i < word_len(s) ==> is_word_char(#[trigger] s[i]),
        word_len(s) < s.len() ==> !is_word_char(s[word_len(s) as int]),
    decreases s.len(),
{
    if s.len() > 0 && is_word_char(s[0]) {
        let tail = s.drop_first();
        lemma_word_len_bounds(tail);
        assert forall|i: int| 0 <= i < word_len(s) implies is_word_char(#[trigger] s[i]) by {
            if i > 0 {
                assert(s[i] == tail[i - 1]);
            }
        }
        if word_len(s) < s.len() {
            assert(s[word_len(s) as int] == tail[word_len(tail) as int]);
        }
    }
}

/// The default tag is a word.
pub proof fn lemma_default_tag_is_word()
    ensures
        is_word(default_tag()),
{
    reveal_strlit("latest");
}

/// Whatever is read from a string is a valid identifier.
pub proof fn lemma_parse_valid(s: Seq<char>)
    ensures
        parse_identifier(s) matches Some(id) ==> id.valid(),
{
    lemma_default_tag_is_word();
    lemma_word_len_bounds(s);
    let n = word_len(s) as int;
    lemma_word_len_bounds(s.skip(n + 1));
}

/// Writing a valid identifier out and reading it again gives the identifier
/// back.
pub proof fn lemma_parse_round_trip(id: Identifier)
    requires
        id.valid(),
    ensures
        parse_identifier(id.text()) == Some(id),
{
    let s = id.text();
    let n = id.name.len() as int;
    assert(s[n] == ':');
    assert forall|i: int| 0 <= i < n implies is_word_char(#[trigger] s[i]) by {
        assert(s[i] == id.name[i]);
    }
    lemma_word_len(s, n);
    let rest = s.skip(n + 1);
    assert(rest =~= id.tag);
    lemma_word_len(rest, rest.len() as int);
    assert(s.take(n) =~= id.name);
    assert(rest.take(rest.len() as int) =~= id.tag);
}

/// The written form tells identifiers apart: two valid identifiers that are
/// written alike are one identifier.
pub proof fn lemma_text_injective(a: Identifier, b: Identifier)
    requires
        a.valid(),
        b.valid(),
        a.text() == b.text(),
    ensures
        a == b,
{
    lemma_parse_round_trip(a);
    lemma_parse_round_trip(b);
}

/// An empty string says nothing.
pub proof fn lemma_parse_empty()
    ensures
        parse_identifier(Seq::<char>::empty()) is None,
{
}

/// An image identifier: the name of an image and its tag, each a word.
#[derive(Debug)]
pub struct ImageName<'a> {
    name: &'a str,
    tag: &'a str,
}

impl<'a> View for ImageName<'a> {
    type V = Identifier;

    closed spec fn view(&self) -> Identifier {
        Identifier { name: self.name@, tag: self.tag@ }
    }
}

/// Whether `c` is a word character.
fn word_char(c: char) -> (word: bool)
    ensures
        word == is_word_char(c),
{
    c == '-' || c == '_' || c == '.' || (c <= '\u{7f}' && nom::character::is_alphanumeric(c as u8))
}

/// The number of word characters that `chars` holds from `from` on, up to the
/// first character that is none.
fn leading_word(chars: &Vec<char>, from: usize) -> (n: usize)
    requires
        from <= chars.len(),
    ensures
        n == word_len(chars@.skip(from as int)),
        from + n <= chars.len(),
{
    let ghost rest = chars@.skip(from as int);
    let mut end: usize = from;
    while end < chars.len() && word_char(chars[end])
        invariant
            from <= end <= chars.len(),
            rest == chars@.skip(from as int),
            forall|i: int| 0 <= i < end - from ==> is_word_char(#[trigger] rest[i]),
        decreases chars.len() - end,
    {
        end += 1;
    }
    proof {
        lemma_word_len(rest, end - from);
    }
    end - from
}

impl<'a> ImageName<'a> {
    #[verifier::type_invariant]
    spec fn well_formed(self) -> bool {
        self@.valid()
    }

    /// Reads `s` as an identifier. This fails, with `Malformed`, exactly if
    /// `s` does not begin with a word.
    pub fn parse(s: &'a str) -> (parsed: Result<Self, Error>)
        ensures
            match parsed {
                Ok(image) => parse_identifier(s@) == Some(image@) && image@.valid(),
                Err(e) => parse_identifier(s@) is None && e is Malformed,
            },
    {
        let chars = chars_of(s);
        let n = leading_word(&chars, 0);
        assert(chars@.skip(0) =~= s@);
        if n == 0 {
            return Err(Error::Malformed);
        }
        proof {
            lemma_parse_valid(s@);
        }
        let name = s.substring_char(0, n);
        assert(name@ =~= s@.take(n as int));
        if n < chars.len() && chars[n] == ':' {
            let m = leading_word(&chars, n + 1);
            if m > 0 {
                let tag = s.substring_char(n + 1, n + 1 + m);
                assert(tag@ =~= s@.skip(n + 1).take(m as int));
                return Ok(ImageName { name, tag });
            }
        }
        Ok(ImageName { name, tag: "latest" })
    }

    /// The name of the image.
    pub fn name(&self) -> (name: &'a str)
        ensures
            name@ == self@.name,
            is_word(name@),
    {
        proof {
            use_type_invariant(self);
        }
        self.name
    }

    /// The tag of the image.
    pub fn tag(&self) -> (tag: &'a str)
        ensures
            tag@ == self@.tag,
            is_word(tag@),
    {
        proof {
            use_type_invariant(self);
        }
        self.tag
    }

    /// The identifier written out in full, as `name:tag`.
    pub fn to_string(&self) -> (text: String)
        ensures
            text@ == self@.text(),
    {
        let mut text = self.name.to_owned();
        text.append(":");
        text.append(self.tag);
        proof {
            reveal_strlit(":");
            assert(text@ =~= self@.text());
        }
        text
    }
}

} // verus!
