//! Lower case, and room ids made from names.

use vstd::prelude::*;

use crate::text::{chars_of, string_of};

verus! {

/// A text with its letters in lower case.
pub uninterp spec fn lowercase(s: Seq<char>) -> Seq<char>;

/// The lower case of an ASCII letter; every other character as it is.
pub open spec fn ascii_lowercase(c: char) -> char {
    if 'A' <= c && c <= 'Z' {
        (c as u8 + 32) as char
    } else {
        c
    }
}

/// `str::to_lowercase` maps letters to lower case, ASCII letters as usual. What becomes of other
/// letters rests on Unicode's tables and is not stated.
#[verifier::external_body]
pub(crate) fn to_lowercase(s: &str) -> (r: String)
    ensures
        r@ == lowercase(s@),
        vstd::utf8::is_ascii_chars(s@) ==> r@ == s@.map_values(|c: char| ascii_lowercase(c)),
{
    s.to_lowercase()
}

/// A letter or a digit.
pub uninterp spec fn alphanumeric(c: char) -> bool;

/// Blank space.
pub uninterp spec fn whitespace(c: char) -> bool;

/// `char::is_alphanumeric` tells letters and digits from other characters, among ASCII characters as
/// usual. Which other characters are letters or digits rests on Unicode's tables and is not stated.
pub assume_specification[ char::is_alphanumeric ](c: char) -> (r: bool)
    ensures
        r == alphanumeric(c),
        c as u32 <= 127 ==> r == (('0' <= c && c <= '9') || ('a' <= c && c <= 'z') || ('A' <= c && c
            <= 'Z')),
;

/// `char::is_whitespace` tells blank space from other characters; among the printable ASCII
/// characters only the space is blank, and a line feed is blank. Which other characters are blank
/// rests on Unicode's tables and is not stated.
pub assume_specification[ char::is_whitespace ](c: char) -> (r: bool)
    ensures
        r == whitespace(c),
        32 <= c as u32 <= 126 ==> r == (c == ' '),
        c == '\n' ==> r,
;

/// A character of a room id, for a character of a name: spaces and hyphens become underscores.
pub open spec fn id_char(c: char) -> char {
    if c == ' ' || c == '-' {
        '_'
    } else {
        c
    }
}

/// The characters that a room id is made of.
pub open spec fn in_id(c: char) -> bool {
    alphanumeric(c) || c == '_'
}

/// The room id made from a name: in lower case, with underscores for spaces and hyphens, and
/// without everything that is neither a letter, a digit nor an underscore.
pub open spec fn room_id_of(name: Seq<char>) -> Seq<char> {
    lowercase(name).map_values(|c: char| id_char(c)).filter(|c: char| in_id(c))
}

/// Makes a room id from a name.
pub fn make_room_id(name: &str) -> (r: String)
    ensures
        r@ == room_id_of(name@),
{
    let lower: String = to_lowercase(name);
    let chars = chars_of(lower.as_str());
    let ghost mapped = lower@.map_values(|c: char| id_char(c));
    let ghost keep = |c: char| in_id(c);
    let mut out: String = String::new();
    let mut i: usize = 0;
    assert(mapped.take(0) =~= Seq::<char>::empty());
    proof {
        reveal(Seq::filter);
    }
    assert(out@ =~= mapped.take(0).filter(keep));
    while i < chars.len()
        invariant
            i <= chars@.len(),
            chars@ == lower@,
            mapped == lower@.map_values(|c: char| id_char(c)),
            keep == (|c: char| in_id(c)),
            out@ == mapped.take(i as int).filter(keep),
        decreases chars.len() - i,
    {
        let c: char = if chars[i] == ' ' || chars[i] == '-' {
            '_'
        } else {
            chars[i]
        };
        proof {
            reveal(Seq::filter);
            assert(mapped.take(i + 1).drop_last() =~= mapped.take(i as int));
            assert(mapped.take(i + 1).last() == c);
        }
        if c.is_alphanumeric() || c == '_' {
            out.push(c);
        }
        i = i + 1;
    }
    assert(mapped.take(mapped.len() as int) =~= mapped);
    out
}

/// A room id is made of letters, digits and underscores only.
pub proof fn law_room_ids_are_plain(name: Seq<char>, i: int)
    requires
        0 <= i < room_id_of(name).len(),
    ensures
        in_id(room_id_of(name)[i]),
{
    let mapped = lowercase(name).map_values(|c: char| id_char(c));
    lemma_filter_keeps_only(mapped, |c: char| in_id(c), i);
}

proof fn lemma_filter_keeps_only(s: Seq<char>, keep: spec_fn(char) -> bool, i: int)
    requires
        0 <= i < s.filter(keep).len(),
    ensures
        keep(s.filter(keep)[i]),
    decreases s.len(),
{
    reveal(Seq::filter);
    if s.len() > 0 {
        let rest = s.drop_last().filter(keep);
        if i < rest.len() {
            lemma_filter_keeps_only(s.drop_last(), keep, i);
        }
    }
}

/// How much of a text is left when the blank space at its end is taken off.
pub open spec fn trimmed_len(s: Seq<char>) -> nat
    decreases s.len(),
{
    if s.len() > 0 && whitespace(s.last()) {
        trimmed_len(s.drop_last())
    } else {
        s.len()
    }
}

/// A text without the blank space at its end.
pub open spec fn trimmed_end(s: Seq<char>) -> Seq<char> {
    s.take(trimmed_len(s) as int)
}

/// A text without the blank space at its end.
pub fn trim_end(s: &str) -> (r: String)
    ensures
        r@ == trimmed_end(s@),
{
    let chars = chars_of(s);
    let mut n: usize = chars.len();
    assert(s@.take(n as int) =~= s@);
    while n > 0 && chars[n - 1].is_whitespace()
        invariant
            n <= chars@.len(),
            chars@ == s@,
            trimmed_len(s@) == trimmed_len(s@.take(n as int)),
        ensures
            n <= chars@.len(),
            trimmed_len(s@) == n,
        decreases n,
    {
        assert(s@.take(n as int).drop_last() =~= s@.take(n - 1));
        n = n - 1;
    }
    assert(s@.subrange(0, n as int) =~= s@.take(n as int));
    string_of(&chars, 0, n)
}

proof fn lemma_filter_keeps_all(s: Seq<char>, keep: spec_fn(char) -> bool)
    requires
        forall|i: int| 0 <= i < s.len() ==> keep(#[trigger] s[i]),
    ensures
        s.filter(keep) == s,
    decreases s.len(),
{
    reveal(Seq::filter);
    if s.len() > 0 {
        let front = s.drop_last();
        assert forall|i: int| 0 <= i < front.len() implies keep(#[trigger] front[i]) by {
            assert(front[i] == s[i]);
        }
        lemma_filter_keeps_all(front, keep);
        assert(keep(s[s.len() - 1]));
        assert(front.push(s.last()) =~= s);
    } else {
        assert(s.filter(keep) =~= s);
    }
}

/// A name of letters, digits, spaces, hyphens and underscores keeps its length as a room id: spaces
/// and hyphens become underscores, and everything else stays, in lower case.
pub proof fn law_plain_names_keep_their_length(name: Seq<char>, i: int)
    requires
        forall|j: int|
            0 <= j < lowercase(name).len() ==> alphanumeric(#[trigger] lowercase(name)[j])
                || lowercase(name)[j] == ' ' || lowercase(name)[j] == '-' || lowercase(name)[j]
                == '_',
        0 <= i < lowercase(name).len(),
    ensures
        room_id_of(name).len() == lowercase(name).len(),
        lowercase(name)[i] == ' ' || lowercase(name)[i] == '-' ==> room_id_of(name)[i] == '_',
        lowercase(name)[i] != ' ' && lowercase(name)[i] != '-' ==> room_id_of(name)[i]
            == lowercase(name)[i],
{
    let mapped = lowercase(name).map_values(|c: char| id_char(c));
    let keep = |c: char| in_id(c);
    assert forall|j: int| 0 <= j < mapped.len() implies keep(#[trigger] mapped[j]) by {
        assert(mapped[j] == id_char(lowercase(name)[j]));
    }
    lemma_filter_keeps_all(mapped, keep);
}

proof fn lemma_trimmed_len(s: Seq<char>)
    ensures
        trimmed_len(s) <= s.len(),
    decreases s.len(),
{
    if s.len() > 0 && whitespace(s.last()) {
        lemma_trimmed_len(s.drop_last());
    }
}

/// A text without the blank space at its end is its beginning, ends in no blank space, and what was
/// taken off is blank.
pub proof fn law_only_blanks_are_taken_off(s: Seq<char>)
    ensures
        trimmed_end(s).len() <= s.len(),
        s.take(trimmed_end(s).len() as int) == trimmed_end(s),
        trimmed_end(s).len() > 0 ==> !whitespace(trimmed_end(s).last()),
        forall|i: int| trimmed_end(s).len() <= i < s.len() ==> whitespace(#[trigger] s[i]),
    decreases s.len(),
{
    if s.len() > 0 && whitespace(s.last()) {
        let front = s.drop_last();
        lemma_trimmed_len(front);
        law_only_blanks_are_taken_off(front);
        assert(trimmed_end(s) =~= trimmed_end(front));
        assert forall|i: int| trimmed_end(s).len() <= i < s.len() implies whitespace(
            #[trigger] s[i],
        ) by {
            if i < front.len() {
                assert(front[i] == s[i]);
            }
        }
    } else {
        assert(trimmed_end(s) =~= s);
    }
}

} // verus!
