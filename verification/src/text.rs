//! Character-level helpers shared by the other modules.

use vstd::prelude::*;
use vstd::string::*;

verus! {

/// `c` with the letters `A` to `Z` mapped to `a` to `z`; every other
/// character, ASCII or not, is left as it is.
pub open spec fn lower_ascii(c: char) -> char {
    if 'A' <= c && c <= 'Z' {
        ((c as u8) + 32u8) as char
    } else {
        c
    }
}

/// `s` with `lower_ascii` applied to each character.
pub open spec fn lowered(s: Seq<char>) -> Seq<char> {
    Seq::new(s.len(), |i: int| lower_ascii(s[i]))
}

/// Whether `text` spells `word` when the case of ASCII letters is ignored.
/// `word` is meant to be in lower case.
pub open spec fn spells(text: Seq<char>, word: Seq<char>) -> bool {
    lowered(text) == word
}

/// The text of an optional string.
pub open spec fn text_of(s: Option<&str>) -> Option<Seq<char>> {
    match s {
        Some(s) => Some(s@),
        None => None,
    }
}

/// The texts of a list of strings.
pub open spec fn texts(strings: Seq<String>) -> Seq<Seq<char>> {
    Seq::new(strings.len(), |i: int| strings[i]@)
}

/// What follows the last occurrence of `c` in `s`; all of `s` where `c`
/// does not occur.
pub open spec fn after_last(s: Seq<char>, c: char) -> Seq<char> {
    match s.index_of_last(c) {
        Some(i) => s.skip(i + 1),
        None => s,
    }
}

/// If `c` stands at `i` and nowhere behind `i`, then `i` is its last index.
pub proof fn lemma_last_index(s: Seq<char>, c: char, i: int)
    requires
        0 <= i < s.len(),
        s[i] == c,
        forall|j: int| i < j < s.len() ==> s[j] != c,
    ensures
        s.index_of_last(c) == Some(i),
{
    s.index_of_last_ensures(c);
    assert(s.contains(c));
}

/// If `c` does not occur in `s`, it has no last index.
pub proof fn lemma_no_index(s: Seq<char>, c: char)
    requires
        forall|j: int| 0 <= j < s.len() ==> s[j] != c,
    ensures
        s.index_of_last(c) is None,
{
    s.index_of_last_ensures(c);
}

/// `c` in lower case, if it is one of the letters `A` to `Z`.
pub fn to_lower_ascii(c: char) -> (r: char)
    ensures
        r == lower_ascii(c),
{
    if c >= 'A' && c <= 'Z' {
        ((c as u8) + 32u8) as char
    } else {
        c
    }
}

/// Compares `text` with `word`, ignoring the case of the ASCII letters of
/// `text`.
pub fn spells_word(text: &str, word: &str) -> (r: bool)
    ensures
        r == spells(text@, word@),
{
    let n: usize = text.unicode_len();
    if n != word.unicode_len() {
        return false;
    }
    let mut i: usize = 0;
    while i < n
        invariant
            n == text@.len(),
            n == word@.len(),
            i <= n,
            forall|j: int| 0 <= j < i ==> lower_ascii(text@[j]) == word@[j],
        decreases n - i,
    {
        if to_lower_ascii(text.get_char(i)) != word.get_char(i) {
            assert(lowered(text@)[i as int] != word@[i as int]);
            return false;
        }
        i += 1;
    }
    assert(lowered(text@) =~= word@);
    true
}

/// The index of the last `c` in `s`, counted in characters.
pub fn last_index_of(s: &str, c: char) -> (r: Option<usize>)
    ensures
        match r {
            Some(i) => s@.index_of_last(c) == Some(i as int),
            None => s@.index_of_last(c) is None,
        },
{
    let n: usize = s.unicode_len();
    let mut i: usize = n;
    while i > 0
        invariant
            n == s@.len(),
            i <= n,
            forall|j: int| i <= j < n ==> s@[j] != c,
        decreases i,
    {
        i -= 1;
        if s.get_char(i) == c {
            proof {
                lemma_last_index(s@, c, i as int);
            }
            return Some(i);
        }
    }
    proof {
        lemma_no_index(s@, c);
    }
    None
}

/// The part of `s` behind its last `c`; `s` itself where it holds no `c`.
pub fn tail_after_last<'a>(s: &'a str, c: char) -> (r: &'a str)
    ensures
        r@ == after_last(s@, c),
{
    match last_index_of(s, c) {
        Some(i) => {
            let n: usize = s.unicode_len();
            proof {
                s@.index_of_last_ensures(c);
            }
            let r = s.substring_char(i + 1, n);
            assert(s@.subrange(i + 1, n as int) =~= s@.skip(i + 1));
            r
        },
        None => s,
    }
}

} // verus!
