//! Normalization of candidate text and the two word vocabularies.
//!
//! A candidate string is normalized by dropping surrounding whitespace and
//! lower-casing the letters `A` through `Z`; the normalized text is then
//! looked up in a fixed vocabulary of true-ish words or false-ish words.

use vstd::prelude::*;
use vstd::string::StrSliceExecFns;

verus! {

/// The characters treated as surrounding whitespace: space, tab, line
/// feed, vertical tab, form feed and carriage return.
pub open spec fn is_space_char(c: char) -> bool {
    c == ' ' || c == '\t' || c == '\n' || c == '\u{b}' || c == '\u{c}' || c == '\r'
}

/// Lower-casing of a single character: `A` through `Z` shift to their
/// lower-case forms, every other character stays as it is.
pub open spec fn lower_char(c: char) -> char {
    if 'A' <= c && c <= 'Z' {
        ((c as u8) + 32) as char
    } else {
        c
    }
}

/// Character-wise lower-casing of a string.
pub open spec fn lower(s: Seq<char>) -> Seq<char> {
    s.map_values(|c: char| lower_char(c))
}

/// The string with its leading whitespace dropped.
pub open spec fn trim_front(s: Seq<char>) -> Seq<char>
    decreases s.len(),
{
    if s.len() > 0 && is_space_char(s[0]) {
        trim_front(s.drop_first())
    } else {
        s
    }
}

/// The string with its trailing whitespace dropped.
pub open spec fn trim_back(s: Seq<char>) -> Seq<char>
    decreases s.len(),
{
    if s.len() > 0 && is_space_char(s.last()) {
        trim_back(s.drop_last())
    } else {
        s
    }
}

/// The normal form a candidate string is compared in: surrounding
/// whitespace dropped, then lower-cased.
pub open spec fn normalize(s: Seq<char>) -> Seq<char> {
    lower(trim_back(trim_front(s)))
}

/// Whether a normalized word is in the true-ish vocabulary.
pub open spec fn is_true_word(w: Seq<char>) -> bool {
    ||| w == "true"@
    ||| w == "yeah"@
    ||| w == "yup"@
    ||| w == "yes"@
    ||| w == "on"@
    ||| w == "👍"@
    ||| w == "yes way"@
    ||| w == "go for it"@
}

/// Whether a normalized word is in the false-ish vocabulary.
pub open spec fn is_false_word(w: Seq<char>) -> bool {
    ||| w == "false"@
    ||| w == "untrue"@
    ||| w == "nope"@
    ||| w == "off"@
    ||| w == "nah"@
    ||| w == "naw"@
    ||| w == "nut"@
    ||| w == "👎"@
    ||| w == "no"@
    ||| w == "no way"@
    ||| w == "norway"@
}

/// The vocabulary of words recognised as true-ish.
pub open spec fn true_vocab() -> Set<Seq<char>> {
    Set::new(|w: Seq<char>| is_true_word(w))
}

/// The vocabulary of words recognised as false-ish.
pub open spec fn false_vocab() -> Set<Seq<char>> {
    Set::new(|w: Seq<char>| is_false_word(w))
}

/// No word is in both vocabularies: whatever a string normalizes to, it
/// can be recognised as true-ish or as false-ish, never as both.
pub proof fn lemma_vocabularies_disjoint(w: Seq<char>)
    ensures
        !(true_vocab().contains(w) && false_vocab().contains(w)),
{
    if is_true_word(w) && is_false_word(w) {
        reveal_strlit("true");
        reveal_strlit("yeah");
        reveal_strlit("yup");
        reveal_strlit("yes");
        reveal_strlit("on");
        reveal_strlit("👍");
        reveal_strlit("yes way");
        reveal_strlit("go for it");
        reveal_strlit("false");
        reveal_strlit("untrue");
        reveal_strlit("nope");
        reveal_strlit("off");
        reveal_strlit("nah");
        reveal_strlit("naw");
        reveal_strlit("nut");
        reveal_strlit("👎");
        reveal_strlit("no");
        reveal_strlit("no way");
        reveal_strlit("norway");
        assert("true"@.len() == 4 && "true"@[0] == 't');
        assert("yeah"@.len() == 4 && "yeah"@[0] == 'y');
        assert("yup"@.len() == 3 && "yup"@[0] == 'y');
        assert("yes"@.len() == 3 && "yes"@[0] == 'y');
        assert("on"@.len() == 2 && "on"@[0] == 'o');
        assert("👍"@.len() == 1 && "👍"@[0] == '👍');
        assert("yes way"@.len() == 7 && "yes way"@[0] == 'y');
        assert("go for it"@.len() == 9 && "go for it"@[0] == 'g');
        assert("false"@.len() == 5 && "false"@[0] == 'f');
        assert("untrue"@.len() == 6 && "untrue"@[0] == 'u');
        assert("nope"@.len() == 4 && "nope"@[0] == 'n');
        assert("off"@.len() == 3 && "off"@[0] == 'o');
        assert("nah"@.len() == 3 && "nah"@[0] == 'n');
        assert("naw"@.len() == 3 && "naw"@[0] == 'n');
        assert("nut"@.len() == 3 && "nut"@[0] == 'n');
        assert("👎"@.len() == 1 && "👎"@[0] == '👎');
        assert("no"@.len() == 2 && "no"@[0] == 'n');
        assert("no way"@.len() == 6 && "no way"@[0] == 'n');
        assert("norway"@.len() == 6 && "norway"@[0] == 'n');
    }
}

/// Executable test for a whitespace character.
fn is_space(c: char) -> (r: bool)
    ensures
        r == is_space_char(c),
{
    c == ' ' || c == '\t' || c == '\n' || c == '\u{b}' || c == '\u{c}' || c == '\r'
}

/// Executable lower-casing of a single character.
fn to_lower(c: char) -> (r: char)
    ensures
        r == lower_char(c),
{
    if 'A' <= c && c <= 'Z' {
        ((c as u8) + 32) as char
    } else {
        c
    }
}

/// The index of the first character that is not whitespace, or the length
/// of the string when every character is whitespace.
fn first_non_space(s: &str) -> (i: usize)
    ensures
        i <= s@.len(),
        forall|j: int| 0 <= j < i ==> is_space_char(s@[j]),
        i < s@.len() ==> !is_space_char(s@[i as int]),
{
    let n = s.unicode_len();
    let mut i: usize = 0;
    loop
        invariant
            i <= n,
            n == s@.len(),
            forall|j: int| 0 <= j < i ==> is_space_char(s@[j]),
        decreases n - i,
    {
        if i == n {
            return i;
        }
        if !is_space(s.get_char(i)) {
            return i;
        }
        i = i + 1;
    }
}

/// One past the index of the last character that is not whitespace, given
/// that the character at `start` is not whitespace.
fn end_after_last_non_space(s: &str, start: usize) -> (e: usize)
    requires
        start < s@.len(),
        !is_space_char(s@[start as int]),
    ensures
        start < e <= s@.len(),
        forall|j: int| e <= j < s@.len() ==> is_space_char(s@[j]),
        !is_space_char(s@[e - 1]),
{
    let n = s.unicode_len();
    let mut e: usize = n;
    loop
        invariant
            start < e <= n,
            n == s@.len(),
            !is_space_char(s@[start as int]),
            forall|j: int| e <= j < n ==> is_space_char(s@[j]),
        decreases e,
    {
        if !is_space(s.get_char(e - 1)) {
            return e;
        }
        e = e - 1;
    }
}

/// Dropping leading whitespace is taking the suffix that starts at the
/// first non-whitespace character.
proof fn lemma_trim_front_is_suffix(s: Seq<char>, i: int)
    requires
        0 <= i <= s.len(),
        forall|j: int| 0 <= j < i ==> is_space_char(s[j]),
        i < s.len() ==> !is_space_char(s[i]),
    ensures
        trim_front(s) == s.subrange(i, s.len() as int),
    decreases i,
{
    if i == 0 {
        assert(trim_front(s) =~= s.subrange(0, s.len() as int));
    } else {
        lemma_trim_front_is_suffix(s.drop_first(), i - 1);
        assert(s.drop_first().subrange(i - 1, s.drop_first().len() as int) =~= s.subrange(
            i,
            s.len() as int,
        ));
    }
}

/// Dropping trailing whitespace is taking the prefix that ends just after
/// the last non-whitespace character.
proof fn lemma_trim_back_is_prefix(s: Seq<char>, e: int)
    requires
        0 <= e <= s.len(),
        forall|j: int| e <= j < s.len() ==> is_space_char(s[j]),
        e > 0 ==> !is_space_char(s[e - 1]),
    ensures
        trim_back(s) == s.subrange(0, e),
    decreases s.len(),
{
    if e == s.len() {
        assert(trim_back(s) =~= s.subrange(0, e));
    } else {
        lemma_trim_back_is_prefix(s.drop_last(), e);
        assert(s.drop_last().subrange(0, e) =~= s.subrange(0, e));
    }
}

/// Whether the characters of `s` between `start` and `end`, lower-cased,
/// spell exactly the word `w`.
fn window_matches(s: &str, start: usize, end: usize, w: &str) -> (r: bool)
    requires
        start <= end <= s@.len(),
    ensures
        r == (lower(s@.subrange(start as int, end as int)) == w@),
{
    let ghost win = s@.subrange(start as int, end as int);
    let wn = w.unicode_len();
    if end - start != wn {
        assert(lower(win).len() != w@.len());
        return false;
    }
    let mut i: usize = 0;
    while i < wn
        invariant
            wn == w@.len(),
            end - start == wn,
            start <= end <= s@.len(),
            win == s@.subrange(start as int, end as int),
            forall|j: int| 0 <= j < i ==> lower_char(win[j]) == w@[j],
        decreases wn - i,
    {
        let c = to_lower(s.get_char(start + i));
        let d = w.get_char(i);
        if c != d {
            assert(lower(win)[i as int] != w@[i as int]);
            return false;
        }
        i = i + 1;
    }
    assert(lower(win) =~= w@);
    true
}

/// Whether the characters of `s` between `start` and `end`, lower-cased,
/// spell a word of the true-ish vocabulary.
pub(crate) fn window_in_true_vocab(s: &str, start: usize, end: usize) -> (r: bool)
    requires
        start <= end <= s@.len(),
    ensures
        r == is_true_word(lower(s@.subrange(start as int, end as int))),
{
    window_matches(s, start, end, "true") || window_matches(s, start, end, "yeah")
        || window_matches(s, start, end, "yup") || window_matches(s, start, end, "yes")
        || window_matches(s, start, end, "on") || window_matches(s, start, end, "👍")
        || window_matches(s, start, end, "yes way") || window_matches(s, start, end, "go for it")
}

/// Whether the characters of `s` between `start` and `end`, lower-cased,
/// spell a word of the false-ish vocabulary.
pub(crate) fn window_in_false_vocab(s: &str, start: usize, end: usize) -> (r: bool)
    requires
        start <= end <= s@.len(),
    ensures
        r == is_false_word(lower(s@.subrange(start as int, end as int))),
{
    window_matches(s, start, end, "false") || window_matches(s, start, end, "untrue")
        || window_matches(s, start, end, "nope") || window_matches(s, start, end, "off")
        || window_matches(s, start, end, "nah") || window_matches(s, start, end, "naw")
        || window_matches(s, start, end, "nut") || window_matches(s, start, end, "👎")
        || window_matches(s, start, end, "no") || window_matches(s, start, end, "no way")
        || window_matches(s, start, end, "norway")
}

/// The bounds of the whitespace-trimmed window of `s`: the normal form of
/// `s` is the lower-cased text between the two returned indices.
pub(crate) fn trimmed_window(s: &str) -> (w: (usize, usize))
    ensures
        w.0 <= w.1 <= s@.len(),
        normalize(s@) == lower(s@.subrange(w.0 as int, w.1 as int)),
{
    let n = s.unicode_len();
    let start = first_non_space(s);
    let end: usize = if start == n {
        n
    } else {
        end_after_last_non_space(s, start)
    };
    proof {
        lemma_trim_front_is_suffix(s@, start as int);
        let suffix = s@.subrange(start as int, s@.len() as int);
        assert forall|j: int| end - start <= j < suffix.len() implies is_space_char(
            suffix[j],
        ) by {
            assert(suffix[j] == s@[start + j]);
        }
        lemma_trim_back_is_prefix(suffix, end - start);
        assert(suffix.subrange(0, end - start) =~= s@.subrange(start as int, end as int));
    }
    (start, end)
}

} // verus!
