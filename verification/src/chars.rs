//! Character classes and low-level text scanning used by the pattern rules.
//!
//! The rule grammar works on sequences of characters.  Each rule is built
//! from three primitives: literal matching at a position, maximal runs of a
//! character class, and a backwards search for a closing quote.

use vstd::prelude::*;

verus! {

/// The character classes that the pattern rules scan runs of.
#[derive(Clone, Copy, Debug, PartialEq, Eq)]
pub enum CharClass {
    /// An ASCII decimal digit.
    Digit,
    /// An ASCII word character: letter, digit or underscore.
    Word,
    /// A decimal digit or a grouping comma.
    DigitComma,
    /// A decimal digit, a grouping comma or a decimal point.
    DigitCommaDot,
    /// Any character other than a line feed.
    NotNewline,
}

pub open spec fn spec_is_digit(c: char) -> bool {
    '0' <= c && c <= '9'
}

pub open spec fn spec_is_word(c: char) -> bool {
    ('a' <= c && c <= 'z') || ('A' <= c && c <= 'Z') || spec_is_digit(c) || c == '_'
}

/// ASCII whitespace, as the rule grammar understands it.
pub open spec fn spec_is_space(c: char) -> bool {
    c == ' ' || c == '\t' || c == '\n' || c == '\r' || c == '\u{b}' || c == '\u{c}'
}

pub open spec fn class_holds(cc: CharClass, c: char) -> bool {
    match cc {
        CharClass::Digit => spec_is_digit(c),
        CharClass::Word => spec_is_word(c),
        CharClass::DigitComma => spec_is_digit(c) || c == ',',
        CharClass::DigitCommaDot => spec_is_digit(c) || c == ',' || c == '.',
        CharClass::NotNewline => c != '\n',
    }
}

pub fn char_in_class(cc: CharClass, c: char) -> (r: bool)
    ensures
        r == class_holds(cc, c),
{
    match cc {
        CharClass::Digit => '0' <= c && c <= '9',
        CharClass::Word => ('a' <= c && c <= 'z') || ('A' <= c && c <= 'Z') || ('0' <= c && c
            <= '9') || c == '_',
        CharClass::DigitComma => ('0' <= c && c <= '9') || c == ',',
        CharClass::DigitCommaDot => ('0' <= c && c <= '9') || c == ',' || c == '.',
        CharClass::NotNewline => c != '\n',
    }
}

pub fn is_space(c: char) -> (r: bool)
    ensures
        r == spec_is_space(c),
{
    c == ' ' || c == '\t' || c == '\n' || c == '\r' || c == '\u{b}' || c == '\u{c}'
}

/// The first index at or after `from` whose character falls outside `cc`,
/// or the end of `s` when the run reaches it.
pub open spec fn run_end(s: Seq<char>, from: int, cc: CharClass) -> int
    decreases s.len() - from,
{
    if from < 0 || from >= s.len() || !class_holds(cc, s[from]) {
        from
    } else {
        run_end(s, from + 1, cc)
    }
}

pub proof fn lemma_run_end(s: Seq<char>, from: int, cc: CharClass)
    requires
        0 <= from <= s.len(),
    ensures
        from <= run_end(s, from, cc) <= s.len(),
        forall|k: int| from <= k < run_end(s, from, cc) ==> class_holds(cc, s[k]),
        run_end(s, from, cc) == s.len() || !class_holds(cc, s[run_end(s, from, cc)]),
    decreases s.len() - from,
{
    if from < s.len() && class_holds(cc, s[from]) {
        lemma_run_end(s, from + 1, cc);
    }
}

/// `p` occurs in `s` as a literal starting at index `i`.
pub open spec fn lit_at(s: Seq<char>, i: int, p: Seq<char>) -> bool {
    &&& 0 <= i
    &&& i + p.len() <= s.len()
    &&& forall|k: int| 0 <= k < p.len() ==> s[i + k] == p[k]
}

/// The largest index in `[lo, hi)` holding character `c`, or `-1` if none does.
pub open spec fn last_index_of(s: Seq<char>, lo: int, hi: int, c: char) -> int
    decreases hi - lo,
{
    if lo < 0 || hi <= lo || hi > s.len() {
        -1
    } else if s[hi - 1] == c {
        hi - 1
    } else {
        last_index_of(s, lo, hi - 1, c)
    }
}

pub proof fn lemma_last_index_of(s: Seq<char>, lo: int, hi: int, c: char)
    requires
        0 <= lo <= hi <= s.len(),
    ensures
        last_index_of(s, lo, hi, c) == -1 || lo <= last_index_of(s, lo, hi, c) < hi,
        last_index_of(s, lo, hi, c) != -1 ==> s[last_index_of(s, lo, hi, c)] == c,
        last_index_of(s, lo, hi, c) == -1 ==> forall|k: int| lo <= k < hi ==> s[k] != c,
        forall|k: int| lo <= k < hi && last_index_of(s, lo, hi, c) < k ==> s[k] != c,
    decreases hi - lo,
{
    if hi > lo && s[hi - 1] != c {
        lemma_last_index_of(s, lo, hi - 1, c);
    }
}

/// Scans the maximal run of `cc` characters that starts at `from`.
pub fn find_run_end(s: &str, from: usize, cc: CharClass) -> (e: usize)
    requires
        from <= s@.len(),
    ensures
        e == run_end(s@, from as int, cc),
        from <= e <= s@.len(),
{
    let len = s.unicode_len();
    let mut i = from;
    while i < len && char_in_class(cc, s.get_char(i))
        invariant
            from <= i <= len,
            len == s@.len(),
            run_end(s@, from as int, cc) == run_end(s@, i as int, cc),
        decreases len - i,
    {
        i = i + 1;
    }
    proof {
        lemma_run_end(s@, i as int, cc);
    }
    i
}

/// Tests whether the literal `p` stands in `s` at index `i`.
pub fn lit_matches_at(s: &str, i: usize, p: &str) -> (r: bool)
    requires
        i <= s@.len(),
    ensures
        r == lit_at(s@, i as int, p@),
{
    let slen = s.unicode_len();
    let plen = p.unicode_len();
    if plen > slen - i {
        return false;
    }
    let mut k: usize = 0;
    while k < plen
        invariant
            0 <= k <= plen,
            i + plen <= slen,
            slen == s@.len(),
            plen == p@.len(),
            forall|t: int| 0 <= t < k ==> s@[i + t] == p@[t],
        decreases plen - k,
    {
        if s.get_char(i + k) != p.get_char(k) {
            return false;
        }
        k = k + 1;
    }
    true
}

/// Finds the largest index in `[lo, hi)` holding `c`; `None` if there is none.
pub fn find_last_char(s: &str, lo: usize, hi: usize, c: char) -> (r: Option<usize>)
    requires
        lo <= hi <= s@.len(),
    ensures
        match r {
            Some(j) => last_index_of(s@, lo as int, hi as int, c) == j as int,
            None => last_index_of(s@, lo as int, hi as int, c) == -1,
        },
{
    let mut h = hi;
    while h > lo
        invariant
            lo <= h <= hi <= s@.len(),
            last_index_of(s@, lo as int, hi as int, c) == last_index_of(s@, lo as int, h as int, c),
        decreases h,
    {
        if s.get_char(h - 1) == c {
            return Some(h - 1);
        }
        h = h - 1;
    }
    None
}

/// Character-for-character equality of two string slices.
pub fn str_eq(a: &str, b: &str) -> (r: bool)
    ensures
        r == (a@ == b@),
{
    let alen = a.unicode_len();
    let blen = b.unicode_len();
    if alen != blen {
        return false;
    }
    let mut k: usize = 0;
    while k < alen
        invariant
            0 <= k <= alen,
            alen == a@.len(),
            alen == b@.len(),
            forall|t: int| 0 <= t < k ==> a@[t] == b@[t],
        decreases alen - k,
    {
        if a.get_char(k) != b.get_char(k) {
            return false;
        }
        k = k + 1;
    }
    proof {
        assert(a@ =~= b@);
    }
    true
}

/// Copies the characters of `s` in `[from, to)` into an owned string.
pub fn copy_range(s: &str, from: usize, to: usize) -> (r: String)
    requires
        from <= to <= s@.len(),
    ensures
        r@ == s@.subrange(from as int, to as int),
{
    let sub = s.substring_char(from, to);
    sub.to_owned()
}

} // verus!
