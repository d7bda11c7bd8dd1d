//! Character classes and run scanning over sequences of characters.
//!
//! A query is tokenized by looking at three classes: identifier characters
//! (which may form a restriction key), whitespace, and everything else.
//! The spec functions here locate maximal runs of a class; the query parser's
//! contracts are stated in terms of them.
use vstd::prelude::*;

verus! {

/// Characters allowed in a restriction key: ASCII letters, digits, `-`, `_`.
pub open spec fn is_ident_char(c: char) -> bool {
    ('a' as u32 <= c as u32 && c as u32 <= 'z' as u32)
        || ('A' as u32 <= c as u32 && c as u32 <= 'Z' as u32)
        || ('0' as u32 <= c as u32 && c as u32 <= '9' as u32)
        || c == '-'
        || c == '_'
}

/// The Unicode `White_Space` characters: what surrounding-whitespace trimming
/// removes, and what ends a restriction value.
pub open spec fn is_space_char(c: char) -> bool {
    c == ' ' || c == '\t' || c == '\n' || c == '\u{000b}' || c == '\u{000c}' || c == '\r'
        || c == '\u{0085}' || c == '\u{00a0}' || c == '\u{1680}'
        || ('\u{2000}' as u32 <= c as u32 && c as u32 <= '\u{200a}' as u32)
        || c == '\u{2028}' || c == '\u{2029}' || c == '\u{202f}' || c == '\u{205f}'
        || c == '\u{3000}'
}

/// Index just past the run of characters satisfying `p` that starts at `i`.
pub open spec fn run_end(s: Seq<char>, i: int, p: spec_fn(char) -> bool) -> int
    decreases s.len() - i,
    when 0 <= i <= s.len()
{
    if i == s.len() {
        i
    } else if p(s[i]) {
        run_end(s, i + 1, p)
    } else {
        i
    }
}

/// Start of the run of characters satisfying `p` that ends just before `e`.
pub open spec fn run_start(s: Seq<char>, e: int, p: spec_fn(char) -> bool) -> int
    decreases e,
    when 0 <= e <= s.len()
{
    if e > 0 && p(s[e - 1]) {
        run_start(s, e - 1, p)
    } else {
        e
    }
}

pub proof fn lemma_run_end(s: Seq<char>, i: int, p: spec_fn(char) -> bool)
    requires
        0 <= i <= s.len(),
    ensures
        i <= run_end(s, i, p) <= s.len(),
        forall|k: int| i <= k < run_end(s, i, p) ==> p(s[k]),
        run_end(s, i, p) < s.len() ==> !p(s[run_end(s, i, p)]),
    decreases s.len() - i,
{
    if i < s.len() && p(s[i]) {
        lemma_run_end(s, i + 1, p);
    }
}

pub proof fn lemma_run_start(s: Seq<char>, e: int, p: spec_fn(char) -> bool)
    requires
        0 <= e <= s.len(),
    ensures
        0 <= run_start(s, e, p) <= e,
        forall|k: int| run_start(s, e, p) <= k < e ==> p(s[k]),
        run_start(s, e, p) > 0 ==> !p(s[run_start(s, e, p) - 1]),
    decreases e,
{
    if e > 0 && p(s[e - 1]) {
        lemma_run_start(s, e - 1, p);
    }
}

/// Leading whitespace of `s` ends here; `s.len()` if `s` is all whitespace.
pub open spec fn space_run_end(s: Seq<char>, i: int) -> int {
    run_end(s, i, |c: char| is_space_char(c))
}

/// Trailing whitespace of `s[..e]` starts here.
pub open spec fn space_run_start(s: Seq<char>, e: int) -> int {
    run_start(s, e, |c: char| is_space_char(c))
}

/// `s` with surrounding whitespace removed.
pub open spec fn trim_of(s: Seq<char>) -> Seq<char> {
    if space_run_end(s, 0) == s.len() {
        Seq::empty()
    } else {
        s.subrange(space_run_end(s, 0), space_run_start(s, s.len() as int))
    }
}

pub proof fn lemma_trim_bounds(s: Seq<char>)
    requires
        space_run_end(s, 0) < s.len(),
    ensures
        0 <= space_run_end(s, 0) < space_run_start(s, s.len() as int) <= s.len(),
{
    lemma_run_end(s, 0, |c: char| is_space_char(c));
    lemma_run_start(s, s.len() as int, |c: char| is_space_char(c));
    let a = space_run_end(s, 0);
    let b = space_run_start(s, s.len() as int);
    if b <= a {
        assert(is_space_char(s[a]));
    }
}

/// Whether `c` is an identifier character; mirrors [`is_ident_char`].
pub fn ident_char(c: char) -> (b: bool)
    ensures
        b == is_ident_char(c),
{
    let n = c as u32;
    ('a' as u32 <= n && n <= 'z' as u32) || ('A' as u32 <= n && n <= 'Z' as u32) || ('0' as u32
        <= n && n <= '9' as u32) || c == '-' || c == '_'
}

/// Whether `c` is whitespace; mirrors [`is_space_char`].
pub fn space_char(c: char) -> (b: bool)
    ensures
        b == is_space_char(c),
{
    c == ' ' || c == '\t' || c == '\n' || c == '\u{000b}' || c == '\u{000c}' || c == '\r'
        || c == '\u{0085}' || c == '\u{00a0}' || c == '\u{1680}' || ('\u{2000}' as u32 <= c as u32
        && c as u32 <= '\u{200a}' as u32) || c == '\u{2028}' || c == '\u{2029}' || c == '\u{202f}'
        || c == '\u{205f}' || c == '\u{3000}'
}

} // verus!
