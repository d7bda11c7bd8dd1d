//! Query parsing: a raw query string is split into a free-text search term
//! and a set of `key:value` restrictions.
//!
//! A restriction marker is an identifier run immediately followed by `:`.
//! The search term is everything before the first marker (the whole input if
//! there is none), trimmed of surrounding whitespace. Each restriction pairs
//! the identifier run with the run of non-whitespace characters after the
//! colon; a later pair with the same key overwrites an earlier one.
use vstd::prelude::*;
use vstd::string::StrSliceExecFns;

use crate::text::{
    ident_char, is_ident_char, is_space_char, lemma_run_end, lemma_trim_bounds, run_end,
    run_start, space_char, space_run_end, space_run_start, trim_of,
};

verus! {

/// End of the identifier run starting at `i`.
pub open spec fn ident_run_end(s: Seq<char>, i: int) -> int {
    run_end(s, i, |c: char| is_ident_char(c))
}

/// End of the non-whitespace run starting at `i`.
pub open spec fn nonspace_run_end(s: Seq<char>, i: int) -> int {
    run_end(s, i, |c: char| !is_space_char(c))
}

/// Start of the identifier run ending just before `e`.
pub open spec fn ident_run_start(s: Seq<char>, e: int) -> int {
    run_start(s, e, |c: char| is_ident_char(c))
}

/// A colon that closes a restriction marker: it directly follows an
/// identifier character.
pub open spec fn is_marker_colon(s: Seq<char>, e: int) -> bool {
    0 < e < s.len() && s[e] == ':' && is_ident_char(s[e - 1])
}

/// The first marker colon at or after `i`; `s.len()` if there is none.
pub open spec fn first_marker_from(s: Seq<char>, i: int) -> int
    decreases s.len() - i,
    when 0 <= i <= s.len()
{
    if i == s.len() {
        i
    } else if is_marker_colon(s, i) {
        i
    } else {
        first_marker_from(s, i + 1)
    }
}

pub proof fn lemma_first_marker(s: Seq<char>, i: int)
    requires
        0 <= i <= s.len(),
    ensures
        i <= first_marker_from(s, i) <= s.len(),
        first_marker_from(s, i) < s.len() ==> is_marker_colon(s, first_marker_from(s, i)),
        forall|k: int| i <= k < first_marker_from(s, i) ==> !is_marker_colon(s, k),
    decreases s.len() - i,
{
    if i < s.len() && !is_marker_colon(s, i) {
        lemma_first_marker(s, i + 1);
    }
}

/// The free-text search term of a raw query: everything before the first
/// restriction marker (the whole query if there is none), trimmed.
pub open spec fn search_term_of(s: Seq<char>) -> Seq<char> {
    let e = first_marker_from(s, 0);
    if e == s.len() {
        trim_of(s)
    } else {
        trim_of(s.subrange(0, ident_run_start(s, e)))
    }
}

/// A restriction `key:value` starts at `i`: a non-empty identifier run, then
/// a colon, then a non-empty run of non-whitespace characters.
pub open spec fn restriction_match_at(s: Seq<char>, i: int) -> bool {
    0 <= i < s.len() && is_ident_char(s[i]) && ident_run_end(s, i) < s.len() && s[ident_run_end(
        s,
        i,
    )] == ':' && nonspace_run_end(s, ident_run_end(s, i) + 1) > ident_run_end(s, i) + 1
}

/// The `key:value` pairs of the query from position `i` on, in order of
/// appearance. Scanning takes the leftmost match, then continues after its
/// value.
pub open spec fn restriction_pairs_from(s: Seq<char>, i: int) -> Seq<(Seq<char>, Seq<char>)>
    decreases s.len() - i,
    when 0 <= i <= s.len()
    via restriction_pairs_from_decreases
{
    if i >= s.len() {
        Seq::empty()
    } else if restriction_match_at(s, i) {
        let e = ident_run_end(s, i);
        let w = nonspace_run_end(s, e + 1);
        seq![(s.subrange(i, e), s.subrange(e + 1, w))] + restriction_pairs_from(s, w)
    } else {
        restriction_pairs_from(s, i + 1)
    }
}

#[via_fn]
proof fn restriction_pairs_from_decreases(s: Seq<char>, i: int) {
    if 0 <= i < s.len() && restriction_match_at(s, i) {
        lemma_run_end(s, i, |c: char| is_ident_char(c));
        lemma_run_end(s, ident_run_end(s, i) + 1, |c: char| !is_space_char(c));
    }
}

/// The mapping a pair sequence denotes: a later pair with the same key
/// overwrites an earlier one.
pub open spec fn pairs_map(ps: Seq<(Seq<char>, Seq<char>)>) -> Map<Seq<char>, Seq<char>>
    decreases ps.len(),
{
    if ps.len() == 0 {
        Map::empty()
    } else {
        pairs_map(ps.drop_last()).insert(ps.last().0, ps.last().1)
    }
}

/// The restrictions of a raw query, as a mapping from key to value.
pub open spec fn restrictions_of(s: Seq<char>) -> Map<Seq<char>, Seq<char>> {
    pairs_map(restriction_pairs_from(s, 0))
}

/// A restriction match yields a marker colon, so a query without marker
/// colons has no restrictions.
proof fn lemma_match_gives_marker(s: Seq<char>, i: int)
    requires
        restriction_match_at(s, i),
    ensures
        is_marker_colon(s, ident_run_end(s, i)),
{
    lemma_run_end(s, i, |c: char| is_ident_char(c));
    let e = ident_run_end(s, i);
    assert(is_ident_char(s[i]));
    assert(e > i) by {
        if e == i {
            assert(!is_ident_char(s[i]));
        }
    }
    assert(is_ident_char(s[e - 1]));
}

proof fn lemma_no_marker_no_pairs(s: Seq<char>, i: int)
    requires
        0 <= i <= s.len(),
        forall|e: int| 0 <= e < s.len() ==> !is_marker_colon(s, e),
    ensures
        restriction_pairs_from(s, i) == Seq::<(Seq<char>, Seq<char>)>::empty(),
    decreases s.len() - i,
{
    if i < s.len() {
        if restriction_match_at(s, i) {
            lemma_match_gives_marker(s, i);
        }
        lemma_no_marker_no_pairs(s, i + 1);
    }
}

/// A query without any restriction marker is all free text: its search term
/// is the whole trimmed input and it has no restrictions.
pub proof fn lemma_query_without_marker(s: Seq<char>)
    requires
        forall|e: int| 0 <= e < s.len() ==> !is_marker_colon(s, e),
    ensures
        search_term_of(s) == trim_of(s),
        restrictions_of(s) == Map::<Seq<char>, Seq<char>>::empty(),
{
    lemma_first_marker(s, 0);
    lemma_no_marker_no_pairs(s, 0);
}

/// The restrictions of a query: a mapping from key to value, kept as pairs
/// with pairwise distinct keys.
pub struct Restrictions {
    pairs: Vec<(String, String)>,
}

impl Restrictions {
    /// The stored pairs, by their character sequences.
    pub closed spec fn pair_views(&self) -> Seq<(Seq<char>, Seq<char>)> {
        self.pairs@.map_values(|p: (String, String)| (p.0@, p.1@))
    }

    /// The mapping the pairs denote.
    pub open spec fn as_map(&self) -> Map<Seq<char>, Seq<char>> {
        pairs_map(self.pair_views())
    }

    /// No two stored pairs share a key.
    pub closed spec fn well_formed(&self) -> bool {
        forall|i: int, j: int|
            0 <= i < j < self.pair_views().len() ==> #[trigger] self.pair_views()[i].0
                != #[trigger] self.pair_views()[j].0
    }

    pub fn new() -> (r: Self)
        ensures
            r.well_formed(),
            r.as_map() == Map::<Seq<char>, Seq<char>>::empty(),
    {
        let r = Restrictions { pairs: Vec::new() };
        proof {
            assert(r.pair_views() =~= Seq::empty());
        }
        r
    }

    /// Adds `key: value`, overwriting the value of an existing equal key.
    pub fn insert(&mut self, key: String, value: String)
        requires
            old(self).well_formed(),
        ensures
            final(self).well_formed(),
            final(self).as_map() == old(self).as_map().insert(key@, value@),
    {
        let n = self.pairs.len();
        let mut j: usize = 0;
        while j < n
            invariant
                0 <= j <= n,
                n == self.pairs.len(),
                *self == *old(self),
                self.well_formed(),
                forall|k: int| 0 <= k < j ==> #[trigger] self.pair_views()[k].0 != key@,
            decreases n - j,
        {
            if self.pairs[j].0.eq(&key) {
                let removed = self.pairs.remove(j);
                self.pairs.insert(j, (key, value));
                proof {
                    assert(self.pair_views() =~= old(self).pair_views().update(
                        j as int,
                        (removed.0@, value@),
                    ));
                    lemma_pairs_map_update(old(self).pair_views(), j as int, value@);
                }
                return ;
            }
            j += 1;
        }
        self.pairs.push((key, value));
        proof {
            assert(self.pair_views() =~= old(self).pair_views().push((key@, value@)));
            assert(self.pair_views().drop_last() =~= old(self).pair_views());
        }
    }

    /// Looks a key up; `Some` exactly when the key is restricted.
    pub fn get(&self, key: &str) -> (r: Option<String>)
        requires
            self.well_formed(),
        ensures
            match r {
                Some(v) => self.as_map().contains_key(key@) && v@ == self.as_map()[key@],
                None => !self.as_map().contains_key(key@),
            },
    {
        let wanted = key.to_owned();
        let n = self.pairs.len();
        let mut j: usize = 0;
        while j < n
            invariant
                0 <= j <= n,
                n == self.pairs.len(),
                self.well_formed(),
                wanted@ == key@,
                forall|k: int| 0 <= k < j ==> #[trigger] self.pair_views()[k].0 != key@,
            decreases n - j,
        {
            if self.pairs[j].0.eq(&wanted) {
                proof {
                    lemma_pairs_map_get(self.pair_views(), j as int);
                }
                return Some(self.pairs[j].1.clone());
            }
            j += 1;
        }
        proof {
            lemma_pairs_map_absent(self.pair_views(), key@);
        }
        None
    }

    /// Whether no restriction is present.
    pub fn is_empty(&self) -> (r: bool)
        ensures
            r == (self.as_map() == Map::<Seq<char>, Seq<char>>::empty()),
    {
        let r = self.pairs.len() == 0;
        proof {
            if self.pair_views().len() == 0 {
                assert(self.pair_views() =~= Seq::empty());
            } else {
                let last = self.pair_views().last();
                assert(self.as_map().contains_key(last.0));
                assert(!Map::<Seq<char>, Seq<char>>::empty().contains_key(last.0));
            }
        }
        r
    }
}

/// Overwriting the value of the (unique) pair holding a key changes the
/// denoted mapping as an insert of that key does.
proof fn lemma_pairs_map_update(vs: Seq<(Seq<char>, Seq<char>)>, j: int, v: Seq<char>)
    requires
        0 <= j < vs.len(),
        forall|a: int, b: int| 0 <= a < b < vs.len() ==> #[trigger] vs[a].0 != #[trigger] vs[b].0,
    ensures
        pairs_map(vs.update(j, (vs[j].0, v))) == pairs_map(vs).insert(vs[j].0, v),
    decreases vs.len(),
{
    let upd = vs.update(j, (vs[j].0, v));
    if j == vs.len() - 1 {
        assert(upd.drop_last() =~= vs.drop_last());
        assert(pairs_map(upd) =~= pairs_map(vs).insert(vs[j].0, v));
    } else {
        assert(upd.drop_last() =~= vs.drop_last().update(j, (vs[j].0, v)));
        assert(forall|a: int, b: int|
            0 <= a < b < vs.drop_last().len() ==> #[trigger] vs.drop_last()[a].0
                != #[trigger] vs.drop_last()[b].0);
        lemma_pairs_map_update(vs.drop_last(), j, v);
        assert(vs[j].0 != vs.last().0);
        assert(pairs_map(upd) =~= pairs_map(vs).insert(vs[j].0, v));
    }
}

/// With pairwise distinct keys, the pair at `j` gives the mapping's value.
proof fn lemma_pairs_map_get(vs: Seq<(Seq<char>, Seq<char>)>, j: int)
    requires
        0 <= j < vs.len(),
        forall|a: int, b: int| 0 <= a < b < vs.len() ==> #[trigger] vs[a].0 != #[trigger] vs[b].0,
    ensures
        pairs_map(vs).contains_key(vs[j].0),
        pairs_map(vs)[vs[j].0] == vs[j].1,
    decreases vs.len(),
{
    if j < vs.len() - 1 {
        assert(forall|a: int, b: int|
            0 <= a < b < vs.drop_last().len() ==> #[trigger] vs.drop_last()[a].0
                != #[trigger] vs.drop_last()[b].0);
        lemma_pairs_map_get(vs.drop_last(), j);
        assert(vs[j].0 != vs.last().0);
    }
}

/// A key held by no pair is absent from the mapping.
proof fn lemma_pairs_map_absent(vs: Seq<(Seq<char>, Seq<char>)>, key: Seq<char>)
    requires
        forall|a: int| 0 <= a < vs.len() ==> #[trigger] vs[a].0 != key,
    ensures
        !pairs_map(vs).contains_key(key),
    decreases vs.len(),
{
    if vs.len() > 0 {
        lemma_pairs_map_absent(vs.drop_last(), key);
    }
}

fn scan_ident_end(s: &str, i: usize) -> (r: usize)
    requires
        i as int <= s@.len(),
    ensures
        r == ident_run_end(s@, i as int),
        i <= r <= s@.len(),
    decreases s@.len() - i as int,
{
    let n = s.unicode_len();
    if i == n {
        i
    } else if ident_char(s.get_char(i)) {
        scan_ident_end(s, i + 1)
    } else {
        i
    }
}

fn scan_nonspace_end(s: &str, i: usize) -> (r: usize)
    requires
        i as int <= s@.len(),
    ensures
        r == nonspace_run_end(s@, i as int),
        i <= r <= s@.len(),
    decreases s@.len() - i as int,
{
    let n = s.unicode_len();
    if i == n {
        i
    } else if !space_char(s.get_char(i)) {
        scan_nonspace_end(s, i + 1)
    } else {
        i
    }
}

fn scan_space_end(s: &str, i: usize) -> (r: usize)
    requires
        i as int <= s@.len(),
    ensures
        r == space_run_end(s@, i as int),
        i <= r <= s@.len(),
    decreases s@.len() - i as int,
{
    let n = s.unicode_len();
    if i == n {
        i
    } else if space_char(s.get_char(i)) {
        scan_space_end(s, i + 1)
    } else {
        i
    }
}

fn scan_space_start(s: &str, e: usize) -> (r: usize)
    requires
        e as int <= s@.len(),
    ensures
        r == space_run_start(s@, e as int),
        r <= e,
    decreases e,
{
    if e > 0 && space_char(s.get_char(e - 1)) {
        scan_space_start(s, e - 1)
    } else {
        e
    }
}

fn scan_ident_start(s: &str, e: usize) -> (r: usize)
    requires
        e as int <= s@.len(),
    ensures
        r == ident_run_start(s@, e as int),
        r <= e,
    decreases e,
{
    if e > 0 && ident_char(s.get_char(e - 1)) {
        scan_ident_start(s, e - 1)
    } else {
        e
    }
}

fn scan_first_marker(s: &str, i: usize) -> (r: usize)
    requires
        i as int <= s@.len(),
    ensures
        r == first_marker_from(s@, i as int),
        i <= r <= s@.len(),
    decreases s@.len() - i as int,
{
    let n = s.unicode_len();
    if i == n {
        i
    } else if s.get_char(i) == ':' && i > 0 && ident_char(s.get_char(i - 1)) {
        i
    } else {
        scan_first_marker(s, i + 1)
    }
}

/// `s` with surrounding whitespace removed.
fn trim_str(s: &str) -> (r: String)
    ensures
        r@ == trim_of(s@),
{
    let n = s.unicode_len();
    let a = scan_space_end(s, 0);
    if a == n {
        String::new()
    } else {
        proof {
            lemma_trim_bounds(s@);
        }
        let b = scan_space_start(s, n);
        s.substring_char(a, b).to_owned()
    }
}

/// Finds the restriction starting exactly at `i`, if any, returning the end
/// of its key run and the end of its value run.
fn try_match(s: &str, i: usize) -> (r: Option<(usize, usize)>)
    requires
        (i as int) < s@.len(),
    ensures
        r is Some <==> restriction_match_at(s@, i as int),
        r matches Some((e, w)) ==> {
            &&& e == ident_run_end(s@, i as int)
            &&& w == nonspace_run_end(s@, e as int + 1)
            &&& i < e < s@.len()
            &&& e + 1 < w <= s@.len()
        },
{
    let n = s.unicode_len();
    if !ident_char(s.get_char(i)) {
        return None;
    }
    let e = scan_ident_end(s, i);
    proof {
        lemma_run_end(s@, i as int, |c: char| is_ident_char(c));
    }
    if e == n {
        return None;
    }
    if s.get_char(e) != ':' {
        return None;
    }
    let w = scan_nonspace_end(s, e + 1);
    if w == e + 1 {
        return None;
    }
    Some((e, w))
}

/// A raw query, parsed: the free-text search term and the restrictions.
pub struct SearchQuery {
    pub search_term: String,
    pub restrictions: Restrictions,
}

/// The query could not yield a search-term token.
#[derive(Clone, Copy, PartialEq, Eq, Structural, Debug)]
pub struct ParseError;

impl SearchQuery {
    /// Splits a raw query into its trimmed free-text search term and its
    /// `key:value` restrictions. Every query parses; the error is kept for
    /// defence only.
    pub fn from_query_string(query: &str) -> (r: Result<SearchQuery, ParseError>)
        ensures
            r is Ok,
            r matches Ok(q) ==> {
                &&& q.search_term@ == search_term_of(query@)
                &&& q.restrictions.well_formed()
                &&& q.restrictions.as_map() == restrictions_of(query@)
            },
    {
        Ok(
            SearchQuery {
                search_term: Self::parse_search_term(query),
                restrictions: Self::parse_restrictions(query),
            },
        )
    }

    fn parse_search_term(query: &str) -> (r: String)
        ensures
            r@ == search_term_of(query@),
    {
        let n = query.unicode_len();
        let e = scan_first_marker(query, 0);
        if e == n {
            trim_str(query)
        } else {
            let m = scan_ident_start(query, e);
            trim_str(query.substring_char(0, m))
        }
    }

    fn parse_restrictions(query: &str) -> (r: Restrictions)
        ensures
            r.well_formed(),
            r.as_map() == restrictions_of(query@),
    {
        let n = query.unicode_len();
        let mut res = Restrictions::new();
        let ghost mut done: Seq<(Seq<char>, Seq<char>)> = Seq::empty();
        let mut i: usize = 0;
        while i < n
            invariant
                i <= n,
                n == query@.len(),
                res.well_formed(),
                res.as_map() == pairs_map(done),
                done + restriction_pairs_from(query@, i as int) == restriction_pairs_from(
                    query@,
                    0,
                ),
            decreases n - i,
        {
            match try_match(query, i) {
                Some((e, w)) => {
                    let key = query.substring_char(i, e).to_owned();
                    let value = query.substring_char(e + 1, w).to_owned();
                    proof {
                        let p = (key@, value@);
                        assert(done.push(p).drop_last() =~= done);
                        assert(done.push(p) + restriction_pairs_from(query@, w as int) =~= done
                            + restriction_pairs_from(query@, i as int));
                        done = done.push(p);
                    }
                    res.insert(key, value);
                    i = w;
                },
                None => {
                    proof {
                        assert(restriction_pairs_from(query@, i as int)
                            =~= restriction_pairs_from(query@, i as int + 1));
                    }
                    i += 1;
                },
            }
        }
        proof {
            assert(done + restriction_pairs_from(query@, n as int) =~= done);
        }
        res
    }
}

} // verus!
