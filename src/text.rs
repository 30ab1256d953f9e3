//! Character-level string predicates and searches with exact specifications.

use vstd::prelude::*;

verus! {

/// `p` occurs in `s` starting at character position `i`.
pub open spec fn occurs_at(s: Seq<char>, p: Seq<char>, i: int) -> bool {
    0 <= i && i + p.len() <= s.len() && s.subrange(i, i + p.len()) == p
}

pub open spec fn seq_starts_with(s: Seq<char>, p: Seq<char>) -> bool {
    occurs_at(s, p, 0)
}

pub open spec fn seq_ends_with(s: Seq<char>, p: Seq<char>) -> bool {
    p.len() <= s.len() && occurs_at(s, p, s.len() - p.len())
}

pub open spec fn seq_contains(s: Seq<char>, p: Seq<char>) -> bool {
    exists|i: int| occurs_at(s, p, i)
}

/// The first position at or after `from` where `p` occurs, if any.
pub open spec fn first_occurrence_from(s: Seq<char>, p: Seq<char>, from: int) -> Option<int> {
    if exists|i: int| from <= i && occurs_at(s, p, i) {
        Some(choose|i: int| from <= i && occurs_at(s, p, i) && forall|j: int| from <= j < i ==> !occurs_at(s, p, j))
    } else {
        None
    }
}

/// Whether `p` occurs in `s` at character position `i`.
pub fn matches_at(s: &str, p: &str, i: usize) -> (r: bool)
    ensures
        r == occurs_at(s@, p@, i as int),
{
    let n = s.unicode_len();
    let m = p.unicode_len();
    if i > n || m > n - i {
        return false;
    }
    let mut k: usize = 0;
    while k < m
        invariant
            n == s@.len(),
            m == p@.len(),
            i + m <= n,
            k <= m,
            forall|j: int| 0 <= j < k ==> s@[i + j] == p@[j],
        decreases m - k,
    {
        if s.get_char(i + k) != p.get_char(k) {
            assert(s@.subrange(i as int, i + m)[k as int] != p@[k as int]);
            return false;
        }
        k += 1;
    }
    assert(s@.subrange(i as int, i + m) =~= p@);
    true
}

pub fn same_text(a: &str, b: &str) -> (r: bool)
    ensures
        r == (a@ == b@),
{
    if a.unicode_len() != b.unicode_len() {
        return false;
    }
    let r = matches_at(a, b, 0);
    assert(a@ =~= a@.subrange(0, b@.len() as int));
    r
}

pub fn starts_with(s: &str, p: &str) -> (r: bool)
    ensures
        r == seq_starts_with(s@, p@),
{
    matches_at(s, p, 0)
}

pub fn ends_with(s: &str, p: &str) -> (r: bool)
    ensures
        r == seq_ends_with(s@, p@),
{
    let n = s.unicode_len();
    let m = p.unicode_len();
    if m > n {
        return false;
    }
    matches_at(s, p, n - m)
}

pub proof fn lemma_first_occurrence(s: Seq<char>, p: Seq<char>, from: int, g: int)
    requires
        from <= g,
        occurs_at(s, p, g),
        forall|j: int| from <= j < g ==> !occurs_at(s, p, j),
    ensures
        first_occurrence_from(s, p, from) == Some(g),
{
    let x = choose|x: int| from <= x && occurs_at(s, p, x) && forall|j: int| from <= j < x ==> !occurs_at(s, p, j);
    assert(from <= x && occurs_at(s, p, x));
    if x < g {
        assert(!occurs_at(s, p, x));
    } else if x > g {
        assert(!occurs_at(s, p, g));
    }
}

/// The first character position at or after `from` where `p` occurs.
pub fn find_from(s: &str, p: &str, from: usize) -> (r: Option<usize>)
    ensures
        match r {
            Some(i) => from <= i && occurs_at(s@, p@, i as int) && forall|j: int|
                from <= j < i ==> !occurs_at(s@, p@, j),
            None => forall|j: int| from <= j ==> !occurs_at(s@, p@, j),
        },
        r matches Some(i) ==> first_occurrence_from(s@, p@, from as int) == Some(i as int),
        r is None ==> first_occurrence_from(s@, p@, from as int) is None,
{
    let n = s.unicode_len();
    let m = p.unicode_len();
    if m > n || from > n - m {
        return None;
    }
    let last = n - m;
    let mut i: usize = from;
    loop
        invariant
            n == s@.len(),
            m == p@.len(),
            last == n - m,
            from <= i <= last,
            forall|j: int| from <= j < i ==> !occurs_at(s@, p@, j),
        decreases last - i,
    {
        if matches_at(s, p, i) {
            proof {
                lemma_first_occurrence(s@, p@, from as int, i as int);
            }
            return Some(i);
        }
        if i == last {
            return None;
        }
        i += 1;
    }
}

pub fn contains(s: &str, p: &str) -> (r: bool)
    ensures
        r == seq_contains(s@, p@),
{
    match find_from(s, p, 0) {
        Some(i) => true,
        None => {
            assert forall|j: int| !occurs_at(s@, p@, j) by {
                if j < 0 {
                }
            }
            false
        },
    }
}

/// `s` without the copies of `p` that it starts with, as many as there are.
pub open spec fn strip_leading(s: Seq<char>, p: Seq<char>) -> Seq<char>
    decreases s.len(),
{
    if p.len() > 0 && seq_starts_with(s, p) {
        strip_leading(s.subrange(p.len() as int, s.len() as int), p)
    } else {
        s
    }
}

/// `s` without the copies of `p` that it ends with, as many as there are.
pub open spec fn strip_trailing(s: Seq<char>, p: Seq<char>) -> Seq<char>
    decreases s.len(),
{
    if p.len() > 0 && seq_ends_with(s, p) {
        strip_trailing(s.subrange(0, s.len() - p.len()), p)
    } else {
        s
    }
}

/// `s` without every leading copy of `p`.
pub fn trim_start_matches(s: &str, p: &str) -> (r: String)
    ensures
        r@ == strip_leading(s@, p@),
{
    let n = s.unicode_len();
    let m = p.unicode_len();
    if m == 0 {
        return s.to_owned();
    }
    let mut i: usize = 0;
    assert(s@.subrange(0, n as int) =~= s@);
    while i <= n && m <= n - i && matches_at(s, p, i)
        invariant
            n == s@.len(),
            m == p@.len(),
            m > 0,
            i <= n,
            strip_leading(s@, p@) == strip_leading(s@.subrange(i as int, n as int), p@),
        decreases n - i,
    {
        proof {
            let t = s@.subrange(i as int, n as int);
            assert(t.subrange(0, m as int) =~= s@.subrange(i as int, i + m));
            assert(t.subrange(m as int, t.len() as int) =~= s@.subrange(i + m, n as int));
        }
        i = i + m;
    }
    proof {
        let t = s@.subrange(i as int, n as int);
        if seq_starts_with(t, p@) {
            assert(t.subrange(0, m as int) =~= s@.subrange(i as int, i + m));
        }
    }
    s.substring_char(i, n).to_owned()
}

/// `s` without every trailing copy of `p`.
pub fn trim_end_matches(s: &str, p: &str) -> (r: String)
    ensures
        r@ == strip_trailing(s@, p@),
{
    let n = s.unicode_len();
    let m = p.unicode_len();
    if m == 0 {
        return s.to_owned();
    }
    let mut e: usize = n;
    assert(s@.subrange(0, n as int) =~= s@);
    while m <= e && matches_at(s, p, e - m)
        invariant
            n == s@.len(),
            m == p@.len(),
            m > 0,
            e <= n,
            strip_trailing(s@, p@) == strip_trailing(s@.subrange(0, e as int), p@),
        decreases e,
    {
        proof {
            let t = s@.subrange(0, e as int);
            assert(t.subrange(e - m, e as int) =~= s@.subrange(e - m, e as int));
            assert(t.subrange(0, e - m) =~= s@.subrange(0, e - m));
        }
        e = e - m;
    }
    proof {
        let t = s@.subrange(0, e as int);
        if seq_ends_with(t, p@) {
            assert(t.subrange(e - m, e as int) =~= s@.subrange(e - m, e as int));
        }
    }
    s.substring_char(0, e).to_owned()
}

/// `s` with every non-overlapping occurrence of `from`, taken from the left,
/// replaced by `to`.
#[verifier::opaque]
pub open spec fn replace_all_text(s: Seq<char>, from: Seq<char>, to: Seq<char>) -> Seq<char>
    decreases s.len(),
{
    if from.len() == 0 {
        s
    } else {
        match first_occurrence_from(s, from, 0) {
            Some(i) => if 0 <= i && i + from.len() <= s.len() {
                s.subrange(0, i) + to + replace_all_text(s.subrange(i + from.len(), s.len() as int), from, to)
            } else {
                s
            },
            None => s,
        }
    }
}

/// Lower-case form of a text, as std's Unicode case mapping gives it.
pub uninterp spec fn lower_of(s: Seq<char>) -> Seq<char>;

proof fn lemma_occurs_shift(s: Seq<char>, p: Seq<char>, pos: int)
    requires
        0 <= pos <= s.len(),
    ensures
        forall|i: int| 0 <= i ==> (occurs_at(s.subrange(pos, s.len() as int), p, i) <==> #[trigger] occurs_at(s, p, i + pos)),
{
    assert forall|i: int| 0 <= i implies (occurs_at(s.subrange(pos, s.len() as int), p, i) <==> #[trigger] occurs_at(s, p, i + pos)) by {
        let t = s.subrange(pos, s.len() as int);
        if i + p.len() <= t.len() {
            assert(t.subrange(i, i + p.len()) =~= s.subrange(i + pos, i + pos + p.len()));
        }
    }
}

proof fn lemma_replace_step(s: Seq<char>, from: Seq<char>, to: Seq<char>, pos: int, i: int)
    requires
        from.len() > 0,
        0 <= pos <= i,
        occurs_at(s, from, i),
        forall|j: int| pos <= j < i ==> !occurs_at(s, from, j),
    ensures
        replace_all_text(s.subrange(pos, s.len() as int), from, to) == s.subrange(pos, i) + to
            + replace_all_text(s.subrange(i + from.len(), s.len() as int), from, to),
{
    reveal(replace_all_text);
    let t = s.subrange(pos, s.len() as int);
    let g = i - pos;
    lemma_occurs_shift(s, from, pos);
    assert forall|j: int| 0 <= j < g implies !occurs_at(t, from, j) by {
        assert(!occurs_at(s, from, j + pos));
    }
    assert(occurs_at(s, from, g + pos));
    lemma_first_occurrence(t, from, 0, g);
    assert(t.subrange(0, g) =~= s.subrange(pos, i));
    assert(t.subrange(g + from.len(), t.len() as int) =~= s.subrange(i + from.len(), s.len() as int));
}

proof fn lemma_replace_none(s: Seq<char>, from: Seq<char>, to: Seq<char>, pos: int)
    requires
        from.len() > 0,
        0 <= pos <= s.len(),
        forall|j: int| pos <= j ==> !occurs_at(s, from, j),
    ensures
        replace_all_text(s.subrange(pos, s.len() as int), from, to) == s.subrange(pos, s.len() as int),
{
    reveal(replace_all_text);
    let t = s.subrange(pos, s.len() as int);
    lemma_occurs_shift(s, from, pos);
    assert forall|j: int| !occurs_at(t, from, j) by {
        if 0 <= j {
            assert(!occurs_at(s, from, j + pos));
        }
    }
    assert(first_occurrence_from(t, from, 0) is None);
}

/// `s` with every non-overlapping occurrence of a non-empty `from`, taken from
/// the left, replaced by `to`.
pub fn replace_all(s: &str, from: &str, to: &str) -> (r: String)
    requires
        from@.len() > 0,
    ensures
        r@ == replace_all_text(s@, from@, to@),
{
    let n = s.unicode_len();
    let m = from.unicode_len();
    let mut out = String::new();
    let mut pos: usize = 0;
    assert(s@.subrange(0, n as int) =~= s@);
    loop
        invariant
            n == s@.len(),
            m == from@.len(),
            m > 0,
            pos <= n,
            replace_all_text(s@, from@, to@) == out@ + replace_all_text(s@.subrange(pos as int, n as int), from@, to@),
        decreases n - pos,
    {
        match find_from(s, from, pos) {
            Some(i) => {
                proof {
                    lemma_replace_step(s@, from@, to@, pos as int, i as int);
                }
                let ghost before = out@;
                let head = s.substring_char(pos, i);
                out.append(head);
                out.append(to);
                assert(out@ + replace_all_text(s@.subrange(i + m, n as int), from@, to@) =~= before + (
                head@ + to@ + replace_all_text(s@.subrange(i + m, n as int), from@, to@)));
                pos = i + m;
            },
            None => {
                proof {
                    lemma_replace_none(s@, from@, to@, pos as int);
                }
                let tail = s.substring_char(pos, n);
                out.append(tail);
                return out;
            },
        }
    }
}

/// Relies on `str::to_lowercase`: the result depends on the characters alone.
#[verifier::external_body]
pub(crate) fn to_lower(s: &str) -> (r: String)
    ensures
        r@ == lower_of(s@),
{
    s.to_lowercase()
}

} // verus!
