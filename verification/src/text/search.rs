//! Finding, splitting and joining.
use vstd::prelude::*;

use crate::text::chars::{same_text, slice_text, to_chars};

verus! {

/// `p` stands in `s` at position `i`.
pub open spec fn occurs_at(s: Seq<char>, p: Seq<char>, i: int) -> bool {
    0 <= i && i + p.len() <= s.len() && s.subrange(i, i + p.len()) == p
}

/// `p` stands somewhere in `s`.
pub open spec fn has_text(s: Seq<char>, p: Seq<char>) -> bool {
    exists|i: int| occurs_at(s, p, i)
}

pub open spec fn has_prefix(s: Seq<char>, p: Seq<char>) -> bool {
    occurs_at(s, p, 0)
}

pub open spec fn has_suffix(s: Seq<char>, p: Seq<char>) -> bool {
    occurs_at(s, p, s.len() - p.len())
}

/// The first position at or after `from` where `p` stands in `s`.
pub open spec fn find_from(s: Seq<char>, p: Seq<char>, from: int) -> Option<int>
    decreases s.len() - from + 1,
{
    if from < 0 || from + p.len() > s.len() {
        None
    } else if occurs_at(s, p, from) {
        Some(from)
    } else {
        find_from(s, p, from + 1)
    }
}

pub open spec fn find_text(s: Seq<char>, p: Seq<char>) -> Option<int> {
    find_from(s, p, 0)
}

/// The last position at or before `upto` where `p` stands in `s`.
pub open spec fn rfind_from(s: Seq<char>, p: Seq<char>, upto: int) -> Option<int>
    decreases upto + 1,
{
    if upto < 0 {
        None
    } else if occurs_at(s, p, upto) {
        Some(upto)
    } else {
        rfind_from(s, p, upto - 1)
    }
}

pub open spec fn rfind_text(s: Seq<char>, p: Seq<char>) -> Option<int> {
    rfind_from(s, p, s.len() - p.len())
}

/// The pieces of `s` between the occurrences of the non-empty `p`, found from
/// the left and without overlap.
pub open spec fn split_text(s: Seq<char>, p: Seq<char>) -> Seq<Seq<char>>
    decreases s.len(),
{
    match find_text(s, p) {
        Some(i) => if p.len() > 0 && 0 <= i && i + p.len() <= s.len() {
            seq![s.take(i)] + split_text(s.skip(i + p.len()), p)
        } else {
            seq![s]
        },
        None => seq![s],
    }
}

/// The parts one after the other with `sep` between each two.
pub open spec fn join_text(parts: Seq<Seq<char>>, sep: Seq<char>) -> Seq<char>
    decreases parts.len(),
{
    if parts.len() == 0 {
        Seq::empty()
    } else if parts.len() == 1 {
        parts[0]
    } else {
        join_text(parts.drop_last(), sep) + sep + parts.last()
    }
}

/// `s` with every occurrence of `p` (from the left, without overlap) replaced.
pub open spec fn replace_all(s: Seq<char>, p: Seq<char>, q: Seq<char>) -> Seq<char> {
    join_text(split_text(s, p), q)
}

/// The views of a vector of strings.
pub open spec fn views(v: Seq<String>) -> Seq<Seq<char>> {
    v.map_values(|s: String| s@)
}

pub proof fn lemma_find_from(s: Seq<char>, p: Seq<char>, from: int)
    requires
        0 <= from,
    ensures
        match find_from(s, p, from) {
            Some(i) => from <= i && occurs_at(s, p, i) && forall|j: int|
                from <= j < i ==> !occurs_at(s, p, j),
            None => forall|j: int| from <= j ==> !occurs_at(s, p, j),
        },
    decreases s.len() - from + 1,
{
    if from + p.len() > s.len() {
    } else if occurs_at(s, p, from) {
    } else {
        lemma_find_from(s, p, from + 1);
    }
}

/// A text is found exactly where it first stands.
pub proof fn lemma_find_is_first(s: Seq<char>, p: Seq<char>, i: int)
    requires
        occurs_at(s, p, i),
        forall|j: int| 0 <= j < i ==> !occurs_at(s, p, j),
    ensures
        find_text(s, p) == Some(i),
{
    lemma_find_from(s, p, 0);
    let f = find_text(s, p);
    if f is Some {
        let k = f->0;
        if k < i {
            assert(!occurs_at(s, p, k));
        }
    }
}

/// Searching succeeds exactly when the text occurs.
pub proof fn lemma_find_iff_has(s: Seq<char>, p: Seq<char>)
    ensures
        find_text(s, p) is Some <==> has_text(s, p),
{
    lemma_find_from(s, p, 0);
    if find_text(s, p) is Some {
        assert(occurs_at(s, p, find_text(s, p)->0));
    }
}

pub proof fn lemma_rfind_from(s: Seq<char>, p: Seq<char>, upto: int)
    ensures
        match rfind_from(s, p, upto) {
            Some(i) => 0 <= i <= upto && occurs_at(s, p, i) && forall|j: int|
                i < j <= upto ==> !occurs_at(s, p, j),
            None => forall|j: int| j <= upto ==> !occurs_at(s, p, j),
        },
    decreases upto + 1,
{
    if upto < 0 {
    } else if occurs_at(s, p, upto) {
    } else {
        lemma_rfind_from(s, p, upto - 1);
    }
}

/// Splitting and joining with the same separator gives the text back.
pub proof fn lemma_join_split(s: Seq<char>, p: Seq<char>)
    requires
        p.len() > 0,
    ensures
        split_text(s, p).len() >= 1,
        join_text(split_text(s, p), p) == s,
    decreases s.len(),
{
    lemma_find_from(s, p, 0);
    match find_text(s, p) {
        Some(i) => {
            let rest = s.skip(i + p.len());
            lemma_join_split(rest, p);
            lemma_join_prepend(s.take(i), split_text(rest, p), p);
            assert(s =~= s.take(i) + p + rest) by {
                assert(s.subrange(i, i + p.len()) == p);
            }
        },
        None => {
            assert(seq![s].drop_last() =~= Seq::<Seq<char>>::empty());
        },
    }
}

pub proof fn lemma_join_prepend(a: Seq<char>, parts: Seq<Seq<char>>, sep: Seq<char>)
    requires
        parts.len() >= 1,
    ensures
        join_text(seq![a] + parts, sep) == a + sep + join_text(parts, sep),
    decreases parts.len(),
{
    let whole = seq![a] + parts;
    assert(whole.last() == parts.last());
    assert(whole.drop_last() =~= seq![a] + parts.drop_last());
    if parts.len() == 1 {
        assert(whole.drop_last() =~= seq![a]);
        assert(join_text(seq![a], sep) == a);
    } else {
        lemma_join_prepend(a, parts.drop_last(), sep);
        assert(join_text(whole, sep) =~= a + sep + join_text(parts, sep));
    }
}

/// Whether `p` stands in `s` at position `i`.
pub fn matches_at(s: &Vec<char>, p: &Vec<char>, i: usize) -> (r: bool)
    requires
        i <= s@.len(),
    ensures
        r == occurs_at(s@, p@, i as int),
{
    if p.len() > s.len() - i {
        return false;
    }
    let n: usize = s.len();
    let mut k: usize = 0;
    while k < p.len()
        invariant
            n == s@.len(),
            i + p@.len() <= n,
            k <= p@.len(),
            forall|m: int| 0 <= m < k ==> s@[i + m] == p@[m],
        decreases p@.len() - k,
    {
        if s[i + k] != p[k] {
            assert(s@.subrange(i as int, i + p@.len())[k as int] != p@[k as int]);
            return false;
        }
        k = k + 1;
    }
    assert(s@.subrange(i as int, i + p@.len()) =~= p@);
    true
}

/// The first position at or after `from` where `p` stands in `s`.
pub fn find_chars(s: &Vec<char>, p: &Vec<char>, from: usize) -> (r: Option<usize>)
    requires
        from <= s@.len(),
    ensures
        match r {
            Some(i) => find_from(s@, p@, from as int) == Some(i as int) && from <= i && i + p@.len()
                <= s@.len(),
            None => find_from(s@, p@, from as int) is None,
        },
{
    let mut i: usize = from;
    loop
        invariant
            from <= i <= s@.len(),
            find_from(s@, p@, from as int) == find_from(s@, p@, i as int),
        decreases s@.len() - i,
    {
        if p.len() > s.len() - i {
            return None;
        }
        if matches_at(s, p, i) {
            return Some(i);
        }
        if i == s.len() {
            assert(find_from(s@, p@, i + 1) is None);
            return None;
        }
        i = i + 1;
    }
}

pub fn rfind_chars(s: &Vec<char>, p: &Vec<char>) -> (r: Option<usize>)
    ensures
        match r {
            Some(i) => rfind_text(s@, p@) == Some(i as int) && i + p@.len() <= s@.len(),
            None => rfind_text(s@, p@) is None,
        },
{
    if p.len() > s.len() {
        return None;
    }
    let mut i: usize = s.len() - p.len();
    loop
        invariant
            i + p@.len() <= s@.len(),
            rfind_text(s@, p@) == rfind_from(s@, p@, i as int),
        decreases i,
    {
        if matches_at(s, p, i) {
            return Some(i);
        }
        if i == 0 {
            assert(rfind_from(s@, p@, -1) is None);
            return None;
        }
        i = i - 1;
    }
}

pub fn contains(s: &str, p: &str) -> (r: bool)
    ensures
        r == has_text(s@, p@),
{
    let sv = to_chars(s);
    let pv = to_chars(p);
    let f = find_chars(&sv, &pv, 0);
    proof {
        lemma_find_iff_has(s@, p@);
    }
    f.is_some()
}

pub fn starts_with(s: &str, p: &str) -> (r: bool)
    ensures
        r == has_prefix(s@, p@),
{
    let sv = to_chars(s);
    let pv = to_chars(p);
    matches_at(&sv, &pv, 0)
}

pub fn ends_with(s: &str, p: &str) -> (r: bool)
    ensures
        r == has_suffix(s@, p@),
{
    let sv = to_chars(s);
    let pv = to_chars(p);
    if pv.len() > sv.len() {
        return false;
    }
    matches_at(&sv, &pv, sv.len() - pv.len())
}

/// `s` without the prefix `p`, where it has it.
pub fn strip_prefix(s: &str, p: &str) -> (r: Option<String>)
    ensures
        match r {
            Some(t) => has_prefix(s@, p@) && t@ == s@.skip(p@.len() as int),
            None => !has_prefix(s@, p@),
        },
{
    let sv = to_chars(s);
    let pv = to_chars(p);
    if matches_at(&sv, &pv, 0) {
        let t = slice_text(&sv, pv.len(), sv.len());
        assert(t@ =~= s@.skip(p@.len() as int));
        Some(t)
    } else {
        None
    }
}

pub proof fn lemma_views_push(v: Seq<String>, s: String)
    ensures
        views(v.push(s)) == views(v).push(s@),
{
    assert(views(v.push(s)) =~= views(v).push(s@));
}

pub proof fn lemma_join_push(parts: Seq<Seq<char>>, sep: Seq<char>, x: Seq<char>)
    ensures
        join_text(parts.push(x), sep) == if parts.len() == 0 {
            x
        } else {
            join_text(parts, sep) + sep + x
        },
{
    assert(parts.push(x).drop_last() =~= parts);
}

/// The strings one after the other with `sep` between each two.
pub fn join(parts: &Vec<String>, sep: &str) -> (r: String)
    ensures
        r@ == join_text(views(parts@), sep@),
{
    let mut out = String::new();
    let mut i: usize = 0;
    while i < parts.len()
        invariant
            i <= parts@.len(),
            out@ == join_text(views(parts@).take(i as int), sep@),
        decreases parts@.len() - i,
    {
        let ghost before = views(parts@).take(i as int);
        if i > 0 {
            out.push_str(sep);
        }
        out.push_str(parts[i].as_str());
        i = i + 1;
        proof {
            assert(views(parts@).take(i as int) =~= before.push(parts@[i - 1]@));
            lemma_join_push(before, sep@, parts@[i - 1]@);
            if i == 1 {
                assert(before =~= Seq::<Seq<char>>::empty());
                assert(out@ =~= parts@[0]@);
            }
        }
    }
    assert(views(parts@).take(parts@.len() as int) =~= views(parts@));
    out
}

/// The pieces of `s` between the occurrences of the non-empty `p`.
pub fn split(s: &str, p: &str) -> (r: Vec<String>)
    requires
        p@.len() > 0,
    ensures
        views(r@) == split_text(s@, p@),
{
    let sv = to_chars(s);
    let pv = to_chars(p);
    let mut out: Vec<String> = Vec::new();
    let mut start: usize = 0;
    proof {
        assert(views(out@) =~= Seq::<Seq<char>>::empty());
        assert(s@.skip(0) =~= s@);
    }
    loop
        invariant
            sv@ == s@,
            pv@ == p@,
            p@.len() > 0,
            start <= sv@.len(),
            split_text(s@, p@) == views(out@) + split_text(s@.skip(start as int), p@),
        decreases sv@.len() - start,
    {
        let ghost rest = s@.skip(start as int);
        let ghost before = views(out@);
        let found = find_chars(&sv, &pv, start);
        proof {
            lemma_find_skip(s@, p@, start as int);
        }
        match found {
            Some(i) => {
                let piece = slice_text(&sv, start, i);
                proof {
                    assert(rest.take(i - start) =~= piece@);
                    lemma_views_push(out@, piece);
                    assert(rest.skip(i - start + p@.len()) =~= s@.skip(i + p@.len()));
                    assert(before + (seq![piece@] + split_text(s@.skip(i + p@.len()), p@))
                        =~= before.push(piece@) + split_text(s@.skip(i + p@.len()), p@));
                }
                out.push(piece);
                let n: usize = sv.len();
                assert(i + pv@.len() <= n);
                start = i + pv.len();
            },
            None => {
                let piece = slice_text(&sv, start, sv.len());
                proof {
                    assert(piece@ =~= rest);
                    lemma_views_push(out@, piece);
                    assert(before + seq![rest] =~= before.push(rest));
                }
                out.push(piece);
                return out;
            },
        }
    }
}

/// Searching from `k` in `s` is searching in the rest of `s` behind `k`.
pub proof fn lemma_find_skip(s: Seq<char>, p: Seq<char>, k: int)
    requires
        0 <= k <= s.len(),
    ensures
        match find_from(s, p, k) {
            Some(i) => find_text(s.skip(k), p) == Some(i - k) && k <= i && i + p.len() <= s.len(),
            None => find_text(s.skip(k), p) is None,
        },
{
    let t = s.skip(k);
    assert forall|j: int| 0 <= j implies occurs_at(t, p, j) == occurs_at(s, p, j + k) by {
        if j + p.len() <= t.len() {
            assert(t.subrange(j, j + p.len()) =~= s.subrange(j + k, j + k + p.len()));
        }
    }
    lemma_find_from(s, p, k);
    lemma_find_from(t, p, 0);
    match find_from(s, p, k) {
        Some(i) => {
            assert(occurs_at(t, p, i - k));
            match find_text(t, p) {
                Some(m) => {
                    assert(occurs_at(s, p, m + k));
                    if m < i - k {
                        assert(!occurs_at(s, p, m + k));
                    }
                },
                None => {
                    assert(!occurs_at(t, p, i - k));
                },
            }
        },
        None => {
            match find_text(t, p) {
                Some(m) => {
                    assert(occurs_at(s, p, m + k));
                },
                None => {},
            }
        },
    }
}

/// `s` with every occurrence of the non-empty `p` replaced by `q`.
pub fn replace(s: &str, p: &str, q: &str) -> (r: String)
    requires
        p@.len() > 0,
    ensures
        r@ == replace_all(s@, p@, q@),
{
    let parts = split(s, p);
    join(&parts, q)
}

/// What stands before the first `p` in `s`; all of `s` where there is none.
pub open spec fn before_text(s: Seq<char>, p: Seq<char>) -> Seq<char> {
    match find_text(s, p) {
        Some(i) => s.take(i),
        None => s,
    }
}

/// What stands before and after the first `p` in `s`.
pub open spec fn parted_text(s: Seq<char>, p: Seq<char>) -> Option<(Seq<char>, Seq<char>)> {
    match find_text(s, p) {
        Some(i) => Some((s.take(i), s.skip(i + p.len()))),
        None => None,
    }
}

pub fn before(s: &str, p: &str) -> (r: String)
    ensures
        r@ == before_text(s@, p@),
{
    let sv = to_chars(s);
    let pv = to_chars(p);
    match find_chars(&sv, &pv, 0) {
        Some(i) => {
            let t = slice_text(&sv, 0, i);
            assert(t@ =~= s@.take(i as int));
            t
        },
        None => s.to_string(),
    }
}

pub fn part(s: &str, p: &str) -> (r: Option<(String, String)>)
    ensures
        match r {
            Some((a, b)) => parted_text(s@, p@) == Some((a@, b@)),
            None => parted_text(s@, p@) is None,
        },
{
    let sv = to_chars(s);
    let pv = to_chars(p);
    let n: usize = sv.len();
    match find_chars(&sv, &pv, 0) {
        Some(i) => {
            let a = slice_text(&sv, 0, i);
            let b = slice_text(&sv, i + pv.len(), n);
            assert(a@ =~= s@.take(i as int));
            assert(b@ =~= s@.skip(i + p@.len()));
            Some((a, b))
        },
        None => None,
    }
}

/// Whether a list holds a text.
pub fn lists(list: &Vec<String>, x: &str) -> (r: bool)
    ensures
        r == views(list@).contains(x@),
{
    let ghost all = views(list@);
    let mut i: usize = 0;
    while i < list.len()
        invariant
            i <= list@.len(),
            all == views(list@),
            forall|k: int| 0 <= k < i ==> all[k] != x@,
        decreases list@.len() - i,
    {
        assert(all[i as int] == list@[i as int]@);
        if same_text(list[i].as_str(), x) {
            assert(all.contains(all[i as int]));
            return true;
        }
        i = i + 1;
    }
    false
}

} // verus!
