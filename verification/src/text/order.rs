//! The order of texts: character by character, as code points.
use vstd::prelude::*;

use crate::text::chars::to_chars;
use crate::text::search;

verus! {

/// `a` comes before `b`, both looked at from position `i` on: at the first place
/// where they differ it has the smaller character, or it ends where `b` goes on.
pub open spec fn before_from(a: Seq<char>, b: Seq<char>, i: int) -> bool
    decreases a.len() - i,
{
    if i < 0 || i >= b.len() {
        false
    } else if i >= a.len() {
        true
    } else if a[i] != b[i] {
        a[i] < b[i]
    } else {
        before_from(a, b, i + 1)
    }
}

pub open spec fn comes_before(a: Seq<char>, b: Seq<char>) -> bool {
    before_from(a, b, 0)
}

/// No text stands behind one that comes after it.
pub open spec fn in_order(v: Seq<Seq<char>>) -> bool {
    forall|i: int, j: int|
        0 <= i < j < v.len() ==> !comes_before(#[trigger] v[j], #[trigger] v[i])
}

pub proof fn lemma_before_trans(a: Seq<char>, b: Seq<char>, c: Seq<char>, i: int)
    requires
        0 <= i,
        !before_from(b, a, i),
        !before_from(c, b, i),
    ensures
        !before_from(c, a, i),
    decreases a.len() - i + b.len() - i + c.len() - i,
{
    if i < a.len() && i < c.len() && i < b.len() && c[i] == a[i] && b[i] == a[i] {
        lemma_before_trans(a, b, c, i + 1);
    }
}

/// Texts that are not in either order are the same.
pub proof fn lemma_before_total(a: Seq<char>, b: Seq<char>, i: int)
    requires
        0 <= i <= a.len(),
        i <= b.len(),
        a.take(i) == b.take(i),
        !before_from(a, b, i),
        !before_from(b, a, i),
    ensures
        a == b,
    decreases a.len() - i,
{
    if i < a.len() && i < b.len() {
        assert(a[i] == b[i]);
        assert(a.take(i + 1) =~= a.take(i).push(a[i]));
        assert(b.take(i + 1) =~= b.take(i).push(b[i]));
        lemma_before_total(a, b, i + 1);
    } else {
        assert(a.len() == i && b.len() == i);
        assert(a =~= a.take(i));
        assert(b =~= b.take(i));
    }
}

pub fn is_before(a: &str, b: &str) -> (r: bool)
    ensures
        r == comes_before(a@, b@),
{
    let x = to_chars(a);
    let y = to_chars(b);
    let mut i: usize = 0;
    loop
        invariant
            i <= x@.len(),
            i <= y@.len(),
            x@ == a@,
            y@ == b@,
            comes_before(a@, b@) == before_from(a@, b@, i as int),
        decreases x@.len() - i,
    {
        if i >= y.len() {
            return false;
        }
        if i >= x.len() {
            return true;
        }
        if x[i] != y[i] {
            return x[i] < y[i];
        }
        i = i + 1;
    }
}

/// Puts texts in order.
pub fn sort_texts(v: &mut Vec<String>)
    ensures
        in_order(search::views(final(v)@)),
        search::views(final(v)@).to_multiset() == search::views(old(v)@).to_multiset(),
        final(v)@.len() == old(v)@.len(),
{
    let ghost start = search::views(v@);
    let n: usize = v.len();
    let mut done: usize = 0;
    while done < n
        invariant
            done <= n,
            n == v@.len(),
            start == search::views(old(v)@),
            search::views(v@).to_multiset() == start.to_multiset(),
            in_order(search::views(v@).take(done as int)),
        decreases n - done,
    {
        let mut k: usize = done;
        let ghost base = search::views(v@);
        proof {
            assert forall|i: int, j: int| 0 <= i < j < done implies !comes_before(
                #[trigger] base[j],
                #[trigger] base[i],
            ) by {
                assert(base.take(done as int)[i] == base[i]);
                assert(base.take(done as int)[j] == base[j]);
            }
            if done == 0 {
                assert(in_order(base.take(1)));
            }
        }
        // everything up to `done` but the text at `k` is in order, and whatever
        // stands behind it comes after it
        while k > 0
            invariant
                k <= done,
                done < n,
                n == v@.len(),
                search::views(v@).to_multiset() == start.to_multiset(),
                forall|i: int, j: int|
                    0 <= i < j <= done && i != k && j != k ==> !comes_before(
                        #[trigger] search::views(v@)[j],
                        #[trigger] search::views(v@)[i],
                    ),
                forall|j: int|
                    k < j <= done ==> !comes_before(
                        #[trigger] search::views(v@)[j],
                        search::views(v@)[k as int],
                    ),
            ensures
                k <= done,
                n == v@.len(),
                search::views(v@).to_multiset() == start.to_multiset(),
                in_order(search::views(v@).take(done + 1)),
            decreases k,
        {
            let ghost w = search::views(v@);
            assert(w[k as int] == v@[k as int]@);
            assert(w[k - 1] == v@[k - 1]@);
            if !is_before(v[k].as_str(), v[k - 1].as_str()) {
                proof {
                    let t = w.take(done + 1);
                    assert forall|i: int, j: int| 0 <= i < j < t.len() implies !comes_before(
                        #[trigger] t[j],
                        #[trigger] t[i],
                    ) by {
                        assert(t[i] == w[i] && t[j] == w[j]);
                        if j == k && i < k - 1 {
                            assert(!comes_before(w[k - 1], w[i]));
                            lemma_before_trans(w[i], w[k - 1], w[k as int], 0);
                        }
                    }
                }
                break;
            }
            let a = v[k].clone();
            let b = v[k - 1].clone();
            v.set(k, b);
            v.set(k - 1, a);
            proof {
                let w2 = search::views(v@);
                assert(w2 =~= w.update(k as int, w[k - 1]).update(k - 1, w[k as int]));
                lemma_swap_multiset(w, k as int);
                let m = (k - 1) as int;
                assert forall|i: int, j: int| 0 <= i < j <= done && i != m && j != m implies !comes_before(
                    #[trigger] w2[j],
                    #[trigger] w2[i],
                ) by {
                    if j == k {
                        assert(w2[j] == w[k - 1] && w2[i] == w[i]);
                        assert(!comes_before(w[k - 1], w[i]));
                    } else if i == k {
                        assert(w2[i] == w[k - 1] && w2[j] == w[j]);
                        assert(!comes_before(w[j], w[k - 1]));
                    } else {
                        assert(w2[i] == w[i] && w2[j] == w[j]);
                    }
                }
                assert forall|j: int| m < j <= done implies !comes_before(
                    #[trigger] w2[j],
                    w2[m],
                ) by {
                    if j == k {
                        lemma_before_asym(w[k as int], w[k - 1], 0);
                    } else {
                        assert(w2[j] == w[j]);
                    }
                }
            }
            k = k - 1;
            proof {
                if k == 0 {
                    let w2 = search::views(v@);
                    let t = w2.take(done + 1);
                    assert forall|i: int, j: int| 0 <= i < j < t.len() implies !comes_before(
                        #[trigger] t[j],
                        #[trigger] t[i],
                    ) by {
                        assert(t[i] == w2[i] && t[j] == w2[j]);
                    }
                }
            }
        }
        done = done + 1;
    }
    assert(search::views(v@).take(n as int) =~= search::views(v@));
}

pub proof fn lemma_before_asym(a: Seq<char>, b: Seq<char>, i: int)
    requires
        0 <= i,
        before_from(a, b, i),
    ensures
        !before_from(b, a, i),
    decreases a.len() - i,
{
    if i < a.len() && i < b.len() && a[i] == b[i] {
        lemma_before_asym(a, b, i + 1);
    }
}

proof fn lemma_swap_multiset(w: Seq<Seq<char>>, k: int)
    requires
        0 < k < w.len(),
    ensures
        w.update(k, w[k - 1]).update(k - 1, w[k]).to_multiset() == w.to_multiset(),
{
    broadcast use vstd::seq_lib::group_to_multiset_ensures;

    let a = w.update(k, w[k - 1]);
    assert(a.update(k - 1, w[k]).to_multiset() =~= w.to_multiset());
}

} // verus!
