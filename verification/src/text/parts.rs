//! What stands in texts that are put together.
use vstd::prelude::*;

use crate::text::number;
use crate::text::search;

verus! {

/// A part stands in what it is a part of.
pub proof fn lemma_part(a: Seq<char>, b: Seq<char>, c: Seq<char>)
    ensures
        search::has_text(a + b + c, b),
{
    let s = a + b + c;
    assert(s.subrange(a.len() as int, (a.len() + b.len()) as int) =~= b);
    assert(search::occurs_at(s, b, a.len() as int));
}

/// What stands in a part stands in the whole.
pub proof fn lemma_part_of_part(s: Seq<char>, p: Seq<char>, q: Seq<char>)
    requires
        search::has_text(s, p),
        search::has_text(p, q),
    ensures
        search::has_text(s, q),
{
    let i = choose|i: int| search::occurs_at(s, p, i);
    let j = choose|j: int| search::occurs_at(p, q, j);
    assert(s.subrange(i + j, i + j + q.len()) =~= p.subrange(j, j + q.len()));
    assert(search::occurs_at(s, q, i + j));
}

/// What stands in one of two texts stands in both together.
pub proof fn lemma_part_of_sum(a: Seq<char>, b: Seq<char>, p: Seq<char>)
    ensures
        search::has_text(a, p) ==> search::has_text(a + b, p),
        search::has_text(b, p) ==> search::has_text(a + b, p),
{
    lemma_part(Seq::empty(), a, b);
    assert(Seq::<char>::empty() + a + b =~= a + b);
    lemma_part(a, b, Seq::empty());
    assert(a + b + Seq::<char>::empty() =~= a + b);
    if search::has_text(a, p) {
        lemma_part_of_part(a + b, a, p);
    }
    if search::has_text(b, p) {
        lemma_part_of_part(a + b, b, p);
    }
}

/// Every text stands in itself.
pub proof fn lemma_whole(s: Seq<char>)
    ensures
        search::has_text(s, s),
{
    assert(s.subrange(0, s.len() as int) =~= s);
    assert(search::occurs_at(s, s, 0));
}

/// Each of the texts that are joined stands in what they are joined to.
pub proof fn lemma_part_of_join(parts: Seq<Seq<char>>, sep: Seq<char>, i: int)
    requires
        0 <= i < parts.len(),
    ensures
        search::has_text(search::join_text(parts, sep), parts[i]),
    decreases parts.len(),
{
    if parts.len() == 1 {
        lemma_whole(parts[0]);
    } else {
        let first = parts.drop_last();
        let before = search::join_text(first, sep);
        if i == parts.len() - 1 {
            lemma_whole(parts.last());
            lemma_part_of_sum(before + sep, parts.last(), parts.last());
        } else {
            assert(first[i] == parts[i]);
            lemma_part_of_join(first, sep, i);
            lemma_part_of_sum(before, sep, parts[i]);
            lemma_part_of_sum(before + sep, parts.last(), parts[i]);
        }
    }
}

/// Where texts are put together from the left or from the right makes no difference.
pub proof fn lemma_assoc(a: Seq<char>, b: Seq<char>, c: Seq<char>)
    ensures
        a + (b + c) == (a + b) + c,
{
    assert(a + (b + c) =~= (a + b) + c);
}

/// Two texts with the same start and the same end differ only between them.
pub proof fn lemma_same_between(a: Seq<char>, x: Seq<char>, y: Seq<char>, b: Seq<char>)
    requires
        a + x + b == a + y + b,
    ensures
        x == y,
{
    lemma_cancel_right(a + x, a + y, b);
    lemma_cancel_left(a, x, y);
}

/// Different numbers have different numerals.
pub proof fn lemma_dec_differs(m: nat, n: nat)
    requires
        m != n,
    ensures
        number::dec(m) != number::dec(n),
{
    number::lemma_dec_digits(m);
    number::lemma_dec_digits(n);
}

/// Different integers have different numerals.
pub proof fn lemma_dec_int_differs(m: int, n: int)
    requires
        m != n,
    ensures
        number::dec_int(m) != number::dec_int(n),
{
    let (a, b) = (
        if m < 0 {
            (-m) as nat
        } else {
            m as nat
        },
        if n < 0 {
            (-n) as nat
        } else {
            n as nat
        },
    );
    number::lemma_dec_digits(a);
    number::lemma_dec_digits(b);
    assert(number::is_digit(number::dec(a)[0]));
    assert(number::is_digit(number::dec(b)[0]));
    if number::dec_int(m) == number::dec_int(n) {
        if m < 0 && n < 0 {
            assert(number::dec_int(m).skip(1) =~= number::dec(a));
            assert(number::dec_int(n).skip(1) =~= number::dec(b));
        } else if m < 0 {
            assert(number::dec_int(m)[0] == '-');
            assert(number::dec_int(n)[0] == number::dec(b)[0]);
        } else if n < 0 {
            assert(number::dec_int(n)[0] == '-');
            assert(number::dec_int(m)[0] == number::dec(a)[0]);
        }
    }
}

/// What stands in one of three texts stands in all of them together.
pub proof fn lemma_in_three(
    s0: Seq<char>,
    s1: Seq<char>,
    s2: Seq<char>,
    p: Seq<char>,
)
    ensures
        search::has_text(s0, p) ==> search::has_text(s0 + s1 + s2, p),
        search::has_text(s1, p) ==> search::has_text(s0 + s1 + s2, p),
        search::has_text(s2, p) ==> search::has_text(s0 + s1 + s2, p),
{
    lemma_part_of_sum(s0, s1, p);
    lemma_part_of_sum(s0 + s1, s2, p);
}

/// What stands in one of four texts stands in all of them together.
pub proof fn lemma_in_four(
    s0: Seq<char>,
    s1: Seq<char>,
    s2: Seq<char>,
    s3: Seq<char>,
    p: Seq<char>,
)
    ensures
        search::has_text(s0, p) ==> search::has_text(s0 + s1 + s2 + s3, p),
        search::has_text(s1, p) ==> search::has_text(s0 + s1 + s2 + s3, p),
        search::has_text(s2, p) ==> search::has_text(s0 + s1 + s2 + s3, p),
        search::has_text(s3, p) ==> search::has_text(s0 + s1 + s2 + s3, p),
{
    lemma_part_of_sum(s0, s1, p);
    lemma_part_of_sum(s0 + s1, s2, p);
    lemma_part_of_sum(s0 + s1 + s2, s3, p);
}

/// What stands in one of five texts stands in all of them together.
pub proof fn lemma_in_five(
    s0: Seq<char>,
    s1: Seq<char>,
    s2: Seq<char>,
    s3: Seq<char>,
    s4: Seq<char>,
    p: Seq<char>,
)
    ensures
        search::has_text(s0, p) ==> search::has_text(s0 + s1 + s2 + s3 + s4, p),
        search::has_text(s1, p) ==> search::has_text(s0 + s1 + s2 + s3 + s4, p),
        search::has_text(s2, p) ==> search::has_text(s0 + s1 + s2 + s3 + s4, p),
        search::has_text(s3, p) ==> search::has_text(s0 + s1 + s2 + s3 + s4, p),
        search::has_text(s4, p) ==> search::has_text(s0 + s1 + s2 + s3 + s4, p),
{
    lemma_part_of_sum(s0, s1, p);
    lemma_part_of_sum(s0 + s1, s2, p);
    lemma_part_of_sum(s0 + s1 + s2, s3, p);
    lemma_part_of_sum(s0 + s1 + s2 + s3, s4, p);
}

/// What stands in one of eight texts stands in all of them together.
pub proof fn lemma_in_eight(
    s0: Seq<char>,
    s1: Seq<char>,
    s2: Seq<char>,
    s3: Seq<char>,
    s4: Seq<char>,
    s5: Seq<char>,
    s6: Seq<char>,
    s7: Seq<char>,
    p: Seq<char>,
)
    ensures
        search::has_text(s0, p) ==> search::has_text(s0 + s1 + s2 + s3 + s4 + s5 + s6 + s7, p),
        search::has_text(s1, p) ==> search::has_text(s0 + s1 + s2 + s3 + s4 + s5 + s6 + s7, p),
        search::has_text(s2, p) ==> search::has_text(s0 + s1 + s2 + s3 + s4 + s5 + s6 + s7, p),
        search::has_text(s3, p) ==> search::has_text(s0 + s1 + s2 + s3 + s4 + s5 + s6 + s7, p),
        search::has_text(s4, p) ==> search::has_text(s0 + s1 + s2 + s3 + s4 + s5 + s6 + s7, p),
        search::has_text(s5, p) ==> search::has_text(s0 + s1 + s2 + s3 + s4 + s5 + s6 + s7, p),
        search::has_text(s6, p) ==> search::has_text(s0 + s1 + s2 + s3 + s4 + s5 + s6 + s7, p),
        search::has_text(s7, p) ==> search::has_text(s0 + s1 + s2 + s3 + s4 + s5 + s6 + s7, p),
{
    lemma_part_of_sum(s0, s1, p);
    lemma_part_of_sum(s0 + s1, s2, p);
    lemma_part_of_sum(s0 + s1 + s2, s3, p);
    lemma_part_of_sum(s0 + s1 + s2 + s3, s4, p);
    lemma_part_of_sum(s0 + s1 + s2 + s3 + s4, s5, p);
    lemma_part_of_sum(s0 + s1 + s2 + s3 + s4 + s5, s6, p);
    lemma_part_of_sum(s0 + s1 + s2 + s3 + s4 + s5 + s6, s7, p);
}

/// Joined texts, taken apart round one of them.
pub proof fn lemma_join_around(parts: Seq<Seq<char>>, i: int)
    requires
        0 <= i < parts.len(),
    ensures
        search::join_text(parts, Seq::empty()) == search::join_text(parts.take(i), Seq::empty())
            + parts[i] + search::join_text(parts.skip(i + 1), Seq::empty()),
    decreases parts.len(),
{
    let none = Seq::<char>::empty();
    let n = parts.len() as int;
    if i == n - 1 {
        assert(parts.take(i) =~= parts.drop_last());
        assert(parts.skip(i + 1) =~= Seq::<Seq<char>>::empty());
        if n == 1 {
            assert(search::join_text(parts, none) =~= search::join_text(parts.take(i), none)
                + parts[i] + none);
        } else {
            assert(search::join_text(parts, none) =~= search::join_text(parts.take(i), none)
                + parts[i] + none);
        }
    } else {
        let first = parts.drop_last();
        lemma_join_around(first, i);
        assert(first.take(i) =~= parts.take(i));
        assert(first[i] == parts[i]);
        let tail = parts.skip(i + 1);
        assert(tail.drop_last() =~= first.skip(i + 1));
        assert(tail.last() == parts.last());
        let lead = search::join_text(parts.take(i), none) + parts[i];
        assert(search::join_text(tail, none) =~= search::join_text(tail.drop_last(), none)
            + parts.last()) by {
            if tail.len() == 1 {
                assert(tail.drop_last() =~= Seq::<Seq<char>>::empty());
            }
        }
        assert(search::join_text(parts, none) =~= lead + search::join_text(
            tail.drop_last(),
            none,
        ) + none + parts.last());
        assert(search::join_text(parts, none) =~= lead + search::join_text(tail, none));
    }
}

/// Texts that are joined from parts of which only one differs differ.
pub proof fn lemma_join_differs(a: Seq<Seq<char>>, b: Seq<Seq<char>>, i: int)
    requires
        0 <= i < a.len(),
        a.len() == b.len(),
        forall|j: int| 0 <= j < a.len() && j != i ==> a[j] == b[j],
        a[i] != b[i],
    ensures
        search::join_text(a, Seq::empty()) != search::join_text(b, Seq::empty()),
{
    lemma_join_around(a, i);
    lemma_join_around(b, i);
    assert(a.take(i) =~= b.take(i));
    assert(a.skip(i + 1) =~= b.skip(i + 1));
    if search::join_text(a, Seq::empty()) == search::join_text(b, Seq::empty()) {
        lemma_same_between(
            search::join_text(a.take(i), Seq::empty()),
            a[i],
            b[i],
            search::join_text(a.skip(i + 1), Seq::empty()),
        );
    }
}

/// Texts with the same end differ before it.
pub proof fn lemma_cancel_right(x: Seq<char>, y: Seq<char>, b: Seq<char>)
    requires
        x + b == y + b,
    ensures
        x == y,
{
    let s = x + b;
    let t = y + b;
    assert(s.len() == t.len());
    assert(s.take(x.len() as int) =~= x);
    assert(t.take(y.len() as int) =~= y);
}

/// Texts with the same start differ behind it.
pub proof fn lemma_cancel_left(a: Seq<char>, x: Seq<char>, y: Seq<char>)
    requires
        a + x == a + y,
    ensures
        x == y,
{
    let s = a + x;
    let t = a + y;
    assert(s.skip(a.len() as int) =~= x);
    assert(t.skip(a.len() as int) =~= y);
}

} // verus!
