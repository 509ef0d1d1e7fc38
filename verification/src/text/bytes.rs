//! Lengths and cuts measured in UTF-8 bytes.
use vstd::prelude::*;

use crate::text::chars::{slice_text, to_chars};

verus! {

/// How many bytes a character takes in UTF-8.
pub open spec fn char_bytes(c: char) -> nat {
    let v = c as u32;
    if v <= 0x7f {
        1
    } else if v <= 0x7ff {
        2
    } else if v <= 0xffff {
        3
    } else {
        4
    }
}

/// How many bytes a text takes in UTF-8.
pub open spec fn text_bytes(s: Seq<char>) -> nat
    decreases s.len(),
{
    if s.len() == 0 {
        0
    } else {
        text_bytes(s.drop_last()) + char_bytes(s.last())
    }
}

pub proof fn lemma_text_bytes_push(s: Seq<char>, c: char)
    ensures
        text_bytes(s.push(c)) == text_bytes(s) + char_bytes(c),
{
    assert(s.push(c).drop_last() =~= s);
}

pub proof fn lemma_text_bytes_concat(a: Seq<char>, b: Seq<char>)
    ensures
        text_bytes(a + b) == text_bytes(a) + text_bytes(b),
    decreases b.len(),
{
    if b.len() == 0 {
        assert(a + b =~= a);
    } else {
        lemma_text_bytes_concat(a, b.drop_last());
        assert((a + b).drop_last() =~= a + b.drop_last());
    }
}

pub proof fn lemma_text_bytes_bounds(s: Seq<char>)
    ensures
        s.len() <= text_bytes(s) <= 4 * s.len(),
    decreases s.len(),
{
    if s.len() > 0 {
        lemma_text_bytes_bounds(s.drop_last());
    }
}

pub proof fn lemma_text_bytes_take(s: Seq<char>, i: int, j: int)
    requires
        0 <= i <= j <= s.len(),
    ensures
        text_bytes(s.take(j)) == text_bytes(s.take(i)) + text_bytes(s.subrange(i, j)),
        i < j ==> text_bytes(s.take(i)) < text_bytes(s.take(j)),
{
    assert(s.take(j) =~= s.take(i) + s.subrange(i, j));
    lemma_text_bytes_concat(s.take(i), s.subrange(i, j));
    lemma_text_bytes_bounds(s.subrange(i, j));
}

/// The length of the UTF-8 encoding is the sum of the widths.
pub proof fn lemma_text_bytes_is_utf8_len(s: Seq<char>)
    ensures
        vstd::utf8::encode_utf8(s).len() == text_bytes(s),
    decreases s.len(),
{
    if s.len() > 0 {
        let rest = s.drop_first();
        lemma_text_bytes_is_utf8_len(rest);
        assert(s =~= seq![s[0]] + rest);
        lemma_text_bytes_concat(seq![s[0]], rest);
        assert(seq![s[0]].drop_last() =~= Seq::<char>::empty());
        assert(text_bytes(Seq::<char>::empty()) == 0);
        assert(text_bytes(seq![s[0]]) == char_bytes(s[0]));
        assert(vstd::utf8::encode_scalar(s[0] as u32).len() == char_bytes(s[0])) by {
            vstd::utf8::char_is_scalar(s[0]);
        }
    }
}

/// The length of a text in bytes.
pub fn byte_len(s: &str) -> (r: usize)
    ensures
        r == text_bytes(s@),
{
    proof {
        lemma_text_bytes_is_utf8_len(s@);
    }
    s.as_bytes().len()
}

pub fn width(c: char) -> (r: usize)
    ensures
        r == char_bytes(c),
{
    let v: u32 = c as u32;
    if v <= 0x7f {
        1
    } else if v <= 0x7ff {
        2
    } else if v <= 0xffff {
        3
    } else {
        4
    }
}

/// How many characters behind the first `k` still fit in `n` bytes, counted
/// from the start.
pub open spec fn fit_from(s: Seq<char>, n: int, k: int) -> int
    decreases s.len() - k,
{
    if 0 <= k < s.len() && text_bytes(s.take(k + 1)) <= n {
        fit_from(s, n, k + 1)
    } else {
        k
    }
}

/// The longest prefix of `s` that takes at most `n` bytes.
pub open spec fn byte_prefix(s: Seq<char>, n: int) -> Seq<char> {
    s.take(fit_from(s, n, 0))
}

/// The least `k` such that the characters from `k` on take at most `n` bytes.
pub open spec fn tail_from(s: Seq<char>, n: int, k: int) -> int
    decreases k,
{
    if 0 < k <= s.len() && text_bytes(s.skip(k - 1)) <= n {
        tail_from(s, n, k - 1)
    } else {
        k
    }
}

/// The longest suffix of `s` that takes at most `n` bytes.
pub open spec fn byte_suffix(s: Seq<char>, n: int) -> Seq<char> {
    s.skip(tail_from(s, n, s.len() as int))
}

pub proof fn lemma_fit_from(s: Seq<char>, n: int, k: int)
    requires
        0 <= k <= s.len(),
        text_bytes(s.take(k)) <= n,
    ensures
        k <= fit_from(s, n, k) <= s.len(),
        text_bytes(s.take(fit_from(s, n, k))) <= n,
        fit_from(s, n, k) < s.len() ==> text_bytes(s.take(fit_from(s, n, k) + 1)) > n,
    decreases s.len() - k,
{
    if k < s.len() && text_bytes(s.take(k + 1)) <= n {
        lemma_fit_from(s, n, k + 1);
    }
}

/// A text that is cut to so many bytes is a prefix of the text, fits, and is the
/// longest prefix that does; a text that fits is not cut.
pub proof fn law_cut_texts_fit(s: Seq<char>, n: int)
    requires
        0 <= n,
    ensures
        byte_prefix(s, n).is_prefix_of(s),
        text_bytes(byte_prefix(s, n)) <= n,
        text_bytes(s) <= n ==> byte_prefix(s, n) == s,
        forall|k: int|
            byte_prefix(s, n).len() < k <= s.len() ==> text_bytes(#[trigger] s.take(k)) > n,
{
    assert(s.take(0) =~= Seq::<char>::empty());
    lemma_fit_from(s, n, 0);
    let f = fit_from(s, n, 0);
    assert forall|k: int| byte_prefix(s, n).len() < k <= s.len() implies text_bytes(
        #[trigger] s.take(k),
    ) > n by {
        if k > f + 1 {
            lemma_text_bytes_take(s, f + 1, k);
        }
    }
    assert(s.take(s.len() as int) =~= s);
    if text_bytes(s) <= n && f < s.len() {
        assert(text_bytes(s.take(s.len() as int)) > n);
    }
}

pub proof fn lemma_tail_from(s: Seq<char>, n: int, k: int)
    requires
        0 <= k <= s.len(),
        text_bytes(s.skip(k)) <= n,
    ensures
        0 <= tail_from(s, n, k) <= k,
        text_bytes(s.skip(tail_from(s, n, k))) <= n,
        tail_from(s, n, k) > 0 ==> text_bytes(s.skip(tail_from(s, n, k) - 1)) > n,
    decreases k,
{
    if 0 < k && text_bytes(s.skip(k - 1)) <= n {
        lemma_tail_from(s, n, k - 1);
    }
}

/// Cuts a text to at most `n` bytes, at the end of a character.
pub fn cut_bytes(s: &str, n: usize) -> (r: String)
    ensures
        r@ == byte_prefix(s@, n as int),
{
    let v = to_chars(s);
    let mut k: usize = 0;
    let mut used: usize = 0;
    assert(s@.take(0) =~= Seq::<char>::empty());
    loop
        invariant
            v@ == s@,
            k <= v@.len(),
            used == text_bytes(s@.take(k as int)),
            used <= n,
            fit_from(s@, n as int, 0) == fit_from(s@, n as int, k as int),
        decreases v@.len() - k,
    {
        if k == v.len() {
            let r = slice_text(&v, 0, k);
            assert(r@ =~= s@.take(k as int));
            return r;
        }
        let w = width(v[k]);
        proof {
            assert(s@.take(k + 1) =~= s@.take(k as int).push(s@[k as int]));
            lemma_text_bytes_push(s@.take(k as int), s@[k as int]);
        }
        if w > n - used {
            let r = slice_text(&v, 0, k);
            assert(r@ =~= s@.take(k as int));
            return r;
        }
        used = used + w;
        k = k + 1;
    }
}

/// Keeps at most the last `n` bytes of a text, from the start of a character.
pub fn keep_last_bytes(s: &str, n: usize) -> (r: String)
    ensures
        r@ == byte_suffix(s@, n as int),
{
    let v = to_chars(s);
    let mut k: usize = v.len();
    let mut used: usize = 0;
    assert(s@.skip(s@.len() as int) =~= Seq::<char>::empty());
    loop
        invariant
            v@ == s@,
            k <= v@.len(),
            used == text_bytes(s@.skip(k as int)),
            used <= n,
            tail_from(s@, n as int, s@.len() as int) == tail_from(s@, n as int, k as int),
        decreases k,
    {
        if k == 0 {
            let r = slice_text(&v, 0, v.len());
            assert(r@ =~= s@.skip(0));
            return r;
        }
        let w = width(v[k - 1]);
        proof {
            let c = seq![s@[k - 1]];
            assert(s@.skip(k - 1) =~= c + s@.skip(k as int));
            lemma_text_bytes_concat(c, s@.skip(k as int));
            assert(c.drop_last() =~= Seq::<char>::empty());
            assert(text_bytes(Seq::<char>::empty()) == 0);
            assert(text_bytes(c) == char_bytes(s@[k - 1]));
        }
        if w > n - used {
            let r = slice_text(&v, k, v.len());
            assert(r@ =~= s@.skip(k as int));
            return r;
        }
        used = used + w;
        k = k - 1;
    }
}

/// The character that starts `n` bytes behind position `k`, where one does.
pub open spec fn at_byte_from(s: Seq<char>, n: int, k: int) -> Option<int>
    decreases s.len() - k,
{
    if n == 0 {
        Some(k)
    } else if n < 0 || k < 0 || k >= s.len() {
        None
    } else {
        at_byte_from(s, n - char_bytes(s[k]), k + 1)
    }
}

/// The position of the character that starts at a byte, where one does or the text
/// ends there.
pub open spec fn at_byte(s: Seq<char>, n: int) -> Option<int> {
    at_byte_from(s, n, 0)
}

/// The position of the character that starts at a byte.
pub fn find_byte(v: &Vec<char>, n: usize) -> (r: Option<usize>)
    ensures
        match r {
            Some(i) => at_byte(v@, n as int) == Some(i as int) && i <= v@.len(),
            None => at_byte(v@, n as int) is None,
        },
{
    let mut left: usize = n;
    let mut k: usize = 0;
    while left > 0 && k < v.len()
        invariant
            k <= v@.len(),
            at_byte(v@, n as int) == at_byte_from(v@, left as int, k as int),
        decreases v@.len() - k,
    {
        let w: usize = width(v[k]);
        if w > left {
            assert(at_byte_from(v@, left - w, k + 1) is None);
            return None;
        }
        left = left - w;
        k = k + 1;
    }
    if left == 0 {
        Some(k)
    } else {
        None
    }
}

/// A text of ASCII characters has as many bytes as characters.
pub proof fn lemma_ascii_bytes(s: Seq<char>)
    requires
        vstd::utf8::is_ascii_chars(s),
    ensures
        text_bytes(s) == s.len(),
    decreases s.len(),
{
    if s.len() > 0 {
        let last = s[s.len() - 1];
        assert('\0' <= last <= '\u{7f}');
        assert(vstd::utf8::is_ascii_chars(s.drop_last())) by {
            assert forall|i: int| 0 <= i < s.len() - 1 implies '\0' <= #[trigger] s.drop_last()[i]
                <= '\u{7f}' by {
                assert(s.drop_last()[i] == s[i]);
            }
        }
        lemma_ascii_bytes(s.drop_last());
    }
}

/// In a text of ASCII characters every byte is a character of its own.
pub proof fn lemma_ascii_at_byte(s: Seq<char>, n: int, k: int)
    requires
        vstd::utf8::is_ascii_chars(s),
        0 <= n,
        0 <= k,
        k + n <= s.len(),
    ensures
        at_byte_from(s, n, k) == Some(k + n),
    decreases n,
{
    if n > 0 {
        assert('\0' <= s[k] <= '\u{7f}');
        lemma_ascii_at_byte(s, n - 1, k + 1);
    }
}

} // verus!
