//! Small tools: cutting and replacing text, and counting.
use vstd::prelude::*;

use crate::text::bytes;
use crate::text::bytes::cut_bytes;
use crate::text::chars::{slice_text, to_chars};
use crate::text::search;
use crate::text::search::find_chars;

verus! {

/// Cuts a text to at most `max_bytes` bytes, at the end of a character.
pub fn safe_truncate(text: &str, max_bytes: usize) -> (r: String)
    ensures
        r@ == bytes::byte_prefix(text@, max_bytes as int),
{
    cut_bytes(text, max_bytes)
}

/// How often `p` stands in `s` from position `i` on, without overlap.
pub open spec fn count_from(s: Seq<char>, p: Seq<char>, i: int) -> nat
    decreases s.len() - i,
{
    match search::find_from(s, p, i) {
        Some(k) => if 0 <= i <= k && p.len() > 0 && k + p.len() <= s.len() {
            1 + count_from(s, p, k + p.len())
        } else {
            0
        },
        None => 0,
    }
}

/// How often `p` stands in `s`, without overlap; the empty text stands before and
/// behind every character.
pub open spec fn count_of(s: Seq<char>, p: Seq<char>) -> nat {
    if p.len() == 0 {
        s.len() + 1
    } else {
        count_from(s, p, 0)
    }
}

/// How often `p` stands in `s`, without overlap.
pub fn count_matches(s: &str, p: &str) -> (r: usize)
    requires
        s@.len() < usize::MAX,
    ensures
        r == count_of(s@, p@),
{
    let sv = to_chars(s);
    let pv = to_chars(p);
    let n: usize = sv.len();
    if pv.len() == 0 {
        return n + 1;
    }
    let mut count: usize = 0;
    let mut i: usize = 0;
    loop
        invariant
            sv@ == s@,
            pv@ == p@,
            n == sv@.len(),
            p@.len() > 0,
            i <= n,
            count <= i,
            count + count_from(s@, p@, i as int) == count_of(s@, p@),
        decreases n - i,
    {
        match find_chars(&sv, &pv, i) {
            Some(k) => {
                count = count + 1;
                i = k + pv.len();
            },
            None => {
                return count;
            },
        }
    }
}

/// `s` with the first occurrence of `p` replaced by `q`.
pub open spec fn replaced_first(s: Seq<char>, p: Seq<char>, q: Seq<char>) -> Seq<char> {
    match search::find_text(s, p) {
        Some(i) => s.take(i) + q + s.skip(i + p.len()),
        None => s,
    }
}

/// Replaces a text that stands exactly once; otherwise says how often it stands.
pub fn replace_once(content: &str, search_text: &str, replacement: &str) -> (r: Result<
    String,
    usize,
>)
    requires
        content@.len() < usize::MAX,
    ensures
        match r {
            Ok(t) => count_of(content@, search_text@) == 1 && t@ == replaced_first(
                content@,
                search_text@,
                replacement@,
            ),
            Err(n) => n == count_of(content@, search_text@) && n != 1,
        },
{
    let n = count_matches(content, search_text);
    if n != 1 {
        return Err(n);
    }
    let sv = to_chars(content);
    let pv = to_chars(search_text);
    let len: usize = sv.len();
    assert(search_text@.len() == 0 ==> content@.subrange(0, 0) =~= search_text@);
    match find_chars(&sv, &pv, 0) {
        Some(i) => {
            let mut out = slice_text(&sv, 0, i);
            assert(out@ =~= content@.take(i as int));
            out.push_str(replacement);
            let rest = slice_text(&sv, i + pv.len(), len);
            assert(rest@ =~= content@.skip(i + search_text@.len()));
            out.push_str(rest.as_str());
            Ok(out)
        },
        None => Err(0),
    }
}

/// A replacement touches nothing but the place where the text stood.
pub proof fn law_replace_once_keeps_the_rest(s: Seq<char>, p: Seq<char>, q: Seq<char>, i: int)
    requires
        p.len() > 0,
        search::find_text(s, p) == Some(i),
    ensures
        replaced_first(s, p, q).take(i) == s.take(i),
        replaced_first(s, p, q).subrange(i, i + q.len()) == q,
        replaced_first(s, p, q).skip(i + q.len()) == s.skip(i + p.len()),
{
    search::lemma_find_from(s, p, 0);
    let r = replaced_first(s, p, q);
    assert(r.take(i) =~= s.take(i));
    assert(r.subrange(i, i + q.len()) =~= q);
    assert(r.skip(i + q.len()) =~= s.skip(i + p.len()));
}

/// A text that stands exactly once is found at one place only.
pub proof fn law_single_match_is_unique(s: Seq<char>, p: Seq<char>, i: int, j: int)
    requires
        p.len() > 0,
        count_of(s, p) == 1,
        search::find_text(s, p) == Some(i),
        i + p.len() <= j,
    ensures
        !search::occurs_at(s, p, j),
{
    search::lemma_find_from(s, p, 0);
    assert(count_from(s, p, i + p.len()) == 0);
    search::lemma_find_from(s, p, i + p.len());
    if search::find_from(s, p, i + p.len()) is Some {
        let k = search::find_from(s, p, i + p.len())->0;
        assert(search::occurs_at(s, p, k));
        assert(count_from(s, p, i + p.len()) >= 1);
    }
}

/// A counter that stops at its greatest value.
#[derive(Debug, Clone, Copy, PartialEq, Eq)]
pub struct Counter {
    pub count: u64,
}

/// `base` doubled `n` times.
pub open spec fn doubled(base: nat, n: nat) -> nat
    decreases n,
{
    if n == 0 {
        base
    } else {
        2 * doubled(base, (n - 1) as nat)
    }
}

/// The seconds to wait after `failures` failures in a row: the base, doubled
/// with each failure behind the first up to a greatest exponent, and capped.
pub open spec fn backoff_secs(failures: nat, base: nat, max_exponent: nat, cap: nat) -> nat {
    let wanted = if failures == 0 {
        0
    } else {
        (failures - 1) as nat
    };
    let exponent = if wanted < max_exponent {
        wanted
    } else {
        max_exponent
    };
    let secs = doubled(base, exponent);
    if secs < cap {
        secs
    } else {
        cap
    }
}

pub proof fn lemma_doubled_grows(base: nat, n: nat, m: nat)
    requires
        n <= m,
    ensures
        doubled(base, n) <= doubled(base, m),
    decreases m,
{
    if n < m {
        lemma_doubled_grows(base, n, (m - 1) as nat);
    }
}

impl Counter {
    pub fn new() -> (r: Self)
        ensures
            r.count == 0,
    {
        Counter { count: 0 }
    }

    pub fn value(&self) -> (r: u64)
        ensures
            r == self.count,
    {
        self.count
    }

    pub fn increment(&mut self)
        ensures
            final(self).count == (if old(self).count < u64::MAX {
                old(self).count + 1
            } else {
                u64::MAX as int
            }),
    {
        self.count = self.count.saturating_add(1);
    }

    /// Counts `n` at once.
    pub fn advance(&mut self, n: u64)
        ensures
            final(self).count == (if old(self).count + n <= u64::MAX {
                old(self).count + n
            } else {
                u64::MAX as int
            }),
    {
        self.count = self.count.saturating_add(n);
    }

    pub fn reset(&mut self)
        ensures
            final(self).count == 0,
    {
        self.count = 0;
    }

    /// The seconds to wait after as many failures as were counted.
    #[verifier::loop_isolation(false)]
    pub fn exponential_backoff(&self, base: u64, max_exponent: u32, cap: u64) -> (r: u64)
        ensures
            r == backoff_secs(self.count as nat, base as nat, max_exponent as nat, cap as nat),
            r <= cap,
    {
        let wanted: u64 = if self.count == 0 {
            0
        } else {
            self.count - 1
        };
        let exponent: u64 = if wanted < max_exponent as u64 {
            wanted
        } else {
            max_exponent as u64
        };
        let mut secs: u64 = base;
        let mut k: u64 = 0;
        while k < exponent
            invariant
                k <= exponent,
                secs == doubled(base as nat, k as nat),
                secs < cap || k == 0,
            decreases exponent - k,
        {
            if secs >= cap || secs >= cap - secs {
                proof {
                    lemma_doubled_grows(base as nat, k as nat, exponent as nat);
                    if k < exponent && secs < cap {
                        lemma_doubled_grows(base as nat, (k + 1) as nat, exponent as nat);
                    }
                }
                return cap;
            }
            secs = secs + secs;
            k = k + 1;
        }
        if secs < cap {
            secs
        } else {
            cap
        }
    }
}

/// Waiting never gets shorter with more failures, and never exceeds the cap.
pub proof fn law_backoff_monotone(a: nat, b: nat, base: nat, max_exponent: nat, cap: nat)
    requires
        a <= b,
    ensures
        backoff_secs(a, base, max_exponent, cap) <= backoff_secs(b, base, max_exponent, cap) <= cap,
{
    let wa = if a == 0 {
        0
    } else {
        (a - 1) as nat
    };
    let wb = if b == 0 {
        0
    } else {
        (b - 1) as nat
    };
    let ea = if wa < max_exponent {
        wa
    } else {
        max_exponent
    };
    let eb = if wb < max_exponent {
        wb
    } else {
        max_exponent
    };
    lemma_doubled_grows(base, ea, eb);
}

} // verus!
