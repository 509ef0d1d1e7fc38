//! Filling templates.
use vstd::prelude::*;

use crate::text::chars::{slice_text, to_chars};
use crate::text::search;
use crate::text::search::find_chars;

verus! {

/// The value given for a key; of several, the last.
pub open spec fn value_of(vars: Seq<(Seq<char>, Seq<char>)>, key: Seq<char>) -> Option<Seq<char>>
    decreases vars.len(),
{
    if vars.len() == 0 {
        None
    } else if vars.last().0 == key {
        Some(vars.last().1)
    } else {
        value_of(vars.drop_last(), key)
    }
}

/// The keys and values as character sequences.
pub open spec fn pairs(vars: Seq<(&str, &str)>) -> Seq<(Seq<char>, Seq<char>)> {
    vars.map_values(|p: (&str, &str)| (p.0@, p.1@))
}

/// The placeholder that starts at `i`: two braces, up to the next two closing
/// braces. What is given back is its end.
pub open spec fn placeholder_end(t: Seq<char>, i: int) -> Option<int> {
    if 0 <= i && i + 2 <= t.len() && t[i] == '{' && t[i + 1] == '{' {
        match search::find_from(t, "}}"@, i + 2) {
            Some(j) => Some(j + 2),
            None => None,
        }
    } else {
        None
    }
}

/// The value for the placeholder at `i`, and the placeholder's end.
pub open spec fn filled_at(t: Seq<char>, vars: Seq<(Seq<char>, Seq<char>)>, i: int) -> Option<
    (Seq<char>, int),
> {
    match placeholder_end(t, i) {
        Some(end) => match value_of(vars, t.subrange(i, end)) {
            Some(v) => Some((v, end)),
            None => None,
        },
        None => None,
    }
}

/// The template from `i` on with its known placeholders filled. What is filled
/// in is not looked at again.
pub open spec fn rendered_from(t: Seq<char>, vars: Seq<(Seq<char>, Seq<char>)>, i: int) -> Seq<char>
    decreases t.len() - i,
{
    if i < 0 || i >= t.len() {
        Seq::empty()
    } else {
        match filled_at(t, vars, i) {
            Some((v, end)) => if i < end <= t.len() {
                v + rendered_from(t, vars, end)
            } else {
                Seq::empty()
            },
            None => seq![t[i]] + rendered_from(t, vars, i + 1),
        }
    }
}

pub open spec fn rendered(t: Seq<char>, vars: Seq<(Seq<char>, Seq<char>)>) -> Seq<char> {
    rendered_from(t, vars, 0)
}

fn look_up<'a>(vars: &'a [(&'a str, &'a str)], key: &str) -> (r: Option<&'a str>)
    ensures
        match r {
            Some(v) => value_of(pairs(vars@), key@) == Some(v@),
            None => value_of(pairs(vars@), key@) is None,
        },
{
    let mut n: usize = vars.len();
    let ghost all = pairs(vars@);
    assert(all.take(all.len() as int) =~= all);
    while n > 0
        invariant
            n <= vars@.len(),
            all == pairs(vars@),
            value_of(all, key@) == value_of(all.take(n as int), key@),
        decreases n,
    {
        proof {
            assert(all.take(n as int).drop_last() =~= all.take(n - 1));
            assert(all.take(n as int).last() == (vars@[n - 1].0@, vars@[n - 1].1@));
        }
        if crate::text::chars::same_text(vars[n - 1].0, key) {
            return Some(vars[n - 1].1);
        }
        n = n - 1;
    }
    None
}

/// Fills the placeholders of a template in one pass.
pub fn safe_render(template: &str, vars: &[(&str, &str)]) -> (r: String)
    ensures
        r@ == rendered(template@, pairs(vars@)),
{
    let t = to_chars(template);
    let close = to_chars("}}");
    let n: usize = t.len();
    let mut out = String::new();
    let mut i: usize = 0;
    let ghost all = pairs(vars@);
    proof {
        reveal_strlit("}}");
        assert(Seq::<char>::empty() + rendered(t@, all) =~= rendered(t@, all));
    }
    while i < n
        invariant
            t@ == template@,
            n == t@.len(),
            i <= n,
            all == pairs(vars@),
            close@ == "}}"@,
            close@.len() == 2,
            out@ + rendered_from(t@, all, i as int) == rendered(t@, all),
        decreases n - i,
    {
        let ghost before = out@;
        let mut next: usize = i + 1;
        let mut known = false;
        if t[i] == '{' && n - i >= 2 && t[i + 1] == '{' {
            match find_chars(&t, &close, i + 2) {
                Some(j) => {
                    let key = slice_text(&t, i, j + 2);
                    match look_up(vars, key.as_str()) {
                        Some(v) => {
                            out.push_str(v);
                            known = true;
                            next = j + 2;
                            assert(filled_at(t@, all, i as int) == Some((v@, j + 2)));
                            assert(before + (v@ + rendered_from(t@, all, j + 2)) =~= before + v@
                                + rendered_from(t@, all, j + 2));
                        },
                        None => {},
                    }
                },
                None => {},
            }
        }
        if !known {
            assert(filled_at(t@, all, i as int) is None);
            out.push(t[i]);
            assert(before + (seq![t@[i as int]] + rendered_from(t@, all, i + 1)) =~= before.push(
                t@[i as int],
            ) + rendered_from(t@, all, i + 1));
        }
        i = next;
    }
    assert(out@ + Seq::<char>::empty() =~= out@);
    out
}

/// Where no placeholder is known, the template comes out as it is.
pub proof fn law_unknown_placeholders_stay(t: Seq<char>, vars: Seq<(Seq<char>, Seq<char>)>, i: int)
    requires
        0 <= i <= t.len(),
        forall|k: int| i <= k < t.len() ==> filled_at(t, vars, k) is None,
    ensures
        rendered_from(t, vars, i) == t.skip(i),
    decreases t.len() - i,
{
    if i < t.len() {
        law_unknown_placeholders_stay(t, vars, i + 1);
        assert(filled_at(t, vars, i) is None);
        assert(seq![t[i]] + t.skip(i + 1) =~= t.skip(i));
    } else {
        assert(t.skip(i) =~= Seq::<char>::empty());
    }
}

/// What is filled in comes out letter by letter, whatever it holds, and the
/// rest of the template is filled as if it stood alone.
pub proof fn law_values_are_not_scanned(
    t: Seq<char>,
    vars: Seq<(Seq<char>, Seq<char>)>,
    i: int,
    v: Seq<char>,
    end: int,
)
    requires
        0 <= i < t.len(),
        filled_at(t, vars, i) == Some((v, end)),
    ensures
        rendered_from(t, vars, i) == v + rendered_from(t, vars, end),
{
    reveal_strlit("}}");
    search::lemma_find_from(t, "}}"@, i + 2);
}

} // verus!
