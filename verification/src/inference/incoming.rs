//! An answer that comes in piece by piece: each action can be carried out as soon
//! as the next one starts.
use vstd::prelude::*;

use crate::inference::action::{Action, ActionModel};
use crate::inference::markdown;
use crate::inference::markdown::{element_marker, end_marker, missing_end, read_action};
use crate::text::chars::{slice_text, to_chars};
use crate::text::search;
use crate::text::search::{matches_at, split};
use crate::text::space;
use crate::text::space::{blank, trim};

verus! {

/// Something that an answer says.
#[derive(Debug)]
pub enum Heard {
    /// What stands before the first action.
    Preamble(String),
    /// An action.
    Wanted(Action),
    /// Something is wrong, and this is what.
    Failed(String),
}

pub enum HeardModel {
    Preamble(Seq<char>),
    Wanted(ActionModel),
    Failed(Seq<char>),
}

impl View for Heard {
    type V = HeardModel;

    open spec fn view(&self) -> HeardModel {
        match self {
            Heard::Preamble(text) => HeardModel::Preamble(text@),
            Heard::Wanted(a) => HeardModel::Wanted(a@),
            Heard::Failed(e) => HeardModel::Failed(e@),
        }
    }
}

pub open spec fn heard_models(v: Seq<Heard>) -> Seq<HeardModel> {
    v.map_values(|h: Heard| h@)
}

/// What starts an action, with the end of its line.
pub open spec fn separator(token: Seq<char>) -> Seq<char> {
    markdown::element_mark("Action"@, token) + "\n"@
}

/// What the text of an element says.
pub open spec fn element_heard(body: Seq<char>, token: Seq<char>) -> Seq<HeardModel> {
    if space::is_blank(body) {
        Seq::empty()
    } else {
        match markdown::action_of(space::trimmed(body), token) {
            Ok(a) => seq![HeardModel::Wanted(a)],
            Err(e) => seq![HeardModel::Failed(e)],
        }
    }
}

/// What a stretch between two separators says; where no separator came before it,
/// it is no element.
pub open spec fn stretch_heard(stretch: Seq<char>, started: bool, token: Seq<char>) -> Seq<
    HeardModel,
> {
    if started {
        element_heard(stretch, token)
    } else if space::is_blank(stretch) {
        Seq::empty()
    } else {
        seq![HeardModel::Preamble(space::trimmed(stretch))]
    }
}

/// What the first `n` stretches say.
pub open spec fn stretches_heard(
    stretches: Seq<Seq<char>>,
    n: int,
    started: bool,
    token: Seq<char>,
) -> Seq<HeardModel>
    decreases n,
{
    if n <= 0 || n > stretches.len() {
        Seq::empty()
    } else {
        stretches_heard(stretches, n - 1, started, token) + stretch_heard(
            stretches[n - 1],
            started || n > 1,
            token,
        )
    }
}

/// What the end of an answer says, behind its last separator.
pub open spec fn end_heard(rest: Seq<char>, started: bool, token: Seq<char>) -> Seq<HeardModel> {
    let t = space::trimmed(rest);
    let end = markdown::end_mark("Action"@, token);
    if search::has_suffix(t, end) {
        stretch_heard(t.take(t.len() - end.len()), started, token)
    } else {
        seq![HeardModel::Failed(markdown::missing_end_text("Action"@, token, t))]
    }
}

fn hear(stretch: &str, started: bool, token: &str) -> (r: Option<Heard>)
    ensures
        match r {
            Some(h) => stretch_heard(stretch@, started, token@) == seq![h@],
            None => stretch_heard(stretch@, started, token@) == Seq::<HeardModel>::empty(),
        },
{
    if blank(stretch) {
        return None;
    }
    let body = trim(stretch);
    if !started {
        return Some(Heard::Preamble(body));
    }
    match read_action(body.as_str(), token) {
        Ok(a) => Some(Heard::Wanted(a)),
        Err(e) => Some(Heard::Failed(e)),
    }
}

/// An answer as far as it has come in.
#[derive(Debug)]
pub struct AnswerStream {
    pub token: String,
    /// What came behind the last separator.
    pub rest: String,
    /// Whether a separator came.
    pub started: bool,
}

impl AnswerStream {
    pub fn new(token: &str) -> (r: Self)
        ensures
            r.token@ == token@,
            r.rest@ == Seq::<char>::empty(),
            !r.started,
    {
        AnswerStream { token: token.to_string(), rest: String::new(), started: false }
    }

    /// Takes in a piece, and gives out what is complete with it.
    pub fn feed(&mut self, piece: &str) -> (r: Vec<Heard>)
        ensures
            ({
                let all = search::split_text(
                    old(self).rest@ + piece@,
                    separator(old(self).token@),
                );
                &&& heard_models(r@) == stretches_heard(
                    all,
                    all.len() - 1,
                    old(self).started,
                    old(self).token@,
                )
                &&& final(self).rest@ == all.last()
                &&& final(self).started == (old(self).started || all.len() > 1)
            }),
            final(self).token@ == old(self).token@,
    {
        let mut sep = element_marker("Action", self.token.as_str());
        sep.push_str("\n");
        let mut text = self.rest.clone();
        text.push_str(piece);
        proof {
            reveal_strlit("\n");
            search::lemma_join_split(text@, sep@);
        }
        let stretches = split(text.as_str(), sep.as_str());
        let ghost all = search::views(stretches@);
        let n: usize = stretches.len() - 1;
        let started = self.started;
        let mut out: Vec<Heard> = Vec::new();
        let mut i: usize = 0;
        assert(heard_models(out@) =~= Seq::<HeardModel>::empty());
        while i < n
            invariant
                i <= n,
                n == stretches@.len() - 1,
                all == search::views(stretches@),
                heard_models(out@) == stretches_heard(all, i as int, started, self.token@),
            decreases n - i,
        {
            assert(all[i as int] == stretches@[i as int]@);
            let ghost had = out@;
            match hear(stretches[i].as_str(), started || i > 0, self.token.as_str()) {
                Some(h) => {
                    let ghost m = h@;
                    out.push(h);
                    assert(heard_models(out@) =~= heard_models(had) + seq![m]);
                },
                None => {
                    assert(heard_models(had) + Seq::<HeardModel>::empty() =~= heard_models(had));
                },
            }
            i = i + 1;
        }
        assert(all.last() == stretches@[n as int]@);
        self.rest = stretches[n].clone();
        self.started = started || n > 0;
        out
    }

    /// The answer is over: gives out what is left, or says that the end is missing.
    pub fn finish(&self) -> (r: Option<Heard>)
        ensures
            match r {
                Some(h) => end_heard(self.rest@, self.started, self.token@) == seq![h@],
                None => end_heard(self.rest@, self.started, self.token@) == Seq::<
                    HeardModel,
                >::empty(),
            },
    {
        let t = trim(self.rest.as_str());
        let end = end_marker("Action", self.token.as_str());
        let tv = to_chars(t.as_str());
        let ev = to_chars(end.as_str());
        if ev.len() > tv.len() || !matches_at(&tv, &ev, tv.len() - ev.len()) {
            return Some(Heard::Failed(missing_end("Action", self.token.as_str(), t.as_str())));
        }
        let inner = slice_text(&tv, 0, tv.len() - ev.len());
        assert(inner@ =~= t@.take(t@.len() - end@.len()));
        hear(inner.as_str(), self.started, self.token.as_str())
    }
}

proof fn lemma_split_grows(s: Seq<char>, more: Seq<char>, p: Seq<char>)
    requires
        p.len() > 0,
    ensures
        search::split_text(s, p).len() > 0,
        search::split_text(s + more, p) == search::split_text(s, p).drop_last()
            + search::split_text(search::split_text(s, p).last() + more, p),
    decreases s.len(),
{
    search::lemma_find_from(s, p, 0);
    match search::find_text(s, p) {
        Some(i) => {
            let both = s + more;
            assert forall|j: int| 0 <= j <= i implies search::occurs_at(both, p, j)
                == search::occurs_at(s, p, j) by {
                assert(both.subrange(j, j + p.len()) =~= s.subrange(j, j + p.len()));
            }
            search::lemma_find_is_first(both, p, i);
            let rest = s.skip(i + p.len());
            lemma_split_grows(rest, more, p);
            assert(both.take(i) =~= s.take(i));
            assert(both.skip(i + p.len()) =~= rest + more);
            let split = search::split_text(s, p);
            let behind = search::split_text(rest, p);
            assert(split =~= seq![s.take(i)] + behind);
            assert(split.last() == behind.last());
            assert(split.drop_last() =~= seq![s.take(i)] + behind.drop_last());
            assert(seq![s.take(i)] + (behind.drop_last() + search::split_text(
                behind.last() + more,
                p,
            )) =~= split.drop_last() + search::split_text(split.last() + more, p));
        },
        None => {
            let split = search::split_text(s, p);
            assert(split =~= seq![s]);
            assert(split.drop_last() + search::split_text(s + more, p) =~= search::split_text(
                s + more,
                p,
            ));
        },
    }
}

proof fn lemma_heard_prefix(
    a: Seq<Seq<char>>,
    b: Seq<Seq<char>>,
    n: int,
    started: bool,
    token: Seq<char>,
)
    requires
        0 <= n <= a.len(),
        n <= b.len(),
        forall|i: int| 0 <= i < n ==> a[i] == b[i],
    ensures
        stretches_heard(a, n, started, token) == stretches_heard(b, n, started, token),
    decreases n,
{
    if n > 0 {
        lemma_heard_prefix(a, b, n - 1, started, token);
    }
}

proof fn lemma_heard_concat(
    a: Seq<Seq<char>>,
    b: Seq<Seq<char>>,
    n: int,
    started: bool,
    token: Seq<char>,
)
    requires
        0 <= n <= b.len(),
    ensures
        stretches_heard(a + b, a.len() + n, started, token) == stretches_heard(
            a,
            a.len() as int,
            started,
            token,
        ) + stretches_heard(b, n, started || a.len() > 0, token),
    decreases n,
{
    let first = stretches_heard(a, a.len() as int, started, token);
    if n > 0 {
        lemma_heard_concat(a, b, n - 1, started, token);
        assert((a + b)[a.len() + n - 1] == b[n - 1]);
        let said = stretch_heard(b[n - 1], started || a.len() + n > 1, token);
        let before = stretches_heard(b, n - 1, started || a.len() > 0, token);
        assert((first + before) + said =~= first + (before + said));
    } else {
        lemma_heard_prefix(a + b, a, a.len() as int, started, token);
        assert(first + Seq::<HeardModel>::empty() =~= first);
    }
}

/// How an answer is cut into pieces makes no difference to what it says: two
/// pieces one after the other say what they say as one, and leave the same rest.
pub proof fn law_pieces_do_not_matter(
    rest: Seq<char>,
    a: Seq<char>,
    b: Seq<char>,
    started: bool,
    token: Seq<char>,
)
    ensures
        ({
            let one = search::split_text(rest + a, separator(token));
            let two = search::split_text(one.last() + b, separator(token));
            let whole = search::split_text(rest + (a + b), separator(token));
            let after_one = started || one.len() > 1;
            &&& stretches_heard(one, one.len() - 1, started, token) + stretches_heard(
                two,
                two.len() - 1,
                after_one,
                token,
            ) == stretches_heard(whole, whole.len() - 1, started, token)
            &&& two.last() == whole.last()
            &&& (after_one || two.len() > 1) == (started || whole.len() > 1)
        }),
{
    reveal_strlit("\n");
    let sep = separator(token);
    let one = search::split_text(rest + a, sep);
    lemma_split_grows(rest + a, b, sep);
    let two = search::split_text(one.last() + b, sep);
    lemma_split_grows(one.last() + b, Seq::empty(), sep);
    assert((rest + a) + b =~= rest + (a + b));
    let whole = search::split_text(rest + (a + b), sep);
    assert(whole == one.drop_last() + two);
    lemma_heard_concat(one.drop_last(), two, two.len() - 1, started, token);
    lemma_heard_prefix(one, one.drop_last(), one.len() - 1, started, token);
}

} // verus!
