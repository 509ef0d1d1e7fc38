//! The types that methods and associated constants belong to.
use vstd::prelude::*;

use crate::guardian::leaks::Decl;
use crate::guardian::syntax::{Expression, Statement};

verus! {

/// What is met on the way through a file, in order. What stands in a body comes
/// after that whose body it is.
#[derive(Debug)]
pub enum Event {
    /// An `impl` starts. Where it is for a type with a name, these are the parts of
    /// the name.
    EnterImpl { segments: Option<Vec<String>> },
    /// The `impl` that started last ends.
    LeaveImpl,
    Fn { name: String, line: usize, body: Vec<Statement>, is_method: bool },
    Const { name: String, line: usize, value: Expression, is_public: bool, in_impl: bool },
    Static { name: String, line: usize, value: Expression, is_public: bool },
}

/// The type that an `impl` is for, by the last part of its name.
pub open spec fn impl_owner(segments: Option<Vec<String>>) -> Option<String> {
    match segments {
        Some(v) => if v@.len() > 0 {
            Some(v@.last())
        } else {
            None
        },
        None => None,
    }
}

/// The type that the innermost of the open `impl`s is for.
pub open spec fn innermost(open: Seq<Option<String>>) -> Option<String> {
    if open.len() > 0 {
        open.last()
    } else {
        None
    }
}

/// The open `impl`s after one more event, each by the type that it is for.
pub open spec fn open_after(open: Seq<Option<String>>, e: Event) -> Seq<Option<String>> {
    match e {
        Event::EnterImpl { segments } => open.push(impl_owner(segments)),
        Event::LeaveImpl => if open.len() > 0 {
            open.drop_last()
        } else {
            open
        },
        _ => open,
    }
}

/// The declaration that an event tells of, if any. Methods and associated constants
/// belong to the type of the innermost `impl`, everything else to none.
pub open spec fn declared(open: Seq<Option<String>>, e: Event) -> Seq<Decl> {
    match e {
        Event::Fn { name, line, body, is_method } => seq![
            Decl::Fn {
                name,
                line,
                body,
                is_method,
                owner: if is_method {
                    innermost(open)
                } else {
                    None
                },
            },
        ],
        Event::Const { name, line, value, is_public, in_impl } => seq![
            Decl::Const {
                name,
                line,
                value,
                is_public,
                in_impl,
                owner: if in_impl {
                    innermost(open)
                } else {
                    None
                },
            },
        ],
        Event::Static { name, line, value, is_public } => seq![
            Decl::Static { name, line, value, is_public },
        ],
        _ => Seq::empty(),
    }
}

/// The declarations that events tell of, where these `impl`s are open before them.
pub open spec fn owned_from(open: Seq<Option<String>>, events: Seq<Event>) -> Seq<Decl>
    decreases events.len(),
{
    if events.len() == 0 {
        Seq::empty()
    } else {
        declared(open, events[0]) + owned_from(open_after(open, events[0]), events.drop_first())
    }
}

/// The declarations of a file, by what is met on the way through it.
pub open spec fn owned(events: Seq<Event>) -> Seq<Decl> {
    owned_from(Seq::empty(), events)
}

fn copy_owner(open: &Vec<Option<String>>) -> (r: Option<String>)
    ensures
        r == innermost(open@),
{
    let n: usize = open.len();
    if n == 0 {
        return None;
    }
    match &open[n - 1] {
        Some(s) => Some(s.clone()),
        None => None,
    }
}

fn owner_of(segments: &Option<Vec<String>>) -> (r: Option<String>)
    ensures
        r == impl_owner(*segments),
{
    match segments {
        Some(v) => {
            let n: usize = v.len();
            if n > 0 {
                Some(v[n - 1].clone())
            } else {
                None
            }
        },
        None => None,
    }
}

/// Gives every method and associated constant the type that it belongs to.
pub fn with_owners(events: Vec<Event>) -> (r: Vec<Decl>)
    ensures
        r@ == owned(events@),
{
    let ghost all = events@;
    let mut events = events;
    let mut todo: Vec<Event> = Vec::new();
    while events.len() > 0
        invariant
            events@ + todo@.reverse() == all,
        decreases events@.len(),
    {
        let ghost (before, behind) = (events@, todo@.reverse());
        if let Some(e) = events.pop() {
            todo.push(e);
            assert(todo@.reverse() =~= seq![e] + behind);
            assert(events@ + todo@.reverse() =~= before + behind);
        }
    }
    assert(todo@.reverse() =~= all);
    let mut open: Vec<Option<String>> = Vec::new();
    let mut out: Vec<Decl> = Vec::new();
    assert(open@ =~= Seq::<Option<String>>::empty());
    assert(out@ + owned(all) =~= owned(all));
    while todo.len() > 0
        invariant
            out@ + owned_from(open@, todo@.reverse()) == owned(all),
        decreases todo@.len(),
    {
        let ghost rest = todo@.reverse();
        let ghost (had, opened) = (out@, open@);
        if let Some(e) = todo.pop() {
            let ghost first = e;
            assert(rest[0] == first);
            assert(todo@.reverse() =~= rest.drop_first());
            match e {
                Event::EnterImpl { segments } => {
                    open.push(owner_of(&segments));
                },
                Event::LeaveImpl => {
                    let _ = open.pop();
                },
                Event::Fn { name, line, body, is_method } => {
                    let owner = if is_method {
                        copy_owner(&open)
                    } else {
                        None
                    };
                    out.push(Decl::Fn { name, line, body, is_method, owner });
                },
                Event::Const { name, line, value, is_public, in_impl } => {
                    let owner = if in_impl {
                        copy_owner(&open)
                    } else {
                        None
                    };
                    out.push(Decl::Const { name, line, value, is_public, in_impl, owner });
                },
                Event::Static { name, line, value, is_public } => {
                    out.push(Decl::Static { name, line, value, is_public });
                },
            }
            proof {
                assert(open@ =~= open_after(opened, first));
                assert(out@ =~= had + declared(opened, first));
                let later = owned_from(open@, todo@.reverse());
                assert(had + (declared(opened, first) + later) =~= out@ + later);
            }
        }
    }
    assert(out@ + Seq::<Decl>::empty() =~= out@);
    out
}

/// Every `impl` that starts among the events ends among them, and so do `depth`
/// others.
pub open spec fn closes(events: Seq<Event>, depth: nat) -> bool
    decreases events.len(),
{
    if events.len() == 0 {
        depth == 0
    } else {
        match events[0] {
            Event::EnterImpl { .. } => closes(events.drop_first(), depth + 1),
            Event::LeaveImpl => depth > 0 && closes(events.drop_first(), (depth - 1) as nat),
            _ => closes(events.drop_first(), depth),
        }
    }
}

proof fn lemma_closed(open: Seq<Option<String>>, inner: Seq<Event>, rest: Seq<Event>, depth: nat)
    requires
        closes(inner, depth),
        depth <= open.len(),
    ensures
        owned_from(open, inner + rest) == owned_from(open, inner) + owned_from(
            open.take(open.len() - depth),
            rest,
        ),
    decreases inner.len(),
{
    if inner.len() == 0 {
        assert(inner + rest =~= rest);
        assert(open.take(open.len() as int) =~= open);
        assert(owned_from(open, inner) + owned_from(open, rest) =~= owned_from(open, rest));
    } else {
        let first = inner[0];
        let more = inner.drop_first();
        let next = open_after(open, first);
        assert((inner + rest).drop_first() =~= more + rest);
        let left = open.take(open.len() - depth);
        match first {
            Event::EnterImpl { segments } => {
                assert(next.take(next.len() - (depth + 1)) =~= left);
                lemma_closed(next, more, rest, depth + 1);
            },
            Event::LeaveImpl => {
                assert(next.take(next.len() - (depth - 1)) =~= left);
                lemma_closed(next, more, rest, (depth - 1) as nat);
            },
            _ => {
                lemma_closed(next, more, rest, depth);
            },
        }
        let said = declared(open, first);
        assert(said + (owned_from(next, more) + owned_from(left, rest)) =~= (said + owned_from(
            next,
            more,
        )) + owned_from(left, rest));
    }
}

/// What stands in an `impl` belongs to its type, whatever stands in there besides;
/// and behind it what is open is the same as before.
pub proof fn law_impls_own_what_stands_in_them(
    open: Seq<Option<String>>,
    segments: Option<Vec<String>>,
    inner: Seq<Event>,
    rest: Seq<Event>,
)
    requires
        closes(inner, 0),
    ensures
        owned_from(
            open,
            seq![Event::EnterImpl { segments }] + inner + seq![Event::LeaveImpl] + rest,
        ) == owned_from(open.push(impl_owner(segments)), inner) + owned_from(open, rest),
{
    let enter = Event::EnterImpl { segments };
    let behind = seq![Event::LeaveImpl] + rest;
    let all = seq![enter] + inner + seq![Event::LeaveImpl] + rest;
    let inside = open.push(impl_owner(segments));
    assert(all[0] == enter);
    assert(all.drop_first() =~= inner + behind);
    lemma_closed(inside, inner, behind, 0);
    assert(inside.take(inside.len() as int) =~= inside);
    assert(behind[0] == Event::LeaveImpl);
    assert(behind.drop_first() =~= rest);
    assert(inside.drop_last() =~= open);
    assert(owned_from(inside, behind) =~= owned_from(open, rest));
    assert(owned_from(open, all) =~= owned_from(inside, inner + behind));
}

} // verus!
