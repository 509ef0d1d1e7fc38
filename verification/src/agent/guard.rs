//! The order in which actions may follow each other within a beat.
//!
//! A blocking action's result has to be seen before the model goes on, so only
//! further blocking actions may follow it, and an idle is passed over. Behind an
//! idle nothing may follow at all.
use vstd::prelude::*;

use crate::bindings::i18n;
use crate::inference::action;
use crate::inference::action::{Action, ActionModel};

verus! {

/// What the last actions allow next.
#[derive(Debug, Clone, Copy, PartialEq, Eq, Structural)]
pub enum SequenceState {
    /// Anything may follow.
    Normal,
    /// A blocking action came last.
    AfterBlocking,
    /// An idle came last.
    AfterIdle,
}

/// What becomes of an action.
#[derive(Debug, PartialEq)]
pub enum SequenceVerdict {
    /// It is carried out.
    Allow,
    /// It is passed over.
    Ignore,
    /// It breaks the order: the inference is cut off, for this reason.
    Reject(String),
}

/// A verdict with its reason as a character sequence.
pub enum VerdictModel {
    Allow,
    Ignore,
    Reject(Seq<char>),
}

impl View for SequenceVerdict {
    type V = VerdictModel;

    open spec fn view(&self) -> VerdictModel {
        match self {
            SequenceVerdict::Allow => VerdictModel::Allow,
            SequenceVerdict::Ignore => VerdictModel::Ignore,
            SequenceVerdict::Reject(reason) => VerdictModel::Reject(reason@),
        }
    }
}

/// The verdict on an action in a state.
pub open spec fn verdict(id: Seq<char>, s: SequenceState, a: ActionModel) -> VerdictModel {
    match s {
        SequenceState::Normal => VerdictModel::Allow,
        SequenceState::AfterBlocking => if a is Idle {
            VerdictModel::Ignore
        } else if action::blocking(a) {
            VerdictModel::Allow
        } else {
            VerdictModel::Reject(
                i18n::sequence_reject_after_blocking_text(id, action::display_text(a)),
            )
        },
        SequenceState::AfterIdle => if a is Idle {
            VerdictModel::Ignore
        } else {
            VerdictModel::Reject(i18n::sequence_reject_after_idle_text(id, action::display_text(a)))
        },
    }
}

/// The state behind an action.
pub open spec fn next_state(s: SequenceState, a: ActionModel) -> SequenceState {
    if s == SequenceState::Normal && a is Idle {
        SequenceState::AfterIdle
    } else if s == SequenceState::Normal && action::blocking(a) {
        SequenceState::AfterBlocking
    } else {
        s
    }
}

/// Watches over the order of the actions of one beat.
#[derive(Debug)]
pub struct SequenceGuard {
    pub state: SequenceState,
    pub instance_id: String,
}

impl SequenceGuard {
    pub fn new(instance_id: &str) -> (r: Self)
        ensures
            r.state == SequenceState::Normal,
            r.instance_id@ == instance_id@,
    {
        SequenceGuard { state: SequenceState::Normal, instance_id: instance_id.to_string() }
    }

    /// Judges the next action.
    pub fn check(&mut self, action: &Action) -> (r: SequenceVerdict)
        ensures
            r@ == verdict(old(self).instance_id@, old(self).state, action@),
            final(self).state == next_state(old(self).state, action@),
            final(self).instance_id@ == old(self).instance_id@,
    {
        let is_idle = match action {
            Action::Idle { .. } => true,
            _ => false,
        };
        let is_blocking = action.is_blocking();
        match self.state {
            SequenceState::Normal => {
                if is_idle {
                    self.state = SequenceState::AfterIdle;
                } else if is_blocking {
                    self.state = SequenceState::AfterBlocking;
                }
                SequenceVerdict::Allow
            },
            SequenceState::AfterBlocking => {
                if is_idle {
                    SequenceVerdict::Ignore
                } else if is_blocking {
                    SequenceVerdict::Allow
                } else {
                    let shown = action.display();
                    SequenceVerdict::Reject(
                        i18n::sequence_reject_after_blocking(
                            self.instance_id.as_str(),
                            shown.as_str(),
                        ),
                    )
                }
            },
            SequenceState::AfterIdle => {
                if is_idle {
                    SequenceVerdict::Ignore
                } else {
                    let shown = action.display();
                    SequenceVerdict::Reject(
                        i18n::sequence_reject_after_idle(self.instance_id.as_str(), shown.as_str()),
                    )
                }
            },
        }
    }
}

/// The state behind a whole run of actions.
pub open spec fn state_after(s: SequenceState, run: Seq<ActionModel>) -> SequenceState
    decreases run.len(),
{
    if run.len() == 0 {
        s
    } else {
        next_state(state_after(s, run.drop_last()), run.last())
    }
}

/// Once an idle was allowed, no action is allowed any more in that beat:
/// further idles are passed over and everything else is rejected.
pub proof fn law_nothing_follows_idle(id: Seq<char>, run: Seq<ActionModel>, a: ActionModel)
    ensures
        state_after(SequenceState::AfterIdle, run) == SequenceState::AfterIdle,
        !(verdict(id, state_after(SequenceState::AfterIdle, run), a) is Allow),
        a is Idle <==> verdict(id, state_after(SequenceState::AfterIdle, run), a) is Ignore,
    decreases run.len(),
{
    if run.len() > 0 {
        law_nothing_follows_idle(id, run.drop_last(), run.last());
    }
}

/// Behind a blocking action only blocking actions are allowed, however long the
/// run: idles are passed over and everything else is rejected.
pub proof fn law_only_blocking_follows_blocking(
    id: Seq<char>,
    run: Seq<ActionModel>,
    a: ActionModel,
)
    ensures
        state_after(SequenceState::AfterBlocking, run) == SequenceState::AfterBlocking,
        verdict(id, state_after(SequenceState::AfterBlocking, run), a) is Allow
            <==> action::blocking(a),
        verdict(id, state_after(SequenceState::AfterBlocking, run), a) is Ignore <==> a is Idle,
    decreases run.len(),
{
    if run.len() > 0 {
        law_only_blocking_follows_blocking(id, run.drop_last(), run.last());
    }
}

/// A run without blocking actions and idles is allowed from end to end.
pub proof fn law_plain_runs_are_allowed(id: Seq<char>, run: Seq<ActionModel>, a: ActionModel)
    requires
        forall|i: int|
            0 <= i < run.len() ==> !action::blocking(#[trigger] run[i]) && !(run[i] is Idle),
    ensures
        state_after(SequenceState::Normal, run) == SequenceState::Normal,
        verdict(id, state_after(SequenceState::Normal, run), a) is Allow,
    decreases run.len(),
{
    if run.len() > 0 {
        let first = run.drop_last();
        assert forall|i: int| 0 <= i < first.len() implies !action::blocking(#[trigger] first[i])
            && !(first[i] is Idle) by {
            assert(first[i] == run[i]);
        }
        law_plain_runs_are_allowed(id, first, run.last());
        assert(!action::blocking(run[run.len() - 1]));
    }
}

} // verus!
