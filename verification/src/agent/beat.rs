//! One beat of an instance: what it does with what the model says.
use vstd::prelude::*;

use crate::action::action_output;
use crate::action::action_output::{
    action_error, hallucination_defense_interrupted, inference_interrupted,
};
use crate::agent::alice;
use crate::agent::alice::{inference_error, Alice};
use crate::agent::guard;
use crate::agent::guard::{SequenceGuard, SequenceVerdict, VerdictModel};
use crate::agent::pulse::{Pulse, PulsePolicy};
use crate::agent::transaction;
use crate::agent::transaction::{ActionRecord, Transaction};
use crate::inference::action;
use crate::inference::action::{Action, ActionModel};
use crate::inference::output::ActionOutput;

verus! {

/// What a beat comes to.
#[derive(Debug, Clone, Copy, PartialEq, Eq, Structural)]
pub enum BeatPlan {
    /// There is nothing to do.
    Skip,
    /// Messages wait: they are read, and the model is not asked.
    AutoRead,
    /// The model is asked.
    Infer,
}

pub open spec fn planned(p: Pulse, unread: i64) -> BeatPlan {
    if unread == 0 && p.last_was_idle {
        BeatPlan::Skip
    } else if unread > 0 {
        BeatPlan::AutoRead
    } else {
        BeatPlan::Infer
    }
}

/// What a beat comes to, by how many messages wait.
pub fn plan_beat(p: &Pulse, unread: i64) -> (r: BeatPlan)
    ensures
        r == planned(*p, unread),
{
    if unread == 0 && p.last_was_idle {
        BeatPlan::Skip
    } else if unread > 0 {
        BeatPlan::AutoRead
    } else {
        BeatPlan::Infer
    }
}

/// What is put on record besides actions: of which sort, and what it says.
#[derive(Debug)]
pub struct BeatNote {
    pub sort: &'static str,
    pub text: String,
}

/// What is done with an action that the model wants.
#[derive(Debug)]
pub enum BeatStep {
    /// It is passed over.
    Skip,
    /// The inference ends here, and this goes on record.
    Stop(BeatNote),
    /// It goes on record under this name, and is done.
    Execute { action_id: String },
    /// It goes on record under this name, with this output, and is not done.
    Cancel { action_id: String, output: ActionOutput },
}

/// What is done with what the model says in one inference.
#[derive(Debug)]
pub struct BeatRun {
    pub tx: Transaction,
    pub guard: SequenceGuard,
}

/// The output of an action: what it gave, or what is said of its failure.
pub open spec fn is_output(o: ActionOutput, result: Result<ActionOutput, String>) -> bool {
    match result {
        Ok(given) => o == given,
        Err(e) => o matches ActionOutput::Note { text } && text@ == action_output::action_error_text(
            e@,
        ),
    }
}

/// What goes on record for an action that was done.
pub fn settle(result: Result<ActionOutput, String>) -> (r: ActionOutput)
    ensures
        is_output(r, result),
{
    match result {
        Ok(o) => o,
        Err(e) => ActionOutput::Note { text: action_error(e.as_str()) },
    }
}

/// The thought that stands for what the model said before its first action.
pub open spec fn preamble_thought(text: Seq<char>) -> Seq<char> {
    "⚠️ 你的输出在首个action前包含了多余内容。如果需要记录思考，请使用thinking action。以下内容已自动纳入thinking：\n\n"@ + text
}

/// What the model said before its first action is taken for a thought.
pub fn preamble_action(text: &str) -> (r: Action)
    ensures
        r@ == (ActionModel::Thinking { content: preamble_thought(text@) }),
{
    let mut content = "⚠️ 你的输出在首个action前包含了多余内容。如果需要记录思考，请使用thinking action。以下内容已自动纳入thinking：\n\n".to_string();
    content.push_str(text);
    Action::Thinking { content }
}

/// What is done with an action: after an interruption nothing, else what the guard
/// allows; falling idle is called off after a message that could not be sent. An
/// action that is called off is on record as done at once: of records that share
/// its name by chance, the first.
pub open spec fn is_step(
    before: BeatRun,
    interrupted: bool,
    a: ActionModel,
    after: BeatRun,
    step: BeatStep,
) -> bool {
    let judged = guard::verdict(before.guard.instance_id@, before.guard.state, a);
    let recorded = |id: Seq<char>|
        {
            &&& transaction::is_action_id(id)
            &&& after.tx.action_records@.len() == before.tx.action_records@.len() + 1
            &&& forall|i: int|
                0 <= i < before.tx.action_records@.len() ==> transaction::same_action(
                    #[trigger] after.tx.action_records@[i],
                    before.tx.action_records@[i],
                )
            &&& after.tx.action_records@.last().action_id@ == id
            &&& after.tx.action_records@.last().action@ == a
        };
    let kept = |except: int|
        forall|i: int|
            0 <= i < before.tx.action_records@.len() && i != except ==> (
            #[trigger] after.tx.action_records@[i]) == before.tx.action_records@[i];
    &&& after.tx.instance_id@ == before.tx.instance_id@
    &&& after.tx.cancel_idle == before.tx.cancel_idle
    &&& after.tx.started_at == before.tx.started_at
    &&& after.guard.instance_id@ == before.guard.instance_id@
    &&& after.guard.state == (if interrupted {
        before.guard.state
    } else {
        guard::next_state(before.guard.state, a)
    })
    &&& if interrupted {
        &&& after.tx.action_records@ == before.tx.action_records@
        &&& step matches BeatStep::Stop(note) && note.sort@ == "interrupt"@ && note.text@
            == action_output::inference_interrupted_text()
    } else {
        match judged {
            VerdictModel::Ignore => after.tx.action_records@ == before.tx.action_records@
                && step is Skip,
            VerdictModel::Reject(reason) => {
                &&& after.tx.action_records@ == before.tx.action_records@
                &&& step matches BeatStep::Stop(note) && note.sort@ == "reject"@ && note.text@
                    == action_output::hallucination_defense_interrupted_text(reason)
            },
            VerdictModel::Allow => if before.tx.cancel_idle && a is Idle {
                &&& step is Cancel
                &&& recorded(step->Cancel_action_id@)
                &&& step->Cancel_output matches ActionOutput::Note { text } && text@
                    == "idle cancelled: send_msg failed earlier in this beat"@
                &&& match transaction::record_from(
                    before.tx.action_records@,
                    step->Cancel_action_id@,
                    0,
                ) {
                    None => after.tx.action_records@.last().duration is Some && kept(-1),
                    Some(earlier) => {
                        &&& after.tx.action_records@.last().duration is None
                        &&& after.tx.action_records@[earlier].duration is Some
                        &&& kept(earlier)
                    },
                }
            } else {
                step matches BeatStep::Execute { action_id } && recorded(action_id@)
                    && after.tx.action_records@.drop_last() == before.tx.action_records@
                    && after.tx.action_records@.last().duration is None
            },
        }
    }
}

/// The content of the last summary among the first `n` actions of a beat.
pub open spec fn last_summary_of(records: Seq<ActionRecord>, n: int) -> Option<Seq<char>>
    decreases n,
{
    if n <= 0 || n > records.len() {
        None
    } else {
        match records[n - 1].action@ {
            ActionModel::Summary { content } => Some(content),
            _ => last_summary_of(records, n - 1),
        }
    }
}

impl BeatRun {
    /// The model starts to speak: the instance is not idle any more.
    pub fn start(alice: &mut Alice) -> (r: Self)
        ensures
            *final(alice) == (Alice {
                pulse: Pulse { last_was_idle: false, ..old(alice).pulse },
                ..*old(alice)
            }),
            r.tx.action_records@.len() == 0,
            r.tx.instance_id@ == old(alice).instance_id@,
            !r.tx.cancel_idle,
            r.guard.state == guard::SequenceState::Normal,
            r.guard.instance_id@ == old(alice).instance_id@,
    {
        alice.pulse.last_was_idle = false;
        BeatRun {
            tx: Transaction::new(alice.instance_id.as_str()),
            guard: SequenceGuard::new(alice.instance_id.as_str()),
        }
    }

    /// Decides what is done with the next action that the model wants.
    pub fn on_action(&mut self, interrupted: bool, action: &Action) -> (r: BeatStep)
        ensures
            is_step(*old(self), interrupted, action@, *final(self), r),
    {
        if interrupted {
            return BeatStep::Stop(BeatNote { sort: "interrupt", text: inference_interrupted() });
        }
        let judged = self.guard.check(action);
        match judged {
            SequenceVerdict::Ignore => BeatStep::Skip,
            SequenceVerdict::Reject(reason) => BeatStep::Stop(
                BeatNote {
                    sort: "reject",
                    text: hallucination_defense_interrupted(reason.as_str()),
                },
            ),
            SequenceVerdict::Allow => {
                let is_idle = match action {
                    Action::Idle { .. } => true,
                    _ => false,
                };
                let action_id = self.tx.record_doing(action.clone());
                proof {
                    let all = self.tx.action_records@;
                    assert forall|i: int| 0 <= i < all.len() - 1 implies all[i] == old(
                        self,
                    ).tx.action_records@[i] by {
                        assert(all.drop_last()[i] == all[i]);
                    }
                }
                if self.tx.cancel_idle && is_idle {
                    proof {
                        transaction::lemma_record_from(
                            old(self).tx.action_records@,
                            self.tx.action_records@,
                            action_id@,
                            0,
                        );
                    }
                    self.tx.record_done(action_id.as_str());
                    BeatStep::Cancel {
                        action_id,
                        output: ActionOutput::Note {
                            text: "idle cancelled: send_msg failed earlier in this beat".to_string(),
                        },
                    }
                } else {
                    BeatStep::Execute { action_id }
                }
            },
        }
    }

    /// What the model says cannot be read any further: the inference failed, unless
    /// it was interrupted, which goes on record.
    pub fn on_failure(interrupted: bool, error: String) -> (r: Result<BeatNote, String>)
        ensures
            match r {
                Ok(note) => interrupted && note.sort@ == "interrupt"@ && note.text@
                    == action_output::inference_interrupted_text(),
                Err(e) => !interrupted && e@ == error@,
            },
    {
        if interrupted {
            Ok(BeatNote { sort: "interrupt", text: inference_interrupted() })
        } else {
            Err(error)
        }
    }

    /// An action was done: idling takes hold, the result goes on record, and after
    /// an action whose result the model has to see the inference ends.
    pub fn on_executed(
        &mut self,
        pulse: &mut Pulse,
        action_id: &str,
        action: &Action,
        result: Result<ActionOutput, String>,
        now_secs: u64,
    ) -> (r: (ActionOutput, bool))
        ensures
            is_output(r.0, result),
            r.1 == action::blocking(action@),
            *final(pulse) == (match action@ {
                ActionModel::Idle { timeout_secs } => Pulse {
                    last_was_idle: true,
                    idle_timeout_secs: timeout_secs,
                    idle_since: Some(now_secs),
                    born: true,
                    ..*old(pulse)
                },
                _ => *old(pulse),
            }),
            final(self).guard == old(self).guard,
            final(self).tx.instance_id@ == old(self).tx.instance_id@,
            final(self).tx.cancel_idle == old(self).tx.cancel_idle,
            final(self).tx.started_at == old(self).tx.started_at,
            transaction::marked_done(
                old(self).tx.action_records@,
                final(self).tx.action_records@,
                action_id@,
            ),
    {
        if let Action::Idle { timeout_secs } = action {
            pulse.fall_idle(*timeout_secs, now_secs);
        }
        self.tx.record_done(action_id);
        (settle(result), action.is_blocking())
    }

    /// The content of the last summary of this beat.
    pub fn last_summary(&self) -> (r: Option<String>)
        ensures
            match r {
                Some(s) => last_summary_of(
                    self.tx.action_records@,
                    self.tx.action_records@.len() as int,
                ) == Some(s@),
                None => last_summary_of(
                    self.tx.action_records@,
                    self.tx.action_records@.len() as int,
                ) is None,
            },
    {
        let ghost all = self.tx.action_records@;
        let mut n: usize = self.tx.action_records.len();
        while n > 0
            invariant
                n <= all.len(),
                all == self.tx.action_records@,
                last_summary_of(all, all.len() as int) == last_summary_of(all, n as int),
            decreases n,
        {
            if let Action::Summary { content } = &self.tx.action_records[n - 1].action {
                return Some(content.clone());
            }
            n = n - 1;
        }
        None
    }

    /// The model fell silent, or broke off with an error. After an error there is
    /// a wait, and the beat fails with what is said of it; else the failures are
    /// forgotten, and the last summary is left to be worked up.
    pub fn finish(
        &self,
        alice: &mut Alice,
        error: Option<String>,
        now_ms: u64,
        policy: &PulsePolicy,
    ) -> (r: Result<Option<String>, String>)
        ensures
            match error {
                Some(e) => {
                    &&& r is Err
                    &&& exists|secs: u64, rotation: Option<(Seq<char>, Seq<char>)>|
                        {
                            &&& #[trigger] alice::failed(
                                *old(alice),
                                *final(alice),
                                now_ms,
                                *policy,
                                secs,
                            )
                            &&& rotation == alice::rotation_of(*old(alice), *final(alice))
                            &&& r->Err_0@ == #[trigger] alice::inference_error_text(
                                e@,
                                secs,
                                rotation,
                            )
                        }
                },
                None => {
                    &&& r is Ok
                    &&& *final(alice) == (Alice {
                        pulse: Pulse {
                            inference_failures: 0,
                            inference_backoff_until: None,
                            ..old(alice).pulse
                        },
                        current_infer_log_path: None,
                        ..*old(alice)
                    })
                    &&& (match r->Ok_0 {
                        Some(s) => Some(s@),
                        None => None,
                    }) == last_summary_of(
                        self.tx.action_records@,
                        self.tx.action_records@.len() as int,
                    )
                },
            },
    {
        match error {
            Some(e) => Err(fail_inference(alice, e.as_str(), now_ms, policy)),
            None => {
                alice.pulse.note_success();
                alice.current_infer_log_path = None;
                Ok(self.last_summary())
            },
        }
    }
}

/// An inference failed: there is a wait, and this is what is said of it.
pub fn fail_inference(alice: &mut Alice, error: &str, now_ms: u64, policy: &PulsePolicy) -> (r: String)
    ensures
        exists|secs: u64, rotation: Option<(Seq<char>, Seq<char>)>|
            {
                &&& #[trigger] alice::failed(*old(alice), *final(alice), now_ms, *policy, secs)
                &&& rotation == alice::rotation_of(*old(alice), *final(alice))
                &&& r@ == #[trigger] alice::inference_error_text(error@, secs, rotation)
            },
{
    let (secs, rotation) = alice.set_inference_backoff(now_ms, policy);
    let r = inference_error(error, secs, &rotation);
    assert(alice::failed(*old(alice), *alice, now_ms, *policy, secs));
    assert(alice::rotation_view(rotation) == alice::rotation_of(*old(alice), *alice));
    r
}

/// An instance with nothing to read that idles does nothing, and while messages
/// wait the model is never asked.
pub proof fn law_messages_come_first(p: Pulse, unread: i64)
    ensures
        unread > 0 ==> planned(p, unread) == BeatPlan::AutoRead,
        planned(p, unread) == BeatPlan::Infer ==> unread <= 0 && (unread == 0 ==> !p.last_was_idle),
        planned(p, unread) == BeatPlan::Skip <==> unread == 0 && p.last_was_idle,
{
}

} // verus!
