//! What happened in one beat.
use vstd::prelude::*;

use crate::clock;
use crate::clock::{now_timestamp, random_token};
use crate::inference::action::Action;

verus! {

/// The name of an action: when it started, and a random token.
pub open spec fn action_id_text(timestamp: Seq<char>, token: Seq<char>) -> Seq<char> {
    timestamp + "_"@ + token
}

/// The name of an action that started at `timestamp`.
pub fn make_action_id(timestamp: &str, token: &str) -> (r: String)
    ensures
        r@ == action_id_text(timestamp@, token@),
{
    let mut s = timestamp.to_string();
    s.push_str("_");
    s.push_str(token);
    s
}

/// A moment, an underscore and a token of six hexadecimal digits.
pub open spec fn is_action_id(s: Seq<char>) -> bool {
    &&& s.len() >= 21
    &&& clock::timestamp_text(s.take(s.len() - 7))
    &&& s[s.len() - 7] == '_'
    &&& clock::hex_text(s.skip(s.len() - 6), 6)
}

/// A fresh name for an action that starts now.
pub fn fresh_action_id() -> (r: String)
    ensures
        is_action_id(r@),
{
    let timestamp = now_timestamp();
    let token = random_token();
    let r = make_action_id(timestamp.as_str(), token.as_str());
    proof {
        reveal_strlit("_");
        assert(r@.skip(r@.len() - 6) =~= token@);
        assert(r@.take(r@.len() - 7) =~= timestamp@);
    }
    r
}

/// An action of this beat: when it started and, once it is done, how long it took.
#[derive(Debug)]
pub struct ActionRecord {
    pub action_id: String,
    pub action: Action,
    pub started_at: std::time::Instant,
    pub duration: Option<std::time::Duration>,
}

/// What happened in one beat.
#[derive(Debug)]
pub struct Transaction {
    pub action_records: Vec<ActionRecord>,
    pub started_at: std::time::Instant,
    pub instance_id: String,
    /// Set when a message could not be sent: the agent must not fall idle over it.
    pub cancel_idle: bool,
}

/// The first record of an action from position `i` on.
pub open spec fn record_from(records: Seq<ActionRecord>, id: Seq<char>, i: int) -> Option<int>
    decreases records.len() - i,
{
    if i < 0 || i >= records.len() {
        None
    } else if records[i].action_id@ == id {
        Some(i)
    } else {
        record_from(records, id, i + 1)
    }
}

/// Two records of the same action, which differ at most in how long it took.
pub open spec fn same_action(a: ActionRecord, b: ActionRecord) -> bool {
    a.action_id@ == b.action_id@ && a.action@ == b.action@ && a.started_at == b.started_at
}

/// Records before and after an action is noted as done: only the first record of
/// that name is touched, and of it only how long it took.
pub open spec fn marked_done(
    before: Seq<ActionRecord>,
    after: Seq<ActionRecord>,
    id: Seq<char>,
) -> bool {
    &&& after.len() == before.len()
    &&& match record_from(before, id, 0) {
        Some(i) => {
            &&& after[i].duration is Some
            &&& same_action(after[i], before[i])
            &&& forall|j: int| 0 <= j < before.len() && j != i ==> after[j] == before[j]
        },
        None => after == before,
    }
}

pub(crate) proof fn lemma_record_from(
    records: Seq<ActionRecord>,
    more: Seq<ActionRecord>,
    id: Seq<char>,
    i: int,
)
    requires
        0 <= i <= records.len(),
        more.len() == records.len() + 1,
        more.drop_last() == records,
        more.last().action_id@ == id,
    ensures
        match record_from(records, id, i) {
            Some(k) => i <= k < records.len() && record_from(more, id, i) == Some(k),
            None => record_from(more, id, i) == Some(records.len() as int),
        },
    decreases records.len() - i,
{
    if i < records.len() {
        assert(more[i] == more.drop_last()[i]);
        lemma_record_from(records, more, id, i + 1);
    }
}

impl Transaction {
    pub fn new(instance_id: &str) -> (r: Self)
        ensures
            r.action_records@.len() == 0,
            r.instance_id@ == instance_id@,
            !r.cancel_idle,
    {
        Transaction {
            action_records: Vec::new(),
            started_at: std::time::Instant::now(),
            instance_id: instance_id.to_string(),
            cancel_idle: false,
        }
    }

    /// A fresh name for an action.
    pub fn generate_action_id(&self) -> (r: String)
        ensures
            is_action_id(r@),
    {
        fresh_action_id()
    }

    /// Notes that an action starts, under a fresh name.
    pub fn record_doing(&mut self, action: Action) -> (r: String)
        ensures
            is_action_id(r@),
            final(self).action_records@.len() == old(self).action_records@.len() + 1,
            final(self).action_records@.drop_last() == old(self).action_records@,
            final(self).action_records@.last().action_id@ == r@,
            final(self).action_records@.last().action@ == action@,
            final(self).action_records@.last().duration is None,
            final(self).instance_id@ == old(self).instance_id@,
            final(self).cancel_idle == old(self).cancel_idle,
            final(self).started_at == old(self).started_at,
    {
        let action_id = fresh_action_id();
        let record = ActionRecord {
            action_id: action_id.clone(),
            action,
            started_at: std::time::Instant::now(),
            duration: None,
        };
        self.action_records.push(record);
        assert(self.action_records@.drop_last() =~= old(self).action_records@);
        action_id
    }

    /// Notes that an action is done.
    pub fn record_done(&mut self, action_id: &str)
        ensures
            marked_done(old(self).action_records@, final(self).action_records@, action_id@),
            final(self).instance_id@ == old(self).instance_id@,
            final(self).cancel_idle == old(self).cancel_idle,
            final(self).started_at == old(self).started_at,
    {
        let ghost before = self.action_records@;
        let mut i: usize = 0;
        while i < self.action_records.len()
            invariant
                i <= self.action_records@.len(),
                self.action_records@ == before,
                before == old(self).action_records@,
                self.instance_id@ == old(self).instance_id@,
                self.cancel_idle == old(self).cancel_idle,
                self.started_at == old(self).started_at,
                record_from(before, action_id@, 0) == record_from(before, action_id@, i as int),
            decreases self.action_records@.len() - i,
        {
            if crate::text::chars::same_text(self.action_records[i].action_id.as_str(), action_id) {
                let spent = self.action_records[i].started_at.elapsed();
                let done = ActionRecord {
                    action_id: self.action_records[i].action_id.clone(),
                    action: self.action_records[i].action.clone(),
                    started_at: self.action_records[i].started_at,
                    duration: Some(spent),
                };
                self.action_records.set(i, done);
                return;
            }
            i = i + 1;
        }
    }
}

} // verus!
