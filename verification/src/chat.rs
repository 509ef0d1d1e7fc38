//! The chat of an instance: what was said, and what waits to be read.
use vstd::prelude::*;

use crate::clock;
use crate::clock::utc_millis;
use crate::model;
use crate::model::{
    ChatMessage, InboxMessage, Message, QueryResult, RangeMessage, ROLE_AGENT, ROLE_USER,
    STATUS_READ, STATUS_UNREAD, TYPE_CHAT,
};
use crate::text::bytes;
use crate::text::bytes::{byte_len, find_byte};
use crate::text::chars::{same_text, slice_text, to_chars};
use crate::text::number;
use crate::text::number::{parse_i32, parse_u32};
use crate::text::order;
use crate::text::order::is_before;

verus! {

/// How a chat is opened: several programs may use it at once, and wait for each
/// other.
pub const OPEN_SQL: &'static str = "PRAGMA journal_mode=WAL; PRAGMA busy_timeout=5000;";

/// What is kept besides the messages: where to find them by number and those that
/// wait, and what the engine says of its state.
pub const SETUP_SQL: &'static str =
    "CREATE INDEX IF NOT EXISTS idx_messages_id ON messages(id); CREATE INDEX IF NOT EXISTS idx_messages_unread ON messages(role, read_status); CREATE TABLE IF NOT EXISTS engine_status (key TEXT PRIMARY KEY, value TEXT NOT NULL);";

/// The messages of a chat in the order of their numbers, and what the engine says
/// of its state.
#[derive(Debug)]
pub struct ChatHistory {
    pub messages: Vec<Message>,
    /// The number of the next message. Numbers are never given twice.
    pub next_id: i64,
    pub status: Option<String>,
}

/// Those of the first `n` messages that a condition holds of.
pub open spec fn picked(ms: Seq<Message>, n: int, f: spec_fn(Message) -> bool) -> Seq<Message>
    decreases n,
{
    if n <= 0 || n > ms.len() {
        Seq::empty()
    } else if f(ms[n - 1]) {
        picked(ms, n - 1, f).push(ms[n - 1])
    } else {
        picked(ms, n - 1, f)
    }
}

pub open spec fn all_picked(ms: Seq<Message>, f: spec_fn(Message) -> bool) -> Seq<Message> {
    picked(ms, ms.len() as int, f)
}

pub open spec fn unread_from(role: Seq<char>) -> spec_fn(Message) -> bool {
    |m: Message| m.role@ == role && m.read_status@ == "unread"@
}

/// The last `limit` of some messages; all of them where the limit is negative.
pub open spec fn last_of(ms: Seq<Message>, limit: int) -> Seq<Message> {
    if limit < 0 || limit >= ms.len() {
        ms
    } else {
        ms.skip(ms.len() - limit)
    }
}

/// A message as the chat shows it.
pub open spec fn shows(c: ChatMessage, m: Message) -> bool {
    c.id == m.id && c.role@ == m.role@ && c.content@ == m.content@ && c.timestamp@ == m.timestamp@
}

pub open spec fn shows_all(cs: Seq<ChatMessage>, ms: Seq<Message>) -> bool {
    cs.len() == ms.len() && forall|i: int| 0 <= i < cs.len() ==> shows(#[trigger] cs[i], ms[i])
}

/// The message with its read mark set.
pub open spec fn marked_read(m: Message, after: Message) -> bool {
    &&& after.id == m.id
    &&& after.sender@ == m.sender@
    &&& after.role@ == m.role@
    &&& after.content@ == m.content@
    &&& after.timestamp@ == m.timestamp@
    &&& after.msg_type@ == m.msg_type@
    &&& after.read_status@ == "read"@
}

/// The messages after all unread ones of a role were read: these are marked, and
/// nothing else is different.
pub open spec fn read_all(before: Seq<Message>, role: Seq<char>, after: Seq<Message>) -> bool {
    before.len() == after.len() && forall|i: int|
        0 <= i < before.len() ==> if unread_from(role)(#[trigger] before[i]) {
            marked_read(before[i], after[i])
        } else {
            after[i] == before[i]
        }
}

/// A message with these contents.
pub open spec fn is_message(
    m: Message,
    id: int,
    sender: Seq<char>,
    role: Seq<char>,
    content: Seq<char>,
    timestamp: Seq<char>,
    read_status: Seq<char>,
    msg_type: Seq<char>,
) -> bool {
    m.id == id && m.sender@ == sender && m.role@ == role && m.content@ == content && m.timestamp@
        == timestamp && m.read_status@ == read_status && m.msg_type@ == msg_type
}

pub(crate) proof fn lemma_picked_holds(
    ms: Seq<Message>,
    n: int,
    f: spec_fn(Message) -> bool,
    k: int,
)
    requires
        0 <= k < picked(ms, n, f).len(),
    ensures
        f(picked(ms, n, f)[k]),
    decreases n,
{
    if f(ms[n - 1]) && k == picked(ms, n, f).len() - 1 {
    } else {
        lemma_picked_holds(ms, n - 1, f, k);
    }
}

proof fn lemma_picked_bound(ms: Seq<Message>, n: int, f: spec_fn(Message) -> bool)
    requires
        0 <= n <= ms.len(),
    ensures
        picked(ms, n, f).len() <= n,
    decreases n,
{
    if n > 0 {
        lemma_picked_bound(ms, n - 1, f);
    }
}

impl ChatHistory {
    /// The numbers of the messages grow, and the next one is greater still.
    pub open spec fn wf(self) -> bool {
        &&& 1 <= self.next_id
        &&& forall|i: int|
            0 <= i < self.messages@.len() ==> 1 <= (#[trigger] self.messages@[i]).id < self.next_id
        &&& forall|i: int, j: int|
            0 <= i < j < self.messages@.len() ==> (#[trigger] self.messages@[i]).id < (
            #[trigger] self.messages@[j]).id
    }

    /// A message was added, and nothing else is different.
    pub open spec fn added(
        self,
        before: ChatHistory,
        sender: Seq<char>,
        role: Seq<char>,
        content: Seq<char>,
        timestamp: Seq<char>,
        read_status: Seq<char>,
        msg_type: Seq<char>,
    ) -> bool {
        &&& self.wf()
        &&& self.messages@.len() == before.messages@.len() + 1
        &&& self.messages@.drop_last() == before.messages@
        &&& is_message(
            self.messages@.last(),
            before.next_id as int,
            sender,
            role,
            content,
            timestamp,
            read_status,
            msg_type,
        )
        &&& self.next_id == before.next_id + 1
        &&& self.status == before.status
    }

    /// A chat with nothing in it.
    pub fn new() -> (r: Self)
        ensures
            r.wf(),
            r.messages@.len() == 0,
            r.next_id == 1,
            r.status is None,
    {
        ChatHistory { messages: Vec::new(), next_id: 1, status: None }
    }

    fn insert(
        &mut self,
        sender: &str,
        role: &str,
        content: &str,
        timestamp: &str,
        read_status: &str,
        msg_type: &str,
    ) -> (r: i64)
        requires
            old(self).wf(),
            old(self).next_id < i64::MAX,
        ensures
            r == old(self).next_id,
            final(self).added(
                *old(self),
                sender@,
                role@,
                content@,
                timestamp@,
                read_status@,
                msg_type@,
            ),
    {
        let id: i64 = self.next_id;
        self.messages.push(
            Message {
                id,
                sender: sender.to_string(),
                role: role.to_string(),
                content: content.to_string(),
                timestamp: timestamp.to_string(),
                read_status: read_status.to_string(),
                msg_type: msg_type.to_string(),
            },
        );
        self.next_id = id + 1;
        assert(self.messages@.drop_last() =~= old(self).messages@);
        id
    }

    /// Adds a message to the history, as read.
    pub fn append(&mut self, sender: &str, role: &str, content: &str, timestamp: &str)
        requires
            old(self).wf(),
            old(self).next_id < i64::MAX,
        ensures
            final(self).added(
                *old(self),
                sender@,
                role@,
                content@,
                timestamp@,
                "read"@,
                "chat"@,
            ),
    {
        self.insert(sender, role, content, timestamp, STATUS_READ, TYPE_CHAT);
    }

    /// Adds a message of a user, which waits to be read; returns its number.
    pub fn write_user_message(
        &mut self,
        sender: &str,
        content: &str,
        timestamp: &str,
        msg_type: &str,
    ) -> (r: i64)
        requires
            old(self).wf(),
            old(self).next_id < i64::MAX,
        ensures
            r == old(self).next_id,
            final(self).added(
                *old(self),
                sender@,
                "user"@,
                content@,
                timestamp@,
                "unread"@,
                msg_type@,
            ),
    {
        self.insert(sender, ROLE_USER, content, timestamp, STATUS_UNREAD, msg_type)
    }

    /// Adds an answer of the agent, which waits to be shown.
    pub fn write_agent_reply(&mut self, sender: &str, content: &str, timestamp: &str) -> (r: i64)
        requires
            old(self).wf(),
            old(self).next_id < i64::MAX,
        ensures
            r == old(self).next_id,
            final(self).added(
                *old(self),
                sender@,
                "agent"@,
                content@,
                timestamp@,
                "unread"@,
                "chat"@,
            ),
    {
        self.insert(sender, ROLE_AGENT, content, timestamp, STATUS_UNREAD, TYPE_CHAT)
    }

    /// The first `n` messages, the last `limit` of them.
    fn last_shown(&self, n: usize, limit: i64) -> (r: Vec<ChatMessage>)
        requires
            n <= self.messages@.len(),
        ensures
            shows_all(r@, last_of(self.messages@.take(n as int), limit as int)),
    {
        let ghost part = self.messages@.take(n as int);
        let start: usize = if limit < 0 || limit as u64 >= n as u64 {
            0
        } else {
            n - limit as usize
        };
        let ghost wanted = last_of(part, limit as int);
        let mut out: Vec<ChatMessage> = Vec::new();
        let mut i: usize = start;
        while i < n
            invariant
                start <= i <= n <= self.messages@.len(),
                out@.len() == i - start,
                forall|k: int|
                    0 <= k < out@.len() ==> shows(#[trigger] out@[k], self.messages@[start + k]),
            decreases n - i,
        {
            out.push(ChatMessage::from(&self.messages[i]));
            i = i + 1;
        }
        assert forall|k: int| 0 <= k < out@.len() implies shows(#[trigger] out@[k], wanted[k]) by {
            assert(wanted[k] == self.messages@[start + k]);
        }
        out
    }

    /// How many messages have a number below one.
    fn count_before(&self, before: i64) -> (r: usize)
        requires
            self.wf(),
        ensures
            r <= self.messages@.len(),
            forall|i: int| 0 <= i < r ==> (#[trigger] self.messages@[i]).id < before,
            forall|i: int|
                r <= i < self.messages@.len() ==> (#[trigger] self.messages@[i]).id >= before,
    {
        let mut n: usize = 0;
        while n < self.messages.len() && self.messages[n].id < before
            invariant
                n <= self.messages@.len(),
                forall|i: int| 0 <= i < n ==> (#[trigger] self.messages@[i]).id < before,
            decreases self.messages@.len() - n,
        {
            n = n + 1;
        }
        n
    }

    /// A page of the chat: the last messages, or the last ones before a message.
    pub fn query(&self, limit: i64, before: i64) -> (r: QueryResult)
        requires
            self.wf(),
            self.messages@.len() <= i64::MAX,
        ensures
            r.total == self.messages@.len(),
            shows_all(
                r.messages@,
                last_of(
                    if before <= 0 {
                        self.messages@
                    } else {
                        all_picked(self.messages@, |m: Message| m.id < before)
                    },
                    limit as int,
                ),
            ),
            r.start_id == (if r.messages@.len() > 0 {
                r.messages@[0].id as int
            } else {
                0
            }),
            r.has_more == (r.start_id > 1),
    {
        let all: usize = self.messages.len();
        let n: usize = if before <= 0 {
            all
        } else {
            self.count_before(before)
        };
        proof {
            if before > 0 {
                let f = |m: Message| m.id < before;
                self.lemma_picked_prefix(all as int, n as int, f);
                assert(all_picked(self.messages@, f) =~= self.messages@.take(n as int));
            } else {
                assert(self.messages@.take(n as int) =~= self.messages@);
            }
        }
        let messages = self.last_shown(n, limit);
        let start_id: i64 = if messages.len() > 0 {
            messages[0].id
        } else {
            0
        };
        QueryResult { messages, total: all as i64, start_id, has_more: start_id > 1 }
    }

    proof fn lemma_picked_prefix(&self, k: int, n: int, f: spec_fn(Message) -> bool)
        requires
            0 <= n <= self.messages@.len(),
            0 <= k <= self.messages@.len(),
            forall|i: int| 0 <= i < self.messages@.len() ==> (f(#[trigger] self.messages@[i]) <==> i < n),
        ensures
            picked(self.messages@, k, f) == self.messages@.take(if k < n {
                k
            } else {
                n
            }),
        decreases k,
    {
        let m = if k < n {
            k
        } else {
            n
        };
        if k > 0 {
            self.lemma_picked_prefix(k - 1, n, f);
            assert(picked(self.messages@, k, f) =~= self.messages@.take(m));
        } else {
            assert(picked(self.messages@, k, f) =~= self.messages@.take(m));
        }
    }

    /// The messages with a number above one.
    pub fn get_messages_after(&self, after_id: i64) -> (r: Vec<ChatMessage>)
        ensures
            shows_all(r@, all_picked(self.messages@, |m: Message| m.id > after_id)),
    {
        let ghost f = |m: Message| m.id > after_id;
        let mut out: Vec<ChatMessage> = Vec::new();
        let mut i: usize = 0;
        while i < self.messages.len()
            invariant
                i <= self.messages@.len(),
                f == (|m: Message| m.id > after_id),
                shows_all(out@, picked(self.messages@, i as int, f)),
            decreases self.messages@.len() - i,
        {
            if self.messages[i].id > after_id {
                out.push(ChatMessage::from(&self.messages[i]));
            }
            i = i + 1;
        }
        out
    }

    /// The answers of the agent with a number above one.
    pub fn get_agent_replies_after(&self, after_id: i64) -> (r: Vec<(i64, String, String)>)
        ensures
            are_replies(
                r@,
                all_picked(self.messages@, |m: Message| m.role@ == "agent"@ && m.id > after_id),
            ),
    {
        let ghost f = |m: Message| m.role@ == "agent"@ && m.id > after_id;
        let mut out: Vec<(i64, String, String)> = Vec::new();
        let mut i: usize = 0;
        while i < self.messages.len()
            invariant
                i <= self.messages@.len(),
                f == (|m: Message| m.role@ == "agent"@ && m.id > after_id),
                are_replies(out@, picked(self.messages@, i as int, f)),
            decreases self.messages@.len() - i,
        {
            let m = &self.messages[i];
            if m.id > after_id && same_text(m.role.as_str(), ROLE_AGENT) {
                out.push((m.id, m.content.clone(), m.timestamp.clone()));
            }
            i = i + 1;
        }
        out
    }

    /// How many messages of users wait to be read.
    pub fn count_unread_user_messages(&self) -> (r: i64)
        requires
            self.messages@.len() <= i64::MAX,
        ensures
            r == all_picked(self.messages@, unread_from("user"@)).len(),
    {
        let ghost f = unread_from("user"@);
        let mut n: i64 = 0;
        let mut i: usize = 0;
        while i < self.messages.len()
            invariant
                i <= self.messages@.len() <= i64::MAX,
                f == unread_from("user"@),
                n == picked(self.messages@, i as int, f).len(),
                n <= i,
            decreases self.messages@.len() - i,
        {
            let m = &self.messages[i];
            if same_text(m.role.as_str(), ROLE_USER) && same_text(
                m.read_status.as_str(),
                STATUS_UNREAD,
            ) {
                n = n + 1;
            }
            i = i + 1;
        }
        n
    }

    /// Marks the unread messages of a role; returns where they stand.
    fn mark_read(&mut self, role: &str) -> (r: Vec<Message>)
        requires
            old(self).wf(),
        ensures
            final(self).wf(),
            final(self).next_id == old(self).next_id,
            final(self).status == old(self).status,
            read_all(old(self).messages@, role@, final(self).messages@),
            r@ == all_picked(old(self).messages@, unread_from(role@)),
    {
        let ghost start = self.messages@;
        let ghost f = unread_from(role@);
        let n: usize = self.messages.len();
        let mut out: Vec<Message> = Vec::new();
        let mut i: usize = 0;
        while i < n
            invariant
                i <= n,
                n == start.len(),
                n == self.messages@.len(),
                f == unread_from(role@),
                self.next_id == old(self).next_id,
                self.status == old(self).status,
                start == old(self).messages@,
                forall|k: int| i <= k < n ==> self.messages@[k] == #[trigger] start[k],
                forall|k: int|
                    0 <= k < i ==> if f(#[trigger] start[k]) {
                        marked_read(start[k], self.messages@[k])
                    } else {
                        self.messages@[k] == start[k]
                    },
                out@ == picked(start, i as int, f),
            decreases n - i,
        {
            assert(self.messages@[i as int] == start[i as int]);
            let unread = same_text(self.messages[i].role.as_str(), role) && same_text(
                self.messages[i].read_status.as_str(),
                STATUS_UNREAD,
            );
            if unread {
                let m = self.messages[i].clone();
                let read = Message {
                    id: m.id,
                    sender: m.sender.clone(),
                    role: m.role.clone(),
                    content: m.content.clone(),
                    timestamp: m.timestamp.clone(),
                    read_status: STATUS_READ.to_string(),
                    msg_type: m.msg_type.clone(),
                };
                out.push(m);
                self.messages.set(i, read);
            }
            i = i + 1;
        }
        proof {
            assert forall|k: int| 0 <= k < n implies (#[trigger] self.messages@[k]).id
                == start[k].id by {
                assert(start[k] == start[k]);
            }
        }
        out
    }

    /// Reads the messages of users that wait: they count as read from now on.
    pub fn read_unread_user_messages(&mut self) -> (r: Vec<InboxMessage>)
        requires
            old(self).wf(),
        ensures
            final(self).wf(),
            final(self).next_id == old(self).next_id,
            final(self).status == old(self).status,
            read_all(old(self).messages@, "user"@, final(self).messages@),
            are_inbox(r@, all_picked(old(self).messages@, unread_from("user"@))),
    {
        let found = self.mark_read(ROLE_USER);
        let mut out: Vec<InboxMessage> = Vec::new();
        let mut i: usize = 0;
        while i < found.len()
            invariant
                i <= found@.len(),
                out@.len() == i,
                forall|k: int| 0 <= k < i ==> is_inbox(#[trigger] out@[k], found@[k]),
            decreases found@.len() - i,
        {
            out.push(InboxMessage::from(&found[i]));
            i = i + 1;
        }
        out
    }

    /// Reads the answers of the agent that wait: they count as read from now on.
    pub fn read_unread_agent_replies(&mut self) -> (r: Vec<(i64, String, String)>)
        requires
            old(self).wf(),
        ensures
            final(self).wf(),
            final(self).next_id == old(self).next_id,
            final(self).status == old(self).status,
            read_all(old(self).messages@, "agent"@, final(self).messages@),
            are_replies(r@, all_picked(old(self).messages@, unread_from("agent"@))),
    {
        let found = self.mark_read(ROLE_AGENT);
        let mut out: Vec<(i64, String, String)> = Vec::new();
        let mut i: usize = 0;
        while i < found.len()
            invariant
                i <= found@.len(),
                out@.len() == i,
                forall|k: int| 0 <= k < i ==> is_reply(#[trigger] out@[k], found@[k]),
            decreases found@.len() - i,
        {
            out.push((found[i].id, found[i].content.clone(), found[i].timestamp.clone()));
            i = i + 1;
        }
        out
    }

    /// All messages between two times, both included.
    pub fn read_messages_in_range(&self, start: &str, end: &str) -> (r: Vec<RangeMessage>)
        ensures
            are_range(r@, all_picked(self.messages@, between(start@, end@))),
    {
        let ghost f = between(start@, end@);
        let mut out: Vec<RangeMessage> = Vec::new();
        let mut i: usize = 0;
        while i < self.messages.len()
            invariant
                i <= self.messages@.len(),
                f == between(start@, end@),
                are_range(out@, picked(self.messages@, i as int, f)),
            decreases self.messages@.len() - i,
        {
            let m = &self.messages[i];
            if !is_before(m.timestamp.as_str(), start) && !is_before(end, m.timestamp.as_str()) {
                out.push(RangeMessage::from(m));
            }
            i = i + 1;
        }
        out
    }

    /// Sets what the engine says of its state.
    pub fn update_status(&mut self, status_json: &str)
        ensures
            final(self).messages == old(self).messages,
            final(self).next_id == old(self).next_id,
            final(self).status is Some,
            final(self).status->0@ == status_json@,
    {
        self.status = Some(status_json.to_string());
    }

    /// What the engine says of its state.
    pub fn read_status(&self) -> (r: Option<String>)
        ensures
            r == self.status,
    {
        match &self.status {
            Some(s) => Some(s.clone()),
            None => None,
        }
    }

    /// When the last message was written, in milliseconds of the epoch; zero where
    /// there is none, or its time cannot be read.
    pub fn get_last_message_time(&self) -> (r: i64)
        requires
            self.messages@.len() > 0 ==> can_be_cut(self.messages@.last().timestamp@),
        ensures
            r == (if self.messages@.len() > 0 {
                match timestamp_millis(self.messages@.last().timestamp@) {
                    Some(ms) => ms,
                    None => 0,
                }
            } else {
                0
            }),
    {
        let n: usize = self.messages.len();
        if n == 0 {
            return 0;
        }
        match parse_timestamp_to_millis(self.messages[n - 1].timestamp.as_str()) {
            Some(ms) => ms,
            None => 0,
        }
    }
}

pub open spec fn between(start: Seq<char>, end: Seq<char>) -> spec_fn(Message) -> bool {
    |m: Message|
        !order::comes_before(m.timestamp@, start) && !order::comes_before(end, m.timestamp@)
}

pub open spec fn is_inbox(x: InboxMessage, m: Message) -> bool {
    x.id == m.id && x.sender@ == m.sender@ && x.content@ == m.content@ && x.timestamp@
        == m.timestamp@ && x.msg_type@ == m.msg_type@
}

pub open spec fn are_inbox(xs: Seq<InboxMessage>, ms: Seq<Message>) -> bool {
    xs.len() == ms.len() && forall|i: int| 0 <= i < xs.len() ==> is_inbox(#[trigger] xs[i], ms[i])
}

/// The number, the content and the time of a message.
pub open spec fn is_reply(x: (i64, String, String), m: Message) -> bool {
    x.0 == m.id && x.1@ == m.content@ && x.2@ == m.timestamp@
}

pub open spec fn are_replies(xs: Seq<(i64, String, String)>, ms: Seq<Message>) -> bool {
    xs.len() == ms.len() && forall|i: int| 0 <= i < xs.len() ==> is_reply(#[trigger] xs[i], ms[i])
}

pub open spec fn is_range(x: RangeMessage, m: Message) -> bool {
    x.sender@ == m.sender@ && x.role@ == m.role@ && x.content@ == m.content@ && x.timestamp@
        == m.timestamp@
}

pub open spec fn are_range(xs: Seq<RangeMessage>, ms: Seq<Message>) -> bool {
    xs.len() == ms.len() && forall|i: int| 0 <= i < xs.len() ==> is_range(#[trigger] xs[i], ms[i])
}

proof fn lemma_nothing_picked(ms: Seq<Message>, n: int, f: spec_fn(Message) -> bool)
    requires
        0 <= n <= ms.len(),
        forall|i: int| 0 <= i < ms.len() ==> !f(#[trigger] ms[i]),
    ensures
        picked(ms, n, f).len() == 0,
    decreases n,
{
    if n > 0 {
        lemma_nothing_picked(ms, n - 1, f);
    }
}

/// Once the unread messages of a role have been read, none is left to be read.
pub proof fn law_reading_empties_the_inbox(
    before: Seq<Message>,
    role: Seq<char>,
    after: Seq<Message>,
)
    requires
        read_all(before, role, after),
    ensures
        all_picked(after, unread_from(role)).len() == 0,
{
    let f = unread_from(role);
    reveal_strlit("read");
    reveal_strlit("unread");
    assert("read"@.len() != "unread"@.len());
    assert forall|i: int| 0 <= i < after.len() implies !f(#[trigger] after[i]) by {
        if f(before[i]) {
            assert(marked_read(before[i], after[i]));
        } else {
            assert(after[i] == before[i]);
        }
    }
    lemma_nothing_picked(after, after.len() as int, f);
}

/// A message of a user that was just written is the last one that waits, and all
/// that waited before still waits.
pub proof fn law_written_messages_wait(
    before: ChatHistory,
    after: ChatHistory,
    sender: Seq<char>,
    content: Seq<char>,
    timestamp: Seq<char>,
    msg_type: Seq<char>,
)
    requires
        after.added(before, sender, "user"@, content, timestamp, "unread"@, msg_type),
    ensures
        ({
            let f = unread_from("user"@);
            let waiting = all_picked(after.messages@, f);
            &&& waiting.drop_last() == all_picked(before.messages@, f)
            &&& waiting.last().content@ == content
            &&& waiting.last().sender@ == sender
        }),
{
    let f = unread_from("user"@);
    let (a, b) = (after.messages@, before.messages@);
    lemma_picked_same(a, b, b.len() as int, f);
    assert(a[a.len() - 1] == a.last());
    assert(all_picked(a, f).drop_last() =~= all_picked(b, f));
}

proof fn lemma_picked_same(a: Seq<Message>, b: Seq<Message>, n: int, f: spec_fn(Message) -> bool)
    requires
        0 <= n <= b.len(),
        a.len() == b.len() + 1,
        a.drop_last() == b,
    ensures
        picked(a, n, f) == picked(b, n, f),
    decreases n,
{
    if n > 0 {
        lemma_picked_same(a, b, n - 1, f);
        assert(a.drop_last()[n - 1] == a[n - 1]);
    }
}

/// What is picked from a list that is all wanted up to a point, and not behind it.
proof fn lemma_picked_front(ms: Seq<Message>, n: int, k: int, f: spec_fn(Message) -> bool)
    requires
        0 <= k <= ms.len(),
        0 <= n <= ms.len(),
        forall|i: int| 0 <= i < k ==> f(#[trigger] ms[i]),
        forall|i: int| k <= i < ms.len() ==> !f(#[trigger] ms[i]),
    ensures
        picked(ms, n, f) == ms.take(if n < k {
            n
        } else {
            k
        }),
    decreases n,
{
    if n > 0 {
        lemma_picked_front(ms, n - 1, k, f);
        assert(picked(ms, n, f) =~= ms.take(if n < k {
            n
        } else {
            k
        }));
    } else {
        assert(picked(ms, n, f) =~= ms.take(0));
    }
}

/// What is picked from a list that is all wanted from a point on, and not before it.
proof fn lemma_picked_back(ms: Seq<Message>, n: int, k: int, f: spec_fn(Message) -> bool)
    requires
        0 <= k <= ms.len(),
        0 <= n <= ms.len(),
        forall|i: int| 0 <= i < k ==> !f(#[trigger] ms[i]),
        forall|i: int| k <= i < ms.len() ==> f(#[trigger] ms[i]),
    ensures
        picked(ms, n, f) == ms.subrange(
            if n < k {
                n
            } else {
                k
            },
            n,
        ),
    decreases n,
{
    if n > 0 {
        lemma_picked_back(ms, n - 1, k, f);
    }
    assert(picked(ms, n, f) =~= ms.subrange(
        if n < k {
            n
        } else {
            k
        },
        n,
    ));
}

/// Pages follow on each other: the page before the first message of a page and that
/// page are together what one longer page shows.
pub proof fn law_pages_follow_on(chat: ChatHistory, n: int, m: int)
    requires
        chat.wf(),
        0 < n,
        0 <= m,
        chat.messages@.len() > 0,
    ensures
        ({
            let all = chat.messages@;
            let page = last_of(all, n);
            let older = last_of(all_picked(all, |x: Message| x.id < page[0].id), m);
            older + page == last_of(all, n + m)
        }),
{
    let all = chat.messages@;
    let page = last_of(all, n);
    let k = all.len() - page.len();
    let f = |x: Message| x.id < page[0].id;
    assert(page[0] == all[k]);
    assert forall|i: int| 0 <= i < k implies f(#[trigger] all[i]) by {
        assert(all[i].id < all[k].id);
    }
    assert forall|i: int| k <= i < all.len() implies !f(#[trigger] all[i]) by {
        if i > k {
            assert(all[k].id < all[i].id);
        }
    }
    lemma_picked_front(all, all.len() as int, k, f);
    assert(last_of(all.take(k), m) + page =~= last_of(all, n + m));
}

/// Polling misses nothing and repeats nothing: the messages up to one and those
/// after it are all messages, in order.
pub proof fn law_polling_misses_nothing(chat: ChatHistory, after_id: i64)
    requires
        chat.wf(),
    ensures
        all_picked(chat.messages@, |x: Message| x.id <= after_id) + all_picked(
            chat.messages@,
            |x: Message| x.id > after_id,
        ) == chat.messages@,
{
    let all = chat.messages@;
    let f = |x: Message| x.id <= after_id;
    let g = |x: Message| x.id > after_id;
    let k = lemma_split_point(all, after_id, all.len() as int);
    lemma_picked_front(all, all.len() as int, k, f);
    lemma_picked_back(all, all.len() as int, k, g);
    assert(all.take(k) + all.subrange(k, all.len() as int) =~= all);
}

/// Where the messages behind a number start.
proof fn lemma_split_point(ms: Seq<Message>, after_id: i64, n: int) -> (k: int)
    requires
        0 <= n <= ms.len(),
        forall|i: int, j: int|
            0 <= i < j < ms.len() ==> (#[trigger] ms[i]).id < (#[trigger] ms[j]).id,
    ensures
        0 <= k <= n,
        forall|i: int| 0 <= i < k ==> (#[trigger] ms[i]).id <= after_id,
        forall|i: int| k <= i < n ==> (#[trigger] ms[i]).id > after_id,
    decreases n,
{
    if n == 0 {
        0
    } else if ms[n - 1].id <= after_id {
        assert forall|i: int| 0 <= i < n implies (#[trigger] ms[i]).id <= after_id by {
            if i < n - 1 {
                assert(ms[i].id < ms[n - 1].id);
            }
        }
        n
    } else {
        lemma_split_point(ms, after_id, n - 1)
    }
}

/// The text between two bytes, where it can be cut there.
pub open spec fn cut(ts: Seq<char>, from: int, to: int) -> Option<Seq<char>> {
    match (bytes::at_byte(ts, from), bytes::at_byte(ts, to)) {
        (Some(i), Some(j)) => if 0 <= i <= j <= ts.len() {
            Some(ts.subrange(i, j))
        } else {
            None
        },
        _ => None,
    }
}

/// The number between two bytes.
pub open spec fn field(ts: Seq<char>, from: int, to: int) -> Option<u32> {
    match cut(ts, from, to) {
        Some(s) => number::u32_of(s),
        None => None,
    }
}

pub open spec fn year_field(ts: Seq<char>) -> Option<i32> {
    match cut(ts, 0, 4) {
        Some(s) => number::i32_of(s),
        None => None,
    }
}

/// A time that is too short to be one, or that can be cut into its parts as far as
/// they are numbers.
pub open spec fn can_be_cut(ts: Seq<char>) -> bool {
    bytes::text_bytes(ts) >= 14 ==> {
        &&& cut(ts, 0, 4) is Some
        &&& year_field(ts) is Some ==> {
            &&& cut(ts, 4, 6) is Some
            &&& field(ts, 4, 6) is Some ==> {
                &&& cut(ts, 6, 8) is Some
                &&& field(ts, 6, 8) is Some ==> {
                    &&& cut(ts, 8, 10) is Some
                    &&& field(ts, 8, 10) is Some ==> {
                        &&& cut(ts, 10, 12) is Some
                        &&& field(ts, 10, 12) is Some ==> cut(ts, 12, 14) is Some
                    }
                }
            }
        }
    }
}

/// The moment that a time of the form `yyyyMMddHHmmss` tells, in milliseconds of
/// the epoch.
pub open spec fn timestamp_millis(ts: Seq<char>) -> Option<i64> {
    if bytes::text_bytes(ts) < 14 {
        None
    } else {
        match (
            year_field(ts),
            field(ts, 4, 6),
            field(ts, 6, 8),
            field(ts, 8, 10),
            field(ts, 10, 12),
            field(ts, 12, 14),
        ) {
            (Some(y), Some(mo), Some(d), Some(h), Some(mi), Some(s)) => if clock::is_moment(
                y as int,
                mo as int,
                d as int,
                h as int,
                mi as int,
                s as int,
            ) {
                Some(
                    clock::epoch_millis(
                        y as int,
                        mo as int,
                        d as int,
                        h as int,
                        mi as int,
                        s as int,
                    ) as i64,
                )
            } else {
                None
            },
            _ => None,
        }
    }
}

/// The text between two bytes.
fn cut_at(v: &Vec<char>, from: usize, to: usize) -> (r: String)
    requires
        cut(v@, from as int, to as int) is Some,
    ensures
        cut(v@, from as int, to as int) == Some(r@),
{
    match (find_byte(v, from), find_byte(v, to)) {
        (Some(i), Some(j)) => slice_text(v, i, j),
        _ => String::new(),
    }
}

/// The moment that a time of the form `yyyyMMddHHmmss` tells, in milliseconds of
/// the epoch.
pub fn parse_timestamp_to_millis(ts: &str) -> (r: Option<i64>)
    requires
        can_be_cut(ts@),
    ensures
        r == timestamp_millis(ts@),
{
    if byte_len(ts) < 14 {
        return None;
    }
    let v = to_chars(ts);
    let year = match parse_i32(cut_at(&v, 0, 4).as_str()) {
        Some(n) => n,
        None => {
            return None;
        },
    };
    let month = match parse_u32(cut_at(&v, 4, 6).as_str()) {
        Some(n) => n,
        None => {
            return None;
        },
    };
    let day = match parse_u32(cut_at(&v, 6, 8).as_str()) {
        Some(n) => n,
        None => {
            return None;
        },
    };
    let hour = match parse_u32(cut_at(&v, 8, 10).as_str()) {
        Some(n) => n,
        None => {
            return None;
        },
    };
    let minute = match parse_u32(cut_at(&v, 10, 12).as_str()) {
        Some(n) => n,
        None => {
            return None;
        },
    };
    let second = match parse_u32(cut_at(&v, 12, 14).as_str()) {
        Some(n) => n,
        None => {
            return None;
        },
    };
    proof {
        lemma_short_year(cut(ts@, 0, 4)->0, ts@);
    }
    utc_millis(year, month, day, hour, minute, second)
}

/// The bytes between two places are at least as many as the characters.
proof fn lemma_at_byte_span(s: Seq<char>, n: int, k: int)
    requires
        0 <= k <= s.len(),
        bytes::at_byte_from(s, n, k) is Some,
    ensures
        k <= bytes::at_byte_from(s, n, k)->0 <= k + n,
    decreases s.len() - k,
{
    if n > 0 && k < s.len() {
        assert(bytes::char_bytes(s[k]) >= 1);
        lemma_at_byte_span(s, n - bytes::char_bytes(s[k]), k + 1);
    }
}

proof fn lemma_small_value(s: Seq<char>)
    requires
        s.len() <= 4,
        number::all_digits(s),
    ensures
        number::dec_value(s) <= 9999,
{
    reveal_with_fuel(number::dec_value, 5);
    let a = s;
    if a.len() > 0 {
        assert(number::is_digit(a.last()));
        let b = a.drop_last();
        if b.len() > 0 {
            assert(number::is_digit(b.last()));
            let c = b.drop_last();
            if c.len() > 0 {
                assert(number::is_digit(c.last()));
                let d = c.drop_last();
                if d.len() > 0 {
                    assert(number::is_digit(d.last()));
                }
            }
        }
    }
}

/// A year of four bytes is a year of at most four digits.
proof fn lemma_short_year(y: Seq<char>, ts: Seq<char>)
    requires
        cut(ts, 0, 4) == Some(y),
        number::i32_of(y) is Some,
    ensures
        -9999 <= number::i32_of(y)->0 <= 9999,
{
    lemma_at_byte_span(ts, 4, 0);
    assert(y.len() <= 4);
    let d = if y.len() > 0 && (y[0] == '-' || y[0] == '+') {
        y.skip(1)
    } else {
        y
    };
    assert(number::all_digits(d));
    lemma_small_value(d);
}

} // verus!
