//! What the engine answers to requests.
use vstd::prelude::*;

use crate::agent::signal::EngineStatus;
use crate::api::types::{
    ActionResult, EngineOnlineStatus, FileInfo, FileReadResult, InstanceInfo, MessageInfo,
    MessagesResult, ObserveResult,
};
use crate::bindings::i18n;
use crate::bindings::i18n::{
    binary_file_description, empty_message, instance_deleted, no_valid_fields,
};
use crate::chat;
use crate::chat::ChatHistory;
use crate::model::{ChatMessage, Message, ROLE_AGENT};
use crate::persist::settings;
use crate::persist::settings::Settings;
use crate::text::case;
use crate::text::case::to_lower;
use crate::text::chars::same_text;
use crate::text::number;
use crate::text::number::{decimal, push_dec_int};
use crate::text::order;
use crate::text::order::is_before;
use crate::text::path;
use crate::text::path::join_path;
use crate::text::search;
use crate::text::search::{join, starts_with};
use crate::text::space;
use crate::text::space::trim;

verus! {

/// A number brought between two bounds; where they cross, the upper one counts.
pub open spec fn clamped(n: i64, min: i64, max: i64) -> i64 {
    let low = if n < min {
        min
    } else {
        n
    };
    if low > max {
        max
    } else {
        low
    }
}

/// How many messages a page may show.
pub fn page_limit(limit: i64, min_page_size: i64, max_page_size: i64) -> (r: i64)
    ensures
        r == clamped(limit, min_page_size, max_page_size),
{
    let low: i64 = if limit < min_page_size {
        min_page_size
    } else {
        limit
    };
    if low > max_page_size {
        max_page_size
    } else {
        low
    }
}

/// A message as it is shown; it names neither sender nor recipient.
pub open spec fn is_info(x: MessageInfo, c: ChatMessage) -> bool {
    x.id == c.id && x.role@ == c.role@ && x.content@ == c.content@ && x.timestamp@ == c.timestamp@
        && x.sender@.len() == 0 && x.recipient@.len() == 0
}

pub open spec fn are_infos(xs: Seq<MessageInfo>, cs: Seq<ChatMessage>) -> bool {
    xs.len() == cs.len() && forall|i: int| 0 <= i < xs.len() ==> is_info(#[trigger] xs[i], cs[i])
}

/// Messages as they are shown.
pub open spec fn are_shown(xs: Seq<MessageInfo>, ms: Seq<Message>) -> bool {
    xs.len() == ms.len() && forall|i: int|
        0 <= i < xs.len() ==> {
            let x = #[trigger] xs[i];
            x.id == ms[i].id && x.role@ == ms[i].role@ && x.content@ == ms[i].content@
                && x.timestamp@ == ms[i].timestamp@ && x.sender@.len() == 0 && x.recipient@.len()
                == 0
        }
}

fn infos_of(cs: &Vec<ChatMessage>, limit: usize) -> (r: Vec<MessageInfo>)
    ensures
        are_infos(
            r@,
            if limit < cs@.len() {
                cs@.take(limit as int)
            } else {
                cs@
            },
        ),
{
    let n: usize = if limit < cs.len() {
        limit
    } else {
        cs.len()
    };
    let mut out: Vec<MessageInfo> = Vec::new();
    let mut i: usize = 0;
    while i < n
        invariant
            i <= n <= cs@.len(),
            out@.len() == i,
            forall|k: int| 0 <= k < i ==> is_info(#[trigger] out@[k], cs@[k]),
        decreases n - i,
    {
        out.push(
            MessageInfo {
                id: cs[i].id,
                role: cs[i].role.clone(),
                content: cs[i].content.clone(),
                timestamp: cs[i].timestamp.clone(),
                sender: String::new(),
                recipient: String::new(),
            },
        );
        i = i + 1;
    }
    out
}

/// A limit as a number of messages; without end where it is negative.
pub open spec fn limited(ms: Seq<Message>, limit: i64) -> Seq<Message> {
    if 0 <= limit < ms.len() {
        ms.take(limit as int)
    } else {
        ms
    }
}

/// A page of the messages of an instance: those after one, from the oldest on, or
/// the last ones, before one or not.
pub fn get_messages(
    chat: &ChatHistory,
    before_id: Option<i64>,
    after_id: Option<i64>,
    limit: i64,
    min_page_size: i64,
    max_page_size: i64,
) -> (r: MessagesResult)
    requires
        chat.wf(),
        chat.messages@.len() <= i64::MAX,
    ensures
        ({
            let n = clamped(limit, min_page_size, max_page_size);
            match after_id {
                Some(after) => {
                    &&& are_shown(
                        r.messages@,
                        limited(chat::all_picked(chat.messages@, |m: Message| m.id > after), n),
                    )
                    &&& r.has_more == (0 <= n <= r.messages@.len())
                },
                None => {
                    let before = match before_id {
                        Some(b) => b,
                        None => 0,
                    };
                    &&& are_shown(
                        r.messages@,
                        chat::last_of(
                            if before <= 0 {
                                chat.messages@
                            } else {
                                chat::all_picked(chat.messages@, |m: Message| m.id < before)
                            },
                            n as int,
                        ),
                    )
                    &&& r.has_more == (r.messages@.len() > 0 && r.messages@[0].id > 1)
                },
            }
        }),
{
    let n: i64 = page_limit(limit, min_page_size, max_page_size);
    match after_id {
        Some(after) => {
            let rows = chat.get_messages_after(after);
            let ghost ms = chat::all_picked(chat.messages@, |m: Message| m.id > after);
            let count: usize = if n < 0 || n as u64 >= rows.len() as u64 {
                rows.len()
            } else {
                n as usize
            };
            let messages = infos_of(&rows, count);
            assert(messages@.len() == count);
            assert forall|k: int| 0 <= k < messages@.len() implies ({
                let x = #[trigger] messages@[k];
                let m = limited(ms, n)[k];
                x.id == m.id && x.role@ == m.role@ && x.content@ == m.content@ && x.timestamp@
                    == m.timestamp@ && x.sender@.len() == 0 && x.recipient@.len() == 0
            }) by {
                assert(is_info(messages@[k], rows@[k]));
                assert(chat::shows(rows@[k], ms[k]));
            }
            let has_more = n >= 0 && messages.len() as u64 >= n as u64;
            MessagesResult { messages, has_more }
        },
        None => {
            let before: i64 = match before_id {
                Some(b) => b,
                None => 0,
            };
            let page = chat.query(n, before);
            let all: usize = page.messages.len();
            let messages = infos_of(&page.messages, all);
            proof {
                let ms = chat::last_of(
                    if before <= 0 {
                        chat.messages@
                    } else {
                        chat::all_picked(chat.messages@, |m: Message| m.id < before)
                    },
                    n as int,
                );
                assert forall|k: int| 0 <= k < messages@.len() implies ({
                    let x = #[trigger] messages@[k];
                    x.id == ms[k].id && x.role@ == ms[k].role@ && x.content@ == ms[k].content@
                        && x.timestamp@ == ms[k].timestamp@ && x.sender@.len() == 0
                        && x.recipient@.len() == 0
                }) by {
                    assert(is_info(messages@[k], page.messages@[k]));
                    assert(chat::shows(page.messages@[k], ms[k]));
                }
                if messages@.len() > 0 {
                    assert(is_info(messages@[0], page.messages@[0]));
                }
            }
            MessagesResult { messages, has_more: page.has_more }
        },
    }
}

/// The answers of the agent after a message, from the oldest on, at most a hundred
/// of them.
pub fn get_replies_after(chat: &ChatHistory, after_id: i64) -> (r: Vec<MessageInfo>)
    ensures
        are_shown(
            r@,
            limited(
                chat::all_picked(
                    chat.messages@,
                    |m: Message| m.role@ == "agent"@ && m.id > after_id,
                ),
                100,
            ),
        ),
{
    let rows = chat.get_agent_replies_after(after_id);
    let ghost f = |m: Message| m.role@ == "agent"@ && m.id > after_id;
    let ghost ms = chat::all_picked(chat.messages@, f);
    let n: usize = if rows.len() < 100 {
        rows.len()
    } else {
        100
    };
    let mut out: Vec<MessageInfo> = Vec::new();
    let mut i: usize = 0;
    while i < n
        invariant
            i <= n <= rows@.len(),
            f == (|m: Message| m.role@ == "agent"@ && m.id > after_id),
            ms == chat::all_picked(chat.messages@, f),
            chat::are_replies(rows@, ms),
            are_shown(out@, ms.take(i as int)),
        decreases n - i,
    {
        proof {
            chat::lemma_picked_holds(chat.messages@, chat.messages@.len() as int, f, i as int);
            assert(chat::is_reply(rows@[i as int], ms[i as int]));
        }
        out.push(
            MessageInfo {
                id: rows[i].0,
                role: ROLE_AGENT.to_string(),
                content: rows[i].1.clone(),
                timestamp: rows[i].2.clone(),
                sender: String::new(),
                recipient: String::new(),
            },
        );
        i = i + 1;
    }
    assert(ms.take(n as int) =~= limited(ms, 100));
    out
}

/// A message of a user, or why there is none.
pub fn send_message(chat: &mut ChatHistory, user_id: &str, content: &str, timestamp: &str) -> (r: ActionResult)
    requires
        old(chat).wf(),
        old(chat).next_id < i64::MAX,
    ensures
        if space::trimmed(content@).len() == 0 {
            &&& !r.success
            &&& r.message is Some
            &&& r.message->0@ == empty_message_text()
            &&& *final(chat) == *old(chat)
        } else {
            &&& r.success
            &&& r.message is Some
            &&& r.message->0@ == number::dec_int(old(chat).next_id as int)
            &&& final(chat).added(
                *old(chat),
                user_id@,
                "user"@,
                space::trimmed(content@),
                timestamp@,
                "unread"@,
                "chat"@,
            )
        },
{
    let text = trim(content);
    if text.as_str().is_empty() {
        return ActionResult::err(empty_message());
    }
    let id: i64 = chat.write_user_message(user_id, text.as_str(), timestamp, "chat");
    let mut s = String::new();
    push_dec_int(&mut s, id);
    assert(s@ =~= number::dec_int(id as int));
    ActionResult::ok(s)
}

/// What is said of an empty message.
pub open spec fn empty_message_text() -> Seq<char> {
    "Empty message"@
}

/// The name that a new instance is given; none where it is blank.
pub fn display_name(name: &str) -> (r: Option<String>)
    ensures
        match r {
            Some(s) => s@ == space::trimmed(name@) && s@.len() > 0,
            None => space::is_blank(name@),
        },
{
    let t = trim(name);
    if t.as_str().is_empty() {
        None
    } else {
        Some(t)
    }
}

/// The answer to a request to remove an instance.
pub fn delete_instance(instance_id: &str, outcome: Result<(), String>) -> (r: ActionResult)
    ensures
        match outcome {
            Ok(_) => r.success && r.message is Some && r.message->0@
                == i18n::instance_deleted_text(instance_id@),
            Err(e) => r == (ActionResult { success: false, message: Some(e) }),
        },
{
    match outcome {
        Ok(_) => ActionResult::ok(instance_deleted(instance_id)),
        Err(e) => ActionResult::err(e),
    }
}

/// The answer to a change of settings: what was changed, or that nothing was.
pub fn settings_answer(description: Option<String>) -> (r: ActionResult)
    ensures
        match description {
            Some(d) => r == (ActionResult { success: true, message: Some(d) }),
            None => !r.success && r.message is Some && r.message->0@ == "No valid fields to update"@,
        },
{
    match description {
        Some(d) => ActionResult::ok(d),
        None => ActionResult::err(no_valid_fields()),
    }
}

/// What an update of settings changes, by their names; nothing where it sets none.
pub fn settings_change(update: &Settings) -> (r: Option<String>)
    ensures
        match r {
            Some(d) => settings::set_names(*update).len() > 0 && d@ == search::join_text(
                settings::set_names(*update),
                ", "@,
            ),
            None => settings::set_names(*update).len() == 0,
        },
{
    let fields = update.set_fields();
    assert(search::views(fields@).len() == fields@.len());
    if fields.len() == 0 {
        None
    } else {
        Some(join(&fields, ", "))
    }
}

/// Settings after an update: what it leaves open stays as it was.
pub fn updated_settings(current: &Settings, update: Settings) -> (r: Settings)
    ensures
        settings::is_merged(r, update, *current),
{
    let mut next = update;
    next.merge_fallback(current);
    next
}

/// The answer to a request to create an instance: its identifier, or why there is
/// none.
pub fn created_answer(outcome: Result<String, String>) -> (r: ActionResult)
    ensures
        match outcome {
            Ok(id) => r == (ActionResult { success: true, message: Some(id) }),
            Err(e) => r == (ActionResult { success: false, message: Some(e) }),
        },
{
    match outcome {
        Ok(id) => ActionResult::ok(id),
        Err(e) => ActionResult::err(e),
    }
}

pub open spec fn secs_as_i64(s: Option<u64>) -> Option<i64> {
    match s {
        Some(n) => Some(n as i64),
        None => None,
    }
}

fn to_i64(s: Option<u64>) -> (r: Option<i64>)
    ensures
        r == secs_as_i64(s),
{
    match s {
        Some(n) => Some(
            #[verifier::truncate]
            (n as i64),
        ),
        None => None,
    }
}

/// What is seen of an instance, given whether it has beaten recently and what it
/// has thought so far.
pub fn observe(status: Option<EngineStatus>, beat_recently: bool, infer_output: Option<String>) -> (r: ObserveResult)
    ensures
        match status {
            Some(s) => {
                &&& r.engine_online == (if s.inferring {
                    EngineOnlineStatus::Inferring
                } else if beat_recently {
                    EngineOnlineStatus::Online
                } else {
                    EngineOnlineStatus::Offline
                })
                &&& r.inferring == s.inferring
                &&& r.idle == !s.inferring
                &&& r.born == s.born
                &&& r.infer_output == (if s.inferring {
                    infer_output
                } else {
                    None
                })
                &&& r.idle_timeout_secs == secs_as_i64(s.idle_timeout_secs)
                &&& r.idle_since == secs_as_i64(s.idle_since)
            },
            None => {
                &&& r.engine_online == EngineOnlineStatus::Offline
                &&& !r.inferring
                &&& !r.idle
                &&& !r.born
                &&& r.infer_output is None
                &&& r.idle_timeout_secs is None
                &&& r.idle_since is None
            },
        },
        r.current_action is None,
        r.executing_script is None,
        r.recent_actions@.len() == 0,
        r.user_id@.len() == 0,
{
    match status {
        Some(s) => ObserveResult {
            engine_online: if s.inferring {
                EngineOnlineStatus::Inferring
            } else if beat_recently {
                EngineOnlineStatus::Online
            } else {
                EngineOnlineStatus::Offline
            },
            inferring: s.inferring,
            idle: !s.inferring,
            born: s.born,
            current_action: None,
            executing_script: None,
            infer_output: if s.inferring {
                infer_output
            } else {
                None
            },
            recent_actions: Vec::new(),
            idle_timeout_secs: to_i64(s.idle_timeout_secs),
            idle_since: to_i64(s.idle_since),
            user_id: String::new(),
        },
        None => ObserveResult::default(),
    }
}

/// A path that is a directory or lies below it; both without links and steps up.
pub open spec fn lies_in(target: Seq<char>, dir: Seq<char>) -> bool {
    target == dir || search::has_prefix(target, path::joined_path(dir, Seq::empty()))
}

/// Whether a path is a directory or lies below it.
pub fn is_within(target: &str, dir: &str) -> (r: bool)
    ensures
        r == lies_in(target@, dir@),
{
    let prefix = join_path(dir, "");
    proof {
        reveal_strlit("");
        assert(""@ =~= Seq::<char>::empty());
    }
    same_text(target, dir) || starts_with(target, prefix.as_str())
}

/// How files are ordered: directories first, then by name in lower case.
pub open spec fn file_before(a: (bool, Seq<char>), b: (bool, Seq<char>)) -> bool {
    if a.0 != b.0 {
        a.0
    } else {
        order::comes_before(a.1, b.1)
    }
}

/// What a file is ordered by.
pub open spec fn file_key(f: FileInfo) -> (bool, Seq<char>) {
    (f.is_dir, case::lowercase_text(f.name@))
}

/// Where a new file goes among the first `n` of a list: behind all that it does not
/// come before.
pub open spec fn slot(files: Seq<FileInfo>, n: int, f: FileInfo) -> int
    decreases n,
{
    if n <= 0 || n > files.len() {
        0
    } else if file_before(file_key(f), file_key(files[n - 1])) {
        slot(files, n - 1, f)
    } else {
        n
    }
}

/// Files in order, those with the same place in the order as they came.
pub open spec fn sorted_files(files: Seq<FileInfo>) -> Seq<FileInfo>
    decreases files.len(),
{
    if files.len() == 0 {
        Seq::empty()
    } else {
        let rest = sorted_files(files.drop_last());
        rest.insert(slot(rest, rest.len() as int, files.last()), files.last())
    }
}

proof fn lemma_slot_bounds(files: Seq<FileInfo>, n: int, f: FileInfo)
    requires
        0 <= n <= files.len(),
    ensures
        0 <= slot(files, n, f) <= n,
    decreases n,
{
    if n > 0 {
        lemma_slot_bounds(files, n - 1, f);
    }
}

/// No file stands behind one that comes after it.
pub open spec fn files_in_order(files: Seq<FileInfo>) -> bool {
    forall|i: int, j: int|
        0 <= i < j < files.len() ==> !file_before(
            file_key(#[trigger] files[j]),
            file_key(#[trigger] files[i]),
        )
}

proof fn lemma_slot(files: Seq<FileInfo>, n: int, f: FileInfo)
    requires
        0 <= n <= files.len(),
        files_in_order(files),
    ensures
        forall|i: int|
            0 <= i < slot(files, n, f) ==> !file_before(file_key(f), file_key(#[trigger] files[i])),
        forall|i: int|
            slot(files, n, f) <= i < n ==> file_before(file_key(f), file_key(#[trigger] files[i])),
    decreases n,
{
    if n > 0 {
        let (k, last) = (file_key(f), file_key(files[n - 1]));
        if file_before(k, last) {
            lemma_slot(files, n - 1, f);
        } else {
            assert forall|i: int| 0 <= i < n implies !file_before(k, file_key(#[trigger] files[i])) by {
                let b = file_key(files[i]);
                if i < n - 1 {
                    assert(!file_before(last, b));
                    if b.0 == last.0 && last.0 == k.0 {
                        order::lemma_before_trans(b.1, last.1, k.1, 0);
                    }
                }
            }
        }
    }
}

/// A list of files is in order, and lists the same files.
pub proof fn law_files_are_sorted(files: Seq<FileInfo>)
    ensures
        files_in_order(sorted_files(files)),
        sorted_files(files).to_multiset() == files.to_multiset(),
    decreases files.len(),
{
    broadcast use vstd::seq_lib::group_to_multiset_ensures;

    if files.len() > 0 {
        let f = files.last();
        let rest = sorted_files(files.drop_last());
        law_files_are_sorted(files.drop_last());
        lemma_slot_bounds(rest, rest.len() as int, f);
        lemma_slot(rest, rest.len() as int, f);
        let p = slot(rest, rest.len() as int, f);
        let all = rest.insert(p, f);
        assert forall|i: int, j: int| 0 <= i < j < all.len() implies !file_before(
            file_key(#[trigger] all[j]),
            file_key(#[trigger] all[i]),
        ) by {
            let a = if i < p {
                i
            } else {
                i - 1
            };
            let b = if j < p {
                j
            } else {
                j - 1
            };
            if j == p {
                assert(all[i] == rest[a]);
            } else if i == p {
                assert(all[j] == rest[b]);
                let (x, y) = (file_key(f), file_key(rest[b]));
                if x.0 == y.0 {
                    order::lemma_before_asym(x.1, y.1, 0);
                }
            } else {
                assert(all[i] == rest[a] && all[j] == rest[b]);
            }
        }
        assert(files =~= files.drop_last().push(f));
        assert(all.to_multiset() =~= rest.to_multiset().insert(f));
        assert(files.to_multiset() =~= files.drop_last().to_multiset().insert(f));
    }
}

/// Puts files in order: directories first, then by name in lower case.
pub fn sort_files(files: Vec<FileInfo>) -> (r: Vec<FileInfo>)
    ensures
        r@ == sorted_files(files@),
{
    let mut out: Vec<FileInfo> = Vec::new();
    let mut keys: Vec<String> = Vec::new();
    let mut i: usize = 0;
    assert(files@.take(0) =~= Seq::<FileInfo>::empty());
    while i < files.len()
        invariant
            i <= files@.len(),
            out@ == sorted_files(files@.take(i as int)),
            keys@.len() == out@.len(),
            out@.len() == i,
            forall|k: int|
                0 <= k < out@.len() ==> (#[trigger] keys@[k])@ == case::lowercase_text(
                    out@[k].name@,
                ),
        decreases files@.len() - i,
    {
        let f = files[i].clone();
        let key = to_lower(f.name.as_str());
        let ghost rest = out@;
        let mut n: usize = out.len();
        while n > 0
            invariant
                n <= out@.len(),
                out@ == rest,
                keys@.len() == out@.len(),
                forall|k: int|
                    0 <= k < out@.len() ==> (#[trigger] keys@[k])@ == case::lowercase_text(
                        out@[k].name@,
                    ),
                key@ == case::lowercase_text(f.name@),
                slot(rest, rest.len() as int, f) == slot(rest, n as int, f),
            ensures
                n <= out@.len(),
                slot(rest, rest.len() as int, f) == n,
            decreases n,
        {
            assert(keys@[n - 1]@ == case::lowercase_text(out@[n - 1].name@));
            let before = if f.is_dir != out[n - 1].is_dir {
                f.is_dir
            } else {
                is_before(key.as_str(), keys[n - 1].as_str())
            };
            if !before {
                break;
            }
            n = n - 1;
        }
        proof {
            assert(files@.take(i + 1).drop_last() =~= files@.take(i as int));
            assert(files@.take(i + 1).last() == f);
        }
        let ghost had_keys = keys@;
        out.insert(n, f);
        keys.insert(n, key);
        i = i + 1;
        assert forall|k: int| 0 <= k < out@.len() implies (#[trigger] keys@[k])@
            == case::lowercase_text(out@[k].name@) by {
            if k < n {
                assert(keys@[k] == had_keys[k]);
                assert(out@[k] == rest[k]);
            } else if k > n {
                assert(keys@[k] == had_keys[k - 1]);
                assert(out@[k] == rest[k - 1]);
            }
        }
    }
    assert(files@.take(i as int) =~= files@);
    out
}

/// What is found in a directory.
#[derive(Debug)]
pub struct DirEntry {
    pub name: String,
    pub is_dir: bool,
    pub is_file: bool,
    pub len: u64,
    /// It is not to be shown.
    pub hidden: bool,
}

/// An entry as it is listed: with a size only where it is a file.
pub open spec fn is_listed_as(f: FileInfo, e: DirEntry) -> bool {
    &&& f.name@ == e.name@
    &&& f.is_dir == e.is_dir
    &&& f.size == (if e.is_file {
        Some(e.len)
    } else {
        None
    })
}

/// The entries among the first `n` that are not hidden.
pub open spec fn visible(es: Seq<DirEntry>, n: int) -> Seq<DirEntry>
    decreases n,
{
    if n <= 0 || n > es.len() {
        Seq::empty()
    } else if es[n - 1].hidden {
        visible(es, n - 1)
    } else {
        visible(es, n - 1).push(es[n - 1])
    }
}

/// The files that stand for the visible ones among some entries, in that order.
pub open spec fn are_listed(fs: Seq<FileInfo>, es: Seq<DirEntry>) -> bool {
    let seen = visible(es, es.len() as int);
    fs.len() == seen.len() && forall|i: int|
        0 <= i < fs.len() ==> is_listed_as(#[trigger] fs[i], seen[i])
}

/// Lists a directory, given where it really lies: what is visible of it, directories
/// first, then by name in lower case. Nothing is listed of what is no directory or
/// lies outside of the workspace.
pub fn list_files(target: &str, workspace: &str, is_dir: bool, entries: &Vec<DirEntry>) -> (r: Vec<
    FileInfo,
>)
    ensures
        if !lies_in(target@, workspace@) || !is_dir {
            r@.len() == 0
        } else {
            exists|fs: Seq<FileInfo>| #[trigger] are_listed(fs, entries@) && r@ == sorted_files(fs)
        },
{
    let mut out: Vec<FileInfo> = Vec::new();
    if !is_within(target, workspace) || !is_dir {
        return out;
    }
    let mut i: usize = 0;
    while i < entries.len()
        invariant
            i <= entries@.len(),
            out@.len() == visible(entries@, i as int).len(),
            forall|k: int|
                0 <= k < out@.len() ==> is_listed_as(
                    #[trigger] out@[k],
                    visible(entries@, i as int)[k],
                ),
        decreases entries@.len() - i,
    {
        if !entries[i].hidden {
            let size = if entries[i].is_file {
                Some(entries[i].len)
            } else {
                None
            };
            out.push(FileInfo { name: entries[i].name.clone(), is_dir: entries[i].is_dir, size });
        }
        i = i + 1;
    }
    assert(are_listed(out@, entries@));
    sort_files(out)
}

/// What becomes of a request to read a file.
#[derive(Debug)]
pub enum ReadDecision {
    /// It is read and shown.
    Text,
    /// This is shown in its place.
    Answer(FileReadResult),
}

/// Decides what becomes of a request to read a file.
pub fn decide_read(
    within_workspace: bool,
    is_file: bool,
    size: u64,
    max_file_size: u64,
    file_name: &str,
    is_binary: bool,
) -> (r: ReadDecision)
    ensures
        if !within_workspace || !is_file {
            r matches ReadDecision::Answer(a) && a.content@ == "File not found or access denied"@
                && a.size == 0 && !a.is_binary
        } else if size > max_file_size {
            r matches ReadDecision::Answer(a) && a.content@ == "File too large (>1MB)"@ && a.size
                == 0 && !a.is_binary
        } else if is_binary {
            r matches ReadDecision::Answer(a) && a.content@ == i18n::binary_file_description_text(
                file_name@,
                size as nat,
            ) && a.size == size && a.is_binary
        } else {
            r is Text
        },
{
    if !within_workspace || !is_file {
        ReadDecision::Answer(FileReadResult::error("File not found or access denied".to_string()))
    } else if size > max_file_size {
        ReadDecision::Answer(FileReadResult::error("File too large (>1MB)".to_string()))
    } else if is_binary {
        ReadDecision::Answer(
            FileReadResult::binary(binary_file_description(file_name, size), size),
        )
    } else {
        ReadDecision::Text
    }
}

/// What is removed.
#[derive(Debug, Clone, Copy, PartialEq, Eq, Structural)]
pub enum DeleteDecision {
    Directory,
    File,
}

/// Decides what becomes of a request to remove what a path names, `target` without
/// links and steps up: nothing outside of the workspace is removed, nor the
/// workspace itself.
pub fn decide_delete(path: &str, target: &str, workspace: &str, is_dir: bool) -> (r: Result<
    DeleteDecision,
    String,
>)
    ensures
        match r {
            Ok(d) => path@.len() > 0 && lies_in(target@, workspace@) && target@ != workspace@ && d
                == (if is_dir {
                DeleteDecision::Directory
            } else {
                DeleteDecision::File
            }),
            Err(e) => if path@.len() == 0 {
                e@ == "Cannot delete workspace root"@
            } else if !lies_in(target@, workspace@) {
                e@ == "Access denied"@
            } else {
                target@ == workspace@ && e@ == "Cannot delete workspace root"@
            },
        },
{
    if path.is_empty() {
        return Err("Cannot delete workspace root".to_string());
    }
    if !is_within(target, workspace) {
        return Err("Access denied".to_string());
    }
    if same_text(target, workspace) {
        return Err("Cannot delete workspace root".to_string());
    }
    if is_dir {
        Ok(DeleteDecision::Directory)
    } else {
        Ok(DeleteDecision::File)
    }
}

/// The answer to a request to remove what a path names.
pub fn deleted_answer(path: &str) -> (r: ActionResult)
    ensures
        r.success,
        r.message is Some,
        r.message->0@ == "Deleted: "@ + path@,
{
    let mut s = "Deleted: ".to_string();
    s.push_str(path);
    ActionResult::ok(s)
}

/// An instance as it is shown: under its name, or its identifier where it has none
/// or its settings cannot be read.
pub fn build_instance_info(id: &str, settings: Option<&Settings>, last_active: Option<i64>) -> (r: InstanceInfo)
    ensures
        r.id@ == id@,
        r.name@ == (match settings {
            Some(s) => if s.name is Some && s.name->0@.len() > 0 {
                s.name->0@
            } else {
                id@
            },
            None => id@,
        }),
        r.color@ == (match settings {
            Some(s) => match s.color {
                Some(c) => c@,
                None => Seq::empty(),
            },
            None => Seq::empty(),
        }),
        r.avatar@ == (match settings {
            Some(s) => match s.avatar {
                Some(a) => a@,
                None => Seq::empty(),
            },
            None => Seq::empty(),
        }),
        r.privileged == (settings is Some && settings->0.privileged == Some(true)),
        r.last_active == (match last_active {
            Some(t) => t,
            None => 0,
        }),
{
    let mut name = id.to_string();
    let mut color = String::new();
    let mut avatar = String::new();
    let mut privileged = false;
    if let Some(s) = settings {
        if let Some(n) = &s.name {
            if !n.as_str().is_empty() {
                name = n.clone();
            }
        }
        if let Some(c) = &s.color {
            color = c.clone();
        }
        if let Some(a) = &s.avatar {
            avatar = a.clone();
        }
        privileged = s.privileged_or_default();
    }
    InstanceInfo {
        id: id.to_string(),
        name,
        avatar,
        color,
        privileged,
        last_active: match last_active {
            Some(t) => t,
            None => 0,
        },
    }
}

} // verus!
