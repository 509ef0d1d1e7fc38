//! Rolling the history: the oldest session goes into it.
use vstd::prelude::*;

use crate::bindings::i18n;
use crate::bindings::i18n::{
    capture_failed, capture_result, roll_deleted_empty, roll_deleted_residual, roll_failed,
    roll_llm_empty, roll_requirement, roll_result,
};
use crate::chat;
use crate::chat::ChatHistory;
use crate::inference::beat;
use crate::inference::beat::{SessionBlock, SessionMessage};
use crate::inference::capture::CaptureOutput;
use crate::inference::compress::{CompressOutput, CompressRequest};
use crate::model::Message;
use crate::text::bytes;
use crate::text::bytes::byte_len;
use crate::text::chars::same_text;
use crate::text::search;
use crate::text::search::join;
use crate::text::space;
use crate::text::space::trim;

verus! {

/// What is done about the oldest session.
#[derive(Debug)]
pub enum RollDecision {
    /// Nothing: there are not more sessions than may stay.
    NotNeeded,
    /// It is in the history already, and only left over: it is removed, and so is
    /// the marker.
    DropResidual { block: String },
    /// It is to go into the history; a marker of another session is removed first.
    Roll { block: String, clear_marker: bool },
}

/// There are more sessions than may stay.
pub open spec fn enough_blocks(count: nat, limit: u32) -> bool {
    count > limit
}

/// Decides what is done about the oldest session, by the sessions there are, from
/// the oldest on, and by the one that was marked as rolled last.
pub fn decide_roll(blocks: &Vec<String>, limit: u32, last_rolled: &Option<String>) -> (r: RollDecision)
    ensures
        if !enough_blocks(blocks@.len(), limit) {
            r is NotNeeded
        } else {
            match last_rolled {
                Some(m) => if m@ == blocks@[0]@ {
                    r matches RollDecision::DropResidual { block } && block@ == blocks@[0]@
                } else {
                    r matches RollDecision::Roll { block, clear_marker } && block@ == blocks@[0]@
                        && clear_marker
                },
                None => r matches RollDecision::Roll { block, clear_marker } && block@
                    == blocks@[0]@ && !clear_marker,
            }
        },
{
    let n: usize = blocks.len();
    if n as u64 <= limit as u64 {
        return RollDecision::NotNeeded;
    }
    match last_rolled {
        Some(m) => if same_text(m.as_str(), blocks[0].as_str()) {
            RollDecision::DropResidual { block: blocks[0].clone() }
        } else {
            RollDecision::Roll { block: blocks[0].clone(), clear_marker: true }
        },
        None => RollDecision::Roll { block: blocks[0].clone(), clear_marker: false },
    }
}

/// An entry of a session block.
#[derive(Debug)]
pub struct SessionEntry {
    pub first_msg: String,
    pub last_msg: String,
    pub summary: String,
}

/// A stretch of a session with nothing but its summary.
pub open spec fn is_bare_block(b: SessionBlock, e: SessionEntry) -> bool {
    b.start_time@ == e.first_msg@ && b.end_time@ == e.last_msg@ && b.messages@.len() == 0
        && b.summary@ == e.summary@
}

/// The stretches of a session, each with nothing but its summary.
pub fn bare_blocks(entries: &Vec<SessionEntry>) -> (r: Vec<SessionBlock>)
    ensures
        r@.len() == entries@.len(),
        forall|i: int| 0 <= i < r@.len() ==> is_bare_block(#[trigger] r@[i], entries@[i]),
{
    let mut out: Vec<SessionBlock> = Vec::new();
    let mut i: usize = 0;
    while i < entries.len()
        invariant
            i <= entries@.len(),
            out@.len() == i,
            forall|k: int| 0 <= k < i ==> is_bare_block(#[trigger] out@[k], entries@[k]),
        decreases entries@.len() - i,
    {
        out.push(
            SessionBlock {
                start_time: entries[i].first_msg.clone(),
                end_time: entries[i].last_msg.clone(),
                messages: Vec::new(),
                summary: entries[i].summary.clone(),
            },
        );
        i = i + 1;
    }
    out
}

/// A message of the chat as a session shows it.
pub open spec fn is_session_message(x: SessionMessage, m: Message) -> bool {
    &&& x.sender_role@ == m.role@
    &&& x.sender_id is Some
    &&& x.sender_id->0@ == m.sender@
    &&& x.timestamp@ == m.timestamp@
    &&& x.content@ == m.content@
}

/// A stretch of a session with its summary and the messages of the chat from its
/// first to its last one.
pub open spec fn is_full_block(b: SessionBlock, e: SessionEntry, chat: ChatHistory) -> bool {
    let said = chat::all_picked(chat.messages@, chat::between(e.first_msg@, e.last_msg@));
    &&& b.start_time@ == e.first_msg@
    &&& b.end_time@ == e.last_msg@
    &&& b.summary@ == e.summary@
    &&& b.messages@.len() == said.len()
    &&& forall|i: int|
        0 <= i < said.len() ==> is_session_message(#[trigger] b.messages@[i], said[i])
}

fn session_messages(chat: &ChatHistory, e: &SessionEntry) -> (r: Vec<SessionMessage>)
    ensures
        ({
            let said = chat::all_picked(
                chat.messages@,
                chat::between(e.first_msg@, e.last_msg@),
            );
            &&& r@.len() == said.len()
            &&& forall|i: int|
                0 <= i < said.len() ==> is_session_message(#[trigger] r@[i], said[i])
        }),
{
    let found = chat.read_messages_in_range(e.first_msg.as_str(), e.last_msg.as_str());
    let ghost said = chat::all_picked(
        chat.messages@,
        chat::between(e.first_msg@, e.last_msg@),
    );
    let mut out: Vec<SessionMessage> = Vec::new();
    let mut i: usize = 0;
    while i < found.len()
        invariant
            i <= found@.len(),
            chat::are_range(found@, said),
            out@.len() == i,
            forall|k: int| 0 <= k < i ==> is_session_message(#[trigger] out@[k], said[k]),
        decreases found@.len() - i,
    {
        assert(chat::is_range(found@[i as int], said[i as int]));
        out.push(
            SessionMessage {
                sender_role: found[i].role.clone(),
                sender_id: Some(found[i].sender.clone()),
                timestamp: found[i].timestamp.clone(),
                content: found[i].content.clone(),
            },
        );
        i = i + 1;
    }
    out
}

/// The stretches of a session, each with its summary and its messages.
pub fn full_blocks(entries: &Vec<SessionEntry>, chat: &ChatHistory) -> (r: Vec<SessionBlock>)
    ensures
        r@.len() == entries@.len(),
        forall|i: int| 0 <= i < r@.len() ==> is_full_block(#[trigger] r@[i], entries@[i], *chat),
{
    let mut out: Vec<SessionBlock> = Vec::new();
    let mut i: usize = 0;
    while i < entries.len()
        invariant
            i <= entries@.len(),
            out@.len() == i,
            forall|k: int| 0 <= k < i ==> is_full_block(#[trigger] out@[k], entries@[k], *chat),
        decreases entries@.len() - i,
    {
        let e = &entries[i];
        let messages = session_messages(chat, e);
        out.push(
            SessionBlock {
                start_time: e.first_msg.clone(),
                end_time: e.last_msg.clone(),
                messages,
                summary: e.summary.clone(),
            },
        );
        i = i + 1;
    }
    out
}

/// What is condensed: the history so far, and the session behind it.
pub open spec fn roll_content(history: Seq<char>, session: Seq<char>) -> Seq<char> {
    if history.len() == 0 {
        session
    } else {
        history + "\n\n"@ + session
    }
}

/// How a session is shown to be condensed.
pub open spec fn rendered_blocks(blocks: Seq<SessionBlock>) -> Seq<char> {
    search::join_text(blocks.map_values(|b: SessionBlock| beat::session_block_text(b, "###"@, "####"@)), "\n\n"@)
}

/// Shows a session to be condensed, or to be looked at as what happened lately.
pub fn render_blocks(blocks: &Vec<SessionBlock>) -> (r: String)
    ensures
        r@ == rendered_blocks(blocks@),
{
    let mut parts: Vec<String> = Vec::new();
    let mut i: usize = 0;
    while i < blocks.len()
        invariant
            i <= blocks@.len(),
            parts@.len() == i,
            forall|k: int|
                0 <= k < i ==> (#[trigger] parts@[k])@ == beat::session_block_text(blocks@[k], "###"@, "####"@),
        decreases blocks@.len() - i,
    {
        parts.push(blocks[i].to_markdown());
        i = i + 1;
    }
    assert(search::views(parts@) =~= blocks@.map_values(
        |b: SessionBlock| beat::session_block_text(b, "###"@, "####"@),
    ));
    join(&parts, "\n\n")
}

/// The request to condense the history and a session into a history of at most so
/// many kilobytes.
pub fn compress_request(history: &str, blocks: &Vec<SessionBlock>, history_kb: u32) -> (r: CompressRequest)
    ensures
        r.requirement@ == i18n::roll_requirement_text(history_kb as nat),
        r.content@ == roll_content(history@, rendered_blocks(blocks@)),
{
    let session = render_blocks(blocks);
    let content = if history.is_empty() {
        session
    } else {
        let mut s = history.to_string();
        s.push_str("\n\n");
        s.push_str(session.as_str());
        s
    };
    CompressRequest { requirement: roll_requirement(history_kb), content }
}

/// What the oldest session comes to.
#[derive(Debug)]
pub enum RollTask {
    /// There is nothing in it: it is removed.
    DropEmpty { block: String },
    /// It goes into the history in this way.
    Compress { block: String, request: CompressRequest },
}

/// Prepares to put the oldest session into the history.
pub fn prepare_roll(block: &str, blocks: &Vec<SessionBlock>, history: &str, history_kb: u32) -> (r: RollTask)
    ensures
        if blocks@.len() == 0 {
            r matches RollTask::DropEmpty { block: b } && b@ == block@
        } else {
            r matches RollTask::Compress { block: b, request } && b@ == block@
                && request.requirement@ == i18n::roll_requirement_text(history_kb as nat)
                && request.content@ == roll_content(history@, rendered_blocks(blocks@))
        },
{
    if blocks.len() == 0 {
        RollTask::DropEmpty { block: block.to_string() }
    } else {
        RollTask::Compress {
            block: block.to_string(),
            request: compress_request(history, blocks, history_kb),
        }
    }
}

/// The history that a model condensed, or why there is none.
pub fn condensed_history(outputs: &Vec<CompressOutput>) -> (r: Result<String, String>)
    ensures
        match r {
            Ok(h) => outputs@.len() > 0 && h@ == space::trimmed(outputs@[0].summary@) && h@.len() > 0,
            Err(e) => if outputs@.len() == 0 {
                e@ == "LLM returned no compress output"@
            } else {
                space::trimmed(outputs@[0].summary@).len() == 0 && e@
                    == "LLM returned empty history"@
            },
        },
{
    if outputs.len() == 0 {
        return Err("LLM returned no compress output".to_string());
    }
    let h = trim(outputs[0].summary.as_str());
    if h.as_str().is_empty() {
        return Err("LLM returned empty history".to_string());
    }
    Ok(h)
}

/// The knowledge that a model worked up, or why there is none.
pub fn captured_knowledge(outputs: &Vec<CaptureOutput>) -> (r: Result<String, String>)
    ensures
        match r {
            Ok(k) => outputs@.len() > 0 && k@ == space::trimmed(outputs@[0].knowledge@) && k@.len()
                > 0,
            Err(e) => if outputs@.len() == 0 {
                e@ == "LLM returned no capture output"@
            } else {
                space::trimmed(outputs@[0].knowledge@).len() == 0 && e@
                    == "LLM returned empty knowledge"@
            },
        },
{
    if outputs.len() == 0 {
        return Err("LLM returned no capture output".to_string());
    }
    let k = trim(outputs[0].knowledge.as_str());
    if k.as_str().is_empty() {
        return Err("LLM returned empty knowledge".to_string());
    }
    Ok(k)
}

/// Whole kilobytes of a text.
pub open spec fn kilobytes(s: Seq<char>) -> nat {
    bytes::text_bytes(s) / 1024
}

/// What is said once the history was rolled, or could not be.
pub fn roll_message(old_history: &str, new_history: &Result<String, String>) -> (r: String)
    ensures
        r@ == (match new_history {
            Ok(h) => i18n::roll_result_text(kilobytes(old_history@), kilobytes(h@)),
            Err(e) => i18n::roll_failed_text(e@),
        }),
{
    match new_history {
        Ok(h) => {
            let old_kb: u64 = byte_len(old_history) as u64 / 1024;
            let new_kb: u64 = byte_len(h.as_str()) as u64 / 1024;
            roll_result(old_kb, new_kb)
        },
        Err(e) => roll_failed(e.as_str()),
    }
}

/// What is said once the knowledge was worked up, or could not be.
pub fn capture_message(old_knowledge: &str, new_knowledge: &Result<String, String>) -> (r: String)
    ensures
        r@ == (match new_knowledge {
            Ok(k) => i18n::capture_result_text(kilobytes(old_knowledge@), kilobytes(k@)),
            Err(e) => i18n::capture_failed_text(e@),
        }),
{
    match new_knowledge {
        Ok(k) => {
            let old_kb: u64 = byte_len(old_knowledge) as u64 / 1024;
            let new_kb: u64 = byte_len(k.as_str()) as u64 / 1024;
            capture_result(old_kb, new_kb)
        },
        Err(e) => capture_failed(e.as_str()),
    }
}

/// What rolling the history in the foreground comes to.
#[derive(Debug)]
pub enum RollOutcome {
    /// A left-over session was removed.
    Residual { block: String },
    /// An empty session was removed.
    Empty { block: String },
    /// The model gave nothing.
    Silent,
    /// The history was rolled.
    Rolled { old_history: String, new_history: String },
}

/// What comes of an answer of the model: an error where there is none, nothing where
/// it is blank, and else the history that it condensed.
pub fn roll_outcome(outputs: &Vec<CompressOutput>, old_history: &str) -> (r: Result<
    RollOutcome,
    String,
>)
    ensures
        if outputs@.len() == 0 {
            r matches Err(e) && e@ == "LLM returned no compress output"@
        } else if space::is_blank(outputs@[0].summary@) {
            r matches Ok(o) && o is Silent
        } else {
            r matches Ok(RollOutcome::Rolled { old_history: old, new_history }) && old@
                == old_history@ && new_history@ == space::trimmed(outputs@[0].summary@)
        },
{
    if outputs.len() == 0 {
        return Err("LLM returned no compress output".to_string());
    }
    let new_history = trim(outputs[0].summary.as_str());
    if new_history.as_str().is_empty() {
        return Ok(RollOutcome::Silent);
    }
    Ok(RollOutcome::Rolled { old_history: old_history.to_string(), new_history })
}

pub open spec fn outcome_text(o: RollOutcome) -> Seq<char> {
    match o {
        RollOutcome::Residual { block } => i18n::roll_deleted_residual_text(block@),
        RollOutcome::Empty { block } => i18n::roll_deleted_empty_text(block@),
        RollOutcome::Silent => "记忆整理中断：压缩结果为空，已跳过本次整理"@,
        RollOutcome::Rolled { old_history, new_history } => i18n::roll_result_text(
            kilobytes(old_history@),
            kilobytes(new_history@),
        ),
    }
}

/// What is said of rolling the history in the foreground.
pub fn outcome_message(o: &RollOutcome) -> (r: String)
    ensures
        r@ == outcome_text(*o),
{
    match o {
        RollOutcome::Residual { block } => roll_deleted_residual(block.as_str()),
        RollOutcome::Empty { block } => roll_deleted_empty(block.as_str()),
        RollOutcome::Silent => roll_llm_empty(),
        RollOutcome::Rolled { old_history, new_history } => {
            let old_kb: u64 = byte_len(old_history.as_str()) as u64 / 1024;
            let new_kb: u64 = byte_len(new_history.as_str()) as u64 / 1024;
            roll_result(old_kb, new_kb)
        },
    }
}

} // verus!
