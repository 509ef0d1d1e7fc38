//! What the agent's workings keep, stated on texts and requests themselves.
use vstd::prelude::*;

use crate::action::action_output;
use crate::agent::alice;
use crate::agent::record;
use crate::agent::record::distill_record;
use crate::agent::roll;
use crate::agent::roll::{
    bare_blocks, captured_knowledge, compress_request, condensed_history, decide_roll, full_blocks,
    prepare_roll, roll_message, roll_outcome, RollDecision, RollOutcome, RollTask, SessionEntry,
};
use crate::bindings::telling;
use crate::chat;
use crate::chat::ChatHistory;
use crate::inference::beat;
use crate::inference::beat::SessionBlock;
use crate::inference::capture::CaptureOutput;
use crate::inference::compress::{CompressOutput, CompressRequest};
use crate::inference::output::ActionOutput;
use crate::inference::showing;
use crate::inference::showing::stands_under;
use crate::text::bytes;
use crate::text::number;
use crate::text::order;
use crate::text::parts;
use crate::text::search;
use crate::text::space;

verus! {

/// A text that holds one text in front and another at its end, with a blank line and
/// nothing else between them.
pub open spec fn joined_by_blank_line(text: Seq<char>, a: Seq<char>, b: Seq<char>) -> bool {
    &&& text.len() == a.len() + 2 + b.len()
    &&& forall|i: int| 0 <= i < a.len() ==> #[trigger] text[i] == a[i]
    &&& text[a.len() as int] == '\n'
    &&& text[(a.len() + 1) as int] == '\n'
    &&& forall|i: int| 0 <= i < b.len() ==> #[trigger] text[a.len() + 2 + i] == b[i]
}

/// What is condensed starts with the whole history so far and ends with the whole
/// session, with exactly a blank line between them; where there is no history yet it
/// is the session alone.
pub proof fn law_rolling_keeps_the_history(history: Seq<char>, session: Seq<char>)
    ensures
        history.len() == 0 ==> roll::roll_content(history, session) == session,
        history.len() > 0 ==> joined_by_blank_line(
            roll::roll_content(history, session),
            history,
            session,
        ),
        search::has_prefix(roll::roll_content(history, session), history),
        search::has_suffix(roll::roll_content(history, session), session),
{
    reveal_strlit("\n\n");
    let text = roll::roll_content(history, session);
    assert(text.subrange(0, history.len() as int) =~= history);
    assert(text.subrange(text.len() - session.len(), text.len() as int) =~= session);
}

/// A request to condense holds the history so far in front and the rendered session
/// at its end, and asks for the size that was given.
pub proof fn law_requests_hold_history_and_session(
    history: &str,
    blocks: Vec<SessionBlock>,
    history_kb: u32,
    r: CompressRequest,
)
    requires
        call_ensures(compress_request, (history, &blocks, history_kb), r),
    ensures
        search::has_prefix(r.content@, history@),
        search::has_suffix(r.content@, roll::rendered_blocks(blocks@)),
        history@.len() > 0 ==> joined_by_blank_line(
            r.content@,
            history@,
            roll::rendered_blocks(blocks@),
        ),
        history@.len() == 0 ==> r.content@ == roll::rendered_blocks(blocks@),
{
    law_rolling_keeps_the_history(history@, roll::rendered_blocks(blocks@));
}

/// What is prepared for a session with something in it is the same request: nothing of
/// the history or of the session is left out.
pub proof fn law_prepared_requests_hold_history_and_session(
    block: &str,
    blocks: Vec<SessionBlock>,
    history: &str,
    history_kb: u32,
    r: RollTask,
)
    requires
        call_ensures(prepare_roll, (block, &blocks, history, history_kb), r),
        blocks@.len() > 0,
    ensures
        match r {
            RollTask::Compress { block: b, request } => {
                &&& b@ == block@
                &&& search::has_prefix(request.content@, history@)
                &&& search::has_suffix(request.content@, roll::rendered_blocks(blocks@))
                &&& history@.len() > 0 ==> joined_by_blank_line(
                    request.content@,
                    history@,
                    roll::rendered_blocks(blocks@),
                )
            },
            RollTask::DropEmpty { .. } => false,
        },
{
    law_rolling_keeps_the_history(history@, roll::rendered_blocks(blocks@));
}

/// Every stretch of a session is shown in what is condensed: when it was, what was
/// said in it and what it comes to.
pub proof fn law_rolled_sessions_are_shown(
    history: Seq<char>,
    blocks: Seq<SessionBlock>,
    i: int,
    k: int,
)
    requires
        0 <= i < blocks.len(),
    ensures
        ({
            let text = roll::roll_content(history, roll::rendered_blocks(blocks));
            let b = blocks[i];
            &&& b.start_time@.len() > 0 ==> stands_under(text, "###"@, "start_time"@, b.start_time@)
            &&& b.end_time@.len() > 0 ==> stands_under(text, "###"@, "end_time"@, b.end_time@)
            &&& b.summary@.len() > 0 ==> stands_under(text, "###"@, "summary"@, b.summary@)
            &&& 0 <= k < b.messages@.len() && b.messages@[k].content@.len() > 0 ==> stands_under(
                text,
                "####"@,
                "content"@,
                b.messages@[k].content@,
            )
        }),
{
    let b = blocks[i];
    let shown = blocks.map_values(|x: SessionBlock| beat::session_block_text(x, "###"@, "####"@));
    let text = roll::roll_content(history, roll::rendered_blocks(blocks));
    assert(shown[i] == beat::session_block_text(b, "###"@, "####"@));
    parts::lemma_part_of_join(shown, "\n\n"@, i);
    parts::lemma_part_of_sum(history + "\n\n"@, roll::rendered_blocks(blocks), shown[i]);
    showing::law_sessions_show_what_happened(b, "###"@, "####"@, k);
    if b.start_time@.len() > 0 {
        showing::lemma_under(text, shown[i], "###"@, "start_time"@, b.start_time@);
    }
    if b.end_time@.len() > 0 {
        showing::lemma_under(text, shown[i], "###"@, "end_time"@, b.end_time@);
    }
    if b.summary@.len() > 0 {
        showing::lemma_under(text, shown[i], "###"@, "summary"@, b.summary@);
    }
    if 0 <= k < b.messages@.len() && b.messages@[k].content@.len() > 0 {
        showing::lemma_under(text, shown[i], "####"@, "content"@, b.messages@[k].content@);
    }
}

/// The oldest session is looked at only where there are more sessions than may stay; one
/// that is in the history already is only removed, and any other goes into the history.
pub proof fn law_only_the_oldest_is_rolled(
    blocks: Vec<String>,
    limit: u32,
    last_rolled: Option<String>,
    r: RollDecision,
)
    requires
        call_ensures(decide_roll, (&blocks, limit, &last_rolled), r),
    ensures
        r is NotNeeded <==> blocks@.len() <= limit,
        match r {
            RollDecision::NotNeeded => true,
            RollDecision::DropResidual { block } => block@ == blocks@[0]@ && last_rolled is Some
                && last_rolled->0@ == block@,
            RollDecision::Roll { block, clear_marker } => {
                &&& block@ == blocks@[0]@
                &&& clear_marker <==> last_rolled is Some
                &&& last_rolled is Some ==> last_rolled->0@ != block@
            },
        },
{
}

/// The stretches of a session keep their times and their summaries, one for one.
pub proof fn law_stretches_keep_their_summaries(
    entries: Vec<SessionEntry>,
    r: Vec<SessionBlock>,
    i: int,
)
    requires
        call_ensures(bare_blocks, (&entries,), r),
        0 <= i < entries@.len(),
    ensures
        r@.len() == entries@.len(),
        r@[i].summary@ == entries@[i].summary@,
        r@[i].start_time@ == entries@[i].first_msg@,
        r@[i].end_time@ == entries@[i].last_msg@,
        r@[i].messages@.len() == 0,
{
    assert(roll::is_bare_block(r@[i], entries@[i]));
}

/// What was said in a stretch of a session is shown with it: every message of the chat
/// from its first to its last moment, with who said it, when and what.
pub proof fn law_stretches_hold_what_was_said(
    entries: Vec<SessionEntry>,
    history: ChatHistory,
    r: Vec<SessionBlock>,
    i: int,
    k: int,
)
    requires
        call_ensures(full_blocks, (&entries, &history), r),
        0 <= i < entries@.len(),
        0 <= k < history.messages@.len(),
        !order::comes_before(history.messages@[k].timestamp@, entries@[i].first_msg@),
        !order::comes_before(entries@[i].last_msg@, history.messages@[k].timestamp@),
    ensures
        r@[i].summary@ == entries@[i].summary@,
        exists|j: int|
            0 <= j < r@[i].messages@.len() && {
                let m = #[trigger] r@[i].messages@[j];
                &&& m.content@ == history.messages@[k].content@
                &&& m.timestamp@ == history.messages@[k].timestamp@
                &&& m.sender_role@ == history.messages@[k].role@
                &&& m.sender_id is Some
                &&& m.sender_id->0@ == history.messages@[k].sender@
            },
{
    let f = chat::between(entries@[i].first_msg@, entries@[i].last_msg@);
    let all = history.messages@;
    let said = chat::all_picked(all, f);
    assert(roll::is_full_block(r@[i], entries@[i], history));
    assert(f(all[k]));
    crate::laws::lemma_picked_has(all, all.len() as int, f, k);
    let j = choose|j: int| 0 <= j < said.len() && said[j] == all[k];
    assert(roll::is_session_message(r@[i].messages@[j], said[j]));
}

/// What a model condensed becomes the history, without the space around it; where it gave
/// nothing there is no new history.
pub proof fn law_condensed_histories_are_kept(
    outputs: Vec<CompressOutput>,
    old: &str,
    r: Result<String, String>,
    o: Result<RollOutcome, String>,
)
    requires
        call_ensures(condensed_history, (&outputs,), r),
        call_ensures(roll_outcome, (&outputs, old), o),
    ensures
        r is Ok <==> outputs@.len() > 0 && space::trimmed(outputs@[0].summary@).len() > 0,
        r is Ok ==> r->Ok_0@ == space::trimmed(outputs@[0].summary@),
        o is Err <==> outputs@.len() == 0,
        match o {
            Ok(RollOutcome::Rolled { old_history, new_history }) => r is Ok && old_history@ == old@
                && new_history@ == r->Ok_0@,
            Ok(_) => r is Err,
            Err(_) => r is Err,
        },
{
}

/// What a model worked up becomes the knowledge, without the space around it.
pub proof fn law_captured_knowledge_is_kept(
    outputs: Vec<CaptureOutput>,
    r: Result<String, String>,
)
    requires
        call_ensures(captured_knowledge, (&outputs,), r),
    ensures
        r is Ok <==> outputs@.len() > 0 && space::trimmed(outputs@[0].knowledge@).len() > 0,
        r is Ok ==> r->Ok_0@ == space::trimmed(outputs@[0].knowledge@),
{
}

/// What is said once the history was rolled holds both sizes in whole kilobytes, and why
/// it could not be.
pub proof fn law_rolling_is_told(old: &str, new: Result<String, String>, r: String)
    requires
        call_ensures(roll_message, (old, &new), r),
    ensures
        match new {
            Ok(h) => search::has_text(
                r@,
                number::dec(bytes::text_bytes(old@) / 1024),
            ) && search::has_text(r@, number::dec(bytes::text_bytes(h@) / 1024)),
            Err(e) => search::has_text(r@, e@),
        },
{
    match new {
        Ok(h) => {
            let (a, b) = (bytes::text_bytes(old@) / 1024, bytes::text_bytes(h@) / 1024);
            telling::law_roll_result_tells(a, b);
            lemma_behind(r@, "记忆整理完成：旧记录已压缩归档（"@, number::dec(a));
            lemma_behind(r@, " KB → "@, number::dec(b));
        },
        Err(e) => {
            telling::law_roll_failed_tells(e@);
            lemma_behind(r@, "记忆整理失败："@, e@);
        },
    }
}

proof fn lemma_behind(text: Seq<char>, lead: Seq<char>, x: Seq<char>)
    requires
        search::has_text(text, lead + x),
    ensures
        search::has_text(text, x),
{
    parts::lemma_whole(x);
    parts::lemma_part_of_sum(lead, x, x);
    parts::lemma_part_of_part(text, lead + x, x);
}

/// What went wrong is told, and from which model to which the turn passes.
pub proof fn law_inference_errors_are_told(
    error: Seq<char>,
    secs: u64,
    from: Seq<char>,
    to: Seq<char>,
)
    ensures
        search::has_text(alice::inference_error_text(error, secs, None), error),
        search::has_text(alice::inference_error_text(error, secs, None), number::dec(secs as nat)),
        search::has_text(alice::inference_error_text(error, secs, Some((from, to))), error),
        search::has_text(alice::inference_error_text(error, secs, Some((from, to))), from),
        search::has_text(alice::inference_error_text(error, secs, Some((from, to))), to),
        search::has_text(
            alice::inference_error_text(error, secs, Some((from, to))),
            number::dec(secs as nat),
        ),
{
    let plain = alice::inference_error_text(error, secs, None);
    let turned = alice::inference_error_text(error, secs, Some((from, to)));
    telling::law_inference_error_no_rotation_tells(error, secs as nat);
    telling::law_inference_error_with_rotation_tells(error, from, to, secs as nat);
    lemma_behind(plain, "⚡ "@, error);
    lemma_behind(plain, "，"@, number::dec(secs as nat));
    lemma_behind(turned, "⚡ "@, error);
    lemma_behind(turned, "（"@, from);
    lemma_behind(turned, "），已轮换到 "@, to);
    lemma_behind(turned, "，"@, number::dec(secs as nat));
}

/// The record of an action holds its text between the two marks of the action.
pub proof fn law_blocks_hold_their_text(id: Seq<char>, text: Seq<char>)
    ensures
        search::has_prefix(
            record::block_text(id, text),
            action_output::action_block_start_text(id) + "\n"@ + text + "\n"@,
        ),
        search::has_suffix(
            record::block_text(id, text),
            text + "\n"@ + action_output::action_block_end_text(id) + "\n"@,
        ),
{
    let start = action_output::action_block_start_text(id);
    let end = action_output::action_block_end_text(id);
    let b = record::block_text(id, text);
    let front = start + "\n"@ + text + "\n"@;
    let back = text + "\n"@ + end + "\n"@;
    assert(b.subrange(0, front.len() as int) =~= front);
    parts::lemma_assoc(start + "\n"@, text, "\n"@);
    parts::lemma_assoc(start + "\n"@, text + "\n"@, end);
    parts::lemma_assoc(start + "\n"@, text + "\n"@ + end, "\n"@);
    assert(b == start + "\n"@ + back);
    assert(b.subrange(b.len() - back.len(), b.len() as int) =~= back);
}

/// Distilling puts the summary in the place of the action's record, under the same name;
/// all that stands before and behind it stays.
pub proof fn law_distilling_keeps_the_rest(
    before: Seq<char>,
    text: Seq<char>,
    behind: Seq<char>,
    current: &str,
    id: &str,
    summary: &str,
    r: Result<(String, ActionOutput), String>,
)
    requires
        call_ensures(distill_record, (current, id, summary), r),
        current@ == before + record::block_text(id@, text) + behind,
        forall|i: int|
            0 <= i < before.len() ==> !search::occurs_at(
                before + record::block_text(id@, text) + behind,
                action_output::action_block_start_text(id@),
                i,
            ),
        forall|i: int|
            0 <= i <= text.len() + 1 ==> !search::occurs_at(
                "\n"@ + text + "\n"@ + action_output::action_block_end_text(id@),
                action_output::action_block_end_text(id@),
                i,
            ),
    ensures
        r is Ok,
        search::has_prefix((r->Ok_0).0@, before),
        search::has_suffix((r->Ok_0).0@, behind),
        search::has_text((r->Ok_0).0@, "[已提炼] "@ + space::trimmed(summary@)),
        search::has_text((r->Ok_0).0@, action_output::action_block_start_text(id@)),
{
    record::law_distilling_touches_one_block(before, id@, text, behind);
    let block = record::block_text(id@, text);
    let new = action_output::forgotten_block_text(id@, summary@);
    let t = (r->Ok_0).0@;
    assert(current@.take(before.len() as int) =~= before);
    assert(current@.skip((before.len() + block.len()) as int) =~= behind);
    assert(t == before + new + behind);
    assert(t.subrange(0, before.len() as int) =~= before);
    assert(t.subrange(t.len() - behind.len(), t.len() as int) =~= behind);
    let start = action_output::action_block_start_text(id@);
    let end = action_output::action_block_end_text(id@);
    let said = space::trimmed(summary@);
    let lead = start + "\n[已提炼] "@;
    parts::lemma_whole(start);
    parts::lemma_part_of_sum(start, "\n[已提炼] "@, start);
    parts::lemma_part_of_sum(lead, said, start);
    parts::lemma_part_of_sum(lead + said, "\n"@, start);
    parts::lemma_part_of_sum(lead + said + "\n"@, end, start);
    parts::lemma_part_of_sum(lead + said + "\n"@ + end, "\n"@, start);
    let told = "[已提炼] "@ + said;
    reveal_strlit("\n[已提炼] ");
    reveal_strlit("[已提炼] ");
    assert("\n[已提炼] "@ =~= seq!['\n'] + "[已提炼] "@);
    parts::lemma_assoc(start, seq!['\n'], "[已提炼] "@);
    let front = start + seq!['\n'];
    parts::lemma_assoc(front, "[已提炼] "@, said);
    parts::lemma_whole(told);
    parts::lemma_part_of_sum(front, told, told);
    assert(lead + said == front + told);
    parts::lemma_part_of_sum(lead + said, "\n"@, told);
    parts::lemma_part_of_sum(lead + said + "\n"@, end, told);
    parts::lemma_part_of_sum(lead + said + "\n"@ + end, "\n"@, told);
    parts::lemma_part_of_sum(before, new, told);
    parts::lemma_part_of_sum(before + new, behind, told);
    parts::lemma_part_of_sum(before, new, start);
    parts::lemma_part_of_sum(before + new, behind, start);
}

} // verus!
