//! How the results of actions are written into an agent's memory.
//!
//! Some of these formats are read back: the message markers of sent and read
//! messages are what `inference::beat::extract_msg_ids` recognises.
use vstd::prelude::*;

use crate::text::number;
use crate::text::number::{decimal, push_dec, push_dec_int, push_flush_right};
use crate::text::search;
use crate::text::search::join;
use crate::text::space;
use crate::text::space::trim;

verus! {

/// What stands before the marker of a sent message.
pub const MSG_SEND_CONTEXT: &'static str = "send success ";

/// What stands behind the marker of a read message.
pub const MSG_READ_CONTEXT: &'static str = "发来一条消息：";

/// What stands for the lines that a preview leaves out.
pub const PREVIEW_ELLIPSIS: &'static str = "     ...";

/// The text of [`truncated_output`].
pub open spec fn truncated_output_text(truncated: Seq<char>, total_bytes: nat) -> Seq<char> {
    truncated + "...\n[truncated, total "@ + number::dec(total_bytes) + " bytes]"@
}

/// Marks an output that was cut.
pub fn truncated_output(truncated: &str, total_bytes: usize) -> (r: String)
    ensures
        r@ == truncated_output_text(truncated@, total_bytes as nat),
{
    let mut s = truncated.to_string();
    s.push_str("...\n[truncated, total ");
    push_dec(&mut s, total_bytes as u64);
    s.push_str(" bytes]");
    s
}

/// The text of [`write_success_full`].
pub open spec fn write_success_full_text(path: Seq<char>, bytes: nat, lines: nat, content: Seq<char>) -> Seq<char> {
    "write success ["@ + path + "] ("@ + number::dec(bytes) + " bytes, "@ + number::dec(lines) + " lines)\n\n---file content---\n"@ + content + "\n"@
}

/// A written file, shown in full.
pub fn write_success_full(path: &str, bytes: usize, lines: usize, content: &str) -> (r: String)
    ensures
        r@ == write_success_full_text(path@, bytes as nat, lines as nat, content@),
{
    let mut s = "write success [".to_string();
    s.push_str(path);
    s.push_str("] (");
    push_dec(&mut s, bytes as u64);
    s.push_str(" bytes, ");
    push_dec(&mut s, lines as u64);
    s.push_str(" lines)\n\n---file content---\n");
    s.push_str(content);
    s.push_str("\n");
    s
}

/// The text of [`write_success_skeleton`].
pub open spec fn write_success_skeleton_text(path: Seq<char>, bytes: nat, lines: nat, skeleton: Seq<char>) -> Seq<char> {
    "write success ["@ + path + "] ("@ + number::dec(bytes) + " bytes, "@ + number::dec(lines) + " lines)\n\n--- skeleton (auto-extracted, showing interface & comments only, not full content) ---\n"@ + skeleton + "\n"@
}

/// A written file, shown by its skeleton.
pub fn write_success_skeleton(path: &str, bytes: usize, lines: usize, skeleton: &str) -> (r: String)
    ensures
        r@ == write_success_skeleton_text(path@, bytes as nat, lines as nat, skeleton@),
{
    let mut s = "write success [".to_string();
    s.push_str(path);
    s.push_str("] (");
    push_dec(&mut s, bytes as u64);
    s.push_str(" bytes, ");
    push_dec(&mut s, lines as u64);
    s.push_str(" lines)\n\n--- skeleton (auto-extracted, showing interface & comments only, not full content) ---\n");
    s.push_str(skeleton);
    s.push_str("\n");
    s
}

/// The text of [`write_success_preview`].
pub open spec fn write_success_preview_text(path: Seq<char>, bytes: nat, lines: nat, preview: Seq<char>) -> Seq<char> {
    "write success ["@ + path + "] ("@ + number::dec(bytes) + " bytes, "@ + number::dec(lines) + " lines)\n\n--- preview (first 10 + last 5 lines, not full content) ---\n"@ + preview + "\n"@
}

/// A written file, shown by its head and tail.
pub fn write_success_preview(path: &str, bytes: usize, lines: usize, preview: &str) -> (r: String)
    ensures
        r@ == write_success_preview_text(path@, bytes as nat, lines as nat, preview@),
{
    let mut s = "write success [".to_string();
    s.push_str(path);
    s.push_str("] (");
    push_dec(&mut s, bytes as u64);
    s.push_str(" bytes, ");
    push_dec(&mut s, lines as u64);
    s.push_str(" lines)\n\n--- preview (first 10 + last 5 lines, not full content) ---\n");
    s.push_str(preview);
    s.push_str("\n");
    s
}

/// The text of [`replace_match_error`].
pub open spec fn replace_match_error_text(search_preview: Seq<char>, count: nat) -> Seq<char> {
    "  ERROR: '"@ + search_preview + "...' matched "@ + number::dec(count) + " times (expected 1)"@
}

/// A search text that did not match exactly once.
pub fn replace_match_error(search_preview: &str, count: usize) -> (r: String)
    ensures
        r@ == replace_match_error_text(search_preview@, count as nat),
{
    let mut s = "  ERROR: '".to_string();
    s.push_str(search_preview);
    s.push_str("...' matched ");
    push_dec(&mut s, count as u64);
    s.push_str(" times (expected 1)");
    s
}

/// The text of [`replace_block_success`].
pub open spec fn replace_block_success_text(search_preview: Seq<char>) -> Seq<char> {
    "  replaced '"@ + search_preview + "...'"@
}

/// A replaced block.
pub fn replace_block_success(search_preview: &str) -> (r: String)
    ensures
        r@ == replace_block_success_text(search_preview@),
{
    let mut s = "  replaced '".to_string();
    s.push_str(search_preview);
    s.push_str("...'");
    s
}

/// What reading an empty inbox gives.
pub fn inbox_empty() -> (r: String)
    ensures
        r@ == "(收件箱为空)\n"@,
{
    "(收件箱为空)\n".to_string()
}

/// The text of [`send_failed_unknown_recipient`].
pub open spec fn send_failed_unknown_recipient_text(recipient: Seq<char>) -> Seq<char> {
    "send failed: unknown recipient '"@ + recipient + "'. You can only send messages to your user.\n"@
}

/// A message to somebody unknown.
pub fn send_failed_unknown_recipient(recipient: &str) -> (r: String)
    ensures
        r@ == send_failed_unknown_recipient_text(recipient@),
{
    let mut s = "send failed: unknown recipient '".to_string();
    s.push_str(recipient);
    s.push_str("'. You can only send messages to your user.\n");
    s
}

/// A summary of nothing.
pub fn summary_empty() -> (r: String)
    ensures
        r@ == "current is empty, nothing to summarize\n"@,
{
    "current is empty, nothing to summarize\n".to_string()
}

/// The text of [`knowledge_rewritten`].
pub open spec fn knowledge_rewritten_text(chars: nat) -> Seq<char> {
    "\nknowledge: rewritten "@ + number::dec(chars) + " chars"@
}

/// The knowledge was rewritten.
pub fn knowledge_rewritten(chars: usize) -> (r: String)
    ensures
        r@ == knowledge_rewritten_text(chars as nat),
{
    let mut s = "\nknowledge: rewritten ".to_string();
    push_dec(&mut s, chars as u64);
    s.push_str(" chars");
    s
}

/// The knowledge was left alone.
pub fn knowledge_skipped() -> (r: String)
    ensures
        r@ == "\nknowledge: no knowledge marker found, skipped"@,
{
    "\nknowledge: no knowledge marker found, skipped".to_string()
}

/// The text of [`summary_complete`].
pub open spec fn summary_complete_text(msg_count: nat, first_msg: Seq<char>, last_msg: Seq<char>, block_name: Seq<char>, knowledge_info: Seq<char>) -> Seq<char> {
    "小结完成: "@ + number::dec(msg_count) + "个消息ID("@ + first_msg + "~"@ + last_msg + ") → sessions/"@ + block_name + ".jsonl, current已清空"@ + knowledge_info + "\n"@
}

/// The statistics of a finished summary.
pub fn summary_complete(msg_count: usize, first_msg: &str, last_msg: &str, block_name: &str, knowledge_info: &str) -> (r: String)
    ensures
        r@ == summary_complete_text(msg_count as nat, first_msg@, last_msg@, block_name@, knowledge_info@),
{
    let mut s = "小结完成: ".to_string();
    push_dec(&mut s, msg_count as u64);
    s.push_str("个消息ID(");
    s.push_str(first_msg);
    s.push_str("~");
    s.push_str(last_msg);
    s.push_str(") → sessions/");
    s.push_str(block_name);
    s.push_str(".jsonl, current已清空");
    s.push_str(knowledge_info);
    s.push_str("\n");
    s
}

/// The text of [`action_block_start`].
pub open spec fn action_block_start_text(action_id: Seq<char>) -> Seq<char> {
    "---------行为编号["@ + action_id + "]开始---------"@
}

/// Opens the block of an action.
pub fn action_block_start(action_id: &str) -> (r: String)
    ensures
        r@ == action_block_start_text(action_id@),
{
    let mut s = "---------行为编号[".to_string();
    s.push_str(action_id);
    s.push_str("]开始---------");
    s
}

/// The text of [`action_block_end`].
pub open spec fn action_block_end_text(action_id: Seq<char>) -> Seq<char> {
    "---------行为编号["@ + action_id + "]结束---------"@
}

/// Closes the block of an action.
pub fn action_block_end(action_id: &str) -> (r: String)
    ensures
        r@ == action_block_end_text(action_id@),
{
    let mut s = "---------行为编号[".to_string();
    s.push_str(action_id);
    s.push_str("]结束---------");
    s
}

/// The text of [`profile_unknown_key`].
pub open spec fn profile_unknown_key_text(key: Seq<char>) -> Seq<char> {
    "set_profile failed: unknown key '"@ + key + "'\n"@
}

/// A profile key that does not exist.
pub fn profile_unknown_key(key: &str) -> (r: String)
    ensures
        r@ == profile_unknown_key_text(key@),
{
    let mut s = "set_profile failed: unknown key '".to_string();
    s.push_str(key);
    s.push_str("'\n");
    s
}

/// The text of [`profile_updated`].
pub open spec fn profile_updated_text(detail: Seq<char>) -> Seq<char> {
    "profile updated: "@ + detail + "\n"@
}

/// An updated profile.
pub fn profile_updated(detail: &str) -> (r: String)
    ensures
        r@ == profile_updated_text(detail@),
{
    let mut s = "profile updated: ".to_string();
    s.push_str(detail);
    s.push_str("\n");
    s
}

/// The text of [`instance_created`].
pub open spec fn instance_created_text(id: Seq<char>, name: Seq<char>, knowledge_bytes: nat) -> Seq<char> {
    "instance created: "@ + id + " (name: "@ + name + "), knowledge: "@ + number::dec(knowledge_bytes) + " bytes written\nEngine hot-scan will start it automatically.\n"@
}

/// A created instance.
pub fn instance_created(id: &str, name: &str, knowledge_bytes: usize) -> (r: String)
    ensures
        r@ == instance_created_text(id@, name@, knowledge_bytes as nat),
{
    let mut s = "instance created: ".to_string();
    s.push_str(id);
    s.push_str(" (name: ");
    s.push_str(name);
    s.push_str("), knowledge: ");
    push_dec(&mut s, knowledge_bytes as u64);
    s.push_str(" bytes written\nEngine hot-scan will start it automatically.\n");
    s
}

/// What is said of an exit code: nothing of success.
pub open spec fn exit_info_text(exit_code: Option<i32>) -> Seq<char> {
    match exit_code {
        Some(code) => if code == 0 {
            Seq::empty()
        } else {
            "\n[exit code: "@ + number::dec_int(code as int) + "]"@
        },
        None => "\n[exit code: unknown]"@,
    }
}

/// The text of [`script_result`].
pub open spec fn script_result_text(
    duration: Seq<char>,
    output: Seq<char>,
    exit_code: Option<i32>,
) -> Seq<char> {
    "---exec result ("@ + duration + ")---\n"@ + output + exit_info_text(exit_code) + "\n"@
}

/// The result of a script; `duration` is the elapsed time as it is shown.
pub fn script_result(duration: &str, output: &str, exit_code: Option<i32>) -> (r: String)
    ensures
        r@ == script_result_text(duration@, output@, exit_code),
{
    let mut s = "---exec result (".to_string();
    s.push_str(duration);
    s.push_str(")---\n");
    s.push_str(output);
    match exit_code {
        Some(code) => {
            if code != 0 {
                let mut info = "\n[exit code: ".to_string();
                push_dec_int(&mut info, code as i64);
                info.push_str("]");
                s.push_str(info.as_str());
            } else {
                assert(s@ + Seq::<char>::empty() =~= s@);
            }
        },
        None => {
            s.push_str("\n[exit code: unknown]");
        },
    }
    s.push_str("\n");
    s
}

/// The text of [`preview_line`].
pub open spec fn preview_line_text(line_number: nat, content: Seq<char>) -> Seq<char> {
    number::flush_right(number::dec(line_number), 4) + ": "@ + content
}

/// A line of a preview behind its number.
pub fn preview_line(line_number: usize, content: &str) -> (r: String)
    ensures
        r@ == preview_line_text(line_number as nat, content@),
{
    let mut s = String::new();
    let n = decimal(line_number as u64);
    push_flush_right(&mut s, n.as_str(), 4);
    assert(s@ =~= number::flush_right(number::dec(line_number as nat), 4));
    s.push_str(": ");
    s.push_str(content);
    s
}

/// The text of [`replace_result`].
pub open spec fn replace_result_text(total_replaced: nat, details: Seq<Seq<char>>) -> Seq<char> {
    "replaced "@ + number::dec(total_replaced) + " block(s) successfully"@ + "\n"@
        + search::join_text(details, "\n"@) + "\n"@
}

/// What a replacement did, with a line for each block.
pub fn replace_result(total_replaced: usize, detail_lines: &Vec<String>) -> (r: String)
    ensures
        r@ == replace_result_text(total_replaced as nat, search::views(detail_lines@)),
{
    let mut s = "replaced ".to_string();
    push_dec(&mut s, total_replaced as u64);
    s.push_str(" block(s) successfully");
    s.push_str("\n");
    let detail = join(detail_lines, "\n");
    s.push_str(detail.as_str());
    s.push_str("\n");
    s
}

/// The text of [`read_msg_entry`].
pub open spec fn read_msg_entry_text(
    sender: Seq<char>,
    timestamp: Seq<char>,
    content: Seq<char>,
) -> Seq<char> {
    sender + " [MSG:"@ + timestamp + "]"@ + MSG_READ_CONTEXT@ + "\n\n"@ + content + "\n"@
}

/// A message that was read.
pub fn read_msg_entry(sender: &str, timestamp: &str, content: &str) -> (r: String)
    ensures
        r@ == read_msg_entry_text(sender@, timestamp@, content@),
{
    let mut s = sender.to_string();
    s.push_str(" [MSG:");
    s.push_str(timestamp);
    s.push_str("]");
    s.push_str(MSG_READ_CONTEXT);
    s.push_str("\n\n");
    s.push_str(content);
    s.push_str("\n");
    s
}

/// The text of [`send_success`].
pub open spec fn send_success_text(timestamp: Seq<char>) -> Seq<char> {
    MSG_SEND_CONTEXT@ + "[MSG:"@ + timestamp + "]\n"@
}

/// A message that was sent.
pub fn send_success(timestamp: &str) -> (r: String)
    ensures
        r@ == send_success_text(timestamp@),
{
    let mut s = MSG_SEND_CONTEXT.to_string();
    s.push_str("[MSG:");
    s.push_str(timestamp);
    s.push_str("]\n");
    s
}

/// The text of [`forgotten_block`].
pub open spec fn forgotten_block_text(action_id: Seq<char>, summary: Seq<char>) -> Seq<char> {
    action_block_start_text(action_id) + "\n[已提炼] "@ + space::trimmed(summary) + "\n"@
        + action_block_end_text(action_id) + "\n"@
}

/// What takes the place of a distilled action's block.
pub fn forgotten_block(action_id: &str, summary: &str) -> (r: String)
    ensures
        r@ == forgotten_block_text(action_id@, summary@),
{
    let mut s = action_block_start(action_id);
    s.push_str("\n[已提炼] ");
    let kept = trim(summary);
    s.push_str(kept.as_str());
    s.push_str("\n");
    let end = action_block_end(action_id);
    s.push_str(end.as_str());
    s.push_str("\n");
    s
}

/// The output of an action that failed.
pub open spec fn action_error_text(error: Seq<char>) -> Seq<char> {
    "Action error: "@ + error
}

/// The output of an action that failed.
pub fn action_error(error: &str) -> (r: String)
    ensures
        r@ == action_error_text(error@),
{
    let mut s = "Action error: ".to_string();
    s.push_str(error);
    s
}

/// What goes on record where an inference was interrupted.
pub open spec fn inference_interrupted_text() -> Seq<char> {
    "Inference interrupted by user"@
}

/// What goes on record where an inference was interrupted.
pub fn inference_interrupted() -> (r: String)
    ensures
        r@ == inference_interrupted_text(),
{
    "Inference interrupted by user".to_string()
}

/// What goes on record where the guard broke off an inference.
pub open spec fn hallucination_defense_interrupted_text(reason: Seq<char>) -> Seq<char> {
    "Hallucination defense: inference interrupted. "@ + reason
}

/// What goes on record where the guard broke off an inference.
pub fn hallucination_defense_interrupted(reason: &str) -> (r: String)
    ensures
        r@ == hallucination_defense_interrupted_text(reason@),
{
    let mut s = "Hallucination defense: inference interrupted. ".to_string();
    s.push_str(reason);
    s
}

} // verus!
