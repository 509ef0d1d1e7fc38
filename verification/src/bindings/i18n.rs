//! The message catalog: every text that a user or an agent gets to read.
use vstd::prelude::*;

use crate::text::number;
use crate::text::number::{decimal, push_dec};

verus! {

// === RPC/API ===

pub fn empty_message() -> (r: String)
    ensures
        r@ == "Empty message"@,
{
    "Empty message".to_string()
}

/// The text of [`instance_deleted`].
pub open spec fn instance_deleted_text(id: Seq<char>) -> Seq<char> {
    "Deleted: "@ + id
}

pub fn instance_deleted(id: &str) -> (r: String)
    ensures
        r@ == instance_deleted_text(id@),
{
    let mut s = "Deleted: ".to_string();
    s.push_str(id);
    s
}

pub fn no_valid_fields() -> (r: String)
    ensures
        r@ == "No valid fields to update"@,
{
    "No valid fields to update".to_string()
}

pub fn global_settings_updated() -> (r: String)
    ensures
        r@ == "Global settings updated"@,
{
    "Global settings updated".to_string()
}

// === Engine Safety ===

/// The text of [`safety_valve_triggered`].
pub open spec fn safety_valve_triggered_text(consecutive: nat, cooldown: nat) -> Seq<char> {
    "连续工作保护已启动：已连续推理"@ + number::dec(consecutive) + "次，暂停"@ + number::dec(cooldown) + "秒让系统休息一下。这是正常的保护机制，不是故障。稍等片刻即可自动恢复。如需调整触发阈值，可在 Settings 中修改 safety_max_consecutive_beats。"@
}

pub fn safety_valve_triggered(consecutive: u32, cooldown: u64) -> (r: String)
    ensures
        r@ == safety_valve_triggered_text(consecutive as nat, cooldown as nat),
{
    let mut s = "连续工作保护已启动：已连续推理".to_string();
    push_dec(&mut s, consecutive as u64);
    s.push_str("次，暂停");
    push_dec(&mut s, cooldown);
    s.push_str("秒让系统休息一下。这是正常的保护机制，不是故障。稍等片刻即可自动恢复。如需调整触发阈值，可在 Settings 中修改 safety_max_consecutive_beats。");
    s
}

/// The text of [`beat_limit_reached`].
pub open spec fn beat_limit_reached_text(current: nat, max: nat) -> Seq<char> {
    "推理次数已达上限（"@ + number::dec(current) + "/"@ + number::dec(max) + "），实例已停止推理。"@
}

pub fn beat_limit_reached(current: u32, max: u32) -> (r: String)
    ensures
        r@ == beat_limit_reached_text(current as nat, max as nat),
{
    let mut s = "推理次数已达上限（".to_string();
    push_dec(&mut s, current as u64);
    s.push_str("/");
    push_dec(&mut s, max as u64);
    s.push_str("），实例已停止推理。");
    s
}

/// The text of [`disk_space_low`].
pub open spec fn disk_space_low_text(avail_mb: nat) -> Seq<char> {
    "磁盘空间不足：仅剩 "@ + number::dec(avail_mb) + "MB 可用。请清理磁盘空间，否则可能导致数据损坏。"@
}

pub fn disk_space_low(avail_mb: u64) -> (r: String)
    ensures
        r@ == disk_space_low_text(avail_mb as nat),
{
    let mut s = "磁盘空间不足：仅剩 ".to_string();
    push_dec(&mut s, avail_mb);
    s.push_str("MB 可用。请清理磁盘空间，否则可能导致数据损坏。");
    s
}

// === Knowledge ===

/// The text of [`knowledge_capacity_ok`].
pub open spec fn knowledge_capacity_ok_text(size: nat) -> Seq<char> {
    "知识: "@ + number::dec(size) + "/51200字符 🟢"@
}

pub fn knowledge_capacity_ok(size: usize) -> (r: String)
    ensures
        r@ == knowledge_capacity_ok_text(size as nat),
{
    let mut s = "知识: ".to_string();
    push_dec(&mut s, size as u64);
    s.push_str("/51200字符 🟢");
    s
}

/// The text of [`knowledge_capacity_warning`].
pub open spec fn knowledge_capacity_warning_text(size: nat) -> Seq<char> {
    "知识: "@ + number::dec(size) + "/51200字符 ⚠️ 知识接近上限，summary时请精简"@
}

pub fn knowledge_capacity_warning(size: usize) -> (r: String)
    ensures
        r@ == knowledge_capacity_warning_text(size as nat),
{
    let mut s = "知识: ".to_string();
    push_dec(&mut s, size as u64);
    s.push_str("/51200字符 ⚠️ 知识接近上限，summary时请精简");
    s
}

/// The text of [`knowledge_capacity_critical`].
pub open spec fn knowledge_capacity_critical_text(size: nat) -> Seq<char> {
    "知识: "@ + number::dec(size) + "/51200字符 🔴 知识超出推荐容量，建议与用户商量裂变"@
}

pub fn knowledge_capacity_critical(size: usize) -> (r: String)
    ensures
        r@ == knowledge_capacity_critical_text(size as nat),
{
    let mut s = "知识: ".to_string();
    push_dec(&mut s, size as u64);
    s.push_str("/51200字符 🔴 知识超出推荐容量，建议与用户商量裂变");
    s
}

pub fn knowledge_section(content: &str) -> (r: String)
    ensures
        r@ == content@ + "\n"@,
{
    let mut s = content.to_string();
    s.push_str("\n");
    s
}

// === Memory/Prompt ===

/// The text of [`session_summary`].
pub open spec fn session_summary_text(summary: Seq<char>) -> Seq<char> {
    "[总结] "@ + summary
}

pub fn session_summary(summary: &str) -> (r: String)
    ensures
        r@ == session_summary_text(summary@),
{
    let mut s = "[总结] ".to_string();
    s.push_str(summary);
    s
}

/// The text of [`memory_over_limit`].
pub open spec fn memory_over_limit_text(kb: nat) -> Seq<char> {
    "\n⚠️ prompt总量已达"@ + number::dec(kb) + "KB（上限200K）！建议执行 summary 整理记忆。"@
}

pub fn memory_over_limit(kb: usize) -> (r: String)
    ensures
        r@ == memory_over_limit_text(kb as nat),
{
    let mut s = "\n⚠️ prompt总量已达".to_string();
    push_dec(&mut s, kb as u64);
    s.push_str("KB（上限200K）！建议执行 summary 整理记忆。");
    s
}

pub fn empty_placeholder() -> (r: String)
    ensures
        r@ == "(空)"@,
{
    "(空)".to_string()
}

/// The text of [`truncated_content`].
pub open spec fn truncated_content_text(content: Seq<char>) -> Seq<char> {
    content + "...(略)"@
}

pub fn truncated_content(content: &str) -> (r: String)
    ensures
        r@ == truncated_content_text(content@),
{
    let mut s = content.to_string();
    s.push_str("...(略)");
    s
}

/// The text of [`host_info`].
pub open spec fn host_info_text(host: Seq<char>) -> Seq<char> {
    "公网地址："@ + host
}

pub fn host_info(host: &str) -> (r: String)
    ensures
        r@ == host_info_text(host@),
{
    let mut s = "公网地址：".to_string();
    s.push_str(host);
    s
}

/// The text of [`roll_requirement`].
pub open spec fn roll_requirement_text(kb: nat) -> Seq<char> {
    "不超过"@ + number::dec(kb) + "KB"@
}

pub fn roll_requirement(kb: u32) -> (r: String)
    ensures
        r@ == roll_requirement_text(kb as nat),
{
    let mut s = "不超过".to_string();
    push_dec(&mut s, kb as u64);
    s.push_str("KB");
    s
}

// === Roll/Capture ===

/// The text of [`roll_result`].
pub open spec fn roll_result_text(old_kb: nat, new_kb: nat) -> Seq<char> {
    "记忆整理完成：旧记录已压缩归档（"@ + number::dec(old_kb) + " KB → "@ + number::dec(new_kb) + " KB）"@
}

pub fn roll_result(old_kb: u64, new_kb: u64) -> (r: String)
    ensures
        r@ == roll_result_text(old_kb as nat, new_kb as nat),
{
    let mut s = "记忆整理完成：旧记录已压缩归档（".to_string();
    push_dec(&mut s, old_kb);
    s.push_str(" KB → ");
    push_dec(&mut s, new_kb);
    s.push_str(" KB）");
    s
}

/// The text of [`roll_deleted_residual`].
pub open spec fn roll_deleted_residual_text(block: Seq<char>) -> Seq<char> {
    "记忆整理：发现已压缩的残留记录，已清理（"@ + block + "）"@
}

pub fn roll_deleted_residual(block: &str) -> (r: String)
    ensures
        r@ == roll_deleted_residual_text(block@),
{
    let mut s = "记忆整理：发现已压缩的残留记录，已清理（".to_string();
    s.push_str(block);
    s.push_str("）");
    s
}

/// The text of [`roll_deleted_empty`].
pub open spec fn roll_deleted_empty_text(block: Seq<char>) -> Seq<char> {
    "记忆整理：发现空记录，已清理（"@ + block + "）"@
}

pub fn roll_deleted_empty(block: &str) -> (r: String)
    ensures
        r@ == roll_deleted_empty_text(block@),
{
    let mut s = "记忆整理：发现空记录，已清理（".to_string();
    s.push_str(block);
    s.push_str("）");
    s
}

pub fn roll_llm_empty() -> (r: String)
    ensures
        r@ == "记忆整理中断：压缩结果为空，已跳过本次整理"@,
{
    "记忆整理中断：压缩结果为空，已跳过本次整理".to_string()
}

/// The text of [`roll_failed`].
pub open spec fn roll_failed_text(error: Seq<char>) -> Seq<char> {
    "记忆整理失败："@ + error
}

pub fn roll_failed(error: &str) -> (r: String)
    ensures
        r@ == roll_failed_text(error@),
{
    let mut s = "记忆整理失败：".to_string();
    s.push_str(error);
    s
}

/// The text of [`capture_result`].
pub open spec fn capture_result_text(old_kb: nat, new_kb: nat) -> Seq<char> {
    "知识更新完成（"@ + number::dec(old_kb) + " KB → "@ + number::dec(new_kb) + " KB）"@
}

pub fn capture_result(old_kb: u64, new_kb: u64) -> (r: String)
    ensures
        r@ == capture_result_text(old_kb as nat, new_kb as nat),
{
    let mut s = "知识更新完成（".to_string();
    push_dec(&mut s, old_kb);
    s.push_str(" KB → ");
    push_dec(&mut s, new_kb);
    s.push_str(" KB）");
    s
}

/// The text of [`capture_failed`].
pub open spec fn capture_failed_text(error: Seq<char>) -> Seq<char> {
    "知识更新失败："@ + error
}

pub fn capture_failed(error: &str) -> (r: String)
    ensures
        r@ == capture_failed_text(error@),
{
    let mut s = "知识更新失败：".to_string();
    s.push_str(error);
    s
}

// === Sequence Defense ===

/// The text of [`sequence_reject_after_blocking`].
pub open spec fn sequence_reject_after_blocking_text(instance_id: Seq<char>, action: Seq<char>) -> Seq<char> {
    "[SEQUENCE-"@ + instance_id + "] Non-blocking action '"@ + action + "' after blocking action — aborting inference"@
}

pub fn sequence_reject_after_blocking(instance_id: &str, action: &str) -> (r: String)
    ensures
        r@ == sequence_reject_after_blocking_text(instance_id@, action@),
{
    let mut s = "[SEQUENCE-".to_string();
    s.push_str(instance_id);
    s.push_str("] Non-blocking action '");
    s.push_str(action);
    s.push_str("' after blocking action — aborting inference");
    s
}

/// The text of [`sequence_reject_after_idle`].
pub open spec fn sequence_reject_after_idle_text(instance_id: Seq<char>, action: Seq<char>) -> Seq<char> {
    "[SEQUENCE-"@ + instance_id + "] Action '"@ + action + "' after idle — zero tolerance, aborting inference"@
}

pub fn sequence_reject_after_idle(instance_id: &str, action: &str) -> (r: String)
    ensures
        r@ == sequence_reject_after_idle_text(instance_id@, action@),
{
    let mut s = "[SEQUENCE-".to_string();
    s.push_str(instance_id);
    s.push_str("] Action '");
    s.push_str(action);
    s.push_str("' after idle — zero tolerance, aborting inference");
    s
}

// === Action Execution ===

/// The text of [`send_failed_no_extension`].
pub open spec fn send_failed_no_extension_text(recipient: Seq<char>) -> Seq<char> {
    "发送失败：通讯服务不可用，无法联系 \""@ + recipient + "\""@
}

pub fn send_failed_no_extension(recipient: &str) -> (r: String)
    ensures
        r@ == send_failed_no_extension_text(recipient@),
{
    let mut s = "发送失败：通讯服务不可用，无法联系 \"".to_string();
    s.push_str(recipient);
    s.push_str("\"");
    s
}

/// The text of [`send_failed_not_in_contacts`].
pub open spec fn send_failed_not_in_contacts_text(recipient: Seq<char>, contacts: Seq<char>) -> Seq<char> {
    "发送失败：收件人 \""@ + recipient + "\" 不在联系人列表中。可用联系人："@ + contacts
}

pub fn send_failed_not_in_contacts(recipient: &str, contacts: &str) -> (r: String)
    ensures
        r@ == send_failed_not_in_contacts_text(recipient@, contacts@),
{
    let mut s = "发送失败：收件人 \"".to_string();
    s.push_str(recipient);
    s.push_str("\" 不在联系人列表中。可用联系人：");
    s.push_str(contacts);
    s
}

/// The text of [`send_failed_rejected`].
pub open spec fn send_failed_rejected_text(recipient: Seq<char>) -> Seq<char> {
    "发送失败：消息转发到 \""@ + recipient + "\" 时被拒绝"@
}

pub fn send_failed_rejected(recipient: &str) -> (r: String)
    ensures
        r@ == send_failed_rejected_text(recipient@),
{
    let mut s = "发送失败：消息转发到 \"".to_string();
    s.push_str(recipient);
    s.push_str("\" 时被拒绝");
    s
}

pub fn file_content_with_header(content: &str) -> (r: String)
    ensures
        r@ == "---file content---\n"@ + content@,
{
    let mut s = "---file content---\n".to_string();
    s.push_str(content);
    s
}

pub fn skeleton_with_header(content: &str) -> (r: String)
    ensures
        r@ == "--- skeleton (auto-extracted, showing interface & comments only, not full content) ---\n"@ + content@,
{
    let mut s = "--- skeleton (auto-extracted, showing interface & comments only, not full content) ---\n".to_string();
    s.push_str(content);
    s
}

pub fn preview_with_header(content: &str) -> (r: String)
    ensures
        r@ == "--- preview (first 10 + last 5 lines, not full content) ---\n"@ + content@,
{
    let mut s = "--- preview (first 10 + last 5 lines, not full content) ---\n".to_string();
    s.push_str(content);
    s
}

pub fn preview_ellipsis() -> (r: String)
    ensures
        r@ == "     ..."@,
{
    "     ...".to_string()
}

pub fn idle_cancelled() -> (r: String)
    ensures
        r@ == "idle cancelled: send_msg failed earlier in this beat"@,
{
    "idle cancelled: send_msg failed earlier in this beat".to_string()
}

/// The text of [`binary_file_description`].
pub open spec fn binary_file_description_text(name: Seq<char>, size: nat) -> Seq<char> {
    "[Binary file: "@ + name + ", "@ + number::dec(size) + " bytes]"@
}

pub fn binary_file_description(name: &str, size: u64) -> (r: String)
    ensures
        r@ == binary_file_description_text(name@, size as nat),
{
    let mut s = "[Binary file: ".to_string();
    s.push_str(name);
    s.push_str(", ");
    push_dec(&mut s, size);
    s.push_str(" bytes]");
    s
}

// === LLM Errors ===

pub fn llm_err_invalid_key() -> (r: String)
    ensures
        r@ == "API密钥无效"@,
{
    "API密钥无效".to_string()
}

pub fn llm_err_quota_exceeded() -> (r: String)
    ensures
        r@ == "通道额度用完了"@,
{
    "通道额度用完了".to_string()
}

pub fn llm_err_access_denied() -> (r: String)
    ensures
        r@ == "API访问被拒绝"@,
{
    "API访问被拒绝".to_string()
}

pub fn llm_err_rate_limited() -> (r: String)
    ensures
        r@ == "请求太频繁"@,
{
    "请求太频繁".to_string()
}

pub fn llm_err_service_unavailable() -> (r: String)
    ensures
        r@ == "LLM服务暂时不可用"@,
{
    "LLM服务暂时不可用".to_string()
}

/// The text of [`llm_err_unknown_status`].
pub open spec fn llm_err_unknown_status_text(status: nat) -> Seq<char> {
    "LLM服务返回错误("@ + number::dec(status) + ")"@
}

pub fn llm_err_unknown_status(status: u16) -> (r: String)
    ensures
        r@ == llm_err_unknown_status_text(status as nat),
{
    let mut s = "LLM服务返回错误(".to_string();
    push_dec(&mut s, status as u64);
    s.push_str(")");
    s
}

pub fn llm_err_sse_timeout() -> (r: String)
    ensures
        r@ == "连接超时（60秒无响应）"@,
{
    "连接超时（60秒无响应）".to_string()
}

pub fn llm_err_connection_failed() -> (r: String)
    ensures
        r@ == "无法连接LLM服务"@,
{
    "无法连接LLM服务".to_string()
}

pub fn llm_err_stream_read_error() -> (r: String)
    ensures
        r@ == "数据流读取异常"@,
{
    "数据流读取异常".to_string()
}

pub fn llm_err_runtime_failed() -> (r: String)
    ensures
        r@ == "内部运行时创建失败"@,
{
    "内部运行时创建失败".to_string()
}

pub fn llm_err_format_violation() -> (r: String)
    ensures
        r@ == "你的输出格式不正确——Action分隔符前有多余内容。思考过程会自动收集，无需特殊格式"@,
{
    "你的输出格式不正确——Action分隔符前有多余内容。思考过程会自动收集，无需特殊格式".to_string()
}

pub fn llm_err_missing_end_marker() -> (r: String)
    ensures
        r@ == "你的输出不完整——缺少结束标记。请确保每个action都有完整的开始和结束"@,
{
    "你的输出不完整——缺少结束标记。请确保每个action都有完整的开始和结束".to_string()
}

// === Inference Status ===

/// The text of [`inference_error_with_rotation`].
pub open spec fn inference_error_with_rotation_text(friendly: Seq<char>, from: Seq<char>, to: Seq<char>, backoff: nat) -> Seq<char> {
    "⚡ "@ + friendly + "（"@ + from + "），已轮换到 "@ + to + "，"@ + number::dec(backoff) + "秒后重试"@
}

pub fn inference_error_with_rotation(friendly: &str, from: &str, to: &str, backoff: u64) -> (r: String)
    ensures
        r@ == inference_error_with_rotation_text(friendly@, from@, to@, backoff as nat),
{
    let mut s = "⚡ ".to_string();
    s.push_str(friendly);
    s.push_str("（");
    s.push_str(from);
    s.push_str("），已轮换到 ");
    s.push_str(to);
    s.push_str("，");
    push_dec(&mut s, backoff);
    s.push_str("秒后重试");
    s
}

/// The text of [`inference_error_no_rotation`].
pub open spec fn inference_error_no_rotation_text(friendly: Seq<char>, backoff: nat) -> Seq<char> {
    "⚡ "@ + friendly + "，"@ + number::dec(backoff) + "秒后重试"@
}

pub fn inference_error_no_rotation(friendly: &str, backoff: u64) -> (r: String)
    ensures
        r@ == inference_error_no_rotation_text(friendly@, backoff as nat),
{
    let mut s = "⚡ ".to_string();
    s.push_str(friendly);
    s.push_str("，");
    push_dec(&mut s, backoff);
    s.push_str("秒后重试");
    s
}

pub fn inference_disconnected_with_rotation(from: &str, to: &str, backoff: u64) -> (r: String)
    ensures
        r@ == "⚡ 推理连接异常断开（"@ + from@ + "），已轮换到 "@ + to@ + "，"@ + number::dec(backoff as nat) + "秒后重试"@,
{
    let mut s = "⚡ 推理连接异常断开（".to_string();
    s.push_str(from);
    s.push_str("），已轮换到 ");
    s.push_str(to);
    s.push_str("，");
    push_dec(&mut s, backoff);
    s.push_str("秒后重试");
    s
}

pub fn inference_disconnected_no_rotation(backoff: u64) -> (r: String)
    ensures
        r@ == "⚡ 推理连接异常断开，"@ + number::dec(backoff as nat) + "秒后重试"@,
{
    let mut s = "⚡ 推理连接异常断开，".to_string();
    push_dec(&mut s, backoff);
    s.push_str("秒后重试");
    s
}

// === Chat Message ===

/// The text of [`chat_prefix_self`].
pub open spec fn chat_prefix_self_text(id: Seq<char>) -> Seq<char> {
    "you["@ + id + "]"@
}

pub fn chat_prefix_self(id: &str) -> (r: String)
    ensures
        r@ == chat_prefix_self_text(id@),
{
    let mut s = "you[".to_string();
    s.push_str(id);
    s.push_str("]");
    s
}

/// The text of [`chat_prefix_agent`].
pub open spec fn chat_prefix_agent_text(sender: Seq<char>) -> Seq<char> {
    "agent["@ + sender + "]"@
}

pub fn chat_prefix_agent(sender: &str) -> (r: String)
    ensures
        r@ == chat_prefix_agent_text(sender@),
{
    let mut s = "agent[".to_string();
    s.push_str(sender);
    s.push_str("]");
    s
}

/// The text of [`chat_message_fmt`].
pub open spec fn chat_message_fmt_text(prefix: Seq<char>, timestamp: Seq<char>, content: Seq<char>) -> Seq<char> {
    prefix + " ["@ + timestamp + "]: "@ + content
}

pub fn chat_message_fmt(prefix: &str, timestamp: &str, content: &str) -> (r: String)
    ensures
        r@ == chat_message_fmt_text(prefix@, timestamp@, content@),
{
    let mut s = prefix.to_string();
    s.push_str(" [");
    s.push_str(timestamp);
    s.push_str("]: ");
    s.push_str(content);
    s
}

// === Hub ===

pub fn hub_join_token_empty() -> (r: String)
    ensures
        r@ == "Join token cannot be empty"@,
{
    "Join token cannot be empty".to_string()
}

pub fn hub_already_host() -> (r: String)
    ensures
        r@ == "Already in host mode"@,
{
    "Already in host mode".to_string()
}

pub fn hub_not_host() -> (r: String)
    ensures
        r@ == "Not in host mode"@,
{
    "Not in host mode".to_string()
}

pub fn hub_already_joined() -> (r: String)
    ensures
        r@ == "Already joined to a host. Leave first."@,
{
    "Already joined to a host. Leave first.".to_string()
}

/// The text of [`hub_slaves_connected`].
pub open spec fn hub_slaves_connected_text(count: nat) -> Seq<char> {
    number::dec(count) + " slaves connected"@
}

pub fn hub_slaves_connected(count: usize) -> (r: String)
    ensures
        r@ == hub_slaves_connected_text(count as nat),
{
    let mut s = decimal(count as u64);
    s.push_str(" slaves connected");
    s
}

/// The text of [`hub_connected_to`].
pub open spec fn hub_connected_to_text(host: Seq<char>) -> Seq<char> {
    "connected to "@ + host
}

pub fn hub_connected_to(host: &str) -> (r: String)
    ensures
        r@ == hub_connected_to_text(host@),
{
    let mut s = "connected to ".to_string();
    s.push_str(host);
    s
}

/// The text of [`hub_instance_not_found`].
pub open spec fn hub_instance_not_found_text(id: Seq<char>, err: Seq<char>) -> Seq<char> {
    "Instance "@ + id + " not found: "@ + err
}

pub fn hub_instance_not_found(id: &str, err: &str) -> (r: String)
    ensures
        r@ == hub_instance_not_found_text(id@, err@),
{
    let mut s = "Instance ".to_string();
    s.push_str(id);
    s.push_str(" not found: ");
    s.push_str(err);
    s
}

/// The text of [`hub_relay_write_failed`].
pub open spec fn hub_relay_write_failed_text(err: Seq<char>) -> Seq<char> {
    "Failed to write relay message: "@ + err
}

pub fn hub_relay_write_failed(err: &str) -> (r: String)
    ensures
        r@ == hub_relay_write_failed_text(err@),
{
    let mut s = "Failed to write relay message: ".to_string();
    s.push_str(err);
    s
}

/// The text of [`hub_tunnel_relay_failed`].
pub open spec fn hub_tunnel_relay_failed_text(err: Seq<char>) -> Seq<char> {
    "Tunnel relay failed: "@ + err
}

pub fn hub_tunnel_relay_failed(err: &str) -> (r: String)
    ensures
        r@ == hub_tunnel_relay_failed_text(err@),
{
    let mut s = "Tunnel relay failed: ".to_string();
    s.push_str(err);
    s
}

pub fn hub_slave_endpoint_unavailable() -> (r: String)
    ensures
        r@ == "Slave tunnel endpoint not available"@,
{
    "Slave tunnel endpoint not available".to_string()
}

pub fn hub_not_connected() -> (r: String)
    ensures
        r@ == "Not connected to host"@,
{
    "Not connected to host".to_string()
}

pub fn hub_host_unavailable() -> (r: String)
    ensures
        r@ == "Host state no longer available"@,
{
    "Host state no longer available".to_string()
}

/// The text of [`hub_instance_not_found_anywhere`].
pub open spec fn hub_instance_not_found_anywhere_text(id: Seq<char>) -> Seq<char> {
    "Instance "@ + id + " not found on any connected engine"@
}

pub fn hub_instance_not_found_anywhere(id: &str) -> (r: String)
    ensures
        r@ == hub_instance_not_found_anywhere_text(id@),
{
    let mut s = "Instance ".to_string();
    s.push_str(id);
    s.push_str(" not found on any connected engine");
    s
}

/// The text of [`hub_connection_timeout`].
pub open spec fn hub_connection_timeout_text(host: Seq<char>) -> Seq<char> {
    "Connection timeout (5s) to "@ + host
}

pub fn hub_connection_timeout(host: &str) -> (r: String)
    ensures
        r@ == hub_connection_timeout_text(host@),
{
    let mut s = "Connection timeout (5s) to ".to_string();
    s.push_str(host);
    s
}

/// The text of [`hub_ws_connect_failed`].
pub open spec fn hub_ws_connect_failed_text(err: Seq<char>) -> Seq<char> {
    "WebSocket connect failed: "@ + err
}

pub fn hub_ws_connect_failed(err: &str) -> (r: String)
    ensures
        r@ == hub_ws_connect_failed_text(err@),
{
    let mut s = "WebSocket connect failed: ".to_string();
    s.push_str(err);
    s
}

/// The text of [`hub_send_register_failed`].
pub open spec fn hub_send_register_failed_text(err: Seq<char>) -> Seq<char> {
    "Failed to send register: "@ + err
}

pub fn hub_send_register_failed(err: &str) -> (r: String)
    ensures
        r@ == hub_send_register_failed_text(err@),
{
    let mut s = "Failed to send register: ".to_string();
    s.push_str(err);
    s
}

/// The text of [`hub_tunnel_error`].
pub open spec fn hub_tunnel_error_text(err: Seq<char>) -> Seq<char> {
    "Tunnel error: "@ + err
}

pub fn hub_tunnel_error(err: &str) -> (r: String)
    ensures
        r@ == hub_tunnel_error_text(err@),
{
    let mut s = "Tunnel error: ".to_string();
    s.push_str(err);
    s
}

pub fn hub_joined_leave_first() -> (r: String)
    ensures
        r@ == "Currently joined to a host. Leave first."@,
{
    "Currently joined to a host. Leave first.".to_string()
}

pub fn hub_host_disable_first() -> (r: String)
    ensures
        r@ == "Currently in host mode. Disable first."@,
{
    "Currently in host mode. Disable first.".to_string()
}

pub fn hub_mode_changed() -> (r: String)
    ensures
        r@ == "Mode changed during connection attempt"@,
{
    "Mode changed during connection attempt".to_string()
}

pub fn hub_not_joined() -> (r: String)
    ensures
        r@ == "Not joined to any host"@,
{
    "Not joined to any host".to_string()
}

// === Extension ===

pub fn no_extension_handler() -> (r: String)
    ensures
        r@ == "No extension handler configured"@,
{
    "No extension handler configured".to_string()
}

} // verus!
