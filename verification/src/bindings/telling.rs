//! What the texts for people and models tell.
use vstd::prelude::*;

use crate::bindings::i18n;
use crate::text::number;
use crate::text::parts;
use crate::text::search;

verus! {

/// What [`i18n::instance_deleted`] says holds what it is given, each in its place.
pub proof fn law_instance_deleted_tells(id: Seq<char>)
    ensures
        ({
            let text = i18n::instance_deleted_text(id);
            &&& search::has_text(text, "Deleted: "@ + id)
        }),
{
    let a0 = "Deleted: "@;
    let a1 = a0 + id;
    assert(i18n::instance_deleted_text(id) == a1);
    let piece1 = "Deleted: "@ + id;
    parts::lemma_whole(piece1);
}

/// What [`i18n::safety_valve_triggered`] says holds what it is given, each in its place.
pub proof fn law_safety_valve_triggered_tells(consecutive: nat, cooldown: nat)
    ensures
        ({
            let text = i18n::safety_valve_triggered_text(consecutive, cooldown);
            &&& search::has_text(text, "连续工作保护已启动：已连续推理"@ + number::dec(consecutive))
            &&& search::has_text(text, "次，暂停"@ + number::dec(cooldown))
        }),
{
    let a0 = "连续工作保护已启动：已连续推理"@;
    let a1 = a0 + number::dec(consecutive);
    let a2 = a1 + "次，暂停"@;
    let a3 = a2 + number::dec(cooldown);
    let a4 = a3 + "秒让系统休息一下。这是正常的保护机制，不是故障。稍等片刻即可自动恢复。如需调整触发阈值，可在 Settings 中修改 safety_max_consecutive_beats。"@;
    assert(i18n::safety_valve_triggered_text(consecutive, cooldown) == a4);
    let piece1 = "连续工作保护已启动：已连续推理"@ + number::dec(consecutive);
    parts::lemma_whole(piece1);
    parts::lemma_part_of_sum(a1, "次，暂停"@, piece1);
    parts::lemma_part_of_sum(a2, number::dec(cooldown), piece1);
    parts::lemma_part_of_sum(a3, "秒让系统休息一下。这是正常的保护机制，不是故障。稍等片刻即可自动恢复。如需调整触发阈值，可在 Settings 中修改 safety_max_consecutive_beats。"@, piece1);
    let piece3 = "次，暂停"@ + number::dec(cooldown);
    parts::lemma_whole(piece3);
    parts::lemma_assoc(a1, "次，暂停"@, number::dec(cooldown));
    parts::lemma_part_of_sum(a1, piece3, piece3);
    parts::lemma_part_of_sum(a3, "秒让系统休息一下。这是正常的保护机制，不是故障。稍等片刻即可自动恢复。如需调整触发阈值，可在 Settings 中修改 safety_max_consecutive_beats。"@, piece3);
}

/// What [`i18n::beat_limit_reached`] says holds what it is given, each in its place.
pub proof fn law_beat_limit_reached_tells(current: nat, max: nat)
    ensures
        ({
            let text = i18n::beat_limit_reached_text(current, max);
            &&& search::has_text(text, "推理次数已达上限（"@ + number::dec(current))
            &&& search::has_text(text, "/"@ + number::dec(max))
        }),
{
    let a0 = "推理次数已达上限（"@;
    let a1 = a0 + number::dec(current);
    let a2 = a1 + "/"@;
    let a3 = a2 + number::dec(max);
    let a4 = a3 + "），实例已停止推理。"@;
    assert(i18n::beat_limit_reached_text(current, max) == a4);
    let piece1 = "推理次数已达上限（"@ + number::dec(current);
    parts::lemma_whole(piece1);
    parts::lemma_part_of_sum(a1, "/"@, piece1);
    parts::lemma_part_of_sum(a2, number::dec(max), piece1);
    parts::lemma_part_of_sum(a3, "），实例已停止推理。"@, piece1);
    let piece3 = "/"@ + number::dec(max);
    parts::lemma_whole(piece3);
    parts::lemma_assoc(a1, "/"@, number::dec(max));
    parts::lemma_part_of_sum(a1, piece3, piece3);
    parts::lemma_part_of_sum(a3, "），实例已停止推理。"@, piece3);
}

/// What [`i18n::disk_space_low`] says holds what it is given, each in its place.
pub proof fn law_disk_space_low_tells(avail_mb: nat)
    ensures
        ({
            let text = i18n::disk_space_low_text(avail_mb);
            &&& search::has_text(text, "磁盘空间不足：仅剩 "@ + number::dec(avail_mb))
        }),
{
    let a0 = "磁盘空间不足：仅剩 "@;
    let a1 = a0 + number::dec(avail_mb);
    let a2 = a1 + "MB 可用。请清理磁盘空间，否则可能导致数据损坏。"@;
    assert(i18n::disk_space_low_text(avail_mb) == a2);
    let piece1 = "磁盘空间不足：仅剩 "@ + number::dec(avail_mb);
    parts::lemma_whole(piece1);
    parts::lemma_part_of_sum(a1, "MB 可用。请清理磁盘空间，否则可能导致数据损坏。"@, piece1);
}

/// What [`i18n::knowledge_capacity_ok`] says holds what it is given, each in its place.
pub proof fn law_knowledge_capacity_ok_tells(size: nat)
    ensures
        ({
            let text = i18n::knowledge_capacity_ok_text(size);
            &&& search::has_text(text, "知识: "@ + number::dec(size))
        }),
{
    let a0 = "知识: "@;
    let a1 = a0 + number::dec(size);
    let a2 = a1 + "/51200字符 🟢"@;
    assert(i18n::knowledge_capacity_ok_text(size) == a2);
    let piece1 = "知识: "@ + number::dec(size);
    parts::lemma_whole(piece1);
    parts::lemma_part_of_sum(a1, "/51200字符 🟢"@, piece1);
}

/// What [`i18n::knowledge_capacity_warning`] says holds what it is given, each in its place.
pub proof fn law_knowledge_capacity_warning_tells(size: nat)
    ensures
        ({
            let text = i18n::knowledge_capacity_warning_text(size);
            &&& search::has_text(text, "知识: "@ + number::dec(size))
        }),
{
    let a0 = "知识: "@;
    let a1 = a0 + number::dec(size);
    let a2 = a1 + "/51200字符 ⚠️ 知识接近上限，summary时请精简"@;
    assert(i18n::knowledge_capacity_warning_text(size) == a2);
    let piece1 = "知识: "@ + number::dec(size);
    parts::lemma_whole(piece1);
    parts::lemma_part_of_sum(a1, "/51200字符 ⚠️ 知识接近上限，summary时请精简"@, piece1);
}

/// What [`i18n::knowledge_capacity_critical`] says holds what it is given, each in its place.
pub proof fn law_knowledge_capacity_critical_tells(size: nat)
    ensures
        ({
            let text = i18n::knowledge_capacity_critical_text(size);
            &&& search::has_text(text, "知识: "@ + number::dec(size))
        }),
{
    let a0 = "知识: "@;
    let a1 = a0 + number::dec(size);
    let a2 = a1 + "/51200字符 🔴 知识超出推荐容量，建议与用户商量裂变"@;
    assert(i18n::knowledge_capacity_critical_text(size) == a2);
    let piece1 = "知识: "@ + number::dec(size);
    parts::lemma_whole(piece1);
    parts::lemma_part_of_sum(a1, "/51200字符 🔴 知识超出推荐容量，建议与用户商量裂变"@, piece1);
}

/// What [`i18n::session_summary`] says holds what it is given, each in its place.
pub proof fn law_session_summary_tells(summary: Seq<char>)
    ensures
        ({
            let text = i18n::session_summary_text(summary);
            &&& search::has_text(text, "[总结] "@ + summary)
        }),
{
    let a0 = "[总结] "@;
    let a1 = a0 + summary;
    assert(i18n::session_summary_text(summary) == a1);
    let piece1 = "[总结] "@ + summary;
    parts::lemma_whole(piece1);
}

/// What [`i18n::memory_over_limit`] says holds what it is given, each in its place.
pub proof fn law_memory_over_limit_tells(kb: nat)
    ensures
        ({
            let text = i18n::memory_over_limit_text(kb);
            &&& search::has_text(text, "\n⚠️ prompt总量已达"@ + number::dec(kb))
        }),
{
    let a0 = "\n⚠️ prompt总量已达"@;
    let a1 = a0 + number::dec(kb);
    let a2 = a1 + "KB（上限200K）！建议执行 summary 整理记忆。"@;
    assert(i18n::memory_over_limit_text(kb) == a2);
    let piece1 = "\n⚠️ prompt总量已达"@ + number::dec(kb);
    parts::lemma_whole(piece1);
    parts::lemma_part_of_sum(a1, "KB（上限200K）！建议执行 summary 整理记忆。"@, piece1);
}

/// What [`i18n::truncated_content`] says holds what it is given, each in its place.
pub proof fn law_truncated_content_tells(content: Seq<char>)
    ensures
        ({
            let text = i18n::truncated_content_text(content);
            &&& search::has_prefix(text, content + "...(略)"@)
        }),
{
    let a0 = content;
    let a1 = a0 + "...(略)"@;
    assert(i18n::truncated_content_text(content) == a1);
    let piece0 = a1;
    parts::lemma_whole(piece0);
    assert(a1.subrange(0, piece0.len() as int) =~= piece0);
}

/// What [`i18n::host_info`] says holds what it is given, each in its place.
pub proof fn law_host_info_tells(host: Seq<char>)
    ensures
        ({
            let text = i18n::host_info_text(host);
            &&& search::has_text(text, "公网地址："@ + host)
        }),
{
    let a0 = "公网地址："@;
    let a1 = a0 + host;
    assert(i18n::host_info_text(host) == a1);
    let piece1 = "公网地址："@ + host;
    parts::lemma_whole(piece1);
}

/// What [`i18n::roll_requirement`] says holds what it is given, each in its place.
pub proof fn law_roll_requirement_tells(kb: nat)
    ensures
        ({
            let text = i18n::roll_requirement_text(kb);
            &&& search::has_text(text, "不超过"@ + number::dec(kb))
        }),
{
    let a0 = "不超过"@;
    let a1 = a0 + number::dec(kb);
    let a2 = a1 + "KB"@;
    assert(i18n::roll_requirement_text(kb) == a2);
    let piece1 = "不超过"@ + number::dec(kb);
    parts::lemma_whole(piece1);
    parts::lemma_part_of_sum(a1, "KB"@, piece1);
}

/// What [`i18n::roll_result`] says holds what it is given, each in its place.
pub proof fn law_roll_result_tells(old_kb: nat, new_kb: nat)
    ensures
        ({
            let text = i18n::roll_result_text(old_kb, new_kb);
            &&& search::has_text(text, "记忆整理完成：旧记录已压缩归档（"@ + number::dec(old_kb))
            &&& search::has_text(text, " KB → "@ + number::dec(new_kb))
        }),
{
    let a0 = "记忆整理完成：旧记录已压缩归档（"@;
    let a1 = a0 + number::dec(old_kb);
    let a2 = a1 + " KB → "@;
    let a3 = a2 + number::dec(new_kb);
    let a4 = a3 + " KB）"@;
    assert(i18n::roll_result_text(old_kb, new_kb) == a4);
    let piece1 = "记忆整理完成：旧记录已压缩归档（"@ + number::dec(old_kb);
    parts::lemma_whole(piece1);
    parts::lemma_part_of_sum(a1, " KB → "@, piece1);
    parts::lemma_part_of_sum(a2, number::dec(new_kb), piece1);
    parts::lemma_part_of_sum(a3, " KB）"@, piece1);
    let piece3 = " KB → "@ + number::dec(new_kb);
    parts::lemma_whole(piece3);
    parts::lemma_assoc(a1, " KB → "@, number::dec(new_kb));
    parts::lemma_part_of_sum(a1, piece3, piece3);
    parts::lemma_part_of_sum(a3, " KB）"@, piece3);
}

/// What [`i18n::roll_deleted_residual`] says holds what it is given, each in its place.
pub proof fn law_roll_deleted_residual_tells(block: Seq<char>)
    ensures
        ({
            let text = i18n::roll_deleted_residual_text(block);
            &&& search::has_text(text, "记忆整理：发现已压缩的残留记录，已清理（"@ + block)
        }),
{
    let a0 = "记忆整理：发现已压缩的残留记录，已清理（"@;
    let a1 = a0 + block;
    let a2 = a1 + "）"@;
    assert(i18n::roll_deleted_residual_text(block) == a2);
    let piece1 = "记忆整理：发现已压缩的残留记录，已清理（"@ + block;
    parts::lemma_whole(piece1);
    parts::lemma_part_of_sum(a1, "）"@, piece1);
}

/// What [`i18n::roll_deleted_empty`] says holds what it is given, each in its place.
pub proof fn law_roll_deleted_empty_tells(block: Seq<char>)
    ensures
        ({
            let text = i18n::roll_deleted_empty_text(block);
            &&& search::has_text(text, "记忆整理：发现空记录，已清理（"@ + block)
        }),
{
    let a0 = "记忆整理：发现空记录，已清理（"@;
    let a1 = a0 + block;
    let a2 = a1 + "）"@;
    assert(i18n::roll_deleted_empty_text(block) == a2);
    let piece1 = "记忆整理：发现空记录，已清理（"@ + block;
    parts::lemma_whole(piece1);
    parts::lemma_part_of_sum(a1, "）"@, piece1);
}

/// What [`i18n::roll_failed`] says holds what it is given, each in its place.
pub proof fn law_roll_failed_tells(error: Seq<char>)
    ensures
        ({
            let text = i18n::roll_failed_text(error);
            &&& search::has_text(text, "记忆整理失败："@ + error)
        }),
{
    let a0 = "记忆整理失败："@;
    let a1 = a0 + error;
    assert(i18n::roll_failed_text(error) == a1);
    let piece1 = "记忆整理失败："@ + error;
    parts::lemma_whole(piece1);
}

/// What [`i18n::capture_result`] says holds what it is given, each in its place.
pub proof fn law_capture_result_tells(old_kb: nat, new_kb: nat)
    ensures
        ({
            let text = i18n::capture_result_text(old_kb, new_kb);
            &&& search::has_text(text, "知识更新完成（"@ + number::dec(old_kb))
            &&& search::has_text(text, " KB → "@ + number::dec(new_kb))
        }),
{
    let a0 = "知识更新完成（"@;
    let a1 = a0 + number::dec(old_kb);
    let a2 = a1 + " KB → "@;
    let a3 = a2 + number::dec(new_kb);
    let a4 = a3 + " KB）"@;
    assert(i18n::capture_result_text(old_kb, new_kb) == a4);
    let piece1 = "知识更新完成（"@ + number::dec(old_kb);
    parts::lemma_whole(piece1);
    parts::lemma_part_of_sum(a1, " KB → "@, piece1);
    parts::lemma_part_of_sum(a2, number::dec(new_kb), piece1);
    parts::lemma_part_of_sum(a3, " KB）"@, piece1);
    let piece3 = " KB → "@ + number::dec(new_kb);
    parts::lemma_whole(piece3);
    parts::lemma_assoc(a1, " KB → "@, number::dec(new_kb));
    parts::lemma_part_of_sum(a1, piece3, piece3);
    parts::lemma_part_of_sum(a3, " KB）"@, piece3);
}

/// What [`i18n::capture_failed`] says holds what it is given, each in its place.
pub proof fn law_capture_failed_tells(error: Seq<char>)
    ensures
        ({
            let text = i18n::capture_failed_text(error);
            &&& search::has_text(text, "知识更新失败："@ + error)
        }),
{
    let a0 = "知识更新失败："@;
    let a1 = a0 + error;
    assert(i18n::capture_failed_text(error) == a1);
    let piece1 = "知识更新失败："@ + error;
    parts::lemma_whole(piece1);
}

/// What [`i18n::sequence_reject_after_blocking`] says holds what it is given, each in its place.
pub proof fn law_sequence_reject_after_blocking_tells(instance_id: Seq<char>, action: Seq<char>)
    ensures
        ({
            let text = i18n::sequence_reject_after_blocking_text(instance_id, action);
            &&& search::has_text(text, "[SEQUENCE-"@ + instance_id)
            &&& search::has_text(text, "] Non-blocking action '"@ + action)
        }),
{
    let a0 = "[SEQUENCE-"@;
    let a1 = a0 + instance_id;
    let a2 = a1 + "] Non-blocking action '"@;
    let a3 = a2 + action;
    let a4 = a3 + "' after blocking action — aborting inference"@;
    assert(i18n::sequence_reject_after_blocking_text(instance_id, action) == a4);
    let piece1 = "[SEQUENCE-"@ + instance_id;
    parts::lemma_whole(piece1);
    parts::lemma_part_of_sum(a1, "] Non-blocking action '"@, piece1);
    parts::lemma_part_of_sum(a2, action, piece1);
    parts::lemma_part_of_sum(a3, "' after blocking action — aborting inference"@, piece1);
    let piece3 = "] Non-blocking action '"@ + action;
    parts::lemma_whole(piece3);
    parts::lemma_assoc(a1, "] Non-blocking action '"@, action);
    parts::lemma_part_of_sum(a1, piece3, piece3);
    parts::lemma_part_of_sum(a3, "' after blocking action — aborting inference"@, piece3);
}

/// What [`i18n::sequence_reject_after_idle`] says holds what it is given, each in its place.
pub proof fn law_sequence_reject_after_idle_tells(instance_id: Seq<char>, action: Seq<char>)
    ensures
        ({
            let text = i18n::sequence_reject_after_idle_text(instance_id, action);
            &&& search::has_text(text, "[SEQUENCE-"@ + instance_id)
            &&& search::has_text(text, "] Action '"@ + action)
        }),
{
    let a0 = "[SEQUENCE-"@;
    let a1 = a0 + instance_id;
    let a2 = a1 + "] Action '"@;
    let a3 = a2 + action;
    let a4 = a3 + "' after idle — zero tolerance, aborting inference"@;
    assert(i18n::sequence_reject_after_idle_text(instance_id, action) == a4);
    let piece1 = "[SEQUENCE-"@ + instance_id;
    parts::lemma_whole(piece1);
    parts::lemma_part_of_sum(a1, "] Action '"@, piece1);
    parts::lemma_part_of_sum(a2, action, piece1);
    parts::lemma_part_of_sum(a3, "' after idle — zero tolerance, aborting inference"@, piece1);
    let piece3 = "] Action '"@ + action;
    parts::lemma_whole(piece3);
    parts::lemma_assoc(a1, "] Action '"@, action);
    parts::lemma_part_of_sum(a1, piece3, piece3);
    parts::lemma_part_of_sum(a3, "' after idle — zero tolerance, aborting inference"@, piece3);
}

/// What [`i18n::send_failed_no_extension`] says holds what it is given, each in its place.
pub proof fn law_send_failed_no_extension_tells(recipient: Seq<char>)
    ensures
        ({
            let text = i18n::send_failed_no_extension_text(recipient);
            &&& search::has_text(text, "发送失败：通讯服务不可用，无法联系 \""@ + recipient)
        }),
{
    let a0 = "发送失败：通讯服务不可用，无法联系 \""@;
    let a1 = a0 + recipient;
    let a2 = a1 + "\""@;
    assert(i18n::send_failed_no_extension_text(recipient) == a2);
    let piece1 = "发送失败：通讯服务不可用，无法联系 \""@ + recipient;
    parts::lemma_whole(piece1);
    parts::lemma_part_of_sum(a1, "\""@, piece1);
}

/// What [`i18n::send_failed_not_in_contacts`] says holds what it is given, each in its place.
pub proof fn law_send_failed_not_in_contacts_tells(recipient: Seq<char>, contacts: Seq<char>)
    ensures
        ({
            let text = i18n::send_failed_not_in_contacts_text(recipient, contacts);
            &&& search::has_text(text, "发送失败：收件人 \""@ + recipient)
            &&& search::has_text(text, "\" 不在联系人列表中。可用联系人："@ + contacts)
        }),
{
    let a0 = "发送失败：收件人 \""@;
    let a1 = a0 + recipient;
    let a2 = a1 + "\" 不在联系人列表中。可用联系人："@;
    let a3 = a2 + contacts;
    assert(i18n::send_failed_not_in_contacts_text(recipient, contacts) == a3);
    let piece1 = "发送失败：收件人 \""@ + recipient;
    parts::lemma_whole(piece1);
    parts::lemma_part_of_sum(a1, "\" 不在联系人列表中。可用联系人："@, piece1);
    parts::lemma_part_of_sum(a2, contacts, piece1);
    let piece3 = "\" 不在联系人列表中。可用联系人："@ + contacts;
    parts::lemma_whole(piece3);
    parts::lemma_assoc(a1, "\" 不在联系人列表中。可用联系人："@, contacts);
    parts::lemma_part_of_sum(a1, piece3, piece3);
}

/// What [`i18n::send_failed_rejected`] says holds what it is given, each in its place.
pub proof fn law_send_failed_rejected_tells(recipient: Seq<char>)
    ensures
        ({
            let text = i18n::send_failed_rejected_text(recipient);
            &&& search::has_text(text, "发送失败：消息转发到 \""@ + recipient)
        }),
{
    let a0 = "发送失败：消息转发到 \""@;
    let a1 = a0 + recipient;
    let a2 = a1 + "\" 时被拒绝"@;
    assert(i18n::send_failed_rejected_text(recipient) == a2);
    let piece1 = "发送失败：消息转发到 \""@ + recipient;
    parts::lemma_whole(piece1);
    parts::lemma_part_of_sum(a1, "\" 时被拒绝"@, piece1);
}

/// What [`i18n::binary_file_description`] says holds what it is given, each in its place.
pub proof fn law_binary_file_description_tells(name: Seq<char>, size: nat)
    ensures
        ({
            let text = i18n::binary_file_description_text(name, size);
            &&& search::has_text(text, "[Binary file: "@ + name)
            &&& search::has_text(text, ", "@ + number::dec(size))
        }),
{
    let a0 = "[Binary file: "@;
    let a1 = a0 + name;
    let a2 = a1 + ", "@;
    let a3 = a2 + number::dec(size);
    let a4 = a3 + " bytes]"@;
    assert(i18n::binary_file_description_text(name, size) == a4);
    let piece1 = "[Binary file: "@ + name;
    parts::lemma_whole(piece1);
    parts::lemma_part_of_sum(a1, ", "@, piece1);
    parts::lemma_part_of_sum(a2, number::dec(size), piece1);
    parts::lemma_part_of_sum(a3, " bytes]"@, piece1);
    let piece3 = ", "@ + number::dec(size);
    parts::lemma_whole(piece3);
    parts::lemma_assoc(a1, ", "@, number::dec(size));
    parts::lemma_part_of_sum(a1, piece3, piece3);
    parts::lemma_part_of_sum(a3, " bytes]"@, piece3);
}

/// What [`i18n::llm_err_unknown_status`] says holds what it is given, each in its place.
pub proof fn law_llm_err_unknown_status_tells(status: nat)
    ensures
        ({
            let text = i18n::llm_err_unknown_status_text(status);
            &&& search::has_text(text, "LLM服务返回错误("@ + number::dec(status))
        }),
{
    let a0 = "LLM服务返回错误("@;
    let a1 = a0 + number::dec(status);
    let a2 = a1 + ")"@;
    assert(i18n::llm_err_unknown_status_text(status) == a2);
    let piece1 = "LLM服务返回错误("@ + number::dec(status);
    parts::lemma_whole(piece1);
    parts::lemma_part_of_sum(a1, ")"@, piece1);
}

/// What [`i18n::inference_error_with_rotation`] says holds what it is given, each in its place.
pub proof fn law_inference_error_with_rotation_tells(
    friendly: Seq<char>,
    from: Seq<char>,
    to: Seq<char>,
    backoff: nat,
)
    ensures
        ({
            let text = i18n::inference_error_with_rotation_text(friendly, from, to, backoff);
            &&& search::has_text(text, "⚡ "@ + friendly)
            &&& search::has_text(text, "（"@ + from)
            &&& search::has_text(text, "），已轮换到 "@ + to)
            &&& search::has_text(text, "，"@ + number::dec(backoff))
        }),
{
    let a0 = "⚡ "@;
    let a1 = a0 + friendly;
    let a2 = a1 + "（"@;
    let a3 = a2 + from;
    let a4 = a3 + "），已轮换到 "@;
    let a5 = a4 + to;
    let a6 = a5 + "，"@;
    let a7 = a6 + number::dec(backoff);
    let a8 = a7 + "秒后重试"@;
    assert(i18n::inference_error_with_rotation_text(friendly, from, to, backoff) == a8);
    let piece1 = "⚡ "@ + friendly;
    parts::lemma_whole(piece1);
    parts::lemma_part_of_sum(a1, "（"@, piece1);
    parts::lemma_part_of_sum(a2, from, piece1);
    parts::lemma_part_of_sum(a3, "），已轮换到 "@, piece1);
    parts::lemma_part_of_sum(a4, to, piece1);
    parts::lemma_part_of_sum(a5, "，"@, piece1);
    parts::lemma_part_of_sum(a6, number::dec(backoff), piece1);
    parts::lemma_part_of_sum(a7, "秒后重试"@, piece1);
    let piece3 = "（"@ + from;
    parts::lemma_whole(piece3);
    parts::lemma_assoc(a1, "（"@, from);
    parts::lemma_part_of_sum(a1, piece3, piece3);
    parts::lemma_part_of_sum(a3, "），已轮换到 "@, piece3);
    parts::lemma_part_of_sum(a4, to, piece3);
    parts::lemma_part_of_sum(a5, "，"@, piece3);
    parts::lemma_part_of_sum(a6, number::dec(backoff), piece3);
    parts::lemma_part_of_sum(a7, "秒后重试"@, piece3);
    let piece5 = "），已轮换到 "@ + to;
    parts::lemma_whole(piece5);
    parts::lemma_assoc(a3, "），已轮换到 "@, to);
    parts::lemma_part_of_sum(a3, piece5, piece5);
    parts::lemma_part_of_sum(a5, "，"@, piece5);
    parts::lemma_part_of_sum(a6, number::dec(backoff), piece5);
    parts::lemma_part_of_sum(a7, "秒后重试"@, piece5);
    let piece7 = "，"@ + number::dec(backoff);
    parts::lemma_whole(piece7);
    parts::lemma_assoc(a5, "，"@, number::dec(backoff));
    parts::lemma_part_of_sum(a5, piece7, piece7);
    parts::lemma_part_of_sum(a7, "秒后重试"@, piece7);
}

/// What [`i18n::inference_error_no_rotation`] says holds what it is given, each in its place.
pub proof fn law_inference_error_no_rotation_tells(friendly: Seq<char>, backoff: nat)
    ensures
        ({
            let text = i18n::inference_error_no_rotation_text(friendly, backoff);
            &&& search::has_text(text, "⚡ "@ + friendly)
            &&& search::has_text(text, "，"@ + number::dec(backoff))
        }),
{
    let a0 = "⚡ "@;
    let a1 = a0 + friendly;
    let a2 = a1 + "，"@;
    let a3 = a2 + number::dec(backoff);
    let a4 = a3 + "秒后重试"@;
    assert(i18n::inference_error_no_rotation_text(friendly, backoff) == a4);
    let piece1 = "⚡ "@ + friendly;
    parts::lemma_whole(piece1);
    parts::lemma_part_of_sum(a1, "，"@, piece1);
    parts::lemma_part_of_sum(a2, number::dec(backoff), piece1);
    parts::lemma_part_of_sum(a3, "秒后重试"@, piece1);
    let piece3 = "，"@ + number::dec(backoff);
    parts::lemma_whole(piece3);
    parts::lemma_assoc(a1, "，"@, number::dec(backoff));
    parts::lemma_part_of_sum(a1, piece3, piece3);
    parts::lemma_part_of_sum(a3, "秒后重试"@, piece3);
}

/// What [`i18n::chat_prefix_self`] says holds what it is given, each in its place.
pub proof fn law_chat_prefix_self_tells(id: Seq<char>)
    ensures
        ({
            let text = i18n::chat_prefix_self_text(id);
            &&& search::has_text(text, "you["@ + id)
        }),
{
    let a0 = "you["@;
    let a1 = a0 + id;
    let a2 = a1 + "]"@;
    assert(i18n::chat_prefix_self_text(id) == a2);
    let piece1 = "you["@ + id;
    parts::lemma_whole(piece1);
    parts::lemma_part_of_sum(a1, "]"@, piece1);
}

/// What [`i18n::chat_prefix_agent`] says holds what it is given, each in its place.
pub proof fn law_chat_prefix_agent_tells(sender: Seq<char>)
    ensures
        ({
            let text = i18n::chat_prefix_agent_text(sender);
            &&& search::has_text(text, "agent["@ + sender)
        }),
{
    let a0 = "agent["@;
    let a1 = a0 + sender;
    let a2 = a1 + "]"@;
    assert(i18n::chat_prefix_agent_text(sender) == a2);
    let piece1 = "agent["@ + sender;
    parts::lemma_whole(piece1);
    parts::lemma_part_of_sum(a1, "]"@, piece1);
}

/// What [`i18n::chat_message_fmt`] says holds what it is given, each in its place.
pub proof fn law_chat_message_fmt_tells(prefix: Seq<char>, timestamp: Seq<char>, content: Seq<char>)
    ensures
        ({
            let text = i18n::chat_message_fmt_text(prefix, timestamp, content);
            &&& search::has_prefix(text, prefix + " ["@)
            &&& search::has_text(text, " ["@ + timestamp)
            &&& search::has_text(text, "]: "@ + content)
        }),
{
    let a0 = prefix;
    let a1 = a0 + " ["@;
    let a2 = a1 + timestamp;
    let a3 = a2 + "]: "@;
    let a4 = a3 + content;
    assert(i18n::chat_message_fmt_text(prefix, timestamp, content) == a4);
    let piece0 = a1;
    parts::lemma_whole(piece0);
    assert(a4.subrange(0, piece0.len() as int) =~= piece0);
    let piece2 = " ["@ + timestamp;
    parts::lemma_whole(piece2);
    parts::lemma_assoc(a0, " ["@, timestamp);
    parts::lemma_part_of_sum(a0, piece2, piece2);
    parts::lemma_part_of_sum(a2, "]: "@, piece2);
    parts::lemma_part_of_sum(a3, content, piece2);
    let piece4 = "]: "@ + content;
    parts::lemma_whole(piece4);
    parts::lemma_assoc(a2, "]: "@, content);
    parts::lemma_part_of_sum(a2, piece4, piece4);
}

/// What [`i18n::hub_slaves_connected`] says holds what it is given, each in its place.
pub proof fn law_hub_slaves_connected_tells(count: nat)
    ensures
        ({
            let text = i18n::hub_slaves_connected_text(count);
            &&& search::has_prefix(text, number::dec(count) + " slaves connected"@)
        }),
{
    let a0 = number::dec(count);
    let a1 = a0 + " slaves connected"@;
    assert(i18n::hub_slaves_connected_text(count) == a1);
    let piece0 = a1;
    parts::lemma_whole(piece0);
    assert(a1.subrange(0, piece0.len() as int) =~= piece0);
}

/// What [`i18n::hub_connected_to`] says holds what it is given, each in its place.
pub proof fn law_hub_connected_to_tells(host: Seq<char>)
    ensures
        ({
            let text = i18n::hub_connected_to_text(host);
            &&& search::has_text(text, "connected to "@ + host)
        }),
{
    let a0 = "connected to "@;
    let a1 = a0 + host;
    assert(i18n::hub_connected_to_text(host) == a1);
    let piece1 = "connected to "@ + host;
    parts::lemma_whole(piece1);
}

/// What [`i18n::hub_instance_not_found`] says holds what it is given, each in its place.
pub proof fn law_hub_instance_not_found_tells(id: Seq<char>, err: Seq<char>)
    ensures
        ({
            let text = i18n::hub_instance_not_found_text(id, err);
            &&& search::has_text(text, "Instance "@ + id)
            &&& search::has_text(text, " not found: "@ + err)
        }),
{
    let a0 = "Instance "@;
    let a1 = a0 + id;
    let a2 = a1 + " not found: "@;
    let a3 = a2 + err;
    assert(i18n::hub_instance_not_found_text(id, err) == a3);
    let piece1 = "Instance "@ + id;
    parts::lemma_whole(piece1);
    parts::lemma_part_of_sum(a1, " not found: "@, piece1);
    parts::lemma_part_of_sum(a2, err, piece1);
    let piece3 = " not found: "@ + err;
    parts::lemma_whole(piece3);
    parts::lemma_assoc(a1, " not found: "@, err);
    parts::lemma_part_of_sum(a1, piece3, piece3);
}

/// What [`i18n::hub_relay_write_failed`] says holds what it is given, each in its place.
pub proof fn law_hub_relay_write_failed_tells(err: Seq<char>)
    ensures
        ({
            let text = i18n::hub_relay_write_failed_text(err);
            &&& search::has_text(text, "Failed to write relay message: "@ + err)
        }),
{
    let a0 = "Failed to write relay message: "@;
    let a1 = a0 + err;
    assert(i18n::hub_relay_write_failed_text(err) == a1);
    let piece1 = "Failed to write relay message: "@ + err;
    parts::lemma_whole(piece1);
}

/// What [`i18n::hub_tunnel_relay_failed`] says holds what it is given, each in its place.
pub proof fn law_hub_tunnel_relay_failed_tells(err: Seq<char>)
    ensures
        ({
            let text = i18n::hub_tunnel_relay_failed_text(err);
            &&& search::has_text(text, "Tunnel relay failed: "@ + err)
        }),
{
    let a0 = "Tunnel relay failed: "@;
    let a1 = a0 + err;
    assert(i18n::hub_tunnel_relay_failed_text(err) == a1);
    let piece1 = "Tunnel relay failed: "@ + err;
    parts::lemma_whole(piece1);
}

/// What [`i18n::hub_instance_not_found_anywhere`] says holds what it is given, each in its place.
pub proof fn law_hub_instance_not_found_anywhere_tells(id: Seq<char>)
    ensures
        ({
            let text = i18n::hub_instance_not_found_anywhere_text(id);
            &&& search::has_text(text, "Instance "@ + id)
        }),
{
    let a0 = "Instance "@;
    let a1 = a0 + id;
    let a2 = a1 + " not found on any connected engine"@;
    assert(i18n::hub_instance_not_found_anywhere_text(id) == a2);
    let piece1 = "Instance "@ + id;
    parts::lemma_whole(piece1);
    parts::lemma_part_of_sum(a1, " not found on any connected engine"@, piece1);
}

/// What [`i18n::hub_connection_timeout`] says holds what it is given, each in its place.
pub proof fn law_hub_connection_timeout_tells(host: Seq<char>)
    ensures
        ({
            let text = i18n::hub_connection_timeout_text(host);
            &&& search::has_text(text, "Connection timeout (5s) to "@ + host)
        }),
{
    let a0 = "Connection timeout (5s) to "@;
    let a1 = a0 + host;
    assert(i18n::hub_connection_timeout_text(host) == a1);
    let piece1 = "Connection timeout (5s) to "@ + host;
    parts::lemma_whole(piece1);
}

/// What [`i18n::hub_ws_connect_failed`] says holds what it is given, each in its place.
pub proof fn law_hub_ws_connect_failed_tells(err: Seq<char>)
    ensures
        ({
            let text = i18n::hub_ws_connect_failed_text(err);
            &&& search::has_text(text, "WebSocket connect failed: "@ + err)
        }),
{
    let a0 = "WebSocket connect failed: "@;
    let a1 = a0 + err;
    assert(i18n::hub_ws_connect_failed_text(err) == a1);
    let piece1 = "WebSocket connect failed: "@ + err;
    parts::lemma_whole(piece1);
}

/// What [`i18n::hub_send_register_failed`] says holds what it is given, each in its place.
pub proof fn law_hub_send_register_failed_tells(err: Seq<char>)
    ensures
        ({
            let text = i18n::hub_send_register_failed_text(err);
            &&& search::has_text(text, "Failed to send register: "@ + err)
        }),
{
    let a0 = "Failed to send register: "@;
    let a1 = a0 + err;
    assert(i18n::hub_send_register_failed_text(err) == a1);
    let piece1 = "Failed to send register: "@ + err;
    parts::lemma_whole(piece1);
}

/// What [`i18n::hub_tunnel_error`] says holds what it is given, each in its place.
pub proof fn law_hub_tunnel_error_tells(err: Seq<char>)
    ensures
        ({
            let text = i18n::hub_tunnel_error_text(err);
            &&& search::has_text(text, "Tunnel error: "@ + err)
        }),
{
    let a0 = "Tunnel error: "@;
    let a1 = a0 + err;
    assert(i18n::hub_tunnel_error_text(err) == a1);
    let piece1 = "Tunnel error: "@ + err;
    parts::lemma_whole(piece1);
}

} // verus!
