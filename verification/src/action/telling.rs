//! What the texts about actions tell.
use vstd::prelude::*;

use crate::action::action_output;
use crate::text::number;
use crate::text::parts;
use crate::text::search;
use crate::text::space;

verus! {

/// What [`action_output::truncated_output`] says holds what it is given, each in its place.
pub proof fn law_truncated_output_tells(truncated: Seq<char>, total_bytes: nat)
    ensures
        ({
            let text = action_output::truncated_output_text(truncated, total_bytes);
            &&& search::has_prefix(text, truncated + "...\n[truncated, total "@)
            &&& search::has_text(text, "...\n[truncated, total "@ + number::dec(total_bytes))
        }),
{
    let a0 = truncated;
    let a1 = a0 + "...\n[truncated, total "@;
    let a2 = a1 + number::dec(total_bytes);
    let a3 = a2 + " bytes]"@;
    assert(action_output::truncated_output_text(truncated, total_bytes) == a3);
    let piece0 = a1;
    parts::lemma_whole(piece0);
    assert(a3.subrange(0, piece0.len() as int) =~= piece0);
    let piece2 = "...\n[truncated, total "@ + number::dec(total_bytes);
    parts::lemma_whole(piece2);
    parts::lemma_assoc(a0, "...\n[truncated, total "@, number::dec(total_bytes));
    parts::lemma_part_of_sum(a0, piece2, piece2);
    parts::lemma_part_of_sum(a2, " bytes]"@, piece2);
}

/// What [`action_output::write_success_full`] says holds what it is given, each in its place.
pub proof fn law_write_success_full_tells(path: Seq<char>, bytes: nat, lines: nat, content: Seq<char>)
    ensures
        ({
            let text = action_output::write_success_full_text(path, bytes, lines, content);
            &&& search::has_text(text, "write success ["@ + path)
            &&& search::has_text(text, "] ("@ + number::dec(bytes))
            &&& search::has_text(text, " bytes, "@ + number::dec(lines))
            &&& search::has_text(text, " lines)\n\n---file content---\n"@ + content)
        }),
{
    let a0 = "write success ["@;
    let a1 = a0 + path;
    let a2 = a1 + "] ("@;
    let a3 = a2 + number::dec(bytes);
    let a4 = a3 + " bytes, "@;
    let a5 = a4 + number::dec(lines);
    let a6 = a5 + " lines)\n\n---file content---\n"@;
    let a7 = a6 + content;
    let a8 = a7 + "\n"@;
    assert(action_output::write_success_full_text(path, bytes, lines, content) == a8);
    let piece1 = "write success ["@ + path;
    parts::lemma_whole(piece1);
    parts::lemma_part_of_sum(a1, "] ("@, piece1);
    parts::lemma_part_of_sum(a2, number::dec(bytes), piece1);
    parts::lemma_part_of_sum(a3, " bytes, "@, piece1);
    parts::lemma_part_of_sum(a4, number::dec(lines), piece1);
    parts::lemma_part_of_sum(a5, " lines)\n\n---file content---\n"@, piece1);
    parts::lemma_part_of_sum(a6, content, piece1);
    parts::lemma_part_of_sum(a7, "\n"@, piece1);
    let piece3 = "] ("@ + number::dec(bytes);
    parts::lemma_whole(piece3);
    parts::lemma_assoc(a1, "] ("@, number::dec(bytes));
    parts::lemma_part_of_sum(a1, piece3, piece3);
    parts::lemma_part_of_sum(a3, " bytes, "@, piece3);
    parts::lemma_part_of_sum(a4, number::dec(lines), piece3);
    parts::lemma_part_of_sum(a5, " lines)\n\n---file content---\n"@, piece3);
    parts::lemma_part_of_sum(a6, content, piece3);
    parts::lemma_part_of_sum(a7, "\n"@, piece3);
    let piece5 = " bytes, "@ + number::dec(lines);
    parts::lemma_whole(piece5);
    parts::lemma_assoc(a3, " bytes, "@, number::dec(lines));
    parts::lemma_part_of_sum(a3, piece5, piece5);
    parts::lemma_part_of_sum(a5, " lines)\n\n---file content---\n"@, piece5);
    parts::lemma_part_of_sum(a6, content, piece5);
    parts::lemma_part_of_sum(a7, "\n"@, piece5);
    let piece7 = " lines)\n\n---file content---\n"@ + content;
    parts::lemma_whole(piece7);
    parts::lemma_assoc(a5, " lines)\n\n---file content---\n"@, content);
    parts::lemma_part_of_sum(a5, piece7, piece7);
    parts::lemma_part_of_sum(a7, "\n"@, piece7);
}

/// What [`action_output::write_success_skeleton`] says holds what it is given, each in its place.
pub proof fn law_write_success_skeleton_tells(
    path: Seq<char>,
    bytes: nat,
    lines: nat,
    skeleton: Seq<char>,
)
    ensures
        ({
            let text = action_output::write_success_skeleton_text(path, bytes, lines, skeleton);
            &&& search::has_text(text, "write success ["@ + path)
            &&& search::has_text(text, "] ("@ + number::dec(bytes))
            &&& search::has_text(text, " bytes, "@ + number::dec(lines))
            &&& search::has_text(text, " lines)\n\n--- skeleton (auto-extracted, showing interface & comments only, not full content) ---\n"@ + skeleton)
        }),
{
    let a0 = "write success ["@;
    let a1 = a0 + path;
    let a2 = a1 + "] ("@;
    let a3 = a2 + number::dec(bytes);
    let a4 = a3 + " bytes, "@;
    let a5 = a4 + number::dec(lines);
    let a6 = a5 + " lines)\n\n--- skeleton (auto-extracted, showing interface & comments only, not full content) ---\n"@;
    let a7 = a6 + skeleton;
    let a8 = a7 + "\n"@;
    assert(action_output::write_success_skeleton_text(path, bytes, lines, skeleton) == a8);
    let piece1 = "write success ["@ + path;
    parts::lemma_whole(piece1);
    parts::lemma_part_of_sum(a1, "] ("@, piece1);
    parts::lemma_part_of_sum(a2, number::dec(bytes), piece1);
    parts::lemma_part_of_sum(a3, " bytes, "@, piece1);
    parts::lemma_part_of_sum(a4, number::dec(lines), piece1);
    parts::lemma_part_of_sum(a5, " lines)\n\n--- skeleton (auto-extracted, showing interface & comments only, not full content) ---\n"@, piece1);
    parts::lemma_part_of_sum(a6, skeleton, piece1);
    parts::lemma_part_of_sum(a7, "\n"@, piece1);
    let piece3 = "] ("@ + number::dec(bytes);
    parts::lemma_whole(piece3);
    parts::lemma_assoc(a1, "] ("@, number::dec(bytes));
    parts::lemma_part_of_sum(a1, piece3, piece3);
    parts::lemma_part_of_sum(a3, " bytes, "@, piece3);
    parts::lemma_part_of_sum(a4, number::dec(lines), piece3);
    parts::lemma_part_of_sum(a5, " lines)\n\n--- skeleton (auto-extracted, showing interface & comments only, not full content) ---\n"@, piece3);
    parts::lemma_part_of_sum(a6, skeleton, piece3);
    parts::lemma_part_of_sum(a7, "\n"@, piece3);
    let piece5 = " bytes, "@ + number::dec(lines);
    parts::lemma_whole(piece5);
    parts::lemma_assoc(a3, " bytes, "@, number::dec(lines));
    parts::lemma_part_of_sum(a3, piece5, piece5);
    parts::lemma_part_of_sum(a5, " lines)\n\n--- skeleton (auto-extracted, showing interface & comments only, not full content) ---\n"@, piece5);
    parts::lemma_part_of_sum(a6, skeleton, piece5);
    parts::lemma_part_of_sum(a7, "\n"@, piece5);
    let piece7 = " lines)\n\n--- skeleton (auto-extracted, showing interface & comments only, not full content) ---\n"@ + skeleton;
    parts::lemma_whole(piece7);
    parts::lemma_assoc(a5, " lines)\n\n--- skeleton (auto-extracted, showing interface & comments only, not full content) ---\n"@, skeleton);
    parts::lemma_part_of_sum(a5, piece7, piece7);
    parts::lemma_part_of_sum(a7, "\n"@, piece7);
}

/// What [`action_output::write_success_preview`] says holds what it is given, each in its place.
pub proof fn law_write_success_preview_tells(path: Seq<char>, bytes: nat, lines: nat, preview: Seq<char>)
    ensures
        ({
            let text = action_output::write_success_preview_text(path, bytes, lines, preview);
            &&& search::has_text(text, "write success ["@ + path)
            &&& search::has_text(text, "] ("@ + number::dec(bytes))
            &&& search::has_text(text, " bytes, "@ + number::dec(lines))
            &&& search::has_text(text, " lines)\n\n--- preview (first 10 + last 5 lines, not full content) ---\n"@ + preview)
        }),
{
    let a0 = "write success ["@;
    let a1 = a0 + path;
    let a2 = a1 + "] ("@;
    let a3 = a2 + number::dec(bytes);
    let a4 = a3 + " bytes, "@;
    let a5 = a4 + number::dec(lines);
    let a6 = a5 + " lines)\n\n--- preview (first 10 + last 5 lines, not full content) ---\n"@;
    let a7 = a6 + preview;
    let a8 = a7 + "\n"@;
    assert(action_output::write_success_preview_text(path, bytes, lines, preview) == a8);
    let piece1 = "write success ["@ + path;
    parts::lemma_whole(piece1);
    parts::lemma_part_of_sum(a1, "] ("@, piece1);
    parts::lemma_part_of_sum(a2, number::dec(bytes), piece1);
    parts::lemma_part_of_sum(a3, " bytes, "@, piece1);
    parts::lemma_part_of_sum(a4, number::dec(lines), piece1);
    parts::lemma_part_of_sum(a5, " lines)\n\n--- preview (first 10 + last 5 lines, not full content) ---\n"@, piece1);
    parts::lemma_part_of_sum(a6, preview, piece1);
    parts::lemma_part_of_sum(a7, "\n"@, piece1);
    let piece3 = "] ("@ + number::dec(bytes);
    parts::lemma_whole(piece3);
    parts::lemma_assoc(a1, "] ("@, number::dec(bytes));
    parts::lemma_part_of_sum(a1, piece3, piece3);
    parts::lemma_part_of_sum(a3, " bytes, "@, piece3);
    parts::lemma_part_of_sum(a4, number::dec(lines), piece3);
    parts::lemma_part_of_sum(a5, " lines)\n\n--- preview (first 10 + last 5 lines, not full content) ---\n"@, piece3);
    parts::lemma_part_of_sum(a6, preview, piece3);
    parts::lemma_part_of_sum(a7, "\n"@, piece3);
    let piece5 = " bytes, "@ + number::dec(lines);
    parts::lemma_whole(piece5);
    parts::lemma_assoc(a3, " bytes, "@, number::dec(lines));
    parts::lemma_part_of_sum(a3, piece5, piece5);
    parts::lemma_part_of_sum(a5, " lines)\n\n--- preview (first 10 + last 5 lines, not full content) ---\n"@, piece5);
    parts::lemma_part_of_sum(a6, preview, piece5);
    parts::lemma_part_of_sum(a7, "\n"@, piece5);
    let piece7 = " lines)\n\n--- preview (first 10 + last 5 lines, not full content) ---\n"@ + preview;
    parts::lemma_whole(piece7);
    parts::lemma_assoc(a5, " lines)\n\n--- preview (first 10 + last 5 lines, not full content) ---\n"@, preview);
    parts::lemma_part_of_sum(a5, piece7, piece7);
    parts::lemma_part_of_sum(a7, "\n"@, piece7);
}

/// What [`action_output::replace_match_error`] says holds what it is given, each in its place.
pub proof fn law_replace_match_error_tells(search_preview: Seq<char>, count: nat)
    ensures
        ({
            let text = action_output::replace_match_error_text(search_preview, count);
            &&& search::has_text(text, "  ERROR: '"@ + search_preview)
            &&& search::has_text(text, "...' matched "@ + number::dec(count))
        }),
{
    let a0 = "  ERROR: '"@;
    let a1 = a0 + search_preview;
    let a2 = a1 + "...' matched "@;
    let a3 = a2 + number::dec(count);
    let a4 = a3 + " times (expected 1)"@;
    assert(action_output::replace_match_error_text(search_preview, count) == a4);
    let piece1 = "  ERROR: '"@ + search_preview;
    parts::lemma_whole(piece1);
    parts::lemma_part_of_sum(a1, "...' matched "@, piece1);
    parts::lemma_part_of_sum(a2, number::dec(count), piece1);
    parts::lemma_part_of_sum(a3, " times (expected 1)"@, piece1);
    let piece3 = "...' matched "@ + number::dec(count);
    parts::lemma_whole(piece3);
    parts::lemma_assoc(a1, "...' matched "@, number::dec(count));
    parts::lemma_part_of_sum(a1, piece3, piece3);
    parts::lemma_part_of_sum(a3, " times (expected 1)"@, piece3);
}

/// What [`action_output::replace_block_success`] says holds what it is given, each in its place.
pub proof fn law_replace_block_success_tells(search_preview: Seq<char>)
    ensures
        ({
            let text = action_output::replace_block_success_text(search_preview);
            &&& search::has_text(text, "  replaced '"@ + search_preview)
        }),
{
    let a0 = "  replaced '"@;
    let a1 = a0 + search_preview;
    let a2 = a1 + "...'"@;
    assert(action_output::replace_block_success_text(search_preview) == a2);
    let piece1 = "  replaced '"@ + search_preview;
    parts::lemma_whole(piece1);
    parts::lemma_part_of_sum(a1, "...'"@, piece1);
}

/// What [`action_output::send_failed_unknown_recipient`] says holds what it is given, each in its place.
pub proof fn law_send_failed_unknown_recipient_tells(recipient: Seq<char>)
    ensures
        ({
            let text = action_output::send_failed_unknown_recipient_text(recipient);
            &&& search::has_text(text, "send failed: unknown recipient '"@ + recipient)
        }),
{
    let a0 = "send failed: unknown recipient '"@;
    let a1 = a0 + recipient;
    let a2 = a1 + "'. You can only send messages to your user.\n"@;
    assert(action_output::send_failed_unknown_recipient_text(recipient) == a2);
    let piece1 = "send failed: unknown recipient '"@ + recipient;
    parts::lemma_whole(piece1);
    parts::lemma_part_of_sum(a1, "'. You can only send messages to your user.\n"@, piece1);
}

/// What [`action_output::knowledge_rewritten`] says holds what it is given, each in its place.
pub proof fn law_knowledge_rewritten_tells(chars: nat)
    ensures
        ({
            let text = action_output::knowledge_rewritten_text(chars);
            &&& search::has_text(text, "\nknowledge: rewritten "@ + number::dec(chars))
        }),
{
    let a0 = "\nknowledge: rewritten "@;
    let a1 = a0 + number::dec(chars);
    let a2 = a1 + " chars"@;
    assert(action_output::knowledge_rewritten_text(chars) == a2);
    let piece1 = "\nknowledge: rewritten "@ + number::dec(chars);
    parts::lemma_whole(piece1);
    parts::lemma_part_of_sum(a1, " chars"@, piece1);
}

/// What [`action_output::summary_complete`] says holds what it is given, each in its place.
pub proof fn law_summary_complete_tells(
    msg_count: nat,
    first_msg: Seq<char>,
    last_msg: Seq<char>,
    block_name: Seq<char>,
    knowledge_info: Seq<char>,
)
    ensures
        ({
            let text = action_output::summary_complete_text(msg_count, first_msg, last_msg, block_name, knowledge_info);
            &&& search::has_text(text, "小结完成: "@ + number::dec(msg_count))
            &&& search::has_text(text, "个消息ID("@ + first_msg)
            &&& search::has_text(text, "~"@ + last_msg)
            &&& search::has_text(text, ") → sessions/"@ + block_name)
            &&& search::has_text(text, ".jsonl, current已清空"@ + knowledge_info)
        }),
{
    let a0 = "小结完成: "@;
    let a1 = a0 + number::dec(msg_count);
    let a2 = a1 + "个消息ID("@;
    let a3 = a2 + first_msg;
    let a4 = a3 + "~"@;
    let a5 = a4 + last_msg;
    let a6 = a5 + ") → sessions/"@;
    let a7 = a6 + block_name;
    let a8 = a7 + ".jsonl, current已清空"@;
    let a9 = a8 + knowledge_info;
    let a10 = a9 + "\n"@;
    assert(action_output::summary_complete_text(msg_count, first_msg, last_msg, block_name, knowledge_info) == a10);
    let piece1 = "小结完成: "@ + number::dec(msg_count);
    parts::lemma_whole(piece1);
    parts::lemma_part_of_sum(a1, "个消息ID("@, piece1);
    parts::lemma_part_of_sum(a2, first_msg, piece1);
    parts::lemma_part_of_sum(a3, "~"@, piece1);
    parts::lemma_part_of_sum(a4, last_msg, piece1);
    parts::lemma_part_of_sum(a5, ") → sessions/"@, piece1);
    parts::lemma_part_of_sum(a6, block_name, piece1);
    parts::lemma_part_of_sum(a7, ".jsonl, current已清空"@, piece1);
    parts::lemma_part_of_sum(a8, knowledge_info, piece1);
    parts::lemma_part_of_sum(a9, "\n"@, piece1);
    let piece3 = "个消息ID("@ + first_msg;
    parts::lemma_whole(piece3);
    parts::lemma_assoc(a1, "个消息ID("@, first_msg);
    parts::lemma_part_of_sum(a1, piece3, piece3);
    parts::lemma_part_of_sum(a3, "~"@, piece3);
    parts::lemma_part_of_sum(a4, last_msg, piece3);
    parts::lemma_part_of_sum(a5, ") → sessions/"@, piece3);
    parts::lemma_part_of_sum(a6, block_name, piece3);
    parts::lemma_part_of_sum(a7, ".jsonl, current已清空"@, piece3);
    parts::lemma_part_of_sum(a8, knowledge_info, piece3);
    parts::lemma_part_of_sum(a9, "\n"@, piece3);
    let piece5 = "~"@ + last_msg;
    parts::lemma_whole(piece5);
    parts::lemma_assoc(a3, "~"@, last_msg);
    parts::lemma_part_of_sum(a3, piece5, piece5);
    parts::lemma_part_of_sum(a5, ") → sessions/"@, piece5);
    parts::lemma_part_of_sum(a6, block_name, piece5);
    parts::lemma_part_of_sum(a7, ".jsonl, current已清空"@, piece5);
    parts::lemma_part_of_sum(a8, knowledge_info, piece5);
    parts::lemma_part_of_sum(a9, "\n"@, piece5);
    let piece7 = ") → sessions/"@ + block_name;
    parts::lemma_whole(piece7);
    parts::lemma_assoc(a5, ") → sessions/"@, block_name);
    parts::lemma_part_of_sum(a5, piece7, piece7);
    parts::lemma_part_of_sum(a7, ".jsonl, current已清空"@, piece7);
    parts::lemma_part_of_sum(a8, knowledge_info, piece7);
    parts::lemma_part_of_sum(a9, "\n"@, piece7);
    let piece9 = ".jsonl, current已清空"@ + knowledge_info;
    parts::lemma_whole(piece9);
    parts::lemma_assoc(a7, ".jsonl, current已清空"@, knowledge_info);
    parts::lemma_part_of_sum(a7, piece9, piece9);
    parts::lemma_part_of_sum(a9, "\n"@, piece9);
}

/// What [`action_output::action_block_start`] says holds what it is given, each in its place.
pub proof fn law_action_block_start_tells(action_id: Seq<char>)
    ensures
        ({
            let text = action_output::action_block_start_text(action_id);
            &&& search::has_text(text, "---------行为编号["@ + action_id)
        }),
{
    let a0 = "---------行为编号["@;
    let a1 = a0 + action_id;
    let a2 = a1 + "]开始---------"@;
    assert(action_output::action_block_start_text(action_id) == a2);
    let piece1 = "---------行为编号["@ + action_id;
    parts::lemma_whole(piece1);
    parts::lemma_part_of_sum(a1, "]开始---------"@, piece1);
}

/// What [`action_output::action_block_end`] says holds what it is given, each in its place.
pub proof fn law_action_block_end_tells(action_id: Seq<char>)
    ensures
        ({
            let text = action_output::action_block_end_text(action_id);
            &&& search::has_text(text, "---------行为编号["@ + action_id)
        }),
{
    let a0 = "---------行为编号["@;
    let a1 = a0 + action_id;
    let a2 = a1 + "]结束---------"@;
    assert(action_output::action_block_end_text(action_id) == a2);
    let piece1 = "---------行为编号["@ + action_id;
    parts::lemma_whole(piece1);
    parts::lemma_part_of_sum(a1, "]结束---------"@, piece1);
}

/// What [`action_output::profile_unknown_key`] says holds what it is given, each in its place.
pub proof fn law_profile_unknown_key_tells(key: Seq<char>)
    ensures
        ({
            let text = action_output::profile_unknown_key_text(key);
            &&& search::has_text(text, "set_profile failed: unknown key '"@ + key)
        }),
{
    let a0 = "set_profile failed: unknown key '"@;
    let a1 = a0 + key;
    let a2 = a1 + "'\n"@;
    assert(action_output::profile_unknown_key_text(key) == a2);
    let piece1 = "set_profile failed: unknown key '"@ + key;
    parts::lemma_whole(piece1);
    parts::lemma_part_of_sum(a1, "'\n"@, piece1);
}

/// What [`action_output::profile_updated`] says holds what it is given, each in its place.
pub proof fn law_profile_updated_tells(detail: Seq<char>)
    ensures
        ({
            let text = action_output::profile_updated_text(detail);
            &&& search::has_text(text, "profile updated: "@ + detail)
        }),
{
    let a0 = "profile updated: "@;
    let a1 = a0 + detail;
    let a2 = a1 + "\n"@;
    assert(action_output::profile_updated_text(detail) == a2);
    let piece1 = "profile updated: "@ + detail;
    parts::lemma_whole(piece1);
    parts::lemma_part_of_sum(a1, "\n"@, piece1);
}

/// What [`action_output::instance_created`] says holds what it is given, each in its place.
pub proof fn law_instance_created_tells(id: Seq<char>, name: Seq<char>, knowledge_bytes: nat)
    ensures
        ({
            let text = action_output::instance_created_text(id, name, knowledge_bytes);
            &&& search::has_text(text, "instance created: "@ + id)
            &&& search::has_text(text, " (name: "@ + name)
            &&& search::has_text(text, "), knowledge: "@ + number::dec(knowledge_bytes))
        }),
{
    let a0 = "instance created: "@;
    let a1 = a0 + id;
    let a2 = a1 + " (name: "@;
    let a3 = a2 + name;
    let a4 = a3 + "), knowledge: "@;
    let a5 = a4 + number::dec(knowledge_bytes);
    let a6 = a5 + " bytes written\nEngine hot-scan will start it automatically.\n"@;
    assert(action_output::instance_created_text(id, name, knowledge_bytes) == a6);
    let piece1 = "instance created: "@ + id;
    parts::lemma_whole(piece1);
    parts::lemma_part_of_sum(a1, " (name: "@, piece1);
    parts::lemma_part_of_sum(a2, name, piece1);
    parts::lemma_part_of_sum(a3, "), knowledge: "@, piece1);
    parts::lemma_part_of_sum(a4, number::dec(knowledge_bytes), piece1);
    parts::lemma_part_of_sum(a5, " bytes written\nEngine hot-scan will start it automatically.\n"@, piece1);
    let piece3 = " (name: "@ + name;
    parts::lemma_whole(piece3);
    parts::lemma_assoc(a1, " (name: "@, name);
    parts::lemma_part_of_sum(a1, piece3, piece3);
    parts::lemma_part_of_sum(a3, "), knowledge: "@, piece3);
    parts::lemma_part_of_sum(a4, number::dec(knowledge_bytes), piece3);
    parts::lemma_part_of_sum(a5, " bytes written\nEngine hot-scan will start it automatically.\n"@, piece3);
    let piece5 = "), knowledge: "@ + number::dec(knowledge_bytes);
    parts::lemma_whole(piece5);
    parts::lemma_assoc(a3, "), knowledge: "@, number::dec(knowledge_bytes));
    parts::lemma_part_of_sum(a3, piece5, piece5);
    parts::lemma_part_of_sum(a5, " bytes written\nEngine hot-scan will start it automatically.\n"@, piece5);
}

/// What [`action_output::script_result`] says holds what it is given, each in its place.
pub proof fn law_script_result_tells(
    duration: Seq<char>,
    output: Seq<char>,
    exit_code: Option<i32>,
)
    ensures
        ({
            let text = action_output::script_result_text(duration, output, exit_code);
            &&& search::has_text(text, "---exec result ("@ + duration)
            &&& search::has_text(text, ")---\n"@ + output)
            &&& search::has_text(text, action_output::exit_info_text(exit_code))
        }),
{
    let a0 = "---exec result ("@;
    let a1 = a0 + duration;
    let a2 = a1 + ")---\n"@;
    let a3 = a2 + output;
    let a4 = a3 + action_output::exit_info_text(exit_code);
    let a5 = a4 + "\n"@;
    assert(action_output::script_result_text(duration, output, exit_code) == a5);
    let piece1 = "---exec result ("@ + duration;
    parts::lemma_whole(piece1);
    parts::lemma_part_of_sum(a1, ")---\n"@, piece1);
    parts::lemma_part_of_sum(a2, output, piece1);
    parts::lemma_part_of_sum(a3, action_output::exit_info_text(exit_code), piece1);
    parts::lemma_part_of_sum(a4, "\n"@, piece1);
    let piece3 = ")---\n"@ + output;
    parts::lemma_whole(piece3);
    parts::lemma_assoc(a1, ")---\n"@, output);
    parts::lemma_part_of_sum(a1, piece3, piece3);
    parts::lemma_part_of_sum(a3, action_output::exit_info_text(exit_code), piece3);
    parts::lemma_part_of_sum(a4, "\n"@, piece3);
    let piece4 = action_output::exit_info_text(exit_code);
    parts::lemma_whole(piece4);
    parts::lemma_part_of_sum(a3, action_output::exit_info_text(exit_code), piece4);
    parts::lemma_part_of_sum(a4, "\n"@, piece4);
}

/// What [`action_output::preview_line`] says holds what it is given, each in its place.
pub proof fn law_preview_line_tells(line_number: nat, content: Seq<char>)
    ensures
        ({
            let text = action_output::preview_line_text(line_number, content);
            &&& search::has_prefix(text, number::flush_right(number::dec(line_number), 4) + ": "@)
            &&& search::has_text(text, ": "@ + content)
        }),
{
    let a0 = number::flush_right(number::dec(line_number), 4);
    let a1 = a0 + ": "@;
    let a2 = a1 + content;
    assert(action_output::preview_line_text(line_number, content) == a2);
    let piece0 = a1;
    parts::lemma_whole(piece0);
    assert(a2.subrange(0, piece0.len() as int) =~= piece0);
    let piece2 = ": "@ + content;
    parts::lemma_whole(piece2);
    parts::lemma_assoc(a0, ": "@, content);
    parts::lemma_part_of_sum(a0, piece2, piece2);
}

/// What [`action_output::replace_result`] says holds what it is given, each in its place.
pub proof fn law_replace_result_tells(total_replaced: nat, details: Seq<Seq<char>>)
    ensures
        ({
            let text = action_output::replace_result_text(total_replaced, details);
            &&& search::has_text(text, "replaced "@ + number::dec(total_replaced))
            &&& search::has_text(text, "\n"@ + search::join_text(details, "\n"@))
        }),
{
    let a0 = "replaced "@;
    let a1 = a0 + number::dec(total_replaced);
    let a2 = a1 + " block(s) successfully"@;
    let a3 = a2 + "\n"@;
    let a4 = a3 + search::join_text(details, "\n"@);
    let a5 = a4 + "\n"@;
    assert(action_output::replace_result_text(total_replaced, details) == a5);
    let piece1 = "replaced "@ + number::dec(total_replaced);
    parts::lemma_whole(piece1);
    parts::lemma_part_of_sum(a1, " block(s) successfully"@, piece1);
    parts::lemma_part_of_sum(a2, "\n"@, piece1);
    parts::lemma_part_of_sum(a3, search::join_text(details, "\n"@), piece1);
    parts::lemma_part_of_sum(a4, "\n"@, piece1);
    let piece4 = "\n"@ + search::join_text(details, "\n"@);
    parts::lemma_whole(piece4);
    parts::lemma_assoc(a2, "\n"@, search::join_text(details, "\n"@));
    parts::lemma_part_of_sum(a2, piece4, piece4);
    parts::lemma_part_of_sum(a4, "\n"@, piece4);
}

/// What [`action_output::read_msg_entry`] says holds what it is given, each in its place.
pub proof fn law_read_msg_entry_tells(sender: Seq<char>, timestamp: Seq<char>, content: Seq<char>)
    ensures
        ({
            let text = action_output::read_msg_entry_text(sender, timestamp, content);
            &&& search::has_prefix(text, sender + " [MSG:"@)
            &&& search::has_text(text, " [MSG:"@ + timestamp)
            &&& search::has_text(text, "\n\n"@ + content)
        }),
{
    let a0 = sender;
    let a1 = a0 + " [MSG:"@;
    let a2 = a1 + timestamp;
    let a3 = a2 + "]"@;
    let a4 = a3 + action_output::MSG_READ_CONTEXT@;
    let a5 = a4 + "\n\n"@;
    let a6 = a5 + content;
    let a7 = a6 + "\n"@;
    assert(action_output::read_msg_entry_text(sender, timestamp, content) == a7);
    let piece0 = a1;
    parts::lemma_whole(piece0);
    assert(a7.subrange(0, piece0.len() as int) =~= piece0);
    let piece2 = " [MSG:"@ + timestamp;
    parts::lemma_whole(piece2);
    parts::lemma_assoc(a0, " [MSG:"@, timestamp);
    parts::lemma_part_of_sum(a0, piece2, piece2);
    parts::lemma_part_of_sum(a2, "]"@, piece2);
    parts::lemma_part_of_sum(a3, action_output::MSG_READ_CONTEXT@, piece2);
    parts::lemma_part_of_sum(a4, "\n\n"@, piece2);
    parts::lemma_part_of_sum(a5, content, piece2);
    parts::lemma_part_of_sum(a6, "\n"@, piece2);
    let piece6 = "\n\n"@ + content;
    parts::lemma_whole(piece6);
    parts::lemma_assoc(a4, "\n\n"@, content);
    parts::lemma_part_of_sum(a4, piece6, piece6);
    parts::lemma_part_of_sum(a6, "\n"@, piece6);
}

/// What [`action_output::send_success`] says holds what it is given, each in its place.
pub proof fn law_send_success_tells(timestamp: Seq<char>)
    ensures
        ({
            let text = action_output::send_success_text(timestamp);
            &&& search::has_text(text, "[MSG:"@ + timestamp)
        }),
{
    let a0 = action_output::MSG_SEND_CONTEXT@;
    let a1 = a0 + "[MSG:"@;
    let a2 = a1 + timestamp;
    let a3 = a2 + "]\n"@;
    assert(action_output::send_success_text(timestamp) == a3);
    let piece2 = "[MSG:"@ + timestamp;
    parts::lemma_whole(piece2);
    parts::lemma_assoc(a0, "[MSG:"@, timestamp);
    parts::lemma_part_of_sum(a0, piece2, piece2);
    parts::lemma_part_of_sum(a2, "]\n"@, piece2);
}

/// What [`action_output::forgotten_block`] says holds what it is given, each in its place.
pub proof fn law_forgotten_block_tells(action_id: Seq<char>, summary: Seq<char>)
    ensures
        ({
            let text = action_output::forgotten_block_text(action_id, summary);
            &&& search::has_prefix(text, action_output::action_block_start_text(action_id) + "\n[已提炼] "@)
            &&& search::has_text(text, "\n[已提炼] "@ + space::trimmed(summary))
            &&& search::has_text(text, "\n"@ + action_output::action_block_end_text(action_id))
        }),
{
    let a0 = action_output::action_block_start_text(action_id);
    let a1 = a0 + "\n[已提炼] "@;
    let a2 = a1 + space::trimmed(summary);
    let a3 = a2 + "\n"@;
    let a4 = a3 + action_output::action_block_end_text(action_id);
    let a5 = a4 + "\n"@;
    assert(action_output::forgotten_block_text(action_id, summary) == a5);
    let piece0 = a1;
    parts::lemma_whole(piece0);
    assert(a5.subrange(0, piece0.len() as int) =~= piece0);
    let piece2 = "\n[已提炼] "@ + space::trimmed(summary);
    parts::lemma_whole(piece2);
    parts::lemma_assoc(a0, "\n[已提炼] "@, space::trimmed(summary));
    parts::lemma_part_of_sum(a0, piece2, piece2);
    parts::lemma_part_of_sum(a2, "\n"@, piece2);
    parts::lemma_part_of_sum(a3, action_output::action_block_end_text(action_id), piece2);
    parts::lemma_part_of_sum(a4, "\n"@, piece2);
    let piece4 = "\n"@ + action_output::action_block_end_text(action_id);
    parts::lemma_whole(piece4);
    parts::lemma_assoc(a2, "\n"@, action_output::action_block_end_text(action_id));
    parts::lemma_part_of_sum(a2, piece4, piece4);
    parts::lemma_part_of_sum(a4, "\n"@, piece4);
}

/// What [`action_output::action_error`] says holds what it is given, each in its place.
pub proof fn law_action_error_tells(error: Seq<char>)
    ensures
        ({
            let text = action_output::action_error_text(error);
            &&& search::has_text(text, "Action error: "@ + error)
        }),
{
    let a0 = "Action error: "@;
    let a1 = a0 + error;
    assert(action_output::action_error_text(error) == a1);
    let piece1 = "Action error: "@ + error;
    parts::lemma_whole(piece1);
}

/// What [`action_output::hallucination_defense_interrupted`] says holds what it is given, each in its place.
pub proof fn law_hallucination_defense_interrupted_tells(reason: Seq<char>)
    ensures
        ({
            let text = action_output::hallucination_defense_interrupted_text(reason);
            &&& search::has_text(text, "Hallucination defense: inference interrupted. "@ + reason)
        }),
{
    let a0 = "Hallucination defense: inference interrupted. "@;
    let a1 = a0 + reason;
    assert(action_output::hallucination_defense_interrupted_text(reason) == a1);
    let piece1 = "Hallucination defense: inference interrupted. "@ + reason;
    parts::lemma_whole(piece1);
}

} // verus!
