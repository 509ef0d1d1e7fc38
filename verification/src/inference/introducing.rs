//! How a model is told what it may answer, each action by the mark it starts with.
use vstd::prelude::*;

use crate::inference::capture;
use crate::inference::markdown;
use crate::inference::schema;
use crate::text::parts;
use crate::text::search;

verus! {

/// How an action starts.
pub open spec fn variant_intro(name: Seq<char>, token: Seq<char>) -> Seq<char> {
    markdown::element_mark("Action"@, token) + "\n"@ + name + "\n"@
}

/// How a part of an action starts.
pub open spec fn field_intro(name: Seq<char>, token: Seq<char>) -> Seq<char> {
    markdown::element_mark(name, token) + "\n// "@
}

proof fn lemma_variant(doc: Seq<char>, name: Seq<char>, token: Seq<char>)
    ensures
        search::has_text(schema::variant_schema(doc, name, token), variant_intro(name, token)),
{
    let mark = markdown::element_mark("Action"@, token);
    let front = "// "@ + doc + "\n"@;
    parts::lemma_assoc(front, mark, "\n"@);
    parts::lemma_assoc(front, mark + "\n"@, name);
    parts::lemma_assoc(front, mark + "\n"@ + name, "\n"@);
    parts::lemma_whole(variant_intro(name, token));
    parts::lemma_part_of_sum(front, variant_intro(name, token), variant_intro(name, token));
}

proof fn lemma_field(name: Seq<char>, doc: Seq<char>, token: Seq<char>)
    ensures
        search::has_text(schema::field_schema(name, doc, token), field_intro(name, token)),
{
    parts::lemma_whole(field_intro(name, token));
    parts::lemma_part_of_sum(field_intro(name, token), doc, field_intro(name, token));
    parts::lemma_part_of_sum(field_intro(name, token) + doc, "\n"@, field_intro(name, token));
}

proof fn lemma_idle_schema(token: Seq<char>)
    ensures
        search::has_text(schema::idle_schema(token), variant_intro("idle"@, token)),
        search::has_text(schema::idle_schema(token), field_intro("timeout_secs"@, token)),
{
    let b0 = schema::variant_schema(schema::IDLE_DOC@, "idle"@, token);
    let b1 = b0 + schema::field_schema("timeout_secs"@, "秒数（如120，表示等待120秒后自动醒来）（可选）"@, token);
    let b2 = b1 + "\n"@;
    lemma_variant(schema::IDLE_DOC@, "idle"@, token);
    parts::lemma_part_of_sum(b0, schema::field_schema("timeout_secs"@, "秒数（如120，表示等待120秒后自动醒来）（可选）"@, token), variant_intro("idle"@, token));
    parts::lemma_part_of_sum(b1, "\n"@, variant_intro("idle"@, token));
    lemma_field("timeout_secs"@, "秒数（如120，表示等待120秒后自动醒来）（可选）"@, token);
    parts::lemma_part_of_sum(b0, schema::field_schema("timeout_secs"@, "秒数（如120，表示等待120秒后自动醒来）（可选）"@, token), field_intro("timeout_secs"@, token));
    parts::lemma_part_of_sum(b1, "\n"@, field_intro("timeout_secs"@, token));
}

/// The format of an answer names `idle` and what goes into it.
pub proof fn law_idle_is_introduced(token: Seq<char>)
    ensures
        search::has_text(schema::schema_text(token), variant_intro("idle"@, token)),
        search::has_text(schema::schema_text(token), field_intro("timeout_secs"@, token)),
{
    lemma_idle_schema(token);
    let a0 = schema::idle_schema(token);
    let a1 = a0 + schema::read_msg_schema(token);
    let a2 = a1 + schema::send_msg_schema(token);
    let a3 = a2 + schema::thinking_schema(token);
    let a4 = a3 + schema::script_schema(token);
    let a5 = a4 + schema::write_file_schema(token);
    let a6 = a5 + schema::replace_in_file_schema(token);
    let a7 = a6 + schema::summary_schema(token);
    let a8 = a7 + schema::set_profile_schema(token);
    let a9 = a8 + schema::create_instance_schema(token);
    let a10 = a9 + schema::distill_schema(token);
    let a11 = a10 + "最后输出: "@;
    let a12 = a11 + markdown::end_mark("Action"@, token);
    let a13 = a12 + "\n"@;
    parts::lemma_part_of_sum(a0, schema::read_msg_schema(token), variant_intro("idle"@, token));
    parts::lemma_part_of_sum(a1, schema::send_msg_schema(token), variant_intro("idle"@, token));
    parts::lemma_part_of_sum(a2, schema::thinking_schema(token), variant_intro("idle"@, token));
    parts::lemma_part_of_sum(a3, schema::script_schema(token), variant_intro("idle"@, token));
    parts::lemma_part_of_sum(a4, schema::write_file_schema(token), variant_intro("idle"@, token));
    parts::lemma_part_of_sum(a5, schema::replace_in_file_schema(token), variant_intro("idle"@, token));
    parts::lemma_part_of_sum(a6, schema::summary_schema(token), variant_intro("idle"@, token));
    parts::lemma_part_of_sum(a7, schema::set_profile_schema(token), variant_intro("idle"@, token));
    parts::lemma_part_of_sum(a8, schema::create_instance_schema(token), variant_intro("idle"@, token));
    parts::lemma_part_of_sum(a9, schema::distill_schema(token), variant_intro("idle"@, token));
    parts::lemma_part_of_sum(a10, "最后输出: "@, variant_intro("idle"@, token));
    parts::lemma_part_of_sum(a11, markdown::end_mark("Action"@, token), variant_intro("idle"@, token));
    parts::lemma_part_of_sum(a12, "\n"@, variant_intro("idle"@, token));
    parts::lemma_part_of_sum(a0, schema::read_msg_schema(token), field_intro("timeout_secs"@, token));
    parts::lemma_part_of_sum(a1, schema::send_msg_schema(token), field_intro("timeout_secs"@, token));
    parts::lemma_part_of_sum(a2, schema::thinking_schema(token), field_intro("timeout_secs"@, token));
    parts::lemma_part_of_sum(a3, schema::script_schema(token), field_intro("timeout_secs"@, token));
    parts::lemma_part_of_sum(a4, schema::write_file_schema(token), field_intro("timeout_secs"@, token));
    parts::lemma_part_of_sum(a5, schema::replace_in_file_schema(token), field_intro("timeout_secs"@, token));
    parts::lemma_part_of_sum(a6, schema::summary_schema(token), field_intro("timeout_secs"@, token));
    parts::lemma_part_of_sum(a7, schema::set_profile_schema(token), field_intro("timeout_secs"@, token));
    parts::lemma_part_of_sum(a8, schema::create_instance_schema(token), field_intro("timeout_secs"@, token));
    parts::lemma_part_of_sum(a9, schema::distill_schema(token), field_intro("timeout_secs"@, token));
    parts::lemma_part_of_sum(a10, "最后输出: "@, field_intro("timeout_secs"@, token));
    parts::lemma_part_of_sum(a11, markdown::end_mark("Action"@, token), field_intro("timeout_secs"@, token));
    parts::lemma_part_of_sum(a12, "\n"@, field_intro("timeout_secs"@, token));
}

proof fn lemma_read_msg_schema(token: Seq<char>)
    ensures
        search::has_text(schema::read_msg_schema(token), variant_intro("read_msg"@, token)),
{
    let b0 = schema::variant_schema(schema::READ_MSG_DOC@, "read_msg"@, token);
    let b1 = b0 + "\n"@;
    lemma_variant(schema::READ_MSG_DOC@, "read_msg"@, token);
    parts::lemma_part_of_sum(b0, "\n"@, variant_intro("read_msg"@, token));
}

/// The format of an answer names `read_msg`.
pub proof fn law_read_msg_is_introduced(token: Seq<char>)
    ensures
        search::has_text(schema::schema_text(token), variant_intro("read_msg"@, token)),
{
    lemma_read_msg_schema(token);
    let a0 = schema::idle_schema(token);
    let a1 = a0 + schema::read_msg_schema(token);
    let a2 = a1 + schema::send_msg_schema(token);
    let a3 = a2 + schema::thinking_schema(token);
    let a4 = a3 + schema::script_schema(token);
    let a5 = a4 + schema::write_file_schema(token);
    let a6 = a5 + schema::replace_in_file_schema(token);
    let a7 = a6 + schema::summary_schema(token);
    let a8 = a7 + schema::set_profile_schema(token);
    let a9 = a8 + schema::create_instance_schema(token);
    let a10 = a9 + schema::distill_schema(token);
    let a11 = a10 + "最后输出: "@;
    let a12 = a11 + markdown::end_mark("Action"@, token);
    let a13 = a12 + "\n"@;
    parts::lemma_part_of_sum(a0, schema::read_msg_schema(token), variant_intro("read_msg"@, token));
    parts::lemma_part_of_sum(a1, schema::send_msg_schema(token), variant_intro("read_msg"@, token));
    parts::lemma_part_of_sum(a2, schema::thinking_schema(token), variant_intro("read_msg"@, token));
    parts::lemma_part_of_sum(a3, schema::script_schema(token), variant_intro("read_msg"@, token));
    parts::lemma_part_of_sum(a4, schema::write_file_schema(token), variant_intro("read_msg"@, token));
    parts::lemma_part_of_sum(a5, schema::replace_in_file_schema(token), variant_intro("read_msg"@, token));
    parts::lemma_part_of_sum(a6, schema::summary_schema(token), variant_intro("read_msg"@, token));
    parts::lemma_part_of_sum(a7, schema::set_profile_schema(token), variant_intro("read_msg"@, token));
    parts::lemma_part_of_sum(a8, schema::create_instance_schema(token), variant_intro("read_msg"@, token));
    parts::lemma_part_of_sum(a9, schema::distill_schema(token), variant_intro("read_msg"@, token));
    parts::lemma_part_of_sum(a10, "最后输出: "@, variant_intro("read_msg"@, token));
    parts::lemma_part_of_sum(a11, markdown::end_mark("Action"@, token), variant_intro("read_msg"@, token));
    parts::lemma_part_of_sum(a12, "\n"@, variant_intro("read_msg"@, token));
}

proof fn lemma_send_msg_schema(token: Seq<char>)
    ensures
        search::has_text(schema::send_msg_schema(token), variant_intro("send_msg"@, token)),
        search::has_text(schema::send_msg_schema(token), field_intro("recipient"@, token)),
        search::has_text(schema::send_msg_schema(token), field_intro("content"@, token)),
{
    let b0 = schema::variant_schema(schema::SEND_MSG_DOC@, "send_msg"@, token);
    let b1 = b0 + schema::field_schema("recipient"@, "收件人"@, token);
    let b2 = b1 + schema::field_schema("content"@, "信件内容"@, token);
    let b3 = b2 + "\n"@;
    lemma_variant(schema::SEND_MSG_DOC@, "send_msg"@, token);
    parts::lemma_part_of_sum(b0, schema::field_schema("recipient"@, "收件人"@, token), variant_intro("send_msg"@, token));
    parts::lemma_part_of_sum(b1, schema::field_schema("content"@, "信件内容"@, token), variant_intro("send_msg"@, token));
    parts::lemma_part_of_sum(b2, "\n"@, variant_intro("send_msg"@, token));
    lemma_field("recipient"@, "收件人"@, token);
    parts::lemma_part_of_sum(b0, schema::field_schema("recipient"@, "收件人"@, token), field_intro("recipient"@, token));
    parts::lemma_part_of_sum(b1, schema::field_schema("content"@, "信件内容"@, token), field_intro("recipient"@, token));
    parts::lemma_part_of_sum(b2, "\n"@, field_intro("recipient"@, token));
    lemma_field("content"@, "信件内容"@, token);
    parts::lemma_part_of_sum(b1, schema::field_schema("content"@, "信件内容"@, token), field_intro("content"@, token));
    parts::lemma_part_of_sum(b2, "\n"@, field_intro("content"@, token));
}

/// The format of an answer names `send_msg` and what goes into it.
pub proof fn law_send_msg_is_introduced(token: Seq<char>)
    ensures
        search::has_text(schema::schema_text(token), variant_intro("send_msg"@, token)),
        search::has_text(schema::schema_text(token), field_intro("recipient"@, token)),
        search::has_text(schema::schema_text(token), field_intro("content"@, token)),
{
    lemma_send_msg_schema(token);
    let a0 = schema::idle_schema(token);
    let a1 = a0 + schema::read_msg_schema(token);
    let a2 = a1 + schema::send_msg_schema(token);
    let a3 = a2 + schema::thinking_schema(token);
    let a4 = a3 + schema::script_schema(token);
    let a5 = a4 + schema::write_file_schema(token);
    let a6 = a5 + schema::replace_in_file_schema(token);
    let a7 = a6 + schema::summary_schema(token);
    let a8 = a7 + schema::set_profile_schema(token);
    let a9 = a8 + schema::create_instance_schema(token);
    let a10 = a9 + schema::distill_schema(token);
    let a11 = a10 + "最后输出: "@;
    let a12 = a11 + markdown::end_mark("Action"@, token);
    let a13 = a12 + "\n"@;
    parts::lemma_part_of_sum(a1, schema::send_msg_schema(token), variant_intro("send_msg"@, token));
    parts::lemma_part_of_sum(a2, schema::thinking_schema(token), variant_intro("send_msg"@, token));
    parts::lemma_part_of_sum(a3, schema::script_schema(token), variant_intro("send_msg"@, token));
    parts::lemma_part_of_sum(a4, schema::write_file_schema(token), variant_intro("send_msg"@, token));
    parts::lemma_part_of_sum(a5, schema::replace_in_file_schema(token), variant_intro("send_msg"@, token));
    parts::lemma_part_of_sum(a6, schema::summary_schema(token), variant_intro("send_msg"@, token));
    parts::lemma_part_of_sum(a7, schema::set_profile_schema(token), variant_intro("send_msg"@, token));
    parts::lemma_part_of_sum(a8, schema::create_instance_schema(token), variant_intro("send_msg"@, token));
    parts::lemma_part_of_sum(a9, schema::distill_schema(token), variant_intro("send_msg"@, token));
    parts::lemma_part_of_sum(a10, "最后输出: "@, variant_intro("send_msg"@, token));
    parts::lemma_part_of_sum(a11, markdown::end_mark("Action"@, token), variant_intro("send_msg"@, token));
    parts::lemma_part_of_sum(a12, "\n"@, variant_intro("send_msg"@, token));
    parts::lemma_part_of_sum(a1, schema::send_msg_schema(token), field_intro("recipient"@, token));
    parts::lemma_part_of_sum(a2, schema::thinking_schema(token), field_intro("recipient"@, token));
    parts::lemma_part_of_sum(a3, schema::script_schema(token), field_intro("recipient"@, token));
    parts::lemma_part_of_sum(a4, schema::write_file_schema(token), field_intro("recipient"@, token));
    parts::lemma_part_of_sum(a5, schema::replace_in_file_schema(token), field_intro("recipient"@, token));
    parts::lemma_part_of_sum(a6, schema::summary_schema(token), field_intro("recipient"@, token));
    parts::lemma_part_of_sum(a7, schema::set_profile_schema(token), field_intro("recipient"@, token));
    parts::lemma_part_of_sum(a8, schema::create_instance_schema(token), field_intro("recipient"@, token));
    parts::lemma_part_of_sum(a9, schema::distill_schema(token), field_intro("recipient"@, token));
    parts::lemma_part_of_sum(a10, "最后输出: "@, field_intro("recipient"@, token));
    parts::lemma_part_of_sum(a11, markdown::end_mark("Action"@, token), field_intro("recipient"@, token));
    parts::lemma_part_of_sum(a12, "\n"@, field_intro("recipient"@, token));
    parts::lemma_part_of_sum(a1, schema::send_msg_schema(token), field_intro("content"@, token));
    parts::lemma_part_of_sum(a2, schema::thinking_schema(token), field_intro("content"@, token));
    parts::lemma_part_of_sum(a3, schema::script_schema(token), field_intro("content"@, token));
    parts::lemma_part_of_sum(a4, schema::write_file_schema(token), field_intro("content"@, token));
    parts::lemma_part_of_sum(a5, schema::replace_in_file_schema(token), field_intro("content"@, token));
    parts::lemma_part_of_sum(a6, schema::summary_schema(token), field_intro("content"@, token));
    parts::lemma_part_of_sum(a7, schema::set_profile_schema(token), field_intro("content"@, token));
    parts::lemma_part_of_sum(a8, schema::create_instance_schema(token), field_intro("content"@, token));
    parts::lemma_part_of_sum(a9, schema::distill_schema(token), field_intro("content"@, token));
    parts::lemma_part_of_sum(a10, "最后输出: "@, field_intro("content"@, token));
    parts::lemma_part_of_sum(a11, markdown::end_mark("Action"@, token), field_intro("content"@, token));
    parts::lemma_part_of_sum(a12, "\n"@, field_intro("content"@, token));
}

proof fn lemma_thinking_schema(token: Seq<char>)
    ensures
        search::has_text(schema::thinking_schema(token), variant_intro("thinking"@, token)),
        search::has_text(schema::thinking_schema(token), field_intro("content"@, token)),
{
    let b0 = schema::variant_schema(schema::THINKING_DOC@, "thinking"@, token);
    let b1 = b0 + schema::field_schema("content"@, "thinking内容"@, token);
    let b2 = b1 + "\n"@;
    lemma_variant(schema::THINKING_DOC@, "thinking"@, token);
    parts::lemma_part_of_sum(b0, schema::field_schema("content"@, "thinking内容"@, token), variant_intro("thinking"@, token));
    parts::lemma_part_of_sum(b1, "\n"@, variant_intro("thinking"@, token));
    lemma_field("content"@, "thinking内容"@, token);
    parts::lemma_part_of_sum(b0, schema::field_schema("content"@, "thinking内容"@, token), field_intro("content"@, token));
    parts::lemma_part_of_sum(b1, "\n"@, field_intro("content"@, token));
}

/// The format of an answer names `thinking` and what goes into it.
pub proof fn law_thinking_is_introduced(token: Seq<char>)
    ensures
        search::has_text(schema::schema_text(token), variant_intro("thinking"@, token)),
        search::has_text(schema::schema_text(token), field_intro("content"@, token)),
{
    lemma_thinking_schema(token);
    let a0 = schema::idle_schema(token);
    let a1 = a0 + schema::read_msg_schema(token);
    let a2 = a1 + schema::send_msg_schema(token);
    let a3 = a2 + schema::thinking_schema(token);
    let a4 = a3 + schema::script_schema(token);
    let a5 = a4 + schema::write_file_schema(token);
    let a6 = a5 + schema::replace_in_file_schema(token);
    let a7 = a6 + schema::summary_schema(token);
    let a8 = a7 + schema::set_profile_schema(token);
    let a9 = a8 + schema::create_instance_schema(token);
    let a10 = a9 + schema::distill_schema(token);
    let a11 = a10 + "最后输出: "@;
    let a12 = a11 + markdown::end_mark("Action"@, token);
    let a13 = a12 + "\n"@;
    parts::lemma_part_of_sum(a2, schema::thinking_schema(token), variant_intro("thinking"@, token));
    parts::lemma_part_of_sum(a3, schema::script_schema(token), variant_intro("thinking"@, token));
    parts::lemma_part_of_sum(a4, schema::write_file_schema(token), variant_intro("thinking"@, token));
    parts::lemma_part_of_sum(a5, schema::replace_in_file_schema(token), variant_intro("thinking"@, token));
    parts::lemma_part_of_sum(a6, schema::summary_schema(token), variant_intro("thinking"@, token));
    parts::lemma_part_of_sum(a7, schema::set_profile_schema(token), variant_intro("thinking"@, token));
    parts::lemma_part_of_sum(a8, schema::create_instance_schema(token), variant_intro("thinking"@, token));
    parts::lemma_part_of_sum(a9, schema::distill_schema(token), variant_intro("thinking"@, token));
    parts::lemma_part_of_sum(a10, "最后输出: "@, variant_intro("thinking"@, token));
    parts::lemma_part_of_sum(a11, markdown::end_mark("Action"@, token), variant_intro("thinking"@, token));
    parts::lemma_part_of_sum(a12, "\n"@, variant_intro("thinking"@, token));
    parts::lemma_part_of_sum(a2, schema::thinking_schema(token), field_intro("content"@, token));
    parts::lemma_part_of_sum(a3, schema::script_schema(token), field_intro("content"@, token));
    parts::lemma_part_of_sum(a4, schema::write_file_schema(token), field_intro("content"@, token));
    parts::lemma_part_of_sum(a5, schema::replace_in_file_schema(token), field_intro("content"@, token));
    parts::lemma_part_of_sum(a6, schema::summary_schema(token), field_intro("content"@, token));
    parts::lemma_part_of_sum(a7, schema::set_profile_schema(token), field_intro("content"@, token));
    parts::lemma_part_of_sum(a8, schema::create_instance_schema(token), field_intro("content"@, token));
    parts::lemma_part_of_sum(a9, schema::distill_schema(token), field_intro("content"@, token));
    parts::lemma_part_of_sum(a10, "最后输出: "@, field_intro("content"@, token));
    parts::lemma_part_of_sum(a11, markdown::end_mark("Action"@, token), field_intro("content"@, token));
    parts::lemma_part_of_sum(a12, "\n"@, field_intro("content"@, token));
}

proof fn lemma_script_schema(token: Seq<char>)
    ensures
        search::has_text(schema::script_schema(token), variant_intro("script"@, token)),
        search::has_text(schema::script_schema(token), field_intro("content"@, token)),
{
    let b0 = schema::variant_schema(schema::SCRIPT_DOC@, "script"@, token);
    let b1 = b0 + schema::field_schema("content"@, "脚本内容"@, token);
    let b2 = b1 + "\n"@;
    lemma_variant(schema::SCRIPT_DOC@, "script"@, token);
    parts::lemma_part_of_sum(b0, schema::field_schema("content"@, "脚本内容"@, token), variant_intro("script"@, token));
    parts::lemma_part_of_sum(b1, "\n"@, variant_intro("script"@, token));
    lemma_field("content"@, "脚本内容"@, token);
    parts::lemma_part_of_sum(b0, schema::field_schema("content"@, "脚本内容"@, token), field_intro("content"@, token));
    parts::lemma_part_of_sum(b1, "\n"@, field_intro("content"@, token));
}

/// The format of an answer names `script` and what goes into it.
pub proof fn law_script_is_introduced(token: Seq<char>)
    ensures
        search::has_text(schema::schema_text(token), variant_intro("script"@, token)),
        search::has_text(schema::schema_text(token), field_intro("content"@, token)),
{
    lemma_script_schema(token);
    let a0 = schema::idle_schema(token);
    let a1 = a0 + schema::read_msg_schema(token);
    let a2 = a1 + schema::send_msg_schema(token);
    let a3 = a2 + schema::thinking_schema(token);
    let a4 = a3 + schema::script_schema(token);
    let a5 = a4 + schema::write_file_schema(token);
    let a6 = a5 + schema::replace_in_file_schema(token);
    let a7 = a6 + schema::summary_schema(token);
    let a8 = a7 + schema::set_profile_schema(token);
    let a9 = a8 + schema::create_instance_schema(token);
    let a10 = a9 + schema::distill_schema(token);
    let a11 = a10 + "最后输出: "@;
    let a12 = a11 + markdown::end_mark("Action"@, token);
    let a13 = a12 + "\n"@;
    parts::lemma_part_of_sum(a3, schema::script_schema(token), variant_intro("script"@, token));
    parts::lemma_part_of_sum(a4, schema::write_file_schema(token), variant_intro("script"@, token));
    parts::lemma_part_of_sum(a5, schema::replace_in_file_schema(token), variant_intro("script"@, token));
    parts::lemma_part_of_sum(a6, schema::summary_schema(token), variant_intro("script"@, token));
    parts::lemma_part_of_sum(a7, schema::set_profile_schema(token), variant_intro("script"@, token));
    parts::lemma_part_of_sum(a8, schema::create_instance_schema(token), variant_intro("script"@, token));
    parts::lemma_part_of_sum(a9, schema::distill_schema(token), variant_intro("script"@, token));
    parts::lemma_part_of_sum(a10, "最后输出: "@, variant_intro("script"@, token));
    parts::lemma_part_of_sum(a11, markdown::end_mark("Action"@, token), variant_intro("script"@, token));
    parts::lemma_part_of_sum(a12, "\n"@, variant_intro("script"@, token));
    parts::lemma_part_of_sum(a3, schema::script_schema(token), field_intro("content"@, token));
    parts::lemma_part_of_sum(a4, schema::write_file_schema(token), field_intro("content"@, token));
    parts::lemma_part_of_sum(a5, schema::replace_in_file_schema(token), field_intro("content"@, token));
    parts::lemma_part_of_sum(a6, schema::summary_schema(token), field_intro("content"@, token));
    parts::lemma_part_of_sum(a7, schema::set_profile_schema(token), field_intro("content"@, token));
    parts::lemma_part_of_sum(a8, schema::create_instance_schema(token), field_intro("content"@, token));
    parts::lemma_part_of_sum(a9, schema::distill_schema(token), field_intro("content"@, token));
    parts::lemma_part_of_sum(a10, "最后输出: "@, field_intro("content"@, token));
    parts::lemma_part_of_sum(a11, markdown::end_mark("Action"@, token), field_intro("content"@, token));
    parts::lemma_part_of_sum(a12, "\n"@, field_intro("content"@, token));
}

proof fn lemma_write_file_schema(token: Seq<char>)
    ensures
        search::has_text(schema::write_file_schema(token), variant_intro("write_file"@, token)),
        search::has_text(schema::write_file_schema(token), field_intro("path"@, token)),
        search::has_text(schema::write_file_schema(token), field_intro("content"@, token)),
{
    let b0 = schema::variant_schema(schema::WRITE_FILE_DOC@, "write_file"@, token);
    let b1 = b0 + schema::field_schema("path"@, "file_path"@, token);
    let b2 = b1 + schema::field_schema("content"@, "文件完整内容"@, token);
    let b3 = b2 + "\n"@;
    lemma_variant(schema::WRITE_FILE_DOC@, "write_file"@, token);
    parts::lemma_part_of_sum(b0, schema::field_schema("path"@, "file_path"@, token), variant_intro("write_file"@, token));
    parts::lemma_part_of_sum(b1, schema::field_schema("content"@, "文件完整内容"@, token), variant_intro("write_file"@, token));
    parts::lemma_part_of_sum(b2, "\n"@, variant_intro("write_file"@, token));
    lemma_field("path"@, "file_path"@, token);
    parts::lemma_part_of_sum(b0, schema::field_schema("path"@, "file_path"@, token), field_intro("path"@, token));
    parts::lemma_part_of_sum(b1, schema::field_schema("content"@, "文件完整内容"@, token), field_intro("path"@, token));
    parts::lemma_part_of_sum(b2, "\n"@, field_intro("path"@, token));
    lemma_field("content"@, "文件完整内容"@, token);
    parts::lemma_part_of_sum(b1, schema::field_schema("content"@, "文件完整内容"@, token), field_intro("content"@, token));
    parts::lemma_part_of_sum(b2, "\n"@, field_intro("content"@, token));
}

/// The format of an answer names `write_file` and what goes into it.
pub proof fn law_write_file_is_introduced(token: Seq<char>)
    ensures
        search::has_text(schema::schema_text(token), variant_intro("write_file"@, token)),
        search::has_text(schema::schema_text(token), field_intro("path"@, token)),
        search::has_text(schema::schema_text(token), field_intro("content"@, token)),
{
    lemma_write_file_schema(token);
    let a0 = schema::idle_schema(token);
    let a1 = a0 + schema::read_msg_schema(token);
    let a2 = a1 + schema::send_msg_schema(token);
    let a3 = a2 + schema::thinking_schema(token);
    let a4 = a3 + schema::script_schema(token);
    let a5 = a4 + schema::write_file_schema(token);
    let a6 = a5 + schema::replace_in_file_schema(token);
    let a7 = a6 + schema::summary_schema(token);
    let a8 = a7 + schema::set_profile_schema(token);
    let a9 = a8 + schema::create_instance_schema(token);
    let a10 = a9 + schema::distill_schema(token);
    let a11 = a10 + "最后输出: "@;
    let a12 = a11 + markdown::end_mark("Action"@, token);
    let a13 = a12 + "\n"@;
    parts::lemma_part_of_sum(a4, schema::write_file_schema(token), variant_intro("write_file"@, token));
    parts::lemma_part_of_sum(a5, schema::replace_in_file_schema(token), variant_intro("write_file"@, token));
    parts::lemma_part_of_sum(a6, schema::summary_schema(token), variant_intro("write_file"@, token));
    parts::lemma_part_of_sum(a7, schema::set_profile_schema(token), variant_intro("write_file"@, token));
    parts::lemma_part_of_sum(a8, schema::create_instance_schema(token), variant_intro("write_file"@, token));
    parts::lemma_part_of_sum(a9, schema::distill_schema(token), variant_intro("write_file"@, token));
    parts::lemma_part_of_sum(a10, "最后输出: "@, variant_intro("write_file"@, token));
    parts::lemma_part_of_sum(a11, markdown::end_mark("Action"@, token), variant_intro("write_file"@, token));
    parts::lemma_part_of_sum(a12, "\n"@, variant_intro("write_file"@, token));
    parts::lemma_part_of_sum(a4, schema::write_file_schema(token), field_intro("path"@, token));
    parts::lemma_part_of_sum(a5, schema::replace_in_file_schema(token), field_intro("path"@, token));
    parts::lemma_part_of_sum(a6, schema::summary_schema(token), field_intro("path"@, token));
    parts::lemma_part_of_sum(a7, schema::set_profile_schema(token), field_intro("path"@, token));
    parts::lemma_part_of_sum(a8, schema::create_instance_schema(token), field_intro("path"@, token));
    parts::lemma_part_of_sum(a9, schema::distill_schema(token), field_intro("path"@, token));
    parts::lemma_part_of_sum(a10, "最后输出: "@, field_intro("path"@, token));
    parts::lemma_part_of_sum(a11, markdown::end_mark("Action"@, token), field_intro("path"@, token));
    parts::lemma_part_of_sum(a12, "\n"@, field_intro("path"@, token));
    parts::lemma_part_of_sum(a4, schema::write_file_schema(token), field_intro("content"@, token));
    parts::lemma_part_of_sum(a5, schema::replace_in_file_schema(token), field_intro("content"@, token));
    parts::lemma_part_of_sum(a6, schema::summary_schema(token), field_intro("content"@, token));
    parts::lemma_part_of_sum(a7, schema::set_profile_schema(token), field_intro("content"@, token));
    parts::lemma_part_of_sum(a8, schema::create_instance_schema(token), field_intro("content"@, token));
    parts::lemma_part_of_sum(a9, schema::distill_schema(token), field_intro("content"@, token));
    parts::lemma_part_of_sum(a10, "最后输出: "@, field_intro("content"@, token));
    parts::lemma_part_of_sum(a11, markdown::end_mark("Action"@, token), field_intro("content"@, token));
    parts::lemma_part_of_sum(a12, "\n"@, field_intro("content"@, token));
}

proof fn lemma_replace_in_file_schema(token: Seq<char>)
    ensures
        search::has_text(schema::replace_in_file_schema(token), variant_intro("replace_in_file"@, token)),
        search::has_text(schema::replace_in_file_schema(token), field_intro("path"@, token)),
        search::has_text(schema::replace_in_file_schema(token), field_intro("search"@, token)),
        search::has_text(schema::replace_in_file_schema(token), field_intro("replace"@, token)),
{
    let b0 = schema::variant_schema(schema::REPLACE_IN_FILE_DOC@, "replace_in_file"@, token);
    let b1 = b0 + schema::field_schema("path"@, "file_path"@, token);
    let b2 = b1 + schema::field_schema("search"@, "要搜索的精确文本（多行）"@, token);
    let b3 = b2 + schema::field_schema("replace"@, "要替换成的文本（多行）"@, token);
    let b4 = b3 + "\n"@;
    lemma_variant(schema::REPLACE_IN_FILE_DOC@, "replace_in_file"@, token);
    parts::lemma_part_of_sum(b0, schema::field_schema("path"@, "file_path"@, token), variant_intro("replace_in_file"@, token));
    parts::lemma_part_of_sum(b1, schema::field_schema("search"@, "要搜索的精确文本（多行）"@, token), variant_intro("replace_in_file"@, token));
    parts::lemma_part_of_sum(b2, schema::field_schema("replace"@, "要替换成的文本（多行）"@, token), variant_intro("replace_in_file"@, token));
    parts::lemma_part_of_sum(b3, "\n"@, variant_intro("replace_in_file"@, token));
    lemma_field("path"@, "file_path"@, token);
    parts::lemma_part_of_sum(b0, schema::field_schema("path"@, "file_path"@, token), field_intro("path"@, token));
    parts::lemma_part_of_sum(b1, schema::field_schema("search"@, "要搜索的精确文本（多行）"@, token), field_intro("path"@, token));
    parts::lemma_part_of_sum(b2, schema::field_schema("replace"@, "要替换成的文本（多行）"@, token), field_intro("path"@, token));
    parts::lemma_part_of_sum(b3, "\n"@, field_intro("path"@, token));
    lemma_field("search"@, "要搜索的精确文本（多行）"@, token);
    parts::lemma_part_of_sum(b1, schema::field_schema("search"@, "要搜索的精确文本（多行）"@, token), field_intro("search"@, token));
    parts::lemma_part_of_sum(b2, schema::field_schema("replace"@, "要替换成的文本（多行）"@, token), field_intro("search"@, token));
    parts::lemma_part_of_sum(b3, "\n"@, field_intro("search"@, token));
    lemma_field("replace"@, "要替换成的文本（多行）"@, token);
    parts::lemma_part_of_sum(b2, schema::field_schema("replace"@, "要替换成的文本（多行）"@, token), field_intro("replace"@, token));
    parts::lemma_part_of_sum(b3, "\n"@, field_intro("replace"@, token));
}

/// The format of an answer names `replace_in_file` and what goes into it.
pub proof fn law_replace_in_file_is_introduced(token: Seq<char>)
    ensures
        search::has_text(schema::schema_text(token), variant_intro("replace_in_file"@, token)),
        search::has_text(schema::schema_text(token), field_intro("path"@, token)),
        search::has_text(schema::schema_text(token), field_intro("search"@, token)),
        search::has_text(schema::schema_text(token), field_intro("replace"@, token)),
{
    lemma_replace_in_file_schema(token);
    let a0 = schema::idle_schema(token);
    let a1 = a0 + schema::read_msg_schema(token);
    let a2 = a1 + schema::send_msg_schema(token);
    let a3 = a2 + schema::thinking_schema(token);
    let a4 = a3 + schema::script_schema(token);
    let a5 = a4 + schema::write_file_schema(token);
    let a6 = a5 + schema::replace_in_file_schema(token);
    let a7 = a6 + schema::summary_schema(token);
    let a8 = a7 + schema::set_profile_schema(token);
    let a9 = a8 + schema::create_instance_schema(token);
    let a10 = a9 + schema::distill_schema(token);
    let a11 = a10 + "最后输出: "@;
    let a12 = a11 + markdown::end_mark("Action"@, token);
    let a13 = a12 + "\n"@;
    parts::lemma_part_of_sum(a5, schema::replace_in_file_schema(token), variant_intro("replace_in_file"@, token));
    parts::lemma_part_of_sum(a6, schema::summary_schema(token), variant_intro("replace_in_file"@, token));
    parts::lemma_part_of_sum(a7, schema::set_profile_schema(token), variant_intro("replace_in_file"@, token));
    parts::lemma_part_of_sum(a8, schema::create_instance_schema(token), variant_intro("replace_in_file"@, token));
    parts::lemma_part_of_sum(a9, schema::distill_schema(token), variant_intro("replace_in_file"@, token));
    parts::lemma_part_of_sum(a10, "最后输出: "@, variant_intro("replace_in_file"@, token));
    parts::lemma_part_of_sum(a11, markdown::end_mark("Action"@, token), variant_intro("replace_in_file"@, token));
    parts::lemma_part_of_sum(a12, "\n"@, variant_intro("replace_in_file"@, token));
    parts::lemma_part_of_sum(a5, schema::replace_in_file_schema(token), field_intro("path"@, token));
    parts::lemma_part_of_sum(a6, schema::summary_schema(token), field_intro("path"@, token));
    parts::lemma_part_of_sum(a7, schema::set_profile_schema(token), field_intro("path"@, token));
    parts::lemma_part_of_sum(a8, schema::create_instance_schema(token), field_intro("path"@, token));
    parts::lemma_part_of_sum(a9, schema::distill_schema(token), field_intro("path"@, token));
    parts::lemma_part_of_sum(a10, "最后输出: "@, field_intro("path"@, token));
    parts::lemma_part_of_sum(a11, markdown::end_mark("Action"@, token), field_intro("path"@, token));
    parts::lemma_part_of_sum(a12, "\n"@, field_intro("path"@, token));
    parts::lemma_part_of_sum(a5, schema::replace_in_file_schema(token), field_intro("search"@, token));
    parts::lemma_part_of_sum(a6, schema::summary_schema(token), field_intro("search"@, token));
    parts::lemma_part_of_sum(a7, schema::set_profile_schema(token), field_intro("search"@, token));
    parts::lemma_part_of_sum(a8, schema::create_instance_schema(token), field_intro("search"@, token));
    parts::lemma_part_of_sum(a9, schema::distill_schema(token), field_intro("search"@, token));
    parts::lemma_part_of_sum(a10, "最后输出: "@, field_intro("search"@, token));
    parts::lemma_part_of_sum(a11, markdown::end_mark("Action"@, token), field_intro("search"@, token));
    parts::lemma_part_of_sum(a12, "\n"@, field_intro("search"@, token));
    parts::lemma_part_of_sum(a5, schema::replace_in_file_schema(token), field_intro("replace"@, token));
    parts::lemma_part_of_sum(a6, schema::summary_schema(token), field_intro("replace"@, token));
    parts::lemma_part_of_sum(a7, schema::set_profile_schema(token), field_intro("replace"@, token));
    parts::lemma_part_of_sum(a8, schema::create_instance_schema(token), field_intro("replace"@, token));
    parts::lemma_part_of_sum(a9, schema::distill_schema(token), field_intro("replace"@, token));
    parts::lemma_part_of_sum(a10, "最后输出: "@, field_intro("replace"@, token));
    parts::lemma_part_of_sum(a11, markdown::end_mark("Action"@, token), field_intro("replace"@, token));
    parts::lemma_part_of_sum(a12, "\n"@, field_intro("replace"@, token));
}

proof fn lemma_summary_schema(token: Seq<char>)
    ensures
        search::has_text(schema::summary_schema(token), variant_intro("summary"@, token)),
        search::has_text(schema::summary_schema(token), field_intro("content"@, token)),
{
    let b0 = schema::variant_schema(schema::SUMMARY_DOC@, "summary"@, token);
    let b1 = b0 + schema::field_schema("content"@, "对话小结"@, token);
    let b2 = b1 + "\n"@;
    lemma_variant(schema::SUMMARY_DOC@, "summary"@, token);
    parts::lemma_part_of_sum(b0, schema::field_schema("content"@, "对话小结"@, token), variant_intro("summary"@, token));
    parts::lemma_part_of_sum(b1, "\n"@, variant_intro("summary"@, token));
    lemma_field("content"@, "对话小结"@, token);
    parts::lemma_part_of_sum(b0, schema::field_schema("content"@, "对话小结"@, token), field_intro("content"@, token));
    parts::lemma_part_of_sum(b1, "\n"@, field_intro("content"@, token));
}

/// The format of an answer names `summary` and what goes into it.
pub proof fn law_summary_is_introduced(token: Seq<char>)
    ensures
        search::has_text(schema::schema_text(token), variant_intro("summary"@, token)),
        search::has_text(schema::schema_text(token), field_intro("content"@, token)),
{
    lemma_summary_schema(token);
    let a0 = schema::idle_schema(token);
    let a1 = a0 + schema::read_msg_schema(token);
    let a2 = a1 + schema::send_msg_schema(token);
    let a3 = a2 + schema::thinking_schema(token);
    let a4 = a3 + schema::script_schema(token);
    let a5 = a4 + schema::write_file_schema(token);
    let a6 = a5 + schema::replace_in_file_schema(token);
    let a7 = a6 + schema::summary_schema(token);
    let a8 = a7 + schema::set_profile_schema(token);
    let a9 = a8 + schema::create_instance_schema(token);
    let a10 = a9 + schema::distill_schema(token);
    let a11 = a10 + "最后输出: "@;
    let a12 = a11 + markdown::end_mark("Action"@, token);
    let a13 = a12 + "\n"@;
    parts::lemma_part_of_sum(a6, schema::summary_schema(token), variant_intro("summary"@, token));
    parts::lemma_part_of_sum(a7, schema::set_profile_schema(token), variant_intro("summary"@, token));
    parts::lemma_part_of_sum(a8, schema::create_instance_schema(token), variant_intro("summary"@, token));
    parts::lemma_part_of_sum(a9, schema::distill_schema(token), variant_intro("summary"@, token));
    parts::lemma_part_of_sum(a10, "最后输出: "@, variant_intro("summary"@, token));
    parts::lemma_part_of_sum(a11, markdown::end_mark("Action"@, token), variant_intro("summary"@, token));
    parts::lemma_part_of_sum(a12, "\n"@, variant_intro("summary"@, token));
    parts::lemma_part_of_sum(a6, schema::summary_schema(token), field_intro("content"@, token));
    parts::lemma_part_of_sum(a7, schema::set_profile_schema(token), field_intro("content"@, token));
    parts::lemma_part_of_sum(a8, schema::create_instance_schema(token), field_intro("content"@, token));
    parts::lemma_part_of_sum(a9, schema::distill_schema(token), field_intro("content"@, token));
    parts::lemma_part_of_sum(a10, "最后输出: "@, field_intro("content"@, token));
    parts::lemma_part_of_sum(a11, markdown::end_mark("Action"@, token), field_intro("content"@, token));
    parts::lemma_part_of_sum(a12, "\n"@, field_intro("content"@, token));
}

proof fn lemma_set_profile_schema(token: Seq<char>)
    ensures
        search::has_text(schema::set_profile_schema(token), variant_intro("set_profile"@, token)),
        search::has_text(schema::set_profile_schema(token), field_intro("content"@, token)),
{
    let b0 = schema::variant_schema(schema::SET_PROFILE_DOC@, "set_profile"@, token);
    let b1 = b0 + schema::field_schema("content"@, "设置项（每行一个 key:value）"@, token);
    let b2 = b1 + "\n"@;
    lemma_variant(schema::SET_PROFILE_DOC@, "set_profile"@, token);
    parts::lemma_part_of_sum(b0, schema::field_schema("content"@, "设置项（每行一个 key:value）"@, token), variant_intro("set_profile"@, token));
    parts::lemma_part_of_sum(b1, "\n"@, variant_intro("set_profile"@, token));
    lemma_field("content"@, "设置项（每行一个 key:value）"@, token);
    parts::lemma_part_of_sum(b0, schema::field_schema("content"@, "设置项（每行一个 key:value）"@, token), field_intro("content"@, token));
    parts::lemma_part_of_sum(b1, "\n"@, field_intro("content"@, token));
}

/// The format of an answer names `set_profile` and what goes into it.
pub proof fn law_set_profile_is_introduced(token: Seq<char>)
    ensures
        search::has_text(schema::schema_text(token), variant_intro("set_profile"@, token)),
        search::has_text(schema::schema_text(token), field_intro("content"@, token)),
{
    lemma_set_profile_schema(token);
    let a0 = schema::idle_schema(token);
    let a1 = a0 + schema::read_msg_schema(token);
    let a2 = a1 + schema::send_msg_schema(token);
    let a3 = a2 + schema::thinking_schema(token);
    let a4 = a3 + schema::script_schema(token);
    let a5 = a4 + schema::write_file_schema(token);
    let a6 = a5 + schema::replace_in_file_schema(token);
    let a7 = a6 + schema::summary_schema(token);
    let a8 = a7 + schema::set_profile_schema(token);
    let a9 = a8 + schema::create_instance_schema(token);
    let a10 = a9 + schema::distill_schema(token);
    let a11 = a10 + "最后输出: "@;
    let a12 = a11 + markdown::end_mark("Action"@, token);
    let a13 = a12 + "\n"@;
    parts::lemma_part_of_sum(a7, schema::set_profile_schema(token), variant_intro("set_profile"@, token));
    parts::lemma_part_of_sum(a8, schema::create_instance_schema(token), variant_intro("set_profile"@, token));
    parts::lemma_part_of_sum(a9, schema::distill_schema(token), variant_intro("set_profile"@, token));
    parts::lemma_part_of_sum(a10, "最后输出: "@, variant_intro("set_profile"@, token));
    parts::lemma_part_of_sum(a11, markdown::end_mark("Action"@, token), variant_intro("set_profile"@, token));
    parts::lemma_part_of_sum(a12, "\n"@, variant_intro("set_profile"@, token));
    parts::lemma_part_of_sum(a7, schema::set_profile_schema(token), field_intro("content"@, token));
    parts::lemma_part_of_sum(a8, schema::create_instance_schema(token), field_intro("content"@, token));
    parts::lemma_part_of_sum(a9, schema::distill_schema(token), field_intro("content"@, token));
    parts::lemma_part_of_sum(a10, "最后输出: "@, field_intro("content"@, token));
    parts::lemma_part_of_sum(a11, markdown::end_mark("Action"@, token), field_intro("content"@, token));
    parts::lemma_part_of_sum(a12, "\n"@, field_intro("content"@, token));
}

proof fn lemma_create_instance_schema(token: Seq<char>)
    ensures
        search::has_text(schema::create_instance_schema(token), variant_intro("create_instance"@, token)),
        search::has_text(schema::create_instance_schema(token), field_intro("name"@, token)),
        search::has_text(schema::create_instance_schema(token), field_intro("knowledge"@, token)),
{
    let b0 = schema::variant_schema(schema::CREATE_INSTANCE_DOC@, "create_instance"@, token);
    let b1 = b0 + schema::field_schema("name"@, "实例显示名称"@, token);
    let b2 = b1 + schema::field_schema("knowledge"@, "knowledge内容（新实例的初始知识）"@, token);
    let b3 = b2 + "\n"@;
    lemma_variant(schema::CREATE_INSTANCE_DOC@, "create_instance"@, token);
    parts::lemma_part_of_sum(b0, schema::field_schema("name"@, "实例显示名称"@, token), variant_intro("create_instance"@, token));
    parts::lemma_part_of_sum(b1, schema::field_schema("knowledge"@, "knowledge内容（新实例的初始知识）"@, token), variant_intro("create_instance"@, token));
    parts::lemma_part_of_sum(b2, "\n"@, variant_intro("create_instance"@, token));
    lemma_field("name"@, "实例显示名称"@, token);
    parts::lemma_part_of_sum(b0, schema::field_schema("name"@, "实例显示名称"@, token), field_intro("name"@, token));
    parts::lemma_part_of_sum(b1, schema::field_schema("knowledge"@, "knowledge内容（新实例的初始知识）"@, token), field_intro("name"@, token));
    parts::lemma_part_of_sum(b2, "\n"@, field_intro("name"@, token));
    lemma_field("knowledge"@, "knowledge内容（新实例的初始知识）"@, token);
    parts::lemma_part_of_sum(b1, schema::field_schema("knowledge"@, "knowledge内容（新实例的初始知识）"@, token), field_intro("knowledge"@, token));
    parts::lemma_part_of_sum(b2, "\n"@, field_intro("knowledge"@, token));
}

/// The format of an answer names `create_instance` and what goes into it.
pub proof fn law_create_instance_is_introduced(token: Seq<char>)
    ensures
        search::has_text(schema::schema_text(token), variant_intro("create_instance"@, token)),
        search::has_text(schema::schema_text(token), field_intro("name"@, token)),
        search::has_text(schema::schema_text(token), field_intro("knowledge"@, token)),
{
    lemma_create_instance_schema(token);
    let a0 = schema::idle_schema(token);
    let a1 = a0 + schema::read_msg_schema(token);
    let a2 = a1 + schema::send_msg_schema(token);
    let a3 = a2 + schema::thinking_schema(token);
    let a4 = a3 + schema::script_schema(token);
    let a5 = a4 + schema::write_file_schema(token);
    let a6 = a5 + schema::replace_in_file_schema(token);
    let a7 = a6 + schema::summary_schema(token);
    let a8 = a7 + schema::set_profile_schema(token);
    let a9 = a8 + schema::create_instance_schema(token);
    let a10 = a9 + schema::distill_schema(token);
    let a11 = a10 + "最后输出: "@;
    let a12 = a11 + markdown::end_mark("Action"@, token);
    let a13 = a12 + "\n"@;
    parts::lemma_part_of_sum(a8, schema::create_instance_schema(token), variant_intro("create_instance"@, token));
    parts::lemma_part_of_sum(a9, schema::distill_schema(token), variant_intro("create_instance"@, token));
    parts::lemma_part_of_sum(a10, "最后输出: "@, variant_intro("create_instance"@, token));
    parts::lemma_part_of_sum(a11, markdown::end_mark("Action"@, token), variant_intro("create_instance"@, token));
    parts::lemma_part_of_sum(a12, "\n"@, variant_intro("create_instance"@, token));
    parts::lemma_part_of_sum(a8, schema::create_instance_schema(token), field_intro("name"@, token));
    parts::lemma_part_of_sum(a9, schema::distill_schema(token), field_intro("name"@, token));
    parts::lemma_part_of_sum(a10, "最后输出: "@, field_intro("name"@, token));
    parts::lemma_part_of_sum(a11, markdown::end_mark("Action"@, token), field_intro("name"@, token));
    parts::lemma_part_of_sum(a12, "\n"@, field_intro("name"@, token));
    parts::lemma_part_of_sum(a8, schema::create_instance_schema(token), field_intro("knowledge"@, token));
    parts::lemma_part_of_sum(a9, schema::distill_schema(token), field_intro("knowledge"@, token));
    parts::lemma_part_of_sum(a10, "最后输出: "@, field_intro("knowledge"@, token));
    parts::lemma_part_of_sum(a11, markdown::end_mark("Action"@, token), field_intro("knowledge"@, token));
    parts::lemma_part_of_sum(a12, "\n"@, field_intro("knowledge"@, token));
}

proof fn lemma_distill_schema(token: Seq<char>)
    ensures
        search::has_text(schema::distill_schema(token), variant_intro("distill"@, token)),
        search::has_text(schema::distill_schema(token), field_intro("target_action_id"@, token)),
        search::has_text(schema::distill_schema(token), field_intro("summary"@, token)),
{
    let b0 = schema::variant_schema(schema::DISTILL_DOC@, "distill"@, token);
    let b1 = b0 + schema::field_schema("target_action_id"@, "要提炼的action编号（从行为编号标记中获取）"@, token);
    let b2 = b1 + schema::field_schema("summary"@, "提炼总结（替换原action的完整内容）"@, token);
    let b3 = b2 + "\n"@;
    lemma_variant(schema::DISTILL_DOC@, "distill"@, token);
    parts::lemma_part_of_sum(b0, schema::field_schema("target_action_id"@, "要提炼的action编号（从行为编号标记中获取）"@, token), variant_intro("distill"@, token));
    parts::lemma_part_of_sum(b1, schema::field_schema("summary"@, "提炼总结（替换原action的完整内容）"@, token), variant_intro("distill"@, token));
    parts::lemma_part_of_sum(b2, "\n"@, variant_intro("distill"@, token));
    lemma_field("target_action_id"@, "要提炼的action编号（从行为编号标记中获取）"@, token);
    parts::lemma_part_of_sum(b0, schema::field_schema("target_action_id"@, "要提炼的action编号（从行为编号标记中获取）"@, token), field_intro("target_action_id"@, token));
    parts::lemma_part_of_sum(b1, schema::field_schema("summary"@, "提炼总结（替换原action的完整内容）"@, token), field_intro("target_action_id"@, token));
    parts::lemma_part_of_sum(b2, "\n"@, field_intro("target_action_id"@, token));
    lemma_field("summary"@, "提炼总结（替换原action的完整内容）"@, token);
    parts::lemma_part_of_sum(b1, schema::field_schema("summary"@, "提炼总结（替换原action的完整内容）"@, token), field_intro("summary"@, token));
    parts::lemma_part_of_sum(b2, "\n"@, field_intro("summary"@, token));
}

/// The format of an answer names `distill` and what goes into it.
pub proof fn law_distill_is_introduced(token: Seq<char>)
    ensures
        search::has_text(schema::schema_text(token), variant_intro("distill"@, token)),
        search::has_text(schema::schema_text(token), field_intro("target_action_id"@, token)),
        search::has_text(schema::schema_text(token), field_intro("summary"@, token)),
{
    lemma_distill_schema(token);
    let a0 = schema::idle_schema(token);
    let a1 = a0 + schema::read_msg_schema(token);
    let a2 = a1 + schema::send_msg_schema(token);
    let a3 = a2 + schema::thinking_schema(token);
    let a4 = a3 + schema::script_schema(token);
    let a5 = a4 + schema::write_file_schema(token);
    let a6 = a5 + schema::replace_in_file_schema(token);
    let a7 = a6 + schema::summary_schema(token);
    let a8 = a7 + schema::set_profile_schema(token);
    let a9 = a8 + schema::create_instance_schema(token);
    let a10 = a9 + schema::distill_schema(token);
    let a11 = a10 + "最后输出: "@;
    let a12 = a11 + markdown::end_mark("Action"@, token);
    let a13 = a12 + "\n"@;
    parts::lemma_part_of_sum(a9, schema::distill_schema(token), variant_intro("distill"@, token));
    parts::lemma_part_of_sum(a10, "最后输出: "@, variant_intro("distill"@, token));
    parts::lemma_part_of_sum(a11, markdown::end_mark("Action"@, token), variant_intro("distill"@, token));
    parts::lemma_part_of_sum(a12, "\n"@, variant_intro("distill"@, token));
    parts::lemma_part_of_sum(a9, schema::distill_schema(token), field_intro("target_action_id"@, token));
    parts::lemma_part_of_sum(a10, "最后输出: "@, field_intro("target_action_id"@, token));
    parts::lemma_part_of_sum(a11, markdown::end_mark("Action"@, token), field_intro("target_action_id"@, token));
    parts::lemma_part_of_sum(a12, "\n"@, field_intro("target_action_id"@, token));
    parts::lemma_part_of_sum(a9, schema::distill_schema(token), field_intro("summary"@, token));
    parts::lemma_part_of_sum(a10, "最后输出: "@, field_intro("summary"@, token));
    parts::lemma_part_of_sum(a11, markdown::end_mark("Action"@, token), field_intro("summary"@, token));
    parts::lemma_part_of_sum(a12, "\n"@, field_intro("summary"@, token));
}

/// The format of an answer ends with the mark that ends an answer.
pub proof fn law_the_end_is_introduced(token: Seq<char>)
    ensures
        search::has_suffix(
            schema::schema_text(token),
            markdown::end_mark("Action"@, token) + "\n"@,
        ),
{
    let end = markdown::end_mark("Action"@, token);
    let a0 = schema::idle_schema(token);
    let a1 = a0 + schema::read_msg_schema(token);
    let a2 = a1 + schema::send_msg_schema(token);
    let a3 = a2 + schema::thinking_schema(token);
    let a4 = a3 + schema::script_schema(token);
    let a5 = a4 + schema::write_file_schema(token);
    let a6 = a5 + schema::replace_in_file_schema(token);
    let a7 = a6 + schema::summary_schema(token);
    let a8 = a7 + schema::set_profile_schema(token);
    let a9 = a8 + schema::create_instance_schema(token);
    let a10 = a9 + schema::distill_schema(token);
    let a11 = a10 + "最后输出: "@;
    let a12 = a11 + markdown::end_mark("Action"@, token);
    let a13 = a12 + "\n"@;
    parts::lemma_assoc(a11, end, "\n"@);
    let text = a11 + (end + "\n"@);
    assert(text.subrange(text.len() - (end + "\n"@).len(), text.len() as int) =~= end + "\n"@);
}

/// The format of an answer of one part names the mark that it starts with, the part, and
/// the mark that it ends with.
pub proof fn law_single_parts_are_introduced(
    kind: Seq<char>,
    name: Seq<char>,
    doc: Seq<char>,
    token: Seq<char>,
)
    ensures
        ({
            let text = capture::single_field_schema_text(kind, name, doc, token);
            &&& search::has_text(text, kind + "-"@ + token)
            &&& search::has_text(text, name + "-"@ + token + "\n"@ + doc)
            &&& search::has_suffix(text, kind + "-end-"@ + token + "\n"@)
        }),
{
    let mark = markdown::element_mark(kind, token);
    let part = markdown::element_mark(name, token);
    let end = markdown::end_mark(kind, token);
    let lead = "每个元素以 "@;
    let a1 = lead + mark;
    let a2 = a1 + " 开头，包含以下字段：\n"@;
    let a3 = a2 + part;
    let a4 = a3 + "\n"@;
    let a5 = a4 + doc;
    let a6 = a5 + "\n所有元素结束后输出: "@;
    let a7 = a6 + end;
    let text = a7 + "\n"@;
    parts::lemma_whole(mark);
    parts::lemma_part_of_sum(lead, mark, mark);
    parts::lemma_part_of_sum(a1, " 开头，包含以下字段：\n"@, mark);
    parts::lemma_part_of_sum(a2, part, mark);
    parts::lemma_part_of_sum(a3, "\n"@, mark);
    parts::lemma_part_of_sum(a4, doc, mark);
    parts::lemma_part_of_sum(a5, "\n所有元素结束后输出: "@, mark);
    parts::lemma_part_of_sum(a6, end, mark);
    parts::lemma_part_of_sum(a7, "\n"@, mark);
    let told = part + "\n"@ + doc;
    parts::lemma_assoc(a2, part, "\n"@);
    parts::lemma_assoc(a2, part + "\n"@, doc);
    parts::lemma_whole(told);
    parts::lemma_part_of_sum(a2, told, told);
    parts::lemma_part_of_sum(a5, "\n所有元素结束后输出: "@, told);
    parts::lemma_part_of_sum(a6, end, told);
    parts::lemma_part_of_sum(a7, "\n"@, told);
    parts::lemma_assoc(a6, end, "\n"@);
    let last = end + "\n"@;
    assert(text == a6 + last);
    assert((a6 + last).subrange((a6 + last).len() - last.len(), (a6 + last).len() as int)
        =~= last);
}

} // verus!
