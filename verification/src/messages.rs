//! Feedback for users of the interface and hints in the prompt.
use vstd::prelude::*;

use crate::text::number;
use crate::text::number::push_dec;

verus! {

pub fn empty_message() -> (r: &'static str)
    ensures
        r@ == "Empty message"@,
{
    "Empty message"
}

pub fn no_valid_fields() -> (r: &'static str)
    ensures
        r@ == "No valid fields to update"@,
{
    "No valid fields to update"
}

pub fn field_separator() -> (r: &'static str)
    ensures
        r@ == ", "@,
{
    ", "
}

pub fn instance_deleted(id: &str) -> (r: String)
    ensures
        r@ == "Deleted: "@ + id@,
{
    let mut s = "Deleted: ".to_string();
    s.push_str(id);
    s
}

/// The text of [`field_changed`].
pub open spec fn field_changed_text(field: Seq<char>, value: Seq<char>) -> Seq<char> {
    field + ": "@ + value
}

pub fn field_changed(field: &str, value: &str) -> (r: String)
    ensures
        r@ == field_changed_text(field@, value@),
{
    let mut s = field.to_string();
    s.push_str(": ");
    s.push_str(value);
    s
}

pub fn api_key_changed(suffix: &str) -> (r: String)
    ensures
        r@ == "api_key: ..."@ + suffix@,
{
    let mut s = "api_key: ...".to_string();
    s.push_str(suffix);
    s
}

pub fn extra_models_changed(count: usize) -> (r: String)
    ensures
        r@ == "extra_models: "@ + number::dec(count as nat) + " items"@,
{
    let mut s = "extra_models: ".to_string();
    push_dec(&mut s, count as u64);
    s.push_str(" items");
    s
}

pub fn safety_valve_triggered(consecutive: u32, cooldown: u64) -> (r: String)
    ensures
        r@ == "安全阀触发：连续"@ + number::dec(consecutive as nat) + "次推理未进入idle状态，强制冷却"@ + number::dec(cooldown as nat) + "秒。这可能意味着推理陷入了循环。"@,
{
    let mut s = "安全阀触发：连续".to_string();
    push_dec(&mut s, consecutive as u64);
    s.push_str("次推理未进入idle状态，强制冷却");
    push_dec(&mut s, cooldown);
    s.push_str("秒。这可能意味着推理陷入了循环。");
    s
}

pub fn beat_limit_reached(current: u32, max: u32) -> (r: String)
    ensures
        r@ == "推理次数已达上限（"@ + number::dec(current as nat) + "/"@ + number::dec(max as nat) + "），实例已停止推理。"@,
{
    let mut s = "推理次数已达上限（".to_string();
    push_dec(&mut s, current as u64);
    s.push_str("/");
    push_dec(&mut s, max as u64);
    s.push_str("），实例已停止推理。");
    s
}

pub fn disk_space_low(avail_mb: u64) -> (r: String)
    ensures
        r@ == "磁盘空间不足：仅剩 "@ + number::dec(avail_mb as nat) + "MB 可用。请清理磁盘空间，否则可能导致数据损坏。"@,
{
    let mut s = "磁盘空间不足：仅剩 ".to_string();
    push_dec(&mut s, avail_mb);
    s.push_str("MB 可用。请清理磁盘空间，否则可能导致数据损坏。");
    s
}

pub fn knowledge_capacity_ok(size: usize) -> (r: String)
    ensures
        r@ == "知识: "@ + number::dec(size as nat) + "/51200字符 🟢"@,
{
    let mut s = "知识: ".to_string();
    push_dec(&mut s, size as u64);
    s.push_str("/51200字符 🟢");
    s
}

pub fn knowledge_capacity_warning(size: usize) -> (r: String)
    ensures
        r@ == "知识: "@ + number::dec(size as nat) + "/51200字符 ⚠️ 知识接近上限，summary时请精简"@,
{
    let mut s = "知识: ".to_string();
    push_dec(&mut s, size as u64);
    s.push_str("/51200字符 ⚠️ 知识接近上限，summary时请精简");
    s
}

pub fn knowledge_capacity_critical(size: usize) -> (r: String)
    ensures
        r@ == "知识: "@ + number::dec(size as nat) + "/51200字符 🔴 知识超出推荐容量，建议与用户商量裂变"@,
{
    let mut s = "知识: ".to_string();
    push_dec(&mut s, size as u64);
    s.push_str("/51200字符 🔴 知识超出推荐容量，建议与用户商量裂变");
    s
}

} // verus!
