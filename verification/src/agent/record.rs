//! The current record: one block of text for each action.
use vstd::prelude::*;

use crate::action::action_output;
use crate::action::action_output::{action_block_end, action_block_start, forgotten_block};
use crate::inference::output::ActionOutput;
use crate::text::bytes;
use crate::text::bytes::byte_len;
use crate::text::chars::{slice_text, to_chars};
use crate::text::search;
use crate::text::search::find_chars;

verus! {

/// The block of an action.
pub open spec fn block_text(action_id: Seq<char>, text: Seq<char>) -> Seq<char> {
    action_output::action_block_start_text(action_id) + "\n"@ + text + "\n"@
        + action_output::action_block_end_text(action_id) + "\n"@
}

/// Writes the block of an action.
pub fn record_block(action_id: &str, text: &str) -> (r: String)
    ensures
        r@ == block_text(action_id@, text@),
{
    let mut s = action_block_start(action_id);
    s.push_str("\n");
    s.push_str(text);
    s.push_str("\n");
    let end = action_block_end(action_id);
    s.push_str(end.as_str());
    s.push_str("\n");
    s
}

/// Where the block of an action stands: from its opening marker to its closing one,
/// with the newline behind it.
pub open spec fn block_span(current: Seq<char>, action_id: Seq<char>) -> Option<(int, int)> {
    let start = action_output::action_block_start_text(action_id);
    let end = action_output::action_block_end_text(action_id);
    match search::find_text(current, start) {
        Some(i) => match search::find_from(current, end, i + start.len()) {
            Some(j) => {
                let k = j + end.len();
                if k < current.len() && current[k] == '\n' {
                    Some((i, k + 1))
                } else {
                    Some((i, k))
                }
            },
            None => None,
        },
        None => None,
    }
}

/// Replaces the block of an action by a short text; all else stays as it is.
pub fn distill_record(current: &str, action_id: &str, summary: &str) -> (r: Result<
    (String, ActionOutput),
    String,
>)
    ensures
        match r {
            Ok((text, out)) => {
                let new = action_output::forgotten_block_text(action_id@, summary@);
                &&& block_span(current@, action_id@) matches Some((a, b)) && text@ == current@.take(
                    a,
                ) + new + current@.skip(b) && out == (ActionOutput::Distill {
                    old_bytes: bytes::text_bytes(current@.subrange(a, b)) as usize,
                    new_bytes: bytes::text_bytes(new) as usize,
                }) && bytes::text_bytes(current@.subrange(a, b)) <= usize::MAX
                    && bytes::text_bytes(new) <= usize::MAX
            },
            Err(e) => block_span(current@, action_id@) is None && e@
                == "Action block not found: "@ + action_id@,
        },
{
    let v = to_chars(current);
    let start = action_block_start(action_id);
    let end = action_block_end(action_id);
    let sv = to_chars(start.as_str());
    let ev = to_chars(end.as_str());
    let n: usize = v.len();
    let mut span: Option<(usize, usize)> = None;
    if let Some(i) = find_chars(&v, &sv, 0) {
        assert(i + sv@.len() <= n);
        if let Some(j) = find_chars(&v, &ev, i + sv.len()) {
            assert(j + ev@.len() <= n);
            let k: usize = j + ev.len();
            span = if k < n && v[k] == '\n' {
                Some((i, k + 1))
            } else {
                Some((i, k))
            };
        }
    }
    match span {
        Some((a, b)) => {
            let old_block = slice_text(&v, a, b);
            let new_block = forgotten_block(action_id, summary);
            let mut text = slice_text(&v, 0, a);
            assert(text@ =~= current@.take(a as int));
            text.push_str(new_block.as_str());
            let rest = slice_text(&v, b, n);
            assert(rest@ =~= current@.skip(b as int));
            text.push_str(rest.as_str());
            let out = ActionOutput::Distill {
                old_bytes: byte_len(old_block.as_str()),
                new_bytes: byte_len(new_block.as_str()),
            };
            Ok((text, out))
        },
        None => {
            let mut e = "Action block not found: ".to_string();
            e.push_str(action_id);
            Err(e)
        },
    }
}

/// Distilling an action touches its own block and nothing else: what was recorded
/// before and behind it stays.
pub proof fn law_distilling_touches_one_block(
    before: Seq<char>,
    action_id: Seq<char>,
    text: Seq<char>,
    behind: Seq<char>,
)
    requires
        forall|i: int|
            0 <= i < before.len() ==> !search::occurs_at(
                before + block_text(action_id, text) + behind,
                action_output::action_block_start_text(action_id),
                i,
            ),
        forall|i: int|
            0 <= i <= text.len() + 1 ==> !search::occurs_at(
                "\n"@ + text + "\n"@ + action_output::action_block_end_text(action_id),
                action_output::action_block_end_text(action_id),
                i,
            ),
    ensures
        block_span(before + block_text(action_id, text) + behind, action_id) == Some(
            (before.len() as int, (before.len() + block_text(action_id, text).len()) as int),
        ),
{
    reveal_strlit("\n");
    let start = action_output::action_block_start_text(action_id);
    let end = action_output::action_block_end_text(action_id);
    let block = block_text(action_id, text);
    let all = before + block + behind;
    let a = before.len() as int;
    assert(all.subrange(a, a + start.len()) =~= start);
    search::lemma_find_is_first(all, start, a);
    let from = a + start.len();
    let at = from + text.len() + 2;
    let inner = "\n"@ + text + "\n"@ + end;
    assert(all.subrange(from, from + inner.len()) =~= inner);
    assert(all.subrange(at, at + end.len()) =~= end);
    assert(search::occurs_at(all, end, at));
    assert forall|j: int| from <= j < at implies !search::occurs_at(all, end, j) by {
        if search::occurs_at(all, end, j) {
            let q = j - from;
            assert(inner.subrange(q, q + end.len()) =~= all.subrange(j, j + end.len()));
            assert(search::occurs_at(inner, end, q));
        }
    }
    search::lemma_find_from(all, end, from);
    assert(search::find_from(all, end, from) == Some(at));
    assert(all[at + end.len()] == '\n');
}

} // verus!
