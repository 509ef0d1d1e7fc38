//! From a raw answer to the actions that are carried out.
use vstd::prelude::*;

use crate::inference::action;
use crate::inference::action::{Action, ActionModel};
use crate::inference::markdown;
use crate::inference::markdown::{element_marker, end_marker};
use crate::text::bytes;
use crate::text::chars::same_text;
use crate::text::search;
use crate::text::search::{contains, ends_with, join, starts_with};
use crate::text::space;
use crate::text::space::{blank, lines, trim};
use crate::util::safe_truncate;

verus! {

/// What stands between the fences of a fenced code block, or the text itself
/// where it is not one.
pub open spec fn unfenced(text: Seq<char>) -> Seq<char> {
    let t = space::trimmed(text);
    let all = space::lines_of(t);
    if !search::has_prefix(t, "```"@) || all.len() < 2 || space::trimmed(all.last()) != "```"@ {
        text
    } else {
        search::join_text(all.subrange(1, all.len() - 1), "\n"@)
    }
}

/// Takes the fences off a fenced code block.
pub fn strip_markdown_code_block(text: &str) -> (r: String)
    ensures
        r@ == unfenced(text@),
{
    let trimmed = trim(text);
    if !starts_with(trimmed.as_str(), "```") {
        return text.to_string();
    }
    let all = lines(trimmed.as_str());
    assert(search::views(all@).len() == all@.len());
    if all.len() < 2 {
        return text.to_string();
    }
    let last = trim(all[all.len() - 1].as_str());
    assert(search::views(all@).last() == all@.last()@);
    if !same_text(last.as_str(), "```") {
        return text.to_string();
    }
    let mut inner: Vec<String> = Vec::new();
    let mut i: usize = 1;
    assert(search::views(inner@) =~= search::views(all@).subrange(1, 1));
    while i < all.len() - 1
        invariant
            all@.len() >= 2,
            1 <= i <= all@.len() - 1,
            search::views(inner@) == search::views(all@).subrange(1, i as int),
        decreases all@.len() - i,
    {
        let line = all[i].clone();
        proof {
            search::lemma_views_push(inner@, line);
            assert(search::views(all@).subrange(1, i + 1) =~= search::views(all@).subrange(
                1,
                i as int,
            ).push(line@));
        }
        inner.push(line);
        i = i + 1;
    }
    join(&inner, "\n")
}

/// An action as it is carried out: code without its fences, and a thought in
/// place of a file without a path or a message without a recipient.
pub open spec fn processed(a: ActionModel) -> ActionModel {
    match a {
        ActionModel::Script { content } => ActionModel::Script { content: unfenced(content) },
        ActionModel::WriteFile { path, content } => if space::is_blank(path) {
            ActionModel::Thinking { content: "⚠️ write_file: 缺少文件路径"@ }
        } else {
            ActionModel::WriteFile { path, content: unfenced(content) }
        },
        ActionModel::SendMsg { recipient, content } => if space::is_blank(recipient) {
            ActionModel::Thinking { content: "⚠️ send_msg: 缺少收件人"@ }
        } else {
            a
        },
        _ => a,
    }
}

/// Makes an action ready to be carried out.
pub fn post_process_action(action: Action) -> (r: Action)
    ensures
        r@ == processed(action@),
{
    match action {
        Action::Script { content } => Action::Script {
            content: strip_markdown_code_block(content.as_str()),
        },
        Action::WriteFile { path, content } => {
            if blank(path.as_str()) {
                Action::Thinking { content: "⚠️ write_file: 缺少文件路径".to_string() }
            } else {
                Action::WriteFile { path, content: strip_markdown_code_block(content.as_str()) }
            }
        },
        Action::SendMsg { recipient, content } => {
            if blank(recipient.as_str()) {
                Action::Thinking { content: "⚠️ send_msg: 缺少收件人".to_string() }
            } else {
                Action::SendMsg { recipient, content }
            }
        },
        other => other,
    }
}

/// What is noted of an answer that cannot be read.
pub open spec fn unreadable_text(error: Seq<char>, raw: Seq<char>) -> Seq<char> {
    "⚠️ action解析失败: "@ + error + "\n原始输出: "@ + bytes::byte_prefix(raw, 200)
}

/// The actions of a framed answer, ready to be carried out; where it cannot be
/// read, a single thought that says so and quotes `raw`.
pub open spec fn readable(input: Seq<char>, raw: Seq<char>, token: Seq<char>) -> Seq<ActionModel> {
    match markdown::answer_of(input, token) {
        Ok(v) => v.map_values(|a: ActionModel| processed(a)),
        Err(e) => seq![ActionModel::Thinking { content: unreadable_text(e, raw) }],
    }
}

/// An answer with its end marker, appended where it was missing.
pub open spec fn completed(raw: Seq<char>, token: Seq<char>) -> Seq<char> {
    let end = markdown::end_mark("Action"@, token);
    if search::has_suffix(space::trimmed(raw), end) {
        raw
    } else {
        space::trimmed(raw) + "\n"@ + end
    }
}

/// The actions of a raw answer: none where it holds no element.
pub open spec fn actions_of(raw: Seq<char>, token: Seq<char>) -> Seq<ActionModel> {
    if !search::has_text(raw, markdown::element_mark("Action"@, token)) {
        Seq::empty()
    } else {
        readable(completed(raw, token), raw, token)
    }
}

fn read_framed(input: &str, raw: &str, token: &str) -> (r: Vec<Action>)
    ensures
        action::models(r@) == readable(input@, raw@, token@),
{
    match Action::from_markdown(input, token) {
        Ok(list) => {
            let ghost wanted = action::models(list@).map_values(|a: ActionModel| processed(a));
            let mut out: Vec<Action> = Vec::new();
            let mut i: usize = 0;
            assert(action::models(out@) =~= wanted.take(0));
            while i < list.len()
                invariant
                    i <= list@.len(),
                    wanted == action::models(list@).map_values(|a: ActionModel| processed(a)),
                    action::models(out@) == wanted.take(i as int),
                decreases list@.len() - i,
            {
                let a = post_process_action(list[i].clone());
                proof {
                    action::lemma_models_push(out@, a);
                    assert(wanted[i as int] == processed(list@[i as int]@));
                    assert(wanted.take(i + 1) =~= wanted.take(i as int).push(a@));
                }
                out.push(a);
                i = i + 1;
            }
            assert(wanted.take(list@.len() as int) =~= wanted);
            out
        },
        Err(e) => {
            let mut text = "⚠️ action解析失败: ".to_string();
            text.push_str(e.as_str());
            text.push_str("\n原始输出: ");
            let quote = safe_truncate(raw, 200);
            text.push_str(quote.as_str());
            let mut out: Vec<Action> = Vec::new();
            let note = Action::Thinking { content: text };
            let ghost noted = note@;
            out.push(note);
            assert(action::models(out@) =~= seq![noted]);
            out
        },
    }
}

/// Reads the actions of a raw answer. This never fails: what cannot be read
/// becomes a thought.
pub fn parse_actions(raw: &str, separator_token: &str) -> (r: Result<Vec<Action>, String>)
    ensures
        match r {
            Ok(v) => action::models(v@) == actions_of(raw@, separator_token@),
            Err(_) => false,
        },
{
    let mark = element_marker("Action", separator_token);
    let end = end_marker("Action", separator_token);
    if !contains(raw, mark.as_str()) {
        let none: Vec<Action> = Vec::new();
        assert(action::models(none@) =~= Seq::<ActionModel>::empty());
        return Ok(none);
    }
    let core = trim(raw);
    let input = if ends_with(core.as_str(), end.as_str()) {
        raw.to_string()
    } else {
        let mut s = core.clone();
        s.push_str("\n");
        s.push_str(end.as_str());
        s
    };
    Ok(read_framed(input.as_str(), raw, separator_token))
}

/// The frame round a single element.
pub open spec fn framed(body: Seq<char>, token: Seq<char>) -> Seq<char> {
    markdown::element_mark("Action"@, token) + "\n"@ + space::trimmed(body) + "\n"@
        + markdown::end_mark("Action"@, token)
}

/// Reads a single element that comes without its frame.
pub fn parse_single_action_chunk(body: &str, separator_token: &str) -> (r: Vec<Action>)
    ensures
        action::models(r@) == readable(framed(body@, separator_token@), body@, separator_token@),
{
    let mut input = element_marker("Action", separator_token);
    let end = end_marker("Action", separator_token);
    input.push_str("\n");
    let core = trim(body);
    input.push_str(core.as_str());
    input.push_str("\n");
    input.push_str(end.as_str());
    read_framed(input.as_str(), body, separator_token)
}

/// What is carried out never sends to nobody and never writes to nowhere.
pub proof fn law_processed_is_aimed(a: ActionModel)
    ensures
        match processed(a) {
            ActionModel::SendMsg { recipient, .. } => !space::is_blank(recipient),
            ActionModel::WriteFile { path, .. } => !space::is_blank(path),
            _ => true,
        },
{
}

/// Completing an answer twice is completing it once: an end marker that was
/// left out and one that was written are read alike.
pub proof fn law_end_marker_may_be_left_out(raw: Seq<char>, token: Seq<char>)
    requires
        token.len() > 0 ==> !space::is_space(token.last()),
    ensures
        search::has_suffix(
            space::trimmed(completed(raw, token)),
            markdown::end_mark("Action"@, token),
        ),
        completed(completed(raw, token), token) == completed(raw, token),
{
    let end = markdown::end_mark("Action"@, token);
    reveal_strlit("Action");
    reveal_strlit("-end-");
    assert(end[0] == 'A');
    assert(!space::is_space(end.last()));
    if !search::has_suffix(space::trimmed(raw), end) {
        lemma_trimmed_keeps_suffix(space::trimmed(raw) + "\n"@, end);
    }
}

proof fn lemma_trimmed_keeps_suffix(a: Seq<char>, end: Seq<char>)
    requires
        end.len() > 0,
        !space::is_space(end[0]),
        !space::is_space(end.last()),
    ensures
        search::has_suffix(space::trimmed(a + end), end),
{
    let s = a + end;
    space::lemma_skip_space(s, 0);
    let k = space::skip_space(s, 0);
    assert(s[a.len() as int] == end[0]);
    let t = s.skip(k);
    assert(t.last() == end.last());
    assert(space::back_space(t, t.len() as int) == t.len());
    assert(t.take(t.len() as int) =~= t);
    assert(t.subrange(t.len() - end.len(), t.len() as int) =~= end);
}

} // verus!
