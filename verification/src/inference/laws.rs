//! What answers are read as, stated on the texts themselves.
use vstd::prelude::*;

use crate::inference::action::{Action, ActionModel};
use crate::inference::answer;
use crate::inference::incoming;
use crate::inference::incoming::HeardModel;
use crate::inference::markdown;
use crate::inference::parser;
use crate::text::number;
use crate::text::search;
use crate::text::space;

verus! {

/// A line: it holds no newline, and no carriage return at its end.
pub open spec fn is_line(s: Seq<char>) -> bool {
    &&& forall|i: int| 0 <= i < s.len() ==> #[trigger] s[i] != '\n'
    &&& s.len() > 0 ==> s.last() != '\r'
}

/// The only element of an answer, written out.
pub open spec fn lone_answer(element: Seq<char>, token: Seq<char>) -> Seq<char> {
    "Action-"@ + token + "\n"@ + element + "\nAction-end-"@ + token
}

/// A block of code between fences, written out.
pub open spec fn fenced(open: Seq<char>, lines: Seq<Seq<char>>) -> Seq<char> {
    if lines.len() == 0 {
        open + "\n```"@
    } else {
        open + "\n"@ + search::join_text(lines, "\n"@) + "\n```"@
    }
}

proof fn lemma_lines_from(a: Seq<char>, parts: Seq<Seq<char>>)
    requires
        parts.len() > 0,
        forall|i: int| 0 <= i < parts.len() ==> is_line(#[trigger] parts[i]),
        parts.last().len() > 0,
    ensures
        space::lines_from(a + search::join_text(parts, "\n"@), a.len() as int) == parts,
    decreases parts.len(),
{
    reveal_strlit("\n");
    let first = parts[0];
    let text = a + search::join_text(parts, "\n"@);
    let n = a.len() as int;
    space::lemma_newline_from(text, n);
    if parts.len() == 1 {
        assert(search::join_text(parts, "\n"@) == first);
        assert(text.skip(n) =~= first);
        assert(parts =~= seq![first]);
        if space::newline_from(text, n) is Some {
            let j = space::newline_from(text, n)->0;
            assert(text[j] == first[j - n]);
        }
    } else {
        let rest = parts.drop_first();
        assert(parts =~= seq![first] + rest);
        search::lemma_join_prepend(first, rest, "\n"@);
        let tail = search::join_text(rest, "\n"@);
        assert forall|i: int| 0 <= i < rest.len() implies is_line(#[trigger] rest[i]) by {
            assert(rest[i] == parts[i + 1]);
        }
        let head = a + first + "\n"@;
        assert(text =~= head + tail);
        lemma_lines_from(head, rest);
        let j = n + first.len();
        assert(text[j] == '\n');
        assert(space::newline_from(text, n) == Some(j)) by {
            let f = space::newline_from(text, n);
            if f is Some && f->0 < j {
                assert(text[f->0] == first[f->0 - n]);
            }
        }
        assert(text.subrange(n, j) =~= first);
        assert(space::without_cr(first) == first);
        assert(head.len() == j + 1);
        if tail.len() == 0 {
            assert(space::lines_from(text, j + 1) == rest);
        }
        assert(space::lines_from(text, n) =~= seq![first] + rest);
    }
}

/// The lines of a text are those that it was put together from.
pub proof fn law_lines_are_read_back(parts: Seq<Seq<char>>)
    requires
        parts.len() > 0,
        forall|i: int| 0 <= i < parts.len() ==> is_line(#[trigger] parts[i]),
        parts.last().len() > 0,
    ensures
        space::lines_of(search::join_text(parts, "\n"@)) == parts,
{
    lemma_lines_from(Seq::empty(), parts);
    assert(Seq::<char>::empty() + search::join_text(parts, "\n"@) =~= search::join_text(
        parts,
        "\n"@,
    ));
}

proof fn lemma_fenced(open: Seq<char>, lines: Seq<Seq<char>>)
    requires
        is_line(open),
        search::has_prefix(open, "```"@),
        forall|i: int| 0 <= i < lines.len() ==> is_line(#[trigger] lines[i]),
    ensures
        parser::unfenced(fenced(open, lines)) == search::join_text(lines, "\n"@),
        !space::is_blank(fenced(open, lines)),
        !space::is_space(fenced(open, lines).last()),
{
    reveal_strlit("```");
    reveal_strlit("\n```");
    reveal_strlit("\n");
    let text = fenced(open, lines);
    let all = seq![open] + lines + seq!["```"@];
    let middle = lines + seq!["```"@];
    assert(all =~= seq![open] + middle);
    search::lemma_join_prepend(open, middle, "\n"@);
    assert(middle =~= lines.push("```"@));
    search::lemma_join_push(lines, "\n"@, "```"@);
    assert(search::join_text(all, "\n"@) =~= text);
    assert forall|i: int| 0 <= i < all.len() implies is_line(#[trigger] all[i]) by {
        if 0 < i < all.len() - 1 {
            assert(all[i] == lines[i - 1]);
        } else if i == all.len() - 1 {
            assert(all[i] == "```"@);
        }
    }
    assert(all.last() == "```"@);
    law_lines_are_read_back(all);
    assert(open.subrange(0, 3)[0] == open[0]);
    assert(text[0] == '`');
    assert(text.last() == '`');
    space::lemma_skip_space(text, 0);
    assert(space::skip_space(text, 0) == 0);
    assert(space::trimmed_start(text) =~= text);
    assert(space::back_space(text, text.len() as int) == text.len());
    assert(space::trimmed(text) =~= text);
    assert(text.subrange(0, 3) =~= "```"@) by {
        assert(text.subrange(0, 3) =~= open.subrange(0, 3));
    }
    let fence = "```"@;
    assert(space::skip_space(fence, 0) == 0);
    assert(space::trimmed_start(fence) =~= fence);
    assert(space::back_space(fence, 3) == 3);
    assert(space::trimmed(fence) =~= fence);
    assert(all.subrange(1, all.len() - 1) =~= lines);
}

proof fn lemma_lone(a: ActionModel, token: Seq<char>)
    ensures
        answer::answer_text(seq![a], token) == lone_answer(answer::spelled(a, token), token),
{
    reveal_strlit("Action");
    reveal_strlit("-");
    reveal_strlit("-end-");
    reveal_strlit("Action-");
    reveal_strlit("\nAction-end-");
    reveal_strlit("\n");
    let chunks = seq![a].map_values(|x: ActionModel| answer::spelled(x, token));
    assert(chunks =~= seq![answer::spelled(a, token)]);
    assert(answer::answer_text(seq![a], token) =~= lone_answer(answer::spelled(a, token), token));
}

proof fn lemma_read_lone(a: ActionModel, token: Seq<char>)
    requires
        answer::is_token(token),
        answer::is_writable(a, token),
    ensures
        parser::actions_of(lone_answer(answer::spelled(a, token), token), token) == seq![
            parser::processed(a),
        ],
{
    lemma_lone(a, token);
    assert forall|i: int| 0 <= i < seq![a].len() implies answer::is_writable(
        #[trigger] seq![a][i],
        token,
    ) by {}
    answer::law_answers_are_read_back(seq![a], token);
    assert(seq![a].map_values(|x: ActionModel| parser::processed(x)) =~= seq![
        parser::processed(a),
    ]);
}

/// The code of a script that is written between fences is run without them: what
/// is left are the lines between the fences, and nothing else.
pub proof fn law_fenced_scripts_are_run_bare(
    open: Seq<char>,
    lines: Seq<Seq<char>>,
    token: Seq<char>,
)
    requires
        answer::is_token(token),
        is_line(open),
        search::has_prefix(open, "```"@),
        forall|i: int| 0 <= i < lines.len() ==> is_line(#[trigger] lines[i]),
        !search::has_text(fenced(open, lines), token),
    ensures
        parser::actions_of(lone_answer("script\n"@ + fenced(open, lines), token), token) == seq![
            ActionModel::Script { content: search::join_text(lines, "\n"@) },
        ],
{
    let content = fenced(open, lines);
    let a = ActionModel::Script { content };
    lemma_fenced(open, lines);
    assert(answer::field_values(a) =~= seq![content]);
    assert(answer::is_writable(a, token));
    lemma_read_lone(a, token);
    reveal_strlit("script");
    reveal_strlit("\n");
    reveal_strlit("script\n");
    assert(answer::spelled(a, token) =~= "script\n"@ + content);
}

/// The content of a file that is written between fences is kept without them.
pub proof fn law_fenced_files_are_written_bare(
    path: Seq<char>,
    open: Seq<char>,
    lines: Seq<Seq<char>>,
    token: Seq<char>,
)
    requires
        answer::is_token(token),
        !space::is_blank(path),
        path.last() != '\n',
        !search::has_text(path, token),
        is_line(open),
        search::has_prefix(open, "```"@),
        forall|i: int| 0 <= i < lines.len() ==> is_line(#[trigger] lines[i]),
        !search::has_text(fenced(open, lines), token),
    ensures
        parser::actions_of(
            lone_answer(
                "write_file\npath-"@ + token + "\n"@ + path + "\ncontent-"@ + token + "\n"@ + fenced(
                    open,
                    lines,
                ),
                token,
            ),
            token,
        ) == seq![
            ActionModel::WriteFile { path, content: search::join_text(lines, "\n"@) },
        ],
{
    let content = fenced(open, lines);
    let a = ActionModel::WriteFile { path, content };
    lemma_fenced(open, lines);
    lemma_pair(a, "write_file"@, "path"@, path, "content"@, content, token);
    reveal_strlit("write_file");
    reveal_strlit("write_file\npath-");
    reveal_strlit("path");
    reveal_strlit("content");
    reveal_strlit("\ncontent-");
    reveal_strlit("-");
    reveal_strlit("\n");
    assert(answer::spelled(a, token) =~= "write_file\npath-"@ + token + "\n"@ + path
        + "\ncontent-"@ + token + "\n"@ + content);
    lemma_read_lone(a, token);
}

/// An action with two texts, as it is spelled.
proof fn lemma_pair(
    a: ActionModel,
    head: Seq<char>,
    n: Seq<char>,
    x: Seq<char>,
    m: Seq<char>,
    y: Seq<char>,
    token: Seq<char>,
)
    requires
        a is SendMsg || a is WriteFile || a is CreateInstance || a is Distill,
        crate::inference::action::kind_name_text(a) == head,
        answer::field_names(a) == seq![n, m],
        answer::field_values(a) == seq![x, y],
        answer::fits_inside(x, token),
        answer::fits_last(y, token),
    ensures
        answer::spelled(a, token) == head + "\n"@ + (n + "-"@ + token + "\n"@ + x + "\n"@ + (m
            + "-"@ + token + "\n"@ + y)),
        answer::is_writable(a, token),
{
    let names = seq![n, m];
    let values = seq![x, y];
    assert(names.skip(1) =~= seq![m]);
    assert(values.skip(1) =~= seq![y]);
    reveal_with_fuel(answer::fields_text, 3);
    assert(values.last() == y);
    assert forall|i: int| 0 <= i < values.len() - 1 implies answer::fits_inside(
        #[trigger] values[i],
        token,
    ) by {
        assert(values[i] == x);
    }
}

/// Actions that are aimed at something, and whose code is not between fences.
pub open spec fn is_plain(a: ActionModel) -> bool {
    match a {
        ActionModel::Script { content } => !search::has_prefix(
            space::trimmed(content),
            "```"@,
        ),
        ActionModel::WriteFile { path, content } => !space::is_blank(path)
            && !search::has_prefix(space::trimmed(content), "```"@),
        ActionModel::SendMsg { recipient, .. } => !space::is_blank(recipient),
        _ => true,
    }
}

/// Answers are carried out as they are written: reading one gives its actions, all
/// of them, in order and letter for letter, where no code stands between fences.
pub proof fn law_plain_answers_are_carried_out_as_written(
    actions: Seq<ActionModel>,
    token: Seq<char>,
)
    requires
        answer::is_token(token),
        forall|i: int| 0 <= i < actions.len() ==> answer::is_writable(#[trigger] actions[i], token),
        forall|i: int| 0 <= i < actions.len() ==> is_plain(#[trigger] actions[i]),
    ensures
        parser::actions_of(answer::answer_text(actions, token), token) == actions,
{
    answer::law_answers_are_read_back(actions, token);
    let read = actions.map_values(|a: ActionModel| parser::processed(a));
    assert forall|i: int| 0 <= i < actions.len() implies read[i] == actions[i] by {
        assert(is_plain(actions[i]));
    }
    assert(read =~= actions);
}

/// A message that is written out as an answer is sent to whom it names.
pub proof fn law_written_messages_are_sent(
    recipient: Seq<char>,
    content: Seq<char>,
    token: Seq<char>,
)
    requires
        answer::is_token(token),
        answer::fits_inside(recipient, token),
        answer::fits_last(content, token),
    ensures
        parser::actions_of(
            lone_answer(
                "send_msg\nrecipient-"@ + token + "\n"@ + recipient + "\ncontent-"@ + token + "\n"@
                    + content,
                token,
            ),
            token,
        ) == seq![ActionModel::SendMsg { recipient, content }],
{
    let a = ActionModel::SendMsg { recipient, content };
    lemma_pair(a, "send_msg"@, "recipient"@, recipient, "content"@, content, token);
    reveal_strlit("send_msg");
    reveal_strlit("recipient");
    reveal_strlit("content");
    reveal_strlit("send_msg\nrecipient-");
    reveal_strlit("\ncontent-");
    reveal_strlit("-");
    reveal_strlit("\n");
    assert(answer::spelled(a, token) =~= "send_msg\nrecipient-"@ + token + "\n"@ + recipient
        + "\ncontent-"@ + token + "\n"@ + content);
    lemma_read_lone(a, token);
}

/// A file that is written out as an answer is written as it stands there.
pub proof fn law_written_files_are_kept(path: Seq<char>, content: Seq<char>, token: Seq<char>)
    requires
        answer::is_token(token),
        answer::fits_inside(path, token),
        answer::fits_last(content, token),
        !search::has_prefix(space::trimmed(content), "```"@),
    ensures
        parser::actions_of(
            lone_answer(
                "write_file\npath-"@ + token + "\n"@ + path + "\ncontent-"@ + token + "\n"@
                    + content,
                token,
            ),
            token,
        ) == seq![ActionModel::WriteFile { path, content }],
{
    let a = ActionModel::WriteFile { path, content };
    lemma_pair(a, "write_file"@, "path"@, path, "content"@, content, token);
    reveal_strlit("write_file");
    reveal_strlit("path");
    reveal_strlit("content");
    reveal_strlit("write_file\npath-");
    reveal_strlit("\ncontent-");
    reveal_strlit("-");
    reveal_strlit("\n");
    assert(answer::spelled(a, token) =~= "write_file\npath-"@ + token + "\n"@ + path
        + "\ncontent-"@ + token + "\n"@ + content);
    lemma_read_lone(a, token);
}

/// A new instance that is written out as an answer gets the name and the knowledge
/// that stand there.
pub proof fn law_written_instances_are_created(
    name: Seq<char>,
    knowledge: Seq<char>,
    token: Seq<char>,
)
    requires
        answer::is_token(token),
        answer::fits_inside(name, token),
        answer::fits_last(knowledge, token),
    ensures
        parser::actions_of(
            lone_answer(
                "create_instance\nname-"@ + token + "\n"@ + name + "\nknowledge-"@ + token + "\n"@
                    + knowledge,
                token,
            ),
            token,
        ) == seq![ActionModel::CreateInstance { name, knowledge }],
{
    let a = ActionModel::CreateInstance { name, knowledge };
    lemma_pair(a, "create_instance"@, "name"@, name, "knowledge"@, knowledge, token);
    reveal_strlit("create_instance");
    reveal_strlit("name");
    reveal_strlit("knowledge");
    reveal_strlit("create_instance\nname-");
    reveal_strlit("\nknowledge-");
    reveal_strlit("-");
    reveal_strlit("\n");
    assert(answer::spelled(a, token) =~= "create_instance\nname-"@ + token + "\n"@ + name
        + "\nknowledge-"@ + token + "\n"@ + knowledge);
    lemma_read_lone(a, token);
}

/// What is to be distilled is named by the answer, and so is what is left of it.
pub proof fn law_written_distillings_are_aimed(
    target: Seq<char>,
    summary: Seq<char>,
    token: Seq<char>,
)
    requires
        answer::is_token(token),
        answer::fits_inside(target, token),
        answer::fits_last(summary, token),
    ensures
        parser::actions_of(
            lone_answer(
                "distill\ntarget_action_id-"@ + token + "\n"@ + target + "\nsummary-"@ + token
                    + "\n"@ + summary,
                token,
            ),
            token,
        ) == seq![ActionModel::Distill { target_action_id: target, summary }],
{
    let a = ActionModel::Distill { target_action_id: target, summary };
    lemma_pair(a, "distill"@, "target_action_id"@, target, "summary"@, summary, token);
    reveal_strlit("distill");
    reveal_strlit("target_action_id");
    reveal_strlit("summary");
    reveal_strlit("distill\ntarget_action_id-");
    reveal_strlit("\nsummary-");
    reveal_strlit("-");
    reveal_strlit("\n");
    assert(answer::spelled(a, token) =~= "distill\ntarget_action_id-"@ + token + "\n"@ + target
        + "\nsummary-"@ + token + "\n"@ + summary);
    lemma_read_lone(a, token);
}

/// A replacement that is written out as an answer names the file, what is looked for
/// and what takes its place, in this order.
pub proof fn law_written_replacements_are_made(
    path: Seq<char>,
    wanted: Seq<char>,
    replacement: Seq<char>,
    token: Seq<char>,
)
    requires
        answer::is_token(token),
        answer::fits_inside(path, token),
        answer::fits_inside(wanted, token),
        answer::fits_last(replacement, token),
    ensures
        parser::actions_of(
            lone_answer(
                "replace_in_file\npath-"@ + token + "\n"@ + path + "\nsearch-"@ + token + "\n"@
                    + wanted + "\nreplace-"@ + token + "\n"@ + replacement,
                token,
            ),
            token,
        ) == seq![
            ActionModel::ReplaceInFile { path, search: wanted, replace: replacement },
        ],
{
    let a = ActionModel::ReplaceInFile { path, search: wanted, replace: replacement };
    reveal_strlit("replace_in_file");
    reveal_strlit("path");
    reveal_strlit("search");
    reveal_strlit("replace");
    reveal_strlit("replace_in_file\npath-");
    reveal_strlit("\nsearch-");
    reveal_strlit("\nreplace-");
    reveal_strlit("-");
    reveal_strlit("\n");
    let names = answer::field_names(a);
    let values = answer::field_values(a);
    assert(names.skip(1) =~= seq!["search"@, "replace"@]);
    assert(values.skip(1) =~= seq![wanted, replacement]);
    assert(names.skip(1).skip(1) =~= seq!["replace"@]);
    assert(values.skip(1).skip(1) =~= seq![replacement]);
    reveal_with_fuel(answer::fields_text, 4);
    assert(answer::spelled(a, token) =~= "replace_in_file\npath-"@ + token + "\n"@ + path
        + "\nsearch-"@ + token + "\n"@ + wanted + "\nreplace-"@ + token + "\n"@ + replacement);
    assert forall|i: int| 0 <= i < values.len() - 1 implies answer::fits_inside(
        #[trigger] values[i],
        token,
    ) by {
        assert(i == 0 || i == 1);
    }
    assert(answer::is_writable(a, token));
    lemma_read_lone(a, token);
}

/// Thoughts, scripts, summaries and profiles that are written out as answers are read
/// as what they say they are, with the text that stands behind their name.
pub proof fn law_written_texts_are_taken(content: Seq<char>, token: Seq<char>)
    requires
        answer::is_token(token),
        answer::fits_last(content, token),
    ensures
        parser::actions_of(lone_answer("thinking\n"@ + content, token), token) == seq![
            ActionModel::Thinking { content },
        ],
        parser::actions_of(lone_answer("summary\n"@ + content, token), token) == seq![
            ActionModel::Summary { content },
        ],
        parser::actions_of(lone_answer("set_profile\n"@ + content, token), token) == seq![
            ActionModel::SetProfile { content },
        ],
        !search::has_prefix(space::trimmed(content), "```"@) ==> parser::actions_of(
            lone_answer("script\n"@ + content, token),
            token,
        ) == seq![ActionModel::Script { content }],
{
    reveal_strlit("\n");
    reveal_strlit("thinking");
    reveal_strlit("thinking\n");
    reveal_strlit("summary");
    reveal_strlit("summary\n");
    reveal_strlit("set_profile");
    reveal_strlit("set_profile\n");
    reveal_strlit("script");
    reveal_strlit("script\n");
    assert(seq![content].last() == content);
    let thought = ActionModel::Thinking { content };
    assert(answer::spelled(thought, token) =~= "thinking\n"@ + content);
    lemma_read_lone(thought, token);
    let summary = ActionModel::Summary { content };
    assert(answer::spelled(summary, token) =~= "summary\n"@ + content);
    lemma_read_lone(summary, token);
    let profile = ActionModel::SetProfile { content };
    assert(answer::spelled(profile, token) =~= "set_profile\n"@ + content);
    lemma_read_lone(profile, token);
    let script = ActionModel::Script { content };
    assert(answer::spelled(script, token) =~= "script\n"@ + content);
    lemma_read_lone(script, token);
}

/// An idle that is written out lasts as long as it says, or without end; and what
/// waits is read where the answer says so.
pub proof fn law_written_waits_are_kept(secs: u64, token: Seq<char>)
    requires
        answer::is_token(token),
    ensures
        parser::actions_of(
            lone_answer("idle\n"@ + number::dec(secs as nat), token),
            token,
        ) == seq![ActionModel::Idle { timeout_secs: Some(secs) }],
        parser::actions_of(lone_answer("idle"@, token), token) == seq![
            ActionModel::Idle { timeout_secs: None },
        ],
        parser::actions_of(lone_answer("read_msg"@, token), token) == seq![ActionModel::ReadMsg],
{
    reveal_strlit("\n");
    reveal_strlit("idle");
    reveal_strlit("idle\n");
    let timed = ActionModel::Idle { timeout_secs: Some(secs) };
    assert(answer::spelled(timed, token) =~= "idle\n"@ + number::dec(secs as nat));
    lemma_read_lone(timed, token);
    lemma_read_lone(ActionModel::Idle { timeout_secs: None }, token);
    lemma_read_lone(ActionModel::ReadMsg, token);
}

/// A text without an action asks for nothing.
pub proof fn law_mere_talk_is_no_action(raw: Seq<char>, token: Seq<char>)
    requires
        !search::has_text(raw, "Action-"@ + token),
    ensures
        parser::actions_of(raw, token) == Seq::<ActionModel>::empty(),
{
    reveal_strlit("Action");
    reveal_strlit("-");
    reveal_strlit("Action-");
    assert(markdown::element_mark("Action"@, token) =~= "Action-"@ + token);
}

/// Whatever an answer says, what is carried out is one of two things: its actions, or
/// a single thought that says that the answer cannot be read.
pub proof fn law_unreadable_answers_become_thoughts(raw: Seq<char>, token: Seq<char>)
    requires
        search::has_text(raw, "Action-"@ + token),
        markdown::answer_of(parser::completed(raw, token), token) is Err,
    ensures
        ({
            let read = parser::actions_of(raw, token);
            &&& read.len() == 1
            &&& read[0] matches ActionModel::Thinking { content } && search::has_prefix(
                content,
                "⚠️ action解析失败: "@,
            )
        }),
{
    reveal_strlit("Action");
    reveal_strlit("-");
    reveal_strlit("Action-");
    assert(markdown::element_mark("Action"@, token) =~= "Action-"@ + token);
    let e = markdown::answer_of(parser::completed(raw, token), token)->Err_0;
    let lead = "⚠️ action解析失败: "@;
    let note = parser::unreadable_text(e, raw);
    assert(note.subrange(0, lead.len() as int) =~= lead);
}

proof fn lemma_stream_of_one(element: Seq<char>, token: Seq<char>)
    requires
        answer::is_token(token),
        element.len() > 0,
        !space::is_space(element[0]),
        !space::is_space(element.last()),
        !search::has_text(element, "Action-"@ + token),
    ensures
        ({
            let all = search::split_text(
                lone_answer(element, token),
                incoming::separator(token),
            );
            &&& all.len() == 2
            &&& incoming::stretches_heard(all, 1, false, token) == Seq::<HeardModel>::empty()
            &&& incoming::end_heard(all.last(), true, token) == incoming::element_heard(
                element,
                token,
            )
        }),
{
    reveal_strlit("Action");
    reveal_strlit("-");
    reveal_strlit("-end-");
    reveal_strlit("Action-");
    reveal_strlit("\nAction-end-");
    reveal_strlit("\n");
    let sep = incoming::separator(token);
    let mark = "Action-"@ + token;
    let end = markdown::end_mark("Action"@, token);
    let text = lone_answer(element, token);
    let rest = element + "\n"@ + end;
    assert(sep =~= mark + "\n"@);
    assert(text =~= sep + rest);
    assert(text.subrange(0, sep.len() as int) =~= sep);
    assert(search::occurs_at(text, sep, 0));
    search::lemma_find_is_first(text, sep, 0);
    assert(text.take(0) =~= Seq::<char>::empty());
    assert(text.skip(sep.len() as int) =~= rest);
    search::lemma_find_from(rest, sep, 0);
    if search::find_text(rest, sep) is Some {
        let i = search::find_text(rest, sep)->0;
        let n = element.len() as int;
        let m = mark.len() as int;
        assert(rest.subrange(i, i + sep.len())[m] == rest[i + m]);
        assert(rest[i + m] == '\n');
        if i + m < n {
            assert(element.subrange(i, i + m) =~= mark) by {
                assert(rest.subrange(i, i + sep.len()).take(m) =~= element.subrange(i, i + m));
                assert(sep.take(m) =~= mark);
            }
            assert(search::occurs_at(element, mark, i));
        } else if i + m == n {
            assert(element.subrange(i, i + m) =~= mark) by {
                assert(rest.subrange(i, i + sep.len()).take(m) =~= element.subrange(i, i + m));
                assert(sep.take(m) =~= mark);
            }
            assert(search::occurs_at(element, mark, i));
        } else {
            let k = i + m - n - 1;
            assert(rest[i + m] == end[k]);
            assert(end[k] != '\n') by {
                if k >= 11 {
                    assert(end[k] == token[k - 11]);
                    assert(space::is_space('\n'));
                } else {
                    assert(end.take(11) =~= "Action"@ + "-end-"@);
                    assert(end[k] == end.take(11)[k]);
                }
            }
        }
    }
    let all = search::split_text(text, sep);
    assert(search::split_text(rest, sep) == seq![rest]);
    assert(all =~= seq![Seq::<char>::empty(), rest]);
    assert(space::is_blank(Seq::<char>::empty()));
    assert(all[0] == Seq::<char>::empty());
    reveal_with_fuel(incoming::stretches_heard, 2);
    assert(incoming::stretches_heard(all, 1, false, token) =~= Seq::<HeardModel>::empty());
    assert(rest.last() == token.last());
    space::lemma_skip_space(rest, 0);
    assert(rest[0] == element[0]);
    assert(space::skip_space(rest, 0) == 0);
    assert(space::trimmed_start(rest) =~= rest);
    assert(space::back_space(rest, rest.len() as int) == rest.len());
    assert(space::trimmed(rest) =~= rest);
    assert(rest.subrange(rest.len() - end.len(), rest.len() as int) =~= end);
    let body = rest.take(rest.len() - end.len());
    assert(body =~= element + "\n"@);
    space::lemma_skip_space(body, 0);
    assert(body[0] == element[0]);
    assert(space::skip_space(body, 0) == 0);
    assert(space::trimmed_start(body) =~= body);
    assert(space::is_space('\n'));
    assert(body[body.len() - 2] == element.last());
    assert(space::back_space(body, body.len() - 1) == body.len() - 1);
    assert(space::back_space(body, body.len() as int) == body.len() - 1);
    assert(space::trimmed(body) =~= element);
    assert(space::skip_space(element, 0) == 0);
    assert(space::trimmed_start(element) =~= element);
    assert(space::back_space(element, element.len() as int) == element.len());
    assert(space::trimmed(element) =~= element);
}

/// An action that streams in is heard once the answer is over, and it is the one that
/// stands there.
pub proof fn law_streamed_actions_are_heard(a: ActionModel, token: Seq<char>)
    requires
        answer::is_token(token),
        answer::is_writable(a, token),
    ensures
        ({
            let all = search::split_text(
                lone_answer(answer::spelled(a, token), token),
                incoming::separator(token),
            );
            &&& incoming::stretches_heard(all, all.len() - 1, false, token)
                == Seq::<HeardModel>::empty()
            &&& incoming::end_heard(all.last(), true, token) == seq![HeardModel::Wanted(a)]
        }),
{
    answer::lemma_spelled(a, token);
    let element = answer::spelled(a, token);
    reveal_strlit("Action");
    reveal_strlit("-");
    reveal_strlit("Action-");
    assert(markdown::element_mark("Action"@, token) =~= "Action-"@ + token);
    lemma_stream_of_one(element, token);
    assert(space::skip_space(element, 0) == 0);
    assert(space::trimmed_start(element) =~= element);
    assert(space::back_space(element, element.len() as int) == element.len());
    assert(space::trimmed(element) =~= element);
}

/// A script or a file between fences is made ready without them, and one without fences
/// is made ready as it is.
pub proof fn law_fences_are_taken_off(
    a: Action,
    r: Action,
    open: Seq<char>,
    lines: Seq<Seq<char>>,
)
    requires
        call_ensures(parser::post_process_action, (a,), r),
        is_line(open),
        search::has_prefix(open, "```"@),
        forall|i: int| 0 <= i < lines.len() ==> is_line(#[trigger] lines[i]),
    ensures
        a@ == (ActionModel::Script { content: fenced(open, lines) }) ==> r@ == (
        ActionModel::Script { content: search::join_text(lines, "\n"@) }),
        a@ matches ActionModel::WriteFile { path, content } ==> content == fenced(open, lines)
            && !space::is_blank(path) ==> r@ == (ActionModel::WriteFile {
            path,
            content: search::join_text(lines, "\n"@),
        }),
{
    lemma_fenced(open, lines);
}

} // verus!
