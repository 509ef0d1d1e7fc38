//! What prompts and records show, stated on the texts themselves.
use vstd::prelude::*;

use crate::inference::beat;
use crate::inference::beat::{
    BeatRequest, EnvironmentInfo, SessionBlock, SessionMessage, StatusInfo,
};
use crate::inference::capture;
use crate::inference::capture::CaptureRequest;
use crate::inference::compress;
use crate::inference::compress::CompressRequest;
use crate::inference::render;
use crate::inference::schema;
use crate::text::parts;
use crate::text::search;

verus! {

/// A value stands in a text under its title: on one line, or where it has several
/// below a heading between marks.
pub open spec fn stands_under(
    text: Seq<char>,
    marks: Seq<char>,
    title: Seq<char>,
    value: Seq<char>,
) -> bool {
    if search::has_text(value, "\n"@) {
        search::has_text(text, marks + " "@ + title + " "@ + marks + "\n"@ + value + "\n"@)
    } else {
        search::has_text(text, title + ": "@ + value + "\n"@)
    }
}

/// A value stands in a text under its title: on one line, or where it has several
/// below a comment.
pub open spec fn stands_behind(text: Seq<char>, title: Seq<char>, value: Seq<char>) -> bool {
    if search::has_text(value, "\n"@) {
        search::has_text(text, "// "@ + title + "\n"@ + value + "\n"@)
    } else {
        search::has_text(text, title + ": "@ + value + "\n"@)
    }
}

/// What stands under a title in a part stands under it in the whole.
pub(crate) proof fn lemma_under(
    whole: Seq<char>,
    part: Seq<char>,
    marks: Seq<char>,
    title: Seq<char>,
    value: Seq<char>,
)
    requires
        search::has_text(whole, part),
        stands_under(part, marks, title, value),
    ensures
        stands_under(whole, marks, title, value),
{
    if search::has_text(value, "\n"@) {
        parts::lemma_part_of_part(
            whole,
            part,
            marks + " "@ + title + " "@ + marks + "\n"@ + value + "\n"@,
        );
    } else {
        parts::lemma_part_of_part(whole, part, title + ": "@ + value + "\n"@);
    }
}

pub(crate) proof fn lemma_behind(whole: Seq<char>, part: Seq<char>, title: Seq<char>, value: Seq<char>)
    requires
        search::has_text(whole, part),
        stands_behind(part, title, value),
    ensures
        stands_behind(whole, title, value),
{
    if search::has_text(value, "\n"@) {
        parts::lemma_part_of_part(whole, part, "// "@ + title + "\n"@ + value + "\n"@);
    } else {
        parts::lemma_part_of_part(whole, part, title + ": "@ + value + "\n"@);
    }
}

proof fn lemma_headed(marks: Seq<char>, title: Seq<char>, value: Seq<char>)
    ensures
        search::has_text(
            "\n"@ + marks + " "@ + title + " "@ + marks + "\n"@ + value + "\n"@,
            marks + " "@ + title + " "@ + marks + "\n"@ + value + "\n"@,
        ),
{
    let headed = marks + " "@ + title + " "@ + marks + "\n"@ + value + "\n"@;
    parts::lemma_whole(headed);
    parts::lemma_part_of_sum("\n"@, headed, headed);
    parts::lemma_assoc("\n"@, marks, " "@);
    parts::lemma_assoc("\n"@, marks + " "@, title);
    parts::lemma_assoc("\n"@, marks + " "@ + title, " "@);
    parts::lemma_assoc("\n"@, marks + " "@ + title + " "@, marks);
    parts::lemma_assoc("\n"@, marks + " "@ + title + " "@ + marks, "\n"@);
    parts::lemma_assoc("\n"@, marks + " "@ + title + " "@ + marks + "\n"@, value);
    parts::lemma_assoc("\n"@, marks + " "@ + title + " "@ + marks + "\n"@ + value, "\n"@);
}

proof fn lemma_noted(title: Seq<char>, value: Seq<char>)
    ensures
        search::has_text(
            "\n// "@ + title + "\n"@ + value + "\n"@,
            "// "@ + title + "\n"@ + value + "\n"@,
        ),
{
    reveal_strlit("\n");
    reveal_strlit("\n// ");
    reveal_strlit("// ");
    assert("\n// "@ =~= "\n"@ + "// "@);
    let noted = "// "@ + title + "\n"@ + value + "\n"@;
    parts::lemma_whole(noted);
    parts::lemma_part_of_sum("\n"@, noted, noted);
    parts::lemma_assoc("\n"@, "// "@, title);
    parts::lemma_assoc("\n"@, "// "@ + title, "\n"@);
    parts::lemma_assoc("\n"@, "// "@ + title + "\n"@, value);
    parts::lemma_assoc("\n"@, "// "@ + title + "\n"@ + value, "\n"@);
}

/// A field shows its value under its title, and an empty one shows nothing.
pub proof fn law_fields_show_their_value(marks: Seq<char>, title: Seq<char>, value: Seq<char>)
    ensures
        value.len() > 0 ==> stands_under(
            render::field_text(marks, title, value),
            marks,
            title,
            value,
        ),
        value.len() > 0 ==> stands_behind(render::weak_text(title, value), title, value),
        value.len() == 0 ==> render::field_text(marks, title, value).len() == 0,
        value.len() == 0 ==> render::weak_text(title, value).len() == 0,
{
    parts::lemma_whole(title + ": "@ + value + "\n"@);
    lemma_headed(marks, title, value);
    lemma_noted(title, value);
}

/// Lines with the same title that show different values differ.
proof fn lemma_lines_differ(lead: Seq<char>, v: Seq<char>, w: Seq<char>, tail: Seq<char>)
    requires
        v != w,
    ensures
        lead + v + tail != lead + w + tail,
{
    if lead + v + tail == lead + w + tail {
        parts::lemma_cancel_right(lead + v, lead + w, tail);
        parts::lemma_cancel_left(lead, v, w);
    }
}

/// Fields with the same title that show different values differ.
pub proof fn law_fields_tell_values_apart(
    marks: Seq<char>,
    title: Seq<char>,
    v: Seq<char>,
    w: Seq<char>,
)
    requires
        title.len() > 0,
        title[0] != '\n',
        v != w,
    ensures
        render::field_text(marks, title, v) != render::field_text(marks, title, w),
        render::weak_text(title, v) != render::weak_text(title, w),
{
    reveal_strlit("\n");
    reveal_strlit("\n// ");
    let (a, b) = (render::field_text(marks, title, v), render::field_text(marks, title, w));
    let (c, d) = (render::weak_text(title, v), render::weak_text(title, w));
    lemma_lines_differ("\n"@ + marks + " "@ + title + " "@ + marks + "\n"@, v, w, "\n"@);
    lemma_lines_differ("\n// "@ + title + "\n"@, v, w, "\n"@);
    lemma_lines_differ(title + ": "@, v, w, "\n"@);
    let (many_v, many_w) = (search::has_text(v, "\n"@), search::has_text(w, "\n"@));
    if v.len() == 0 {
        assert(w.len() > 0) by {
            if w.len() == 0 {
                assert(v =~= w);
            }
        }
        assert(a.len() == 0 && b.len() > 0 && c.len() == 0 && d.len() > 0);
    } else if w.len() == 0 {
        assert(b.len() == 0 && a.len() > 0 && d.len() == 0 && c.len() > 0);
    } else if many_v != many_w {
        assert((a[0] == '\n') == many_v);
        assert((b[0] == '\n') == many_w);
        assert((c[0] == '\n') == many_v);
        assert((d[0] == '\n') == many_w);
    }
}

/// A session's message shows who said what, and when.
pub proof fn law_messages_show_who_said_what(m: SessionMessage, marks: Seq<char>)
    ensures
        ({
            let text = beat::session_message_text(m, marks);
            &&& m.sender_role@.len() > 0 ==> stands_under(text, marks, "sender_role"@, m.sender_role@)
            &&& m.sender_id is Some && m.sender_id->0@.len() > 0 ==> stands_under(
                text,
                marks,
                "sender_id"@,
                m.sender_id->0@,
            )
            &&& m.timestamp@.len() > 0 ==> stands_under(text, marks, "timestamp"@, m.timestamp@)
            &&& m.content@.len() > 0 ==> stands_under(text, marks, "content"@, m.content@)
        }),
{
    let role = render::field_text(marks, "sender_role"@, m.sender_role@);
    let id = render::opt_field_text(marks, "sender_id"@, render::opt_view(m.sender_id));
    let at = render::field_text(marks, "timestamp"@, m.timestamp@);
    let said = render::field_text(marks, "content"@, m.content@);
    let text = beat::session_message_text(m, marks);
    assert(text == role + id + at + said);
    law_fields_show_their_value(marks, "sender_role"@, m.sender_role@);
    law_fields_show_their_value(marks, "timestamp"@, m.timestamp@);
    law_fields_show_their_value(marks, "content"@, m.content@);
    parts::lemma_whole(role);
    parts::lemma_whole(id);
    parts::lemma_whole(at);
    parts::lemma_whole(said);
    parts::lemma_in_four(role, id, at, said, role);
    parts::lemma_in_four(role, id, at, said, id);
    parts::lemma_in_four(role, id, at, said, at);
    parts::lemma_in_four(role, id, at, said, said);
    if m.sender_role@.len() > 0 {
        lemma_under(text, role, marks, "sender_role"@, m.sender_role@);
    }
    if m.sender_id is Some && m.sender_id->0@.len() > 0 {
        law_fields_show_their_value(marks, "sender_id"@, m.sender_id->0@);
        lemma_under(text, id, marks, "sender_id"@, m.sender_id->0@);
    }
    if m.timestamp@.len() > 0 {
        lemma_under(text, at, marks, "timestamp"@, m.timestamp@);
    }
    if m.content@.len() > 0 {
        lemma_under(text, said, marks, "content"@, m.content@);
    }
}

/// Each part of a list stands below its title.
proof fn lemma_list(marks: Seq<char>, title: Seq<char>, items: Seq<Seq<char>>, i: int)
    requires
        0 <= i < items.len(),
    ensures
        search::has_text(beat::list_text(marks, title, items), items[i]),
        search::has_text(beat::list_text(marks, title, items), marks + " "@ + title + " "@ + marks),
{
    parts::lemma_part_of_join(items, "\n"@, i);
    let all = search::join_text(items, "\n"@);
    let head = "\n"@ + marks + " "@ + title + " "@ + marks + "\n\n"@;
    parts::lemma_part_of_sum(head, all, items[i]);
    let name = marks + " "@ + title + " "@ + marks;
    parts::lemma_part("\n"@, name, "\n\n"@ + all);
    assert("\n"@ + name + ("\n\n"@ + all) =~= head + all);
}

/// A stretch of a session shows when it was, what came of it, and every message.
pub proof fn law_sessions_show_what_happened(
    b: SessionBlock,
    marks: Seq<char>,
    inner: Seq<char>,
    i: int,
)
    ensures
        ({
            let text = beat::session_block_text(b, marks, inner);
            &&& b.start_time@.len() > 0 ==> stands_under(text, marks, "start_time"@, b.start_time@)
            &&& b.end_time@.len() > 0 ==> stands_under(text, marks, "end_time"@, b.end_time@)
            &&& b.summary@.len() > 0 ==> stands_under(text, marks, "summary"@, b.summary@)
            &&& 0 <= i < b.messages@.len() && b.messages@[i].content@.len() > 0 ==> stands_under(
                text,
                inner,
                "content"@,
                b.messages@[i].content@,
            )
        }),
{
    let text = beat::session_block_text(b, marks, inner);
    let start = render::field_text(marks, "start_time"@, b.start_time@);
    let end = render::field_text(marks, "end_time"@, b.end_time@);
    let items = beat::session_messages_text(b.messages@, inner);
    let list = beat::list_text(marks, "messages"@, items);
    let sum = render::field_text(marks, "summary"@, b.summary@);
    assert(text == start + end + list + sum);
    law_fields_show_their_value(marks, "start_time"@, b.start_time@);
    law_fields_show_their_value(marks, "end_time"@, b.end_time@);
    law_fields_show_their_value(marks, "summary"@, b.summary@);
    parts::lemma_whole(start);
    parts::lemma_whole(end);
    parts::lemma_whole(list);
    parts::lemma_whole(sum);
    parts::lemma_in_four(start, end, list, sum, start);
    parts::lemma_in_four(start, end, list, sum, end);
    parts::lemma_in_four(start, end, list, sum, list);
    parts::lemma_in_four(start, end, list, sum, sum);
    if b.start_time@.len() > 0 {
        lemma_under(text, start, marks, "start_time"@, b.start_time@);
    }
    if b.end_time@.len() > 0 {
        lemma_under(text, end, marks, "end_time"@, b.end_time@);
    }
    if b.summary@.len() > 0 {
        lemma_under(text, sum, marks, "summary"@, b.summary@);
    }
    if 0 <= i < b.messages@.len() && b.messages@[i].content@.len() > 0 {
        lemma_list(marks, "messages"@, items, i);
        assert(items[i] == beat::session_message_text(b.messages@[i], inner));
        law_messages_show_who_said_what(b.messages@[i], inner);
        parts::lemma_part_of_part(text, list, items[i]);
        lemma_under(text, items[i], inner, "content"@, b.messages@[i].content@);
    }
}

/// What a part with fields of its own shows stands in it.
proof fn lemma_nested(marks: Seq<char>, title: Seq<char>, nested: Seq<char>)
    ensures
        search::has_text(render::nested_text(marks, title, nested), nested),
{
    reveal_strlit("\n");
    if search::has_text(nested, "\n"@) {
        let head = "\n"@ + marks + " "@ + title + " "@ + marks + "\n"@;
        parts::lemma_part(head, nested, Seq::empty());
        assert(head + nested + Seq::<char>::empty() =~= head + nested);
    } else if nested.len() > 0 {
        parts::lemma_part(title + ": "@, nested, "\n"@);
    } else {
        let none = render::nested_text(marks, title, nested);
        assert(none.subrange(0, 0) =~= nested);
        assert(search::occurs_at(none, nested, 0));
    }
}

/// An environment shows who the agent is, whom it can reach, its shell and its
/// address.
pub proof fn law_environments_are_shown(e: EnvironmentInfo, marks: Seq<char>)
    ensures
        ({
            let text = beat::environment_text(e, marks);
            &&& e.identity@.len() > 0 ==> stands_under(text, marks, "你是"@, e.identity@)
            &&& e.contacts is Some && e.contacts->0@.len() > 0 ==> stands_under(text, marks, "可联系的其他实例"@, e.contacts->0@)
            &&& e.shell_env@.len() > 0 ==> stands_under(text, marks, "脚本环境"@, e.shell_env@)
            &&& e.host is Some && e.host->0@.len() > 0 ==> stands_under(text, marks, "公网地址"@, e.host->0@)
        }),
{
    let text = beat::environment_text(e, marks);
    let f0 = render::field_text(marks, "你是"@, e.identity@);
    let f1 = render::opt_field_text(marks, "可联系的其他实例"@, render::opt_view(e.contacts));
    let f2 = render::field_text(marks, "脚本环境"@, e.shell_env@);
    let f3 = render::opt_field_text(marks, "公网地址"@, render::opt_view(e.host));
    assert(text == f0 + f1 + f2 + f3);
    if e.identity@.len() > 0 {
        law_fields_show_their_value(marks, "你是"@, e.identity@);
        parts::lemma_whole(f0);
        parts::lemma_in_four(f0, f1, f2, f3, f0);
        lemma_under(text, f0, marks, "你是"@, e.identity@);
    }
    if e.contacts is Some && e.contacts->0@.len() > 0 {
        law_fields_show_their_value(marks, "可联系的其他实例"@, e.contacts->0@);
        parts::lemma_whole(f1);
        parts::lemma_in_four(f0, f1, f2, f3, f1);
        lemma_under(text, f1, marks, "可联系的其他实例"@, e.contacts->0@);
    }
    if e.shell_env@.len() > 0 {
        law_fields_show_their_value(marks, "脚本环境"@, e.shell_env@);
        parts::lemma_whole(f2);
        parts::lemma_in_four(f0, f1, f2, f3, f2);
        lemma_under(text, f2, marks, "脚本环境"@, e.shell_env@);
    }
    if e.host is Some && e.host->0@.len() > 0 {
        law_fields_show_their_value(marks, "公网地址"@, e.host->0@);
        parts::lemma_whole(f3);
        parts::lemma_in_four(f0, f1, f2, f3, f3);
        lemma_under(text, f3, marks, "公网地址"@, e.host->0@);
    }
}

/// A status shows the time, when it all started, what waits, who the agent is and how
/// full its memory is.
pub proof fn law_statuses_are_shown(s: StatusInfo, marks: Seq<char>)
    ensures
        ({
            let text = beat::status_text(s, marks);
            &&& s.current_time@.len() > 0 ==> stands_under(text, marks, "现在时刻"@, s.current_time@)
            &&& s.start_time@.len() > 0 ==> stands_under(text, marks, "系统启动时刻"@, s.start_time@)
            &&& s.unread@.len() > 0 ==> stands_under(text, marks, "收件箱未读来信"@, s.unread@)
            &&& s.instance_name@.len() > 0 ==> stands_under(text, marks, "实例名"@, s.instance_name@)
            &&& s.memory_usage@.len() > 0 ==> stands_under(text, marks, "记忆用量"@, s.memory_usage@)
        }),
{
    let text = beat::status_text(s, marks);
    let f0 = render::field_text(marks, "现在时刻"@, s.current_time@);
    let f1 = render::field_text(marks, "系统启动时刻"@, s.start_time@);
    let f2 = render::field_text(marks, "收件箱未读来信"@, s.unread@);
    let f3 = render::field_text(marks, "实例名"@, s.instance_name@);
    let f4 = render::field_text(marks, "记忆用量"@, s.memory_usage@);
    assert(text == f0 + f1 + f2 + f3 + f4);
    if s.current_time@.len() > 0 {
        law_fields_show_their_value(marks, "现在时刻"@, s.current_time@);
        parts::lemma_whole(f0);
        parts::lemma_in_five(f0, f1, f2, f3, f4, f0);
        lemma_under(text, f0, marks, "现在时刻"@, s.current_time@);
    }
    if s.start_time@.len() > 0 {
        law_fields_show_their_value(marks, "系统启动时刻"@, s.start_time@);
        parts::lemma_whole(f1);
        parts::lemma_in_five(f0, f1, f2, f3, f4, f1);
        lemma_under(text, f1, marks, "系统启动时刻"@, s.start_time@);
    }
    if s.unread@.len() > 0 {
        law_fields_show_their_value(marks, "收件箱未读来信"@, s.unread@);
        parts::lemma_whole(f2);
        parts::lemma_in_five(f0, f1, f2, f3, f4, f2);
        lemma_under(text, f2, marks, "收件箱未读来信"@, s.unread@);
    }
    if s.instance_name@.len() > 0 {
        law_fields_show_their_value(marks, "实例名"@, s.instance_name@);
        parts::lemma_whole(f3);
        parts::lemma_in_five(f0, f1, f2, f3, f4, f3);
        lemma_under(text, f3, marks, "实例名"@, s.instance_name@);
    }
    if s.memory_usage@.len() > 0 {
        law_fields_show_their_value(marks, "记忆用量"@, s.memory_usage@);
        parts::lemma_whole(f4);
        parts::lemma_in_five(f0, f1, f2, f3, f4, f4);
        lemma_under(text, f4, marks, "记忆用量"@, s.memory_usage@);
    }
}

/// The parts of a prompt.
proof fn lemma_prompt(q: BeatRequest, p: Seq<char>)
    ensures
        search::has_text(render::field_text("###"@, "skill"@, q.skill@), p) ==> search::has_text(
            beat::beat_text(q),
            p,
        ),
        search::has_text(render::field_text("###"@, "知识"@, q.knowledge@), p) ==> search::has_text(
            beat::beat_text(q),
            p,
        ),
        search::has_text(render::field_text("###"@, "经历"@, q.history@), p) ==> search::has_text(
            beat::beat_text(q),
            p,
        ),
        search::has_text(
            beat::list_text(
                "###"@,
                "近况"@,
                beat::session_blocks_text(q.sessions@, "####"@, "#####"@),
            ),
            p,
        ) ==> search::has_text(beat::beat_text(q), p),
        search::has_text(
            render::nested_text(
                "###"@,
                "环境信息"@,
                beat::environment_text(q.environment, "####"@),
            ),
            p,
        ) ==> search::has_text(beat::beat_text(q), p),
        search::has_text(render::field_text("###"@, "current"@, q.current@), p)
            ==> search::has_text(beat::beat_text(q), p),
        search::has_text(
            render::nested_text("###"@, "当前状态"@, beat::status_text(q.status, "####"@)),
            p,
        ) ==> search::has_text(beat::beat_text(q), p),
{
    parts::lemma_in_eight(
        beat::SCENE@,
        render::field_text("###"@, "skill"@, q.skill@),
        render::field_text("###"@, "知识"@, q.knowledge@),
        render::field_text("###"@, "经历"@, q.history@),
        beat::list_text(
            "###"@,
            "近况"@,
            beat::session_blocks_text(q.sessions@, "####"@, "#####"@),
        ),
        render::nested_text("###"@, "环境信息"@, beat::environment_text(q.environment, "####"@)),
        render::field_text("###"@, "current"@, q.current@),
        render::nested_text("###"@, "当前状态"@, beat::status_text(q.status, "####"@)),
        p,
    );
}

/// The prompt of a beat shows everything that it is made from: the skill, the
/// knowledge, the history and the current record, each under its own title.
pub proof fn law_prompts_show_their_texts(q: BeatRequest)
    ensures
        ({
            let text = beat::beat_text(q);
            &&& q.skill@.len() > 0 ==> stands_under(text, "###"@, "skill"@, q.skill@)
            &&& q.knowledge@.len() > 0 ==> stands_under(text, "###"@, "知识"@, q.knowledge@)
            &&& q.history@.len() > 0 ==> stands_under(text, "###"@, "经历"@, q.history@)
            &&& q.current@.len() > 0 ==> stands_under(text, "###"@, "current"@, q.current@)
        }),
{
    let text = beat::beat_text(q);
    if q.skill@.len() > 0 {
        let part = render::field_text("###"@, "skill"@, q.skill@);
        law_fields_show_their_value("###"@, "skill"@, q.skill@);
        parts::lemma_whole(part);
        lemma_prompt(q, part);
        lemma_under(text, part, "###"@, "skill"@, q.skill@);
    }
    if q.knowledge@.len() > 0 {
        let part = render::field_text("###"@, "知识"@, q.knowledge@);
        law_fields_show_their_value("###"@, "知识"@, q.knowledge@);
        parts::lemma_whole(part);
        lemma_prompt(q, part);
        lemma_under(text, part, "###"@, "知识"@, q.knowledge@);
    }
    if q.history@.len() > 0 {
        let part = render::field_text("###"@, "经历"@, q.history@);
        law_fields_show_their_value("###"@, "经历"@, q.history@);
        parts::lemma_whole(part);
        lemma_prompt(q, part);
        lemma_under(text, part, "###"@, "经历"@, q.history@);
    }
    if q.current@.len() > 0 {
        let part = render::field_text("###"@, "current"@, q.current@);
        law_fields_show_their_value("###"@, "current"@, q.current@);
        parts::lemma_whole(part);
        lemma_prompt(q, part);
        lemma_under(text, part, "###"@, "current"@, q.current@);
    }
}

/// The prompt of a beat shows where the agent is, how it stands, and what happened in
/// each of its sessions.
pub proof fn law_prompts_show_where_the_agent_is(q: BeatRequest, i: int)
    ensures
        ({
            let text = beat::beat_text(q);
            let (e, s) = (q.environment, q.status);
            &&& e.identity@.len() > 0 ==> stands_under(text, "####"@, "你是"@, e.identity@)
            &&& e.contacts is Some && e.contacts->0@.len() > 0 ==> stands_under(
                text,
                "####"@,
                "可联系的其他实例"@,
                e.contacts->0@,
            )
            &&& e.shell_env@.len() > 0 ==> stands_under(text, "####"@, "脚本环境"@, e.shell_env@)
            &&& e.host is Some && e.host->0@.len() > 0 ==> stands_under(
                text,
                "####"@,
                "公网地址"@,
                e.host->0@,
            )
            &&& s.current_time@.len() > 0 ==> stands_under(text, "####"@, "现在时刻"@, s.current_time@)
            &&& s.start_time@.len() > 0 ==> stands_under(text, "####"@, "系统启动时刻"@, s.start_time@)
            &&& s.unread@.len() > 0 ==> stands_under(text, "####"@, "收件箱未读来信"@, s.unread@)
            &&& s.instance_name@.len() > 0 ==> stands_under(text, "####"@, "实例名"@, s.instance_name@)
            &&& s.memory_usage@.len() > 0 ==> stands_under(text, "####"@, "记忆用量"@, s.memory_usage@)
            &&& 0 <= i < q.sessions@.len() && q.sessions@[i].summary@.len() > 0 ==> stands_under(
                text,
                "####"@,
                "summary"@,
                q.sessions@[i].summary@,
            )
            &&& 0 <= i < q.sessions@.len() && q.sessions@[i].start_time@.len() > 0 ==> stands_under(
                text,
                "####"@,
                "start_time"@,
                q.sessions@[i].start_time@,
            )
        }),
{
    let text = beat::beat_text(q);
    let (e, s) = (q.environment, q.status);
    let env = beat::environment_text(e, "####"@);
    lemma_nested("###"@, "环境信息"@, env);
    lemma_prompt(q, env);
    law_environments_are_shown(e, "####"@);
    let st = beat::status_text(s, "####"@);
    lemma_nested("###"@, "当前状态"@, st);
    lemma_prompt(q, st);
    law_statuses_are_shown(s, "####"@);
    if e.identity@.len() > 0 {
        lemma_under(text, env, "####"@, "你是"@, e.identity@);
    }
    if e.contacts is Some && e.contacts->0@.len() > 0 {
        lemma_under(text, env, "####"@, "可联系的其他实例"@, e.contacts->0@);
    }
    if e.shell_env@.len() > 0 {
        lemma_under(text, env, "####"@, "脚本环境"@, e.shell_env@);
    }
    if e.host is Some && e.host->0@.len() > 0 {
        lemma_under(text, env, "####"@, "公网地址"@, e.host->0@);
    }
    if s.current_time@.len() > 0 {
        lemma_under(text, st, "####"@, "现在时刻"@, s.current_time@);
    }
    if s.start_time@.len() > 0 {
        lemma_under(text, st, "####"@, "系统启动时刻"@, s.start_time@);
    }
    if s.unread@.len() > 0 {
        lemma_under(text, st, "####"@, "收件箱未读来信"@, s.unread@);
    }
    if s.instance_name@.len() > 0 {
        lemma_under(text, st, "####"@, "实例名"@, s.instance_name@);
    }
    if s.memory_usage@.len() > 0 {
        lemma_under(text, st, "####"@, "记忆用量"@, s.memory_usage@);
    }
    if 0 <= i < q.sessions@.len() {
        let items = beat::session_blocks_text(q.sessions@, "####"@, "#####"@);
        lemma_list("###"@, "近况"@, items, i);
        lemma_prompt(q, items[i]);
        assert(items[i] == beat::session_block_text(q.sessions@[i], "####"@, "#####"@));
        law_sessions_show_what_happened(q.sessions@[i], "####"@, "#####"@, 0);
        if q.sessions@[i].summary@.len() > 0 {
            lemma_under(text, items[i], "####"@, "summary"@, q.sessions@[i].summary@);
        }
        if q.sessions@[i].start_time@.len() > 0 {
            lemma_under(text, items[i], "####"@, "start_time"@, q.sessions@[i].start_time@);
        }
    }
}

/// Two prompts that differ in one text alone differ: whatever is changed in the skill,
/// the knowledge, the history or the current record is seen by the model.
pub proof fn law_prompts_tell_texts_apart(q: BeatRequest, r: BeatRequest)
    ensures
        r == (BeatRequest { skill: r.skill, ..q }) && r.skill@ != q.skill@ ==> beat::beat_text(q)
            != beat::beat_text(r),
        r == (BeatRequest { knowledge: r.knowledge, ..q }) && r.knowledge@ != q.knowledge@
            ==> beat::beat_text(q) != beat::beat_text(r),
        r == (BeatRequest { history: r.history, ..q }) && r.history@ != q.history@
            ==> beat::beat_text(q) != beat::beat_text(r),
        r == (BeatRequest { current: r.current, ..q }) && r.current@ != q.current@
            ==> beat::beat_text(q) != beat::beat_text(r),
{
    reveal_strlit("skill");
    reveal_strlit("知识");
    reveal_strlit("经历");
    reveal_strlit("current");
    let s0 = beat::SCENE@;
    let s1 = render::field_text("###"@, "skill"@, q.skill@);
    let s2 = render::field_text("###"@, "知识"@, q.knowledge@);
    let s3 = render::field_text("###"@, "经历"@, q.history@);
    let s4 = beat::list_text(
        "###"@,
        "近况"@,
        beat::session_blocks_text(q.sessions@, "####"@, "#####"@),
    );
    let s5 = render::nested_text(
        "###"@,
        "环境信息"@,
        beat::environment_text(q.environment, "####"@),
    );
    let s6 = render::field_text("###"@, "current"@, q.current@);
    let s7 = render::nested_text("###"@, "当前状态"@, beat::status_text(q.status, "####"@));
    let text = beat::beat_text(q);
    assert(text == s0 + s1 + s2 + s3 + s4 + s5 + s6 + s7);
    if r == (BeatRequest { skill: r.skill, ..q }) && r.skill@ != q.skill@ {
        let other = render::field_text("###"@, "skill"@, r.skill@);
        law_fields_tell_values_apart("###"@, "skill"@, q.skill@, r.skill@);
        if text == beat::beat_text(r) {
            parts::lemma_cancel_right(s0 + s1 + s2 + s3 + s4 + s5 + s6, s0 + other + s2 + s3 + s4 + s5 + s6, s7);
            parts::lemma_cancel_right(s0 + s1 + s2 + s3 + s4 + s5, s0 + other + s2 + s3 + s4 + s5, s6);
            parts::lemma_cancel_right(s0 + s1 + s2 + s3 + s4, s0 + other + s2 + s3 + s4, s5);
            parts::lemma_cancel_right(s0 + s1 + s2 + s3, s0 + other + s2 + s3, s4);
            parts::lemma_cancel_right(s0 + s1 + s2, s0 + other + s2, s3);
            parts::lemma_cancel_right(s0 + s1, s0 + other, s2);
            parts::lemma_cancel_left(s0, s1, other);
        }
    }
    if r == (BeatRequest { knowledge: r.knowledge, ..q }) && r.knowledge@ != q.knowledge@ {
        let other = render::field_text("###"@, "知识"@, r.knowledge@);
        law_fields_tell_values_apart("###"@, "知识"@, q.knowledge@, r.knowledge@);
        if text == beat::beat_text(r) {
            parts::lemma_cancel_right(s0 + s1 + s2 + s3 + s4 + s5 + s6, s0 + s1 + other + s3 + s4 + s5 + s6, s7);
            parts::lemma_cancel_right(s0 + s1 + s2 + s3 + s4 + s5, s0 + s1 + other + s3 + s4 + s5, s6);
            parts::lemma_cancel_right(s0 + s1 + s2 + s3 + s4, s0 + s1 + other + s3 + s4, s5);
            parts::lemma_cancel_right(s0 + s1 + s2 + s3, s0 + s1 + other + s3, s4);
            parts::lemma_cancel_right(s0 + s1 + s2, s0 + s1 + other, s3);
            parts::lemma_cancel_left(s0 + s1, s2, other);
        }
    }
    if r == (BeatRequest { history: r.history, ..q }) && r.history@ != q.history@ {
        let other = render::field_text("###"@, "经历"@, r.history@);
        law_fields_tell_values_apart("###"@, "经历"@, q.history@, r.history@);
        if text == beat::beat_text(r) {
            parts::lemma_cancel_right(s0 + s1 + s2 + s3 + s4 + s5 + s6, s0 + s1 + s2 + other + s4 + s5 + s6, s7);
            parts::lemma_cancel_right(s0 + s1 + s2 + s3 + s4 + s5, s0 + s1 + s2 + other + s4 + s5, s6);
            parts::lemma_cancel_right(s0 + s1 + s2 + s3 + s4, s0 + s1 + s2 + other + s4, s5);
            parts::lemma_cancel_right(s0 + s1 + s2 + s3, s0 + s1 + s2 + other, s4);
            parts::lemma_cancel_left(s0 + s1 + s2, s3, other);
        }
    }
    if r == (BeatRequest { current: r.current, ..q }) && r.current@ != q.current@ {
        let other = render::field_text("###"@, "current"@, r.current@);
        law_fields_tell_values_apart("###"@, "current"@, q.current@, r.current@);
        if text == beat::beat_text(r) {
            parts::lemma_cancel_right(s0 + s1 + s2 + s3 + s4 + s5 + s6, s0 + s1 + s2 + s3 + s4 + s5 + other, s7);
            parts::lemma_cancel_left(s0 + s1 + s2 + s3 + s4 + s5, s6, other);
        }
    }
}

/// The prompt for condensing a history shows what is asked and what is condensed.
pub proof fn law_condensing_shows_what_is_condensed(q: CompressRequest)
    ensures
        search::has_text(
            compress::compress_text(q),
            "\n### 压缩要求 ###\n"@ + q.requirement@ + "\n\n### 待压缩内容 ###\n"@ + q.content@
                + "\n"@,
        ),
{
    let head = compress::COMPRESS_INSTRUCTIONS@ + "\n"@;
    let part = "\n### 压缩要求 ###\n"@ + q.requirement@ + "\n\n### 待压缩内容 ###\n"@ + q.content@
        + "\n"@;
    parts::lemma_whole(part);
    parts::lemma_part_of_sum(head, part, part);
    parts::lemma_assoc(head, "\n### 压缩要求 ###\n"@, q.requirement@);
    parts::lemma_assoc(head, "\n### 压缩要求 ###\n"@ + q.requirement@, "\n\n### 待压缩内容 ###\n"@);
    parts::lemma_assoc(head, "\n### 压缩要求 ###\n"@ + q.requirement@ + "\n\n### 待压缩内容 ###\n"@, q.content@);
    parts::lemma_assoc(head, "\n### 压缩要求 ###\n"@ + q.requirement@ + "\n\n### 待压缩内容 ###\n"@ + q.content@, "\n"@);
}

/// The prompt for renewing knowledge shows the knowledge so far, what happened lately,
/// the current record and the summary, each under its own heading and in this order.
pub proof fn law_renewing_shows_what_it_is_drawn_from(q: CaptureRequest)
    ensures
        search::has_text(
            capture::capture_text(q),
            "\n\n## 当前知识\n"@ + q.knowledge_content@ + "\n\n## 近况\n"@ + q.recent_content@
                + "\n\n## 当前增量\n"@ + q.current_content@ + "\n\n## 本次小结\n"@
                + q.summary_content@,
        ),
{
    let head = capture::CAPTURE_INSTRUCTIONS@;
    let part = "\n\n## 当前知识\n"@ + q.knowledge_content@ + "\n\n## 近况\n"@ + q.recent_content@
        + "\n\n## 当前增量\n"@ + q.current_content@ + "\n\n## 本次小结\n"@ + q.summary_content@;
    parts::lemma_whole(part);
    parts::lemma_part_of_sum(head, part, part);
    parts::lemma_assoc(head, "\n\n## 当前知识\n"@, q.knowledge_content@);
    parts::lemma_assoc(head, "\n\n## 当前知识\n"@ + q.knowledge_content@, "\n\n## 近况\n"@);
    parts::lemma_assoc(head, "\n\n## 当前知识\n"@ + q.knowledge_content@ + "\n\n## 近况\n"@, q.recent_content@);
    parts::lemma_assoc(head, "\n\n## 当前知识\n"@ + q.knowledge_content@ + "\n\n## 近况\n"@ + q.recent_content@, "\n\n## 当前增量\n"@);
    parts::lemma_assoc(head, "\n\n## 当前知识\n"@ + q.knowledge_content@ + "\n\n## 近况\n"@ + q.recent_content@ + "\n\n## 当前增量\n"@, q.current_content@);
    parts::lemma_assoc(head, "\n\n## 当前知识\n"@ + q.knowledge_content@ + "\n\n## 近况\n"@ + q.recent_content@ + "\n\n## 当前增量\n"@ + q.current_content@, "\n\n## 本次小结\n"@);
    parts::lemma_assoc(head, "\n\n## 当前知识\n"@ + q.knowledge_content@ + "\n\n## 近况\n"@ + q.recent_content@ + "\n\n## 当前增量\n"@ + q.current_content@ + "\n\n## 本次小结\n"@, q.summary_content@);
}

/// Below a prompt stands the format of its answer, and above it the prompt as it is.
pub proof fn law_formats_stand_below_prompts(prompt: Seq<char>, format: Seq<char>)
    ensures
        search::has_prefix(schema::prompt_text(prompt, format), prompt),
        search::has_suffix(schema::prompt_text(prompt, format), format),
        schema::prompt_text(prompt, format).len() > prompt.len() + format.len(),
{
    let text = schema::prompt_text(prompt, format);
    reveal_strlit(
        "\n\n### 输出规范 ###\n你必须严格按照以下格式输出。直接输出内容，不要输出任何思考过程、前言或解释。\n\n",
    );
    assert(text.subrange(0, prompt.len() as int) =~= prompt);
    assert(text.subrange(text.len() - format.len(), text.len() as int) =~= format);
}

/// What is rendered for a model shows the skill, the knowledge, the history and the
/// current record, each under its own title.
pub proof fn law_rendered_prompts_show_their_texts(q: BeatRequest, r: String)
    requires
        call_ensures(BeatRequest::to_markdown, (&q,), r),
    ensures
        q.skill@.len() > 0 ==> stands_under(r@, "###"@, "skill"@, q.skill@),
        q.knowledge@.len() > 0 ==> stands_under(r@, "###"@, "知识"@, q.knowledge@),
        q.history@.len() > 0 ==> stands_under(r@, "###"@, "经历"@, q.history@),
        q.current@.len() > 0 ==> stands_under(r@, "###"@, "current"@, q.current@),
{
    law_prompts_show_their_texts(q);
}

/// Requests that differ in their knowledge alone are rendered differently, and so are
/// those that differ in the skill, the history or the current record alone.
pub proof fn law_rendered_prompts_tell_texts_apart(
    p: BeatRequest,
    q: BeatRequest,
    a: String,
    b: String,
)
    requires
        call_ensures(BeatRequest::to_markdown, (&p,), a),
        call_ensures(BeatRequest::to_markdown, (&q,), b),
    ensures
        q == (BeatRequest { skill: q.skill, ..p }) && q.skill@ != p.skill@ ==> a@ != b@,
        q == (BeatRequest { knowledge: q.knowledge, ..p }) && q.knowledge@ != p.knowledge@ ==> a@
            != b@,
        q == (BeatRequest { history: q.history, ..p }) && q.history@ != p.history@ ==> a@ != b@,
        q == (BeatRequest { current: q.current, ..p }) && q.current@ != p.current@ ==> a@ != b@,
{
    law_prompts_tell_texts_apart(p, q);
}

} // verus!
