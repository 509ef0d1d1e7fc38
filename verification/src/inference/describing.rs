//! How an agent is described to itself: who it is, how it stands, what it knows.
use vstd::prelude::*;

use crate::action::action_output;
use crate::bindings::i18n;
use crate::inference::action;
use crate::inference::action::ActionModel;
use crate::inference::beat;
use crate::inference::beat::{
    build_environment, build_status, EnvironmentInfo, SessionBlock, SessionMessage, StatusInfo,
};
use crate::inference::markdown;
use crate::inference::output;
use crate::inference::parser;
use crate::inference::template;
use crate::text::bytes;
use crate::text::number;
use crate::text::parts;
use crate::text::search;
use crate::text::space;

verus! {

/// Sizes add up: what is said twice as often is twice as large, and every character of
/// a message counts.
pub proof fn law_sizes_add_up(a: Seq<SessionMessage>, b: Seq<SessionMessage>, m: SessionMessage)
    ensures
        beat::messages_size(a + b) == beat::messages_size(a) + beat::messages_size(b),
        beat::messages_size(seq![m]) == beat::message_size(m),
        beat::message_size(m) >= m.content@.len() + m.timestamp@.len() + m.sender_role@.len() + 20,
        m.sender_id is None ==> beat::message_size(m) == m.content@.len() + m.timestamp@.len()
            + m.sender_role@.len() + 20,
        m.sender_id is Some ==> beat::message_size(m) == m.content@.len() + m.timestamp@.len()
            + m.sender_role@.len() + m.sender_id->0@.len() + 20,
    decreases b.len(),
{
    assert(seq![m].drop_last() =~= Seq::empty());
    assert(beat::messages_size(Seq::empty()) == 0);
    if b.len() == 0 {
        assert(a + b =~= a);
    } else {
        law_sizes_add_up(a, b.drop_last(), m);
        assert((a + b).drop_last() =~= a + b.drop_last());
    }
}

/// The size of sessions is that of all their stretches, with what was said in them.
pub proof fn law_session_sizes_add_up(a: Seq<SessionBlock>, b: Seq<SessionBlock>, s: SessionBlock)
    ensures
        beat::sessions_size(a + b) == beat::sessions_size(a) + beat::sessions_size(b),
        beat::sessions_size(seq![s]) == beat::messages_size(s.messages@) + s.summary@.len()
            + s.start_time@.len() + s.end_time@.len() + 40,
    decreases b.len(),
{
    assert(seq![s].drop_last() =~= Seq::empty());
    assert(beat::sessions_size(Seq::empty()) == 0);
    if b.len() == 0 {
        assert(a + b =~= a);
    } else {
        law_session_sizes_add_up(a, b.drop_last(), s);
        assert((a + b).drop_last() =~= a + b.drop_last());
    }
}

proof fn lemma_marker_line(all: Seq<Seq<char>>, marker: Seq<char>, i: int, k: int)
    requires
        0 <= i <= k < all.len(),
        space::trimmed(all[k]) == marker,
        forall|j: int| i <= j < k ==> space::trimmed(#[trigger] all[j]) != marker,
    ensures
        beat::marker_line(all, marker, i) == Some(k),
    decreases k - i,
{
    if i < k {
        assert(space::trimmed(all[i]) != marker);
        lemma_marker_line(all, marker, i + 1, k);
    }
}

/// What stands behind the first line with the mark of knowledge is the knowledge, all of
/// it; the summary is made of what stands before it alone.
pub proof fn law_knowledge_stands_behind_its_mark(
    raw: Seq<char>,
    before: Seq<Seq<char>>,
    mark: Seq<char>,
    after: Seq<Seq<char>>,
    summary_marker: Seq<char>,
    knowledge_marker: Seq<char>,
)
    requires
        space::lines_of(raw) == before.push(mark) + after,
        space::trimmed(mark) == knowledge_marker,
        forall|j: int|
            0 <= j < before.len() ==> space::trimmed(#[trigger] before[j]) != knowledge_marker,
    ensures
        ({
            let (summary, knowledge) = beat::dual_output(raw, summary_marker, knowledge_marker);
            &&& knowledge == search::join_text(after, "\n"@)
            &&& !search::has_prefix(
                space::trimmed_start(search::join_text(before, "\n"@)),
                summary_marker,
            ) ==> summary == search::join_text(before, "\n"@)
        }),
{
    let all = space::lines_of(raw);
    let k = before.len() as int;
    assert(all[k] == mark);
    assert forall|j: int| 0 <= j < k implies space::trimmed(#[trigger] all[j])
        != knowledge_marker by {
        assert(all[j] == before[j]);
    }
    lemma_marker_line(all, knowledge_marker, 0, k);
    assert(all.take(k) =~= before);
    assert(all.skip(k + 1) =~= after);
}

/// The mark of a summary is no part of it, nor are the empty lines behind the mark.
pub proof fn law_summary_marks_are_taken_off(marker: Seq<char>, text: Seq<char>)
    requires
        marker.len() > 0,
        !space::is_space(marker[0]),
        text.len() > 0,
        text[0] != '\n',
    ensures
        beat::unmarked_summary(marker + "\n"@ + text, marker) == text,
        beat::unmarked_summary(marker + "\n\n"@ + text, marker) == text,
{
    reveal_strlit("\n");
    reveal_strlit("\n\n");
    let one = marker + "\n"@ + text;
    let two = marker + "\n\n"@ + text;
    assert(one[0] == marker[0]);
    assert(two[0] == marker[0]);
    assert(space::skip_space(one, 0) == 0);
    assert(space::skip_space(two, 0) == 0);
    assert(space::trimmed_start(one) =~= one);
    assert(space::trimmed_start(two) =~= two);
    assert(one.subrange(0, marker.len() as int) =~= marker);
    assert(two.subrange(0, marker.len() as int) =~= marker);
    let x = one.skip(marker.len() as int);
    let y = two.skip(marker.len() as int);
    assert(x =~= "\n"@ + text);
    assert(y =~= "\n\n"@ + text);
    assert(x.skip(1) =~= text);
    assert(y.skip(1) =~= x);
    assert(beat::after_newlines(text) == text);
    assert(beat::after_newlines(x) == beat::after_newlines(x.skip(1)));
    assert(beat::after_newlines(y) == beat::after_newlines(y.skip(1)));
}

/// An agent is told who it is by its identifier, and by its name where it has one.
pub proof fn law_agents_are_told_who_they_are(id: Seq<char>, name: Seq<char>)
    requires
        name.len() > 0,
    ensures
        beat::identity_text(id, None) == id,
        search::has_prefix(beat::identity_text(id, Some(name)), name),
        search::has_text(beat::identity_text(id, Some(name)), "（"@ + id + "）"@),
{
    let s = beat::identity_text(id, Some(name));
    let tail = "（"@ + id + "）"@;
    parts::lemma_assoc(name, "（"@, id);
    parts::lemma_assoc(name, "（"@ + id, "）"@);
    assert(s == name + tail);
    assert(s.subrange(0, name.len() as int) =~= name);
    parts::lemma_whole(tail);
    parts::lemma_part_of_sum(name, tail, tail);
}

/// An agent is told its contacts, its shell and its host as they are given; what is empty
/// is not told.
pub proof fn law_agents_are_told_where_they_are(
    id: &str,
    name: Option<&str>,
    contacts: &str,
    shell_env: &str,
    host: Option<&str>,
    r: EnvironmentInfo,
)
    requires
        call_ensures(build_environment, (id, name, contacts, shell_env, host), r),
    ensures
        contacts@.len() > 0 ==> r.contacts is Some && r.contacts->0@ == contacts@,
        contacts@.len() == 0 ==> r.contacts is None,
        r.shell_env@ == shell_env@,
        host is Some && host->0@.len() > 0 ==> r.host is Some && r.host->0@ == host->0@,
        host is None ==> r.host is None,
        name is None ==> r.identity@ == id@,
        name is Some && name->0@.len() > 0 ==> search::has_prefix(r.identity@, name->0@),
{
    if name is Some && name->0@.len() > 0 {
        law_agents_are_told_who_they_are(id@, name->0@);
    }
}

/// How full the memory is is told part by part: the record, the history, the sessions and
/// the knowledge, each with its own size, and all of them together.
pub proof fn law_memory_is_told_part_by_part(
    history: nat,
    daily: nat,
    current: nat,
    knowledge: nat,
)
    ensures
        ({
            let text = beat::memory_usage_text(history, daily, current, knowledge);
            let total = history + daily + current + knowledge;
            &&& search::has_text(text, "current: "@ + number::dec(current))
            &&& search::has_text(text, "字符 | 经历: "@ + number::dec(history))
            &&& search::has_text(text, "字符 | 近况: "@ + number::dec(daily))
            &&& search::has_text(text, "知识: "@ + number::dec(knowledge))
            &&& search::has_text(text, " | 合计: "@ + number::dec(total))
            &&& total > 180_000 ==> search::has_text(
                text,
                "prompt总量已达"@ + number::dec(total / 1000) + "KB"@,
            )
        }),
{
    let total = history + daily + current + knowledge;
    let (c, h, d, k, t) = (
        number::dec(current),
        number::dec(history),
        number::dec(daily),
        beat::knowledge_indicator(knowledge),
        number::dec(total),
    );
    let a1 = "current: "@ + c;
    let a2 = a1 + "字符 | 经历: "@;
    let a3 = a2 + h;
    let a4 = a3 + "字符 | 近况: "@;
    let a5 = a4 + d;
    let a6 = a5 + "字符 | "@;
    let a7 = a6 + k;
    let a8 = a7 + " | 合计: "@;
    let a9 = a8 + t;
    let usage = a9 + "字符"@;
    let text = beat::memory_usage_text(history, daily, current, knowledge);
    let over = i18n::memory_over_limit_text(total / 1000);
    let (p, q, r, s, u) = (
        "current: "@ + c,
        "字符 | 经历: "@ + h,
        "字符 | 近况: "@ + d,
        "知识: "@ + number::dec(knowledge),
        " | 合计: "@ + t,
    );
    lemma_knowledge_told(knowledge);
    parts::lemma_whole(p);
    parts::lemma_whole(q);
    parts::lemma_whole(r);
    parts::lemma_whole(u);
    parts::lemma_assoc(a1, "字符 | 经历: "@, h);
    parts::lemma_part_of_sum(a1, q, q);
    parts::lemma_assoc(a3, "字符 | 近况: "@, d);
    parts::lemma_part_of_sum(a3, r, r);
    parts::lemma_part_of_sum(a6, k, s);
    parts::lemma_assoc(a7, " | 合计: "@, t);
    parts::lemma_part_of_sum(a7, u, u);
    parts::lemma_part_of_sum(a1, "字符 | 经历: "@, p);
    parts::lemma_part_of_sum(a2, h, p);
    lemma_through(a3, "字符 | 近况: "@, d, p);
    lemma_through(a3, "字符 | 近况: "@, d, q);
    lemma_through(a5, "字符 | "@, k, p);
    lemma_through(a5, "字符 | "@, k, q);
    lemma_through(a5, "字符 | "@, k, r);
    lemma_through(a7, " | 合计: "@, t, p);
    lemma_through(a7, " | 合计: "@, t, q);
    lemma_through(a7, " | 合计: "@, t, r);
    lemma_through(a7, " | 合计: "@, t, s);
    lemma_through(a9, "字符"@, " "@, p);
    lemma_through(a9, "字符"@, " "@, q);
    lemma_through(a9, "字符"@, " "@, r);
    lemma_through(a9, "字符"@, " "@, s);
    lemma_through(a9, "字符"@, " "@, u);
    if total > 180_000 {
        let long = usage + " "@;
        parts::lemma_part_of_sum(long, over, p);
        parts::lemma_part_of_sum(long, over, q);
        parts::lemma_part_of_sum(long, over, r);
        parts::lemma_part_of_sum(long, over, s);
        parts::lemma_part_of_sum(long, over, u);
        let told = "prompt总量已达"@ + number::dec(total / 1000) + "KB"@;
        lemma_limit_told(total / 1000);
        parts::lemma_part_of_sum(long, over, told);
    }
}

proof fn lemma_through(a: Seq<char>, b: Seq<char>, c: Seq<char>, p: Seq<char>)
    requires
        search::has_text(a, p),
    ensures
        search::has_text(a + b, p),
        search::has_text(a + b + c, p),
{
    parts::lemma_part_of_sum(a, b, p);
    parts::lemma_part_of_sum(a + b, c, p);
}

proof fn lemma_knowledge_told(n: nat)
    ensures
        search::has_text(beat::knowledge_indicator(n), "知识: "@ + number::dec(n)),
{
    let p = "知识: "@ + number::dec(n);
    parts::lemma_whole(p);
    parts::lemma_part_of_sum(p, "/51200字符 🟢"@, p);
    parts::lemma_part_of_sum(p, "/51200字符 ⚠️ 知识接近上限，summary时请精简"@, p);
    parts::lemma_part_of_sum(
        p,
        "/51200字符 🔴 知识超出推荐容量，建议与用户商量裂变"@,
        p,
    );
}

proof fn lemma_limit_told(kb: nat)
    ensures
        search::has_text(
            i18n::memory_over_limit_text(kb),
            "prompt总量已达"@ + number::dec(kb) + "KB"@,
        ),
{
    reveal_strlit("\n⚠️ prompt总量已达");
    reveal_strlit("prompt总量已达");
    reveal_strlit("KB（上限200K）！建议执行 summary 整理记忆。");
    reveal_strlit("KB");
    let d = number::dec(kb);
    let s = i18n::memory_over_limit_text(kb);
    let p = "prompt总量已达"@ + d + "KB"@;
    let n = "\n⚠️ prompt总量已达"@.len() - "prompt总量已达"@.len();
    assert(s.subrange(n, n + p.len()) =~= p);
    assert(search::occurs_at(s, p, n));
}

/// Knowledge is said to fit below 51200 characters, to come near its limit from there on,
/// and to be too much from 61440 on.
pub proof fn law_knowledge_is_judged_by_its_size(n: nat)
    ensures
        n < 51200 <==> search::has_suffix(beat::knowledge_indicator(n), "🟢"@),
        51200 <= n < 61440 ==> search::has_text(beat::knowledge_indicator(n), " ⚠"@),
        n >= 61440 ==> search::has_text(beat::knowledge_indicator(n), " 🔴"@),
{
    reveal_strlit("🟢");
    reveal_strlit(" 🔴");
    reveal_strlit(" ⚠");
    reveal_strlit("/51200字符 🟢");
    reveal_strlit("/51200字符 ⚠️ 知识接近上限，summary时请精简");
    reveal_strlit("/51200字符 🔴 知识超出推荐容量，建议与用户商量裂变");
    let s = beat::knowledge_indicator(n);
    let front = "知识: "@ + number::dec(n);
    if n < 51200 {
        assert(s.subrange(s.len() - 1, s.len() as int) =~= "🟢"@);
    } else {
        if search::has_suffix(s, "🟢"@) {
            assert(s.subrange(s.len() - 1, s.len() as int)[0] == s.last());
        }
        let k = front.len() + 8;
        if n >= 61440 {
            assert(s.subrange(k as int, (k + 2) as int) =~= " 🔴"@);
            assert(search::occurs_at(s, " 🔴"@, k as int));
        } else {
            assert(s.subrange(k as int, (k + 2) as int) =~= " ⚠"@);
            assert(search::occurs_at(s, " ⚠"@, k as int));
        }
    }
}

/// An agent is told how many messages wait for it, when it was started, who it is, and how
/// full its memory is, its skills counted with its knowledge.
pub proof fn law_agents_are_told_how_they_stand(
    id: &str,
    name: Option<&str>,
    start: &str,
    unread: usize,
    history: usize,
    sessions: usize,
    current: usize,
    knowledge: usize,
    skill: usize,
    r: StatusInfo,
)
    requires
        history + sessions + current + knowledge + skill <= usize::MAX,
        call_ensures(
            build_status,
            (id, name, start, unread, history, sessions, current, knowledge, skill),
            r,
        ),
    ensures
        search::has_text(r.unread@, "["@ + number::dec(unread as nat) + "]"@),
        r.start_time@ == "["@ + start@ + "]"@,
        name is None ==> r.instance_name@ == id@,
        search::has_text(r.memory_usage@, "current: "@ + number::dec(current as nat)),
        search::has_text(r.memory_usage@, "字符 | 经历: "@ + number::dec(history as nat)),
        search::has_text(r.memory_usage@, "字符 | 近况: "@ + number::dec(sessions as nat)),
        search::has_text(r.memory_usage@, "知识: "@ + number::dec((knowledge + skill) as nat)),
{
    law_memory_is_told_part_by_part(
        history as nat,
        sessions as nat,
        current as nat,
        (knowledge + skill) as nat,
    );
    reveal_strlit("] 条");
    reveal_strlit("]");
    let u = r.unread@;
    let p = "["@ + number::dec(unread as nat) + "]"@;
    assert(u.subrange(0, p.len() as int) =~= p);
    assert(search::occurs_at(u, p, 0));
}

/// Skills that say nothing are left out, and all others stay in their order.
pub proof fn law_blank_skills_are_left_out(texts: Seq<Seq<char>>)
    ensures
        beat::said_parts(texts) == texts.filter(|t: Seq<char>| !space::is_blank(t)),
    decreases texts.len(),
{
    reveal(Seq::filter);
    if texts.len() > 0 {
        law_blank_skills_are_left_out(texts.drop_last());
    }
}

/// Knowledge is shown whole under its heading; knowledge that says nothing is not shown.
pub proof fn law_knowledge_is_shown_whole(content: Seq<char>)
    ensures
        !space::is_blank(content) ==> search::has_suffix(
            beat::knowledge_text(content),
            content + "\n"@,
        ),
        space::is_blank(content) ==> beat::knowledge_text(content).len() == 0,
{
    if !space::is_blank(content) {
        let s = beat::knowledge_text(content);
        let end = content + "\n"@;
        parts::lemma_assoc("### 要点与知识 ###\n"@, content, "\n"@);
        assert(s == "### 要点与知识 ###\n"@ + end);
        assert(s.subrange(s.len() - end.len(), s.len() as int) =~= end);
    }
}

/// The guide names the public address, or the port on this machine where there is none.
pub proof fn law_the_guide_names_an_address(host: Seq<char>, port: nat)
    ensures
        host.len() > 0 ==> beat::guide_host(Some(host), port) == host,
        search::has_suffix(beat::guide_host(None, port), number::dec(port)),
        beat::guide_host(Some(Seq::empty()), port) == beat::guide_host(None, port),
{
    let s = beat::guide_host(None, port);
    let d = number::dec(port);
    assert(s.subrange(s.len() - d.len(), s.len() as int) =~= d);
}

/// An action is shown with what it is aimed at.
pub proof fn law_actions_are_shown_with_their_aim(a: ActionModel)
    ensures
        match a {
            ActionModel::Idle { timeout_secs: Some(n) } => search::has_suffix(
                action::display_text(a),
                number::dec(n as nat),
            ),
            ActionModel::SendMsg { recipient, .. } => search::has_suffix(
                action::display_text(a),
                recipient,
            ),
            ActionModel::WriteFile { path, .. } => search::has_suffix(action::display_text(a), path),
            ActionModel::ReplaceInFile { path, .. } => search::has_suffix(
                action::display_text(a),
                path,
            ),
            ActionModel::CreateInstance { name, .. } => search::has_suffix(
                action::display_text(a),
                name,
            ),
            ActionModel::Distill { target_action_id, .. } => search::has_suffix(
                action::display_text(a),
                target_action_id,
            ),
            _ => action::display_text(a) == action::kind_name_text(a),
        },
{
    let s = action::display_text(a);
    match a {
        ActionModel::Idle { timeout_secs: Some(n) } => {
            lemma_ends("idle "@, number::dec(n as nat));
        },
        ActionModel::SendMsg { recipient, .. } => lemma_ends("send_msg → "@, recipient),
        ActionModel::WriteFile { path, .. } => lemma_ends("write_file → "@, path),
        ActionModel::ReplaceInFile { path, .. } => lemma_ends("replace_in_file → "@, path),
        ActionModel::CreateInstance { name, .. } => lemma_ends("create_instance → "@, name),
        ActionModel::Distill { target_action_id, .. } => lemma_ends("distill → "@, target_action_id),
        _ => {},
    }
}

proof fn lemma_ends(a: Seq<char>, b: Seq<char>)
    ensures
        search::has_suffix(a + b, b),
{
    let s = a + b;
    assert(s.subrange(s.len() - b.len(), s.len() as int) =~= b);
}

/// Actions of different kinds have different names.
pub proof fn law_kinds_have_their_names(a: ActionModel, b: ActionModel)
    requires
        action::kind_name_text(a) == action::kind_name_text(b),
    ensures
        a is Idle == b is Idle,
        a is ReadMsg == b is ReadMsg,
        a is SendMsg == b is SendMsg,
        a is Thinking == b is Thinking,
        a is Script == b is Script,
        a is WriteFile == b is WriteFile,
        a is ReplaceInFile == b is ReplaceInFile,
        a is Summary == b is Summary,
        a is SetProfile == b is SetProfile,
        a is CreateInstance == b is CreateInstance,
        a is Distill == b is Distill,
{
    reveal_strlit("idle");
    reveal_strlit("read_msg");
    reveal_strlit("send_msg");
    reveal_strlit("thinking");
    reveal_strlit("script");
    reveal_strlit("write_file");
    reveal_strlit("replace_in_file");
    reveal_strlit("summary");
    reveal_strlit("set_profile");
    reveal_strlit("create_instance");
    reveal_strlit("distill");
    assert("idle"@.len() == 4 && "script"@.len() == 6 && "write_file"@.len() == 10);
    assert("read_msg"@.len() == 8 && "read_msg"@[0] == 'r');
    assert("send_msg"@.len() == 8 && "send_msg"@[0] == 's');
    assert("thinking"@.len() == 8 && "thinking"@[0] == 't');
    assert("replace_in_file"@.len() == 15 && "replace_in_file"@[0] == 'r');
    assert("create_instance"@.len() == 15 && "create_instance"@[0] == 'c');
    assert("summary"@.len() == 7 && "summary"@[0] == 's');
    assert("distill"@.len() == 7 && "distill"@[0] == 'd');
    assert("set_profile"@.len() == 11);
}

/// A text that is cut for display is the start of the text, and says that it is cut.
pub proof fn law_cut_texts_say_so(text: Seq<char>, max: int)
    requires
        0 <= max,
    ensures
        bytes::text_bytes(text) <= max ==> output::display_cut(text, max) == text,
        bytes::text_bytes(text) > max ==> {
            &&& search::has_suffix(output::display_cut(text, max), "..."@)
            &&& output::display_cut(text, max).take(
                output::display_cut(text, max).len() - 3,
            ).is_prefix_of(text)
            &&& bytes::text_bytes(bytes::byte_prefix(text, max)) <= max
        },
{
    reveal_strlit("...");
    bytes::law_cut_texts_fit(text, max);
    let r = output::display_cut(text, max);
    if bytes::text_bytes(text) > max {
        lemma_ends(bytes::byte_prefix(text, max), "..."@);
        assert(r.take(r.len() - 3) =~= bytes::byte_prefix(text, max));
    }
}

proof fn lemma_plain_start(
    t: Seq<char>,
    vars: Seq<(Seq<char>, Seq<char>)>,
    i: int,
    k: int,
)
    requires
        0 <= i <= k <= t.len(),
        forall|j: int| i <= j < k ==> !(#[trigger] t[j] == '{' && j + 1 < t.len() && t[j + 1] == '{'),
    ensures
        template::rendered_from(t, vars, i) == t.subrange(i, k) + template::rendered_from(
            t,
            vars,
            k,
        ),
    decreases k - i,
{
    if i < k {
        lemma_plain_start(t, vars, i + 1, k);
        assert(t[i] == t[i]);
        assert(template::placeholder_end(t, i) is None);
        let rest = template::rendered_from(t, vars, k);
        assert(seq![t[i]] + (t.subrange(i + 1, k) + rest) =~= t.subrange(i, k) + rest);
    } else {
        assert(t.subrange(i, k) + template::rendered_from(t, vars, k)
            =~= template::rendered_from(t, vars, k));
    }
}

/// A placeholder with a value is replaced by it, and what stands around it stays.
pub proof fn law_placeholders_are_filled(
    a: Seq<char>,
    name: Seq<char>,
    b: Seq<char>,
    v: Seq<char>,
    vars: Seq<(Seq<char>, Seq<char>)>,
)
    requires
        template::value_of(vars, "{{"@ + name + "}}"@) == Some(v),
        forall|i: int| 0 <= i < a.len() ==> #[trigger] a[i] != '{',
        forall|i: int| 0 <= i < name.len() ==> #[trigger] name[i] != '}',
        forall|i: int| 0 <= i < b.len() ==> #[trigger] b[i] != '{',
    ensures
        template::rendered(a + ("{{"@ + name + "}}"@) + b, vars) == a + v + b,
{
    reveal_strlit("{{");
    reveal_strlit("}}");
    let key = "{{"@ + name + "}}"@;
    let t = a + key + b;
    let i = a.len() as int;
    let end = i + key.len();
    assert forall|j: int| 0 <= j < i implies !(#[trigger] t[j] == '{' && j + 1 < t.len() && t[j + 1]
        == '{') by {
        assert(t[j] == a[j]);
    }
    lemma_plain_start(t, vars, 0, i);
    assert(t.subrange(0, i) =~= a);
    assert(t[i] == key[0] && key[0] == '{');
    assert(t[i + 1] == key[1] && key[1] == '{');
    assert(t.subrange(end - 2, end) =~= "}}"@);
    assert(search::occurs_at(t, "}}"@, end - 2));
    search::lemma_find_from(t, "}}"@, i + 2);
    assert forall|j: int| i + 2 <= j < end - 2 implies !search::occurs_at(t, "}}"@, j) by {
        if search::occurs_at(t, "}}"@, j) {
            assert(t.subrange(j, j + 2)[0] == t[j]);
            assert(t[j] == name[j - i - 2]);
        }
    }
    assert(search::find_from(t, "}}"@, i + 2) == Some(end - 2)) by {
        let f = search::find_from(t, "}}"@, i + 2);
        if f is Some && f->0 < end - 2 {
            assert(!search::occurs_at(t, "}}"@, f->0));
        }
    }
    assert(t.subrange(i, end) =~= key);
    assert(template::filled_at(t, vars, i) == Some((v, end)));
    template::law_values_are_not_scanned(t, vars, i, v, end);
    assert forall|j: int| end <= j < t.len() implies !(#[trigger] t[j] == '{' && j + 1 < t.len()
        && t[j + 1] == '{') by {
        assert(t[j] == b[j - end]);
    }
    lemma_plain_start(t, vars, end, t.len() as int);
    assert(template::rendered_from(t, vars, t.len() as int) =~= Seq::<char>::empty());
    assert(t.subrange(end, t.len() as int) =~= b);
    assert(b + Seq::<char>::empty() =~= b);
    parts::lemma_assoc(a, v, b);
}

/// Of several values for a placeholder the last one counts, and a value for another one
/// changes nothing.
pub proof fn law_the_last_value_counts(
    vars: Seq<(Seq<char>, Seq<char>)>,
    key: Seq<char>,
    other: Seq<char>,
    value: Seq<char>,
)
    ensures
        template::value_of(vars.push((key, value)), key) == Some(value),
        other != key ==> template::value_of(vars.push((key, value)), other) == template::value_of(
            vars,
            other,
        ),
        template::value_of(Seq::empty(), key) is None,
{
    assert(vars.push((key, value)).drop_last() =~= vars);
}

/// A marker that was written neither by sending nor by reading is not trusted.
pub proof fn law_other_marks_are_not_trusted(id: Seq<char>, rest: Seq<char>)
    requires
        beat::is_msg_id(id),
        rest.len() > 0,
        rest[0] == '\n',
        !search::has_text(rest, "[MSG:"@),
    ensures
        beat::marked_ids("[MSG:"@ + id + "]"@ + rest).len() == 0,
{
    reveal_strlit("[MSG:");
    reveal_strlit("]");
    reveal_strlit("send success ");
    reveal_strlit("发来一条消息：");
    let text = "[MSG:"@ + id + "]"@ + rest;
    let none = Seq::<Seq<char>>::empty();
    assert(text.subrange(0, 5) =~= "[MSG:"@);
    assert(search::occurs_at(text, "[MSG:"@, 0));
    assert(search::find_from(text, "[MSG:"@, 0) == Some(0int));
    assert(text.subrange(19, 20) =~= "]"@);
    assert(search::occurs_at(text, "]"@, 19));
    search::lemma_find_from(text, "]"@, 5);
    assert(search::find_from(text, "]"@, 5) == Some(19int)) by {
        let f = search::find_from(text, "]"@, 5);
        if f is Some && f->0 < 19 {
            assert(text.subrange(f->0, f->0 + 1)[0] == text[f->0]);
            assert(text[f->0] == id[f->0 - 5]);
            assert(number::is_digit(id[f->0 - 5]));
        }
    }
    assert(!beat::trusted_mark(text, 0, 19)) by {
        let said = action_output::MSG_READ_CONTEXT@;
        if search::occurs_at(text, said, 20) {
            assert(text.subrange(20, (20 + said.len()) as int)[0] == text[20]);
            assert(text[20] == rest[0]);
        }
    }
    search::lemma_find_from(text, "[MSG:"@, 20);
    assert forall|j: int| 20 <= j implies !search::occurs_at(text, "[MSG:"@, j) by {
        if search::occurs_at(text, "[MSG:"@, j) {
            assert(rest.subrange(j - 20, j - 15) =~= text.subrange(j, j + 5));
            assert(search::occurs_at(rest, "[MSG:"@, j - 20));
        }
    }
    assert(beat::ids_from(text, 20, none) == none);
}

/// What is missing, misplaced or empty in an answer is named.
pub proof fn law_faulty_parts_are_named(owner: Seq<char>, name: Seq<char>)
    ensures
        search::has_text(markdown::missing_field_text(owner, name), "'"@ + name + "' is missing"@),
        search::has_text(markdown::empty_field_text(owner, name), "'"@ + name + "' is empty"@),
        search::has_prefix(markdown::missing_field_text(owner, name), "["@ + owner + "]"@),
        search::has_prefix(markdown::misplaced_field_text(owner, name), "["@ + owner + "]"@),
        search::has_text(markdown::misplaced_field_text(owner, name), "'"@ + name + "'"@),
{
    reveal_strlit("[");
    reveal_strlit("]");
    reveal_strlit("'");
    reveal_strlit("] Required field '");
    reveal_strlit("] Field order violation: '");
    reveal_strlit("' is missing");
    reveal_strlit("' is empty");
    reveal_strlit("' comes too early");
    let head = "["@ + owner + "]"@;
    let n = owner.len() + 1;
    let a = markdown::missing_field_text(owner, name);
    let b = markdown::empty_field_text(owner, name);
    let c = markdown::misplaced_field_text(owner, name);
    assert(a.subrange(0, head.len() as int) =~= head);
    assert(c.subrange(0, head.len() as int) =~= head);
    let p = "'"@ + name + "' is missing"@;
    let q = "'"@ + name + "' is empty"@;
    let r = "'"@ + name + "'"@;
    let k = n + "] Required field '"@.len() - 1;
    let m = n + "] Field order violation: '"@.len() - 1;
    assert(a.subrange(k, k + p.len()) =~= p);
    assert(search::occurs_at(a, p, k));
    assert(b.subrange(k, k + q.len()) =~= q);
    assert(search::occurs_at(b, q, k));
    assert(c.subrange(m, m + r.len()) =~= r);
    assert(search::occurs_at(c, r, m));
}

/// An answer that cannot be read is told of with what is wrong and with its start; one of
/// an unknown kind with what was found, and one without an end with the end that it lacks.
pub proof fn law_unreadable_answers_are_told(
    error: Seq<char>,
    raw: Seq<char>,
    found: Seq<char>,
    kind: Seq<char>,
    token: Seq<char>,
)
    ensures
        search::has_text(parser::unreadable_text(error, raw), ": "@ + error + "\n"@),
        search::has_suffix(parser::unreadable_text(error, raw), bytes::byte_prefix(raw, 200)),
        search::has_text(markdown::unknown_variant_text(found), "'"@ + found + "'"@),
        search::has_text(
            markdown::missing_end_text(kind, token, raw),
            kind + "-end-"@ + token,
        ),
{
    reveal_strlit("⚠️ action解析失败: ");
    reveal_strlit("\n原始输出: ");
    reveal_strlit(": ");
    reveal_strlit("\n");
    let a = parser::unreadable_text(error, raw);
    let cut = bytes::byte_prefix(raw, 200);
    lemma_ends("⚠️ action解析失败: "@ + error + "\n原始输出: "@, cut);
    let p = ": "@ + error + "\n"@;
    let k = "⚠️ action解析失败: "@.len() - 2;
    assert(a.subrange(k, k + p.len()) =~= p);
    assert(search::occurs_at(a, p, k));
    lemma_found_is_told(found);
    let end = markdown::end_mark(kind, token);
    parts::lemma_whole(end);
    parts::lemma_in_three(
        "["@ + kind + "] Missing end marker '"@,
        end,
        "'. Content tail (up to 200 chars): "@,
        end,
    );
    parts::lemma_part_of_sum(
        "["@ + kind + "] Missing end marker '"@ + end + "'. Content tail (up to 200 chars): "@,
        markdown::tail_text(raw),
        end,
    );
}

proof fn lemma_found_is_told(found: Seq<char>)
    ensures
        search::has_text(markdown::unknown_variant_text(found), "'"@ + found + "'"@),
{
    reveal_strlit("'");
    reveal_strlit("[Action] Unknown variant.\n  Found: '");
    reveal_strlit(
        "'\n  Expected one of: idle, read_msg, send_msg, thinking, script, write_file, replace_in_file, summary, set_profile, create_instance, distill",
    );
    let s = markdown::unknown_variant_text(found);
    let p = "'"@ + found + "'"@;
    let k = "[Action] Unknown variant.\n  Found: '"@.len() - 1;
    assert(s.subrange(k, k + p.len()) =~= p);
    assert(search::occurs_at(s, p, k));
}

} // verus!
