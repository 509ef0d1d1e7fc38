//! What carrying out an action comes to, stated on what goes in and what comes out.
use vstd::prelude::*;

use crate::action::action_output;
use crate::action::execute;
use crate::action::execute::{
    check_shell, execute_action, execute_read_msg, execute_replace_in_file, execute_script, make_shell,
    plan_summary, plan_write, summary_block, ActionTask, ProfileField, SummaryPlan, WritePlan,
};
use crate::external::shell;
use crate::external::shell::{Shell, ShellOutput};
use crate::external::skeleton::ExtractionResult;
use crate::hub::contacts;
use crate::hub::contacts::ContactInfo;
use crate::inference::action::{Action, ActionModel};
use crate::inference::output;
use crate::inference::output::{ActionOutput, ViewModel};
use crate::inference::records;
use crate::inference::showing::stands_behind;
use crate::model::InboxMessage;
use crate::text::bytes;
use crate::text::case;
use crate::text::number;
use crate::text::parts;
use crate::text::search;
use crate::text::space;
use crate::util;

verus! {

/// What is to be done for an action holds the action's own texts, each in its place.
pub proof fn law_tasks_carry_what_was_asked(action: Action, t: ActionTask)
    requires
        call_ensures(execute_action, (&action,), t),
    ensures
        match t {
            ActionTask::Done(o) => o is Empty && (action@ is Idle || action@ is Thinking),
            ActionTask::ReadInbox => action@ is ReadMsg,
            ActionTask::Send { recipient, content } => action@ == (ActionModel::SendMsg {
                recipient: recipient@,
                content: content@,
            }),
            ActionTask::Run { script } => action@ == (ActionModel::Script { content: script@ }),
            ActionTask::Write { path, content } => action@ == (ActionModel::WriteFile {
                path: path@,
                content: content@,
            }),
            ActionTask::Replace { path, search, replace } => action@ == (
            ActionModel::ReplaceInFile { path: path@, search: search@, replace: replace@ }),
            ActionTask::Summarize { content } => action@ == (ActionModel::Summary {
                content: content@,
            }),
            ActionTask::ChangeProfile { content } => action@ == (ActionModel::SetProfile {
                content: content@,
            }),
            ActionTask::Create { name, knowledge } => action@ == (ActionModel::CreateInstance {
                name: name@,
                knowledge: knowledge@,
            }),
            ActionTask::Distill { target_action_id, summary } => action@ matches
                ActionModel::Distill { target_action_id: i, summary: s } && i
                == target_action_id@ && summary@ == space::trimmed(s),
        },
{
}

/// How a script ended is seen in its record: the exit code that the shell gave, and
/// minus one where it gave none.
pub proof fn law_scripts_are_recorded_as_they_ended(
    result: ShellOutput,
    elapsed_secs: String,
    o: ActionOutput,
    m: ViewModel,
)
    requires
        call_ensures(execute_script, (&result, elapsed_secs), o),
    ensures
        ({
            let text = records::record_of(output::with_output(m, o));
            &&& result.exit_code is Some ==> search::has_text(
                text,
                "exit_code: "@ + number::dec_int(result.exit_code->0 as int) + "\n"@,
            )
            &&& result.exit_code is None ==> search::has_text(
                text,
                "exit_code: "@ + number::dec_int(-1) + "\n"@,
            )
            &&& 0 < bytes::text_bytes(result.output@) <= 102400 ==> stands_behind(
                text,
                "stdout"@,
                result.output@,
            )
            &&& o matches ActionOutput::Script { truncated, .. } && (truncated <==>
                bytes::text_bytes(result.output@) > 102400)
        }),
{
    match o {
        ActionOutput::Script { stdout, exit_code, elapsed_secs: e, truncated } => {
            records::law_records_show_how_scripts_ended(m, stdout, exit_code, e, truncated);
            records::law_outputs_are_shown(result.output@);
        },
        _ => {},
    }
}

/// Everything in the inbox is handed on, in its order and unchanged; who is neither the
/// user nor a contact is marked as unknown.
pub proof fn law_the_inbox_is_handed_on(
    inbox: Vec<InboxMessage>,
    contact_ids: Vec<String>,
    o: ActionOutput,
    i: int,
)
    requires
        call_ensures(execute_read_msg, (&inbox, &contact_ids), o),
        0 <= i < inbox@.len(),
    ensures
        match o {
            ActionOutput::ReadMsg { entries } => {
                &&& entries@.len() == inbox@.len()
                &&& entries@[i].content@ == inbox@[i].content@
                &&& entries@[i].sender@ == inbox@[i].sender@
                &&& entries@[i].timestamp@ == inbox@[i].timestamp@
                &&& entries@[i].is_known <==> inbox@[i].sender@.len() == 0 || inbox@[i].sender@
                    == "user"@ || exists|k: int|
                    0 <= k < contact_ids@.len() && #[trigger] contact_ids@[k]@ == inbox@[i].sender@
            },
            _ => false,
        },
{
    let ids = search::views(contact_ids@);
    let who = inbox@[i].sender@;
    if let ActionOutput::ReadMsg { entries } = o {
        assert(execute::is_entry(entries@[i], inbox@[i], ids));
        if ids.contains(who) {
            let k = choose|k: int| 0 <= k < ids.len() && ids[k] == who;
            assert(contact_ids@[k]@ == who);
        }
        if exists|k: int| 0 <= k < contact_ids@.len() && #[trigger] contact_ids@[k]@ == who {
            let k = choose|k: int|
                0 <= k < contact_ids@.len() && #[trigger] contact_ids@[k]@ == who;
            assert(ids[k] == who);
        }
    }
}

proof fn lemma_named(cs: Seq<ContactInfo>, name: Seq<char>, i: int)
    requires
        0 <= i,
    ensures
        match execute::named_from(cs, name, i) {
            Some(k) => {
                &&& i <= k < cs.len()
                &&& cs[k].name is Some
                &&& cs[k].name->0@ == name
                &&& forall|j: int| i <= j < k ==> !(cs[j].name is Some && cs[j].name->0@ == name)
            },
            None => forall|j: int|
                i <= j < cs.len() ==> !(cs[j].name is Some && cs[j].name->0@ == name),
        },
    decreases cs.len() - i,
{
    if i < cs.len() {
        lemma_named(cs, name, i + 1);
    }
}

/// A message only ever goes to a contact. An identifier means the contact that has it,
/// and a name that is no identifier the first contact that bears it.
pub proof fn law_messages_go_to_contacts(recipient: Seq<char>, cs: Seq<ContactInfo>, k: int)
    ensures
        match execute::resolved_recipient(recipient, cs) {
            Some(id) => exists|i: int| 0 <= i < cs.len() && (#[trigger] cs[i]).id@ == id,
            None => forall|i: int|
                0 <= i < cs.len() ==> (#[trigger] cs[i]).id@ != recipient && !(cs[i].name is Some
                    && cs[i].name->0@ == recipient),
        },
        0 <= k < cs.len() && cs[k].id@ == recipient ==> execute::resolved_recipient(recipient, cs)
            == Some(recipient),
        0 <= k < cs.len() && cs[k].name is Some && cs[k].name->0@ == recipient && (forall|i: int|
            0 <= i < cs.len() ==> (#[trigger] cs[i]).id@ != recipient) && (forall|i: int|
            0 <= i < k ==> !((#[trigger] cs[i]).name is Some && cs[i].name->0@ == recipient))
            ==> execute::resolved_recipient(recipient, cs) == Some(cs[k].id@),
{
    let all = contacts::contacts(cs);
    lemma_named(cs, recipient, 0);
    if contacts::listed(all, recipient) {
        let i = choose|i: int| 0 <= i < all.len() && (#[trigger] all[i]).id == recipient;
        assert(cs[i].id@ == recipient);
    } else {
        assert forall|i: int| 0 <= i < cs.len() implies (#[trigger] cs[i]).id@ != recipient by {
            assert(all[i].id == cs[i].id@);
        }
        if execute::named_from(cs, recipient, 0) is None {
            if let Some(id) = execute::bracketed(recipient) {
                if contacts::listed(all, id) {
                    let i = choose|i: int| 0 <= i < all.len() && (#[trigger] all[i]).id == id;
                    assert(cs[i].id@ == id);
                }
            }
        }
    }
    if 0 <= k < cs.len() && cs[k].id@ == recipient {
        assert(all[k].id == recipient);
    }
}

/// Where a message has nobody to go to, every contact is named with its identifier.
pub proof fn law_contacts_are_named(cs: Seq<ContactInfo>, i: int)
    requires
        0 <= i < cs.len(),
    ensures
        search::has_text(execute::contact_labels(cs), cs[i].id@),
        cs[i].name is Some ==> search::has_text(
            execute::contact_labels(cs),
            cs[i].name->0@ + "("@ + cs[i].id@ + ")"@,
        ),
{
    let labels = cs.map_values(|c: ContactInfo| execute::contact_label(c));
    parts::lemma_part_of_join(labels, ", "@, i);
    assert(labels[i] == execute::contact_label(cs[i]));
    match cs[i].name {
        Some(n) => {
            parts::lemma_part(n@ + "("@, cs[i].id@, ")"@);
            parts::lemma_part_of_part(execute::contact_labels(cs), labels[i], cs[i].id@);
        },
        None => {},
    }
}

proof fn lemma_numbered(all: Seq<Seq<char>>, from: int, to: int, i: int)
    requires
        0 <= from <= i < to <= all.len(),
    ensures
        execute::numbered(all, from, to).len() == to - from,
        execute::numbered(all, from, to)[i - from] == action_output::preview_line_text(
            (i + 1) as nat,
            all[i],
        ),
    decreases to - from,
{
    if from < to - 1 {
        if i < to - 1 {
            lemma_numbered(all, from, to - 1, i);
        } else {
            lemma_numbered(all, from, to - 1, from);
        }
    } else {
        assert(execute::numbered(all, from, to - 1).len() == 0);
    }
}

/// A preview shows the first ten and the last five lines of a long text and every line
/// of a short one, each behind its own number.
pub proof fn law_previews_show_both_ends(all: Seq<Seq<char>>, i: int)
    requires
        0 <= i < all.len(),
        all.len() <= 15 || i < 10 || i >= all.len() - 5,
    ensures
        search::has_text(
            search::join_text(execute::preview_lines(all), "\n"@),
            number::dec((i + 1) as nat) + ": "@ + all[i],
        ),
        all.len() <= 15 ==> execute::preview_lines(all).len() == all.len(),
        all.len() > 15 ==> execute::preview_lines(all).len() == 16,
{
    let n = all.len() as int;
    let shown = execute::preview_lines(all);
    let line = action_output::preview_line_text((i + 1) as nat, all[i]);
    let d = number::dec((i + 1) as nat);
    let k: int;
    if n > 15 {
        lemma_numbered(all, 0, 10, 0);
        lemma_numbered(all, n - 5, n, n - 1);
        if i < 10 {
            lemma_numbered(all, 0, 10, i);
            k = i;
        } else {
            lemma_numbered(all, n - 5, n, i);
            k = 11 + (i - (n - 5));
        }
    } else {
        lemma_numbered(all, 0, n, i);
        k = i;
    }
    assert(shown[k] == line);
    parts::lemma_part_of_join(shown, "\n"@, k);
    let pad = number::blanks(4 - d.len());
    parts::lemma_assoc(pad, d, ": "@);
    parts::lemma_assoc(pad, d + ": "@, all[i]);
    parts::lemma_whole(d + ": "@ + all[i]);
    parts::lemma_part_of_sum(pad, d + ": "@ + all[i], d + ": "@ + all[i]);
    parts::lemma_part_of_part(search::join_text(shown, "\n"@), line, d + ": "@ + all[i]);
}

/// What is replaced in a file is the one place where the text stands: what stands
/// before and behind it stays, and nowhere behind it does the text stand again. Else
/// the file stays as it is.
pub proof fn law_files_change_in_one_place(
    content: &str,
    wanted: &str,
    replacement: &str,
    r: (ActionOutput, Option<String>),
)
    requires
        call_ensures(execute_replace_in_file, (content, wanted, replacement), r),
        wanted@.len() > 0,
    ensures
        match r.1 {
            Some(new) => {
                &&& exists|a: Seq<char>, b: Seq<char>|
                    content@ == #[trigger] (a + wanted@ + b) && new@ == a + replacement@ + b
                        && !search::has_text(b, wanted@)
                &&& r.0 is ReplaceInFile
            },
            None => r.0 is ReplaceInFileFailed,
        },
        !search::has_text(content@, wanted@) ==> r.1 is None,
{
    let (s, p, q) = (content@, wanted@, replacement@);
    search::lemma_find_iff_has(s, p);
    search::lemma_find_from(s, p, 0);
    match search::find_text(s, p) {
        Some(i) => {
            if r.1 is Some {
                let (a, b) = (s.take(i), s.skip(i + p.len()));
                assert(s =~= a + p + b);
                assert(util::replaced_first(s, p, q) == a + q + b);
                assert forall|j: int| !search::occurs_at(b, p, j) by {
                    if search::occurs_at(b, p, j) {
                        assert(s.subrange(i + p.len() + j, i + p.len() + j + p.len())
                            =~= b.subrange(j, j + p.len()));
                        assert(search::occurs_at(s, p, i + p.len() + j));
                        util::law_single_match_is_unique(s, p, i, i + p.len() + j);
                    }
                }
                assert(!search::has_text(b, p));
                assert(s == a + p + b && r.1->0@ == a + q + b);
            }
        },
        None => {
            assert(util::count_from(s, p, 0) == 0);
        },
    }
}

/// A text that stands in a file only once is replaced.
pub proof fn law_single_places_are_replaced(
    a: Seq<char>,
    b: Seq<char>,
    wanted: &str,
    content: &str,
    replacement: &str,
    r: (ActionOutput, Option<String>),
)
    requires
        call_ensures(execute_replace_in_file, (content, wanted, replacement), r),
        wanted@.len() > 0,
        content@ == a + wanted@ + b,
        forall|i: int| search::occurs_at(content@, wanted@, i) ==> i == a.len(),
    ensures
        r.1 is Some,
        r.1->0@ == a + replacement@ + b,
{
    let (s, p, q) = (content@, wanted@, replacement@);
    assert(s.subrange(a.len() as int, (a.len() + p.len()) as int) =~= p);
    assert(search::occurs_at(s, p, a.len() as int));
    search::lemma_find_iff_has(s, p);
    search::lemma_find_from(s, p, 0);
    assert(search::find_text(s, p) == Some(a.len() as int));
    if a.len() + p.len() <= s.len() {
        search::lemma_find_from(s, p, (a.len() + p.len()) as int);
    }
    assert(search::find_from(s, p, (a.len() + p.len()) as int) is None);
    assert(util::count_from(s, p, (a.len() + p.len()) as int) == 0);
    assert(util::count_of(s, p) == 1);
    assert(s.take(a.len() as int) =~= a);
    assert(s.skip((a.len() + p.len()) as int) =~= b);
}

/// A change of the profile is the last that was asked for of its field; an empty one
/// asks for nothing, and no field is changed by another.
pub proof fn law_the_last_change_counts(
    changes: Seq<(ProfileField, Seq<char>)>,
    f: ProfileField,
    g: ProfileField,
    value: Seq<char>,
)
    ensures
        value.len() > 0 ==> execute::changed_to(changes.push((f, value)), f) == Some(value),
        value.len() == 0 ==> execute::changed_to(changes.push((f, value)), f) is None,
        g != f ==> execute::changed_to(changes.push((f, value)), g) == execute::changed_to(
            changes,
            g,
        ),
        execute::changed_to(Seq::empty(), f) is None,
{
    assert(changes.push((f, value)).drop_last() =~= changes);
}

proof fn lemma_parted(key: Seq<char>, value: Seq<char>, line: Seq<char>)
    requires
        !search::has_text(key, ":"@),
        line == key + ":"@ + value,
    ensures
        search::parted_text(line, ":"@) == Some((key, value)),
{
    reveal_strlit(":");
    let k = key.len() as int;
    assert(":"@.len() == 1);
    assert(line.subrange(k, k + 1) =~= ":"@);
    assert(search::occurs_at(line, ":"@, k));
    search::lemma_find_iff_has(line, ":"@);
    search::lemma_find_from(line, ":"@, 0);
    let i = search::find_text(line, ":"@)->0;
    if i < k {
        assert(key.subrange(i, i + 1) =~= line.subrange(i, i + 1));
        assert(search::occurs_at(key, ":"@, i));
    }
    assert(line.take(k) =~= key);
    assert(line.skip(k + 1) =~= value);
}

/// A line of a profile is read as what stands before its first colon and what stands
/// behind, both without space around them.
pub proof fn law_profile_lines_are_read(key: Seq<char>, value: Seq<char>, line: Seq<char>)
    requires
        !search::has_text(key, ":"@),
        space::trimmed(line) == key + ":"@ + value,
    ensures
        execute::profile_line(line) == Some(
            (case::lowercase_text(space::trimmed(key)), space::trimmed(value)),
        ),
{
    lemma_parted(key, value, space::trimmed(line));
}

/// The fields of a profile are asked for by their names, and by nothing else.
pub proof fn law_fields_have_their_names(key: Seq<char>)
    ensures
        execute::field_of("name"@) == Some(ProfileField::Name),
        execute::field_of("color"@) == Some(ProfileField::Color),
        execute::field_of("avatar"@) == Some(ProfileField::Avatar),
        match execute::field_of(key) {
            Some(f) => execute::field_name(f) == key,
            None => key != "name"@ && key != "color"@ && key != "avatar"@,
        },
{
    reveal_strlit("name");
    reveal_strlit("color");
    reveal_strlit("avatar");
    assert("name"@.len() == 4);
    assert("color"@.len() == 5);
    assert("avatar"@.len() == 6);
}

/// Every change that was made is told with its field and its value.
pub proof fn law_changes_are_told(changes: Seq<(ProfileField, Seq<char>)>, i: int)
    requires
        0 <= i < changes.len(),
    ensures
        search::has_text(
            search::join_text(execute::change_texts(changes), ", "@),
            execute::field_name(changes[i].0) + "="@ + changes[i].1,
        ),
{
    parts::lemma_part_of_join(execute::change_texts(changes), ", "@, i);
}

/// The range of some messages names the first and the last one.
pub proof fn law_ranges_name_both_ends(first: Seq<char>, last: Seq<char>)
    ensures
        search::has_prefix(execute::message_range(Some(first), Some(last)), first),
        search::has_suffix(execute::message_range(Some(first), Some(last)), last),
        first == last ==> execute::message_range(Some(first), Some(last)) == first,
        execute::message_range(Some(first), None) == first,
        execute::message_range(None, Some(last)).len() == 0,
{
    let r = execute::message_range(Some(first), Some(last));
    assert(r.subrange(0, first.len() as int) =~= first);
    assert(r.subrange(r.len() - last.len(), r.len() as int) =~= last);
}

/// A record with something in it is summed up in the words that were given, from its
/// first to its last message; one with nothing in it is not.
pub proof fn law_summaries_keep_the_words(
    current: &str,
    content: &str,
    first: String,
    last: String,
    r: Option<SummaryPlan>,
)
    requires
        call_ensures(plan_summary, (current, content, Some(first), Some(last)), r),
    ensures
        r is Some <==> space::trimmed(current@).len() > 0,
        r is Some ==> {
            &&& r->0.summary@ == space::trimmed(content@)
            &&& r->0.first_msg@ == first@
            &&& r->0.last_msg@ == last@
            &&& search::has_prefix(r->0.msg_range@, first@)
            &&& search::has_suffix(r->0.msg_range@, last@)
        },
{
    law_ranges_name_both_ends(first@, last@);
}

/// A summary goes to the last block as long as the block stays within its limit, and
/// else to a new one.
pub proof fn law_blocks_stay_within_their_limit(
    name: String,
    size: u64,
    entry_bytes: u64,
    session_block_kb: u32,
    timestamp: &str,
    r: String,
)
    requires
        call_ensures(summary_block, (Some((name, size)), entry_bytes, session_block_kb, timestamp), r),
        name@ != timestamp@,
    ensures
        r@ == name@ <==> size + entry_bytes <= 1024 * session_block_kb,
        r@ != name@ ==> r@ == timestamp@,
{
}

/// A file is written where it was asked for, by the engine itself only where the agent
/// is privileged; what would lead out of the workspace is refused by name.
pub proof fn law_writes_stay_in_the_workspace(
    workspace: &str,
    path: &str,
    r: Result<WritePlan, String>,
    privileged: bool,
)
    requires
        call_ensures(plan_write, (workspace, path, privileged), r),
    ensures
        match r {
            Ok(WritePlan::Direct { path: p }) => privileged && Some(p@) == shell::action_path(
                workspace@,
                path@,
            ),
            Ok(WritePlan::ByShell { path: p }) => !privileged && Some(p@) == shell::action_path(
                workspace@,
                path@,
            ),
            Err(e) => shell::action_path(workspace@, path@) is None && search::has_suffix(
                e@,
                path@,
            ),
        },
{
    if let Err(e) = r {
        assert(e@.subrange(e@.len() - path@.len(), e@.len() as int) =~= path@);
    }
}

/// A script runs as a user of its own unless the agent is privileged, and always in the
/// workspace; no two instances have the same user.
pub proof fn law_scripts_run_as_their_user(
    workspace: &str,
    a: &str,
    b: &str,
    r: Shell,
    q: Shell,
)
    requires
        call_ensures(make_shell, (workspace, false, a, true), r),
        call_ensures(make_shell, (workspace, false, b, true), q),
    ensures
        r.working_dir@ == workspace@,
        r.sandbox_user is Some,
        search::has_suffix(r.sandbox_user->0@, a@),
        a@ != b@ ==> r.sandbox_user->0@ != q.sandbox_user->0@,
{
    let (u, v) = (r.sandbox_user->0@, q.sandbox_user->0@);
    assert(u.subrange(u.len() - a@.len(), u.len() as int) =~= a@);
    if u == v {
        parts::lemma_cancel_left("agent-"@, a@, b@);
    }
}

proof fn lemma_same_changes(a: Seq<Seq<char>>, b: Seq<Seq<char>>, n: int)
    requires
        0 <= n <= a.len(),
        n <= b.len(),
        forall|i: int| 0 <= i < n ==> a[i] == b[i],
    ensures
        execute::profile_changes(a, n) == execute::profile_changes(b, n),
    decreases n,
{
    if n > 0 {
        lemma_same_changes(a, b, n - 1);
    }
}

/// A profile is changed line by line: a line without a colon asks for nothing, one with a
/// known field adds its change behind the others, and one with an unknown field has the
/// whole profile refused under its name.
pub proof fn law_profiles_are_changed_line_by_line(
    lines: Seq<Seq<char>>,
    line: Seq<char>,
    changes: Seq<(ProfileField, Seq<char>)>,
)
    requires
        execute::profile_changes(lines, lines.len() as int) == Ok::<_, Seq<char>>(changes),
    ensures
        ({
            let all = lines.push(line);
            let after = execute::profile_changes(all, all.len() as int);
            match execute::profile_line(line) {
                None => after == Ok::<_, Seq<char>>(changes),
                Some((key, value)) => {
                    &&& key == "name"@ ==> after == Ok::<_, Seq<char>>(
                        changes.push((ProfileField::Name, value)),
                    )
                    &&& key == "color"@ ==> after == Ok::<_, Seq<char>>(
                        changes.push((ProfileField::Color, value)),
                    )
                    &&& key == "avatar"@ ==> after == Ok::<_, Seq<char>>(
                        changes.push((ProfileField::Avatar, value)),
                    )
                    &&& key != "name"@ && key != "color"@ && key != "avatar"@ ==> after == Err::<
                        Seq<(ProfileField, Seq<char>)>,
                        _,
                    >(key)
                },
            }
        }),
{
    lemma_same_changes(lines, lines.push(line), lines.len() as int);
    law_fields_have_their_names("name"@);
}

/// A profile that was refused stays refused, whatever follows.
pub proof fn law_refused_profiles_stay_refused(
    lines: Seq<Seq<char>>,
    line: Seq<char>,
    key: Seq<char>,
)
    requires
        execute::profile_changes(lines, lines.len() as int) == Err::<
            Seq<(ProfileField, Seq<char>)>,
            _,
        >(key),
    ensures
        execute::profile_changes(lines.push(line), (lines.len() + 1) as int) == Err::<
            Seq<(ProfileField, Seq<char>)>,
            _,
        >(key),
{
    lemma_same_changes(lines, lines.push(line), lines.len() as int);
}

/// What is shown of a file that was written is all of it, its skeleton or its two ends,
/// below a line that says which.
pub proof fn law_files_are_shown_below_what_is_shown(
    x: ExtractionResult,
    content: Seq<char>,
    i: int,
)
    ensures
        ({
            let text = execute::shown_extract(x, content);
            match x {
                ExtractionResult::Full => bytes::text_bytes(content) <= 102400
                    ==> search::has_suffix(text, "---\n"@ + content),
                ExtractionResult::Skeleton(v) => 0 <= i < v@.len() ==> search::has_text(
                    text,
                    v@[i]@,
                ),
                ExtractionResult::NoRule => {
                    let all = space::lines_of(content);
                    0 <= i < all.len() && (all.len() <= 15 || i < 10 || i >= all.len() - 5)
                        ==> search::has_text(text, number::dec((i + 1) as nat) + ": "@ + all[i])
                },
            }
        }),
{
    let text = execute::shown_extract(x, content);
    match x {
        ExtractionResult::Full => {
            if bytes::text_bytes(content) <= 102400 {
                records::law_outputs_are_shown(content);
                reveal_strlit("---file content---\n");
                reveal_strlit("---\n");
                let end = "---\n"@ + content;
                assert(text.subrange(text.len() - end.len(), text.len() as int) =~= end);
            }
        },
        ExtractionResult::Skeleton(v) => {
            if 0 <= i < v@.len() {
                let lines = search::views(v@);
                parts::lemma_part_of_join(lines, "\n"@, i);
                parts::lemma_part_of_sum(
                    "--- skeleton (auto-extracted, showing interface & comments only, not full content) ---\n"@,
                    search::join_text(lines, "\n"@),
                    lines[i],
                );
            }
        },
        ExtractionResult::NoRule => {
            let all = space::lines_of(content);
            if 0 <= i < all.len() && (all.len() <= 15 || i < 10 || i >= all.len() - 5) {
                law_previews_show_both_ends(all, i);
                parts::lemma_part_of_sum(
                    "--- preview (first 10 + last 5 lines, not full content) ---\n"@,
                    search::join_text(execute::preview_lines(all), "\n"@),
                    number::dec((i + 1) as nat) + ": "@ + all[i],
                );
            }
        },
    }
}

/// A shell that failed is told of with what it was to do, its exit code and what it said.
pub proof fn law_shell_failures_are_told(what: &str, result: ShellOutput, r: Result<(), String>)
    requires
        call_ensures(check_shell, (what, &result), r),
    ensures
        r is Ok <==> result.exit_code == Some(0i32),
        r is Err ==> {
            &&& search::has_prefix(r->Err_0@, what@)
            &&& search::has_suffix(r->Err_0@, space::trimmed(result.output@))
            &&& result.exit_code is Some ==> search::has_text(
                r->Err_0@,
                "(exit "@ + number::dec_int(result.exit_code->0 as int) + ")"@,
            )
        },
{
    if r is Err {
        let e = r->Err_0@;
        let said = space::trimmed(result.output@);
        let code = shell::exit_code_text(result.exit_code);
        assert(e.subrange(0, what@.len() as int) =~= what@);
        assert(e.subrange(e.len() - said.len(), e.len() as int) =~= said);
        reveal_strlit(" (exit ");
        reveal_strlit("(exit ");
        reveal_strlit("): ");
        reveal_strlit(")");
        let p = "(exit "@ + code + ")"@;
        let k = what@.len() + 1;
        assert(e.subrange(k as int, (k + p.len()) as int) =~= p);
        assert(search::occurs_at(e, p, k as int));
    }
}

} // verus!
