//! Doing what the agent wants: what each action comes to, step by step.
use vstd::prelude::*;
use vstd::string::StrSliceExecFns;

use crate::action::action_output;
use crate::action::action_output::preview_line;
use crate::agent::transaction::Transaction;
use crate::bindings::i18n;
use crate::bindings::i18n::{
    send_failed_no_extension, send_failed_not_in_contacts, send_failed_rejected,
};
use crate::external::shell;
use crate::external::shell::{resolve_action_path, Shell, ShellOutput};
use crate::external::skeleton;
use crate::external::skeleton::{ExtractionResult, SkeletonConfig};
use crate::hub::contacts;
use crate::hub::contacts::ContactInfo;
use crate::inference::action::{Action, ActionModel};
use crate::inference::output;
use crate::inference::output::{truncate_stdout, ActionOutput, ReadMsgEntry};
use crate::model::InboxMessage;
use crate::persist::settings;
use crate::persist::settings::Settings;
use crate::text::bytes;
use crate::text::bytes::byte_len;
use crate::text::case;
use crate::text::case::to_lower;
use crate::text::chars::{same_text, slice_text, to_chars};
use crate::text::search;
use crate::text::search::{ends_with, join, lists, part, rfind_chars};
use crate::text::space;
use crate::text::space::{lines, trim};
use crate::util;
use crate::util::{replace_once, safe_truncate};

verus! {

/// What has to be done for an action.
#[derive(Debug)]
pub enum ActionTask {
    /// Nothing: this came out of it.
    Done(ActionOutput),
    /// Read the inbox.
    ReadInbox,
    /// Send a message.
    Send { recipient: String, content: String },
    /// Run a script in the workspace.
    Run { script: String },
    /// Write a file.
    Write { path: String, content: String },
    /// Replace a text in a file.
    Replace { path: String, search: String, replace: String },
    /// Sum up the current record.
    Summarize { content: String },
    /// Change the profile.
    ChangeProfile { content: String },
    /// Create an instance.
    Create { name: String, knowledge: String },
    /// Replace the record of an action by a text.
    Distill { target_action_id: String, summary: String },
}

/// The task that an action comes to: nothing for idling and thinking; a summary
/// that takes the place of a record is trimmed.
pub open spec fn is_task_of(t: ActionTask, a: ActionModel) -> bool {
    match a {
        ActionModel::Idle { .. } => t == ActionTask::Done(ActionOutput::Empty),
        ActionModel::Thinking { .. } => t == ActionTask::Done(ActionOutput::Empty),
        ActionModel::ReadMsg => t is ReadInbox,
        ActionModel::SendMsg { recipient, content } => (t matches ActionTask::Send {
            recipient: r,
            content: c,
        } && r@ == recipient && c@ == content),
        ActionModel::Script { content } => (t matches ActionTask::Run { script } && script@
            == content),
        ActionModel::WriteFile { path, content } => (t matches ActionTask::Write {
            path: p,
            content: c,
        } && p@ == path && c@ == content),
        ActionModel::ReplaceInFile { path, search, replace } => (t matches ActionTask::Replace {
            path: p,
            search: s,
            replace: r,
        } && p@ == path && s@ == search && r@ == replace),
        ActionModel::Summary { content } => (t matches ActionTask::Summarize { content: c } && c@
            == content),
        ActionModel::SetProfile { content } => (t matches ActionTask::ChangeProfile {
            content: c,
        } && c@ == content),
        ActionModel::CreateInstance { name, knowledge } => (t matches ActionTask::Create {
            name: n,
            knowledge: k,
        } && n@ == name && k@ == knowledge),
        ActionModel::Distill { target_action_id, summary } => (t matches ActionTask::Distill {
            target_action_id: i,
            summary: s,
        } && i@ == target_action_id && s@ == space::trimmed(summary)),
    }
}

/// Decides what has to be done for an action.
pub fn execute_action(action: &Action) -> (r: ActionTask)
    ensures
        is_task_of(r, action@),
{
    match action {
        Action::Idle { .. } => ActionTask::Done(ActionOutput::Empty),
        Action::Thinking { .. } => ActionTask::Done(ActionOutput::Empty),
        Action::ReadMsg => ActionTask::ReadInbox,
        Action::SendMsg { recipient, content } => ActionTask::Send {
            recipient: recipient.clone(),
            content: content.clone(),
        },
        Action::Script { content } => ActionTask::Run { script: content.clone() },
        Action::WriteFile { path, content } => ActionTask::Write {
            path: path.clone(),
            content: content.clone(),
        },
        Action::ReplaceInFile { path, search, replace } => ActionTask::Replace {
            path: path.clone(),
            search: search.clone(),
            replace: replace.clone(),
        },
        Action::Summary { content } => ActionTask::Summarize { content: content.clone() },
        Action::SetProfile { content } => ActionTask::ChangeProfile { content: content.clone() },
        Action::CreateInstance { name, knowledge } => ActionTask::Create {
            name: name.clone(),
            knowledge: knowledge.clone(),
        },
        Action::Distill { target_action_id, summary } => ActionTask::Distill {
            target_action_id: target_action_id.clone(),
            summary: trim(summary.as_str()),
        },
    }
}

/// The shell that an instance works with: a privileged one needs no user of its own.
pub fn make_shell(workspace: &str, privileged: bool, instance_id: &str, user_exists: bool) -> (r: Shell)
    ensures
        r.working_dir@ == workspace@,
        r.timeout_ms == shell::DEFAULT_TIMEOUT_MS,
        r.max_output == shell::MAX_OUTPUT_BYTES,
        match r.sandbox_user {
            Some(u) => !privileged && user_exists && u@ == "agent-"@ + instance_id@,
            None => privileged || !user_exists,
        },
{
    let user = if privileged {
        None
    } else {
        Shell::detect_sandbox_user(instance_id, user_exists)
    };
    Shell::new(workspace.to_string(), user)
}

/// Whether a sender is known: nobody, the user, or one of the contacts.
pub open spec fn is_known_sender(sender: Seq<char>, contact_ids: Seq<Seq<char>>) -> bool {
    sender.len() == 0 || sender == "user"@ || contact_ids.contains(sender)
}

/// A message as the agent reads it.
pub open spec fn is_entry(e: ReadMsgEntry, m: InboxMessage, contact_ids: Seq<Seq<char>>) -> bool {
    e.role@ == "user"@ && e.sender@ == m.sender@ && e.timestamp@ == m.timestamp@ && e.content@
        == m.content@ && e.is_known == is_known_sender(m.sender@, contact_ids)
}

/// What reading the inbox gives.
pub fn execute_read_msg(inbox: &Vec<InboxMessage>, contact_ids: &Vec<String>) -> (r: ActionOutput)
    ensures
        r matches ActionOutput::ReadMsg { entries } && entries@.len() == inbox@.len() && forall|i: int|
            0 <= i < entries@.len() ==> is_entry(
                #[trigger] entries@[i],
                inbox@[i],
                search::views(contact_ids@),
            ),
{
    let mut entries: Vec<ReadMsgEntry> = Vec::new();
    let mut i: usize = 0;
    while i < inbox.len()
        invariant
            i <= inbox@.len(),
            entries@.len() == i,
            forall|k: int|
                0 <= k < i ==> is_entry(
                    #[trigger] entries@[k],
                    inbox@[k],
                    search::views(contact_ids@),
                ),
        decreases inbox@.len() - i,
    {
        let m = &inbox[i];
        let is_known = m.sender.as_str().is_empty() || same_text(m.sender.as_str(), "user")
            || lists(contact_ids, m.sender.as_str());
        entries.push(
            ReadMsgEntry {
                role: "user".to_string(),
                sender: m.sender.clone(),
                timestamp: m.timestamp.clone(),
                content: m.content.clone(),
                is_known,
            },
        );
        i = i + 1;
    }
    ActionOutput::ReadMsg { entries }
}

/// The first contact from the `i`th on that goes by a name.
pub open spec fn named_from(cs: Seq<ContactInfo>, name: Seq<char>, i: int) -> Option<int>
    decreases cs.len() - i,
{
    if i < 0 || i >= cs.len() {
        None
    } else if cs[i].name is Some && cs[i].name->0@ == name {
        Some(i)
    } else {
        named_from(cs, name, i + 1)
    }
}

/// The identifier in the last brackets of a text that ends with them.
pub open spec fn bracketed(s: Seq<char>) -> Option<Seq<char>> {
    match search::rfind_text(s, "("@) {
        Some(i) => {
            let rest = s.skip(i + 1);
            if search::has_suffix(rest, ")"@) && rest.len() > 1 {
                Some(rest.take(rest.len() - 1))
            } else {
                None
            }
        },
        None => None,
    }
}

/// The contact that a recipient stands for: by its identifier, else by its name,
/// else by an identifier in brackets behind a name.
pub open spec fn resolved_recipient(recipient: Seq<char>, cs: Seq<ContactInfo>) -> Option<Seq<char>> {
    let all = contacts::contacts(cs);
    if contacts::listed(all, recipient) {
        Some(recipient)
    } else {
        match named_from(cs, recipient, 0) {
            Some(i) => Some(cs[i].id@),
            None => match bracketed(recipient) {
                Some(id) => if contacts::listed(all, id) {
                    Some(id)
                } else {
                    None
                },
                None => None,
            },
        }
    }
}

/// A contact whose identifier holds no bracket is reached under the text that it is
/// shown by, unless that happens to be an identifier or a name as a whole.
pub proof fn law_shown_contacts_are_reached(cs: Seq<ContactInfo>, i: int)
    requires
        0 <= i < cs.len(),
        cs[i].id@.len() > 0,
        !search::has_text(cs[i].id@, "("@),
        cs[i].name is Some ==> {
            &&& !contacts::listed(contacts::contacts(cs), contacts::contact_text(cs[i]@))
            &&& named_from(cs, contacts::contact_text(cs[i]@), 0) is None
        },
    ensures
        resolved_recipient(contacts::contact_text(cs[i]@), cs) == Some(cs[i].id@),
{
    reveal_strlit("(");
    reveal_strlit(")");
    let all = contacts::contacts(cs);
    let c = cs[i]@;
    let id = c.id;
    assert(all[i] == c);
    assert(contacts::listed(all, id));
    if let Some(name) = c.name {
        let text = name + "("@ + id + ")"@;
        let n = name.len() as int;
        search::lemma_rfind_from(text, "("@, text.len() - 1);
        assert(text.subrange(n, n + 1) =~= "("@);
        assert(search::occurs_at(text, "("@, n));
        assert forall|j: int| n < j < text.len() implies !search::occurs_at(text, "("@, j) by {
            if search::occurs_at(text, "("@, j) {
                assert(text.subrange(j, j + 1)[0] == text[j]);
                if j <= n + id.len() {
                    assert(text[j] == id[j - n - 1]);
                    assert(id.subrange(j - n - 1, j - n) =~= "("@);
                    assert(search::occurs_at(id, "("@, j - n - 1));
                } else {
                    assert(text[j] == ')');
                }
            }
        }
        assert(search::rfind_text(text, "("@) == Some(n));
        let rest = text.skip(n + 1);
        assert(rest =~= id + ")"@);
        assert(rest.subrange(rest.len() - 1, rest.len() as int) =~= ")"@);
        assert(rest.take(rest.len() - 1) =~= id);
    }
}

fn has_contact(cs: &Vec<ContactInfo>, id: &str) -> (r: bool)
    ensures
        r == contacts::listed(contacts::contacts(cs@), id@),
{
    let ghost all = contacts::contacts(cs@);
    let mut i: usize = 0;
    while i < cs.len()
        invariant
            i <= cs@.len(),
            all == contacts::contacts(cs@),
            forall|k: int| 0 <= k < i ==> (#[trigger] all[k]).id != id@,
        decreases cs@.len() - i,
    {
        assert(all[i as int] == cs@[i as int]@);
        if same_text(cs[i].id.as_str(), id) {
            return true;
        }
        i = i + 1;
    }
    false
}

/// The contact that a recipient stands for.
pub fn resolve_recipient_id(recipient: &str, cs: &Vec<ContactInfo>) -> (r: Option<String>)
    ensures
        match r {
            Some(id) => resolved_recipient(recipient@, cs@) == Some(id@),
            None => resolved_recipient(recipient@, cs@) is None,
        },
{
    if has_contact(cs, recipient) {
        return Some(recipient.to_string());
    }
    let mut i: usize = 0;
    while i < cs.len()
        invariant
            i <= cs@.len(),
            !contacts::listed(contacts::contacts(cs@), recipient@),
            named_from(cs@, recipient@, 0) == named_from(cs@, recipient@, i as int),
        decreases cs@.len() - i,
    {
        if let Some(name) = &cs[i].name {
            if same_text(name.as_str(), recipient) {
                return Some(cs[i].id.clone());
            }
        }
        i = i + 1;
    }
    let v = to_chars(recipient);
    let open = to_chars("(");
    proof {
        reveal_strlit("(");
        reveal_strlit(")");
    }
    let n: usize = v.len();
    match rfind_chars(&v, &open) {
        Some(k) => {
            let rest = slice_text(&v, k + 1, n);
            assert(rest@ =~= recipient@.skip(k + 1));
            if ends_with(rest.as_str(), ")") && n - (k + 1) > 1 {
                let id = slice_text(&v, k + 1, n - 1);
                assert(id@ =~= rest@.take(rest@.len() - 1));
                if has_contact(cs, id.as_str()) {
                    return Some(id);
                }
            }
            None
        },
        None => None,
    }
}

/// How a contact is shown.
pub open spec fn contact_label(c: ContactInfo) -> Seq<char> {
    match c.name {
        Some(n) => n@ + "("@ + c.id@ + ")"@,
        None => c.id@,
    }
}

pub open spec fn contact_labels(cs: Seq<ContactInfo>) -> Seq<char> {
    search::join_text(cs.map_values(|c: ContactInfo| contact_label(c)), ", "@)
}

fn labels_of(cs: &Vec<ContactInfo>) -> (r: String)
    ensures
        r@ == contact_labels(cs@),
{
    let mut names: Vec<String> = Vec::new();
    let mut i: usize = 0;
    while i < cs.len()
        invariant
            i <= cs@.len(),
            names@.len() == i,
            forall|k: int| 0 <= k < i ==> (#[trigger] names@[k])@ == contact_label(cs@[k]),
        decreases cs@.len() - i,
    {
        let label = match &cs[i].name {
            Some(n) => {
                let mut s = n.clone();
                s.push_str("(");
                s.push_str(cs[i].id.as_str());
                s.push_str(")");
                s
            },
            None => cs[i].id.clone(),
        };
        names.push(label);
        i = i + 1;
    }
    assert(search::views(names@) =~= cs@.map_values(|c: ContactInfo| contact_label(c)));
    join(&names, ", ")
}

/// What sending a message comes to.
#[derive(Debug)]
pub enum SendStep {
    /// It is written for the user.
    ToUser,
    /// Someone else is to get it: the contacts are needed.
    NeedContacts,
    /// It is passed on to this instance.
    Relay { to: String },
    /// This is what comes of it.
    Done(ActionOutput),
}

pub open spec fn is_failure(o: ActionOutput, error: Seq<char>) -> bool {
    o matches ActionOutput::SendMsgFailed { error: e } && e@ == error
}

/// Sending starts: to the user at once, to others only where they can be reached. A
/// message that cannot be sent keeps the agent from idling.
pub fn start_send(tx: &mut Transaction, recipient: &str, has_extension: bool) -> (r: SendStep)
    ensures
        if recipient@ == "user"@ || recipient@.len() == 0 {
            r is ToUser && *final(tx) == *old(tx)
        } else if has_extension {
            r is NeedContacts && *final(tx) == *old(tx)
        } else {
            &&& r matches SendStep::Done(o) && is_failure(
                o,
                i18n::send_failed_no_extension_text(recipient@),
            )
            &&& *final(tx) == (Transaction { cancel_idle: true, ..*old(tx) })
        },
{
    if same_text(recipient, "user") || recipient.is_empty() {
        return SendStep::ToUser;
    }
    if has_extension {
        return SendStep::NeedContacts;
    }
    tx.cancel_idle = true;
    SendStep::Done(ActionOutput::SendMsgFailed { error: send_failed_no_extension(recipient) })
}

/// The contacts are known: the message is passed on, unless nobody is meant by its
/// recipient.
pub fn address_message(tx: &mut Transaction, recipient: &str, cs: &Vec<ContactInfo>) -> (r: SendStep)
    ensures
        match resolved_recipient(recipient@, cs@) {
            Some(id) => (r matches SendStep::Relay { to } && to@ == id) && *final(tx) == *old(tx),
            None => {
                &&& r matches SendStep::Done(o) && is_failure(
                    o,
                    i18n::send_failed_not_in_contacts_text(recipient@, contact_labels(cs@)),
                )
                &&& *final(tx) == (Transaction { cancel_idle: true, ..*old(tx) })
            },
        },
{
    match resolve_recipient_id(recipient, cs) {
        Some(to) => SendStep::Relay { to },
        None => {
            tx.cancel_idle = true;
            let names = labels_of(cs);
            SendStep::Done(
                ActionOutput::SendMsgFailed {
                    error: send_failed_not_in_contacts(recipient, names.as_str()),
                },
            )
        },
    }
}

/// The message was written or passed on at a time, or was refused.
pub fn finish_send(tx: &mut Transaction, recipient: &str, sent_at: Option<String>) -> (r: ActionOutput)
    ensures
        match sent_at {
            Some(t) => r == (ActionOutput::SendMsg { msg_id: t }) && *final(tx) == *old(tx),
            None => {
                &&& is_failure(r, i18n::send_failed_rejected_text(recipient@))
                &&& *final(tx) == (Transaction { cancel_idle: true, ..*old(tx) })
            },
        },
{
    match sent_at {
        Some(t) => ActionOutput::SendMsg { msg_id: t },
        None => {
            tx.cancel_idle = true;
            ActionOutput::SendMsgFailed { error: send_failed_rejected(recipient) }
        },
    }
}

/// What a script gives: its output as far as it is kept, and how it ended. Where
/// that is not known it counts as -1.
pub fn execute_script(result: &ShellOutput, elapsed_secs: String) -> (r: ActionOutput)
    ensures
        r matches ActionOutput::Script { stdout, exit_code, elapsed_secs: e, truncated } && stdout@
            == output::shown_stdout(result.output@) && exit_code == (match result.exit_code {
            Some(c) => c,
            None => -1i32,
        }) && e@ == elapsed_secs@ && truncated == (bytes::text_bytes(result.output@)
            > output::STDOUT_TRUNCATE_LIMIT),
{
    let (stdout, truncated) = truncate_stdout(result.output.as_str());
    ActionOutput::Script {
        stdout,
        exit_code: match result.exit_code {
            Some(c) => c,
            None => -1,
        },
        elapsed_secs,
        truncated,
    }
}

pub const PREVIEW_HEAD_LINES: usize = 10;

pub const PREVIEW_TAIL_LINES: usize = 5;

/// A text with more lines than this is not shown whole.
pub const PREVIEW_THRESHOLD: usize = 15;

/// The lines from one number up to another, each behind its number.
pub open spec fn numbered(all: Seq<Seq<char>>, from: int, to: int) -> Seq<Seq<char>>
    decreases to - from,
{
    if from < 0 || from >= to || to > all.len() {
        Seq::empty()
    } else {
        numbered(all, from, to - 1).push(
            action_output::preview_line_text(to as nat, all[to - 1]),
        )
    }
}

/// The lines that are shown of a text: all of them where there are few, else the
/// first ten and the last five.
pub open spec fn preview_lines(all: Seq<Seq<char>>) -> Seq<Seq<char>> {
    let n = all.len() as int;
    if n > PREVIEW_THRESHOLD {
        numbered(all, 0, 10).push("     ..."@) + numbered(all, n - 5, n)
    } else {
        numbered(all, 0, n)
    }
}

fn push_numbered(out: &mut Vec<String>, all: &Vec<String>, from: usize, to: usize)
    requires
        from <= to <= all@.len(),
    ensures
        search::views(final(out)@) == search::views(old(out)@) + numbered(
            search::views(all@),
            from as int,
            to as int,
        ),
{
    let ghost start = search::views(out@);
    let ghost whole = search::views(all@);
    let mut i: usize = from;
    assert(start + numbered(whole, from as int, from as int) =~= start);
    while i < to
        invariant
            from <= i <= to <= all@.len(),
            whole == search::views(all@),
            search::views(out@) == start + numbered(whole, from as int, i as int),
        decreases to - i,
    {
        assert(whole[i as int] == all@[i as int]@);
        let line = preview_line(i + 1, all[i].as_str());
        let ghost had = search::views(out@);
        proof {
            search::lemma_views_push(out@, line);
        }
        out.push(line);
        i = i + 1;
        assert(search::views(out@) =~= start + numbered(whole, from as int, i as int));
    }
}

/// What is shown of a text by its first and its last lines.
pub fn format_preview(all: &Vec<String>) -> (r: String)
    ensures
        r@ == search::join_text(preview_lines(search::views(all@)), "\n"@),
{
    let ghost whole = search::views(all@);
    let total: usize = all.len();
    let mut out: Vec<String> = Vec::new();
    assert(search::views(out@) =~= Seq::<Seq<char>>::empty());
    if total > PREVIEW_THRESHOLD {
        push_numbered(&mut out, all, 0, PREVIEW_HEAD_LINES);
        let dots = "     ...".to_string();
        proof {
            search::lemma_views_push(out@, dots);
        }
        out.push(dots);
        push_numbered(&mut out, all, total - PREVIEW_TAIL_LINES, total);
    } else {
        push_numbered(&mut out, all, 0, total);
    }
    assert(search::views(out@) =~= preview_lines(whole));
    join(&out, "\n")
}

/// What is shown of a file by what its rules find in it.
pub open spec fn shown_extract(x: ExtractionResult, content: Seq<char>) -> Seq<char> {
    match x {
        ExtractionResult::Full => "---file content---\n"@ + output::shown_stdout(content),
        ExtractionResult::Skeleton(v) => "--- skeleton (auto-extracted, showing interface & comments only, not full content) ---\n"@
            + search::join_text(search::views(v@), "\n"@),
        ExtractionResult::NoRule => "--- preview (first 10 + last 5 lines, not full content) ---\n"@
            + search::join_text(preview_lines(space::lines_of(content)), "\n"@),
    }
}

/// What is shown of a file by what its rules find in it.
pub fn show_extract(x: &ExtractionResult, content: &str) -> (r: String)
    ensures
        r@ == shown_extract(*x, content@),
{
    match x {
        ExtractionResult::Full => {
            let mut s = "---file content---\n".to_string();
            s.push_str(truncate_stdout(content).0.as_str());
            s
        },
        ExtractionResult::Skeleton(v) => {
            let mut s = "--- skeleton (auto-extracted, showing interface & comments only, not full content) ---\n".to_string();
            s.push_str(join(v, "\n").as_str());
            s
        },
        ExtractionResult::NoRule => {
            let all = lines(content);
            let mut s = "--- preview (first 10 + last 5 lines, not full content) ---\n".to_string();
            s.push_str(format_preview(&all).as_str());
            s
        },
    }
}

/// What rules find in a file.
pub open spec fn is_extract(
    x: ExtractionResult,
    config: SkeletonConfig,
    path: Seq<char>,
    content: Seq<char>,
) -> bool {
    let ext = skeleton::extension_of(path);
    let found = skeleton::skeleton_of(config.rules@, ext, content);
    if search::views(config.full_extensions@).contains(ext) {
        x is Full
    } else if found is Some && found->0.len() > 0 {
        x matches ExtractionResult::Skeleton(v) && search::views(v@) == found->0
    } else {
        x is NoRule
    }
}

/// What is shown of a file that was written: all of it, its declarations, or its
/// first and last lines, by what the rules that come with the engine say.
pub fn extract_skeleton(config: &SkeletonConfig, path: &str, content: &str) -> (r: String)
    ensures
        exists|x: ExtractionResult| #[trigger]
            is_extract(x, *config, path@, content@) && r@ == shown_extract(x, content@),
{
    let x = config.extract_from_path(path, content);
    let r = show_extract(&x, content);
    assert(is_extract(x, *config, path@, content@));
    r
}

/// How a file is written.
#[derive(Debug)]
pub enum WritePlan {
    /// By the engine itself.
    Direct { path: String },
    /// By a shell, as the user of the instance.
    ByShell { path: String },
}

/// Decides how a file is written: a privileged instance may do so itself.
pub fn plan_write(workspace: &str, path: &str, privileged: bool) -> (r: Result<WritePlan, String>)
    ensures
        match r {
            Ok(p) => shell::action_path(workspace@, path@) is Some && (if privileged {
                p matches WritePlan::Direct { path: a } && a@ == shell::action_path(
                    workspace@,
                    path@,
                )->0
            } else {
                p matches WritePlan::ByShell { path: a } && a@ == shell::action_path(
                    workspace@,
                    path@,
                )->0
            }),
            Err(e) => shell::action_path(workspace@, path@) is None && e@
                == "Path traversal rejected: "@ + path@,
        },
{
    match resolve_action_path(workspace, path) {
        Ok(p) => Ok(
            if privileged {
                WritePlan::Direct { path: p }
            } else {
                WritePlan::ByShell { path: p }
            },
        ),
        Err(e) => Err(e),
    }
}

/// What is said where a shell could not do something.
pub open spec fn shell_failure(what: Seq<char>, result: ShellOutput) -> Seq<char> {
    what + " (exit "@ + shell::exit_code_text(result.exit_code) + "): "@ + space::trimmed(
        result.output@,
    )
}

/// Whether a shell did something, or what is said where it could not.
pub fn check_shell(what: &str, result: &ShellOutput) -> (r: Result<(), String>)
    ensures
        match r {
            Ok(_) => result.exit_code == Some(0i32),
            Err(e) => result.exit_code != Some(0i32) && e@ == shell_failure(what@, *result),
        },
{
    if result.success() {
        return Ok(());
    }
    let mut e = what.to_string();
    e.push_str(" (exit ");
    e.push_str(result.exit_code_display().as_str());
    e.push_str("): ");
    e.push_str(trim(result.output.as_str()).as_str());
    Err(e)
}

/// What writing a file gives.
pub fn write_output(config: &SkeletonConfig, path: &str, content: &str) -> (r: ActionOutput)
    ensures
        r matches ActionOutput::WriteFile { skeleton, bytes, lines } && bytes == bytes::text_bytes(
            content@,
        ) && lines == space::lines_of(content@).len() && (exists|x: ExtractionResult| #[trigger]
            is_extract(x, *config, path@, content@) && skeleton@ == shown_extract(x, content@)),
{
    let skeleton = extract_skeleton(config, path, content);
    let all = lines(content);
    assert(search::views(all@).len() == all@.len());
    ActionOutput::WriteFile { skeleton, bytes: byte_len(content), lines: all.len() }
}

/// So many bytes are shown of a text that is replaced.
pub const REPLACE_PREVIEW_LIMIT: usize = 40;

/// What replacing a text in a file gives, and what the file is to hold.
pub open spec fn is_replacement(
    r: (ActionOutput, Option<String>),
    content: Seq<char>,
    wanted: Seq<char>,
    replacement: Seq<char>,
) -> bool {
    if util::count_of(content, wanted) == 1 {
        &&& r.0 matches ActionOutput::ReplaceInFile { match_count, before, after } && match_count
            == 1 && before@ == bytes::byte_prefix(wanted, 40) && after@ == bytes::byte_prefix(
            replacement,
            40,
        )
        &&& r.1 is Some
        &&& r.1->0@ == util::replaced_first(content, wanted, replacement)
    } else {
        &&& r.0 matches ActionOutput::ReplaceInFileFailed { match_count, search_preview }
            && match_count == util::count_of(content, wanted) && search_preview@
            == bytes::byte_prefix(wanted, 40)
        &&& r.1 is None
    }
}

/// Replaces a text that stands exactly once in a file; otherwise nothing is
/// replaced.
pub fn execute_replace_in_file(content: &str, wanted: &str, replacement: &str) -> (r: (
    ActionOutput,
    Option<String>,
))
    requires
        content@.len() < usize::MAX,
    ensures
        is_replacement(r, content@, wanted@, replacement@),
{
    match replace_once(content, wanted, replacement) {
        Ok(new_content) => (
            ActionOutput::ReplaceInFile {
                match_count: 1,
                before: safe_truncate(wanted, REPLACE_PREVIEW_LIMIT),
                after: safe_truncate(replacement, REPLACE_PREVIEW_LIMIT),
            },
            Some(new_content),
        ),
        Err(count) => (
            ActionOutput::ReplaceInFileFailed {
                match_count: count,
                search_preview: safe_truncate(wanted, REPLACE_PREVIEW_LIMIT),
            },
            None,
        ),
    }
}

/// The messages that a summary covers, as they are shown.
pub open spec fn message_range(first: Option<Seq<char>>, last: Option<Seq<char>>) -> Seq<char> {
    match first {
        Some(f) => if last is Some && f != last->0 {
            f + " ~ "@ + last->0
        } else {
            f
        },
        None => Seq::empty(),
    }
}

pub open spec fn opt_text(s: Option<String>) -> Option<Seq<char>> {
    match s {
        Some(t) => Some(t@),
        None => None,
    }
}

/// An entry of the session that a summary adds.
#[derive(Debug)]
pub struct SummaryPlan {
    pub first_msg: String,
    pub last_msg: String,
    pub summary: String,
    pub msg_range: String,
}

/// Prepares a summary: nothing is summed up where the current record is blank.
pub fn plan_summary(current: &str, content: &str, first_msg: Option<String>, last_msg: Option<String>) -> (r: Option<
    SummaryPlan,
>)
    ensures
        match r {
            Some(p) => {
                &&& !space::is_blank(current@)
                &&& p.first_msg@ == (match first_msg {
                    Some(f) => f@,
                    None => Seq::empty(),
                })
                &&& p.last_msg@ == (match last_msg {
                    Some(l) => l@,
                    None => Seq::empty(),
                })
                &&& p.summary@ == space::trimmed(content@)
                &&& p.msg_range@ == message_range(opt_text(first_msg), opt_text(last_msg))
            },
            None => space::is_blank(current@),
        },
{
    if space::blank(current) {
        return None;
    }
    let msg_range = match &first_msg {
        Some(f) => match &last_msg {
            Some(l) => if same_text(f.as_str(), l.as_str()) {
                f.clone()
            } else {
                let mut s = f.clone();
                s.push_str(" ~ ");
                s.push_str(l.as_str());
                s
            },
            None => f.clone(),
        },
        None => String::new(),
    };
    let first = match first_msg {
        Some(f) => f,
        None => String::new(),
    };
    let last = match last_msg {
        Some(l) => l,
        None => String::new(),
    };
    Some(SummaryPlan { first_msg: first, last_msg: last, summary: trim(content), msg_range })
}

/// What a summary gives.
pub fn summary_output(plan: Option<SummaryPlan>, block_name: String, knowledge: &str, msg_count: i64) -> (r: ActionOutput)
    ensures
        match plan {
            Some(p) => r matches ActionOutput::Summary {
                block_name: b,
                knowledge_chars,
                msg_count: c,
                msg_range,
            } && b@ == block_name@ && knowledge_chars == knowledge@.len() && c
                == msg_count && msg_range@ == p.msg_range@,
            None => r is SummaryEmpty,
        },
{
    match plan {
        Some(p) => ActionOutput::Summary {
            block_name,
            knowledge_chars: knowledge.unicode_len(),
            msg_count,
            msg_range: p.msg_range,
        },
        None => ActionOutput::SummaryEmpty,
    }
}

/// The block that a summary of so many bytes goes to: the last one as long as it
/// does not get larger than it may, or else a new one that is named by the time.
pub fn summary_block(
    last: Option<(String, u64)>,
    entry_bytes: u64,
    session_block_kb: u32,
    timestamp: &str,
) -> (r: String)
    ensures
        r@ == (match last {
            Some((name, size)) => if size + entry_bytes <= session_block_kb * 1024 {
                name@
            } else {
                timestamp@
            },
            None => timestamp@,
        }),
{
    let limit: u64 = session_block_kb as u64 * 1024;
    match last {
        Some((name, size)) => if size <= limit && entry_bytes <= limit - size {
            name
        } else {
            timestamp.to_string()
        },
        None => timestamp.to_string(),
    }
}

/// A field of the profile.
#[derive(Debug, Clone, Copy, PartialEq, Eq, Structural)]
pub enum ProfileField {
    Name,
    Color,
    Avatar,
}

pub open spec fn field_name(f: ProfileField) -> Seq<char> {
    match f {
        ProfileField::Name => "name"@,
        ProfileField::Color => "color"@,
        ProfileField::Avatar => "avatar"@,
    }
}

/// The field that a key in lower case names.
pub open spec fn field_of(key: Seq<char>) -> Option<ProfileField> {
    if key == "name"@ {
        Some(ProfileField::Name)
    } else if key == "color"@ {
        Some(ProfileField::Color)
    } else if key == "avatar"@ {
        Some(ProfileField::Avatar)
    } else {
        None
    }
}

/// What a line of a profile says: a key in lower case and a value; nothing where it
/// is blank or has no colon.
pub open spec fn profile_line(line: Seq<char>) -> Option<(Seq<char>, Seq<char>)> {
    match search::parted_text(space::trimmed(line), ":"@) {
        Some((key, value)) => Some(
            (case::lowercase_text(space::trimmed(key)), space::trimmed(value)),
        ),
        None => None,
    }
}

/// What the first `n` lines of a profile say, one after the other; the first key
/// that is none ends it.
pub open spec fn profile_changes(all: Seq<Seq<char>>, n: int) -> Result<
    Seq<(ProfileField, Seq<char>)>,
    Seq<char>,
>
    decreases n,
{
    if n <= 0 || n > all.len() {
        Ok(Seq::empty())
    } else {
        match profile_changes(all, n - 1) {
            Ok(changes) => match profile_line(all[n - 1]) {
                Some((key, value)) => match field_of(key) {
                    Some(f) => Ok(changes.push((f, value))),
                    None => Err(key),
                },
                None => Ok(changes),
            },
            Err(key) => Err(key),
        }
    }
}

/// The last value that changes give a field; none where it is empty.
pub open spec fn changed_to(changes: Seq<(ProfileField, Seq<char>)>, f: ProfileField) -> Option<
    Seq<char>,
>
    decreases changes.len(),
{
    if changes.len() == 0 {
        None
    } else if changes.last().0 == f {
        if changes.last().1.len() > 0 {
            Some(changes.last().1)
        } else {
            None
        }
    } else {
        changed_to(changes.drop_last(), f)
    }
}

/// The changes as they are shown.
pub open spec fn change_texts(changes: Seq<(ProfileField, Seq<char>)>) -> Seq<Seq<char>> {
    changes.map_values(|c: (ProfileField, Seq<char>)| field_name(c.0) + "="@ + c.1)
}

/// A changed profile: what is set of it, and what was said.
#[derive(Debug)]
pub struct ProfileUpdate {
    pub name: Option<String>,
    pub color: Option<String>,
    pub avatar: Option<String>,
    pub updated: String,
}

fn profile_field(key: &str) -> (r: Option<ProfileField>)
    ensures
        r == field_of(key@),
{
    if same_text(key, "name") {
        Some(ProfileField::Name)
    } else if same_text(key, "color") {
        Some(ProfileField::Color)
    } else if same_text(key, "avatar") {
        Some(ProfileField::Avatar)
    } else {
        None
    }
}

/// Reads a change of the profile; a key that is none is an error.
pub fn parse_profile(content: &str) -> (r: Result<ProfileUpdate, String>)
    ensures
        ({
            let all = space::lines_of(content@);
            match (r, profile_changes(all, all.len() as int)) {
                (Ok(u), Ok(changes)) => {
                    &&& opt_text(u.name) == changed_to(changes, ProfileField::Name)
                    &&& opt_text(u.color) == changed_to(changes, ProfileField::Color)
                    &&& opt_text(u.avatar) == changed_to(changes, ProfileField::Avatar)
                    &&& u.updated@ == search::join_text(change_texts(changes), ", "@)
                },
                (Err(key), Err(k)) => key@ == k,
                _ => false,
            }
        }),
{
    let all = lines(content);
    let ghost whole = search::views(all@);
    let ghost changes: Seq<(ProfileField, Seq<char>)> = Seq::empty();
    let mut name: Option<String> = None;
    let mut color: Option<String> = None;
    let mut avatar: Option<String> = None;
    let mut texts: Vec<String> = Vec::new();
    let mut i: usize = 0;
    assert(search::views(texts@) =~= change_texts(changes));
    while i < all.len()
        invariant
            i <= all@.len(),
            whole == search::views(all@),
            whole == space::lines_of(content@),
            profile_changes(whole, i as int) == Ok::<
                Seq<(ProfileField, Seq<char>)>,
                Seq<char>,
            >(changes),
            opt_text(name) == changed_to(changes, ProfileField::Name),
            opt_text(color) == changed_to(changes, ProfileField::Color),
            opt_text(avatar) == changed_to(changes, ProfileField::Avatar),
            search::views(texts@) == change_texts(changes),
        decreases all@.len() - i,
    {
        assert(whole[i as int] == all@[i as int]@);
        let line = trim(all[i].as_str());
        if let Some((k, v)) = part(line.as_str(), ":") {
            let key = to_lower(trim(k.as_str()).as_str());
            let value = trim(v.as_str());
            match profile_field(key.as_str()) {
                Some(f) => {
                    let set = if value.as_str().is_empty() {
                        None
                    } else {
                        Some(value.clone())
                    };
                    let mut text = match f {
                        ProfileField::Name => "name".to_string(),
                        ProfileField::Color => "color".to_string(),
                        ProfileField::Avatar => "avatar".to_string(),
                    };
                    text.push_str("=");
                    text.push_str(value.as_str());
                    match f {
                        ProfileField::Name => {
                            name = set;
                        },
                        ProfileField::Color => {
                            color = set;
                        },
                        ProfileField::Avatar => {
                            avatar = set;
                        },
                    }
                    proof {
                        let before = changes;
                        changes = before.push((f, value@));
                        assert(changes.drop_last() =~= before);
                        search::lemma_views_push(texts@, text);
                        assert(change_texts(changes) =~= change_texts(before).push(text@));
                    }
                    texts.push(text);
                },
                None => {
                    proof {
                        lemma_errors_stay(whole, i + 1, whole.len() as int);
                    }
                    return Err(key);
                },
            }
        }
        i = i + 1;
    }
    Ok(ProfileUpdate { name, color, avatar, updated: join(&texts, ", ") })
}

proof fn lemma_errors_stay(all: Seq<Seq<char>>, i: int, n: int)
    requires
        0 <= i <= n <= all.len(),
        profile_changes(all, i) is Err,
    ensures
        profile_changes(all, n) == profile_changes(all, i),
    decreases n,
{
    if i < n {
        lemma_errors_stay(all, i, n - 1);
    }
}

/// Puts a changed profile into the settings of an instance: what it leaves open
/// stays as it is.
pub fn apply_profile(update: ProfileUpdate, current: &Settings) -> (r: (Settings, ActionOutput))
    ensures
        settings::is_merged(
            r.0,
            (Settings {
                name: update.name,
                color: update.color,
                avatar: update.avatar,
                ..settings::nothing_set()
            }),
            *current,
        ),
        r.1 matches ActionOutput::SetProfile { updated } && updated@ == update.updated@,
{
    let mut s = Settings {
        api_key: None,
        model: None,
        temperature: None,
        max_tokens: None,
        extra_channels: None,
        privileged: None,
        max_beats: None,
        session_blocks_limit: None,
        session_block_kb: None,
        history_kb: None,
        safety_max_consecutive_beats: None,
        safety_cooldown_secs: None,
        name: update.name,
        color: update.color,
        avatar: update.avatar,
        host: None,
        shell_env: None,
    };
    s.merge_fallback(current);
    (s, ActionOutput::SetProfile { updated: update.updated })
}

/// What changing the profile gives: the new settings, or that a key is none.
pub fn execute_set_profile(content: &str, current: &Settings) -> (r: (Option<Settings>, ActionOutput))
    ensures
        ({
            let all = space::lines_of(content@);
            match profile_changes(all, all.len() as int) {
                Ok(changes) => {
                    &&& r.0 is Some
                    &&& r.1 matches ActionOutput::SetProfile { updated } && updated@
                        == search::join_text(change_texts(changes), ", "@)
                    &&& opt_text((r.0->0).name) == (match changed_to(changes, ProfileField::Name) {
                        Some(n) => Some(n),
                        None => opt_text(current.name),
                    })
                    &&& opt_text((r.0->0).color) == (match changed_to(
                        changes,
                        ProfileField::Color,
                    ) {
                        Some(c) => Some(c),
                        None => opt_text(current.color),
                    })
                    &&& opt_text((r.0->0).avatar) == (match changed_to(
                        changes,
                        ProfileField::Avatar,
                    ) {
                        Some(a) => Some(a),
                        None => opt_text(current.avatar),
                    })
                    &&& settings::is_merged(
                        (Settings {
                            name: current.name,
                            color: current.color,
                            avatar: current.avatar,
                            ..r.0->0
                        }),
                        settings::nothing_set(),
                        *current,
                    )
                },
                Err(key) => {
                    &&& r.0 is None
                    &&& r.1 matches ActionOutput::SetProfileFailed { unknown_key } && unknown_key@
                        == key
                },
            }
        }),
{
    match parse_profile(content) {
        Ok(update) => {
            let (s, o) = apply_profile(update, current);
            (Some(s), o)
        },
        Err(key) => (None, ActionOutput::SetProfileFailed { unknown_key: key }),
    }
}

/// The knowledge that a new instance starts with; none where it is empty.
pub fn initial_knowledge(knowledge: &str) -> (r: Option<String>)
    ensures
        match r {
            Some(k) => knowledge@.len() > 0 && k@ == knowledge@,
            None => knowledge@.len() == 0,
        },
{
    if knowledge.is_empty() {
        None
    } else {
        Some(knowledge.to_string())
    }
}

/// What creating an instance gives.
pub fn execute_create_instance(instance_id: String, name: &str, knowledge: &str) -> (r: ActionOutput)
    ensures
        r matches ActionOutput::CreateInstance { instance_id: id, name: n, knowledge_bytes } && id@
            == instance_id@ && n@ == name@ && knowledge_bytes == bytes::text_bytes(knowledge@),
{
    ActionOutput::CreateInstance {
        instance_id,
        name: name.to_string(),
        knowledge_bytes: byte_len(knowledge),
    }
}

} // verus!
