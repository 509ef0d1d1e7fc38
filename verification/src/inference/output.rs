//! What came out of actions, and how it is shown.
use vstd::prelude::*;

use crate::inference::action::{Action, ActionModel};
use crate::inference::render;
use crate::text::bytes;
use crate::text::bytes::{byte_len, cut_bytes, keep_last_bytes};
use crate::text::chars::same_text;
use crate::text::number;
use crate::text::number::{decimal, push_dec, push_dec_int};
use crate::text::search;
use crate::text::search::join;

verus! {

/// The most bytes of a script's output that are shown.
pub const STDOUT_TRUNCATE_LIMIT: usize = 102_400;

/// A message that was read.
#[derive(Debug)]
pub struct ReadMsgEntry {
    pub role: String,
    pub sender: String,
    pub timestamp: String,
    pub content: String,
    /// Whether the sender is among the contacts.
    pub is_known: bool,
}

/// What came out of an action.
#[derive(Debug)]
pub enum ActionOutput {
    /// Nothing (idle, thinking).
    Empty,
    /// Messages read from the inbox.
    ReadMsg { entries: Vec<ReadMsgEntry> },
    /// A message was sent under this name.
    SendMsg { msg_id: String },
    /// A message could not be sent.
    SendMsgFailed { error: String },
    /// A script ran; the elapsed seconds are given as they are shown.
    Script { stdout: String, exit_code: i32, elapsed_secs: String, truncated: bool },
    /// A file was written.
    WriteFile { skeleton: String, bytes: usize, lines: usize },
    /// A text was replaced.
    ReplaceInFile { match_count: usize, before: String, after: String },
    /// A text did not stand exactly once.
    ReplaceInFileFailed { match_count: usize, search_preview: String },
    /// The current record was summed up.
    Summary { block_name: String, knowledge_chars: usize, msg_count: i64, msg_range: String },
    /// There was nothing to sum up.
    SummaryEmpty,
    /// A record was distilled.
    Distill { old_bytes: usize, new_bytes: usize },
    /// The profile was updated.
    SetProfile { updated: String },
    /// The profile has no such key.
    SetProfileFailed { unknown_key: String },
    /// An instance was created.
    CreateInstance { instance_id: String, name: String, knowledge_bytes: usize },
    /// A plain note.
    Note { text: String },
}

/// Where an action stands.
#[derive(Debug, Clone, Copy, PartialEq, Eq, Structural)]
pub enum ActionStatus {
    Executing,
    Done,
    Distilled,
}

/// How a message that was read is shown: who sent it, its marker, its text.
pub open spec fn msg_entry_text(e: ReadMsgEntry) -> Seq<char> {
    let sender = if e.role@ == "agent"@ && !e.is_known {
        "⚠️ 此消息来自未知发送者："@ + e.sender@ + "\n"@ + e.sender@
    } else if e.role@ == "user"@ {
        "user"@
    } else {
        e.sender@
    };
    sender + " [MSG:"@ + e.timestamp@ + "]发来一条消息：\n\n"@ + e.content@
}

/// Shows a message that was read.
pub fn render_msg_entry(entry: &ReadMsgEntry) -> (r: String)
    ensures
        r@ == msg_entry_text(*entry),
{
    let mut s = if same_text(entry.role.as_str(), "agent") && !entry.is_known {
        let mut w = "⚠️ 此消息来自未知发送者：".to_string();
        w.push_str(entry.sender.as_str());
        w.push_str("\n");
        w.push_str(entry.sender.as_str());
        w
    } else if same_text(entry.role.as_str(), "user") {
        "user".to_string()
    } else {
        entry.sender.clone()
    };
    s.push_str(" [MSG:");
    s.push_str(entry.timestamp.as_str());
    s.push_str("]发来一条消息：\n\n");
    s.push_str(entry.content.as_str());
    s
}

/// The messages that were read, one below the other.
pub open spec fn entries_text(entries: Seq<ReadMsgEntry>) -> Seq<char> {
    search::join_text(entries.map_values(|e: ReadMsgEntry| msg_entry_text(e)), "\n"@)
}

fn render_entries(entries: &Vec<ReadMsgEntry>) -> (r: String)
    ensures
        r@ == entries_text(entries@),
{
    let ghost wanted = entries@.map_values(|e: ReadMsgEntry| msg_entry_text(e));
    let mut shown: Vec<String> = Vec::new();
    let mut i: usize = 0;
    assert(search::views(shown@) =~= wanted.take(0));
    while i < entries.len()
        invariant
            i <= entries@.len(),
            wanted == entries@.map_values(|e: ReadMsgEntry| msg_entry_text(e)),
            search::views(shown@) == wanted.take(i as int),
        decreases entries@.len() - i,
    {
        let one = render_msg_entry(&entries[i]);
        proof {
            search::lemma_views_push(shown@, one);
            assert(wanted.take(i + 1) =~= wanted.take(i as int).push(one@));
        }
        shown.push(one);
        i = i + 1;
    }
    assert(wanted.take(entries@.len() as int) =~= wanted);
    join(&shown, "\n")
}

/// A script's output as it is shown: whole where it is short, else its first
/// and last half of the limit, with a note of what is missing.
pub open spec fn shown_stdout(text: Seq<char>) -> Seq<char> {
    if bytes::text_bytes(text) <= STDOUT_TRUNCATE_LIMIT {
        text
    } else {
        bytes::byte_prefix(text, 51200) + "...\n\n[truncated: "@ + number::dec(
            bytes::text_bytes(text),
        ) + " bytes total, showing first and last ~"@ + number::dec(51200) + " bytes]\n\n..."@
            + bytes::byte_suffix(text, 51200)
    }
}

/// Cuts a script's output for display, and says whether it was cut.
pub fn truncate_stdout(text: &str) -> (r: (String, bool))
    ensures
        r.0@ == shown_stdout(text@),
        r.1 == (bytes::text_bytes(text@) > STDOUT_TRUNCATE_LIMIT),
{
    let total = byte_len(text);
    if total <= STDOUT_TRUNCATE_LIMIT {
        return (text.to_string(), false);
    }
    let keep: usize = STDOUT_TRUNCATE_LIMIT / 2;
    let mut s = cut_bytes(text, keep);
    s.push_str("...\n\n[truncated: ");
    push_dec(&mut s, total as u64);
    s.push_str(" bytes total, showing first and last ~");
    push_dec(&mut s, keep as u64);
    s.push_str(" bytes]\n\n...");
    let tail = keep_last_bytes(text, keep);
    s.push_str(tail.as_str());
    (s, true)
}

/// A text cut to at most `max_len` bytes, with dots where something is missing.
pub open spec fn display_cut(text: Seq<char>, max_len: int) -> Seq<char> {
    if bytes::text_bytes(text) <= max_len {
        text
    } else {
        bytes::byte_prefix(text, max_len) + "..."@
    }
}

/// Cuts a text for display.
pub fn truncate_for_display(text: &str, max_len: usize) -> (r: String)
    ensures
        r@ == display_cut(text@, max_len as int),
{
    if byte_len(text) <= max_len {
        text.to_string()
    } else {
        let mut s = cut_bytes(text, max_len);
        s.push_str("...");
        s
    }
}

impl ActionOutput {
    /// The name of a message that was sent.
    pub fn msg_id(&self) -> (r: Option<&str>)
        ensures
            match self {
                ActionOutput::SendMsg { msg_id } => r is Some && r->0@ == msg_id@,
                _ => r is None,
            },
    {
        match self {
            ActionOutput::SendMsg { msg_id } => Some(msg_id.as_str()),
            _ => None,
        }
    }

    /// The names of the messages that were read.
    pub fn msg_ids(&self) -> (r: Vec<&str>)
        ensures
            match self {
                ActionOutput::ReadMsg { entries } => r@.len() == entries@.len() && forall|i: int|
                    0 <= i < entries@.len() ==> (#[trigger] r@[i])@ == entries@[i].timestamp@,
                _ => r@.len() == 0,
            },
    {
        let mut out: Vec<&str> = Vec::new();
        match self {
            ActionOutput::ReadMsg { entries } => {
                let mut i: usize = 0;
                while i < entries.len()
                    invariant
                        i <= entries@.len(),
                        out@.len() == i,
                        forall|k: int|
                            0 <= k < i ==> (#[trigger] out@[k])@ == entries@[k].timestamp@,
                    decreases entries@.len() - i,
                {
                    out.push(entries[i].timestamp.as_str());
                    i = i + 1;
                }
            },
            _ => {},
        }
        out
    }
}

/// An action as the prompt shows it, what went in and what came out.
#[derive(Debug)]
pub struct ActionView {
    pub action_id: String,
    pub action_type: String,
    pub started_at: Option<String>,
    pub content: Option<String>,
    pub recipient: Option<String>,
    pub message: Option<String>,
    pub file_path: Option<String>,
    pub file_content: Option<String>,
    pub search_text: Option<String>,
    pub replace_text: Option<String>,
    pub timeout_secs: Option<u64>,
    pub target_action_id: Option<String>,
    pub distill_summary: Option<String>,
    pub instance_name: Option<String>,
    pub knowledge: Option<String>,
    pub profile_settings: Option<String>,
    pub stdout: Option<String>,
    pub exit_code: Option<i32>,
    pub elapsed_secs: Option<String>,
    pub skeleton: Option<String>,
    pub msg_id: Option<String>,
    pub messages: Option<String>,
    pub match_count: Option<usize>,
    pub before_context: Option<String>,
    pub after_context: Option<String>,
    pub block_name: Option<String>,
    pub created_instance_id: Option<String>,
    pub error: Option<String>,
    pub note: Option<String>,
    pub distill_text: Option<String>,
}

/// An action view with its texts as character sequences.
pub struct ViewModel {
    pub action_id: Seq<char>,
    pub action_type: Seq<char>,
    pub started_at: Option<Seq<char>>,
    pub content: Option<Seq<char>>,
    pub recipient: Option<Seq<char>>,
    pub message: Option<Seq<char>>,
    pub file_path: Option<Seq<char>>,
    pub file_content: Option<Seq<char>>,
    pub search_text: Option<Seq<char>>,
    pub replace_text: Option<Seq<char>>,
    pub timeout_secs: Option<u64>,
    pub target_action_id: Option<Seq<char>>,
    pub distill_summary: Option<Seq<char>>,
    pub instance_name: Option<Seq<char>>,
    pub knowledge: Option<Seq<char>>,
    pub profile_settings: Option<Seq<char>>,
    pub stdout: Option<Seq<char>>,
    pub exit_code: Option<i32>,
    pub elapsed_secs: Option<Seq<char>>,
    pub skeleton: Option<Seq<char>>,
    pub msg_id: Option<Seq<char>>,
    pub messages: Option<Seq<char>>,
    pub match_count: Option<usize>,
    pub before_context: Option<Seq<char>>,
    pub after_context: Option<Seq<char>>,
    pub block_name: Option<Seq<char>>,
    pub created_instance_id: Option<Seq<char>>,
    pub error: Option<Seq<char>>,
    pub note: Option<Seq<char>>,
    pub distill_text: Option<Seq<char>>,
}

impl View for ActionView {
    type V = ViewModel;

    open spec fn view(&self) -> ViewModel {
        ViewModel {
            action_id: self.action_id@,
            action_type: self.action_type@,
            started_at: render::opt_view(self.started_at),
            content: render::opt_view(self.content),
            recipient: render::opt_view(self.recipient),
            message: render::opt_view(self.message),
            file_path: render::opt_view(self.file_path),
            file_content: render::opt_view(self.file_content),
            search_text: render::opt_view(self.search_text),
            replace_text: render::opt_view(self.replace_text),
            timeout_secs: self.timeout_secs,
            target_action_id: render::opt_view(self.target_action_id),
            distill_summary: render::opt_view(self.distill_summary),
            instance_name: render::opt_view(self.instance_name),
            knowledge: render::opt_view(self.knowledge),
            profile_settings: render::opt_view(self.profile_settings),
            stdout: render::opt_view(self.stdout),
            exit_code: self.exit_code,
            elapsed_secs: render::opt_view(self.elapsed_secs),
            skeleton: render::opt_view(self.skeleton),
            msg_id: render::opt_view(self.msg_id),
            messages: render::opt_view(self.messages),
            match_count: self.match_count,
            before_context: render::opt_view(self.before_context),
            after_context: render::opt_view(self.after_context),
            block_name: render::opt_view(self.block_name),
            created_instance_id: render::opt_view(self.created_instance_id),
            error: render::opt_view(self.error),
            note: render::opt_view(self.note),
            distill_text: render::opt_view(self.distill_text),
        }
    }
}

/// A view of which only the name and the kind are known.
pub open spec fn empty_view(action_id: Seq<char>, action_type: Seq<char>) -> ViewModel {
    ViewModel {
        action_id,
        action_type,
        started_at: None,
        content: None,
        recipient: None,
        message: None,
        file_path: None,
        file_content: None,
        search_text: None,
        replace_text: None,
        timeout_secs: None,
        target_action_id: None,
        distill_summary: None,
        instance_name: None,
        knowledge: None,
        profile_settings: None,
        stdout: None,
        exit_code: None,
        elapsed_secs: None,
        skeleton: None,
        msg_id: None,
        messages: None,
        match_count: None,
        before_context: None,
        after_context: None,
        block_name: None,
        created_instance_id: None,
        error: None,
        note: None,
        distill_text: None,
    }
}

/// A view with what goes into an action filled in.
pub open spec fn with_input(m: ViewModel, a: ActionModel) -> ViewModel {
    match a {
        ActionModel::Idle { timeout_secs } => ViewModel { timeout_secs, ..m },
        ActionModel::ReadMsg => m,
        ActionModel::SendMsg { recipient, content } => ViewModel {
            recipient: Some(recipient),
            message: Some(content),
            ..m
        },
        ActionModel::Thinking { content } => ViewModel { content: Some(content), ..m },
        ActionModel::Script { content } => ViewModel { content: Some(content), ..m },
        ActionModel::WriteFile { path, content } => ViewModel {
            file_path: Some(path),
            file_content: Some(content),
            ..m
        },
        ActionModel::ReplaceInFile { path, search, replace } => ViewModel {
            file_path: Some(path),
            search_text: Some(search),
            replace_text: Some(replace),
            ..m
        },
        ActionModel::Summary { content } => ViewModel { content: Some(content), ..m },
        ActionModel::SetProfile { content } => ViewModel { profile_settings: Some(content), ..m },
        ActionModel::CreateInstance { name, knowledge } => ViewModel {
            instance_name: Some(name),
            knowledge: Some(knowledge),
            ..m
        },
        ActionModel::Distill { target_action_id, summary } => ViewModel {
            target_action_id: Some(target_action_id),
            distill_summary: Some(summary),
            ..m
        },
    }
}

/// A view with what came out of an action filled in.
pub open spec fn with_output(m: ViewModel, o: ActionOutput) -> ViewModel {
    match o {
        ActionOutput::Empty => m,
        ActionOutput::ReadMsg { entries } => ViewModel {
            messages: Some(entries_text(entries@)),
            ..m
        },
        ActionOutput::SendMsg { msg_id } => ViewModel { msg_id: Some(msg_id@), ..m },
        ActionOutput::SendMsgFailed { error } => ViewModel { error: Some(error@), ..m },
        ActionOutput::Script { stdout, exit_code, elapsed_secs, .. } => ViewModel {
            stdout: Some(shown_stdout(stdout@)),
            exit_code: Some(exit_code),
            elapsed_secs: Some(elapsed_secs@),
            ..m
        },
        ActionOutput::WriteFile { skeleton, .. } => ViewModel { skeleton: Some(skeleton@), ..m },
        ActionOutput::ReplaceInFile { match_count, before, after } => ViewModel {
            match_count: Some(match_count),
            before_context: Some(before@),
            after_context: Some(after@),
            ..m
        },
        ActionOutput::ReplaceInFileFailed { match_count, search_preview } => ViewModel {
            match_count: Some(match_count),
            error: Some(
                "match_count="@ + number::dec(match_count as nat) + ", search: "@ + search_preview@,
            ),
            ..m
        },
        ActionOutput::Summary { block_name, .. } => ViewModel {
            block_name: Some(block_name@),
            ..m
        },
        ActionOutput::SummaryEmpty => m,
        ActionOutput::Distill { .. } => m,
        ActionOutput::SetProfile { updated } => ViewModel { note: Some(updated@), ..m },
        ActionOutput::SetProfileFailed { unknown_key } => ViewModel {
            error: Some("unknown key: "@ + unknown_key@),
            ..m
        },
        ActionOutput::CreateInstance { instance_id, name, .. } => ViewModel {
            created_instance_id: Some(instance_id@),
            note: Some("created: "@ + name@ + " ("@ + instance_id@ + ")"@),
            ..m
        },
        ActionOutput::Note { text } => ViewModel { note: Some(text@), ..m },
    }
}

/// A row of the action log.
#[derive(Debug)]
pub struct ActionLogRow {
    pub action_id: String,
    pub action_type: String,
    pub action_input: String,
    pub action_output: Option<String>,
    pub distill_text: Option<String>,
    pub status: String,
    pub created_at: String,
}

/// The status of an action that is done.
pub const ACTION_STATUS_DONE: &'static str = "done";

/// The status of an action that was distilled.
pub const ACTION_STATUS_DISTILLED: &'static str = "distilled";

/// What a stored status says; anything unknown is still executing.
pub open spec fn status_of(s: Seq<char>) -> ActionStatus {
    if s == ACTION_STATUS_DONE@ {
        ActionStatus::Done
    } else if s == ACTION_STATUS_DISTILLED@ {
        ActionStatus::Distilled
    } else {
        ActionStatus::Executing
    }
}

/// The view of a row, given what its stored input and output read as.
pub open spec fn row_view(
    row: ActionLogRow,
    action: Option<ActionModel>,
    output: Option<ActionOutput>,
) -> ViewModel {
    let base = ViewModel {
        started_at: Some(row.created_at@),
        ..empty_view(row.action_id@, row.action_type@)
    };
    match status_of(row.status@) {
        ActionStatus::Distilled => ViewModel {
            distill_text: render::opt_view(row.distill_text),
            ..base
        },
        status => {
            let running = status == ActionStatus::Executing;
            let marked = if running {
                ViewModel { note: Some("---action executing, result pending---"@), ..base }
            } else {
                base
            };
            let input = match action {
                Some(a) => if row.action_input@.len() > 0 {
                    with_input(marked, a)
                } else {
                    marked
                },
                None => marked,
            };
            let has_output = row.action_output is Some && row.action_output->0@.len() > 0;
            let done = if !running && has_output {
                match output {
                    Some(o) => with_output(input, o),
                    None => ViewModel {
                        note: Some(display_cut(row.action_output->0@, 200)),
                        ..input
                    },
                }
            } else {
                input
            };
            if row.action_input@.len() == 0 && done.note is None && has_output {
                match output {
                    Some(ActionOutput::Note { text }) => ViewModel { note: Some(text@), ..done },
                    _ => ViewModel { note: Some(display_cut(row.action_output->0@, 200)), ..done },
                }
            } else {
                done
            }
        },
    }
}

impl ActionView {
    /// A view of which only the name and the kind are known.
    pub fn empty(action_id: String, action_type: String) -> (r: Self)
        ensures
            r@ == empty_view(action_id@, action_type@),
    {
        ActionView {
            action_id,
            action_type,
            started_at: None,
            content: None,
            recipient: None,
            message: None,
            file_path: None,
            file_content: None,
            search_text: None,
            replace_text: None,
            timeout_secs: None,
            target_action_id: None,
            distill_summary: None,
            instance_name: None,
            knowledge: None,
            profile_settings: None,
            stdout: None,
            exit_code: None,
            elapsed_secs: None,
            skeleton: None,
            msg_id: None,
            messages: None,
            match_count: None,
            before_context: None,
            after_context: None,
            block_name: None,
            created_instance_id: None,
            error: None,
            note: None,
            distill_text: None,
        }
    }

    /// Fills in what goes into an action.
    pub fn fill_input(&mut self, action: &Action)
        ensures
            final(self)@ == with_input(old(self)@, action@),
    {
        match action {
            Action::Idle { timeout_secs } => {
                self.timeout_secs = *timeout_secs;
            },
            Action::ReadMsg => {},
            Action::SendMsg { recipient, content } => {
                self.recipient = Some(recipient.clone());
                self.message = Some(content.clone());
            },
            Action::Thinking { content } => {
                self.content = Some(content.clone());
            },
            Action::Script { content } => {
                self.content = Some(content.clone());
            },
            Action::WriteFile { path, content } => {
                self.file_path = Some(path.clone());
                self.file_content = Some(content.clone());
            },
            Action::ReplaceInFile { path, search, replace } => {
                self.file_path = Some(path.clone());
                self.search_text = Some(search.clone());
                self.replace_text = Some(replace.clone());
            },
            Action::Summary { content } => {
                self.content = Some(content.clone());
            },
            Action::SetProfile { content } => {
                self.profile_settings = Some(content.clone());
            },
            Action::CreateInstance { name, knowledge } => {
                self.instance_name = Some(name.clone());
                self.knowledge = Some(knowledge.clone());
            },
            Action::Distill { target_action_id, summary } => {
                self.target_action_id = Some(target_action_id.clone());
                self.distill_summary = Some(summary.clone());
            },
        }
    }

    /// Fills in what came out of an action.
    pub fn fill_output(&mut self, output: &ActionOutput)
        ensures
            final(self)@ == with_output(old(self)@, *output),
    {
        match output {
            ActionOutput::Empty => {},
            ActionOutput::ReadMsg { entries } => {
                self.messages = Some(render_entries(entries));
            },
            ActionOutput::SendMsg { msg_id } => {
                self.msg_id = Some(msg_id.clone());
            },
            ActionOutput::SendMsgFailed { error } => {
                self.error = Some(error.clone());
            },
            ActionOutput::Script { stdout, exit_code, elapsed_secs, .. } => {
                let (shown, _) = truncate_stdout(stdout.as_str());
                self.stdout = Some(shown);
                self.exit_code = Some(*exit_code);
                self.elapsed_secs = Some(elapsed_secs.clone());
            },
            ActionOutput::WriteFile { skeleton, .. } => {
                self.skeleton = Some(skeleton.clone());
            },
            ActionOutput::ReplaceInFile { match_count, before, after } => {
                self.match_count = Some(*match_count);
                self.before_context = Some(before.clone());
                self.after_context = Some(after.clone());
            },
            ActionOutput::ReplaceInFileFailed { match_count, search_preview } => {
                self.match_count = Some(*match_count);
                let mut e = "match_count=".to_string();
                push_dec(&mut e, *match_count as u64);
                e.push_str(", search: ");
                e.push_str(search_preview.as_str());
                self.error = Some(e);
            },
            ActionOutput::Summary { block_name, .. } => {
                self.block_name = Some(block_name.clone());
            },
            ActionOutput::SummaryEmpty => {},
            ActionOutput::Distill { .. } => {},
            ActionOutput::SetProfile { updated } => {
                self.note = Some(updated.clone());
            },
            ActionOutput::SetProfileFailed { unknown_key } => {
                let mut e = "unknown key: ".to_string();
                e.push_str(unknown_key.as_str());
                self.error = Some(e);
            },
            ActionOutput::CreateInstance { instance_id, name, .. } => {
                self.created_instance_id = Some(instance_id.clone());
                let mut n = "created: ".to_string();
                n.push_str(name.as_str());
                n.push_str(" (");
                n.push_str(instance_id.as_str());
                n.push_str(")");
                self.note = Some(n);
            },
            ActionOutput::Note { text } => {
                self.note = Some(text.clone());
            },
        }
    }

    /// Builds the view of a row of the log. `action` and `output` are what the
    /// stored texts read as, where they can be read.
    pub fn from_db_row(
        row: &ActionLogRow,
        action: &Option<Action>,
        output: &Option<ActionOutput>,
    ) -> (r: Self)
        ensures
            r@ == row_view(
                *row,
                match action {
                    Some(a) => Some(a@),
                    None => None,
                },
                *output,
            ),
    {
        let mut view = ActionView::empty(row.action_id.clone(), row.action_type.clone());
        view.started_at = Some(row.created_at.clone());
        let done = same_text(row.status.as_str(), ACTION_STATUS_DONE);
        let distilled = same_text(row.status.as_str(), ACTION_STATUS_DISTILLED);
        if !done && distilled {
            view.distill_text = row.distill_text.clone();
            return view;
        }
        if !done {
            view.note = Some("---action executing, result pending---".to_string());
        }
        if !row.action_input.as_str().is_empty() {
            if let Some(a) = action {
                view.fill_input(a);
            }
        }
        if let Some(text) = &row.action_output {
            if !text.as_str().is_empty() {
                if done {
                    match output {
                        Some(o) => {
                            view.fill_output(o);
                        },
                        None => {
                            view.note = Some(truncate_for_display(text.as_str(), 200));
                        },
                    }
                }
                if row.action_input.as_str().is_empty() && view.note.is_none() {
                    match output {
                        Some(ActionOutput::Note { text: note }) => {
                            view.note = Some(note.clone());
                        },
                        _ => {
                            view.note = Some(truncate_for_display(text.as_str(), 200));
                        },
                    }
                }
            }
        }
        view
    }
}

/// The sections of a view, in order.
pub open spec fn view_sections(m: ViewModel) -> Seq<Seq<char>> {
    seq![
        render::field_text("###"@, "action_id"@, m.action_id),
        render::field_text("###"@, "action_type"@, m.action_type),
        render::opt_field_text("###"@, "started_at"@, m.started_at),
        render::opt_weak_text("content"@, m.content),
        render::opt_field_text("###"@, "recipient"@, m.recipient),
        render::opt_weak_text("message"@, m.message),
        render::opt_field_text("###"@, "file_path"@, m.file_path),
        render::opt_weak_text("file_content"@, m.file_content),
        render::opt_weak_text("search_text"@, m.search_text),
        render::opt_weak_text("replace_text"@, m.replace_text),
        match m.timeout_secs { Some(v) => render::inline_text("timeout_secs"@, number::dec(v as nat)), None => Seq::empty() },
        render::opt_field_text("###"@, "target_action_id"@, m.target_action_id),
        render::opt_weak_text("distill_summary"@, m.distill_summary),
        render::opt_field_text("###"@, "instance_name"@, m.instance_name),
        render::opt_weak_text("knowledge"@, m.knowledge),
        render::opt_field_text("###"@, "profile_settings"@, m.profile_settings),
        render::opt_weak_text("stdout"@, m.stdout),
        match m.exit_code { Some(v) => render::inline_text("exit_code"@, number::dec_int(v as int)), None => Seq::empty() },
        render::opt_field_text("###"@, "elapsed_secs"@, m.elapsed_secs),
        render::opt_weak_text("skeleton"@, m.skeleton),
        render::opt_field_text("###"@, "msg_id"@, m.msg_id),
        render::opt_weak_text("messages"@, m.messages),
        match m.match_count { Some(v) => render::inline_text("match_count"@, number::dec(v as nat)), None => Seq::empty() },
        render::opt_weak_text("before_context"@, m.before_context),
        render::opt_weak_text("after_context"@, m.after_context),
        render::opt_field_text("###"@, "block_name"@, m.block_name),
        render::opt_field_text("###"@, "created_instance_id"@, m.created_instance_id),
        render::opt_weak_text("error"@, m.error),
        render::opt_weak_text("note"@, m.note),
        render::opt_weak_text("distill_text"@, m.distill_text),
    ]
}

impl ActionView {
    /// Renders the view for the prompt.
    pub fn to_markdown(&self) -> (r: String)
        ensures
            r@ == search::join_text(view_sections(self@), ""@),
    {
        let mut parts: Vec<String> = Vec::new();
        parts.push(render::field("###", "action_id", self.action_id.as_str()));
        parts.push(render::field("###", "action_type", self.action_type.as_str()));
        parts.push(render::opt_field("###", "started_at", &self.started_at));
        parts.push(render::opt_weak("content", &self.content));
        parts.push(render::opt_field("###", "recipient", &self.recipient));
        parts.push(render::opt_weak("message", &self.message));
        parts.push(render::opt_field("###", "file_path", &self.file_path));
        parts.push(render::opt_weak("file_content", &self.file_content));
        parts.push(render::opt_weak("search_text", &self.search_text));
        parts.push(render::opt_weak("replace_text", &self.replace_text));
        parts.push(
            match self.timeout_secs {
                Some(v) => {
                    let n = decimal(v as u64);
                    render::inline("timeout_secs", n.as_str())
                },
                None => String::new(),
            },
        );
        parts.push(render::opt_field("###", "target_action_id", &self.target_action_id));
        parts.push(render::opt_weak("distill_summary", &self.distill_summary));
        parts.push(render::opt_field("###", "instance_name", &self.instance_name));
        parts.push(render::opt_weak("knowledge", &self.knowledge));
        parts.push(render::opt_field("###", "profile_settings", &self.profile_settings));
        parts.push(render::opt_weak("stdout", &self.stdout));
        parts.push(
            match self.exit_code {
                Some(v) => {
                    let mut n = String::new();
                    push_dec_int(&mut n, v as i64);
                    assert(n@ =~= number::dec_int(v as int));
                    render::inline("exit_code", n.as_str())
                },
                None => String::new(),
            },
        );
        parts.push(render::opt_field("###", "elapsed_secs", &self.elapsed_secs));
        parts.push(render::opt_weak("skeleton", &self.skeleton));
        parts.push(render::opt_field("###", "msg_id", &self.msg_id));
        parts.push(render::opt_weak("messages", &self.messages));
        parts.push(
            match self.match_count {
                Some(v) => {
                    let n = decimal(v as u64);
                    render::inline("match_count", n.as_str())
                },
                None => String::new(),
            },
        );
        parts.push(render::opt_weak("before_context", &self.before_context));
        parts.push(render::opt_weak("after_context", &self.after_context));
        parts.push(render::opt_field("###", "block_name", &self.block_name));
        parts.push(render::opt_field("###", "created_instance_id", &self.created_instance_id));
        parts.push(render::opt_weak("error", &self.error));
        parts.push(render::opt_weak("note", &self.note));
        parts.push(render::opt_weak("distill_text", &self.distill_text));
        assert(search::views(parts@) =~= view_sections(self@));
        join(&parts, "")
    }
}

} // verus!
