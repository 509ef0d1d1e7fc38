//! What an agent can do.
use vstd::prelude::*;

use crate::text::number;
use crate::text::number::push_dec;

verus! {

/// One thing that an agent does.
#[derive(Debug)]
pub enum Action {
    /// Do nothing, until a message comes or the time is up.
    Idle { timeout_secs: Option<u64> },
    /// Read the inbox.
    ReadMsg,
    /// Send a message.
    SendMsg { recipient: String, content: String },
    /// Note a thought.
    Thinking { content: String },
    /// Run a script in the workspace.
    Script { content: String },
    /// Write a file.
    WriteFile { path: String, content: String },
    /// Replace a text that stands exactly once in a file.
    ReplaceInFile { path: String, search: String, replace: String },
    /// Sum up what happened and clear the current record.
    Summary { content: String },
    /// Change the profile, a `key: value` per line.
    SetProfile { content: String },
    /// Create a new instance.
    CreateInstance { name: String, knowledge: String },
    /// Replace the record of an earlier action by a short text.
    Distill { target_action_id: String, summary: String },
}

/// An action with its texts as character sequences.
pub enum ActionModel {
    Idle { timeout_secs: Option<u64> },
    ReadMsg,
    SendMsg { recipient: Seq<char>, content: Seq<char> },
    Thinking { content: Seq<char> },
    Script { content: Seq<char> },
    WriteFile { path: Seq<char>, content: Seq<char> },
    ReplaceInFile { path: Seq<char>, search: Seq<char>, replace: Seq<char> },
    Summary { content: Seq<char> },
    SetProfile { content: Seq<char> },
    CreateInstance { name: Seq<char>, knowledge: Seq<char> },
    Distill { target_action_id: Seq<char>, summary: Seq<char> },
}

impl View for Action {
    type V = ActionModel;

    open spec fn view(&self) -> ActionModel {
        match self {
            Action::Idle { timeout_secs } => ActionModel::Idle { timeout_secs: *timeout_secs },
            Action::ReadMsg => ActionModel::ReadMsg,
            Action::SendMsg { recipient, content } => ActionModel::SendMsg {
                recipient: recipient@,
                content: content@,
            },
            Action::Thinking { content } => ActionModel::Thinking { content: content@ },
            Action::Script { content } => ActionModel::Script { content: content@ },
            Action::WriteFile { path, content } => ActionModel::WriteFile {
                path: path@,
                content: content@,
            },
            Action::ReplaceInFile { path, search, replace } => ActionModel::ReplaceInFile {
                path: path@,
                search: search@,
                replace: replace@,
            },
            Action::Summary { content } => ActionModel::Summary { content: content@ },
            Action::SetProfile { content } => ActionModel::SetProfile { content: content@ },
            Action::CreateInstance { name, knowledge } => ActionModel::CreateInstance {
                name: name@,
                knowledge: knowledge@,
            },
            Action::Distill { target_action_id, summary } => ActionModel::Distill {
                target_action_id: target_action_id@,
                summary: summary@,
            },
        }
    }
}

/// The views of a sequence of actions.
pub open spec fn models(v: Seq<Action>) -> Seq<ActionModel> {
    v.map_values(|a: Action| a@)
}

pub proof fn lemma_models_push(v: Seq<Action>, a: Action)
    ensures
        models(v.push(a)) == models(v).push(a@),
{
    assert(models(v.push(a)) =~= models(v).push(a@));
}

impl Clone for Action {
    fn clone(&self) -> (r: Self)
        ensures
            r == *self,
            r@ == self@,
    {
        match self {
            Action::Idle { timeout_secs } => Action::Idle { timeout_secs: *timeout_secs },
            Action::ReadMsg => Action::ReadMsg,
            Action::SendMsg { recipient, content } => Action::SendMsg {
                recipient: recipient.clone(),
                content: content.clone(),
            },
            Action::Thinking { content } => Action::Thinking { content: content.clone() },
            Action::Script { content } => Action::Script { content: content.clone() },
            Action::WriteFile { path, content } => Action::WriteFile {
                path: path.clone(),
                content: content.clone(),
            },
            Action::ReplaceInFile { path, search, replace } => Action::ReplaceInFile {
                path: path.clone(),
                search: search.clone(),
                replace: replace.clone(),
            },
            Action::Summary { content } => Action::Summary { content: content.clone() },
            Action::SetProfile { content } => Action::SetProfile { content: content.clone() },
            Action::CreateInstance { name, knowledge } => Action::CreateInstance {
                name: name.clone(),
                knowledge: knowledge.clone(),
            },
            Action::Distill { target_action_id, summary } => Action::Distill {
                target_action_id: target_action_id.clone(),
                summary: summary.clone(),
            },
        }
    }
}

/// The name of an action's kind, as it is written and stored.
pub open spec fn kind_name_text(a: ActionModel) -> Seq<char> {
    match a {
        ActionModel::Idle { .. } => "idle"@,
        ActionModel::ReadMsg => "read_msg"@,
        ActionModel::SendMsg { .. } => "send_msg"@,
        ActionModel::Thinking { .. } => "thinking"@,
        ActionModel::Script { .. } => "script"@,
        ActionModel::WriteFile { .. } => "write_file"@,
        ActionModel::ReplaceInFile { .. } => "replace_in_file"@,
        ActionModel::Summary { .. } => "summary"@,
        ActionModel::SetProfile { .. } => "set_profile"@,
        ActionModel::CreateInstance { .. } => "create_instance"@,
        ActionModel::Distill { .. } => "distill"@,
    }
}

/// An action in a few words: its kind, and what it is aimed at.
pub open spec fn display_text(a: ActionModel) -> Seq<char> {
    match a {
        ActionModel::Idle { timeout_secs } => match timeout_secs {
            None => "idle"@,
            Some(secs) => "idle "@ + number::dec(secs as nat),
        },
        ActionModel::SendMsg { recipient, .. } => "send_msg → "@ + recipient,
        ActionModel::WriteFile { path, .. } => "write_file → "@ + path,
        ActionModel::ReplaceInFile { path, .. } => "replace_in_file → "@ + path,
        ActionModel::CreateInstance { name, .. } => "create_instance → "@ + name,
        ActionModel::Distill { target_action_id, .. } => "distill → "@ + target_action_id,
        _ => kind_name_text(a),
    }
}

/// Whether an action's result has to be seen before anything else is done.
pub open spec fn blocking(a: ActionModel) -> bool {
    a is Script || a is ReadMsg
}

impl Action {
    /// The name of the action's kind.
    pub fn kind_name(&self) -> (r: &'static str)
        ensures
            r@ == kind_name_text(self@),
    {
        match self {
            Action::Idle { .. } => "idle",
            Action::ReadMsg => "read_msg",
            Action::SendMsg { .. } => "send_msg",
            Action::Thinking { .. } => "thinking",
            Action::Script { .. } => "script",
            Action::WriteFile { .. } => "write_file",
            Action::ReplaceInFile { .. } => "replace_in_file",
            Action::Summary { .. } => "summary",
            Action::SetProfile { .. } => "set_profile",
            Action::CreateInstance { .. } => "create_instance",
            Action::Distill { .. } => "distill",
        }
    }

    /// The action in a few words.
    pub fn display(&self) -> (r: String)
        ensures
            r@ == display_text(self@),
    {
        match self {
            Action::Idle { timeout_secs } => match timeout_secs {
                None => "idle".to_string(),
                Some(secs) => {
                    let mut s = "idle ".to_string();
                    push_dec(&mut s, *secs);
                    s
                },
            },
            Action::SendMsg { recipient, .. } => {
                let mut s = "send_msg → ".to_string();
                s.push_str(recipient.as_str());
                s
            },
            Action::WriteFile { path, .. } => {
                let mut s = "write_file → ".to_string();
                s.push_str(path.as_str());
                s
            },
            Action::ReplaceInFile { path, .. } => {
                let mut s = "replace_in_file → ".to_string();
                s.push_str(path.as_str());
                s
            },
            Action::CreateInstance { name, .. } => {
                let mut s = "create_instance → ".to_string();
                s.push_str(name.as_str());
                s
            },
            Action::Distill { target_action_id, .. } => {
                let mut s = "distill → ".to_string();
                s.push_str(target_action_id.as_str());
                s
            },
            _ => self.kind_name().to_string(),
        }
    }

    /// Whether the action's result has to be seen before anything else is done.
    pub fn is_blocking(&self) -> (r: bool)
        ensures
            r == blocking(self@),
    {
        match self {
            Action::Script { .. } => true,
            Action::ReadMsg => true,
            _ => false,
        }
    }
}

/// What was written down of an action before and after it ran.
#[derive(Debug)]
pub struct ActionRecord {
    pub action_id: String,
    pub action: Action,
    pub doing_text: String,
    pub done_text: Option<String>,
}

} // verus!
