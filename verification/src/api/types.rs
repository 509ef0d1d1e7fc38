//! What the engine and its front end tell each other.
use vstd::prelude::*;

verus! {

/// An instance as it is shown.
#[derive(Debug)]
pub struct InstanceInfo {
    pub id: String,
    pub name: String,
    pub avatar: String,
    pub color: String,
    pub privileged: bool,
    pub last_active: i64,
}

impl Clone for InstanceInfo {
    fn clone(&self) -> (r: Self)
        ensures
            r == *self,
    {
        InstanceInfo {
            id: self.id.clone(),
            name: self.name.clone(),
            avatar: self.avatar.clone(),
            color: self.color.clone(),
            privileged: self.privileged,
            last_active: self.last_active,
        }
    }
}

/// A message as it is shown.
#[derive(Debug)]
pub struct MessageInfo {
    pub id: i64,
    pub role: String,
    pub content: String,
    pub timestamp: String,
    pub sender: String,
    pub recipient: String,
}

/// A page of messages.
#[derive(Debug)]
pub struct MessagesResult {
    pub messages: Vec<MessageInfo>,
    pub has_more: bool,
}

/// Whether the engine of an instance runs.
#[derive(Debug, Clone, Copy, PartialEq, Eq, Structural)]
pub enum EngineOnlineStatus {
    Inferring,
    Online,
    Offline,
}

impl Default for EngineOnlineStatus {
    fn default() -> (r: Self)
        ensures
            r == EngineOnlineStatus::Offline,
    {
        EngineOnlineStatus::Offline
    }
}

/// What an instance does at the moment.
#[derive(Debug)]
pub struct ObserveResult {
    pub engine_online: EngineOnlineStatus,
    pub inferring: bool,
    pub idle: bool,
    pub born: bool,
    pub current_action: Option<String>,
    pub executing_script: Option<String>,
    pub infer_output: Option<String>,
    pub recent_actions: Vec<String>,
    pub idle_timeout_secs: Option<i64>,
    pub idle_since: Option<i64>,
    pub user_id: String,
}

impl Default for ObserveResult {
    fn default() -> (r: Self)
        ensures
            r.engine_online == EngineOnlineStatus::Offline,
            !r.inferring,
            !r.idle,
            !r.born,
            r.current_action is None,
            r.executing_script is None,
            r.infer_output is None,
            r.recent_actions@.len() == 0,
            r.idle_timeout_secs is None,
            r.idle_since is None,
            r.user_id@.len() == 0,
    {
        ObserveResult {
            engine_online: EngineOnlineStatus::Offline,
            inferring: false,
            idle: false,
            born: false,
            current_action: None,
            executing_script: None,
            infer_output: None,
            recent_actions: Vec::new(),
            idle_timeout_secs: None,
            idle_since: None,
            user_id: String::new(),
        }
    }
}

/// How a request ended.
#[derive(Debug)]
pub struct ActionResult {
    pub success: bool,
    pub message: Option<String>,
}

impl ActionResult {
    pub fn ok(message: String) -> (r: Self)
        ensures
            r == (ActionResult { success: true, message: Some(message) }),
    {
        ActionResult { success: true, message: Some(message) }
    }

    pub fn ok_empty() -> (r: Self)
        ensures
            r == (ActionResult { success: true, message: None }),
    {
        ActionResult { success: true, message: None }
    }

    pub fn err(message: String) -> (r: Self)
        ensures
            r == (ActionResult { success: false, message: Some(message) }),
    {
        ActionResult { success: false, message: Some(message) }
    }
}

/// A file as it is listed.
#[derive(Debug)]
pub struct FileInfo {
    pub name: String,
    pub is_dir: bool,
    pub size: Option<u64>,
}

impl Clone for FileInfo {
    fn clone(&self) -> (r: Self)
        ensures
            r == *self,
    {
        FileInfo { name: self.name.clone(), is_dir: self.is_dir, size: self.size }
    }
}

/// What a file holds.
#[derive(Debug)]
pub struct FileReadResult {
    pub content: String,
    pub size: u64,
    pub is_binary: bool,
}

impl FileReadResult {
    pub fn text(content: String, size: u64) -> (r: Self)
        ensures
            r == (FileReadResult { content, size, is_binary: false }),
    {
        FileReadResult { content, size, is_binary: false }
    }

    pub fn binary(description: String, size: u64) -> (r: Self)
        ensures
            r == (FileReadResult { content: description, size, is_binary: true }),
    {
        FileReadResult { content: description, size, is_binary: true }
    }

    pub fn error(message: String) -> (r: Self)
        ensures
            r == (FileReadResult { content: message, size: 0, is_binary: false }),
    {
        FileReadResult { content: message, size: 0, is_binary: false }
    }
}

} // verus!
