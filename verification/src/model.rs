//! The words of the engine: messages and settings.
use vstd::prelude::*;

use crate::external::llm;
use crate::external::llm::resolve_model;
use crate::persist;
use crate::persist::{Column, Persist, Value, ValueModel};

verus! {

/// A message of the chat.
#[derive(Debug)]
pub struct Message {
    pub id: i64,
    pub sender: String,
    pub role: String,
    pub content: String,
    pub timestamp: String,
    pub read_status: String,
    pub msg_type: String,
}

pub const ROLE_USER: &'static str = "user";

pub const ROLE_AGENT: &'static str = "agent";

pub const STATUS_READ: &'static str = "read";

pub const STATUS_UNREAD: &'static str = "unread";

pub const TYPE_CHAT: &'static str = "chat";

/// The row of a message.
pub open spec fn message_row(m: Message) -> Seq<ValueModel> {
    seq![
        ValueModel::Text(m.sender@),
        ValueModel::Text(m.role@),
        ValueModel::Text(m.content@),
        ValueModel::Text(m.timestamp@),
        ValueModel::Text(m.read_status@),
        ValueModel::Text(m.msg_type@),
    ]
}

/// A message that a row holds; what is missing there is empty.
pub open spec fn is_message_of(m: Message, row: Seq<ValueModel>) -> bool {
    &&& m.id == persist::number_of(row[0])
    &&& m.sender@ == persist::text_of(row[1])
    &&& m.role@ == persist::text_of(row[2])
    &&& m.content@ == persist::text_of(row[3])
    &&& m.timestamp@ == persist::text_of(row[4])
    &&& m.read_status@ == persist::text_of(row[5])
    &&& m.msg_type@ == persist::text_of(row[6])
}

impl Persist for Message {
    open spec fn fits(values: Seq<Value>) -> bool {
        values.len() >= 7
    }

    fn collection_name() -> (r: &'static str)
        ensures
            r@ == "messages"@,
    {
        "messages"
    }

    fn schema() -> (r: Vec<Column>)
        ensures
            persist::column_names(r@) == seq![
                "id"@,
                "sender"@,
                "role"@,
                "content"@,
                "timestamp"@,
                "read_status"@,
                "msg_type"@,
            ],
            r@[0].col_type == persist::ColumnType::Id,
            forall|i: int| 1 <= i < 7 ==> (#[trigger] r@[i]).col_type == persist::ColumnType::Text,
    {
        let mut v: Vec<Column> = Vec::new();
        v.push(Column::id("id"));
        v.push(Column::text("sender"));
        v.push(Column::text("role"));
        v.push(Column::text("content"));
        v.push(Column::text("timestamp"));
        v.push(Column::text("read_status"));
        v.push(Column::text("msg_type"));
        assert(persist::column_names(v@) =~= seq![
            "id"@,
            "sender"@,
            "role"@,
            "content"@,
            "timestamp"@,
            "read_status"@,
            "msg_type"@,
        ]);
        v
    }

    fn id(&self) -> (r: i64)
        ensures
            r == self.id,
    {
        self.id
    }

    fn to_row(&self) -> (r: Vec<Value>)
        ensures
            persist::row_model(r@) == message_row(*self),
    {
        let mut v: Vec<Value> = Vec::new();
        v.push(Value::from(self.sender.clone()));
        v.push(Value::from(self.role.clone()));
        v.push(Value::from(self.content.clone()));
        v.push(Value::from(self.timestamp.clone()));
        v.push(Value::from(self.read_status.clone()));
        v.push(Value::from(self.msg_type.clone()));
        assert(persist::row_model(v@) =~= message_row(*self));
        v
    }

    fn from_row(values: &Vec<Value>) -> (r: Result<Self, String>)
        ensures
            r matches Ok(m) && is_message_of(m, persist::row_model(values@)),
    {
        Ok(
            Message {
                id: match values[0].as_i64() {
                    Some(n) => n,
                    None => 0,
                },
                sender: values[1].text_or_empty(),
                role: values[2].text_or_empty(),
                content: values[3].text_or_empty(),
                timestamp: values[4].text_or_empty(),
                read_status: values[5].text_or_empty(),
                msg_type: values[6].text_or_empty(),
            },
        )
    }
}

/// A message that is written and read again is the same message.
pub proof fn law_messages_survive_storage(m: Message, back: Message)
    requires
        is_message_of(back, seq![ValueModel::Integer(m.id as int)] + message_row(m)),
    ensures
        back.id == m.id,
        back.sender@ == m.sender@,
        back.role@ == m.role@,
        back.content@ == m.content@,
        back.timestamp@ == m.timestamp@,
        back.read_status@ == m.read_status@,
        back.msg_type@ == m.msg_type@,
{
}

impl Clone for Message {
    fn clone(&self) -> (r: Self)
        ensures
            r == *self,
    {
        Message {
            id: self.id,
            sender: self.sender.clone(),
            role: self.role.clone(),
            content: self.content.clone(),
            timestamp: self.timestamp.clone(),
            read_status: self.read_status.clone(),
            msg_type: self.msg_type.clone(),
        }
    }
}

/// A message as the chat shows it.
#[derive(Debug)]
pub struct ChatMessage {
    pub id: i64,
    pub role: String,
    pub content: String,
    pub timestamp: String,
}

impl From<&Message> for ChatMessage {
    fn from(m: &Message) -> (r: Self) {
        ChatMessage {
            id: m.id,
            role: m.role.clone(),
            content: m.content.clone(),
            timestamp: m.timestamp.clone(),
        }
    }
}

impl vstd::std_specs::convert::FromSpecImpl<&Message> for ChatMessage {
    open spec fn obeys_from_spec() -> bool {
        true
    }

    open spec fn from_spec(m: &Message) -> Self {
        ChatMessage { id: m.id, role: m.role, content: m.content, timestamp: m.timestamp }
    }
}

/// A message of a span of time.
#[derive(Debug)]
pub struct RangeMessage {
    pub sender: String,
    pub role: String,
    pub content: String,
    pub timestamp: String,
}

impl From<&Message> for RangeMessage {
    fn from(m: &Message) -> (r: Self) {
        RangeMessage {
            sender: m.sender.clone(),
            role: m.role.clone(),
            content: m.content.clone(),
            timestamp: m.timestamp.clone(),
        }
    }
}

impl vstd::std_specs::convert::FromSpecImpl<&Message> for RangeMessage {
    open spec fn obeys_from_spec() -> bool {
        true
    }

    open spec fn from_spec(m: &Message) -> Self {
        RangeMessage {
            sender: m.sender,
            role: m.role,
            content: m.content,
            timestamp: m.timestamp,
        }
    }
}

/// A message of a user that waits to be read.
#[derive(Debug)]
pub struct InboxMessage {
    pub id: i64,
    pub sender: String,
    pub content: String,
    pub timestamp: String,
    pub msg_type: String,
}

impl From<&Message> for InboxMessage {
    fn from(m: &Message) -> (r: Self) {
        InboxMessage {
            id: m.id,
            sender: m.sender.clone(),
            content: m.content.clone(),
            timestamp: m.timestamp.clone(),
            msg_type: m.msg_type.clone(),
        }
    }
}

impl vstd::std_specs::convert::FromSpecImpl<&Message> for InboxMessage {
    open spec fn obeys_from_spec() -> bool {
        true
    }

    open spec fn from_spec(m: &Message) -> Self {
        InboxMessage {
            id: m.id,
            sender: m.sender,
            content: m.content,
            timestamp: m.timestamp,
            msg_type: m.msg_type,
        }
    }
}

/// A page of the chat.
#[derive(Debug)]
pub struct QueryResult {
    pub messages: Vec<ChatMessage>,
    pub total: i64,
    pub start_id: i64,
    pub has_more: bool,
}

/// A further model, with its key.
#[derive(Debug)]
pub struct ExtraModel {
    pub api_key: String,
    pub model: String,
}

impl Clone for ExtraModel {
    fn clone(&self) -> (r: Self)
        ensures
            r == *self,
    {
        ExtraModel { api_key: self.api_key.clone(), model: self.model.clone() }
    }
}

/// The settings of an instance, as its file holds them.
#[derive(Debug)]
pub struct InstanceSettings {
    pub api_key: String,
    pub model: String,
    pub user_id: String,
    pub privileged: bool,
    pub max_beats: Option<u32>,
    pub action_separator: Option<String>,
    pub session_blocks_limit: Option<u32>,
    pub session_block_kb: Option<u32>,
    pub history_kb: Option<u32>,
    pub safety_max_consecutive_beats: Option<u32>,
    pub safety_cooldown_secs: Option<u64>,
    pub extra_models: Vec<ExtraModel>,
    pub name: Option<String>,
    pub color: Option<String>,
    pub avatar: Option<String>,
}

/// A field, or where it is empty what the environment says, or else a default.
pub open spec fn filled_in(field: Seq<char>, env: Option<Seq<char>>, default: Seq<char>) -> Seq<char> {
    if field.len() > 0 {
        field
    } else {
        match env {
            Some(v) => v,
            None => default,
        }
    }
}

pub open spec fn opt_text(s: Option<String>) -> Option<Seq<char>> {
    match s {
        Some(t) => Some(t@),
        None => None,
    }
}

/// Filling a field in twice from the same environment is filling it in once.
pub proof fn law_fields_are_filled_in_once(
    field: Seq<char>,
    env: Option<Seq<char>>,
    default: Seq<char>,
)
    ensures
        filled_in(filled_in(field, env, default), env, default) == filled_in(field, env, default),
        field.len() > 0 ==> filled_in(field, env, default) == field,
{
}

fn fill_in(field: &String, env: Option<String>, default: &str) -> (r: String)
    ensures
        r@ == filled_in(field@, opt_text(env), default@),
{
    if !field.as_str().is_empty() {
        field.clone()
    } else {
        match env {
            Some(v) => v,
            None => default.to_string(),
        }
    }
}

impl InstanceSettings {
    /// Fills in the key, the model and the user from what the environment says, or
    /// else from defaults: no key, the model that the engine is set up with, and the
    /// user `default`.
    pub fn apply_env_fallbacks(
        &mut self,
        env_api_key: Option<String>,
        env_model: Option<String>,
        env_user_id: Option<String>,
        default_model: &str,
    )
        ensures
            final(self).api_key@ == filled_in(old(self).api_key@, opt_text(env_api_key), ""@),
            final(self).model@ == filled_in(old(self).model@, opt_text(env_model), default_model@),
            final(self).user_id@ == filled_in(
                old(self).user_id@,
                opt_text(env_user_id),
                "default"@,
            ),
            *final(self) == (InstanceSettings {
                api_key: final(self).api_key,
                model: final(self).model,
                user_id: final(self).user_id,
                ..*old(self)
            }),
    {
        self.api_key = fill_in(&self.api_key, env_api_key, "");
        self.model = fill_in(&self.model, env_model, default_model);
        self.user_id = fill_in(&self.user_id, env_user_id, "default");
    }

    /// Settings need a key.
    pub fn validate(&self) -> (r: Result<(), String>)
        ensures
            match r {
                Ok(_) => self.api_key@.len() > 0,
                Err(e) => self.api_key@.len() == 0 && e@
                    == "Missing api_key: set in settings.json or ALICE_DEFAULT_API_KEY env var"@,
            },
    {
        if self.api_key.as_str().is_empty() {
            return Err(
                "Missing api_key: set in settings.json or ALICE_DEFAULT_API_KEY env var".to_string(),
            );
        }
        Ok(())
    }

    /// The address and the name of the model.
    pub fn parse_model(&self) -> (r: (String, String))
        ensures
            (r.0@, r.1@) == llm::resolved_model(self.model@),
    {
        InstanceSettings::parse_model_str(self.model.as_str())
    }

    /// The address and the name that a `provider@model` stands for.
    pub fn parse_model_str(model: &str) -> (r: (String, String))
        ensures
            (r.0@, r.1@) == llm::resolved_model(model@),
    {
        resolve_model(model)
    }
}

} // verus!
