//! Values exchanged with the chat bot API.

use vstd::prelude::*;

use crate::text::{decimal, i64_text};

verus! {

/// A JSON value that the bot carries through without reading it.
#[verifier::external_type_specification]
#[verifier::external_body]
pub struct ExJsonValue(serde_json::Value);

/// The envelope of every bot API reply.
pub enum Response<T> {
    Success { result: T },
    Failure { error_code: i32, description: String },
}

/// A reply of the bot API with `ok: false`.
pub struct ChatApiError {
    pub error_code: i32,
    pub description: String,
}

impl ChatApiError {
    /// The text by which the error is reported: `error {code}: {description}`.
    pub open spec fn text_spec(&self) -> Seq<char> {
        "error "@ + decimal(self.error_code as int) + ": "@ + self.description@
    }

    pub fn text(&self) -> (r: String)
        ensures
            r@ == self.text_spec(),
    {
        let mut r = String::from_str("error ");
        let code = i64_text(self.error_code as i64);
        r.append(code.as_str());
        r.append(": ");
        r.append(self.description.as_str());
        r
    }
}

impl<T> Response<T> {
    /// Turns the envelope into the result it carries, or the error it reports.
    pub fn into_result(self) -> (r: Result<T, ChatApiError>)
        ensures
            match self {
                Response::Success { result } => r == Ok::<T, ChatApiError>(result),
                Response::Failure { error_code, description } => r matches Err(e)
                    && e.error_code == error_code && e.description == description,
            },
    {
        match self {
            Response::Success { result } => Ok(result),
            Response::Failure { error_code, description } => Err(ChatApiError { error_code, description }),
        }
    }
}

pub struct User {
    /// Unique identifier for this user or bot.
    pub id: i64,
    /// User's or bot's first name.
    pub first_name: String,
    /// User's or bot's username.
    pub username: Option<String>,
}

pub struct Chat {
    /// Unique identifier for this chat.
    pub id: i64,
}

/// A target chat: its numeric identifier, or a channel's `@username`.
pub enum ChatId {
    UniqueId(i64),
    Username(String),
}

impl ChatId {
    /// A copy of this identifier.
    pub fn duplicate(&self) -> (r: ChatId)
        ensures
            r == *self,
    {
        match self {
            ChatId::UniqueId(id) => ChatId::UniqueId(*id),
            ChatId::Username(name) => ChatId::Username(name.clone()),
        }
    }
}

impl From<i64> for ChatId {
    fn from(chat_id: i64) -> (r: ChatId) {
        ChatId::UniqueId(chat_id)
    }
}

impl vstd::std_specs::convert::FromSpecImpl<i64> for ChatId {
    open spec fn obeys_from_spec() -> bool {
        true
    }

    open spec fn from_spec(chat_id: i64) -> ChatId {
        ChatId::UniqueId(chat_id)
    }
}

impl<'a> From<&'a ChatId> for ChatId {
    fn from(chat_id: &'a ChatId) -> (r: ChatId) {
        chat_id.duplicate()
    }
}

impl<'a> vstd::std_specs::convert::FromSpecImpl<&'a ChatId> for ChatId {
    open spec fn obeys_from_spec() -> bool {
        true
    }

    open spec fn from_spec(chat_id: &'a ChatId) -> ChatId {
        *chat_id
    }
}

pub struct Update {
    pub id: u64,
    pub payload: UpdatePayload,
}

pub enum UpdatePayload {
    Message(Message),
    MyChatMember(serde_json::Value),
}

pub struct Message {
    pub id: i64,
    /// Conversation the message belongs to.
    pub chat: Chat,
    pub from: Option<User>,
    pub text: Option<String>,
}

pub struct BotCommand {
    /// Text of the command; 1-32 characters. Can contain only lowercase English letters, digits and underscores.
    pub command: String,
    /// Description of the command; 1-256 characters.
    pub description: String,
}

/// Formatting options of a message text.
#[derive(Clone, Copy, Debug, PartialEq, Eq, Structural)]
pub enum ParseMode {
    MarkdownV2,
    Html,
}

} // verus!
