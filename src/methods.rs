//! Requests of the chat bot API, built step by step.

use vstd::prelude::*;

use crate::models::{BotCommand, ChatId, ParseMode};

verus! {

/// https://core.telegram.org/bots/api#getme
pub struct GetMe;

/// https://core.telegram.org/bots/api#getupdates
pub struct GetUpdates {
    pub offset: u64,
    /// How long the server may hold the request.
    pub timeout: std::time::Duration,
    pub allowed_updates: Vec<AllowedUpdate>,
}

impl GetUpdates {
    pub fn new(timeout: std::time::Duration) -> (r: Self)
        ensures
            r.timeout == timeout,
            r.offset == 0,
            r.allowed_updates@.len() == 0,
    {
        GetUpdates { timeout, offset: 0, allowed_updates: Vec::new() }
    }

    pub fn offset(self, offset: u64) -> (r: Self)
        ensures
            r.offset == offset,
            r.timeout == self.timeout,
            r.allowed_updates@ == self.allowed_updates@,
    {
        let mut this = self;
        this.offset = offset;
        this
    }

    pub fn allowed_update(self, allowed_update: AllowedUpdate) -> (r: Self)
        ensures
            r.offset == self.offset,
            r.timeout == self.timeout,
            r.allowed_updates@ == self.allowed_updates@.push(allowed_update),
    {
        let mut this = self;
        this.allowed_updates.push(allowed_update);
        this
    }
}

/// Kinds of update that a poll may ask for.
#[derive(Clone, Copy, Debug, PartialEq, Eq, Structural)]
pub enum AllowedUpdate {
    Message,
}

/// https://core.telegram.org/bots/api#sendmessage
pub struct SendMessage {
    pub chat_id: ChatId,
    pub text: String,
    pub parse_mode: Option<ParseMode>,
    pub reply_to_message_id: Option<i64>,
}

impl SendMessage {
    pub fn new(chat_id: ChatId, text: String) -> (r: Self)
        ensures
            r.chat_id == chat_id,
            r.text == text,
            r.parse_mode.is_none(),
            r.reply_to_message_id.is_none(),
    {
        SendMessage { chat_id, text, parse_mode: None, reply_to_message_id: None }
    }

    pub fn parse_mode(self, parse_mode: ParseMode) -> (r: Self)
        ensures
            r.chat_id == self.chat_id,
            r.text == self.text,
            r.parse_mode == Some(parse_mode),
            r.reply_to_message_id == self.reply_to_message_id,
    {
        let mut this = self;
        this.parse_mode = Some(parse_mode);
        this
    }

    pub fn reply_to_message_id(self, reply_to_message_id: i64) -> (r: Self)
        ensures
            r.chat_id == self.chat_id,
            r.text == self.text,
            r.parse_mode == self.parse_mode,
            r.reply_to_message_id == Some(reply_to_message_id),
    {
        let mut this = self;
        this.reply_to_message_id = Some(reply_to_message_id);
        this
    }
}

/// https://core.telegram.org/bots/api#setmycommands
pub struct SetMyCommands {
    pub commands: Vec<BotCommand>,
}

impl Default for SetMyCommands {
    fn default() -> (r: Self)
        ensures
            r.commands@.len() == 0,
    {
        SetMyCommands { commands: Vec::new() }
    }
}

impl SetMyCommands {
    pub fn command(self, command: BotCommand) -> (r: Self)
        ensures
            r.commands@ == self.commands@.push(command),
    {
        let mut this = self;
        this.commands.push(command);
        this
    }
}

/// https://core.telegram.org/bots/api#deletemessage
pub struct DeleteMessage {
    pub chat_id: ChatId,
    pub message_id: i64,
}

impl DeleteMessage {
    pub fn new(chat_id: ChatId, message_id: i64) -> (r: Self)
        ensures
            r.chat_id == chat_id,
            r.message_id == message_id,
    {
        DeleteMessage { chat_id, message_id }
    }
}

/// https://core.telegram.org/bots/api#stopmessagelivelocation
pub struct StopMessageLiveLocation {
    pub chat_id: ChatId,
    pub message_id: i64,
}

/// https://core.telegram.org/bots/api#pinchatmessage
pub struct PinChatMessage {
    pub chat_id: ChatId,
    pub message_id: i64,
    pub disable_notification: bool,
}

impl PinChatMessage {
    pub fn new(chat_id: ChatId, message_id: i64) -> (r: Self)
        ensures
            r.chat_id == chat_id,
            r.message_id == message_id,
            !r.disable_notification,
    {
        PinChatMessage { chat_id, message_id, disable_notification: false }
    }

    pub fn disable_notification(self) -> (r: Self)
        ensures
            r.chat_id == self.chat_id,
            r.message_id == self.message_id,
            r.disable_notification,
    {
        let mut this = self;
        this.disable_notification = true;
        this
    }
}

/// https://core.telegram.org/bots/api#unpinchatmessage
pub struct UnpinChatMessage {
    pub chat_id: ChatId,
    pub message_id: i64,
}

impl UnpinChatMessage {
    pub fn new(chat_id: ChatId, message_id: i64) -> (r: Self)
        ensures
            r.chat_id == chat_id,
            r.message_id == message_id,
    {
        UnpinChatMessage { chat_id, message_id }
    }
}

} // verus!
