//! Commands of the chat bot.

use vstd::prelude::*;

use crate::methods::{AllowedUpdate, GetUpdates, SendMessage, SetMyCommands};
use crate::models::{BotCommand, ChatId, ParseMode, Update, UpdatePayload};
use crate::text::{decimal, has_prefix, i64_text, starts_with};

verus! {

pub const START_COMMAND: &'static str = "/start";

/// The reply to `/start`: the chat id, as MarkdownV2.
pub open spec fn start_reply_spec(chat_id: i64) -> Seq<char> {
    "👋 Your chat ID is `"@ + decimal(chat_id as int) + "`\\."@
}

/// The commands the bot announces.
pub fn bot_commands() -> (r: SetMyCommands)
    ensures
        r.commands@.len() == 1,
        r.commands@[0].command@ == "start"@,
        r.commands@[0].description@ == "Tells your chat ID"@,
{
    SetMyCommands::default().command(
        BotCommand {
            command: String::from_str("start"),
            description: String::from_str("Tells your chat ID"),
        },
    )
}

/// The long poll for the next updates: message updates only, from `offset` on.
pub fn poll_request(offset: u64, timeout: std::time::Duration) -> (r: GetUpdates)
    ensures
        r.offset == offset,
        r.timeout == timeout,
        r.allowed_updates@ == seq![AllowedUpdate::Message],
{
    let r = GetUpdates::new(timeout).offset(offset).allowed_update(AllowedUpdate::Message);
    assert(r.allowed_updates@ =~= seq![AllowedUpdate::Message]);
    r
}

/// The reply to an update, if any: a message whose text starts with `/start` gets its
/// chat id, in reply to it; anything else is ignored.
pub fn handle_update(update: &Update) -> (r: Option<SendMessage>)
    ensures
        match update.payload {
            UpdatePayload::Message(message) => match message.text {
                Some(text) if has_prefix(text@, START_COMMAND@) => r matches Some(reply)
                    && reply.chat_id == ChatId::UniqueId(message.chat.id)
                    && reply.text@ == start_reply_spec(message.chat.id)
                    && reply.parse_mode == Some(ParseMode::MarkdownV2)
                    && reply.reply_to_message_id == Some(message.id),
                _ => r.is_none(),
            },
            _ => r.is_none(),
        },
{
    match &update.payload {
        UpdatePayload::Message(message) => match &message.text {
            Some(text) => {
                if starts_with(text.as_str(), START_COMMAND) {
                    let mut reply = String::from_str("👋 Your chat ID is `");
                    reply.append(i64_text(message.chat.id).as_str());
                    reply.append("`\\.");
                    Some(
                        SendMessage::new(ChatId::UniqueId(message.chat.id), reply)
                            .parse_mode(ParseMode::MarkdownV2)
                            .reply_to_message_id(message.id),
                    )
                } else {
                    None
                }
            },
            None => None,
        },
        _ => None,
    }
}

} // verus!
