//! Dispatch of the entries that the stream consumer reads.

use vstd::prelude::*;

use crate::battery::{is_notice, rendered_named, BatteryOpts, LEVEL_PLACEHOLDER, TemplateRenderError};
use crate::ingest::EntryKind;
use crate::keys::ListenerKeys;
use crate::methods::SendMessage;
use crate::models::ChatId;
use crate::text::{decimal, same_text};

verus! {

/// Which handler a stream's entries go to: by the stream's key.
pub fn route_stream(keys: &ListenerKeys, stream: &str) -> (r: Option<EntryKind>)
    ensures
        r == if stream@ == keys.position_stream@ {
            Some(EntryKind::Position)
        } else if stream@ == keys.hardware_stream@ {
            Some(EntryKind::Hardware)
        } else {
            None
        },
{
    if same_text(stream, keys.position_stream.as_str()) {
        Some(EntryKind::Position)
    } else if same_text(stream, keys.hardware_stream.as_str()) {
        Some(EntryKind::Hardware)
    } else {
        None
    }
}

/// What a hardware entry leads to, given the reply `(changed, previous)` of
/// `set_if_not_equal` on the last known battery level: nothing when the level did not
/// change, else the notice of the battery notifier, if any.
pub fn on_battery_level(
    opts: &BatteryOpts,
    chat_id: ChatId,
    changed: bool,
    previous: Option<u8>,
    current: u8,
) -> (r: Result<Option<SendMessage>, TemplateRenderError>)
    ensures
        !changed ==> r matches Ok(None),
        changed ==> match opts.band_spec(BatteryOpts::previous_or(previous, current), current) {
            None => r matches Ok(None),
            Some(band) => match rendered_named(opts.template_spec(band), LEVEL_PLACEHOLDER@, decimal(current as int)) {
                Some(text) => r matches Ok(Some(m)) && is_notice(m, chat_id, text),
                None => r matches Err(e) && e.band == band,
            },
        },
{
    if !changed {
        return Ok(None);
    }
    opts.notification(chat_id, previous, current)
}

} // verus!
