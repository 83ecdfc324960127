//! Key layout of the shared store.
//!
//! Tracker ids and e-mail addresses are lower-cased before they become part of a
//! key, so that keys do not depend on how a user typed them.

use vstd::prelude::*;

use crate::text::{decimal, i64_text};

verus! {

/// What `str::to_lowercase` gives for a text.
pub uninterp spec fn lower_of(s: Seq<char>) -> Seq<char>;

/// Relies on `str::to_lowercase`: the result depends on the characters alone, and
/// the empty text stays empty.
#[verifier::external_body]
fn lowercase(s: &str) -> (r: String)
    ensures
        r@ == lower_of(s@),
        s@.len() == 0 ==> r@.len() == 0,
{
    s.to_lowercase()
}

/// `prefix` + `middle` + `suffix`.
fn joined(prefix: &str, middle: &str, suffix: &str) -> (r: String)
    ensures
        r@ == prefix@ + middle@ + suffix@,
{
    let mut r = String::from_str(prefix);
    r.append(middle);
    r.append(suffix);
    r
}

pub open spec fn tracker_key_spec(tracker_id: Seq<char>, suffix: Seq<char>) -> Seq<char> {
    "rusty:tractive:"@ + lower_of(tracker_id) + suffix
}

/// `rusty:tractive:{email}:authentication`: the cached token of an account.
pub fn authentication_key(email: &str) -> (r: String)
    ensures
        r@ == tracker_key_spec(email@, ":authentication"@),
{
    joined("rusty:tractive:", lowercase(email).as_str(), ":authentication")
}

/// `rusty:tractive:{tid}:hardware`: the stream of hardware entries.
pub fn hardware_stream_key(tracker_id: &str) -> (r: String)
    ensures
        r@ == tracker_key_spec(tracker_id@, ":hardware"@),
{
    joined("rusty:tractive:", lowercase(tracker_id).as_str(), ":hardware")
}

/// `rusty:tractive:{tid}:position`: the stream of position entries.
pub fn position_stream_key(tracker_id: &str) -> (r: String)
    ensures
        r@ == tracker_key_spec(tracker_id@, ":position"@),
{
    joined("rusty:tractive:", lowercase(tracker_id).as_str(), ":position")
}

/// `rusty:tractive:{tid}:hardware:last_timestamp`: the guard of the hardware stream.
pub fn hardware_last_timestamp_key(tracker_id: &str) -> (r: String)
    ensures
        r@ == tracker_key_spec(tracker_id@, ":hardware:last_timestamp"@),
{
    joined("rusty:tractive:", lowercase(tracker_id).as_str(), ":hardware:last_timestamp")
}

/// `rusty:tractive:{tid}:position:last_timestamp`: the guard of the position stream.
pub fn position_last_timestamp_key(tracker_id: &str) -> (r: String)
    ensures
        r@ == tracker_key_spec(tracker_id@, ":position:last_timestamp"@),
{
    joined("rusty:tractive:", lowercase(tracker_id).as_str(), ":position:last_timestamp")
}

pub open spec fn bot_key_spec(bot_user_id: i64, suffix: Seq<char>) -> Seq<char> {
    "rusty:telegram:"@ + decimal(bot_user_id as int) + suffix
}

/// `rusty:telegram:{bid}:offset`: the next update id a bot asks for.
pub fn offset_key(bot_user_id: i64) -> (r: String)
    ensures
        r@ == bot_key_spec(bot_user_id, ":offset"@),
{
    joined("rusty:telegram:", i64_text(bot_user_id).as_str(), ":offset")
}

/// `rusty:telegram:{bid}:get_updates`: the lease of the long poll.
pub fn get_updates_key(bot_user_id: i64) -> (r: String)
    ensures
        r@ == bot_key_spec(bot_user_id, ":get_updates"@),
{
    joined("rusty:telegram:", i64_text(bot_user_id).as_str(), ":get_updates")
}

/// `bot:{bid}`: the consumer group of a bot over the tracker streams.
pub fn consumer_group_name(bot_user_id: i64) -> (r: String)
    ensures
        r@ == "bot:"@ + decimal(bot_user_id as int),
{
    let mut r = String::from_str("bot:");
    r.append(i64_text(bot_user_id).as_str());
    r
}

pub open spec fn chat_key_spec(tracker_id: Seq<char>, bot_user_id: i64, suffix: Seq<char>) -> Seq<char> {
    "rusty:tractive:"@ + lower_of(tracker_id) + ":telegram:"@ + decimal(bot_user_id as int) + suffix
}

/// Key of one (tracker, bot) pair: `rusty:tractive:{tid}:telegram:{bid}{suffix}`.
fn chat_key(tracker_id: &str, bot_user_id: i64, suffix: &str) -> (r: String)
    ensures
        r@ == chat_key_spec(tracker_id@, bot_user_id, suffix@),
{
    let mut r = joined("rusty:tractive:", lowercase(tracker_id).as_str(), ":telegram:");
    r.append(i64_text(bot_user_id).as_str());
    r.append(suffix);
    r
}

/// The keys that the stream consumer of one bot and tracker reads and writes.
pub struct ListenerKeys {
    /// Tracker position stream.
    pub position_stream: String,
    /// Tracker hardware stream.
    pub hardware_stream: String,
    /// The pinned message ids, so that they can be unpinned later.
    pub pinned_message_ids: String,
    /// The live-location message id, so that the message can be edited at any time.
    pub live_location_message_id: String,
    /// The last known battery level.
    pub last_known_battery_level: String,
}

impl ListenerKeys {
    pub fn new(tracker_id: &str, bot_user_id: i64) -> (r: Self)
        ensures
            r.position_stream@ == tracker_key_spec(tracker_id@, ":position"@),
            r.hardware_stream@ == tracker_key_spec(tracker_id@, ":hardware"@),
            r.pinned_message_ids@ == chat_key_spec(tracker_id@, bot_user_id, ":pinned_message_ids"@),
            r.live_location_message_id@ == chat_key_spec(
                tracker_id@,
                bot_user_id,
                ":live_location_message_id"@,
            ),
            r.last_known_battery_level@ == chat_key_spec(
                tracker_id@,
                bot_user_id,
                ":last_known_battery_level"@,
            ),
    {
        ListenerKeys {
            position_stream: position_stream_key(tracker_id),
            hardware_stream: hardware_stream_key(tracker_id),
            pinned_message_ids: chat_key(tracker_id, bot_user_id, ":pinned_message_ids"),
            live_location_message_id: chat_key(tracker_id, bot_user_id, ":live_location_message_id"),
            last_known_battery_level: chat_key(tracker_id, bot_user_id, ":last_known_battery_level"),
        }
    }
}

} // verus!
