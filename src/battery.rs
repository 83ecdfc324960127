//! Battery notifications with hysteresis.
//!
//! The last known level is kept in the shared store behind `set_if_not_equal`;
//! a change of level may produce one notice, chosen by the first matching band.

use vstd::prelude::*;

use crate::methods::SendMessage;
use crate::models::{ChatId, ParseMode};
use crate::text::{decimal, u64_text};

verus! {

/// The error of `new_string_template` when a template names a value that is not given.
#[verifier::external_type_specification]
#[verifier::external_body]
pub struct ExTemplateError(new_string_template::error::TemplateError);

/// What a message template renders to with the value named `name` set to `value`,
/// or `None` where the template names another value.
pub uninterp spec fn rendered_named(template: Seq<char>, name: Seq<char>, value: Seq<char>) -> Option<Seq<char>>;

/// Relies on `new_string_template`'s `Template::new` and `Template::render` with one
/// named value: the result depends on the template text, the name and the value alone,
/// and a template without `{` holds no placeholder and renders to itself.
#[verifier::external_body]
fn render_named(template: &str, name: &str, value: &str) -> (r: Result<String, new_string_template::error::TemplateError>)
    ensures
        match r {
            Ok(text) => rendered_named(template@, name@, value@) == Some(text@),
            Err(_) => rendered_named(template@, name@, value@).is_none(),
        },
        !template@.contains('{') ==> r is Ok && r.unwrap()@ == template@,
{
    let values = std::collections::HashMap::from([(name, value)]);
    new_string_template::template::Template::new(template).render(&values)
}

/// The name under which a template receives the battery level.
pub const LEVEL_PLACEHOLDER: &'static str = "current_level";

/// Thresholds and message templates of the battery notifier.
pub struct BatteryOpts {
    /// Minimum battery level which is treated as full.
    pub full_level: u8,
    /// Full battery message template, rendered as MarkdownV2.
    pub full_message: String,
    /// Maximum battery level which is treated as low.
    pub low_level: u8,
    /// Low battery message template.
    pub low_message: String,
    /// Maximum battery level which is treated as critically low.
    pub critical_level: u8,
    /// Critically low battery message template.
    pub critical_message: String,
}

pub const DEFAULT_FULL_LEVEL: u8 = 95;
pub const DEFAULT_LOW_LEVEL: u8 = 50;
pub const DEFAULT_CRITICAL_LEVEL: u8 = 15;
pub const DEFAULT_FULL_MESSAGE: &'static str = "🔋 *{current_level}%* Battery is now full!";
pub const DEFAULT_LOW_MESSAGE: &'static str = "⚡️ *{current_level}%* battery level is getting low️";
pub const DEFAULT_CRITICAL_MESSAGE: &'static str = "🪫 *{current_level}%* battery level is critical️";

/// Which notice a change of level produces.
#[derive(Clone, Copy, Debug, PartialEq, Eq, Structural)]
pub enum BatteryBand {
    Full,
    Low,
    Critical,
}

/// The template could not be rendered: it names a value other than `current_level`.
pub struct TemplateRenderError {
    pub band: BatteryBand,
}

impl Default for BatteryOpts {
    fn default() -> (r: Self)
        ensures
            r.full_level == DEFAULT_FULL_LEVEL,
            r.low_level == DEFAULT_LOW_LEVEL,
            r.critical_level == DEFAULT_CRITICAL_LEVEL,
            r.full_message@ == DEFAULT_FULL_MESSAGE@,
            r.low_message@ == DEFAULT_LOW_MESSAGE@,
            r.critical_message@ == DEFAULT_CRITICAL_MESSAGE@,
    {
        BatteryOpts {
            full_level: DEFAULT_FULL_LEVEL,
            full_message: String::from_str(DEFAULT_FULL_MESSAGE),
            low_level: DEFAULT_LOW_LEVEL,
            low_message: String::from_str(DEFAULT_LOW_MESSAGE),
            critical_level: DEFAULT_CRITICAL_LEVEL,
            critical_message: String::from_str(DEFAULT_CRITICAL_MESSAGE),
        }
    }
}

impl BatteryOpts {
    /// The notice for a move from `last` to `current`: the first rule that matches.
    pub open spec fn band_spec(&self, last: u8, current: u8) -> Option<BatteryBand> {
        if current >= self.full_level && last < self.full_level {
            Some(BatteryBand::Full)
        } else if current <= self.low_level && last > self.low_level {
            Some(BatteryBand::Low)
        } else if current <= self.critical_level {
            Some(BatteryBand::Critical)
        } else {
            None
        }
    }

    /// The previous level a change is measured from: the stored one, else the current.
    pub open spec fn previous_or(last_level: Option<u8>, current_level: u8) -> u8 {
        match last_level {
            Some(l) => l,
            None => current_level,
        }
    }

    /// Chooses the notice for a changed level; `last_level` is what the store held before.
    pub fn band(&self, last_level: Option<u8>, current_level: u8) -> (r: Option<BatteryBand>)
        ensures
            r == self.band_spec(Self::previous_or(last_level, current_level), current_level),
    {
        let last = match last_level {
            Some(l) => l,
            None => current_level,
        };
        if current_level >= self.full_level && last < self.full_level {
            Some(BatteryBand::Full)
        } else if current_level <= self.low_level && last > self.low_level {
            Some(BatteryBand::Low)
        } else if current_level <= self.critical_level {
            Some(BatteryBand::Critical)
        } else {
            None
        }
    }

    pub open spec fn template_spec(&self, band: BatteryBand) -> Seq<char> {
        match band {
            BatteryBand::Full => self.full_message@,
            BatteryBand::Low => self.low_message@,
            BatteryBand::Critical => self.critical_message@,
        }
    }

    /// The template of a band.
    pub fn template(&self, band: BatteryBand) -> (r: &str)
        ensures
            r@ == self.template_spec(band),
    {
        match band {
            BatteryBand::Full => self.full_message.as_str(),
            BatteryBand::Low => self.low_message.as_str(),
            BatteryBand::Critical => self.critical_message.as_str(),
        }
    }

    /// Renders the notice of `band` for `current_level`.
    pub fn render(&self, band: BatteryBand, current_level: u8) -> (r: Result<String, TemplateRenderError>)
        ensures
            match rendered_named(self.template_spec(band), LEVEL_PLACEHOLDER@, decimal(current_level as int)) {
                Some(text) => r matches Ok(s) && s@ == text,
                None => r matches Err(e) && e.band == band,
            },
    {
        let level = u64_text(current_level as u64);
        match render_named(self.template(band), LEVEL_PLACEHOLDER, level.as_str()) {
            Ok(text) => Ok(text),
            Err(_) => Err(TemplateRenderError { band }),
        }
    }

    /// The notice for a changed level, if any: the rendered template of its band,
    /// sent to `chat_id` as MarkdownV2.
    pub fn notification(&self, chat_id: ChatId, last_level: Option<u8>, current_level: u8) -> (r:
        Result<Option<SendMessage>, TemplateRenderError>)
        ensures
            match self.band_spec(Self::previous_or(last_level, current_level), current_level) {
                None => r matches Ok(None),
                Some(band) => match rendered_named(
                    self.template_spec(band),
                    LEVEL_PLACEHOLDER@,
                    decimal(current_level as int),
                ) {
                    Some(text) => r matches Ok(Some(m)) && is_notice(m, chat_id, text),
                    None => r matches Err(e) && e.band == band,
                },
            },
    {
        match self.band(last_level, current_level) {
            None => Ok(None),
            Some(band) => match self.render(band, current_level) {
                Ok(text) => Ok(Some(notice(chat_id, text))),
                Err(e) => Err(e),
            },
        }
    }
}

/// Whether `m` is the battery notice with `text` for `chat_id`: sent as MarkdownV2, as no reply.
pub open spec fn is_notice(m: SendMessage, chat_id: ChatId, text: Seq<char>) -> bool {
    &&& m.chat_id == chat_id
    &&& m.text@ == text
    &&& m.parse_mode == Some(ParseMode::MarkdownV2)
    &&& m.reply_to_message_id.is_none()
}

/// The battery notice with `text` for `chat_id`.
pub fn notice(chat_id: ChatId, text: String) -> (r: SendMessage)
    ensures
        is_notice(r, chat_id, text@),
{
    SendMessage::new(chat_id, text).parse_mode(ParseMode::MarkdownV2)
}

/// Hysteresis of the notifier. Over a run of stored levels, where each move from
/// `levels[k - 1]` to `levels[k]` may give a notice, two full notices have a level
/// below the full threshold between them, and two low notices a level above the
/// low threshold: the level left the band and came back. (Critical notices have no
/// such gap: each change at or under the critical threshold gives one.)
pub proof fn lemma_notice_hysteresis(opts: BatteryOpts, levels: Seq<u8>, i: int, j: int)
    requires
        1 <= i < j < levels.len(),
    ensures
        opts.band_spec(levels[i - 1], levels[i]) == Some(BatteryBand::Full)
            && opts.band_spec(levels[j - 1], levels[j]) == Some(BatteryBand::Full)
            ==> exists|k: int| i < k < j && levels[k] < opts.full_level,
        opts.band_spec(levels[i - 1], levels[i]) == Some(BatteryBand::Low)
            && opts.band_spec(levels[j - 1], levels[j]) == Some(BatteryBand::Low)
            ==> exists|k: int| i < k < j && levels[k] > opts.low_level,
{
    if opts.band_spec(levels[i - 1], levels[i]) == Some(BatteryBand::Full)
        && opts.band_spec(levels[j - 1], levels[j]) == Some(BatteryBand::Full) {
        assert(i < j - 1 && levels[j - 1] < opts.full_level);
    }
    if opts.band_spec(levels[i - 1], levels[i]) == Some(BatteryBand::Low)
        && opts.band_spec(levels[j - 1], levels[j]) == Some(BatteryBand::Low) {
        assert(i < j - 1 && levels[j - 1] > opts.low_level);
    }
}

} // verus!
