use rusty_home::battery::{BatteryBand, BatteryOpts};
use rusty_home::listener::on_battery_level;
use rusty_home::models::{ChatId, ParseMode};

fn chat() -> ChatId {
    ChatId::UniqueId(-100123)
}

#[test]
fn battery_crosses_low_threshold() {
    let opts = BatteryOpts::default();
    let message = on_battery_level(&opts, chat(), true, Some(60), 40)
        .ok()
        .unwrap()
        .expect("a notice");
    assert_eq!(message.text, "⚡️ *40%* battery level is getting low️");
    assert!(matches!(message.parse_mode, Some(ParseMode::MarkdownV2)));
    assert!(matches!(message.chat_id, ChatId::UniqueId(-100123)));
    assert!(message.reply_to_message_id.is_none());
}

#[test]
fn first_level_gives_no_notice() {
    let opts = BatteryOpts::default();
    assert!(matches!(on_battery_level(&opts, chat(), true, None, 55), Ok(None)));
}

#[test]
fn unchanged_level_gives_no_notice() {
    let opts = BatteryOpts::default();
    assert!(matches!(on_battery_level(&opts, chat(), false, Some(60), 10), Ok(None)));
}

#[test]
fn battery_bands() {
    let opts = BatteryOpts::default();
    assert_eq!(opts.band(Some(94), 95), Some(BatteryBand::Full));
    assert_eq!(opts.band(Some(95), 96), None);
    assert_eq!(opts.band(Some(51), 50), Some(BatteryBand::Low));
    assert_eq!(opts.band(Some(50), 49), None);
    assert_eq!(opts.band(Some(16), 15), Some(BatteryBand::Critical));
    assert_eq!(opts.band(Some(15), 14), Some(BatteryBand::Critical));
    assert_eq!(opts.band(None, 10), Some(BatteryBand::Critical));
    assert_eq!(opts.band(None, 96), None);
    // Full wins over the other rules.
    let odd = BatteryOpts { full_level: 10, ..BatteryOpts::default() };
    assert_eq!(odd.band(Some(5), 12), Some(BatteryBand::Full));
}

#[test]
fn low_notice_rearms_only_after_leaving_band() {
    let opts = BatteryOpts::default();
    let levels = [60u8, 40, 45, 48, 52, 49];
    let notices: Vec<Option<BatteryBand>> =
        levels.windows(2).map(|w| opts.band(Some(w[0]), w[1])).collect();
    assert_eq!(
        notices,
        vec![Some(BatteryBand::Low), None, None, None, Some(BatteryBand::Low)]
    );
}

#[test]
fn full_and_critical_texts() {
    let opts = BatteryOpts::default();
    let full = opts.notification(chat(), Some(90), 100).ok().unwrap().unwrap();
    assert_eq!(full.text, "🔋 *100%* Battery is now full!");
    let critical = opts.notification(chat(), Some(20), 7).ok().unwrap().unwrap();
    assert_eq!(critical.text, "🪫 *7%* battery level is critical️");
}

#[test]
fn template_with_unknown_value_fails() {
    let opts = BatteryOpts {
        low_message: "level {level}".to_string(),
        ..BatteryOpts::default()
    };
    match opts.notification(chat(), Some(60), 40) {
        Err(e) => assert_eq!(e.band, BatteryBand::Low),
        Ok(_) => panic!("rendering should fail"),
    }
    let plain = BatteryOpts {
        low_message: "low battery".to_string(),
        ..BatteryOpts::default()
    };
    let m = plain.notification(chat(), Some(60), 40).ok().unwrap().unwrap();
    assert_eq!(m.text, "low battery");
}
