use rusty_home::scripts::{ConsumerGroups, Gauge};

#[test]
fn set_if_greater_repeats() {
    let mut gauge = Gauge::new();
    assert_eq!(gauge.set_if_greater(5), (true, None));
    assert_eq!(gauge.set_if_greater(5), (false, Some(5)));
    assert_eq!(gauge.set_if_greater(6), (true, Some(5)));
    assert_eq!(gauge.set_if_greater(4), (false, Some(6)));
    assert_eq!(gauge.value, Some(6));
}

#[test]
fn set_if_not_equal_repeats() {
    let mut gauge = Gauge::new();
    assert_eq!(gauge.set_if_not_equal(60), (true, None));
    assert_eq!(gauge.set_if_not_equal(60), (false, Some(60)));
    assert_eq!(gauge.set_if_not_equal(40), (true, Some(60)));
    assert_eq!(gauge.set_if_not_equal(60), (true, Some(40)));
}

#[test]
fn create_consumer_group_twice() {
    let mut groups = ConsumerGroups::new();
    assert_eq!(groups.create_consumer_group("bot:1"), 1);
    assert_eq!(groups.create_consumer_group("bot:1"), 0);
    assert_eq!(groups.create_consumer_group("bot:2"), 1);
    assert_eq!(groups.names, vec!["bot:1".to_string(), "bot:2".to_string()]);
}
