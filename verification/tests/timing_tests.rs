use scheduler::config::ConfigValue;
use scheduler::timing::{Interval, Once, Timing};

#[test]
fn once_with_delay() {
    let value = ConfigValue::Obj(vec![("delay".to_string(), ConfigValue::UInt(0))]);

    let derived = Timing::new_from_value(&value);

    let actual = Timing::Once(Once::default());

    assert_eq!(derived, actual);
}

#[test]
fn once_without_delay() {
    let value = ConfigValue::Obj(vec![]);

    let derived = Timing::new_from_value(&value);

    let actual = Timing::Once(Once::default());

    assert_eq!(derived, actual);
}

#[test]
fn interval_with_delay() {
    let value = ConfigValue::Obj(vec![
        ("delay".to_string(), ConfigValue::UInt(0)),
        ("interval".to_string(), ConfigValue::UInt(1000)),
    ]);

    let derived = Timing::new_from_value(&value);

    let actual = Timing::Interval(Interval::default());

    assert_eq!(derived, actual);
}

#[test]
fn interval_without_delay() {
    let value = ConfigValue::Obj(vec![("interval".to_string(), ConfigValue::UInt(1000))]);

    let derived = Timing::new_from_value(&value);

    let actual = Timing::Interval(Interval::default());

    assert_eq!(derived, actual);
}

#[test]
fn interval_selected_by_presence_even_when_mistyped() {
    let value = ConfigValue::Obj(vec![(
        "interval".to_string(),
        ConfigValue::Str("soon".to_string()),
    )]);

    let derived = Timing::new_from_value(&value);

    assert_eq!(derived, Timing::Interval(Interval { delay: 0, interval: 0 }));
}

#[test]
fn once_keeps_its_delay() {
    let value = ConfigValue::Obj(vec![("delay".to_string(), ConfigValue::UInt(250))]);

    let derived = Timing::new_from_value(&value);

    assert_eq!(derived, Timing::Once(Once { delay: 250 }));
    assert_eq!(derived.delay(), 250);
}

#[test]
fn interval_keeps_both_durations() {
    let value = ConfigValue::Obj(vec![
        ("delay".to_string(), ConfigValue::UInt(30)),
        ("interval".to_string(), ConfigValue::UInt(60)),
    ]);

    let derived = Timing::new_from_value(&value);

    assert_eq!(derived, Timing::Interval(Interval { delay: 30, interval: 60 }));
    assert_eq!(derived.delay(), 30);
}

#[test]
fn decode_is_deterministic() {
    let value = ConfigValue::Obj(vec![
        ("delay".to_string(), ConfigValue::UInt(5)),
        ("interval".to_string(), ConfigValue::UInt(9)),
    ]);

    let first = Timing::new_from_value(&value);
    let second = Timing::new_from_value(&value);

    assert_eq!(first, second);
}

#[test]
fn once_retires_after_its_single_firing() {
    let timing = Timing::Once(Once { delay: 40 });

    assert_eq!(timing.delay(), 40);
    assert_eq!(timing.wait_after(0), None);
}

#[test]
fn interval_always_waits_its_interval_again() {
    let timing = Timing::Interval(Interval { delay: 40, interval: 1000 });

    assert_eq!(timing.delay(), 40);
    assert_eq!(timing.wait_after(0), Some(1000));
    assert_eq!(timing.wait_after(1), Some(1000));
    assert_eq!(timing.wait_after(1_000_000), Some(1000));
}
