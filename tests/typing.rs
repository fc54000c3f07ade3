use taqui::typing::INDICATOR_TIMEOUT;
use taqui::{Activation, Indicator, IndicatorKey, Indicators, TaskStep};

const SEC: u128 = 1_000_000_000;

fn key() -> IndicatorKey {
    IndicatorKey { user_id: 1, group_id: 2 }
}

#[test]
fn timeout_is_seven_seconds() {
    assert_eq!(INDICATOR_TIMEOUT, 7 * SEC);
}

#[test]
fn first_activity_spawns_and_second_notifies() {
    let mut indicators = Indicators::new();
    let first = indicators.start_typing(key(), 0);
    let generation = match first {
        Activation::Spawned { generation } => generation,
        Activation::Notified => panic!("an idle indicator spawns a task"),
    };
    assert_eq!(indicators.start_typing(key(), 3 * SEC), Activation::Notified);
    // the deadline follows the last activity
    assert_eq!(indicators.timer_fired(key(), generation, 7 * SEC), TaskStep::Wait { until: 10 * SEC });
    assert_eq!(indicators.timer_fired(key(), generation, 10 * SEC), TaskStep::Finish { announce: true });
    // only one EndTyping
    assert_eq!(indicators.timer_fired(key(), generation, 11 * SEC), TaskStep::Finish { announce: false });
    assert!(!indicators.end_typing(key()));
}

#[test]
fn clear_ends_promptly_and_once() {
    let mut indicators = Indicators::new();
    let generation = match indicators.start_typing(key(), 0) {
        Activation::Spawned { generation } => generation,
        Activation::Notified => panic!("an idle indicator spawns a task"),
    };
    assert!(indicators.end_typing(key()));
    assert!(!indicators.end_typing(key()));
    assert_eq!(indicators.timer_fired(key(), generation, 7 * SEC), TaskStep::Finish { announce: false });
}

#[test]
fn clear_without_indicator_does_nothing() {
    let mut indicators = Indicators::new();
    assert!(!indicators.end_typing(key()));
    assert!(matches!(indicators.start_typing(key(), 0), Activation::Spawned { .. }));
}

#[test]
fn reactivation_starts_a_new_task_and_retires_the_old() {
    let mut indicators = Indicators::new();
    let Activation::Spawned { generation: g1 } = indicators.start_typing(key(), 0) else {
        panic!("an idle indicator spawns a task");
    };
    assert!(indicators.end_typing(key()));
    let Activation::Spawned { generation: g2 } = indicators.start_typing(key(), SEC) else {
        panic!("a cleared indicator spawns a task");
    };
    assert_ne!(g1, g2);
    assert_eq!(indicators.timer_fired(key(), g1, 7 * SEC), TaskStep::Finish { announce: false });
    assert_eq!(indicators.timer_fired(key(), g2, 7 * SEC), TaskStep::Wait { until: 8 * SEC });
    assert_eq!(indicators.timer_fired(key(), g2, 8 * SEC), TaskStep::Finish { announce: true });
}

#[test]
fn pairs_are_independent() {
    let mut indicators = Indicators::new();
    let other = IndicatorKey { user_id: 1, group_id: 3 };
    assert!(matches!(indicators.start_typing(key(), 0), Activation::Spawned { .. }));
    assert!(matches!(indicators.start_typing(other, 0), Activation::Spawned { .. }));
    assert!(indicators.end_typing(other));
    assert_eq!(indicators.start_typing(key(), 1), Activation::Notified);
}

#[test]
fn single_indicator_transitions() {
    let mut indicator = Indicator::new();
    assert!(!indicator.is_active());
    assert!(matches!(indicator.start_typing(5), Activation::Spawned { generation: 1 }));
    assert!(indicator.is_active());
    assert!(indicator.end_typing());
    assert!(!indicator.is_active());
}
