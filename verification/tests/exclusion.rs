use apollo::dispatch::HANDLER_TIMEOUT_MILLIS;
use apollo::engine::VENUE_CALL_TIMEOUT_MILLIS;
use apollo::running::RunningStrategies;

#[test]
fn strategy_is_not_entered_twice() {
    let running = RunningStrategies::new();
    assert_eq!(running.len(), 0);
    assert!(!running.is_running("s-1"));
    let (entered, running) = running.try_begin("s-1");
    assert!(entered);
    assert!(running.is_running("s-1"));
    let (entered, running) = running.try_begin("s-1");
    assert!(!entered);
    assert_eq!(running.len(), 1);
    let (entered, running) = running.try_begin("s-2");
    assert!(entered);
    assert_eq!(running.len(), 2);
    assert!(running.is_running("s-1"));
    assert!(running.is_running("s-2"));
    assert!(!running.is_running("s-3"));
}

#[test]
fn strategy_can_be_entered_again_after_it_has_ended() {
    let (_, running) = RunningStrategies::new().try_begin("s-1");
    let (_, running) = running.try_begin("s-2");
    let (_, running) = running.try_begin("s-3");
    let running = running.finish("s-2");
    assert_eq!(running.len(), 2);
    assert!(running.is_running("s-1"));
    assert!(!running.is_running("s-2"));
    assert!(running.is_running("s-3"));
    let (entered, running) = running.try_begin("s-2");
    assert!(entered);
    assert_eq!(running.len(), 3);
    let running = running.finish("s-1").finish("s-3").finish("s-2");
    assert_eq!(running.len(), 0);
}

#[test]
fn finishing_what_is_not_running_changes_nothing() {
    let (_, running) = RunningStrategies::new().try_begin("s-1");
    let running = running.finish("s-9");
    assert_eq!(running.len(), 1);
    assert!(running.is_running("s-1"));
    let running = RunningStrategies::new().finish("");
    assert_eq!(running.len(), 0);
}

#[test]
fn calls_are_bounded() {
    assert_eq!(HANDLER_TIMEOUT_MILLIS, 30_000);
    assert_eq!(VENUE_CALL_TIMEOUT_MILLIS, 30_000);
}
