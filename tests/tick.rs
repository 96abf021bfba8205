use snek::TickScheduler;

#[test]
fn created_stopped() {
    let mut ticks = TickScheduler::new(150);
    assert_eq!(ticks.interval_ms(), 150);
    assert!(!ticks.is_running());
    ticks.on_timer_fire();
    assert!(!ticks.poll_tick());
}

#[test]
fn pulses_while_running() {
    let mut ticks = TickScheduler::new(150);
    assert!(ticks.start());
    assert!(!ticks.poll_tick());
    ticks.on_timer_fire();
    ticks.on_timer_fire();
    assert!(ticks.poll_tick());
    assert!(ticks.poll_tick());
    assert!(!ticks.poll_tick());
}

#[test]
fn start_twice_arms_once() {
    let mut ticks = TickScheduler::new(150);
    assert!(ticks.start());
    assert!(!ticks.start());
    assert!(ticks.is_running());
}

#[test]
fn stop_leaves_at_most_the_pending_pulse() {
    let mut ticks = TickScheduler::new(150);
    ticks.start();
    ticks.on_timer_fire();
    ticks.stop();
    assert!(!ticks.is_running());
    ticks.on_timer_fire();
    assert!(ticks.poll_tick());
    for _ in 0..10 {
        ticks.on_timer_fire();
        assert!(!ticks.poll_tick());
    }
    assert!(ticks.start());
    ticks.on_timer_fire();
    assert!(ticks.poll_tick());
}

#[test]
fn stop_with_nothing_pending() {
    let mut ticks = TickScheduler::new(150);
    ticks.start();
    ticks.on_timer_fire();
    assert!(ticks.poll_tick());
    ticks.stop();
    ticks.on_timer_fire();
    assert!(!ticks.poll_tick());
    assert!(!ticks.poll_tick());
}
