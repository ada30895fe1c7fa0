use rusty_puzzles::timer::{Timer, TICK_INTERVAL_NANOS};

#[test]
fn new_timer_is_stopped() {
    let t = Timer::new(42);
    assert!(!t.is_active());
    assert_eq!(t.wake_interval(), None);
}

#[test]
fn stopped_timer_never_steps() {
    let mut t = Timer::new(0);
    assert_eq!(t.tick(1_000_000_000), None);
    t.activate(0);
    t.deactivate();
    assert_eq!(t.tick(5_000_000_000), None);
    assert!(!t.is_active());
}

#[test]
fn running_timer_waits_for_interval() {
    let mut t = Timer::new(0);
    t.activate(1_000);
    assert!(t.is_active());
    assert_eq!(t.wake_interval(), Some(TICK_INTERVAL_NANOS));
    assert_eq!(t.tick(1_000 + 9_999_999), None);
    assert_eq!(t.tick(1_000 + 10_000_000), Some(10_000_000));
    // the next step is measured from the last one
    assert_eq!(t.tick(1_000 + 15_000_000), None);
    assert_eq!(t.tick(1_000 + 25_000_000), Some(15_000_000));
}

#[test]
fn steps_add_up_to_elapsed_time() {
    let mut t = Timer::new(0);
    t.activate(500);
    let mut total: u64 = 0;
    for now in [1_000u64, 9_000_000, 12_000_000, 12_500_000, 30_000_000, 30_000_001, 45_000_000] {
        if let Some(step) = t.tick(now) {
            total += step;
        }
    }
    // last step fired at 45_000_000
    assert_eq!(total, 45_000_000 - 500);
}

#[test]
fn clock_reading_before_start_counts_as_no_time() {
    let mut t = Timer::new(0);
    t.activate(50_000_000);
    assert_eq!(t.tick(10), None);
}
