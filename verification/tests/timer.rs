use shooty::timer::Countdown;

#[test]
fn once_runs_down_and_stays_finished() {
    let mut c = Countdown::once(100);
    c.tick(40);
    assert!(!c.is_finished());
    assert_eq!(c.remaining(), 60);
    c.tick(70);
    assert!(c.is_finished());
    assert!(c.just_finished());
    assert_eq!(c.elapsed, 100);
    assert_eq!(c.remaining(), 0);
    c.tick(10);
    assert!(c.is_finished());
    assert!(!c.just_finished());
}

#[test]
fn repeating_wraps_and_counts() {
    let mut c = Countdown::repeating(100);
    c.tick(250);
    assert!(c.is_finished());
    assert_eq!(c.times_this_tick, 2);
    assert_eq!(c.elapsed, 50);
    c.tick(20);
    assert!(!c.is_finished());
    assert_eq!(c.times_this_tick, 0);
    assert_eq!(c.elapsed, 70);
}

#[test]
fn spent_is_ready_at_once() {
    let c = Countdown::spent(300);
    assert!(c.is_finished());
    assert_eq!(c.remaining(), 0);
}

#[test]
fn reset_starts_over() {
    let mut c = Countdown::once(10);
    c.tick(20);
    assert!(c.is_finished());
    c.reset();
    assert!(!c.is_finished());
    assert_eq!(c.elapsed, 0);
    assert_eq!(c.remaining(), 10);
}

#[test]
fn huge_tick_saturates() {
    let mut c = Countdown::once(u64::MAX);
    c.tick(u64::MAX - 1);
    assert!(!c.is_finished());
    c.tick(u64::MAX);
    assert!(c.is_finished());
}
