use shooty::timer::Countdown;
use shooty::wave::{
    kind_for_roll, roll_face_style, roll_kind, wave_shape, Field, Wave, WavePhase, BURST_CAPTURE,
    BURST_PLAY, CLEAR_PLAY, FACE_STYLES, FIRST_LULL, LULL_OPENING, LULL_PLAY, MILLI,
};
use shooty::EnemyKind;

fn calm(dt: u64) -> Field {
    Field { dt, capture: false, alive: 0, vent: true }
}

#[test]
fn wave_shapes() {
    assert_eq!(wave_shape(0, false), (28, 5, BURST_PLAY));
    assert_eq!(wave_shape(1, false), (28, 5, BURST_PLAY));
    assert_eq!(wave_shape(2, false), (38, 6, BURST_PLAY));
    assert_eq!(wave_shape(20, false), (130, 12, BURST_PLAY));
    assert_eq!(wave_shape(1, true), (58, 11, BURST_CAPTURE));
    assert_eq!(wave_shape(100, true), (280, 28, BURST_CAPTURE));
}

#[test]
fn first_lull_then_first_wave() {
    let mut w = Wave::new();
    assert_eq!(w.phase, WavePhase::Prep);
    assert_eq!(w.prep_left(), FIRST_LULL);
    assert_eq!(w.step(calm(FIRST_LULL - 1)), 0);
    assert_eq!(w.phase, WavePhase::Prep);
    assert_eq!(w.prep_left(), 1);
    assert_eq!(w.step(calm(1)), 0);
    assert_eq!(w.phase, WavePhase::Spawning);
    assert_eq!(w.number, 1);
    assert_eq!(w.budget, 28);
    assert_eq!(w.prep_left(), 0);
}

#[test]
fn a_wave_pours_its_whole_budget_in_bursts() {
    let mut w = Wave::new();
    w.step(calm(FIRST_LULL));
    let mut spawned = 0;
    let mut frames = 0;
    while w.phase == WavePhase::Spawning && frames < 1000 {
        let n = w.step(calm(BURST_PLAY));
        assert!(n <= 5);
        spawned += n;
        frames += 1;
    }
    assert_eq!(spawned, 28);
    assert_eq!(w.phase, WavePhase::Clearing);
    assert_eq!(w.budget, 0);
}

#[test]
fn bursts_hold_back_on_a_crowded_field_or_without_a_vent() {
    let mut w = Wave::new();
    w.step(calm(FIRST_LULL));
    let crowded = Field { dt: BURST_PLAY, capture: false, alive: 121, vent: true };
    assert_eq!(w.step(crowded), 0);
    assert_eq!(w.budget, 28);
    let no_vent = Field { dt: BURST_PLAY, capture: false, alive: 0, vent: false };
    assert_eq!(w.step(no_vent), 0);
    assert_eq!(w.budget, 28);
}

#[test]
fn clearing_ends_on_a_thin_field_or_timeout() {
    let mut w = Wave::new();
    w.step(calm(FIRST_LULL));
    while w.phase == WavePhase::Spawning {
        w.step(calm(BURST_PLAY));
    }
    // Busy field: waits for the timeout.
    let busy = Field { dt: CLEAR_PLAY - 1, capture: false, alive: 50, vent: true };
    w.step(busy);
    assert_eq!(w.phase, WavePhase::Clearing);
    let busy = Field { dt: 1, capture: false, alive: 50, vent: true };
    w.step(busy);
    assert_eq!(w.phase, WavePhase::Prep);
    assert_eq!(w.prep_left(), LULL_PLAY);
    assert_eq!(w.number, 1);
}

#[test]
fn opening_lull_after_wave_zero() {
    let mut w = Wave::new();
    w.phase = WavePhase::Clearing;
    w.phase_timer = Countdown::once(CLEAR_PLAY);
    assert_eq!(w.step(calm(1)), 0);
    assert_eq!(w.phase, WavePhase::Prep);
    assert_eq!(w.prep_left(), LULL_OPENING);
}

#[test]
fn net_apply_overwrites_display() {
    let mut w = Wave::new();
    w.net_apply(7, WavePhase::Prep, 5 * MILLI);
    assert_eq!(w.number, 7);
    assert_eq!(w.prep_left(), 5 * MILLI);
    w.net_apply(8, WavePhase::Prep, 0);
    assert_eq!(w.prep_left(), MILLI);
    w.net_apply(8, WavePhase::Spawning, 0);
    assert_eq!(w.prep_left(), 0);
}

#[test]
fn tier_mix() {
    assert_eq!(kind_for_roll(0), EnemyKind::Mood);
    assert_eq!(kind_for_roll(579), EnemyKind::Mood);
    assert_eq!(kind_for_roll(580), EnemyKind::Head);
    assert_eq!(kind_for_roll(799), EnemyKind::Head);
    assert_eq!(kind_for_roll(800), EnemyKind::Heckler);
    assert_eq!(kind_for_roll(929), EnemyKind::Heckler);
    assert_eq!(kind_for_roll(930), EnemyKind::Sink);
    assert_eq!(kind_for_roll(999), EnemyKind::Sink);
}

#[test]
fn rolls_stay_in_range() {
    let mut seen_mood = false;
    for _ in 0..2000 {
        let k = roll_kind();
        if k == EnemyKind::Mood {
            seen_mood = true;
        }
        assert!(roll_face_style() < FACE_STYLES);
    }
    // 58% of rolls are moods; two thousand rolls without one would mean the
    // roll is not being drawn at all.
    assert!(seen_mood);
    let mut styles = [false; 3];
    for _ in 0..2000 {
        styles[roll_face_style() as usize] = true;
    }
    assert!(styles.iter().all(|s| *s));
}

#[test]
fn each_wave_is_at_least_as_big_as_the_last() {
    for capture in [false, true] {
        for n in 0..40u32 {
            let (a, b, _) = wave_shape(n, capture);
            let (a2, b2, _) = wave_shape(n + 1, capture);
            assert!(a <= a2 && b <= b2);
            if n >= 1 && a < (if capture { 280 } else { 130 }) {
                assert!(a < a2);
            }
        }
    }
}
