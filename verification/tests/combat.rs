use shooty::combat::{
    party_check, Beat, Body, Dodge, DrumKit, Revive, Standing, BEAT, REVIVE_TIME, ROLL_COOLDOWN,
    ROLL_TIME, SLAM_COOLDOWN, SWING_ACTIVE, SWING_COOLDOWN,
};

fn hero(downed: bool, spent: bool) -> Standing {
    Standing { downed, spent }
}

#[test]
fn a_hero_at_zero_goes_down_but_the_run_goes_on() {
    let (down, lost) = party_check(&vec![hero(false, true), hero(false, false)]);
    assert_eq!(down, vec![true, false]);
    assert!(!lost);
}

#[test]
fn the_run_is_lost_when_everyone_is_out() {
    let (down, lost) = party_check(&vec![hero(true, true), hero(false, true)]);
    assert_eq!(down, vec![false, true]);
    assert!(lost);
    let (down, lost) = party_check(&vec![]);
    assert!(down.is_empty());
    assert!(!lost);
}

#[test]
fn one_downbeat_in_four() {
    let mut b = Beat::new();
    assert_eq!(b.tick(BEAT - 1), None);
    let mut beats = vec![];
    for _ in 0..8 {
        beats.push(b.tick(BEAT).unwrap());
    }
    // The first tick above only brought the clock to the edge; the first
    // full beat lands and counts one.
    assert_eq!(beats, vec![false, false, false, true, false, false, false, true]);
    assert_eq!(b.count, 8);
}

#[test]
fn drum_slam_and_swing_cooldowns() {
    let mut k = DrumKit::new();
    let a = k.act(1, true, true, true);
    assert!(a.slam);
    assert!(a.swing_started);
    assert!(a.swinging);
    assert!(k.is_swinging());
    // Slam and swing are both cooling down now.
    let b = k.act(1, true, true, true);
    assert!(!b.slam);
    assert!(!b.swing_started);
    assert!(b.swinging);
    // The swing ends once its active time has passed.
    let c = k.act(SWING_ACTIVE, false, false, true);
    assert!(c.swinging);
    assert!(!k.is_swinging());
    // After the cooldowns a new swing and slam are allowed.
    let d = k.act(SWING_COOLDOWN.max(SLAM_COOLDOWN), true, true, true);
    assert!(d.slam);
    assert!(d.swing_started);
}

#[test]
fn no_swing_without_a_target_in_front() {
    let mut k = DrumKit::new();
    let a = k.act(1, false, true, false);
    assert!(!a.swing_started);
    assert!(!a.swinging);
}

#[test]
fn dodge_rolls_then_cools_down() {
    let mut d = Dodge::new();
    assert!(d.step(1, Body::Afoot, true));
    assert!(d.is_rolling());
    assert!(!d.step(1, Body::Afoot, true));
    d.step(ROLL_TIME, Body::Afoot, false);
    assert!(!d.is_rolling());
    assert!(!d.step(1, Body::Afoot, true));
    d.step(ROLL_COOLDOWN, Body::Afoot, false);
    assert!(d.step(1, Body::Afoot, true));
}

#[test]
fn no_dodge_in_a_seat_and_a_downed_hero_stops_rolling() {
    let mut d = Dodge::new();
    assert!(!d.step(1, Body::Seated, true));
    assert!(!d.is_rolling());
    assert!(d.step(1, Body::Afoot, true));
    assert!(!d.step(1, Body::Downed, true));
    assert!(!d.is_rolling());
}

#[test]
fn a_revive_takes_its_time_and_drains_when_left() {
    let mut r = Revive::new();
    assert!(!r.tick(true, REVIVE_TIME / 2));
    assert_eq!(r.progress, REVIVE_TIME / 2);
    assert!(!r.tick(false, 1_000_000_000));
    assert_eq!(r.progress, REVIVE_TIME / 2 - 600_000_000);
    assert!(!r.tick(false, 10_000_000_000));
    assert_eq!(r.progress, 0);
    assert!(!r.tick(true, REVIVE_TIME - 1));
    assert!(r.tick(true, 1));
}

#[test]
fn revive_drain_rounds_down() {
    let mut r = Revive::new();
    r.tick(true, 100);
    r.tick(false, 7);
    // Six tenths of seven nanoseconds is four and a fifth.
    assert_eq!(r.progress, 96);
}

#[test]
fn revive_percent_for_the_hud() {
    let mut r = Revive::new();
    assert_eq!(r.percent(), 0);
    r.tick(true, REVIVE_TIME / 2);
    assert_eq!(r.percent(), 50);
    r.tick(true, REVIVE_TIME / 2 - 1);
    assert_eq!(r.percent(), 99);
}
