use shooty::pickup::{
    drop_for_rolls, left_gun, roll_drop, Buffs, LeftGun, PickupClock, PickupKind, BUFF,
    ENCORE_COOLDOWN, FIRST_PICKUP, NEXT_PICKUP,
};

#[test]
fn timed_pickups_take_turns() {
    let mut c = PickupClock::new();
    assert_eq!(c.tick(FIRST_PICKUP - 1), None);
    assert_eq!(c.tick(1), Some(PickupKind::Encore));
    assert_eq!(c.tick(NEXT_PICKUP - 1), None);
    assert_eq!(c.tick(1), Some(PickupKind::DualGuitar));
    assert_eq!(c.tick(NEXT_PICKUP), Some(PickupKind::Arpeggio));
    assert_eq!(c.tick(NEXT_PICKUP), Some(PickupKind::Encore));
}

#[test]
fn kill_drops() {
    assert_eq!(drop_for_rolls(0, 0), Some(PickupKind::Encore));
    assert_eq!(drop_for_rolls(34, 1), Some(PickupKind::DualGuitar));
    assert_eq!(drop_for_rolls(34, 2), Some(PickupKind::Arpeggio));
    assert_eq!(drop_for_rolls(35, 0), None);
    assert_eq!(drop_for_rolls(999, 2), None);
}

#[test]
fn drops_are_rare() {
    let drops = (0..20_000).filter(|_| roll_drop().is_some()).count();
    // 3.5% of twenty thousand is seven hundred.
    assert!(drops > 400 && drops < 1000, "{drops} drops");
}

#[test]
fn buffs_run_out() {
    let mut b = Buffs::none();
    b.collect(PickupKind::DualGuitar);
    b.collect(PickupKind::Arpeggio);
    assert!(b.dual.is_some() && b.rapid.is_some());
    b.expire(BUFF - 1);
    assert!(b.dual.is_some() && b.rapid.is_some());
    b.expire(1);
    assert!(b.dual.is_none() && b.rapid.is_none());
}

#[test]
fn collecting_again_refreshes_the_buff() {
    let mut b = Buffs::none();
    b.collect(PickupKind::DualGuitar);
    b.expire(BUFF - 1);
    b.collect(PickupKind::DualGuitar);
    b.expire(BUFF - 1);
    assert!(b.dual.is_some());
}

#[test]
fn encore_blasts_on_a_cooldown() {
    let mut b = Buffs::none();
    assert!(!b.try_encore(1, true));
    b.collect(PickupKind::Encore);
    assert!(b.try_encore(1, true));
    assert!(!b.try_encore(1, true));
    assert!(!b.try_encore(ENCORE_COOLDOWN, false));
    assert!(b.try_encore(0, true));
    b.expire(BUFF);
    assert!(b.encore.is_none());
    assert!(!b.try_encore(ENCORE_COOLDOWN, true));
}

#[test]
fn exactly_one_left_gun_while_dual_wielding() {
    assert_eq!(left_gun(true, false), LeftGun::Spawn);
    assert_eq!(left_gun(true, true), LeftGun::Keep);
    assert_eq!(left_gun(false, true), LeftGun::Despawn);
    assert_eq!(left_gun(false, false), LeftGun::Keep);
}
