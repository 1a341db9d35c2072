use shooty::timer::Countdown;
use shooty::vehicle::{
    car_boarding, nearest_among, nearest_player, plane_boarding, Boarding, CAR_REACH_SQ,
    DISMOUNT_BLOCK, PLANE_REACH_SQ,
};

#[test]
fn nearest_among_the_eligible_first_on_ties() {
    assert_eq!(nearest_among(&vec![], &vec![]), None);
    assert_eq!(nearest_among(&vec![5, 3, 3], &vec![true, true, true]), Some(1));
    assert_eq!(nearest_among(&vec![5, 3, 3], &vec![true, false, true]), Some(2));
    assert_eq!(nearest_among(&vec![5, 3], &vec![false, false]), None);
}

#[test]
fn enemies_make_for_the_nearest_standing_hero() {
    assert_eq!(nearest_player(&vec![10, 40], &vec![false, false]), Some(0));
    assert_eq!(nearest_player(&vec![10, 40], &vec![true, false]), Some(1));
    // Everyone down: the nearest of them.
    assert_eq!(nearest_player(&vec![10, 40], &vec![true, true]), Some(0));
    assert_eq!(nearest_player(&vec![], &vec![]), None);
}

#[test]
fn getting_into_the_nearest_free_car_in_reach() {
    let d = vec![CAR_REACH_SQ + 1, 90_000, 40_000, 10_000];
    let free = vec![true, true, true, false];
    assert_eq!(car_boarding(true, false, false, &d, &free), Boarding::GetIn(2));
    // Nothing pressed, nothing happens.
    assert_eq!(car_boarding(false, false, false, &d, &free), Boarding::Stay);
    // Only just stepped out.
    assert_eq!(car_boarding(true, false, true, &d, &free), Boarding::Stay);
    // Nothing in reach.
    assert_eq!(car_boarding(true, false, false, &vec![CAR_REACH_SQ + 1], &vec![true]), Boarding::Stay);
    // Exactly at the reach counts.
    assert_eq!(car_boarding(true, false, false, &vec![CAR_REACH_SQ], &vec![true]), Boarding::GetIn(0));
}

#[test]
fn the_driver_always_gets_out() {
    assert_eq!(car_boarding(true, true, false, &vec![], &vec![]), Boarding::GetOut);
}

#[test]
fn the_pilot_gets_out_only_on_the_ground_and_slow() {
    let none: Vec<u64> = vec![];
    let nofree: Vec<bool> = vec![];
    assert_eq!(plane_boarding(true, true, 60, 600, false, &none, &nofree), Boarding::GetOut);
    assert_eq!(plane_boarding(true, true, 0, -600, false, &none, &nofree), Boarding::GetOut);
    assert_eq!(plane_boarding(true, true, 61, 0, false, &none, &nofree), Boarding::Stay);
    assert_eq!(plane_boarding(true, true, 0, 601, false, &none, &nofree), Boarding::Stay);
    assert_eq!(plane_boarding(true, true, 0, -601, false, &none, &nofree), Boarding::Stay);
    assert_eq!(plane_boarding(false, true, 0, 0, false, &none, &nofree), Boarding::Stay);
}

#[test]
fn climbing_into_the_plane_has_a_longer_reach() {
    let d = vec![PLANE_REACH_SQ];
    let free = vec![true];
    assert_eq!(plane_boarding(true, false, 0, 0, false, &d, &free), Boarding::GetIn(0));
    assert_eq!(car_boarding(true, false, false, &d, &free), Boarding::Stay);
    assert_eq!(plane_boarding(true, false, 0, 0, true, &d, &free), Boarding::Stay);
}

#[test]
fn the_dismount_block_runs_out() {
    let mut t = Countdown::once(DISMOUNT_BLOCK);
    t.tick(DISMOUNT_BLOCK - 1);
    assert!(!t.is_finished());
    t.tick(1);
    assert!(t.is_finished());
}
