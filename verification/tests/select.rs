use shooty::roster::{Pick, Roster};
use shooty::select::{position, Choice, SelectInput};
use shooty::{Hero, Party};

fn input(left: bool, right: bool, tab: bool, confirm: bool) -> SelectInput {
    SelectInput { left, right, tab, confirm }
}

#[test]
fn position_finds_the_first_match() {
    let cast = Pick::playable();
    assert_eq!(position(&cast, Pick::Boxy(0)), Some(0));
    assert_eq!(position(&cast, Pick::Skeletal(6)), Some(11));
    assert_eq!(position(&cast, Pick::Skeletal(12)), None);
}

#[test]
fn the_lineup_opens_on_the_guitarist() {
    let mut r = Roster::new();
    r.set(Hero::Guitarist, Pick::Skeletal(1));
    let c = Choice::open(&r);
    assert_eq!(c.slot, Hero::Guitarist);
    assert_eq!(c.cursor, 6);
}

#[test]
fn the_cursor_wraps_and_updates_the_roster() {
    let mut r = Roster::new();
    let mut c = Choice::open(&r);
    assert_eq!(c.cursor, 0);
    assert!(!c.step(&mut r, Party::Duo, input(true, false, false, false)));
    assert_eq!(c.cursor, 11);
    assert_eq!(r.guitarist, Pick::Skeletal(6));
    assert!(!c.step(&mut r, Party::Duo, input(false, true, false, false)));
    assert_eq!(c.cursor, 0);
    assert_eq!(r.guitarist, Pick::Boxy(0));
    // Both at once cancel out.
    assert!(!c.step(&mut r, Party::Duo, input(true, true, false, false)));
    assert_eq!(c.cursor, 0);
}

#[test]
fn a_duo_confirms_the_guitarist_then_the_drummer() {
    let mut r = Roster::new();
    let mut c = Choice::open(&r);
    c.step(&mut r, Party::Duo, input(false, true, false, false));
    assert!(!c.step(&mut r, Party::Duo, input(false, false, false, true)));
    assert_eq!(c.slot, Hero::Drummer);
    assert_eq!(c.cursor, 2);
    assert_eq!(r.guitarist, Pick::Boxy(1));
    assert!(c.step(&mut r, Party::Duo, input(false, true, false, true)));
    assert_eq!(r.drummer, Pick::Boxy(3));
}

#[test]
fn a_solo_player_starts_at_once_and_tab_does_nothing() {
    let mut r = Roster::new();
    let mut c = Choice::open(&r);
    assert!(!c.step(&mut r, Party::Solo, input(false, false, true, false)));
    assert_eq!(c.slot, Hero::Guitarist);
    assert!(c.step(&mut r, Party::Solo, input(false, false, false, true)));
}

#[test]
fn tab_hands_the_cursor_over() {
    let mut r = Roster::new();
    let mut c = Choice::open(&r);
    assert!(!c.step(&mut r, Party::Duo, input(false, false, true, false)));
    assert_eq!(c.slot, Hero::Drummer);
    assert_eq!(c.cursor, 2);
    assert_eq!(r.drummer, Pick::Boxy(2));
}

#[test]
fn browsing_walks_the_lineup() {
    let mut r = Roster::new();
    let mut c = Choice::open(&r);
    c.browse(&mut r, true);
    assert_eq!(c.cursor, 1);
    assert_eq!(r.guitarist, Pick::Boxy(1));
}
