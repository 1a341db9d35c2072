use shooty::net::{
    authoritative, downed_change, is_client, is_hello, is_host, launch_from_args,
    newest_snapshot, phase_to_u8, snapshot_state, speakers_to_u8, state_to_u8, u8_to_phase,
    u8_to_state, Buttons, DownedChange, Launch, LaunchError, NetIds, NetRole, RemoteInput,
    DEFAULT_PORT,
};
use shooty::net::local_control;
use shooty::wave::WavePhase;
use shooty::{GameState, Hero};

fn args(a: &[&str]) -> Vec<String> {
    a.iter().map(|s| s.to_string()).collect()
}

#[test]
fn roles() {
    assert_eq!(NetRole::default_role(), NetRole::Local);
    assert!(authoritative(NetRole::Local));
    assert!(authoritative(NetRole::Host));
    assert!(!authoritative(NetRole::Client));
    assert!(is_host(NetRole::Host) && !is_host(NetRole::Client));
    assert!(is_client(NetRole::Client) && !is_client(NetRole::Local));
}

#[test]
fn state_codes() {
    for s in [GameState::Playing, GameState::GameOver, GameState::Victory] {
        assert_eq!(u8_to_state(state_to_u8(s)), s);
    }
    assert_eq!(state_to_u8(GameState::Select), 0);
    assert_eq!(u8_to_state(0), GameState::Playing);
    assert_eq!(u8_to_state(9), GameState::Playing);
}

#[test]
fn phase_codes() {
    for p in [WavePhase::Prep, WavePhase::Spawning, WavePhase::Clearing] {
        assert_eq!(u8_to_phase(phase_to_u8(p)), p);
    }
    assert_eq!(phase_to_u8(WavePhase::Clearing), 2);
    assert_eq!(u8_to_phase(200), WavePhase::Prep);
}

#[test]
fn speaker_count_byte() {
    assert_eq!(speakers_to_u8(3), 3);
    assert_eq!(speakers_to_u8(256), 0);
    assert_eq!(speakers_to_u8(300), 44);
}

#[test]
fn hellos_are_short() {
    assert!(is_hello(0));
    assert!(is_hello(1));
    assert!(!is_hello(2));
}

#[test]
fn newest_snapshot_keeps_the_last_highest_tick() {
    assert_eq!(newest_snapshot(&vec![]), None);
    assert_eq!(newest_snapshot(&vec![5]), Some(0));
    assert_eq!(newest_snapshot(&vec![3, 9, 4]), Some(1));
    assert_eq!(newest_snapshot(&vec![9, 2, 9, 1]), Some(2));
}

#[test]
fn remote_input_accumulates_presses_until_consumed() {
    let mut r = RemoteInput::new();
    assert_eq!(r.consume(), None);
    r.receive(1, None);
    assert!(r.connected);
    let press = Buttons { fire: true, attack: true, special: false, dodge: false, build: false };
    r.receive(12, Some(press));
    let hold = Buttons { fire: false, attack: false, special: true, dodge: false, build: false };
    r.receive(12, Some(hold));
    // A hello never changes the frame.
    r.receive(1, Some(press));
    let got = r.consume().unwrap();
    assert!(!got.fire);
    assert!(got.attack);
    assert!(got.special);
    let again = r.consume().unwrap();
    assert_eq!(again, Buttons::none());
}

#[test]
fn held_fire_survives_a_consume() {
    let mut r = RemoteInput::new();
    let fire = Buttons { fire: true, attack: false, special: false, dodge: true, build: false };
    r.receive(12, Some(fire));
    assert_eq!(r.consume(), Some(fire));
    let next = r.consume().unwrap();
    assert!(next.fire);
    assert!(!next.dodge);
}

#[test]
fn ids_start_at_one_and_count_up() {
    let mut ids = NetIds::new();
    assert_eq!(ids.next(), 1);
    assert_eq!(ids.next(), 2);
    assert_eq!(ids.last, 2);
}

#[test]
fn launch_modes() {
    assert!(matches!(launch_from_args(&args(&[])), Ok(Launch::Solo)));
    assert!(matches!(launch_from_args(&args(&["coop"])), Ok(Launch::Coop)));
    assert!(matches!(launch_from_args(&args(&["dance"])), Ok(Launch::Solo)));
    assert!(matches!(launch_from_args(&args(&["host"])), Ok(Launch::Host(p)) if p == DEFAULT_PORT));
    assert!(matches!(launch_from_args(&args(&["host", "5000"])), Ok(Launch::Host(5000))));
    assert!(matches!(launch_from_args(&args(&["host", "+5000"])), Ok(Launch::Host(5000))));
    assert!(matches!(launch_from_args(&args(&["host", "70000"])), Ok(Launch::Host(47474))));
    assert!(matches!(launch_from_args(&args(&["host", "-1"])), Ok(Launch::Host(47474))));
    assert!(matches!(launch_from_args(&args(&["host", "x"])), Ok(Launch::Host(47474))));
}

#[test]
fn join_adds_the_default_port() {
    match launch_from_args(&args(&["join", "192.168.1.20"])) {
        Ok(Launch::Client(a)) => assert_eq!(a, "192.168.1.20:47474"),
        _ => panic!("expected a client launch"),
    }
    match launch_from_args(&args(&["join", "10.0.0.2:6000"])) {
        Ok(Launch::Client(a)) => assert_eq!(a, "10.0.0.2:6000"),
        _ => panic!("expected a client launch"),
    }
}

#[test]
fn join_without_an_address_is_refused() {
    assert!(matches!(launch_from_args(&args(&["join"])), Err(LaunchError::MissingAddress)));
}

#[test]
fn snapshots_move_the_client_state_only_when_it_differs() {
    assert_eq!(snapshot_state(GameState::Playing, 0), None);
    assert_eq!(snapshot_state(GameState::Playing, 1), Some(GameState::GameOver));
    assert_eq!(snapshot_state(GameState::GameOver, 0), Some(GameState::Playing));
    assert_eq!(snapshot_state(GameState::Select, 7), Some(GameState::Playing));
    assert_eq!(snapshot_state(GameState::Victory, 2), None);
}

#[test]
fn downed_markers_follow_the_host() {
    assert_eq!(downed_change(true, false), DownedChange::GoDown);
    assert_eq!(downed_change(false, true), DownedChange::GetUp);
    assert_eq!(downed_change(true, true), DownedChange::Keep);
    assert_eq!(downed_change(false, false), DownedChange::Keep);
}

#[test]
fn whose_hands_drive_which_hero() {
    assert!(local_control(NetRole::Local, false, Hero::Guitarist));
    assert!(local_control(NetRole::Local, false, Hero::Drummer));
    assert!(local_control(NetRole::Host, false, Hero::Guitarist));
    assert!(!local_control(NetRole::Host, false, Hero::Drummer));
    assert!(!local_control(NetRole::Client, false, Hero::Guitarist));
    assert!(local_control(NetRole::Client, false, Hero::Drummer));
    assert!(!local_control(NetRole::Local, true, Hero::Guitarist));
    assert!(!local_control(NetRole::Local, true, Hero::Drummer));
}

#[test]
fn a_press_survives_later_frames_until_taken() {
    let mut r = RemoteInput::new();
    let jump = Buttons { fire: false, attack: false, special: false, dodge: true, build: false };
    r.receive(12, Some(jump));
    for _ in 0..5 {
        r.receive(12, Some(Buttons { fire: true, ..Buttons::none() }));
    }
    let got = r.consume().unwrap();
    assert!(got.dodge);
    assert!(got.fire);
}
