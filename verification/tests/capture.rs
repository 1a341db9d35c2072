use shooty::capture::{
    bot_plays, capture_args, opening_state, showcase_camera, CaptureMode, CaptureRun, VictoryHold,
    DEFAULT_FRAMES, OVERRUN, PRE_ROLL, RIG_HOLD, VICTORY_HOLD,
};
use shooty::{CameraMode, GameState};

fn args(a: &[&str]) -> Vec<String> {
    a.iter().map(|s| s.to_string()).collect()
}

#[test]
fn command_line() {
    let a = capture_args(&args(&[]));
    assert_eq!(a.mode, CaptureMode::Frames);
    assert_eq!(a.out_dir, "screenshots/run");
    assert_eq!(a.frames, DEFAULT_FRAMES);
    let a = capture_args(&args(&["gloom", "shots/g", "600"]));
    assert_eq!(a.mode, CaptureMode::Gloom);
    assert_eq!(a.out_dir, "shots/g");
    assert_eq!(a.frames, 600);
    let a = capture_args(&args(&["map", "m", "lots"]));
    assert_eq!(a.mode, CaptureMode::Aerial);
    assert_eq!(a.frames, 450);
    assert_eq!(capture_args(&args(&["frames"])).mode, CaptureMode::Frames);
    assert_eq!(capture_args(&args(&["select"])).mode, CaptureMode::Select);
    assert_eq!(capture_args(&args(&["fly"])).mode, CaptureMode::Fly);
    assert_eq!(capture_args(&args(&["credits"])).mode, CaptureMode::Credits);
    assert_eq!(capture_args(&args(&["Select"])).mode, CaptureMode::Frames);
}

#[test]
fn where_a_recording_opens() {
    assert_eq!(opening_state(CaptureMode::Select), GameState::Select);
    assert_eq!(opening_state(CaptureMode::Credits), GameState::Select);
    assert_eq!(opening_state(CaptureMode::Fly), GameState::Playing);
    assert!(bot_plays(CaptureMode::Frames));
    assert!(bot_plays(CaptureMode::Aerial));
    assert!(!bot_plays(CaptureMode::Select));
}

#[test]
fn frames_are_saved_after_the_pre_roll_up_to_the_target() {
    let mut c = CaptureRun::new(3);
    let mut offered = vec![];
    for _ in 0..(PRE_ROLL + 10) {
        assert_eq!(c.frozen(), c.frame < PRE_ROLL);
        if let Some(n) = c.next_frame() {
            offered.push(n);
            c.saved_one();
        }
    }
    assert_eq!(offered, vec![1, 2, 3]);
    assert!(c.done());
}

#[test]
fn a_lost_save_stops_the_run_after_the_overrun() {
    let mut c = CaptureRun::new(2);
    while c.frame < PRE_ROLL + 2 + OVERRUN {
        c.next_frame();
        assert!(!c.done());
    }
    c.next_frame();
    assert!(c.done());
}

#[test]
fn showcase_rigs_take_turns() {
    assert_eq!(showcase_camera(0), CameraMode::Follow);
    assert_eq!(showcase_camera(RIG_HOLD - 1), CameraMode::Follow);
    assert_eq!(showcase_camera(RIG_HOLD), CameraMode::Shoulder);
    assert_eq!(showcase_camera(2 * RIG_HOLD), CameraMode::FirstPerson);
    assert_eq!(showcase_camera(3 * RIG_HOLD + 5), CameraMode::Follow);
}

#[test]
fn the_win_screen_is_held_then_the_run_loops() {
    let mut v = VictoryHold::new();
    assert!(!v.tick(true, VICTORY_HOLD));
    assert!(v.tick(true, 1));
    assert_eq!(v.held, 0);
    assert!(!v.tick(true, 10));
    assert!(!v.tick(false, 10));
    assert_eq!(v.held, 0);
}
