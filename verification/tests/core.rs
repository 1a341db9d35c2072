use shooty::{CameraMode, EnemyKind, GameState, Hero, Party, Score};

#[test]
fn hero_names() {
    assert_eq!(Hero::Guitarist.name(), "Guitarist");
    assert_eq!(Hero::Drummer.name(), "Drummer");
}

#[test]
fn party_defaults_to_duo() {
    assert_eq!(Party::default_party(), Party::Duo);
}

#[test]
fn camera_cycles_through_three_rigs() {
    let m = CameraMode::Follow;
    assert_eq!(m.next(), CameraMode::Shoulder);
    assert_eq!(m.next().next(), CameraMode::FirstPerson);
    assert_eq!(m.next().next().next(), CameraMode::Follow);
    for start in [CameraMode::Follow, CameraMode::Shoulder, CameraMode::FirstPerson] {
        assert_ne!(start.next(), start);
        assert_ne!(start.next().next(), start);
        assert_eq!(start.next().next().next(), start);
    }
}

#[test]
fn enemy_kinds_round_trip_over_the_wire() {
    for k in [EnemyKind::Mood, EnemyKind::Head, EnemyKind::Heckler, EnemyKind::Sink] {
        assert_eq!(EnemyKind::from_u8(k.to_u8()), k);
    }
    assert_eq!(EnemyKind::Mood.to_u8(), 0);
    assert_eq!(EnemyKind::Head.to_u8(), 1);
    assert_eq!(EnemyKind::Heckler.to_u8(), 2);
    assert_eq!(EnemyKind::Sink.to_u8(), 3);
    for v in 4..=255u8 {
        assert_eq!(EnemyKind::from_u8(v), EnemyKind::Mood);
    }
}

#[test]
fn scrap_by_tier() {
    assert_eq!(EnemyKind::Mood.scrap(), 1);
    assert_eq!(EnemyKind::Head.scrap(), 1);
    assert_eq!(EnemyKind::Heckler.scrap(), 3);
    assert_eq!(EnemyKind::Sink.scrap(), 5);
}

#[test]
fn score_counts_kills() {
    let mut s = Score::new();
    assert_eq!(s.kills, 0);
    s.add_kill();
    s.add_kill();
    assert_eq!(s.kills, 2);
}

#[test]
fn game_states_are_distinct() {
    assert_ne!(GameState::Select, GameState::Playing);
    assert_ne!(GameState::GameOver, GameState::Victory);
}

#[test]
fn only_heads_are_not_humanoid() {
    assert!(EnemyKind::Mood.is_humanoid());
    assert!(EnemyKind::Heckler.is_humanoid());
    assert!(EnemyKind::Sink.is_humanoid());
    assert!(!EnemyKind::Head.is_humanoid());
}
