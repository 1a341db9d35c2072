use shooty::roster::{
    boxy, boxy_id, choose_gait, skin, skin_id, skin_name, voice_of, voice_wave, Doing, Gait, Pick,
    Rig, Roster, Waveform, BOXY_COUNT, SKIN_COUNT,
};
use shooty::Hero;

#[test]
fn the_playable_lineup() {
    let cast = Pick::playable();
    assert_eq!(cast.len(), 12);
    assert_eq!(cast[0], Pick::Boxy(0));
    assert_eq!(cast[4], Pick::Boxy(4));
    assert_eq!(cast[5], Pick::Skeletal(0));
    assert_eq!(cast[11], Pick::Skeletal(6));
    for p in &cast {
        assert!(!p.id().is_empty());
        assert!(!p.name().is_empty());
    }
}

#[test]
fn lookups_by_id_round_trip() {
    for i in 0..SKIN_COUNT {
        assert_eq!(skin(skin_id(i)), i);
    }
    for i in 0..BOXY_COUNT {
        assert_eq!(boxy(boxy_id(i)), i);
    }
    assert_eq!(skin_id(0), "guitarist");
    assert_eq!(skin_name(5), "Psych '60s");
    assert_eq!(boxy_id(2), "grunge");
}

#[test]
fn voices() {
    assert_eq!(voice_of("punk"), 0);
    assert_eq!(voice_of("guitarist"), 0);
    assert_eq!(voice_of("jpop"), 11);
    assert_eq!(voice_of("nobody"), 12);
    assert_eq!(voice_wave(12).name(), voice_wave(12).name());
    let _: Waveform = voice_wave(0);
}

#[test]
fn picks_know_their_rig() {
    assert_eq!(Pick::Boxy(1).rig(), Rig::Boxy);
    assert_eq!(Pick::Skeletal(1).rig(), Rig::Skeletal);
    assert!(Pick::Boxy(1).sits_visibly());
    assert!(!Pick::Skeletal(1).sits_visibly());
    assert!(Pick::Skeletal(1).hides("Pistol"));
    assert!(Pick::Skeletal(1).hides("Backpack"));
    assert!(!Pick::Skeletal(1).hides("Head"));
    assert!(!Pick::Boxy(1).hides("Pistol"));
}

#[test]
fn who_is_hidden_in_a_vehicle() {
    assert!(!Pick::Boxy(0).hidden_aboard(true, false));
    assert!(Pick::Skeletal(0).hidden_aboard(true, false));
    assert!(Pick::Boxy(0).hidden_aboard(false, true));
    assert!(!Pick::Skeletal(0).hidden_aboard(false, false));
}

#[test]
fn clips_per_rig() {
    assert_eq!(Pick::Boxy(0).clip(Gait::Drive, false), "drive");
    assert_eq!(Pick::Boxy(0).clip(Gait::Idle, true), "holding-right");
    assert_eq!(Pick::Skeletal(0).clip(Gait::Idle, true), "Idle_Gun");
    assert_eq!(Pick::Skeletal(0).clip(Gait::Melee, false), "Sword_Slash");
}

#[test]
fn gait_priority() {
    let idle = Doing {
        game_over: false,
        downed: false,
        driving: false,
        rolling: false,
        swinging: false,
        guitarist_firing: false,
        moving: false,
    };
    assert_eq!(choose_gait(idle), Gait::Idle);
    assert_eq!(choose_gait(Doing { moving: true, ..idle }), Gait::Walk);
    assert_eq!(choose_gait(Doing { moving: true, guitarist_firing: true, ..idle }), Gait::Shoot);
    assert_eq!(choose_gait(Doing { swinging: true, guitarist_firing: true, ..idle }), Gait::Melee);
    assert_eq!(choose_gait(Doing { rolling: true, swinging: true, ..idle }), Gait::Sprint);
    assert_eq!(choose_gait(Doing { driving: true, rolling: true, ..idle }), Gait::Drive);
    assert_eq!(choose_gait(Doing { downed: true, driving: true, ..idle }), Gait::Die);
    assert_eq!(choose_gait(Doing { game_over: true, ..idle }), Gait::Die);
    assert!(Gait::Walk.loops());
    assert!(!Gait::Die.loops());
}

#[test]
fn roster_reads_back_what_was_set() {
    let mut r = Roster::new();
    assert_eq!(r.of(Hero::Guitarist), Pick::Boxy(0));
    assert_eq!(r.of(Hero::Drummer), Pick::Boxy(2));
    r.set(Hero::Drummer, Pick::Skeletal(3));
    assert_eq!(r.of(Hero::Drummer), Pick::Skeletal(3));
    assert_eq!(r.of(Hero::Guitarist), Pick::Boxy(0));
}
