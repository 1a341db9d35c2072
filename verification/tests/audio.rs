use shooty::audio::{cues_to_play, AudioCue};

#[test]
fn a_burst_of_pops_is_capped_at_four() {
    let frame = vec![AudioCue::Pop; 10];
    assert_eq!(cues_to_play(&frame), vec![AudioCue::Pop; 4]);
}

#[test]
fn caps_are_per_class_and_keep_order() {
    let frame = vec![
        AudioCue::Shoot,
        AudioCue::HeroHurt,
        AudioCue::Shoot,
        AudioCue::Beat,
        AudioCue::Shoot,
        AudioCue::Shoot,
        AudioCue::HeroHurt,
        AudioCue::HeroHurt,
        AudioCue::ChordStab,
        AudioCue::Hit,
    ];
    assert_eq!(
        cues_to_play(&frame),
        vec![
            AudioCue::Shoot,
            AudioCue::HeroHurt,
            AudioCue::Shoot,
            AudioCue::Beat,
            AudioCue::Shoot,
            AudioCue::HeroHurt,
            AudioCue::ChordStab,
            AudioCue::Hit,
        ]
    );
}

#[test]
fn uncapped_cues_always_play_and_unknown_voices_do_not() {
    let frame = vec![
        AudioCue::VoiceCured(0),
        AudioCue::VoiceCured(4),
        AudioCue::VoiceCured(5),
        AudioCue::VoiceAllCured,
        AudioCue::Build,
        AudioCue::Build,
        AudioCue::Build,
        AudioCue::Build,
        AudioCue::Build,
    ];
    let out = cues_to_play(&frame);
    assert_eq!(out.len(), 8);
    assert!(!out.contains(&AudioCue::VoiceCured(5)));
    assert!(cues_to_play(&vec![]).is_empty());
}
