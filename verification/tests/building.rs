use shooty::build_phase::{
    build_choice, largest_network, music_level, zones_to_raise, BuildSite, Pitch, Scrap,
    SpeakerNet, StructureKind, SPEAKER_CHANNEL, SPEAKER_COST, STAGE_CHANNEL, STAGE_COST,
};
use shooty::{Hero, Party};

fn open_pitch() -> Pitch {
    Pitch { in_reach: true, site_crowded: false, speaker_crowded: false }
}

#[test]
fn costs() {
    assert_eq!(StructureKind::Speaker.cost(), 18);
    assert_eq!(StructureKind::Stage.cost(), 60);
}

#[test]
fn who_builds_what() {
    assert_eq!(build_choice(Hero::Drummer, Party::Duo, 0, false), StructureKind::Stage);
    assert_eq!(build_choice(Hero::Guitarist, Party::Duo, 5, false), StructureKind::Speaker);
    assert_eq!(build_choice(Hero::Guitarist, Party::Solo, 2, false), StructureKind::Speaker);
    assert_eq!(build_choice(Hero::Guitarist, Party::Solo, 3, false), StructureKind::Stage);
    assert_eq!(build_choice(Hero::Guitarist, Party::Solo, 3, true), StructureKind::Speaker);
}

#[test]
fn scrap_pays_for_a_speaker() {
    let mut s = Scrap::new();
    s.deposit(20);
    assert!(s.try_place(StructureKind::Speaker, open_pitch(), 0, false));
    assert_eq!(s.amount, 20 - SPEAKER_COST);
    // Not enough left for a second one.
    assert!(!s.try_place(StructureKind::Speaker, open_pitch(), 0, false));
    assert_eq!(s.amount, 2);
}

#[test]
fn refused_placements_cost_nothing() {
    let mut s = Scrap::new();
    s.deposit(100);
    let far = Pitch { in_reach: false, ..open_pitch() };
    assert!(!s.try_place(StructureKind::Speaker, far, 0, false));
    let busy = Pitch { site_crowded: true, ..open_pitch() };
    assert!(!s.try_place(StructureKind::Speaker, busy, 0, false));
    let crowded = Pitch { speaker_crowded: true, ..open_pitch() };
    assert!(!s.try_place(StructureKind::Speaker, crowded, 0, false));
    // A crowding loudspeaker does not stop a stage.
    assert!(!s.try_place(StructureKind::Stage, crowded, 2, false));
    assert!(!s.try_place(StructureKind::Stage, crowded, 3, true));
    assert_eq!(s.amount, 100);
    assert!(s.try_place(StructureKind::Stage, crowded, 3, false));
    assert_eq!(s.amount, 100 - STAGE_COST);
}

#[test]
fn largest_network_groups_linked_speakers() {
    assert_eq!(largest_network(0, &vec![]), 0);
    assert_eq!(largest_network(4, &vec![]), 1);
    assert_eq!(largest_network(5, &vec![(0, 1), (1, 2), (3, 4)]), 3);
    assert_eq!(largest_network(5, &vec![(0, 1), (3, 4), (1, 4)]), 4);
    assert_eq!(largest_network(3, &vec![(0, 0)]), 1);
}

#[test]
fn network_from_ranges() {
    let close = vec![
        vec![false, true, false, false],
        vec![true, false, true, false],
        vec![false, true, false, false],
        vec![false, false, false, false],
    ];
    let net = SpeakerNet::from_ranges(&close);
    assert_eq!(net.links, vec![(0, 1), (1, 2)]);
    assert_eq!(net.largest, 3);
    assert!(net.stage_ready());
    let empty = SpeakerNet::empty();
    assert_eq!(empty.largest, 0);
    assert!(!empty.stage_ready());
}

#[test]
fn one_hero_raises_a_speaker_in_its_channel_time() {
    let mut site = BuildSite::new(StructureKind::Speaker);
    assert_eq!(site.kind(), StructureKind::Speaker);
    assert_eq!(site.progress_permille(), 0);
    assert!(!site.channel(1, SPEAKER_CHANNEL / 2));
    assert_eq!(site.progress_permille(), 500);
    assert!(site.channel(1, SPEAKER_CHANNEL / 2));
    assert_eq!(site.progress_permille(), 1000);
}

#[test]
fn two_heroes_build_faster_and_an_empty_site_decays() {
    let mut a = BuildSite::new(StructureKind::Stage);
    let mut b = BuildSite::new(StructureKind::Stage);
    a.channel(1, 1_000_000_000);
    b.channel(2, 1_000_000_000);
    assert!(b.progress_permille() > a.progress_permille());
    let before = a.progress_permille();
    assert!(!a.channel(0, 1_000_000_000));
    assert!(a.progress_permille() < before);
    // Decay stops at nothing.
    a.channel(0, STAGE_CHANNEL * 10);
    assert_eq!(a.progress_permille(), 0);
    // A very long frame finishes it outright.
    assert!(a.channel(3, u64::MAX));
}

#[test]
fn music_level_ramps_with_secured_ground() {
    assert_eq!(music_level(&vec![]), 0);
    assert_eq!(music_level(&vec![false]), 1375);
    assert_eq!(music_level(&vec![false, false, false, false, false]), 5500);
    assert_eq!(music_level(&vec![false, true]), 2 * 1375 + 3500);
    assert_eq!(music_level(&vec![false, false, false, false, true]), 9000);
    assert_eq!(music_level(&vec![true; 9]), 9000);
}

#[test]
fn zones_are_raised_once_each() {
    let zones = vec![false, false, true];
    let (todo, done) = zones_to_raise(0, &zones);
    assert_eq!(todo, vec![StructureKind::Speaker, StructureKind::Speaker, StructureKind::Stage]);
    assert_eq!(done, 3);
    let (todo, done) = zones_to_raise(done, &zones);
    assert!(todo.is_empty());
    assert_eq!(done, 3);
    let more = vec![false, false, true, false];
    let (todo, done) = zones_to_raise(done, &more);
    assert_eq!(todo, vec![StructureKind::Speaker]);
    assert_eq!(done, 4);
    let (todo, done) = zones_to_raise(9, &more);
    assert!(todo.is_empty());
    assert_eq!(done, 9);
}

#[test]
fn more_ground_never_quietens_the_music() {
    let mut zones = vec![];
    let mut last = music_level(&zones);
    for z in [false, true, false, false, true, false, false] {
        zones.push(z);
        let now = music_level(&zones);
        assert!(now >= last);
        last = now;
    }
    assert_eq!(last, 9000);
}
