use shooty::gloom::{count_crowds, stem, Chorus, GloomSource, Mood, STEM_COUNT};

#[test]
fn stems_in_wake_order() {
    let names: Vec<&str> = (0..STEM_COUNT).map(stem).collect();
    assert_eq!(names, vec!["hiphop", "techno", "disco", "country", "jpop"]);
}

#[test]
fn mood_levels() {
    assert!(!Mood::Dormant.cured());
    assert!(!Mood::Brooding.cured());
    assert!(Mood::Marching.cured());
    assert!(Mood::Happy.cured());
    assert_eq!(Mood::Brooding.stem_target(), 0);
    assert_eq!(Mood::Marching.stem_target(), 600);
    assert_eq!(Mood::Happy.stem_target(), 1000);
}

#[test]
fn a_source_wakes_vents_and_is_cured() {
    let mut g = GloomSource::new(2);
    assert_eq!(g.mood, Mood::Dormant);
    assert!(!g.track(false, 0));
    assert_eq!(g.mood, Mood::Dormant);
    // A hero walks up: it wakes, but nothing was seen yet, so no cure.
    assert!(!g.track(true, 0));
    assert_eq!(g.mood, Mood::Brooding);
    assert!(!g.track(false, 12));
    assert!(g.seen);
    assert!(!g.track(false, 3));
    // The last of its crowd is gone.
    assert!(g.track(false, 0));
    assert_eq!(g.mood, Mood::Marching);
    // Cured once only.
    assert!(!g.track(true, 0));
    g.arrive(false);
    assert_eq!(g.mood, Mood::Marching);
    g.arrive(true);
    assert_eq!(g.mood, Mood::Happy);
    assert_eq!(g.idx, 2);
}

#[test]
fn arriving_only_matters_while_marching() {
    let mut g = GloomSource::new(0);
    g.arrive(true);
    assert_eq!(g.mood, Mood::Dormant);
}

#[test]
fn crowds_are_counted_per_source() {
    assert_eq!(count_crowds(&vec![0, 0, 3, 4, 4, 4, 9]), vec![2, 0, 0, 1, 3]);
    assert_eq!(count_crowds(&vec![]), vec![0, 0, 0, 0, 0]);
}

#[test]
fn the_chorus_completes_with_all_five() {
    let mut c = Chorus::new();
    assert!(!c.complete());
    c.recount(&vec![Mood::Happy, Mood::Marching, Mood::Brooding, Mood::Happy, Mood::Dormant]);
    assert_eq!(c.cured, 3);
    assert!(!c.complete());
    c.recount(&vec![Mood::Happy; 5]);
    assert_eq!(c.cured, 5);
    assert!(c.complete());
}
