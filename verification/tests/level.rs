use shooty::level::{level_from_setting, LevelId};

#[test]
fn level_names() {
    assert_eq!(LevelId::Town.name(), "town");
    assert_eq!(LevelId::World.name(), "world");
    assert_eq!(LevelId::all(), vec![LevelId::Town, LevelId::World]);
    assert_eq!(LevelId::default_level(), LevelId::Town);
}

#[test]
fn levels_are_found_by_name_ignoring_case() {
    assert_eq!(LevelId::from_name("town"), Some(LevelId::Town));
    assert_eq!(LevelId::from_name("WORLD"), Some(LevelId::World));
    assert_eq!(LevelId::from_name("WoRlD"), Some(LevelId::World));
    assert_eq!(LevelId::from_name("moon"), None);
    assert_eq!(LevelId::from_name(""), None);
    for id in LevelId::all() {
        assert_eq!(LevelId::from_name(id.name()), Some(id));
    }
}

#[test]
fn launch_setting() {
    assert_eq!(level_from_setting(None), (LevelId::Town, false));
    assert_eq!(level_from_setting(Some("World")), (LevelId::World, false));
    assert_eq!(level_from_setting(Some("atlantis")), (LevelId::Town, true));
}
