//! Which places exist, and how a run picks one by name.

use vstd::prelude::*;

use crate::text::{eq_ignore_ascii_case, same_ignoring_ascii_case};

verus! {

/// The environments a run can happen in.
#[derive(Clone, Copy, PartialEq, Eq, Debug, Structural)]
pub enum LevelId {
    /// The tuned mission map: one town, wave loop, five gloom sources.
    Town,
    /// The big linked world: a sandbox with no wave loop.
    World,
}

/// A level's name: lower-case, one word.
pub open spec fn level_name(id: LevelId) -> Seq<char> {
    match id {
        LevelId::Town => "town"@,
        LevelId::World => "world"@,
    }
}

/// The level a name picks, ignoring ASCII case: the first level, in the order
/// town then world, whose name it matches.
pub open spec fn level_named(name: Seq<char>) -> Option<LevelId> {
    if same_ignoring_ascii_case(level_name(LevelId::Town), name) {
        Some(LevelId::Town)
    } else if same_ignoring_ascii_case(level_name(LevelId::World), name) {
        Some(LevelId::World)
    } else {
        None
    }
}

impl LevelId {
    /// The level a run opens in when nothing else is asked for.
    pub fn default_level() -> (r: LevelId)
        ensures
            r == LevelId::Town,
    {
        LevelId::Town
    }

    /// Every level, in the order they are looked up.
    pub fn all() -> (r: Vec<LevelId>)
        ensures
            r@ == seq![LevelId::Town, LevelId::World],
    {
        vec![LevelId::Town, LevelId::World]
    }

    /// The level's name.
    pub fn name(self) -> (r: &'static str)
        ensures
            r@ == level_name(self),
    {
        match self {
            LevelId::Town => "town",
            LevelId::World => "world",
        }
    }

    /// Look a level up by its name, ignoring ASCII case.
    pub fn from_name(name: &str) -> (r: Option<LevelId>)
        ensures
            r == level_named(name@),
    {
        if eq_ignore_ascii_case("town", name) {
            Some(LevelId::Town)
        } else if eq_ignore_ascii_case("world", name) {
            Some(LevelId::World)
        } else {
            None
        }
    }
}

/// The level a launch setting picks, and whether the setting named no level
/// (which is worth a warning). No setting, or an unknown name, gives the
/// default level.
pub fn level_from_setting(setting: Option<&str>) -> (r: (LevelId, bool))
    ensures
        r == match setting {
            None => (LevelId::Town, false),
            Some(s) => match level_named(s@) {
                Some(id) => (id, false),
                None => (LevelId::Town, true),
            },
        },
{
    match setting {
        None => (LevelId::default_level(), false),
        Some(s) => match LevelId::from_name(s) {
            Some(id) => (id, false),
            None => (LevelId::default_level(), true),
        },
    }
}

/// Every level is found again by its own name.
pub proof fn lemma_level_names_round_trip(id: LevelId)
    ensures
        level_named(level_name(id)) == Some(id),
{
    reveal_strlit("town");
    reveal_strlit("world");
}

} // verus!
