//! The rules of a two-hero, wave-defence band game, separated from its
//! renderer: the state machines, the network codes, the casting tables and the
//! build-phase bookkeeping, each with the contract it keeps.

use rand::Rng;
use vstd::prelude::*;

pub mod audio;
pub mod capture;
pub mod build_phase;
pub mod combat;
pub mod flow;
pub mod ghosts;
pub mod gloom;
pub mod level;
pub mod minimap;
pub mod net;
pub mod pickup;
pub mod props;
pub mod roster;
pub mod select;
pub mod text;
pub mod timer;
pub mod vehicle;
pub mod wave;

verus! {

/// Which co-op hero a player controls. P1 plays the guitarist, P2 the drummer.
#[derive(Clone, Copy, PartialEq, Eq, Debug, Structural)]
pub enum Hero {
    Guitarist,
    Drummer,
}

impl Hero {
    /// The display name of a hero.
    pub fn name(self) -> (r: &'static str)
        ensures
            r@ == hero_name(self),
    {
        match self {
            Hero::Guitarist => "Guitarist",
            Hero::Drummer => "Drummer",
        }
    }
}

/// Spec-level display name of a hero.
pub open spec fn hero_name(h: Hero) -> Seq<char> {
    match h {
        Hero::Guitarist => "Guitarist"@,
        Hero::Drummer => "Drummer"@,
    }
}


/// The top-level flow of the game.
#[derive(Clone, Copy, PartialEq, Eq, Debug, Structural)]
pub enum GameState {
    /// The character-select lineup. The game opens here.
    Select,
    Playing,
    GameOver,
    /// The band raised a full stage on linked, secured ground.
    Victory,
}

/// How many heroes are in play.
#[derive(Clone, Copy, PartialEq, Eq, Debug, Structural)]
pub enum Party {
    Solo,
    Duo,
}

impl Party {
    /// Two heroes unless told otherwise.
    pub fn default_party() -> (p: Party)
        ensures
            p == Party::Duo,
    {
        Party::Duo
    }
}

/// The camera rigs, cycled at runtime.
#[derive(Clone, Copy, PartialEq, Eq, Debug, Structural)]
pub enum CameraMode {
    /// Angled top-down, framed on the party midpoint.
    Follow,
    /// Over-the-shoulder, near street level.
    Shoulder,
    /// First person down the aim line.
    FirstPerson,
}

/// The rig after `m` in the cycle.
pub open spec fn camera_after(m: CameraMode) -> CameraMode {
    match m {
        CameraMode::Follow => CameraMode::Shoulder,
        CameraMode::Shoulder => CameraMode::FirstPerson,
        CameraMode::FirstPerson => CameraMode::Follow,
    }
}

impl CameraMode {
    /// The next rig in the cycle Follow → Shoulder → FirstPerson → Follow.
    pub fn next(self) -> (r: CameraMode)
        ensures
            r == camera_after(self),
    {
        match self {
            CameraMode::Follow => CameraMode::Shoulder,
            CameraMode::Shoulder => CameraMode::FirstPerson,
            CameraMode::FirstPerson => CameraMode::Follow,
        }
    }
}

/// Cycling the camera three times comes back to where it started, and no
/// fewer presses do.
pub proof fn lemma_camera_cycle(m: CameraMode)
    ensures
        camera_after(camera_after(camera_after(m))) == m,
        camera_after(m) != m,
        camera_after(camera_after(m)) != m,
{
}

/// The four tiers of enemy.
#[derive(Clone, Copy, PartialEq, Eq, Debug, Structural)]
pub enum EnemyKind {
    /// A walking dark clone. The bulk of a wave.
    Mood,
    /// Just the head, detached and drifting.
    Head,
    /// Hangs back and throws a bolt.
    Heckler,
    /// An oversized clone that soaks fire.
    Sink,
}

/// The wire byte of each tier.
pub open spec fn enemy_kind_code(k: EnemyKind) -> u8 {
    match k {
        EnemyKind::Mood => 0,
        EnemyKind::Head => 1,
        EnemyKind::Heckler => 2,
        EnemyKind::Sink => 3,
    }
}

/// The tier a wire byte decodes to; anything unknown is a plain mood.
pub open spec fn enemy_kind_of(v: u8) -> EnemyKind {
    if v == 1 {
        EnemyKind::Head
    } else if v == 2 {
        EnemyKind::Heckler
    } else if v == 3 {
        EnemyKind::Sink
    } else {
        EnemyKind::Mood
    }
}

/// Scrap an enemy of each tier is worth.
pub open spec fn scrap_of(k: EnemyKind) -> u32 {
    match k {
        EnemyKind::Mood | EnemyKind::Head => 1,
        EnemyKind::Heckler => 3,
        EnemyKind::Sink => 5,
    }
}

impl EnemyKind {
    /// Decode a replicated tier.
    pub fn from_u8(v: u8) -> (k: EnemyKind)
        ensures
            k == enemy_kind_of(v),
    {
        if v == 1 {
            EnemyKind::Head
        } else if v == 2 {
            EnemyKind::Heckler
        } else if v == 3 {
            EnemyKind::Sink
        } else {
            EnemyKind::Mood
        }
    }

    /// Encode a tier for replication.
    pub fn to_u8(self) -> (v: u8)
        ensures
            v == enemy_kind_code(self),
    {
        match self {
            EnemyKind::Mood => 0,
            EnemyKind::Head => 1,
            EnemyKind::Heckler => 2,
            EnemyKind::Sink => 3,
        }
    }

    /// Is this tier the boxy body walking upright, rather than a loose head?
    pub fn is_humanoid(self) -> (r: bool)
        ensures
            r == (self != EnemyKind::Head),
    {
        match self {
            EnemyKind::Mood | EnemyKind::Heckler | EnemyKind::Sink => true,
            EnemyKind::Head => false,
        }
    }

    /// How much scrap this tier drops.
    pub fn scrap(self) -> (v: u32)
        ensures
            v == scrap_of(self),
    {
        match self {
            EnemyKind::Mood | EnemyKind::Head => 1,
            EnemyKind::Heckler => 3,
            EnemyKind::Sink => 5,
        }
    }
}

/// Every tier survives a trip over the wire, and every wire byte decodes to a
/// tier whose code is the byte or, for an unknown byte, a plain mood.
pub proof fn lemma_enemy_kind_round_trip(k: EnemyKind, v: u8)
    ensures
        enemy_kind_of(enemy_kind_code(k)) == k,
        v <= 3 ==> enemy_kind_code(enemy_kind_of(v)) == v,
        v > 3 ==> enemy_kind_of(v) == EnemyKind::Mood,
{
}

/// A random number below `n`, drawn from the thread's generator.
///
/// Calls `rand::Rng::gen_range(0..n)` on `rand::thread_rng()`. The contract
/// claims only what every draw satisfies: the result lies in `0..n`.
#[verifier::external_body]
pub(crate) fn roll_below(n: u32) -> (r: u32)
    requires
        n > 0,
    ensures
        r < n,
{
    rand::thread_rng().gen_range(0..n)
}

/// The score of a run.
pub struct Score {
    pub kills: u32,
}

impl Score {
    /// A fresh run's score.
    pub fn new() -> (s: Score)
        ensures
            s.kills == 0,
    {
        Score { kills: 0 }
    }

    /// Count one dispelled enemy.
    pub fn add_kill(&mut self)
        requires
            old(self).kills < u32::MAX,
        ensures
            final(self).kills == old(self).kills + 1,
    {
        self.kills = self.kills + 1;
    }
}

} // verus!
