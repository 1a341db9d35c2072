//! Who is still standing, the drummer's click track and kit, and the dodge
//! roll: the discrete half of the fight. Where an enemy is and whether a hit
//! lands are geometry and stay with the renderer; what follows from a hit is
//! decided here.

use vstd::prelude::*;

use crate::timer::{Countdown, ticked};
use crate::wave::MILLI;

verus! {

// ---------------------------------------------------------------------------
// Going down
// ---------------------------------------------------------------------------

/// A hero as the end-of-frame check sees them.
#[derive(Clone, Copy, PartialEq, Eq, Debug, Structural)]
pub struct Standing {
    /// Already down, waiting for a revive.
    pub downed: bool,
    /// Health has reached zero.
    pub spent: bool,
}

/// A hero is out: down already, or out of health.
pub open spec fn is_out(h: Standing) -> bool {
    h.downed || h.spent
}

/// The run is lost when there is a party and every one of them is out.
pub open spec fn party_lost(heroes: Seq<Standing>) -> bool {
    heroes.len() > 0 && forall|i: int| 0 <= i < heroes.len() ==> is_out(#[trigger] heroes[i])
}

/// The end-of-frame check on the party: which heroes go down this frame (out
/// of health and not down yet), and whether the run is over because every
/// hero is out. A hero at zero goes down but the run continues while a
/// team-mate stands.
pub fn party_check(heroes: &Vec<Standing>) -> (r: (Vec<bool>, bool))
    ensures
        r.0@.len() == heroes@.len(),
        forall|i: int|
            0 <= i < heroes@.len() ==> #[trigger] r.0@[i] == (!heroes@[i].downed
                && heroes@[i].spent),
        r.1 == party_lost(heroes@),
{
    let mut goes_down: Vec<bool> = Vec::new();
    let mut all_out = true;
    let mut i: usize = 0;
    while i < heroes.len()
        invariant
            0 <= i <= heroes@.len(),
            goes_down@.len() == i,
            forall|j: int|
                0 <= j < i ==> #[trigger] goes_down@[j] == (!heroes@[j].downed
                    && heroes@[j].spent),
            all_out == forall|j: int| 0 <= j < i ==> is_out(#[trigger] heroes@[j]),
        decreases heroes@.len() - i,
    {
        let h = heroes[i];
        goes_down.push(!h.downed && h.spent);
        all_out = all_out && (h.downed || h.spent);
        i = i + 1;
    }
    (goes_down, all_out && heroes.len() > 0)
}

// ---------------------------------------------------------------------------
// Getting back up
// ---------------------------------------------------------------------------

/// How long, in nanoseconds, a standing team-mate has to stay over a downed
/// hero to revive them.
pub const REVIVE_TIME: u64 = 2_200_000_000;

/// A downed hero's revive progress after a frame of `dt` nanoseconds: it
/// builds while a standing team-mate is within reach and drains at six tenths
/// of that pace (rounded down) when nobody is, never below nothing.
pub open spec fn revive_after(progress: u64, helped: bool, dt: u64) -> int {
    if helped {
        progress + dt
    } else if progress < dt * 3 / 5 {
        0
    } else {
        progress - dt * 3 / 5
    }
}

/// The revive progress of a downed hero, in nanoseconds of help received.
pub struct Revive {
    pub progress: u64,
}

impl Revive {
    /// A hero who has just gone down.
    pub fn new() -> (r: Revive)
        ensures
            r.progress == 0,
    {
        Revive { progress: 0 }
    }

    /// How far along the revive is, in whole percent (past 100 once complete).
    pub fn percent(&self) -> (p: u64)
        ensures
            p == self.progress as int * 100 / REVIVE_TIME as int,
    {
        self.progress / 22_000_000
    }

    /// Advance the revive by a frame; says whether the hero is back up, which
    /// happens once the progress reaches [`REVIVE_TIME`].
    pub fn tick(&mut self, helped: bool, dt: u64) -> (up: bool)
        requires
            old(self).progress + dt <= u64::MAX,
        ensures
            final(self).progress == revive_after(old(self).progress, helped, dt),
            up == (helped && final(self).progress >= REVIVE_TIME),
    {
        if helped {
            self.progress = self.progress + dt;
            self.progress >= REVIVE_TIME
        } else {
            let drain: u64 = dt / 5 * 3 + dt % 5 * 3 / 5;
            proof {
                assert(drain == dt * 3 / 5) by (nonlinear_arith)
                    requires
                        drain == dt / 5 * 3 + dt % 5 * 3 / 5,
                        dt >= 0,
                ;
            }
            self.progress = if self.progress < drain { 0 } else { self.progress - drain };
            false
        }
    }
}

/// Help only ever moves a revive forward and its absence only back; a hero
/// helped without a break for the whole revive time is back up.
pub proof fn lemma_revive_pace(progress: u64, dt: u64, first: u64, second: u64)
    ensures
        revive_after(progress, true, dt) >= progress,
        revive_after(progress, false, dt) <= progress,
        first + second >= REVIVE_TIME && first + second <= u64::MAX ==> revive_after(
            revive_after(0, true, first) as u64,
            true,
            second,
        ) >= REVIVE_TIME,
{
}

// ---------------------------------------------------------------------------
// The click track
// ---------------------------------------------------------------------------

/// The drummer's beat interval at 124 beats per minute, in nanoseconds.
pub const BEAT: u64 = 483_870_967;

/// The click track: `count` goes up every beat; every fourth is a downbeat.
pub struct Beat {
    pub timer: Countdown,
    pub count: u32,
}

/// Is beat number `count` a downbeat?
pub open spec fn is_downbeat(count: u32) -> bool {
    count % 4 == 0
}

/// The count after one more beat, wrapping round.
pub open spec fn next_count(count: u32) -> u32 {
    if count == u32::MAX {
        0
    } else {
        (count + 1) as u32
    }
}

impl Beat {
    /// A new run's click track.
    pub fn new() -> (b: Beat)
        ensures
            b.count == 0,
            b.timer == Countdown::repeating_spec(BEAT),
    {
        Beat { timer: Countdown::repeating(BEAT), count: 0 }
    }

    /// Let `dt` nanoseconds pass. When the click goes off, count the beat and
    /// say whether it is a downbeat; otherwise `None`.
    pub fn tick(&mut self, dt: u64) -> (r: Option<bool>)
        ensures
            final(self).timer == ticked(old(self).timer, dt),
            final(self).timer.times_this_tick > 0 ==> final(self).count == next_count(
                old(self).count,
            ) && r == Some(is_downbeat(final(self).count)),
            final(self).timer.times_this_tick == 0 ==> final(self).count == old(self).count && r
                is None,
    {
        self.timer.tick(dt);
        if !self.timer.just_finished() {
            return None;
        }
        self.count = self.count.wrapping_add(1);
        Some(self.count % 4 == 0)
    }
}

/// Every fourth beat is a downbeat, also across the counter wrapping: of any
/// four beats in a row exactly one is a downbeat.
pub proof fn lemma_one_downbeat_in_four(c: u32)
    ensures
        ({
            let c1 = next_count(c);
            let c2 = next_count(c1);
            let c3 = next_count(c2);
            let c4 = next_count(c3);
            &&& is_downbeat(c4) == is_downbeat(c)
            &&& (if is_downbeat(c1) {
                1int
            } else {
                0
            }) + (if is_downbeat(c2) {
                1int
            } else {
                0
            }) + (if is_downbeat(c3) {
                1int
            } else {
                0
            }) + (if is_downbeat(c4) {
                1int
            } else {
                0
            }) == 1
        }),
{
}

// ---------------------------------------------------------------------------
// The drum kit
// ---------------------------------------------------------------------------

/// How long a drumstick swing's arc is live.
pub const SWING_ACTIVE: u64 = 340 * MILLI;
/// Cooldown between swings.
pub const SWING_COOLDOWN: u64 = 520 * MILLI;
/// Cooldown between beat slams.
pub const SLAM_COOLDOWN: u64 = 3200 * MILLI;

/// The drummer's action state: a swing in progress and the two cooldowns.
#[derive(Clone, Copy, PartialEq, Eq, Debug, Structural)]
pub struct DrumKit {
    /// `Some` while a swing is playing out.
    pub swing: Option<Countdown>,
    pub swing_cd: Countdown,
    pub slam_cd: Countdown,
}

/// What the drummer did this frame.
#[derive(Clone, Copy, PartialEq, Eq, Debug, Structural)]
pub struct DrumActs {
    /// A beat slam went off.
    pub slam: bool,
    /// A new swing began.
    pub swing_started: bool,
    /// A swing's arc is live this frame (hits are checked against it).
    pub swinging: bool,
}

/// One frame of the drum kit.
pub open spec fn drum_step(k: DrumKit, dt: u64, special: bool, attack: bool, facing: bool) -> (
    DrumKit,
    DrumActs,
) {
    let swing_cd = ticked(k.swing_cd, dt);
    let slam_cd0 = ticked(k.slam_cd, dt);
    let slam = special && slam_cd0.finished;
    let slam_cd = if slam {
        Countdown { elapsed: 0, finished: false, times_this_tick: 0, ..slam_cd0 }
    } else {
        slam_cd0
    };
    let start = attack && k.swing is None && swing_cd.finished && facing;
    let swing0 = if start {
        Some(Countdown::once_spec(SWING_ACTIVE))
    } else {
        k.swing
    };
    let swing_cd2 = if start {
        Countdown::once_spec(SWING_COOLDOWN)
    } else {
        swing_cd
    };
    match swing0 {
        Some(s) => {
            let s2 = ticked(s, dt);
            (
                DrumKit { swing: if s2.finished { None } else { Some(s2) }, swing_cd: swing_cd2, slam_cd },
                DrumActs { slam, swing_started: start, swinging: true },
            )
        },
        None => (
            DrumKit { swing: None, swing_cd: swing_cd2, slam_cd },
            DrumActs { slam, swing_started: start, swinging: false },
        ),
    }
}

impl DrumKit {
    /// A fresh kit: no swing, both cooldowns ready.
    pub fn new() -> (k: DrumKit)
        ensures
            k.swing is None,
            k.swing_cd == Countdown::spent_spec(SWING_COOLDOWN),
            k.slam_cd == Countdown::spent_spec(SLAM_COOLDOWN),
    {
        DrumKit {
            swing: None,
            swing_cd: Countdown::spent(SWING_COOLDOWN),
            slam_cd: Countdown::spent(SLAM_COOLDOWN),
        }
    }

    /// Is a swing mid-animation?
    pub fn is_swinging(&self) -> (r: bool)
        ensures
            r == self.swing is Some,
    {
        self.swing.is_some()
    }

    /// One frame: tick the cooldowns, slam on a special press when ready,
    /// start a swing on an attack press when none is playing, the cooldown is
    /// done and there is a direction to swing in, and play the swing out.
    pub fn act(&mut self, dt: u64, special: bool, attack: bool, facing: bool) -> (acts: DrumActs)
        ensures
            (*final(self), acts) == drum_step(*old(self), dt, special, attack, facing),
    {
        self.swing_cd.tick(dt);
        self.slam_cd.tick(dt);
        let slam = special && self.slam_cd.is_finished();
        if slam {
            self.slam_cd.reset();
        }
        let start = attack && self.swing.is_none() && self.swing_cd.is_finished() && facing;
        if start {
            self.swing = Some(Countdown::once(SWING_ACTIVE));
            self.swing_cd = Countdown::once(SWING_COOLDOWN);
        }
        match self.swing {
            Some(s) => {
                let mut s2 = s;
                s2.tick(dt);
                self.swing = if s2.is_finished() {
                    None
                } else {
                    Some(s2)
                };
                DrumActs { slam, swing_started: start, swinging: true }
            },
            None => DrumActs { slam, swing_started: start, swinging: false },
        }
    }
}

// ---------------------------------------------------------------------------
// Dodge
// ---------------------------------------------------------------------------

/// How long a dodge roll lasts.
pub const ROLL_TIME: u64 = 220 * MILLI;
/// Cooldown between rolls.
pub const ROLL_COOLDOWN: u64 = 750 * MILLI;

/// A hero's dodge roll: its cooldown, and the roll in progress if any.
#[derive(Clone, Copy, PartialEq, Eq, Debug, Structural)]
pub struct Dodge {
    pub cooldown: Countdown,
    pub active: Option<Countdown>,
}

/// What a hero's body is doing besides walking.
#[derive(Clone, Copy, PartialEq, Eq, Debug, Structural)]
pub enum Body {
    /// On foot and able to act.
    Afoot,
    /// In a car or an aircraft.
    Seated,
    /// Down, waiting for a revive.
    Downed,
}

/// One frame of the dodge.
pub open spec fn dodge_step(d: Dodge, dt: u64, body: Body, pressed: bool) -> (Dodge, bool) {
    let cd = ticked(d.cooldown, dt);
    match body {
        Body::Seated => (Dodge { cooldown: cd, ..d }, false),
        Body::Downed => (Dodge { cooldown: cd, active: None }, false),
        Body::Afoot => {
            let start = pressed && d.active is None && cd.finished;
            let (cd2, act) = if start {
                (Countdown::once_spec(ROLL_COOLDOWN), Some(Countdown::once_spec(ROLL_TIME)))
            } else {
                (cd, d.active)
            };
            match act {
                Some(r) => {
                    let r2 = ticked(r, dt);
                    (
                        Dodge { cooldown: cd2, active: if r2.finished { None } else { Some(r2) } },
                        start,
                    )
                },
                None => (Dodge { cooldown: cd2, active: None }, start),
            }
        },
    }
}

impl Dodge {
    /// Ready to roll.
    pub fn new() -> (d: Dodge)
        ensures
            d.cooldown == Countdown::spent_spec(ROLL_COOLDOWN),
            d.active is None,
    {
        Dodge { cooldown: Countdown::spent(ROLL_COOLDOWN), active: None }
    }

    /// Mid-roll: the hero cannot be hurt.
    pub fn is_rolling(&self) -> (r: bool)
        ensures
            r == self.active is Some,
    {
        self.active.is_some()
    }

    /// One frame: tick the cooldown; a seated hero does nothing, a downed hero
    /// stops rolling, and a hero on foot starts a roll on a press when not
    /// rolling and the cooldown is done. Returns whether a roll began.
    pub fn step(&mut self, dt: u64, body: Body, pressed: bool) -> (started: bool)
        ensures
            (*final(self), started) == dodge_step(*old(self), dt, body, pressed),
    {
        self.cooldown.tick(dt);
        match body {
            Body::Seated => false,
            Body::Downed => {
                self.active = None;
                false
            },
            Body::Afoot => {
                let start = pressed && self.active.is_none() && self.cooldown.is_finished();
                if start {
                    self.active = Some(Countdown::once(ROLL_TIME));
                    self.cooldown = Countdown::once(ROLL_COOLDOWN);
                }
                match self.active {
                    Some(r) => {
                        let mut r2 = r;
                        r2.tick(dt);
                        self.active = if r2.is_finished() {
                            None
                        } else {
                            Some(r2)
                        };
                    },
                    None => {},
                }
                start
            },
        }
    }
}

} // verus!
