//! The wave cadence: a calm lull to build in, a wave poured in burst by burst
//! until its budget is spent, then a wait for the field to thin out. Each
//! wave is bigger than the last.

use vstd::prelude::*;

use crate::timer::{Countdown, ticked};
use crate::{EnemyKind, roll_below};

verus! {

/// One millisecond, in nanoseconds.
pub const MILLI: u64 = 1_000_000;
/// Burst interval of a capture run.
pub const BURST_CAPTURE: u64 = 240_000_000;
/// Burst interval of a normal run.
pub const BURST_PLAY: u64 = 460_000_000;
/// Burst interval before the first wave.
pub const BURST_FIRST: u64 = 450_000_000;
/// The first lull of a run.
pub const FIRST_LULL: u64 = 3_000_000_000;
/// Lulls after a wave: capture run, before wave one, and in play.
pub const LULL_CAPTURE: u64 = 3_000_000_000;
pub const LULL_OPENING: u64 = 5_000_000_000;
pub const LULL_PLAY: u64 = 14_000_000_000;
/// How long the field may take to clear: capture run, and in play.
pub const CLEAR_CAPTURE: u64 = 12_000_000_000;
pub const CLEAR_PLAY: u64 = 34_000_000_000;

/// Which part of the wave cadence the game is in.
#[derive(Clone, Copy, PartialEq, Eq, Debug, Structural)]
pub enum WavePhase {
    /// The calm between-wave lull: the window to build.
    Prep,
    /// The wave is pouring in.
    Spawning,
    /// Waiting for the field to thin out.
    Clearing,
}

/// The size and shape of wave `number`: how many enemies it pours in, how
/// many per burst, and the nanoseconds between bursts. The scripted capture
/// run is denser and faster.
pub open spec fn shape_of(number: u32, capture: bool) -> (u32, u32, u64) {
    let n: int = if number >= 1 { number as int } else { 1 };
    if capture {
        (
            (if 40 + 18 * n <= 280 { 40 + 18 * n } else { 280 }) as u32,
            (if 10 + n <= 28 { 10 + n } else { 28 }) as u32,
            BURST_CAPTURE,
        )
    } else {
        (
            (if 18 + 10 * n <= 130 { 18 + 10 * n } else { 130 }) as u32,
            (if 5 + n / 2 <= 12 { 5 + n / 2 } else { 12 }) as u32,
            BURST_PLAY,
        )
    }
}

/// Per-wave enemy budget, burst size and burst interval.
pub fn wave_shape(number: u32, capture: bool) -> (r: (u32, u32, u64))
    ensures
        r == shape_of(number, capture),
{
    let n: u64 = if number >= 1 {
        number as u64
    } else {
        1
    };
    if capture {
        let budget = if 40 + 18 * n <= 280 {
            40 + 18 * n
        } else {
            280
        };
        let burst = if 10 + n <= 28 {
            10 + n
        } else {
            28
        };
        (budget as u32, burst as u32, BURST_CAPTURE)
    } else {
        let budget = if 18 + 10 * n <= 130 {
            18 + 10 * n
        } else {
            130
        };
        let burst = if 5 + n / 2 <= 12 {
            5 + n / 2
        } else {
            12
        };
        (budget as u32, burst as u32, BURST_PLAY)
    }
}

/// What the field looks like this frame, as far as the wave cares.
#[derive(Clone, Copy, PartialEq, Eq, Debug, Structural)]
pub struct Field {
    /// Nanoseconds since the last frame.
    pub dt: u64,
    /// The scripted capture run is playing.
    pub capture: bool,
    /// Enemies alive on the field.
    pub alive: usize,
    /// Some gloom source is brooding, so there is somewhere to pour from.
    pub vent: bool,
}

/// The discrete-wave state machine.
#[derive(Clone, Copy, PartialEq, Eq, Debug, Structural)]
pub struct Wave {
    pub number: u32,
    pub phase: WavePhase,
    /// The prep countdown, or the clearing timeout.
    pub phase_timer: Countdown,
    /// Enemies left to pour in this wave.
    pub budget: u32,
    /// The interval between bursts while spawning (and between trickles in a
    /// capture run's lull).
    pub burst: Countdown,
}

/// How many enemies alive hold back the next burst.
pub open spec fn alive_cap(capture: bool) -> int {
    if capture {
        260
    } else {
        120
    }
}

/// How few enemies alive count as a cleared field.
pub open spec fn cleared_at(capture: bool) -> int {
    if capture {
        40
    } else {
        3
    }
}

/// How long the field may take to clear before the next lull starts anyway.
pub open spec fn clearing_timeout(capture: bool) -> u64 {
    if capture {
        CLEAR_CAPTURE
    } else {
        CLEAR_PLAY
    }
}

/// How long the lull after wave `number` lasts.
pub open spec fn lull_after(number: u32, capture: bool) -> u64 {
    if capture {
        LULL_CAPTURE
    } else if number == 0 {
        LULL_OPENING
    } else {
        LULL_PLAY
    }
}

/// The spawning part of a frame that got past the phase logic: how many
/// enemies pour in (a capture-run trickle in the lull, or a burst of the
/// wave's budget) and the wave afterwards.
pub open spec fn pour(w: Wave, f: Field, trickle: bool) -> (Wave, u32) {
    if f.alive > alive_cap(f.capture) || !f.vent || (trickle && f.alive > 48) {
        (w, 0)
    } else if trickle {
        (w, 5)
    } else {
        let b = if shape_of(w.number, f.capture).1 <= w.budget {
            shape_of(w.number, f.capture).1
        } else {
            w.budget
        };
        (Wave { budget: (w.budget - b) as u32, ..w }, b)
    }
}

/// One frame of the wave cadence: the wave afterwards, and how many enemies
/// to spawn this frame.
pub open spec fn wave_step(w: Wave, f: Field) -> (Wave, u32) {
    match w.phase {
        WavePhase::Prep => {
            let pt = ticked(w.phase_timer, f.dt);
            if pt.finished {
                let number = (w.number + 1) as u32;
                let s = shape_of(number, f.capture);
                (
                    Wave {
                        number,
                        phase: WavePhase::Spawning,
                        phase_timer: pt,
                        budget: s.0,
                        burst: Countdown {
                            duration: s.2,
                            elapsed: 0,
                            repeating: true,
                            finished: false,
                            times_this_tick: 0,
                        },
                    },
                    0,
                )
            } else if !f.capture {
                (Wave { phase_timer: pt, ..w }, 0)
            } else {
                let bt = ticked(w.burst, f.dt);
                let w2 = Wave { phase_timer: pt, burst: bt, ..w };
                if bt.times_this_tick > 0 {
                    pour(w2, f, true)
                } else {
                    (w2, 0)
                }
            }
        },
        WavePhase::Spawning => {
            if w.budget == 0 {
                (
                    Wave {
                        phase: WavePhase::Clearing,
                        phase_timer: Countdown {
                            duration: clearing_timeout(f.capture),
                            elapsed: 0,
                            repeating: false,
                            finished: false,
                            times_this_tick: 0,
                        },
                        ..w
                    },
                    0,
                )
            } else {
                let bt = ticked(w.burst, f.dt);
                let w2 = Wave { burst: bt, ..w };
                if bt.times_this_tick > 0 {
                    pour(w2, f, false)
                } else {
                    (w2, 0)
                }
            }
        },
        WavePhase::Clearing => {
            let cleared = f.alive <= cleared_at(f.capture);
            let pt = if cleared {
                w.phase_timer
            } else {
                ticked(w.phase_timer, f.dt)
            };
            if cleared || pt.finished {
                (
                    Wave {
                        phase: WavePhase::Prep,
                        phase_timer: Countdown {
                            duration: lull_after(w.number, f.capture),
                            elapsed: 0,
                            repeating: false,
                            finished: false,
                            times_this_tick: 0,
                        },
                        ..w
                    },
                    0,
                )
            } else {
                (Wave { phase_timer: pt, ..w }, 0)
            }
        },
    }
}

impl Wave {
    /// The first lull of a run: three seconds to get your bearings.
    pub fn new() -> (w: Wave)
        ensures
            w.number == 0,
            w.phase == WavePhase::Prep,
            w.budget == 0,
            w.phase_timer == Countdown::once_spec(FIRST_LULL),
            w.burst == Countdown::repeating_spec(BURST_FIRST),
    {
        Wave {
            number: 0,
            phase: WavePhase::Prep,
            phase_timer: Countdown::once(FIRST_LULL),
            budget: 0,
            burst: Countdown::repeating(BURST_FIRST),
        }
    }

    fn pour(&mut self, f: Field, trickle: bool) -> (n: u32)
        ensures
            (*final(self), n) == pour(*old(self), f, trickle),
    {
        if f.alive > (if f.capture {
            260
        } else {
            120
        }) || !f.vent || (trickle && f.alive > 48) {
            return 0;
        }
        if trickle {
            return 5;
        }
        let (_, burst_size, _) = wave_shape(self.number, f.capture);
        let b = if burst_size <= self.budget {
            burst_size
        } else {
            self.budget
        };
        self.budget = self.budget - b;
        b
    }

    /// Run one frame of the cadence and say how many enemies to spawn.
    pub fn step(&mut self, f: Field) -> (spawn: u32)
        requires
            old(self).number < u32::MAX,
        ensures
            (*final(self), spawn) == wave_step(*old(self), f),
    {
        match self.phase {
            WavePhase::Prep => {
                self.phase_timer.tick(f.dt);
                if self.phase_timer.is_finished() {
                    self.number = self.number + 1;
                    let (budget, _, burst) = wave_shape(self.number, f.capture);
                    self.budget = budget;
                    self.burst = Countdown::repeating(burst);
                    self.phase = WavePhase::Spawning;
                    return 0;
                }
                if !f.capture {
                    return 0;
                }
                self.burst.tick(f.dt);
                if !self.burst.just_finished() {
                    return 0;
                }
                self.pour(f, true)
            },
            WavePhase::Spawning => {
                if self.budget == 0 {
                    let timeout = if f.capture {
                        CLEAR_CAPTURE
                    } else {
                        CLEAR_PLAY
                    };
                    self.phase_timer = Countdown::once(timeout);
                    self.phase = WavePhase::Clearing;
                    return 0;
                }
                self.burst.tick(f.dt);
                if !self.burst.just_finished() {
                    return 0;
                }
                self.pour(f, false)
            },
            WavePhase::Clearing => {
                let cleared = f.alive <= if f.capture {
                    40
                } else {
                    3
                };
                if !cleared {
                    self.phase_timer.tick(f.dt);
                }
                if cleared || self.phase_timer.is_finished() {
                    let lull = if f.capture {
                        LULL_CAPTURE
                    } else if self.number == 0 {
                        LULL_OPENING
                    } else {
                        LULL_PLAY
                    };
                    self.phase_timer = Countdown::once(lull);
                    self.phase = WavePhase::Prep;
                }
                0
            },
        }
    }

    /// Nanoseconds left in the current lull (0 outside it), for the HUD.
    pub fn prep_left(&self) -> (r: u64)
        ensures
            r == if self.phase == WavePhase::Prep {
                if self.phase_timer.duration >= self.phase_timer.elapsed {
                    (self.phase_timer.duration - self.phase_timer.elapsed) as u64
                } else {
                    0
                }
            } else {
                0
            },
    {
        if self.phase == WavePhase::Prep {
            self.phase_timer.remaining()
        } else {
            0
        }
    }

    /// Overwrite the displayed fields from a net snapshot (client side): the
    /// wave number, the phase, and a lull countdown of `prep_left`
    /// nanoseconds (at least a millisecond).
    pub fn net_apply(&mut self, number: u32, phase: WavePhase, prep_left: u64)
        ensures
            final(self).number == number,
            final(self).phase == phase,
            final(self).phase_timer == Countdown::once_spec(
                if prep_left >= MILLI {
                    prep_left
                } else {
                    MILLI
                },
            ),
            final(self).budget == old(self).budget,
            final(self).burst == old(self).burst,
    {
        self.number = number;
        self.phase = phase;
        self.phase_timer = Countdown::once(
            if prep_left >= MILLI {
                prep_left
            } else {
                MILLI
            },
        );
    }
}


/// The phase after `p` in the cadence.
pub open spec fn phase_after(p: WavePhase) -> WavePhase {
    match p {
        WavePhase::Prep => WavePhase::Spawning,
        WavePhase::Spawning => WavePhase::Clearing,
        WavePhase::Clearing => WavePhase::Prep,
    }
}

/// The cadence never skips a phase: a frame either stays in its phase or
/// moves to the next one; the wave number goes up by one exactly when a lull
/// ends; a spawning frame pours at most one burst, paid out of the budget; the
/// wave only stops spawning once its budget is spent.
pub proof fn lemma_wave_cadence(w: Wave, f: Field)
    requires
        w.number < u32::MAX,
    ensures
        ({
            let (w2, n) = wave_step(w, f);
            &&& w2.phase == w.phase || w2.phase == phase_after(w.phase)
            &&& (w.phase == WavePhase::Prep && w2.phase == WavePhase::Spawning) ==> w2.number
                == w.number + 1 && w2.budget == shape_of(w2.number, f.capture).0 && n == 0
            &&& !(w.phase == WavePhase::Prep && w2.phase == WavePhase::Spawning) ==> w2.number
                == w.number
            &&& w.phase == WavePhase::Spawning ==> w2.budget + n == w.budget && n <= shape_of(
                w.number,
                f.capture,
            ).1
            &&& w.phase == WavePhase::Spawning && w2.phase == WavePhase::Clearing ==> w.budget == 0
            &&& w.phase == WavePhase::Clearing ==> n == 0 && w2.budget == w.budget
            &&& w.phase == WavePhase::Prep && w2.phase == WavePhase::Prep ==> w2.budget == w.budget
                && (n == 0 || n == 5)
        }),
{
}

/// Each wave is at least as big as the one before: neither its budget nor its
/// burst size ever shrinks, and until the caps are reached the budget grows.
pub proof fn lemma_waves_grow(number: u32, capture: bool)
    requires
        number < u32::MAX,
    ensures
        shape_of(number, capture).0 <= shape_of((number + 1) as u32, capture).0,
        shape_of(number, capture).1 <= shape_of((number + 1) as u32, capture).1,
        number >= 1 && shape_of(number, capture).0 < (if capture { 280int } else { 130int })
            ==> shape_of(number, capture).0 < shape_of((number + 1) as u32, capture).0,
{
}

/// A spawning burst that is not held back pours a full burst of the wave's
/// size, or what is left of the budget if that is less, and pays it out of
/// the budget: five a burst on the first waves of a normal run, one more every
/// second wave up to twelve; eleven on the first capture wave, one more each
/// wave up to twenty-eight.
pub proof fn lemma_full_bursts(w: Wave, f: Field)
    requires
        w.phase == WavePhase::Spawning,
        w.budget > 0,
        f.vent,
        f.alive <= (if f.capture { 260int } else { 120int }),
        ticked(w.burst, f.dt).times_this_tick > 0,
    ensures
        ({
            let k: int = if w.number >= 1 { w.number as int } else { 1 };
            let size: int = if f.capture {
                if 10 + k <= 28 { 10 + k } else { 28 }
            } else {
                if 5 + k / 2 <= 12 { 5 + k / 2 } else { 12 }
            };
            let want: int = if size <= w.budget { size } else { w.budget as int };
            let (w2, n) = wave_step(w, f);
            &&& n == want
            &&& w2.budget == w.budget - want
            &&& w2.phase == WavePhase::Spawning
        }),
{
}

/// The wave after each of `fs` in turn, and how many enemies were spawned.
pub open spec fn run_frames(w: Wave, fs: Seq<Field>) -> (Wave, nat)
    decreases fs.len(),
{
    if fs.len() == 0 {
        (w, 0)
    } else {
        let (w1, n1) = run_frames(w, fs.drop_last());
        let (w2, n2) = wave_step(w1, fs.last());
        (w2, n1 + n2 as nat)
    }
}

/// A wave pours exactly its budget: from the start of spawning, over any run
/// of frames that does not reach the next wave's lull before its last frame,
/// what is still owed plus what has been spawned is the budget; once spawning
/// is over, everything owed has been spawned.
pub proof fn lemma_wave_pours_its_budget(w: Wave, fs: Seq<Field>)
    requires
        w.phase == WavePhase::Spawning,
        forall|k: int| 0 <= k < fs.len() ==> (#[trigger] run_frames(w, fs.take(k))).0.phase
            != WavePhase::Prep,
    ensures
        run_frames(w, fs).0.budget + run_frames(w, fs).1 == w.budget,
        run_frames(w, fs).0.phase != WavePhase::Spawning ==> run_frames(w, fs).1 == w.budget,
    decreases fs.len(),
{
    if fs.len() > 0 {
        let d = fs.drop_last();
        assert forall|k: int| 0 <= k < d.len() implies (#[trigger] run_frames(w, d.take(k))).0.phase
            != WavePhase::Prep by {
            assert(d.take(k) =~= fs.take(k));
        }
        lemma_wave_pours_its_budget(w, d);
        assert(fs.take(fs.len() - 1) =~= d);
        let (w1, n1) = run_frames(w, d);
        assert(w1.phase != WavePhase::Prep);
    } else {
        assert(fs.take(0) =~= fs);
    }
}

/// Which tier a roll of `r` thousandths spawns: 58% moods, 22% heads, 13%
/// hecklers, 7% sinks.
pub open spec fn kind_for(r: u32) -> EnemyKind {
    if r < 580 {
        EnemyKind::Mood
    } else if r < 800 {
        EnemyKind::Head
    } else if r < 930 {
        EnemyKind::Heckler
    } else {
        EnemyKind::Sink
    }
}

/// Which tier a roll of `r` thousandths spawns.
pub fn kind_for_roll(r: u32) -> (k: EnemyKind)
    ensures
        k == kind_for(r),
{
    if r < 580 {
        EnemyKind::Mood
    } else if r < 800 {
        EnemyKind::Head
    } else if r < 930 {
        EnemyKind::Heckler
    } else {
        EnemyKind::Sink
    }
}

/// Roll the tier of a freshly spawned enemy.
pub fn roll_kind() -> (k: EnemyKind)
    ensures
        exists|r: u32| r < 1000 && k == kind_for(r),
{
    let r = roll_below(1000);
    kind_for_roll(r)
}

/// How many face expressions a loose head can wear.
pub const FACE_STYLES: u32 = 3;

/// Roll the face expression of a freshly spawned enemy.
pub fn roll_face_style() -> (s: u32)
    ensures
        s < FACE_STYLES,
{
    roll_below(FACE_STYLES)
}

} // verus!
