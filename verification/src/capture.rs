//! The offscreen capture run: which scene a recording is of, when frames are
//! saved, when the recording stops, and how the showcase camera and the win
//! screen are cycled while it runs.
//!
//! The command line is `[frames | select | gloom | map | fly | credits] [dir]
//! [count]`.

use vstd::prelude::*;

use crate::text::{parse_u32, u32_of};
use crate::{CameraMode, GameState};

verus! {

/// Frames rendered, with the clock frozen, before anything is saved: time for
/// the models to load.
pub const PRE_ROLL: u32 = 160;
/// Frames a recording may run past its last one when a save goes missing.
pub const OVERRUN: u32 = 240;
/// Frames saved when the command line does not say.
pub const DEFAULT_FRAMES: u32 = 450;
/// How long each showcase camera rig is held, in nanoseconds.
pub const RIG_HOLD: u64 = 6_000_000_000;
/// How long the win screen is held before the next loop, in nanoseconds.
pub const VICTORY_HOLD: u64 = 3_500_000_000;

/// What a recording is of.
#[derive(Clone, Copy, PartialEq, Eq, Debug, Structural)]
pub enum CaptureMode {
    /// A run played by the bot.
    Frames,
    /// The character-select lineup.
    Select,
    /// A run, framed on the gloom sources.
    Gloom,
    /// The whole level from high above.
    Aerial,
    /// A scripted take-off.
    Fly,
    /// The lineup with the credits open.
    Credits,
}

/// The mode a command-line word asks for; anything else records a run.
pub open spec fn mode_named(word: Seq<char>) -> CaptureMode {
    if word == "select"@ {
        CaptureMode::Select
    } else if word == "gloom"@ {
        CaptureMode::Gloom
    } else if word == "map"@ {
        CaptureMode::Aerial
    } else if word == "fly"@ {
        CaptureMode::Fly
    } else if word == "credits"@ {
        CaptureMode::Credits
    } else {
        CaptureMode::Frames
    }
}

/// What the capture command line asks for.
pub struct CaptureArgs {
    pub mode: CaptureMode,
    /// Where the frames are written.
    pub out_dir: String,
    /// How many frames to save.
    pub frames: u32,
}

/// Read the arguments after the program name: the mode, the output
/// directory (`screenshots/run` unless given) and the frame count (450 unless
/// given as a number).
pub fn capture_args(args: &Vec<String>) -> (r: CaptureArgs)
    ensures
        r.mode == if args@.len() > 0 {
            mode_named(args@[0]@)
        } else {
            CaptureMode::Frames
        },
        r.out_dir@ == if args@.len() > 1 {
            args@[1]@
        } else {
            "screenshots/run"@
        },
        r.frames == if args@.len() > 2 && u32_of(args@[2]@) is Some {
            u32_of(args@[2]@)->0
        } else {
            DEFAULT_FRAMES
        },
{
    let mode = if args.len() > 0 {
        let w = args[0].as_str();
        if crate::text::same_text(w, "select") {
            CaptureMode::Select
        } else if crate::text::same_text(w, "gloom") {
            CaptureMode::Gloom
        } else if crate::text::same_text(w, "map") {
            CaptureMode::Aerial
        } else if crate::text::same_text(w, "fly") {
            CaptureMode::Fly
        } else if crate::text::same_text(w, "credits") {
            CaptureMode::Credits
        } else {
            CaptureMode::Frames
        }
    } else {
        CaptureMode::Frames
    };
    let out_dir = if args.len() > 1 {
        String::from_str(args[1].as_str())
    } else {
        String::from_str("screenshots/run")
    };
    let mut frames: u32 = DEFAULT_FRAMES;
    if args.len() > 2 {
        if let Some(n) = parse_u32(args[2].as_str()) {
            frames = n;
        }
    }
    CaptureArgs { mode, out_dir, frames }
}

/// The state a recording opens in: the lineup for the lineup and credits
/// recordings, a run for the rest.
pub fn opening_state(mode: CaptureMode) -> (s: GameState)
    ensures
        s == if mode == CaptureMode::Select || mode == CaptureMode::Credits {
            GameState::Select
        } else {
            GameState::Playing
        },
{
    match mode {
        CaptureMode::Select | CaptureMode::Credits => GameState::Select,
        _ => GameState::Playing,
    }
}

/// Whether the bot plays the heroes: in every recording of a run, never on
/// the lineup (where the lineup browses itself instead).
pub fn bot_plays(mode: CaptureMode) -> (r: bool)
    ensures
        r == !(mode == CaptureMode::Select || mode == CaptureMode::Credits),
{
    match mode {
        CaptureMode::Select | CaptureMode::Credits => false,
        _ => true,
    }
}

/// The frame bookkeeping of a recording.
pub struct CaptureRun {
    /// Frames rendered so far.
    pub frame: u32,
    /// Frames to save.
    pub target: u32,
    /// Frames written to disk so far.
    pub saved: u32,
}

impl CaptureRun {
    /// A recording of `target` frames, nothing rendered yet.
    pub fn new(target: u32) -> (c: CaptureRun)
        ensures
            c.frame == 0,
            c.target == target,
            c.saved == 0,
    {
        CaptureRun { frame: 0, target, saved: 0 }
    }

    /// Is the clock still frozen for the pre-roll?
    pub fn frozen(&self) -> (r: bool)
        ensures
            r == (self.frame < PRE_ROLL),
    {
        self.frame < PRE_ROLL
    }

    /// Count a rendered frame and say which numbered frame, if any, to save
    /// from it: the frames after the pre-roll, numbered from one, up to the
    /// target and only while fewer than the target are saved.
    pub fn next_frame(&mut self) -> (n: Option<u32>)
        requires
            old(self).frame < u32::MAX,
        ensures
            final(self).frame == old(self).frame + 1,
            final(self).target == old(self).target,
            final(self).saved == old(self).saved,
            n matches Some(k) ==> offered(final(self).frame as int, old(self).saved, old(self).target)
                == Some(k as int),
            n is None <==> offered(final(self).frame as int, old(self).saved, old(self).target)
                is None,
    {
        self.frame = self.frame + 1;
        if self.frame <= PRE_ROLL || self.saved >= self.target {
            return None;
        }
        let n = self.frame - PRE_ROLL;
        if n > self.target {
            return None;
        }
        Some(n)
    }

    /// A frame reached the disk.
    pub fn saved_one(&mut self)
        requires
            old(self).saved < u32::MAX,
        ensures
            final(self).saved == old(self).saved + 1,
            final(self).frame == old(self).frame,
            final(self).target == old(self).target,
    {
        self.saved = self.saved + 1;
    }

    /// Is the recording over: every frame saved, or well past the last one in
    /// case a save went missing?
    pub fn done(&self) -> (r: bool)
        requires
            self.target + PRE_ROLL + OVERRUN <= u32::MAX,
        ensures
            r == (self.saved >= self.target || self.frame > PRE_ROLL + self.target + OVERRUN),
    {
        self.saved >= self.target || self.frame > PRE_ROLL + self.target + OVERRUN
    }
}

/// The showcase camera after `elapsed` nanoseconds: each rig held for
/// [`RIG_HOLD`], in the order Follow, Shoulder, first person, round again.
pub open spec fn showcase_rig(elapsed: u64) -> CameraMode {
    let k = (elapsed / RIG_HOLD) % 3;
    if k == 1 {
        CameraMode::Shoulder
    } else if k == 2 {
        CameraMode::FirstPerson
    } else {
        CameraMode::Follow
    }
}

/// The showcase camera after `elapsed` nanoseconds.
pub fn showcase_camera(elapsed: u64) -> (m: CameraMode)
    ensures
        m == showcase_rig(elapsed),
{
    let k = (elapsed / RIG_HOLD) % 3;
    if k == 1 {
        CameraMode::Shoulder
    } else if k == 2 {
        CameraMode::FirstPerson
    } else {
        CameraMode::Follow
    }
}

/// How long the win screen has been up, in nanoseconds.
pub struct VictoryHold {
    pub held: u64,
}

impl VictoryHold {
    /// Nothing held.
    pub fn new() -> (v: VictoryHold)
        ensures
            v.held == 0,
    {
        VictoryHold { held: 0 }
    }

    /// A frame of `dt` nanoseconds: on the win screen the hold grows, and
    /// once it is past [`VICTORY_HOLD`] it starts over and the next loop is
    /// due; anywhere else it is dropped.
    pub fn tick(&mut self, victory: bool, dt: u64) -> (restart: bool)
        ensures
            ({
                let grown = if old(self).held + dt > u64::MAX {
                    u64::MAX as int
                } else {
                    old(self).held + dt
                };
                &&& restart == (victory && grown > VICTORY_HOLD)
                &&& final(self).held == if victory && !restart {
                    grown
                } else {
                    0
                }
            }),
    {
        if !victory {
            self.held = 0;
            return false;
        }
        self.held = self.held.saturating_add(dt);
        if self.held > VICTORY_HOLD {
            self.held = 0;
            true
        } else {
            false
        }
    }
}

/// The numbered frame offered by the rendered frame `frame` (counted from
/// one), with `saved` of `target` frames on disk.
pub open spec fn offered(frame: int, saved: u32, target: u32) -> Option<int> {
    if frame > PRE_ROLL && saved < target && frame - PRE_ROLL <= target {
        Some(frame - PRE_ROLL)
    } else {
        None
    }
}

/// A recording offers each numbered frame at most once and none past its
/// target: every offered number lies in `1..=target`, and a later rendered
/// frame only ever offers a later number.
pub proof fn lemma_frames_offered_once(f1: int, f2: int, s1: u32, s2: u32, target: u32)
    requires
        f1 < f2,
    ensures
        offered(f1, s1, target) matches Some(a) ==> 1 <= a <= target,
        offered(f1, s1, target) is Some && offered(f2, s2, target) is Some ==> offered(
            f1,
            s1,
            target,
        )->0 < offered(f2, s2, target)->0,
{
}

} // verus!
