//! The sound cues the game fires, and which of a frame's cues actually play:
//! the ones that can come by the dozen in one frame are capped per frame so a
//! burst sounds like popcorn rather than one flanged thud.

use vstd::prelude::*;

use crate::gloom::STEM_COUNT;

verus! {

/// A one-shot sound the game asks for.
#[derive(Clone, Copy, PartialEq, Eq, Debug, Structural)]
pub enum AudioCue {
    /// A stage channel begins, or someone cheers up and their stem counts in.
    CountIn,
    /// Big power chord — Encore blast, beat slam, a stage finishing.
    ChordStab,
    /// Soft click on the drummer's beat.
    Beat,
    /// A structure is placed.
    Build,
    /// Scrap collected.
    Scrap,
    /// A bad vibe bursts.
    Pop,
    /// A pick leaves the gun.
    Shoot,
    /// A shot, shockwave or swing lands without killing.
    Hit,
    /// A hero takes damage.
    HeroHurt,
    /// A buff pickup is collected.
    Pickup,
    VoiceDualGuitar,
    VoiceEncore,
    VoiceArpeggio,
    VoiceSpeaker,
    VoiceStage,
    /// One of the five gloom sources is cured; which one.
    VoiceCured(u8),
    /// All five are cured.
    VoiceAllCured,
}

/// Most pops per frame.
pub const MAX_POPS: u32 = 4;
/// Most shots per frame.
pub const MAX_SHOTS: u32 = 3;
/// Most hits per frame.
pub const MAX_HITS: u32 = 4;
/// Most hurts per frame.
pub const MAX_HURTS: u32 = 2;

/// The capped class a cue belongs to (0 pops, 1 shots, 2 hits, 3 hurts) and
/// that class's per-frame cap; `None` for cues that are never capped.
pub open spec fn capped(c: AudioCue) -> Option<(int, int)> {
    match c {
        AudioCue::Pop => Some((0, MAX_POPS as int)),
        AudioCue::Shoot => Some((1, MAX_SHOTS as int)),
        AudioCue::Hit => Some((2, MAX_HITS as int)),
        AudioCue::HeroHurt => Some((3, MAX_HURTS as int)),
        _ => None,
    }
}

/// How many of `cues` are of capped class `class`.
pub open spec fn class_count(cues: Seq<AudioCue>, class: int) -> nat
    decreases cues.len(),
{
    if cues.len() == 0 {
        0
    } else {
        class_count(cues.drop_last(), class) + if capped(cues.last()) matches Some(c) && c.0
            == class {
            1nat
        } else {
            0nat
        }
    }
}

/// Does the `i`-th cue of the frame play? A capped cue plays while its class
/// has not yet used up its cap (counting itself); a cured-voice cue plays only
/// for one of the five sources; every other cue plays.
pub open spec fn plays(cues: Seq<AudioCue>, i: int) -> bool {
    match capped(cues[i]) {
        Some(c) => class_count(cues.take(i + 1), c.0) <= c.1,
        None => match cues[i] {
            AudioCue::VoiceCured(idx) => idx < STEM_COUNT,
            _ => true,
        },
    }
}

/// The cues among the first `k` of the frame that play, in order.
pub open spec fn played(cues: Seq<AudioCue>, k: int) -> Seq<AudioCue>
    decreases k,
{
    if k <= 0 {
        seq![]
    } else if plays(cues, k - 1) {
        played(cues, k - 1).push(cues[k - 1])
    } else {
        played(cues, k - 1)
    }
}

/// Of the cues fired this frame, the ones to play, in order.
pub fn cues_to_play(cues: &Vec<AudioCue>) -> (out: Vec<AudioCue>)
    ensures
        out@ == played(cues@, cues@.len() as int),
{
    let mut out: Vec<AudioCue> = Vec::new();
    let mut pops: u64 = 0;
    let mut shots: u64 = 0;
    let mut hits: u64 = 0;
    let mut hurts: u64 = 0;
    let mut k: usize = 0;
    while k < cues.len()
        invariant
            0 <= k <= cues@.len(),
            out@ == played(cues@, k as int),
            pops == class_count(cues@.take(k as int), 0),
            shots == class_count(cues@.take(k as int), 1),
            hits == class_count(cues@.take(k as int), 2),
            hurts == class_count(cues@.take(k as int), 3),
            pops <= k && shots <= k && hits <= k && hurts <= k,
        decreases cues@.len() - k,
    {
        let c = cues[k];
        let ghost t = cues@.take(k + 1);
        assert(t.drop_last() =~= cues@.take(k as int));
        assert(t.last() == c);
        let play = match c {
            AudioCue::Pop => {
                pops = pops + 1;
                pops <= MAX_POPS as u64
            },
            AudioCue::Shoot => {
                shots = shots + 1;
                shots <= MAX_SHOTS as u64
            },
            AudioCue::Hit => {
                hits = hits + 1;
                hits <= MAX_HITS as u64
            },
            AudioCue::HeroHurt => {
                hurts = hurts + 1;
                hurts <= MAX_HURTS as u64
            },
            AudioCue::VoiceCured(idx) => (idx as usize) < STEM_COUNT,
            _ => true,
        };
        if play {
            out.push(c);
        }
        k = k + 1;
    }
    out
}

proof fn lemma_played_count(cues: Seq<AudioCue>, k: int, class: int, cap: int)
    requires
        0 <= k <= cues.len(),
        cap >= 0,
        forall|i: int|
            0 <= i < cues.len() ==> (#[trigger] capped(cues[i]) matches Some(c) ==> (c.0 == class
                ==> c.1 == cap)),
    ensures
        class_count(played(cues, k), class) <= cap,
        class_count(played(cues, k), class) == if class_count(cues.take(k), class) <= cap {
            class_count(cues.take(k), class)
        } else {
            cap as nat
        },
    decreases k,
{
    if k > 0 {
        lemma_played_count(cues, k - 1, class, cap);
        let t = cues.take(k);
        assert(t.drop_last() =~= cues.take(k - 1));
        assert(t.last() == cues[k - 1]);
        assert(cues.take(k - 1 + 1) =~= t);
        if plays(cues, k - 1) {
            let p = played(cues, k);
            assert(p.drop_last() =~= played(cues, k - 1));
        }
    } else {
        assert(cues.take(0) =~= Seq::<AudioCue>::empty());
    }
}

/// However many of one kind fire in a frame, at most its cap are played —
/// and if no more than the cap fire, all of them are.
pub proof fn lemma_caps_hold(cues: Seq<AudioCue>)
    ensures
        class_count(played(cues, cues.len() as int), 0) == if class_count(cues, 0) <= 4 {
            class_count(cues, 0)
        } else {
            4
        },
        class_count(played(cues, cues.len() as int), 1) == if class_count(cues, 1) <= 3 {
            class_count(cues, 1)
        } else {
            3
        },
        class_count(played(cues, cues.len() as int), 2) == if class_count(cues, 2) <= 4 {
            class_count(cues, 2)
        } else {
            4
        },
        class_count(played(cues, cues.len() as int), 3) == if class_count(cues, 3) <= 2 {
            class_count(cues, 3)
        } else {
            2
        },
{
    assert(cues.take(cues.len() as int) =~= cues);
    lemma_played_count(cues, cues.len() as int, 0, 4);
    lemma_played_count(cues, cues.len() as int, 1, 3);
    lemma_played_count(cues, cues.len() as int, 2, 4);
    lemma_played_count(cues, cues.len() as int, 3, 2);
}

} // verus!
