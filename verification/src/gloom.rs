//! The five miserable townspeople the waves pour out of, and how the music
//! comes back. A source wakes when a hero comes near and starts brooding; once
//! its crowd has been seen on the field and then none of it is left, it is
//! cured, marches to the bandstand, and its stem joins the mix.

use vstd::prelude::*;

verus! {

/// How many gloom sources — and soundtrack stems — there are.
pub const STEM_COUNT: usize = 5;

/// The crowd character each source is, in wake order: kit, bass, chords, the
/// guitar hook, then the topline.
pub fn stem(i: usize) -> (id: &'static str)
    requires
        i < STEM_COUNT,
    ensures
        id@ == stem_id(i as int),
{
    if i == 0 {
        "hiphop"
    } else if i == 1 {
        "techno"
    } else if i == 2 {
        "disco"
    } else if i == 3 {
        "country"
    } else {
        "jpop"
    }
}

/// Spec-level stem ids, in wake order.
pub open spec fn stem_id(i: int) -> Seq<char> {
    if i == 0 {
        "hiphop"@
    } else if i == 1 {
        "techno"@
    } else if i == 2 {
        "disco"@
    } else if i == 3 {
        "country"@
    } else {
        "jpop"@
    }
}

/// What state one of the five is in.
#[derive(Clone, Copy, PartialEq, Eq, Debug, Structural)]
pub enum Mood {
    /// Miserable, but not yet a spawn vent.
    Dormant,
    /// Actively leaking bad vibes: a live vent.
    Brooding,
    /// Snapped out of it and walking to the bandstand.
    Marching,
    /// At the stage, nodding along.
    Happy,
}

/// How far along the road to the bandstand a mood is.
pub open spec fn mood_rank(m: Mood) -> int {
    match m {
        Mood::Dormant => 0,
        Mood::Brooding => 1,
        Mood::Marching => 2,
        Mood::Happy => 3,
    }
}

/// Cheered up: marching or at the stage.
pub open spec fn is_cured(m: Mood) -> bool {
    m == Mood::Marching || m == Mood::Happy
}

/// The target level of a source's stem, in thousandths: silent while
/// miserable, swelling on the walk, full at the stage.
pub open spec fn stem_target(m: Mood) -> u32 {
    match m {
        Mood::Dormant | Mood::Brooding => 0,
        Mood::Marching => 600,
        Mood::Happy => 1000,
    }
}

impl Mood {
    /// Has this source been cheered up?
    pub fn cured(self) -> (r: bool)
        ensures
            r == is_cured(self),
    {
        match self {
            Mood::Marching | Mood::Happy => true,
            _ => false,
        }
    }

    /// The level this source's stem is heading for, in thousandths.
    pub fn stem_target(self) -> (r: u32)
        ensures
            r == stem_target(self),
    {
        match self {
            Mood::Dormant | Mood::Brooding => 0,
            Mood::Marching => 600,
            Mood::Happy => 1000,
        }
    }
}

/// One of the five, as far as the rules are concerned.
#[derive(Clone, Copy, PartialEq, Eq, Debug, Structural)]
pub struct GloomSource {
    /// Which stem this person is, in wake order.
    pub idx: usize,
    pub mood: Mood,
    /// Has any of this source's crowd ever been alive on the field? Latches.
    pub seen: bool,
}

impl GloomSource {
    /// A source at the start of a run: dormant, nothing seen.
    pub fn new(idx: usize) -> (s: GloomSource)
        ensures
            s.idx == idx,
            s.mood == Mood::Dormant,
            !s.seen,
    {
        GloomSource { idx, mood: Mood::Dormant, seen: false }
    }

    /// One frame of the state machine. `hero_near`: some hero is inside the
    /// wake radius; `alive`: how many of this source's crowd are on the field.
    /// Waking is one-way, `seen` latches, and the cure — brooding, crowd seen,
    /// none of it left — sends the source marching. Returns whether it was
    /// cured this frame.
    pub fn track(&mut self, hero_near: bool, alive: u32) -> (cured_now: bool)
        ensures
            final(self).idx == old(self).idx,
            final(self).seen == (old(self).seen || alive > 0),
            ({
                let woke = if old(self).mood == Mood::Dormant && hero_near {
                    Mood::Brooding
                } else {
                    old(self).mood
                };
                &&& cured_now == (woke == Mood::Brooding && final(self).seen && alive == 0)
                &&& final(self).mood == if cured_now {
                    Mood::Marching
                } else {
                    woke
                }
            }),
    {
        if self.mood == Mood::Dormant && hero_near {
            self.mood = Mood::Brooding;
        }
        if alive > 0 {
            self.seen = true;
        }
        if self.mood == Mood::Brooding && self.seen && alive == 0 {
            self.mood = Mood::Marching;
            return true;
        }
        false
    }

    /// A marching source that has reached its slot at the bandstand is happy.
    pub fn arrive(&mut self, arrived: bool)
        ensures
            final(self).idx == old(self).idx,
            final(self).seen == old(self).seen,
            final(self).mood == if old(self).mood == Mood::Marching && arrived {
                Mood::Happy
            } else {
                old(self).mood
            },
    {
        if self.mood == Mood::Marching && arrived {
            self.mood = Mood::Happy;
        }
    }
}

/// A source never goes back: its mood only moves toward the bandstand, its
/// `seen` latch never clears, and it can only be cured once its crowd has been
/// seen and is gone.
pub proof fn lemma_moods_only_advance(
    before: GloomSource,
    after_track: GloomSource,
    hero_near: bool,
    alive: u32,
    cured_now: bool,
    after_arrive: GloomSource,
    arrived: bool,
)
    requires
        after_track.idx == before.idx,
        after_track.seen == (before.seen || alive > 0),
        ({
            let woke = if before.mood == Mood::Dormant && hero_near {
                Mood::Brooding
            } else {
                before.mood
            };
            &&& cured_now == (woke == Mood::Brooding && after_track.seen && alive == 0)
            &&& after_track.mood == if cured_now {
                Mood::Marching
            } else {
                woke
            }
        }),
        after_arrive.idx == after_track.idx,
        after_arrive.seen == after_track.seen,
        after_arrive.mood == if after_track.mood == Mood::Marching && arrived {
            Mood::Happy
        } else {
            after_track.mood
        },
    ensures
        mood_rank(before.mood) <= mood_rank(after_track.mood) <= mood_rank(after_arrive.mood),
        before.seen ==> after_arrive.seen,
        is_cured(before.mood) ==> is_cured(after_arrive.mood),
        !is_cured(before.mood) && is_cured(after_track.mood) ==> cured_now && after_track.seen
            && alive == 0,
        after_arrive.mood == Mood::Happy ==> before.mood == Mood::Happy || after_track.mood
            == Mood::Marching,
{
}

/// How many of `from` name source `i`.
pub open spec fn crowd_of(from: Seq<usize>, i: int) -> nat
    decreases from.len(),
{
    if from.len() == 0 {
        0
    } else {
        crowd_of(from.drop_last(), i) + if from.last() == i {
            1nat
        } else {
            0nat
        }
    }
}

proof fn lemma_crowd_of_bound(from: Seq<usize>, i: int)
    ensures
        crowd_of(from, i) <= from.len(),
    decreases from.len(),
{
    if from.len() > 0 {
        lemma_crowd_of_bound(from.drop_last(), i);
    }
}

/// The live crowd of each source: `from` holds, for each enemy on the field,
/// the source it came out of. Entries naming no source are ignored.
pub fn count_crowds(from: &Vec<usize>) -> (alive: Vec<u32>)
    requires
        from@.len() <= u32::MAX,
    ensures
        alive@.len() == STEM_COUNT,
        forall|i: int| 0 <= i < STEM_COUNT ==> #[trigger] alive@[i] == crowd_of(from@, i),
{
    let mut alive: Vec<u32> = Vec::new();
    let mut i: usize = 0;
    while i < STEM_COUNT
        invariant
            0 <= i <= STEM_COUNT,
            alive@.len() == i,
            forall|j: int| 0 <= j < i ==> alive@[j] == 0,
        decreases STEM_COUNT - i,
    {
        alive.push(0);
        i = i + 1;
    }
    let mut k: usize = 0;
    while k < from.len()
        invariant
            0 <= k <= from@.len(),
            from@.len() <= u32::MAX,
            alive@.len() == STEM_COUNT,
            forall|j: int|
                0 <= j < STEM_COUNT ==> #[trigger] alive@[j] == crowd_of(from@.take(k as int), j),
        decreases from@.len() - k,
    {
        let src = from[k];
        assert(from@.take(k + 1).drop_last() =~= from@.take(k as int));
        assert(from@.take(k + 1).last() == src);
        if src < STEM_COUNT {
            proof {
                lemma_crowd_of_bound(from@.take(k as int), src as int);
            }
            let c = alive[src];
            alive.set(src, c + 1);
        }
        k = k + 1;
    }
    assert(from@.take(from@.len() as int) =~= from@);
    alive
}

/// How many of `moods` are cured.
pub open spec fn cured_among(moods: Seq<Mood>) -> nat
    decreases moods.len(),
{
    if moods.len() == 0 {
        0
    } else {
        cured_among(moods.drop_last()) + if is_cured(moods.last()) {
            1nat
        } else {
            0nat
        }
    }
}

/// The mixer's view of the town: how many of the five have been cheered up.
pub struct Chorus {
    pub cured: usize,
}

impl Chorus {
    /// Nobody cheered up yet.
    pub fn new() -> (c: Chorus)
        ensures
            c.cured == 0,
    {
        Chorus { cured: 0 }
    }

    /// Recount the cured sources.
    pub fn recount(&mut self, moods: &Vec<Mood>)
        ensures
            final(self).cured == cured_among(moods@),
    {
        let mut n: usize = 0;
        let mut k: usize = 0;
        while k < moods.len()
            invariant
                0 <= k <= moods@.len(),
                n == cured_among(moods@.take(k as int)),
                n <= k,
            decreases moods@.len() - k,
        {
            assert(moods@.take(k + 1).drop_last() =~= moods@.take(k as int));
            if moods[k].cured() {
                n = n + 1;
            }
            k = k + 1;
        }
        assert(moods@.take(moods@.len() as int) =~= moods@);
        self.cured = n;
    }

    /// Have all five come back? The song is whole.
    pub fn complete(&self) -> (r: bool)
        ensures
            r == (self.cured == STEM_COUNT),
    {
        self.cured == STEM_COUNT
    }
}

proof fn lemma_cured_among_bound(moods: Seq<Mood>)
    ensures
        cured_among(moods) <= moods.len(),
        cured_among(moods) == moods.len() <==> forall|i: int|
            0 <= i < moods.len() ==> is_cured(#[trigger] moods[i]),
    decreases moods.len(),
{
    if moods.len() > 0 {
        lemma_cured_among_bound(moods.drop_last());
        if forall|i: int| 0 <= i < moods.len() ==> is_cured(#[trigger] moods[i]) {
            assert forall|i: int| 0 <= i < moods.drop_last().len() implies is_cured(
                #[trigger] moods.drop_last()[i],
            ) by {
                assert(moods.drop_last()[i] == moods[i]);
            }
            assert(is_cured(moods[moods.len() - 1]));
        }
        if cured_among(moods) == moods.len() {
            assert forall|i: int| 0 <= i < moods.len() implies is_cured(#[trigger] moods[i]) by {
                if i < moods.len() - 1 {
                    assert(moods.drop_last()[i] == moods[i]);
                }
            }
        }
    }
}

/// The band is back exactly when every one of the five sources is cured.
pub proof fn lemma_chorus_complete(moods: Seq<Mood>)
    requires
        moods.len() == STEM_COUNT,
    ensures
        cured_among(moods) == STEM_COUNT <==> forall|i: int|
            0 <= i < moods.len() ==> is_cured(#[trigger] moods[i]),
{
    lemma_cured_among_bound(moods);
}

} // verus!
