//! Character select: a cursor along the playable lineup, filling one hero slot
//! at a time. In a two-player party the guitarist is chosen first, then the
//! drummer, and confirming the drummer starts the run.

use vstd::prelude::*;

use crate::{Hero, Party};
use crate::roster::{Pick, Roster, lemma_playable_lineup, playable_spec, roster_of};

verus! {

/// The first place `p` stands in `s`, if it stands anywhere.
pub open spec fn first_index(s: Seq<Pick>, p: Pick) -> Option<int> {
    if exists|i: int| 0 <= i < s.len() && s[i] == p {
        Some(choose|i: int| 0 <= i < s.len() && s[i] == p && forall|j: int| 0 <= j < i ==> s[j] != p)
    } else {
        None
    }
}

/// Where `p` stands in `s`.
pub fn position(s: &Vec<Pick>, p: Pick) -> (r: Option<usize>)
    ensures
        r matches Some(i) ==> i < s@.len() && s@[i as int] == p && forall|j: int|
            0 <= j < i ==> s@[j] != p,
        r is None ==> forall|j: int| 0 <= j < s@.len() ==> s@[j] != p,
{
    let mut i: usize = 0;
    while i < s.len()
        invariant
            0 <= i <= s@.len(),
            forall|j: int| 0 <= j < i ==> s@[j] != p,
        decreases s@.len() - i,
    {
        if s[i] == p {
            return Some(i);
        }
        i = i + 1;
    }
    None
}

/// The other hero.
pub open spec fn other_hero(h: Hero) -> Hero {
    match h {
        Hero::Guitarist => Hero::Drummer,
        Hero::Drummer => Hero::Guitarist,
    }
}

/// Where the cursor is and which hero slot it is filling.
#[derive(Clone, Copy, PartialEq, Eq, Debug, Structural)]
pub struct Choice {
    pub cursor: usize,
    pub slot: Hero,
}

/// One frame's select-screen input.
#[derive(Clone, Copy, PartialEq, Eq, Debug, Structural)]
pub struct SelectInput {
    pub left: bool,
    pub right: bool,
    /// Hand the cursor to the other player.
    pub tab: bool,
    pub confirm: bool,
}

/// Where `p` first stands in the lineup `s`, or `fallback` when it is not in
/// it.
pub open spec fn place_or(s: Seq<Pick>, p: Pick, fallback: int) -> int {
    match first_index(s, p) {
        Some(i) => i,
        None => fallback,
    }
}

/// The cursor after moving left and/or right, wrapping round the lineup.
pub open spec fn moved_cursor(cursor: int, left: bool, right: bool, n: int) -> int {
    let moved = (if right { 1int } else { 0 }) - (if left { 1int } else { 0 });
    if moved == 0 {
        cursor
    } else {
        (cursor + moved) % n
    }
}

/// One frame of the select screen: the choice, the roster, and whether the
/// run starts.
pub open spec fn select_step(c: Choice, r: Roster, party: Party, i: SelectInput) -> (Choice, Roster, bool) {
    let s = playable_spec();
    let c1 = moved_cursor(c.cursor as int, i.left, i.right, s.len() as int);
    let (slot2, c2) = if party == Party::Duo && i.tab {
        let other = other_hero(c.slot);
        (other, place_or(s, roster_of(r, other), c1))
    } else {
        (c.slot, c1)
    };
    let r2 = match slot2 {
        Hero::Guitarist => Roster { guitarist: s[c2], ..r },
        Hero::Drummer => Roster { drummer: s[c2], ..r },
    };
    if i.confirm && party == Party::Duo && slot2 == Hero::Guitarist {
        (
            Choice { cursor: place_or(s, r2.drummer, c2) as usize, slot: Hero::Drummer },
            r2,
            false,
        )
    } else {
        (Choice { cursor: c2 as usize, slot: slot2 }, r2, i.confirm)
    }
}

impl Choice {
    /// Open the lineup on whoever already plays the guitarist, so coming back
    /// from a run puts the cursor where it was left.
    pub fn open(roster: &Roster) -> (c: Choice)
        ensures
            c.slot == Hero::Guitarist,
            c.cursor == place_or(playable_spec(), roster.guitarist, 0),
            c.cursor < playable_spec().len(),
    {
        proof {
            lemma_playable_lineup();
        }
        let cast = Pick::playable();
        let cursor = match position(&cast, roster.guitarist) {
            Some(i) => i,
            None => 0,
        };
        proof {
            lemma_first_index(cast@, roster.guitarist);
        }
        Choice { cursor, slot: Hero::Guitarist }
    }

    /// One frame of choosing: move the cursor, hand it to the other player on
    /// Tab (two players only), keep the slot's roster entry on the character
    /// under the cursor, and confirm. Returns whether the run starts.
    pub fn step(&mut self, roster: &mut Roster, party: Party, input: SelectInput) -> (start: bool)
        requires
            old(self).cursor < playable_spec().len(),
        ensures
            (*final(self), *final(roster), start) == select_step(
                *old(self),
                *old(roster),
                party,
                input,
            ),
            final(self).cursor < playable_spec().len(),
    {
        proof {
            lemma_playable_lineup();
        }
        let cast = Pick::playable();
        let n = cast.len();
        let ghost s = cast@;
        let mut cursor = self.cursor;
        if input.right && !input.left {
            cursor = (cursor + 1) % n;
        } else if input.left && !input.right {
            cursor = if cursor == 0 {
                n - 1
            } else {
                cursor - 1
            };
        }
        assert(cursor == moved_cursor(self.cursor as int, input.left, input.right, n as int));
        if party == Party::Duo && input.tab {
            self.slot = match self.slot {
                Hero::Guitarist => Hero::Drummer,
                Hero::Drummer => Hero::Guitarist,
            };
            proof {
                lemma_first_index(s, roster_of(*roster, self.slot));
            }
            cursor = match position(&cast, roster.of(self.slot)) {
                Some(i) => i,
                None => cursor,
            };
        }
        roster.set(self.slot, cast[cursor]);
        if input.confirm {
            if party == Party::Duo && self.slot == Hero::Guitarist {
                self.slot = Hero::Drummer;
                proof {
                    lemma_first_index(s, roster.drummer);
                }
                cursor = match position(&cast, roster.drummer) {
                    Some(i) => i,
                    None => cursor,
                };
                self.cursor = cursor;
                return false;
            }
            self.cursor = cursor;
            return true;
        }
        self.cursor = cursor;
        false
    }

    /// The scripted lineup recording: when `advance`, step the cursor one
    /// along (wrapping), and keep the slot's roster entry on it.
    pub fn browse(&mut self, roster: &mut Roster, advance: bool)
        requires
            old(self).cursor < playable_spec().len(),
        ensures
            final(self).slot == old(self).slot,
            final(self).cursor == if advance {
                (old(self).cursor + 1) % (playable_spec().len() as int)
            } else {
                old(self).cursor as int
            },
            roster_of(*final(roster), old(self).slot) == playable_spec()[final(self).cursor as int],
            roster_of(*final(roster), other_hero(old(self).slot)) == roster_of(
                *old(roster),
                other_hero(old(self).slot),
            ),
            final(self).cursor < playable_spec().len(),
    {
        proof {
            lemma_playable_lineup();
        }
        let cast = Pick::playable();
        if advance {
            self.cursor = (self.cursor + 1) % cast.len();
        }
        roster.set(self.slot, cast[self.cursor]);
    }
}

proof fn lemma_first_index(s: Seq<Pick>, p: Pick)
    ensures
        first_index(s, p) matches Some(i) ==> 0 <= i < s.len() && s[i] == p && forall|j: int|
            0 <= j < i ==> s[j] != p,
        first_index(s, p) is None ==> forall|j: int| 0 <= j < s.len() ==> s[j] != p,
        forall|i: int|
            0 <= i < s.len() && s[i] == p && (forall|j: int| 0 <= j < i ==> s[j] != p)
                ==> first_index(s, p) == Some(i),
{
    if exists|i: int| 0 <= i < s.len() && s[i] == p {
        let w = choose|i: int| 0 <= i < s.len() && s[i] == p;
        lemma_least_witness(s, p, w);
        let i = choose|i: int| 0 <= i < s.len() && s[i] == p && forall|j: int| 0 <= j < i ==> s[j] != p;
        assert forall|k: int|
            0 <= k < s.len() && s[k] == p && (forall|j: int| 0 <= j < k ==> s[j] != p) implies k
            == i by {
            if k < i {
                assert(s[k] != p);
            }
            if i < k {
                assert(s[i] != p);
            }
        }
    }
}

proof fn lemma_least_witness(s: Seq<Pick>, p: Pick, w: int)
    requires
        0 <= w < s.len(),
        s[w] == p,
    ensures
        exists|i: int| 0 <= i < s.len() && s[i] == p && forall|j: int| 0 <= j < i ==> s[j] != p,
    decreases w,
{
    if exists|j: int| 0 <= j < w && s[j] == p {
        let j = choose|j: int| 0 <= j < w && s[j] == p;
        lemma_least_witness(s, p, j);
    } else {
        assert(forall|j: int| 0 <= j < w ==> s[j] != p);
    }
}

/// The cursor never leaves the lineup and the roster only ever holds
/// characters from it: a frame of choosing, started with every slot on a
/// playable character, ends with every slot on one.
pub proof fn lemma_select_keeps_lineup(c: Choice, r: Roster, party: Party, i: SelectInput)
    requires
        c.cursor < playable_spec().len(),
        playable_spec().contains(r.guitarist),
        playable_spec().contains(r.drummer),
    ensures
        ({
            let (c2, r2, _) = select_step(c, r, party, i);
            &&& c2.cursor < playable_spec().len()
            &&& playable_spec().contains(r2.guitarist)
            &&& playable_spec().contains(r2.drummer)
        }),
{
    lemma_playable_lineup();
    let s = playable_spec();
    lemma_first_index(s, r.guitarist);
    lemma_first_index(s, r.drummer);
    let (c2, r2, _) = select_step(c, r, party, i);
    let c1 = moved_cursor(c.cursor as int, i.left, i.right, s.len() as int);
    assert(0 <= c1 < s.len());
    let (slot2, cc2) = if party == Party::Duo && i.tab {
        let other = other_hero(c.slot);
        (other, place_or(s, roster_of(r, other), c1))
    } else {
        (c.slot, c1)
    };
    assert(0 <= cc2 < s.len());
    assert(s.contains(s[cc2]));
    lemma_first_index(s, r2.drummer);
}

/// In a duo, Tab hands the cursor to the other player: the guitarist's slot
/// passes to the drummer and the drummer's back to the guitarist, the cursor
/// lands on that player's current pick, which the roster keeps, and the first
/// player's pick is left as it was.
pub proof fn lemma_tab_swaps_slots(c: Choice, r: Roster, left: bool, right: bool)
    requires
        c.cursor < playable_spec().len(),
        playable_spec().contains(r.guitarist),
        playable_spec().contains(r.drummer),
    ensures
        ({
            let i = SelectInput { left, right, tab: true, confirm: false };
            let (c2, r2, start) = select_step(c, r, Party::Duo, i);
            &&& c.slot == Hero::Guitarist ==> c2.slot == Hero::Drummer && r2.drummer == r.drummer
                && r2.guitarist == r.guitarist && playable_spec()[c2.cursor as int] == r.drummer
            &&& c.slot == Hero::Drummer ==> c2.slot == Hero::Guitarist && r2.guitarist
                == r.guitarist && r2.drummer == r.drummer && playable_spec()[c2.cursor as int]
                == r.guitarist
            &&& !start
        }),
{
    lemma_playable_lineup();
    let s = playable_spec();
    lemma_first_index(s, r.guitarist);
    lemma_first_index(s, r.drummer);
}

} // verus!
