//! Pickups and the temporary buffs they grant the guitarist: dual guitars,
//! the on-demand Encore blast, and arpeggio rapid fire.

use vstd::prelude::*;

use crate::roll_below;
use crate::timer::{Countdown, ticked};
use crate::wave::MILLI;

verus! {

/// The three kinds of pickup.
#[derive(Clone, Copy, PartialEq, Eq, Debug, Structural)]
pub enum PickupKind {
    /// Boombox: fire from both hands for a while.
    DualGuitar,
    /// Amp: an on-demand shockwave blast.
    Encore,
    /// Synth: rapid fire for a while.
    Arpeggio,
}

/// The order timed pickups cycle through, Encore first.
pub open spec fn cycle_kind(i: int) -> PickupKind {
    if i % 3 == 0 {
        PickupKind::Encore
    } else if i % 3 == 1 {
        PickupKind::DualGuitar
    } else {
        PickupKind::Arpeggio
    }
}

/// How long a buff lasts.
pub const BUFF: u64 = 12_000 * MILLI;
/// Cooldown between Encore blasts.
pub const ENCORE_COOLDOWN: u64 = 4_000 * MILLI;
/// The first timed pickup's delay, and the delay between later ones.
pub const FIRST_PICKUP: u64 = 2_800 * MILLI;
pub const NEXT_PICKUP: u64 = 8_000 * MILLI;

/// The timed pickup spawner: a countdown and how many it has dropped.
pub struct PickupClock {
    pub timer: Countdown,
    pub turn: usize,
}

impl PickupClock {
    /// A new run: the first pickup lands shortly after the start.
    pub fn new() -> (c: PickupClock)
        ensures
            c.timer == Countdown::once_spec(FIRST_PICKUP),
            c.turn == 0,
    {
        PickupClock { timer: Countdown::once(FIRST_PICKUP), turn: 0 }
    }

    /// Let `dt` pass; when the countdown runs out, the next kind in the cycle
    /// drops and the next countdown starts.
    pub fn tick(&mut self, dt: u64) -> (r: Option<PickupKind>)
        requires
            old(self).turn < usize::MAX,
        ensures
            ticked(old(self).timer, dt).finished ==> r == Some(cycle_kind(old(self).turn as int))
                && final(self).turn == old(self).turn + 1 && final(self).timer
                == Countdown::once_spec(NEXT_PICKUP),
            !ticked(old(self).timer, dt).finished ==> r is None && final(self).turn
                == old(self).turn && final(self).timer == ticked(old(self).timer, dt),
    {
        self.timer.tick(dt);
        if !self.timer.is_finished() {
            return None;
        }
        self.timer = Countdown::once(NEXT_PICKUP);
        let k = self.turn % 3;
        let kind = if k == 0 {
            PickupKind::Encore
        } else if k == 1 {
            PickupKind::DualGuitar
        } else {
            PickupKind::Arpeggio
        };
        self.turn = self.turn + 1;
        Some(kind)
    }
}

/// Timed pickups take turns: any three in a row are one of each kind.
pub proof fn lemma_pickups_take_turns(t: int)
    requires
        t >= 0,
    ensures
        cycle_kind(t) != cycle_kind(t + 1),
        cycle_kind(t + 1) != cycle_kind(t + 2),
        cycle_kind(t) != cycle_kind(t + 2),
        cycle_kind(t + 3) == cycle_kind(t),
{
}

/// The drop a kill leaves, given a roll in thousandths and a roll for the
/// kind: 3.5% of kills drop a pickup, of a kind picked evenly.
pub open spec fn drop_for(chance: u32, pick: u32) -> Option<PickupKind> {
    if chance < 35 {
        Some(cycle_kind(pick as int))
    } else {
        None
    }
}

/// Every kind of pickup can drop, each on its own kind roll: a successful
/// chance roll drops the Encore on a kind roll of 0, the dual guitars on 1 and
/// the arpeggio on 2, so the three kind rolls give three different pickups; a
/// failed chance roll drops nothing whatever the kind roll.
pub proof fn lemma_every_kind_drops(chance: u32, pick: u32, other: u32)
    requires
        pick < 3,
        other < 3,
    ensures
        chance < 35 ==> drop_for(chance, 0) == Some(PickupKind::Encore) && drop_for(chance, 1)
            == Some(PickupKind::DualGuitar) && drop_for(chance, 2) == Some(PickupKind::Arpeggio),
        chance < 35 && pick != other ==> drop_for(chance, pick) != drop_for(chance, other),
        chance >= 35 ==> drop_for(chance, pick) is None,
{
}

/// The drop a kill leaves, given the two rolls.
pub fn drop_for_rolls(chance: u32, pick: u32) -> (r: Option<PickupKind>)
    requires
        pick < 3,
    ensures
        r == drop_for(chance, pick),
{
    if chance < 35 {
        Some(
            if pick == 0 {
                PickupKind::Encore
            } else if pick == 1 {
                PickupKind::DualGuitar
            } else {
                PickupKind::Arpeggio
            },
        )
    } else {
        None
    }
}

/// Roll the drop of one kill.
pub fn roll_drop() -> (r: Option<PickupKind>)
    ensures
        exists|chance: u32, pick: u32| chance < 1000 && pick < 3 && r == drop_for(chance, pick),
{
    let chance = roll_below(1000);
    let pick = roll_below(3);
    drop_for_rolls(chance, pick)
}

/// The Encore buff: on offer until `window` runs out, blasting on `cooldown`.
#[derive(Clone, Copy, PartialEq, Eq, Debug, Structural)]
pub struct EncoreBuff {
    pub window: Countdown,
    pub cooldown: Countdown,
}

/// The guitarist's buffs.
#[derive(Clone, Copy, PartialEq, Eq, Debug, Structural)]
pub struct Buffs {
    /// Firing from both hands until this runs out.
    pub dual: Option<Countdown>,
    /// Rapid fire until this runs out.
    pub rapid: Option<Countdown>,
    /// The Encore blast is on offer.
    pub encore: Option<EncoreBuff>,
}

impl Buffs {
    /// No buffs.
    pub fn none() -> (b: Buffs)
        ensures
            b.dual is None && b.rapid is None && b.encore is None,
    {
        Buffs { dual: None, rapid: None, encore: None }
    }

    /// A pickup touched by either hero lands on the guitarist: a fresh
    /// twelve-second buff of its kind (an Encore ready to fire at once).
    pub fn collect(&mut self, kind: PickupKind)
        ensures
            kind == PickupKind::DualGuitar ==> *final(self) == (Buffs {
                dual: Some(Countdown::once_spec(BUFF)),
                ..*old(self)
            }),
            kind == PickupKind::Arpeggio ==> *final(self) == (Buffs {
                rapid: Some(Countdown::once_spec(BUFF)),
                ..*old(self)
            }),
            kind == PickupKind::Encore ==> *final(self) == (Buffs {
                encore: Some(EncoreBuff { window: Countdown::once_spec(BUFF), cooldown: Countdown::spent_spec(ENCORE_COOLDOWN) }),
                ..*old(self)
            }),
    {
        match kind {
            PickupKind::DualGuitar => {
                self.dual = Some(Countdown::once(BUFF));
            },
            PickupKind::Arpeggio => {
                self.rapid = Some(Countdown::once(BUFF));
            },
            PickupKind::Encore => {
                self.encore = Some(EncoreBuff { window: Countdown::once(BUFF), cooldown: Countdown::spent(ENCORE_COOLDOWN) });
            },
        }
    }

    /// The Encore blast: with the buff held, tick its cooldown; on a special
    /// press once the cooldown is done, blast and start the cooldown again.
    pub fn try_encore(&mut self, dt: u64, special: bool) -> (blast: bool)
        ensures
            final(self).dual == old(self).dual,
            final(self).rapid == old(self).rapid,
            old(self).encore is None ==> !blast && final(self).encore is None,
            old(self).encore matches Some(e) ==> ({
                let cd = ticked(e.cooldown, dt);
                &&& blast == (cd.finished && special)
                &&& final(self).encore == Some(
                    EncoreBuff {
                        window: e.window,
                        cooldown: if blast {
                            Countdown { elapsed: 0, finished: false, times_this_tick: 0, ..cd }
                        } else {
                            cd
                        },
                    },
                )
            }),
    {
        match self.encore {
            None => false,
            Some(e) => {
                let mut cd = e.cooldown;
                cd.tick(dt);
                let blast = cd.is_finished() && special;
                if blast {
                    cd.reset();
                }
                self.encore = Some(EncoreBuff { window: e.window, cooldown: cd });
                blast
            },
        }
    }

    /// Let `dt` pass on every buff held; a buff whose time is up is dropped.
    pub fn expire(&mut self, dt: u64)
        ensures
            final(self).dual == match old(self).dual {
                Some(t) => if ticked(t, dt).finished {
                    None
                } else {
                    Some(ticked(t, dt))
                },
                None => None,
            },
            final(self).rapid == match old(self).rapid {
                Some(t) => if ticked(t, dt).finished {
                    None
                } else {
                    Some(ticked(t, dt))
                },
                None => None,
            },
            final(self).encore == match old(self).encore {
                Some(e) => if ticked(e.window, dt).finished {
                    None
                } else {
                    Some(EncoreBuff { window: ticked(e.window, dt), cooldown: e.cooldown })
                },
                None => None,
            },
    {
        if let Some(t) = self.dual {
            let mut t2 = t;
            t2.tick(dt);
            self.dual = if t2.is_finished() {
                None
            } else {
                Some(t2)
            };
        }
        if let Some(t) = self.rapid {
            let mut t2 = t;
            t2.tick(dt);
            self.rapid = if t2.is_finished() {
                None
            } else {
                Some(t2)
            };
        }
        if let Some(e) = self.encore {
            let mut w = e.window;
            w.tick(dt);
            self.encore = if w.is_finished() {
                None
            } else {
                Some(EncoreBuff { window: w, cooldown: e.cooldown })
            };
        }
    }
}

/// What to do about the left-hand guitar this frame.
#[derive(Clone, Copy, PartialEq, Eq, Debug, Structural)]
pub enum LeftGun {
    Keep,
    Spawn,
    Despawn,
}

/// Keep exactly one left-hand gun while dual-wielding, and none otherwise.
pub fn left_gun(dual: bool, have: bool) -> (r: LeftGun)
    ensures
        r == if dual && !have {
            LeftGun::Spawn
        } else if !dual && have {
            LeftGun::Despawn
        } else {
            LeftGun::Keep
        },
{
    if dual && !have {
        LeftGun::Spawn
    } else if !dual && have {
        LeftGun::Despawn
    } else {
        LeftGun::Keep
    }
}

} // verus!
