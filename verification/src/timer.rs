//! A countdown measured in whole nanoseconds, in the two modes the game's
//! cadences use: once (runs down and stays finished) and repeating (wraps and
//! reports how often it went off).

use vstd::prelude::*;

verus! {

/// A countdown. `elapsed` never exceeds `duration` once a tick is over, except
/// for a repeating countdown of zero length.
#[derive(Clone, Copy, PartialEq, Eq, Debug, Structural)]
pub struct Countdown {
    pub duration: u64,
    pub elapsed: u64,
    pub repeating: bool,
    /// Reached its duration (a repeating countdown: on the last tick).
    pub finished: bool,
    /// How many times it went off during the last tick.
    pub times_this_tick: u64,
}

/// The countdown after `delta` more nanoseconds.
pub open spec fn ticked(c: Countdown, delta: u64) -> Countdown {
    if !c.repeating && c.finished {
        Countdown { times_this_tick: 0, ..c }
    } else {
        let e = if c.elapsed as int + delta as int > u64::MAX {
            u64::MAX
        } else {
            (c.elapsed + delta) as u64
        };
        if e >= c.duration {
            if c.repeating {
                Countdown {
                    elapsed: if c.duration == 0 {
                        0
                    } else {
                        (e % c.duration) as u64
                    },
                    finished: true,
                    times_this_tick: if c.duration == 0 {
                        u64::MAX
                    } else {
                        (e / c.duration) as u64
                    },
                    ..c
                }
            } else {
                Countdown { elapsed: c.duration, finished: true, times_this_tick: 1, ..c }
            }
        } else {
            Countdown { elapsed: e, finished: false, times_this_tick: 0, ..c }
        }
    }
}

impl Countdown {
    /// A fresh countdown of `duration` nanoseconds that runs once.
    pub open spec fn once_spec(duration: u64) -> Countdown {
        Countdown { duration, elapsed: 0, repeating: false, finished: false, times_this_tick: 0 }
    }

    /// A fresh repeating countdown of `duration` nanoseconds.
    pub open spec fn repeating_spec(duration: u64) -> Countdown {
        Countdown { duration, elapsed: 0, repeating: true, finished: false, times_this_tick: 0 }
    }

    /// A countdown of `duration` nanoseconds that has already run down.
    pub open spec fn spent_spec(duration: u64) -> Countdown {
        Countdown { duration, elapsed: duration, repeating: false, finished: true, times_this_tick: 1 }
    }

    /// A countdown of `duration` nanoseconds that runs once.
    pub fn once(duration: u64) -> (c: Countdown)
        ensures
            c == (Countdown {
                duration,
                elapsed: 0,
                repeating: false,
                finished: false,
                times_this_tick: 0,
            }),
    {
        Countdown { duration, elapsed: 0, repeating: false, finished: false, times_this_tick: 0 }
    }

    /// A countdown of `duration` nanoseconds that starts over each time it
    /// goes off.
    pub fn repeating(duration: u64) -> (c: Countdown)
        ensures
            c == (Countdown {
                duration,
                elapsed: 0,
                repeating: true,
                finished: false,
                times_this_tick: 0,
            }),
    {
        Countdown { duration, elapsed: 0, repeating: true, finished: false, times_this_tick: 0 }
    }

    /// A countdown that has already run down — ready at once.
    pub fn spent(duration: u64) -> (c: Countdown)
        ensures
            c == (Countdown {
                duration,
                elapsed: duration,
                repeating: false,
                finished: true,
                times_this_tick: 1,
            }),
    {
        Countdown {
            duration,
            elapsed: duration,
            repeating: false,
            finished: true,
            times_this_tick: 1,
        }
    }

    /// Let `delta` nanoseconds pass.
    pub fn tick(&mut self, delta: u64)
        ensures
            *final(self) == ticked(*old(self), delta),
    {
        if !self.repeating && self.finished {
            self.times_this_tick = 0;
            return ;
        }
        let e = self.elapsed.saturating_add(delta);
        if e >= self.duration {
            if self.repeating {
                if self.duration == 0 {
                    self.elapsed = 0;
                    self.times_this_tick = u64::MAX;
                } else {
                    self.elapsed = e % self.duration;
                    self.times_this_tick = e / self.duration;
                }
                self.finished = true;
            } else {
                self.elapsed = self.duration;
                self.finished = true;
                self.times_this_tick = 1;
            }
        } else {
            self.elapsed = e;
            self.finished = false;
            self.times_this_tick = 0;
        }
    }

    /// Did it reach its duration?
    pub fn is_finished(&self) -> (r: bool)
        ensures
            r == self.finished,
    {
        self.finished
    }

    /// Did it go off during the last tick?
    pub fn just_finished(&self) -> (r: bool)
        ensures
            r == (self.times_this_tick > 0),
    {
        self.times_this_tick > 0
    }

    /// Nanoseconds left before it goes off.
    pub fn remaining(&self) -> (r: u64)
        ensures
            r == if self.duration >= self.elapsed {
                (self.duration - self.elapsed) as u64
            } else {
                0
            },
    {
        if self.duration >= self.elapsed {
            self.duration - self.elapsed
        } else {
            0
        }
    }

    /// Start over from zero.
    pub fn reset(&mut self)
        ensures
            final(self).duration == old(self).duration,
            final(self).repeating == old(self).repeating,
            final(self).elapsed == 0,
            !final(self).finished,
            final(self).times_this_tick == 0,
    {
        self.elapsed = 0;
        self.finished = false;
        self.times_this_tick = 0;
    }
}

/// A once-countdown goes off exactly once: the tick that reaches its duration
/// reports it, and every later tick leaves it finished without reporting it
/// again.
pub proof fn lemma_once_fires_once(c: Countdown, d1: u64, d2: u64)
    requires
        !c.repeating,
    ensures
        ticked(c, d1).finished ==> ticked(ticked(c, d1), d2).finished && ticked(
            ticked(c, d1),
            d2,
        ).times_this_tick == 0,
        !c.finished && c.elapsed as int + d1 as int >= c.duration ==> ticked(c, d1).finished
            && ticked(c, d1).times_this_tick == 1,
{
}

} // verus!
