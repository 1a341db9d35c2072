//! Getting into and out of the town's cars and the airfield's plane, and the
//! nearest-first choices behind them.
//!
//! Distances here are squared ground distances in hundredths of a world unit,
//! so a reach of five units is `500 * 500`.

use vstd::prelude::*;

verus! {

/// How close a hero has to be to a car to get in (five units), squared.
pub const CAR_REACH_SQ: u64 = 250_000;
/// How close a hero has to be to the plane to climb in (eight units), squared.
pub const PLANE_REACH_SQ: u64 = 640_000;
/// Highest altitude, in hundredths of a unit, at which a plane counts as on
/// the ground.
pub const GROUNDED_ALTITUDE: u32 = 60;
/// Fastest airspeed, in hundredths of a unit per second, at which the pilot
/// may open the door.
pub const DOOR_AIRSPEED: u32 = 600;
/// How long, in nanoseconds, a hero who just stepped out is kept from
/// stepping straight back in.
pub const DISMOUNT_BLOCK: u64 = 600_000_000;

/// `i` is the first of the eligible entries with the least distance.
pub open spec fn is_nearest(d: Seq<u64>, ok: Seq<bool>, i: int) -> bool {
    &&& 0 <= i < d.len()
    &&& ok[i]
    &&& forall|j: int| 0 <= j < d.len() && ok[j] ==> d[i] <= #[trigger] d[j]
    &&& forall|j: int| 0 <= j < i && ok[j] ==> d[i] < #[trigger] d[j]
}

/// Some entry is eligible.
pub open spec fn any_eligible(ok: Seq<bool>) -> bool {
    exists|i: int| 0 <= i < ok.len() && #[trigger] ok[i]
}

/// The first of the eligible entries with the least distance, if any is
/// eligible.
pub fn nearest_among(d: &Vec<u64>, ok: &Vec<bool>) -> (r: Option<usize>)
    requires
        d.len() == ok.len(),
    ensures
        r is None <==> !any_eligible(ok@),
        r matches Some(i) ==> is_nearest(d@, ok@, i as int),
{
    let mut best: Option<usize> = None;
    let mut i: usize = 0;
    while i < d.len()
        invariant
            d.len() == ok.len(),
            0 <= i <= d.len(),
            best is None <==> forall|j: int| 0 <= j < i ==> !#[trigger] ok@[j],
            best matches Some(b) ==> {
                &&& b < i
                &&& ok@[b as int]
                &&& forall|j: int| 0 <= j < i && ok@[j] ==> d@[b as int] <= #[trigger] d@[j]
                &&& forall|j: int| 0 <= j < b && ok@[j] ==> d@[b as int] < #[trigger] d@[j]
            },
        decreases d.len() - i,
    {
        if ok[i] {
            match best {
                None => {
                    best = Some(i);
                },
                Some(b) => {
                    if d[i] < d[b] {
                        best = Some(i);
                    }
                },
            }
        }
        i = i + 1;
    }
    proof {
        if best is None {
            assert(!any_eligible(ok@));
        } else {
            let b = best->0;
            assert(ok@[b as int]);
        }
    }
    best
}

/// The player enemies make for: the nearest hero still standing or, when
/// every hero is down, the nearest hero at all.
pub open spec fn nearest_player_spec(d: Seq<u64>, downed: Seq<bool>, i: int) -> bool {
    if any_eligible(downed.map_values(|x: bool| !x)) {
        is_nearest(d, downed.map_values(|x: bool| !x), i)
    } else {
        is_nearest(d, Seq::new(d.len(), |j: int| true), i)
    }
}

/// Which hero is nearest a point, given each hero's squared distance to it
/// and whether that hero is down: the nearest standing hero, falling back to
/// the nearest downed one; `None` only with no heroes.
pub fn nearest_player(d: &Vec<u64>, downed: &Vec<bool>) -> (r: Option<usize>)
    requires
        d.len() == downed.len(),
    ensures
        r is None <==> d.len() == 0,
        r matches Some(i) ==> nearest_player_spec(d@, downed@, i as int),
{
    let mut live: Vec<bool> = Vec::new();
    let mut all: Vec<bool> = Vec::new();
    let mut i: usize = 0;
    while i < downed.len()
        invariant
            0 <= i <= downed.len(),
            live@ == downed@.subrange(0, i as int).map_values(|x: bool| !x),
            all@ == Seq::new(i as nat, |j: int| true),
        decreases downed.len() - i,
    {
        live.push(!downed[i]);
        all.push(true);
        i = i + 1;
        assert(live@ =~= downed@.subrange(0, i as int).map_values(|x: bool| !x));
        assert(all@ =~= Seq::new(i as nat, |j: int| true));
    }
    assert(downed@.subrange(0, downed@.len() as int) =~= downed@);
    match nearest_among(d, &live) {
        Some(k) => Some(k),
        None => {
            let r = nearest_among(d, &all);
            proof {
                if d.len() > 0 {
                    assert(all@[0]);
                }
            }
            r
        },
    }
}

/// What an interact press does to a hero and a vehicle.
#[derive(Clone, Copy, PartialEq, Eq, Debug, Structural)]
pub enum Boarding {
    /// Nothing happens.
    Stay,
    /// The hero leaves the vehicle they are in and is kept from re-boarding
    /// for [`DISMOUNT_BLOCK`].
    GetOut,
    /// The hero boards the vehicle with this index.
    GetIn(usize),
}

/// Which vehicles a hero could board: free ones within reach.
pub open spec fn boardable(d: Seq<u64>, free: Seq<bool>, reach_sq: u64) -> Seq<bool> {
    Seq::new(d.len(), |j: int| free[j] && d[j] <= reach_sq)
}

/// What a press does for a hero on foot: board the nearest boardable vehicle,
/// unless they only just stepped out of one.
pub open spec fn boards(
    just_left: bool,
    d: Seq<u64>,
    free: Seq<bool>,
    reach_sq: u64,
    b: Boarding,
) -> bool {
    if just_left || !any_eligible(boardable(d, free, reach_sq)) {
        b == Boarding::Stay
    } else {
        b matches Boarding::GetIn(i) && is_nearest(d, boardable(d, free, reach_sq), i as int)
    }
}

fn board_nearest(just_left: bool, d: &Vec<u64>, free: &Vec<bool>, reach_sq: u64) -> (b: Boarding)
    requires
        d.len() == free.len(),
    ensures
        boards(just_left, d@, free@, reach_sq, b),
{
    if just_left {
        return Boarding::Stay;
    }
    let mut ok: Vec<bool> = Vec::new();
    let mut i: usize = 0;
    while i < d.len()
        invariant
            d.len() == free.len(),
            0 <= i <= d.len(),
            ok@ == boardable(d@, free@, reach_sq).subrange(0, i as int),
        decreases d.len() - i,
    {
        ok.push(free[i] && d[i] <= reach_sq);
        i = i + 1;
        assert(ok@ =~= boardable(d@, free@, reach_sq).subrange(0, i as int));
    }
    assert(ok@ =~= boardable(d@, free@, reach_sq));
    match nearest_among(d, &ok) {
        Some(k) => Boarding::GetIn(k),
        None => Boarding::Stay,
    }
}

/// The interact key next to the cars. `driving` says whether the hero is
/// behind a wheel; for a hero on foot, `d` and `free` give each car's squared
/// distance and whether nobody is driving it.
pub fn car_boarding(interact: bool, driving: bool, just_left: bool, d: &Vec<u64>, free: &Vec<bool>) -> (b:
    Boarding)
    requires
        d.len() == free.len(),
    ensures
        !interact ==> b == Boarding::Stay,
        interact && driving ==> b == Boarding::GetOut,
        interact && !driving ==> boards(just_left, d@, free@, CAR_REACH_SQ, b),
{
    if !interact {
        Boarding::Stay
    } else if driving {
        Boarding::GetOut
    } else {
        board_nearest(just_left, d, free, CAR_REACH_SQ)
    }
}

/// Whether a pilot may open the door: the plane is on the ground and nearly
/// stopped. There is no parachute.
pub open spec fn may_disembark(altitude: u32, airspeed: i32) -> bool {
    altitude <= GROUNDED_ALTITUDE && -(DOOR_AIRSPEED as int) <= airspeed <= DOOR_AIRSPEED
}

/// The interact key by the plane. `flying` says whether the hero is at the
/// controls, of a plane at `altitude` (hundredths of a unit) doing `airspeed`
/// (hundredths of a unit per second); for a hero on foot, `d` and `free` give
/// each aircraft's squared distance and whether nobody is flying it.
pub fn plane_boarding(
    interact: bool,
    flying: bool,
    altitude: u32,
    airspeed: i32,
    just_landed: bool,
    d: &Vec<u64>,
    free: &Vec<bool>,
) -> (b: Boarding)
    requires
        d.len() == free.len(),
    ensures
        !interact ==> b == Boarding::Stay,
        interact && flying ==> b == if may_disembark(altitude, airspeed) {
            Boarding::GetOut
        } else {
            Boarding::Stay
        },
        interact && !flying ==> boards(just_landed, d@, free@, PLANE_REACH_SQ, b),
{
    if !interact {
        Boarding::Stay
    } else if flying {
        let slow = -600 <= airspeed && airspeed <= 600;
        if altitude <= GROUNDED_ALTITUDE && slow {
            Boarding::GetOut
        } else {
            Boarding::Stay
        }
    } else {
        board_nearest(just_landed, d, free, PLANE_REACH_SQ)
    }
}

} // verus!
