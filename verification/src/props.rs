//! The music gear the cast carries and how it is worn: which bone each carry
//! pose hangs off on each rig. Where exactly a prop sits is a transform and
//! belongs to the renderer.

use vstd::prelude::*;

use crate::roster::Rig;
use crate::text::same_text;

verus! {

/// How a piece of gear is being worn this frame.
#[derive(Clone, Copy, PartialEq, Eq, Debug, Structural)]
pub enum Carry {
    /// Across the chest on its strap: the resting pose.
    Slung,
    /// Up in the right hand: the firing pose.
    Aim,
    /// Stowed flat on the back.
    Back,
}

/// The bone a carry pose hangs off on a rig, for the left or right hand.
/// Slung and back both ride the chest or torso.
pub open spec fn bone_spec(c: Carry, rig: Rig, left: bool) -> Seq<char> {
    match (c, rig) {
        (Carry::Aim, Rig::Skeletal) => if left {
            "Wrist.L"@
        } else {
            "Wrist.R"@
        },
        (Carry::Aim, Rig::Boxy) => if left {
            "arm-left"@
        } else {
            "arm-right"@
        },
        (_, Rig::Skeletal) => "Chest"@,
        (_, Rig::Boxy) => "torso"@,
    }
}

impl Carry {
    /// What to call the pose.
    pub fn name(self) -> (r: &'static str)
        ensures
            r@ == match self {
                Carry::Slung => "slung (chest)"@,
                Carry::Aim => "aim (right hand)"@,
                Carry::Back => "back"@,
            },
    {
        match self {
            Carry::Slung => "slung (chest)",
            Carry::Aim => "aim (right hand)",
            Carry::Back => "back",
        }
    }

    /// The bone this pose hangs off, by name, for the given rig.
    pub fn bone(self, rig: Rig, left: bool) -> (r: &'static str)
        ensures
            r@ == bone_spec(self, rig, left),
    {
        match (self, rig) {
            (Carry::Aim, Rig::Skeletal) => if left {
                "Wrist.L"
            } else {
                "Wrist.R"
            },
            (Carry::Aim, Rig::Boxy) => if left {
                "arm-left"
            } else {
                "arm-right"
            },
            (_, Rig::Skeletal) => "Chest",
            (_, Rig::Boxy) => "torso",
        }
    }
}

/// A piece of music gear.
#[derive(Clone, Copy, PartialEq, Eq, Debug, Structural)]
pub enum Prop {
    FlyingV,
    Bass,
    Snare,
    Synth,
    MicStand,
}

/// How a prop hangs when worn flat against a body.
#[derive(Clone, Copy, PartialEq, Eq, Debug, Structural)]
pub enum Family {
    /// Long-necked, hangs on a strap at a diagonal.
    Strung,
    /// Wide and shallow, lies flat with its face out.
    Flat,
}

impl Prop {
    /// What to call the prop.
    pub fn name(self) -> (r: &'static str)
        ensures
            r@ == match self {
                Prop::FlyingV => "flying V"@,
                Prop::Bass => "bass"@,
                Prop::Snare => "snare"@,
                Prop::Synth => "synth"@,
                Prop::MicStand => "mic stand"@,
            },
    {
        match self {
            Prop::FlyingV => "flying V",
            Prop::Bass => "bass",
            Prop::Snare => "snare",
            Prop::Synth => "synth",
            Prop::MicStand => "mic stand",
        }
    }

    /// How the prop hangs: the guitars and the mic stand on a strap, the snare
    /// and the synth flat.
    pub fn family(self) -> (f: Family)
        ensures
            f == if self == Prop::Snare || self == Prop::Synth {
                Family::Flat
            } else {
                Family::Strung
            },
    {
        match self {
            Prop::FlyingV | Prop::Bass | Prop::MicStand => Family::Strung,
            Prop::Snare | Prop::Synth => Family::Flat,
        }
    }
}

/// Is `name` one of the bones a rig's carry poses hang gear off?
pub open spec fn is_mount_bone(rig: Rig, name: Seq<char>) -> bool {
    exists|c: Carry, left: bool| bone_spec(c, rig, left) == name
}

/// If `name` is a bone one of the rig's carry poses hangs gear off, that bone.
pub fn mount_bone(rig: Rig, name: &str) -> (r: Option<&'static str>)
    ensures
        r matches Some(b) ==> b@ == name@,
        r is Some <==> is_mount_bone(rig, name@),
{
    let chest = Carry::Slung.bone(rig, false);
    if same_text(name, chest) {
        return Some(chest);
    }
    let right = Carry::Aim.bone(rig, false);
    if same_text(name, right) {
        return Some(right);
    }
    let left = Carry::Aim.bone(rig, true);
    if same_text(name, left) {
        return Some(left);
    }
    proof {
        assert forall|c: Carry, l: bool| bone_spec(c, rig, l) != name@ by {
            match c {
                Carry::Aim => {
                    if l {
                        assert(bone_spec(c, rig, l) == bone_spec(Carry::Aim, rig, true));
                    } else {
                        assert(bone_spec(c, rig, l) == bone_spec(Carry::Aim, rig, false));
                    }
                },
                _ => {
                    assert(bone_spec(c, rig, l) == bone_spec(Carry::Slung, rig, false));
                },
            }
        }
    }
    None
}

/// How long, in nanoseconds, the guitar stays up in the hand after the last
/// shot, so tapping fire does not snap it between chest and hand every frame.
pub const AIM_LINGER: u64 = 450_000_000;

/// The guitar's pose and the time since the guitarist last fired, after a
/// frame of `dt` nanoseconds: firing resets the time, and the guitar is up in
/// the hand until the linger has run out, slung across the chest after.
pub open spec fn guitar_carry(since_fire: u64, firing: bool, dt: u64) -> (u64, Carry) {
    let since: u64 = if firing {
        0
    } else if since_fire + dt > u64::MAX {
        u64::MAX
    } else {
        (since_fire + dt) as u64
    };
    (since, if since < AIM_LINGER { Carry::Aim } else { Carry::Slung })
}

/// Advance the guitar's carry by one frame.
pub fn carry_guitar(since_fire: u64, firing: bool, dt: u64) -> (r: (u64, Carry))
    ensures
        r == guitar_carry(since_fire, firing, dt),
{
    let since: u64 = if firing {
        0
    } else {
        since_fire.saturating_add(dt)
    };
    let pose = if since < AIM_LINGER {
        Carry::Aim
    } else {
        Carry::Slung
    };
    (since, pose)
}

/// The guitar is put out of sight while the guitarist rolls or drives.
pub fn guitar_hidden(rolling: bool, driving: bool) -> (r: bool)
    ensures
        r == (rolling || driving),
{
    rolling || driving
}

} // verus!
