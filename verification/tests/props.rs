use shooty::props::{carry_guitar, guitar_hidden, mount_bone, Carry, Family, Prop, AIM_LINGER};
use shooty::roster::Rig;

#[test]
fn carry_bones() {
    assert_eq!(Carry::Aim.bone(Rig::Skeletal, false), "Wrist.R");
    assert_eq!(Carry::Aim.bone(Rig::Skeletal, true), "Wrist.L");
    assert_eq!(Carry::Aim.bone(Rig::Boxy, true), "arm-left");
    assert_eq!(Carry::Slung.bone(Rig::Skeletal, true), "Chest");
    assert_eq!(Carry::Back.bone(Rig::Boxy, false), "torso");
    assert_eq!(Carry::Slung.name(), "slung (chest)");
}

#[test]
fn mount_bones_by_name() {
    assert_eq!(mount_bone(Rig::Skeletal, "Wrist.L"), Some("Wrist.L"));
    assert_eq!(mount_bone(Rig::Skeletal, "Chest"), Some("Chest"));
    assert_eq!(mount_bone(Rig::Skeletal, "torso"), None);
    assert_eq!(mount_bone(Rig::Boxy, "torso"), Some("torso"));
    assert_eq!(mount_bone(Rig::Boxy, "leg-left"), None);
}

#[test]
fn prop_families() {
    assert_eq!(Prop::FlyingV.family(), Family::Strung);
    assert_eq!(Prop::MicStand.family(), Family::Strung);
    assert_eq!(Prop::Snare.family(), Family::Flat);
    assert_eq!(Prop::Synth.name(), "synth");
}

#[test]
fn the_guitar_comes_up_to_fire_and_lingers() {
    let (since, pose) = carry_guitar(5_000_000_000, true, 16_000_000);
    assert_eq!((since, pose), (0, Carry::Aim));
    let (since, pose) = carry_guitar(since, false, AIM_LINGER - 1);
    assert_eq!((since, pose), (AIM_LINGER - 1, Carry::Aim));
    let (since, pose) = carry_guitar(since, false, 1);
    assert_eq!((since, pose), (AIM_LINGER, Carry::Slung));
    assert_eq!(carry_guitar(u64::MAX - 1, false, 10), (u64::MAX, Carry::Slung));
}

#[test]
fn the_guitar_is_hidden_in_a_roll_or_a_car() {
    assert!(guitar_hidden(true, false));
    assert!(guitar_hidden(false, true));
    assert!(!guitar_hidden(false, false));
}
