//! Who you are playing: the two casts of characters (the boxy house style and
//! the skeletal line), which of them are playable, what each is called, which
//! clip each rig plays for a gait, and what each character's shots sound like.
//! Sizes, colours and wave shapes in numbers belong to the renderer; the
//! tables here hold what the rules read.

use vstd::prelude::*;

use crate::Hero;
use crate::text::same_text;

verus! {

/// Which side of the gig a character belongs to.
#[derive(Clone, Copy, PartialEq, Eq, Debug, Structural)]
pub enum Cast {
    /// On stage — the playable musicians.
    Band,
    /// In front of it — ordinary townsfolk.
    Crowd,
    /// Drained of colour: a crowd member turned enemy.
    Gloom,
}

/// How many skeletal skins there are.
pub const SKIN_COUNT: usize = 13;
/// How many boxy characters there are.
pub const BOXY_COUNT: usize = 10;
/// The blocky base mesh every boxy character is worn on.
pub const BOXY_BASE: &'static str = "models/blocky/base.glb";

/// Stable id of skeletal skin `i`.
pub open spec fn skin_id_spec(i: int) -> Seq<char> {
    if i == 0 {
        "guitarist"@
    } else if i == 1 {
        "drummer"@
    } else if i == 2 {
        "emo"@
    } else if i == 3 {
        "jpop"@
    } else if i == 4 {
        "country"@
    } else if i == 5 {
        "psych60s"@
    } else if i == 6 {
        "metal"@
    } else if i == 7 {
        "disco"@
    } else if i == 8 {
        "grunge"@
    } else if i == 9 {
        "hiphop"@
    } else if i == 10 {
        "techno"@
    } else if i == 11 {
        "ska"@
    } else {
        "gloom"@
    }
}

/// Stable id of skeletal skin `i`.
pub fn skin_id(i: usize) -> (r: &'static str)
    requires
        i < 13,
    ensures
        r@ == skin_id_spec(i as int),
{
    if i == 0 {
        "guitarist"
    } else if i == 1 {
        "drummer"
    } else if i == 2 {
        "emo"
    } else if i == 3 {
        "jpop"
    } else if i == 4 {
        "country"
    } else if i == 5 {
        "psych60s"
    } else if i == 6 {
        "metal"
    } else if i == 7 {
        "disco"
    } else if i == 8 {
        "grunge"
    } else if i == 9 {
        "hiphop"
    } else if i == 10 {
        "techno"
    } else if i == 11 {
        "ska"
    } else {
        "gloom"
    }
}

/// On-screen name of skeletal skin `i`.
pub open spec fn skin_name_spec(i: int) -> Seq<char> {
    if i == 0 {
        "Guitarist"@
    } else if i == 1 {
        "Drummer"@
    } else if i == 2 {
        "Emo"@
    } else if i == 3 {
        "J-Pop"@
    } else if i == 4 {
        "Country"@
    } else if i == 5 {
        "Psych '60s"@
    } else if i == 6 {
        "Metal"@
    } else if i == 7 {
        "Disco"@
    } else if i == 8 {
        "Grunge"@
    } else if i == 9 {
        "Hip-Hop"@
    } else if i == 10 {
        "Techno"@
    } else if i == 11 {
        "Ska"@
    } else {
        "Gloom goon"@
    }
}

/// On-screen name of skeletal skin `i`.
pub fn skin_name(i: usize) -> (r: &'static str)
    requires
        i < 13,
    ensures
        r@ == skin_name_spec(i as int),
{
    if i == 0 {
        "Guitarist"
    } else if i == 1 {
        "Drummer"
    } else if i == 2 {
        "Emo"
    } else if i == 3 {
        "J-Pop"
    } else if i == 4 {
        "Country"
    } else if i == 5 {
        "Psych '60s"
    } else if i == 6 {
        "Metal"
    } else if i == 7 {
        "Disco"
    } else if i == 8 {
        "Grunge"
    } else if i == 9 {
        "Hip-Hop"
    } else if i == 10 {
        "Techno"
    } else if i == 11 {
        "Ska"
    } else {
        "Gloom goon"
    }
}

/// The musical idea skeletal skin `i` is dressed from.
pub open spec fn skin_genre_spec(i: int) -> Seq<char> {
    if i == 0 {
        "aging punk — the player"@
    } else if i == 1 {
        "aging punk — the sidekick"@
    } else if i == 2 {
        "mid-2000s emo / screamo"@
    } else if i == 3 {
        "Japanese idol pop"@
    } else if i == 4 {
        "outlaw country"@
    } else if i == 5 {
        "1960s psychedelia"@
    } else if i == 6 {
        "heavy metal"@
    } else if i == 7 {
        "1970s disco"@
    } else if i == 8 {
        "early-'90s grunge"@
    } else if i == 9 {
        "'90s hip-hop"@
    } else if i == 10 {
        "Berlin techno"@
    } else if i == 11 {
        "2-tone ska"@
    } else {
        "the crowd, drained"@
    }
}

/// The musical idea skeletal skin `i` is dressed from.
pub fn skin_genre(i: usize) -> (r: &'static str)
    requires
        i < 13,
    ensures
        r@ == skin_genre_spec(i as int),
{
    if i == 0 {
        "aging punk — the player"
    } else if i == 1 {
        "aging punk — the sidekick"
    } else if i == 2 {
        "mid-2000s emo / screamo"
    } else if i == 3 {
        "Japanese idol pop"
    } else if i == 4 {
        "outlaw country"
    } else if i == 5 {
        "1960s psychedelia"
    } else if i == 6 {
        "heavy metal"
    } else if i == 7 {
        "1970s disco"
    } else if i == 8 {
        "early-'90s grunge"
    } else if i == 9 {
        "'90s hip-hop"
    } else if i == 10 {
        "Berlin techno"
    } else if i == 11 {
        "2-tone ska"
    } else {
        "the crowd, drained"
    }
}

/// Which side of the gig skeletal skin `i` is on.
pub open spec fn skin_cast_spec(i: int) -> Cast {
    if i == 0 {
        Cast::Band
    } else if i == 1 {
        Cast::Band
    } else if i == 2 {
        Cast::Band
    } else if i == 3 {
        Cast::Band
    } else if i == 4 {
        Cast::Band
    } else if i == 5 {
        Cast::Band
    } else if i == 6 {
        Cast::Band
    } else if i == 7 {
        Cast::Crowd
    } else if i == 8 {
        Cast::Crowd
    } else if i == 9 {
        Cast::Crowd
    } else if i == 10 {
        Cast::Crowd
    } else if i == 11 {
        Cast::Crowd
    } else {
        Cast::Gloom
    }
}

/// Which side of the gig skeletal skin `i` is on.
pub fn skin_cast(i: usize) -> (r: Cast)
    requires
        i < 13,
    ensures
        r == skin_cast_spec(i as int),
{
    if i == 0 {
        Cast::Band
    } else if i == 1 {
        Cast::Band
    } else if i == 2 {
        Cast::Band
    } else if i == 3 {
        Cast::Band
    } else if i == 4 {
        Cast::Band
    } else if i == 5 {
        Cast::Band
    } else if i == 6 {
        Cast::Band
    } else if i == 7 {
        Cast::Crowd
    } else if i == 8 {
        Cast::Crowd
    } else if i == 9 {
        Cast::Crowd
    } else if i == 10 {
        Cast::Crowd
    } else if i == 11 {
        Cast::Crowd
    } else {
        Cast::Gloom
    }
}

/// The body skeletal skin `i` was designed against.
pub open spec fn skin_model_spec(i: int) -> Seq<char> {
    if i == 0 {
        "models/quaternius/punk.glb"@
    } else if i == 1 {
        "models/quaternius/casual.glb"@
    } else if i == 2 {
        "models/quaternius/hoodie.glb"@
    } else if i == 3 {
        "models/quaternius/beach.glb"@
    } else if i == 4 {
        "models/quaternius/farmer.glb"@
    } else if i == 5 {
        "models/quaternius/adventurer.glb"@
    } else if i == 6 {
        "models/quaternius/king.glb"@
    } else if i == 7 {
        "models/quaternius/suit.glb"@
    } else if i == 8 {
        "models/quaternius/punk.glb"@
    } else if i == 9 {
        "models/quaternius/worker.glb"@
    } else if i == 10 {
        "models/quaternius/swat.glb"@
    } else if i == 11 {
        "models/quaternius/casual.glb"@
    } else {
        "models/quaternius/suit.glb"@
    }
}

/// The body skeletal skin `i` was designed against.
pub fn skin_model(i: usize) -> (r: &'static str)
    requires
        i < 13,
    ensures
        r@ == skin_model_spec(i as int),
{
    if i == 0 {
        "models/quaternius/punk.glb"
    } else if i == 1 {
        "models/quaternius/casual.glb"
    } else if i == 2 {
        "models/quaternius/hoodie.glb"
    } else if i == 3 {
        "models/quaternius/beach.glb"
    } else if i == 4 {
        "models/quaternius/farmer.glb"
    } else if i == 5 {
        "models/quaternius/adventurer.glb"
    } else if i == 6 {
        "models/quaternius/king.glb"
    } else if i == 7 {
        "models/quaternius/suit.glb"
    } else if i == 8 {
        "models/quaternius/punk.glb"
    } else if i == 9 {
        "models/quaternius/worker.glb"
    } else if i == 10 {
        "models/quaternius/swat.glb"
    } else if i == 11 {
        "models/quaternius/casual.glb"
    } else {
        "models/quaternius/suit.glb"
    }
}

/// Face-plane texture of skeletal skin `i`, if its face is not covered.
pub open spec fn skin_face_spec(i: int) -> Option<Seq<char>> {
    if i == 0 {
        Some("models/quaternius/faces/hero.png"@)
    } else if i == 1 {
        Some("models/quaternius/faces/drummer.png"@)
    } else if i == 2 {
        Some("models/quaternius/faces/liner.png"@)
    } else if i == 3 {
        Some("models/quaternius/faces/bright.png"@)
    } else if i == 4 {
        Some("models/quaternius/faces/hero.png"@)
    } else if i == 5 {
        Some("models/quaternius/faces/bright.png"@)
    } else if i == 6 {
        Some("models/quaternius/faces/steely.png"@)
    } else if i == 7 {
        Some("models/quaternius/faces/bright.png"@)
    } else if i == 8 {
        Some("models/quaternius/faces/weary.png"@)
    } else if i == 9 {
        Some("models/quaternius/faces/hero.png"@)
    } else if i == 10 {
        None
    } else if i == 11 {
        Some("models/quaternius/faces/hero.png"@)
    } else {
        Some("models/quaternius/faces/gloom.png"@)
    }
}

/// Face-plane texture of skeletal skin `i`, if its face is not covered.
pub fn skin_face(i: usize) -> (r: Option<&'static str>)
    requires
        i < 13,
    ensures
        match r { Some(s) => skin_face_spec(i as int) == Some(s@), None => skin_face_spec(i as int) is None },
{
    if i == 0 {
        Some("models/quaternius/faces/hero.png")
    } else if i == 1 {
        Some("models/quaternius/faces/drummer.png")
    } else if i == 2 {
        Some("models/quaternius/faces/liner.png")
    } else if i == 3 {
        Some("models/quaternius/faces/bright.png")
    } else if i == 4 {
        Some("models/quaternius/faces/hero.png")
    } else if i == 5 {
        Some("models/quaternius/faces/bright.png")
    } else if i == 6 {
        Some("models/quaternius/faces/steely.png")
    } else if i == 7 {
        Some("models/quaternius/faces/bright.png")
    } else if i == 8 {
        Some("models/quaternius/faces/weary.png")
    } else if i == 9 {
        Some("models/quaternius/faces/hero.png")
    } else if i == 10 {
        None
    } else if i == 11 {
        Some("models/quaternius/faces/hero.png")
    } else {
        Some("models/quaternius/faces/gloom.png")
    }
}

/// Stable id of boxy character `i`.
pub open spec fn boxy_id_spec(i: int) -> Seq<char> {
    if i == 0 {
        "punk"@
    } else if i == 1 {
        "metal"@
    } else if i == 2 {
        "grunge"@
    } else if i == 3 {
        "glam"@
    } else if i == 4 {
        "rockabilly"@
    } else if i == 5 {
        "disco"@
    } else if i == 6 {
        "techno"@
    } else if i == 7 {
        "hiphop"@
    } else if i == 8 {
        "country"@
    } else {
        "jpop"@
    }
}

/// Stable id of boxy character `i`.
pub fn boxy_id(i: usize) -> (r: &'static str)
    requires
        i < 10,
    ensures
        r@ == boxy_id_spec(i as int),
{
    if i == 0 {
        "punk"
    } else if i == 1 {
        "metal"
    } else if i == 2 {
        "grunge"
    } else if i == 3 {
        "glam"
    } else if i == 4 {
        "rockabilly"
    } else if i == 5 {
        "disco"
    } else if i == 6 {
        "techno"
    } else if i == 7 {
        "hiphop"
    } else if i == 8 {
        "country"
    } else {
        "jpop"
    }
}

/// On-screen name of boxy character `i`.
pub open spec fn boxy_name_spec(i: int) -> Seq<char> {
    if i == 0 {
        "Punk"@
    } else if i == 1 {
        "Metal"@
    } else if i == 2 {
        "Grunge"@
    } else if i == 3 {
        "Glam"@
    } else if i == 4 {
        "Rockabilly"@
    } else if i == 5 {
        "Disco"@
    } else if i == 6 {
        "Techno"@
    } else if i == 7 {
        "Hip-Hop"@
    } else if i == 8 {
        "Country"@
    } else {
        "J-Pop"@
    }
}

/// On-screen name of boxy character `i`.
pub fn boxy_name(i: usize) -> (r: &'static str)
    requires
        i < 10,
    ensures
        r@ == boxy_name_spec(i as int),
{
    if i == 0 {
        "Punk"
    } else if i == 1 {
        "Metal"
    } else if i == 2 {
        "Grunge"
    } else if i == 3 {
        "Glam"
    } else if i == 4 {
        "Rockabilly"
    } else if i == 5 {
        "Disco"
    } else if i == 6 {
        "Techno"
    } else if i == 7 {
        "Hip-Hop"
    } else if i == 8 {
        "Country"
    } else {
        "J-Pop"
    }
}

/// The musical idea boxy character `i` is dressed from.
pub open spec fn boxy_genre_spec(i: int) -> Seq<char> {
    if i == 0 {
        "punk — lead guitar"@
    } else if i == 1 {
        "heavy metal — bass"@
    } else if i == 2 {
        "grunge — drums"@
    } else if i == 3 {
        "glam rock — vocals"@
    } else if i == 4 {
        "rockabilly — rhythm guitar"@
    } else if i == 5 {
        "1970s disco"@
    } else if i == 6 {
        "Berlin techno"@
    } else if i == 7 {
        "'90s hip-hop"@
    } else if i == 8 {
        "outlaw country"@
    } else {
        "Japanese idol pop"@
    }
}

/// The musical idea boxy character `i` is dressed from.
pub fn boxy_genre(i: usize) -> (r: &'static str)
    requires
        i < 10,
    ensures
        r@ == boxy_genre_spec(i as int),
{
    if i == 0 {
        "punk — lead guitar"
    } else if i == 1 {
        "heavy metal — bass"
    } else if i == 2 {
        "grunge — drums"
    } else if i == 3 {
        "glam rock — vocals"
    } else if i == 4 {
        "rockabilly — rhythm guitar"
    } else if i == 5 {
        "1970s disco"
    } else if i == 6 {
        "Berlin techno"
    } else if i == 7 {
        "'90s hip-hop"
    } else if i == 8 {
        "outlaw country"
    } else {
        "Japanese idol pop"
    }
}

/// Which side of the gig boxy character `i` is on.
pub open spec fn boxy_cast_spec(i: int) -> Cast {
    if i == 0 {
        Cast::Band
    } else if i == 1 {
        Cast::Band
    } else if i == 2 {
        Cast::Band
    } else if i == 3 {
        Cast::Band
    } else if i == 4 {
        Cast::Band
    } else if i == 5 {
        Cast::Crowd
    } else if i == 6 {
        Cast::Crowd
    } else if i == 7 {
        Cast::Crowd
    } else if i == 8 {
        Cast::Crowd
    } else {
        Cast::Crowd
    }
}

/// Which side of the gig boxy character `i` is on.
pub fn boxy_cast(i: usize) -> (r: Cast)
    requires
        i < 10,
    ensures
        r == boxy_cast_spec(i as int),
{
    if i == 0 {
        Cast::Band
    } else if i == 1 {
        Cast::Band
    } else if i == 2 {
        Cast::Band
    } else if i == 3 {
        Cast::Band
    } else if i == 4 {
        Cast::Band
    } else if i == 5 {
        Cast::Crowd
    } else if i == 6 {
        Cast::Crowd
    } else if i == 7 {
        Cast::Crowd
    } else if i == 8 {
        Cast::Crowd
    } else {
        Cast::Crowd
    }
}

/// Painted atlas of boxy character `i`.
pub open spec fn boxy_atlas_spec(i: int) -> Seq<char> {
    if i == 0 {
        "models/blocky/skins/punk.png"@
    } else if i == 1 {
        "models/blocky/skins/metal.png"@
    } else if i == 2 {
        "models/blocky/skins/grunge.png"@
    } else if i == 3 {
        "models/blocky/skins/glam.png"@
    } else if i == 4 {
        "models/blocky/skins/rockabilly.png"@
    } else if i == 5 {
        "models/blocky/skins/disco.png"@
    } else if i == 6 {
        "models/blocky/skins/techno.png"@
    } else if i == 7 {
        "models/blocky/skins/hiphop.png"@
    } else if i == 8 {
        "models/blocky/skins/country.png"@
    } else {
        "models/blocky/skins/jpop.png"@
    }
}

/// Painted atlas of boxy character `i`.
pub fn boxy_atlas(i: usize) -> (r: &'static str)
    requires
        i < 10,
    ensures
        r@ == boxy_atlas_spec(i as int),
{
    if i == 0 {
        "models/blocky/skins/punk.png"
    } else if i == 1 {
        "models/blocky/skins/metal.png"
    } else if i == 2 {
        "models/blocky/skins/grunge.png"
    } else if i == 3 {
        "models/blocky/skins/glam.png"
    } else if i == 4 {
        "models/blocky/skins/rockabilly.png"
    } else if i == 5 {
        "models/blocky/skins/disco.png"
    } else if i == 6 {
        "models/blocky/skins/techno.png"
    } else if i == 7 {
        "models/blocky/skins/hiphop.png"
    } else if i == 8 {
        "models/blocky/skins/country.png"
    } else {
        "models/blocky/skins/jpop.png"
    }
}

/// The shape of the wave a character's instrument puts out.
#[derive(Clone, Copy, PartialEq, Eq, Debug, Structural)]
pub enum Waveform {
    Sine,
    Square,
    Saw,
    Triangle,
}

impl Waveform {
    /// What to call the waveform on screen.
    pub fn name(self) -> (r: &'static str)
        ensures
            r@ == waveform_name(self),
    {
        match self {
            Waveform::Sine => "sine",
            Waveform::Square => "square",
            Waveform::Saw => "saw",
            Waveform::Triangle => "triangle",
        }
    }
}

/// Spec-level waveform names.
pub open spec fn waveform_name(w: Waveform) -> Seq<char> {
    match w {
        Waveform::Sine => "sine"@,
        Waveform::Square => "square"@,
        Waveform::Saw => "saw"@,
        Waveform::Triangle => "triangle"@,
    }
}

/// The voice a character id has: punk and the guitarist share one; every
/// other character of either cast has their own; anything else is the house
/// voice, `12`.
pub open spec fn voice_spec(id: Seq<char>) -> usize {
    if id == "punk"@ {
        0
    } else if id == "guitarist"@ {
        0
    } else if id == "metal"@ {
        1
    } else if id == "grunge"@ {
        2
    } else if id == "glam"@ {
        3
    } else if id == "rockabilly"@ {
        4
    } else if id == "drummer"@ {
        5
    } else if id == "emo"@ {
        6
    } else if id == "disco"@ {
        7
    } else if id == "techno"@ {
        8
    } else if id == "hiphop"@ {
        9
    } else if id == "country"@ {
        10
    } else if id == "jpop"@ {
        11
    } else {
        12
    }
}

/// Which voice — what their shots are made of — the character with this id
/// has; anything not listed gets the house voice, `12`.
pub fn voice_of(id: &str) -> (v: usize)
    ensures
        v == voice_spec(id@),
{
    if same_text(id, "punk") {
        0
    } else if same_text(id, "guitarist") {
        0
    } else if same_text(id, "metal") {
        1
    } else if same_text(id, "grunge") {
        2
    } else if same_text(id, "glam") {
        3
    } else if same_text(id, "rockabilly") {
        4
    } else if same_text(id, "drummer") {
        5
    } else if same_text(id, "emo") {
        6
    } else if same_text(id, "disco") {
        7
    } else if same_text(id, "techno") {
        8
    } else if same_text(id, "hiphop") {
        9
    } else if same_text(id, "country") {
        10
    } else if same_text(id, "jpop") {
        11
    } else {
        12
    }
}

pub open spec fn voice_wave_spec(v: int) -> Waveform {
    if v == 0 {
        Waveform::Square
    } else if v == 1 {
        Waveform::Saw
    } else if v == 2 {
        Waveform::Triangle
    } else if v == 3 {
        Waveform::Sine
    } else if v == 4 {
        Waveform::Sine
    } else if v == 5 {
        Waveform::Square
    } else if v == 6 {
        Waveform::Triangle
    } else if v == 7 {
        Waveform::Sine
    } else if v == 8 {
        Waveform::Square
    } else if v == 9 {
        Waveform::Saw
    } else if v == 10 {
        Waveform::Triangle
    } else if v == 11 {
        Waveform::Sine
    } else {
        Waveform::Sine
    }
}

/// The waveform voice `v` fires.
pub fn voice_wave(v: usize) -> (w: Waveform)
    ensures
        w == voice_wave_spec(v as int),
{
    if v == 0 {
        Waveform::Square
    } else if v == 1 {
        Waveform::Saw
    } else if v == 2 {
        Waveform::Triangle
    } else if v == 3 {
        Waveform::Sine
    } else if v == 4 {
        Waveform::Sine
    } else if v == 5 {
        Waveform::Square
    } else if v == 6 {
        Waveform::Triangle
    } else if v == 7 {
        Waveform::Sine
    } else if v == 8 {
        Waveform::Square
    } else if v == 9 {
        Waveform::Saw
    } else if v == 10 {
        Waveform::Triangle
    } else if v == 11 {
        Waveform::Sine
    } else {
        Waveform::Sine
    }
}

/// Which rig a character is built on.
#[derive(Clone, Copy, PartialEq, Eq, Debug, Structural)]
pub enum Rig {
    /// The 62-bone skeleton.
    Skeletal,
    /// Six node-animated boxes.
    Boxy,
}

/// One playable character, from either cast.
#[derive(Clone, Copy, PartialEq, Eq, Debug, Structural)]
pub enum Pick {
    /// Index into the boxy cast.
    Boxy(usize),
    /// Index into the skeletal skins.
    Skeletal(usize),
}

/// The pick names an existing character.
pub open spec fn valid_pick(p: Pick) -> bool {
    match p {
        Pick::Boxy(i) => i < BOXY_COUNT,
        Pick::Skeletal(i) => i < SKIN_COUNT,
    }
}

/// The band members among the first `m` boxy characters, in order.
pub open spec fn boxy_band(m: int) -> Seq<Pick>
    decreases m,
{
    if m <= 0 {
        seq![]
    } else if boxy_cast_spec(m - 1) == Cast::Band {
        boxy_band(m - 1).push(Pick::Boxy((m - 1) as usize))
    } else {
        boxy_band(m - 1)
    }
}

/// The band members among the first `m` skeletal skins, in order.
pub open spec fn skin_band(m: int) -> Seq<Pick>
    decreases m,
{
    if m <= 0 {
        seq![]
    } else if skin_cast_spec(m - 1) == Cast::Band {
        skin_band(m - 1).push(Pick::Skeletal((m - 1) as usize))
    } else {
        skin_band(m - 1)
    }
}

/// Every character you are allowed to play: the boxy band first, then the
/// skeletal band. Crowd and gloom characters are what you fight.
pub open spec fn playable_spec() -> Seq<Pick> {
    boxy_band(BOXY_COUNT as int) + skin_band(SKIN_COUNT as int)
}

/// The playable lineup is the five boxy band members and the seven skeletal
/// ones, in that order.
pub proof fn lemma_playable_lineup()
    ensures
        playable_spec() == seq![
            Pick::Boxy(0),
            Pick::Boxy(1),
            Pick::Boxy(2),
            Pick::Boxy(3),
            Pick::Boxy(4),
            Pick::Skeletal(0),
            Pick::Skeletal(1),
            Pick::Skeletal(2),
            Pick::Skeletal(3),
            Pick::Skeletal(4),
            Pick::Skeletal(5),
            Pick::Skeletal(6),
        ],
        playable_spec().len() == 12,
        forall|i: int| 0 <= i < 12 ==> valid_pick(#[trigger] playable_spec()[i]),
{
    reveal_with_fuel(boxy_band, 11);
    reveal_with_fuel(skin_band, 14);
    assert(playable_spec() =~= seq![
        Pick::Boxy(0),
        Pick::Boxy(1),
        Pick::Boxy(2),
        Pick::Boxy(3),
        Pick::Boxy(4),
        Pick::Skeletal(0),
        Pick::Skeletal(1),
        Pick::Skeletal(2),
        Pick::Skeletal(3),
        Pick::Skeletal(4),
        Pick::Skeletal(5),
        Pick::Skeletal(6),
    ]);
}

/// The states a hero's body can be in, as far as animation is concerned.
#[derive(Clone, Copy, PartialEq, Eq, Debug, Structural)]
pub enum Gait {
    Idle,
    Walk,
    Sprint,
    Shoot,
    Melee,
    Die,
    /// Sat in a car.
    Drive,
}

/// Each gait's slot in the per-rig clip table.
pub open spec fn gait_slot(g: Gait) -> usize {
    match g {
        Gait::Idle => 0,
        Gait::Walk => 1,
        Gait::Sprint => 2,
        Gait::Shoot => 3,
        Gait::Melee => 4,
        Gait::Die => 5,
        Gait::Drive => 6,
    }
}

impl Gait {
    /// This gait's slot in the per-rig clip table.
    pub fn slot(self) -> (i: usize)
        ensures
            i == gait_slot(self),
            i < 7,
    {
        match self {
            Gait::Idle => 0,
            Gait::Walk => 1,
            Gait::Sprint => 2,
            Gait::Shoot => 3,
            Gait::Melee => 4,
            Gait::Die => 5,
            Gait::Drive => 6,
        }
    }

    /// Does a clip in this gait loop? Dying and a melee swing play once.
    pub fn loops(self) -> (r: bool)
        ensures
            r == !(self == Gait::Die || self == Gait::Melee),
    {
        !(self == Gait::Die || self == Gait::Melee)
    }
}

/// What a hero is doing this frame, as the animation driver reads it.
#[derive(Clone, Copy, PartialEq, Eq, Debug, Structural)]
pub struct Doing {
    pub game_over: bool,
    pub downed: bool,
    pub driving: bool,
    pub rolling: bool,
    pub swinging: bool,
    pub guitarist_firing: bool,
    pub moving: bool,
}

/// The gait a hero's state calls for, most pressing first: dead, driving,
/// rolling, swinging, firing (the guitarist), walking, idle.
pub open spec fn gait_for(d: Doing) -> Gait {
    if d.game_over || d.downed {
        Gait::Die
    } else if d.driving {
        Gait::Drive
    } else if d.rolling {
        Gait::Sprint
    } else if d.swinging {
        Gait::Melee
    } else if d.guitarist_firing {
        Gait::Shoot
    } else if d.moving {
        Gait::Walk
    } else {
        Gait::Idle
    }
}

/// Pick the gait a hero's state calls for.
pub fn choose_gait(d: Doing) -> (g: Gait)
    ensures
        g == gait_for(d),
{
    if d.game_over || d.downed {
        Gait::Die
    } else if d.driving {
        Gait::Drive
    } else if d.rolling {
        Gait::Sprint
    } else if d.swinging {
        Gait::Melee
    } else if d.guitarist_firing {
        Gait::Shoot
    } else if d.moving {
        Gait::Walk
    } else {
        Gait::Idle
    }
}

/// The clip name one gait plays on a rig; the two rigs name their clips
/// completely differently.
pub open spec fn clip_spec(rig: Rig, gait: Gait, armed: bool) -> Seq<char> {
    match (rig, gait) {
        (Rig::Skeletal, Gait::Idle) => if armed {
            "Idle_Gun"@
        } else {
            "Idle"@
        },
        (Rig::Skeletal, Gait::Walk) => "Walk"@,
        (Rig::Skeletal, Gait::Sprint) => "Run"@,
        (Rig::Skeletal, Gait::Shoot) => "Idle_Gun_Shoot"@,
        (Rig::Skeletal, Gait::Melee) => "Sword_Slash"@,
        (Rig::Skeletal, Gait::Die) => "Death"@,
        (Rig::Skeletal, Gait::Drive) => "Idle"@,
        (Rig::Boxy, Gait::Idle) => if armed {
            "holding-right"@
        } else {
            "idle"@
        },
        (Rig::Boxy, Gait::Walk) => "walk"@,
        (Rig::Boxy, Gait::Sprint) => "sprint"@,
        (Rig::Boxy, Gait::Shoot) => "holding-right-shoot"@,
        (Rig::Boxy, Gait::Melee) => "attack-melee-right"@,
        (Rig::Boxy, Gait::Die) => "die"@,
        (Rig::Boxy, Gait::Drive) => "drive"@,
    }
}

/// The rig a pick is built on.
pub open spec fn rig_of(p: Pick) -> Rig {
    match p {
        Pick::Boxy(_) => Rig::Boxy,
        Pick::Skeletal(_) => Rig::Skeletal,
    }
}

impl Pick {
    /// Every character you are allowed to play, boxy band first.
    pub fn playable() -> (v: Vec<Pick>)
        ensures
            v@ == playable_spec(),
    {
        let mut v: Vec<Pick> = Vec::new();
        let mut i: usize = 0;
        while i < BOXY_COUNT
            invariant
                0 <= i <= BOXY_COUNT,
                v@ == boxy_band(i as int),
            decreases BOXY_COUNT - i,
        {
            if boxy_cast(i) == Cast::Band {
                v.push(Pick::Boxy(i));
            }
            i = i + 1;
        }
        let ghost head = v@;
        let mut j: usize = 0;
        while j < SKIN_COUNT
            invariant
                0 <= j <= SKIN_COUNT,
                head == boxy_band(BOXY_COUNT as int),
                v@ == head + skin_band(j as int),
            decreases SKIN_COUNT - j,
        {
            if skin_cast(j) == Cast::Band {
                v.push(Pick::Skeletal(j));
            }
            j = j + 1;
        }
        v
    }

    /// Stable id of the character.
    pub fn id(self) -> (r: &'static str)
        requires
            valid_pick(self),
        ensures
            r@ == match self {
                Pick::Boxy(i) => boxy_id_spec(i as int),
                Pick::Skeletal(i) => skin_id_spec(i as int),
            },
    {
        match self {
            Pick::Boxy(i) => boxy_id(i),
            Pick::Skeletal(i) => skin_id(i),
        }
    }

    /// On-screen name of the character.
    pub fn name(self) -> (r: &'static str)
        requires
            valid_pick(self),
        ensures
            r@ == match self {
                Pick::Boxy(i) => boxy_name_spec(i as int),
                Pick::Skeletal(i) => skin_name_spec(i as int),
            },
    {
        match self {
            Pick::Boxy(i) => boxy_name(i),
            Pick::Skeletal(i) => skin_name(i),
        }
    }

    /// The musical idea the character is dressed from.
    pub fn genre(self) -> (r: &'static str)
        requires
            valid_pick(self),
        ensures
            r@ == match self {
                Pick::Boxy(i) => boxy_genre_spec(i as int),
                Pick::Skeletal(i) => skin_genre_spec(i as int),
            },
    {
        match self {
            Pick::Boxy(i) => boxy_genre(i),
            Pick::Skeletal(i) => skin_genre(i),
        }
    }

    /// Which line the character is drawn on.
    pub fn line(self) -> (r: &'static str)
        ensures
            r@ == match self {
                Pick::Boxy(_) => "blocky"@,
                Pick::Skeletal(_) => "skeletal"@,
            },
    {
        match self {
            Pick::Boxy(_) => "blocky",
            Pick::Skeletal(_) => "skeletal",
        }
    }

    /// The rig the character is built on.
    pub fn rig(self) -> (r: Rig)
        ensures
            r == rig_of(self),
    {
        match self {
            Pick::Boxy(_) => Rig::Boxy,
            Pick::Skeletal(_) => Rig::Skeletal,
        }
    }

    /// The scene to spawn: the one blocky base for the boxy cast, the skin's
    /// own body for the skeletal one.
    pub fn model(self) -> (r: &'static str)
        requires
            valid_pick(self),
        ensures
            r@ == match self {
                Pick::Boxy(_) => "models/blocky/base.glb"@,
                Pick::Skeletal(i) => skin_model_spec(i as int),
            },
    {
        match self {
            Pick::Boxy(_) => BOXY_BASE,
            Pick::Skeletal(i) => skin_model(i),
        }
    }

    /// The painted atlas — boxy characters only.
    pub fn atlas(self) -> (r: Option<&'static str>)
        requires
            valid_pick(self),
        ensures
            match self {
                Pick::Boxy(i) => r matches Some(s) && s@ == boxy_atlas_spec(i as int),
                Pick::Skeletal(_) => r is None,
            },
    {
        match self {
            Pick::Boxy(i) => Some(boxy_atlas(i)),
            Pick::Skeletal(_) => None,
        }
    }

    /// The face-plane texture — skeletal characters only.
    pub fn face(self) -> (r: Option<&'static str>)
        requires
            valid_pick(self),
        ensures
            match self {
                Pick::Boxy(_) => r is None,
                Pick::Skeletal(i) => match r {
                    Some(s) => skin_face_spec(i as int) == Some(s@),
                    None => skin_face_spec(i as int) is None,
                },
            },
    {
        match self {
            Pick::Boxy(_) => None,
            Pick::Skeletal(i) => skin_face(i),
        }
    }

    /// The voice of the character's shots.
    pub fn voice(self) -> (v: usize)
        requires
            valid_pick(self),
        ensures
            v == voice_spec(
                match self {
                    Pick::Boxy(i) => boxy_id_spec(i as int),
                    Pick::Skeletal(i) => skin_id_spec(i as int),
                },
            ),
    {
        voice_of(self.id())
    }

    /// The clip name for one gait on this character's rig.
    pub fn clip(self, gait: Gait, armed: bool) -> (r: &'static str)
        ensures
            r@ == clip_spec(rig_of(self), gait, armed),
    {
        match (self.rig(), gait) {
            (Rig::Skeletal, Gait::Idle) => if armed {
                "Idle_Gun"
            } else {
                "Idle"
            },
            (Rig::Skeletal, Gait::Walk) => "Walk",
            (Rig::Skeletal, Gait::Sprint) => "Run",
            (Rig::Skeletal, Gait::Shoot) => "Idle_Gun_Shoot",
            (Rig::Skeletal, Gait::Melee) => "Sword_Slash",
            (Rig::Skeletal, Gait::Die) => "Death",
            (Rig::Skeletal, Gait::Drive) => "Idle",
            (Rig::Boxy, Gait::Idle) => if armed {
                "holding-right"
            } else {
                "idle"
            },
            (Rig::Boxy, Gait::Walk) => "walk",
            (Rig::Boxy, Gait::Sprint) => "sprint",
            (Rig::Boxy, Gait::Shoot) => "holding-right-shoot",
            (Rig::Boxy, Gait::Melee) => "attack-melee-right",
            (Rig::Boxy, Gait::Die) => "die",
            (Rig::Boxy, Gait::Drive) => "drive",
        }
    }

    /// Stock kit a character ships wearing that no role here uses: the
    /// skeletal rig's pistol and backpack.
    pub fn hides(self, node: &str) -> (r: bool)
        ensures
            r == (rig_of(self) == Rig::Skeletal && (node@ == "Pistol"@ || node@ == "Backpack"@)),
    {
        self.rig() == Rig::Skeletal && (same_text(node, "Pistol") || same_text(node, "Backpack"))
    }

    /// Should this character be seen in the driving seat? Only the blocky rig
    /// has a sitting pose; a skeletal hero is hidden instead.
    pub fn sits_visibly(self) -> (r: bool)
        ensures
            r == (rig_of(self) == Rig::Boxy),
    {
        self.rig() == Rig::Boxy
    }

    /// Is this character out of sight in a vehicle? Nothing sits in a
    /// cockpit, so a pilot is never drawn; a driver is, if the rig can sit.
    pub fn hidden_aboard(self, driving: bool, flying: bool) -> (r: bool)
        ensures
            r == (flying || (driving && rig_of(self) != Rig::Boxy)),
    {
        flying || (driving && !self.sits_visibly())
    }
}

/// Look a skeletal skin up by id. Every caller passes a known id.
pub fn skin(id: &str) -> (i: usize)
    requires
        exists|k: int| 0 <= k < SKIN_COUNT && skin_id_spec(k) == id@,
    ensures
        i < SKIN_COUNT,
        skin_id_spec(i as int) == id@,
        forall|k: int| 0 <= k < i ==> skin_id_spec(k) != id@,
{
    let mut i: usize = 0;
    while i < SKIN_COUNT
        invariant
            0 <= i <= SKIN_COUNT,
            exists|k: int| 0 <= k < SKIN_COUNT && skin_id_spec(k) == id@,
            forall|k: int| 0 <= k < i ==> skin_id_spec(k) != id@,
        decreases SKIN_COUNT - i,
    {
        if same_text(id, skin_id(i)) {
            return i;
        }
        i = i + 1;
    }
    i
}

/// Look a boxy character up by id. Every caller passes a known id.
pub fn boxy(id: &str) -> (i: usize)
    requires
        exists|k: int| 0 <= k < BOXY_COUNT && boxy_id_spec(k) == id@,
    ensures
        i < BOXY_COUNT,
        boxy_id_spec(i as int) == id@,
        forall|k: int| 0 <= k < i ==> boxy_id_spec(k) != id@,
{
    let mut i: usize = 0;
    while i < BOXY_COUNT
        invariant
            0 <= i <= BOXY_COUNT,
            exists|k: int| 0 <= k < BOXY_COUNT && boxy_id_spec(k) == id@,
            forall|k: int| 0 <= k < i ==> boxy_id_spec(k) != id@,
        decreases BOXY_COUNT - i,
    {
        if same_text(id, boxy_id(i)) {
            return i;
        }
        i = i + 1;
    }
    i
}

/// Who each hero slot is being played as.
#[derive(Clone, Copy, PartialEq, Eq, Debug, Structural)]
pub struct Roster {
    pub guitarist: Pick,
    pub drummer: Pick,
}

/// The pick a roster has for a hero.
pub open spec fn roster_of(r: Roster, hero: Hero) -> Pick {
    match hero {
        Hero::Guitarist => r.guitarist,
        Hero::Drummer => r.drummer,
    }
}

impl Roster {
    /// The boxy punk and the boxy grunge drummer: the house style, and a pair
    /// that reads as one band.
    pub fn new() -> (r: Roster)
        ensures
            r.guitarist == Pick::Boxy(0),
            r.drummer == Pick::Boxy(2),
    {
        Roster { guitarist: Pick::Boxy(0), drummer: Pick::Boxy(2) }
    }

    /// Who plays `hero`.
    pub fn of(&self, hero: Hero) -> (p: Pick)
        ensures
            p == roster_of(*self, hero),
    {
        match hero {
            Hero::Guitarist => self.guitarist,
            Hero::Drummer => self.drummer,
        }
    }

    /// Cast `pick` as `hero`, leaving the other slot alone.
    pub fn set(&mut self, hero: Hero, pick: Pick)
        ensures
            roster_of(*final(self), hero) == pick,
            hero == Hero::Guitarist ==> final(self).drummer == old(self).drummer,
            hero == Hero::Drummer ==> final(self).guitarist == old(self).guitarist,
    {
        match hero {
            Hero::Guitarist => self.guitarist = pick,
            Hero::Drummer => self.drummer = pick,
        }
    }
}

/// Casting a hero and reading it back gives what was cast, and leaves the
/// other hero's pick as it was.
pub proof fn lemma_roster_read_after_write(r: Roster, hero: Hero, other: Hero, pick: Pick)
    requires
        other != hero,
    ensures
        ({
            let w = match hero {
                Hero::Guitarist => Roster { guitarist: pick, ..r },
                Hero::Drummer => Roster { drummer: pick, ..r },
            };
            roster_of(w, hero) == pick && roster_of(w, other) == roster_of(r, other)
        }),
{
}

} // verus!
