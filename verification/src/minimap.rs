//! The corner minimap: an RGBA picture of the level redrawn every frame, with
//! the roads, the ground the band has secured and live blips on top.
//!
//! Colours and opacities are in 255ths. World positions reach this module
//! already turned into pixel coordinates, which may lie off the map: anything
//! drawn there is clipped.

use vstd::prelude::*;
use vstd::arithmetic::div_mod::lemma_fundamental_div_mod_converse;

use crate::build_phase::{music_level, music_level_of, StructureKind};
use crate::gloom::Mood;
use crate::Hero;

verus! {

/// Width of the minimap picture, in pixels.
pub const MAP_W: usize = 192;
/// Height of the minimap picture, in pixels.
pub const MAP_H: usize = 138;
/// Bytes in the picture: four (red, green, blue, alpha) per pixel.
pub const MAP_BYTES: usize = 105_984;

/// A colour, each channel in 255ths.
#[derive(Clone, Copy, PartialEq, Eq, Debug, Structural)]
pub struct Rgb {
    pub r: u8,
    pub g: u8,
    pub b: u8,
}

/// Lay colour `c` over `src` at opacity `a`, rounding down.
pub open spec fn mix(src: u8, c: u8, a: u8) -> u8 {
    ((src * (255 - a) + c * a) / 255) as u8
}

/// A byte of a pixel after colour `c` is laid over it at opacity `a`: the
/// colour channels mix and the pixel becomes opaque.
pub open spec fn channel(old: u8, ch: int, c: Rgb, a: u8) -> u8 {
    if ch == 0 {
        mix(old, c.r, a)
    } else if ch == 1 {
        mix(old, c.g, a)
    } else if ch == 2 {
        mix(old, c.b, a)
    } else {
        255
    }
}

/// The column of the pixel byte `k` belongs to.
pub open spec fn col_of(k: int) -> int {
    (k / 4) % (MAP_W as int)
}

/// The row of the pixel byte `k` belongs to.
pub open spec fn row_of(k: int) -> int {
    (k / 4) / (MAP_W as int)
}

/// How a box of pixels around a centre is painted.
#[derive(Clone, Copy, PartialEq, Eq, Debug, Structural)]
pub enum Shape {
    /// Every pixel of the box, at one opacity.
    Square { alpha: u8 },
    /// The ellipse inscribed in the box, brightest at the centre and fading
    /// to nothing at the rim: opacity `strength` scaled by how far inside
    /// the rim the pixel is, never above `cap`.
    Disc { strength: u8, cap: u8 },
}

/// The opacity a shape paints the pixel at offset (`dx`, `dy`) from its
/// centre with, in a box of half-widths `rx` by `ry`; `None` where it leaves
/// the pixel alone. A disc with no width paints nothing.
pub open spec fn shade(shape: Shape, dx: int, dy: int, rx: int, ry: int) -> Option<u8> {
    match shape {
        Shape::Square { alpha } => Some(alpha),
        Shape::Disc { strength, cap } => {
            let num = dx * dx * ry * ry + dy * dy * rx * rx;
            let den = rx * rx * ry * ry;
            if den == 0 || num > den {
                None
            } else {
                let a = (den - num) * strength / den;
                Some(
                    if a > cap {
                        cap
                    } else {
                        a as u8
                    },
                )
            }
        },
    }
}

/// Whether (`x`, `y`) lies in the box of half-widths `rx` by `ry` around
/// (`cx`, `cy`).
pub open spec fn in_box(x: int, y: int, cx: int, cy: int, rx: int, ry: int) -> bool {
    cx - rx <= x <= cx + rx && cy - ry <= y <= cy + ry
}

/// Byte `k` of the picture `s` after the shape is painted in colour `c`.
pub open spec fn paint_byte(
    s: Seq<u8>,
    k: int,
    cx: int,
    cy: int,
    rx: int,
    ry: int,
    c: Rgb,
    shape: Shape,
) -> u8 {
    let x = col_of(k);
    let y = row_of(k);
    if in_box(x, y, cx, cy, rx, ry) {
        match shade(shape, x - cx, y - cy, rx, ry) {
            Some(a) => channel(s[k], k % 4, c, a),
            None => s[k],
        }
    } else {
        s[k]
    }
}

/// The picture `s` with the shape painted in colour `c` over the box of
/// half-widths `rx` by `ry` around (`cx`, `cy`), clipped to the map.
pub open spec fn painted(
    s: Seq<u8>,
    cx: int,
    cy: int,
    rx: int,
    ry: int,
    c: Rgb,
    shape: Shape,
) -> Seq<u8> {
    Seq::new(s.len(), |k: int| paint_byte(s, k, cx, cy, rx, ry, c, shape))
}

/// Painting keeps the picture's size and leaves every byte of every pixel
/// outside its box as it was: whatever falls off the map is dropped.
pub proof fn lemma_paint_stays_in_box(
    s: Seq<u8>,
    cx: int,
    cy: int,
    rx: int,
    ry: int,
    c: Rgb,
    shape: Shape,
    k: int,
)
    requires
        0 <= k < s.len(),
        !in_box(col_of(k), row_of(k), cx, cy, rx, ry),
    ensures
        painted(s, cx, cy, rx, ry, c, shape).len() == s.len(),
        painted(s, cx, cy, rx, ry, c, shape)[k] == s[k],
{
}

/// `painted`, with only the pixels before (`col`, `row`) in reading order
/// painted yet.
pub open spec fn painted_upto(
    s: Seq<u8>,
    cx: int,
    cy: int,
    rx: int,
    ry: int,
    c: Rgb,
    shape: Shape,
    row: int,
    col: int,
) -> Seq<u8> {
    Seq::new(
        s.len(),
        |k: int|
            if row_of(k) < row || (row_of(k) == row && col_of(k) < col) {
                paint_byte(s, k, cx, cy, rx, ry, c, shape)
            } else {
                s[k]
            },
    )
}

/// Whether a pixel is on the map's one-pixel frame.
pub open spec fn is_edge(x: int, y: int) -> bool {
    x < 1 || y < 1 || x >= MAP_W - 1 || y >= MAP_H - 1
}

/// The ground colour of a pixel: the frame, a road, or grass.
pub open spec fn ground_colour(x: int, y: int, road: bool) -> Rgb {
    if is_edge(x, y) {
        Rgb { r: 71, g: 112, b: 127 }
    } else if road {
        Rgb { r: 25, g: 28, b: 33 }
    } else {
        Rgb { r: 33, g: 43, b: 33 }
    }
}

/// Byte `k` of the bare map, given for each pixel whether it lies on a road:
/// every pixel opaque in its ground colour.
pub open spec fn ground_byte(k: int, road: Seq<bool>) -> u8 {
    channel(0, k % 4, ground_colour(col_of(k), row_of(k), road[k / 4]), 255)
}

/// One mark on the map.
#[derive(Clone, Copy, PartialEq, Eq, Debug, Structural)]
pub enum Stroke {
    /// A solid square blip of half-width `r`, optionally with a dark frame
    /// one pixel wider laid under it.
    Dot { x: i32, y: i32, r: u8, c: Rgb, outline: bool },
    /// A dot with a second, solid dot of half-width `inner_r` laid on top.
    Badge { x: i32, y: i32, r: u8, c: Rgb, outline: bool, inner_r: u8, inner_c: Rgb },
    /// A soft disc of half-widths `rx` by `ry`.
    Wash { x: i32, y: i32, rx: u16, ry: u16, c: Rgb, strength: u8, cap: u8 },
}

/// The dark frame under an outlined blip.
pub open spec fn frame_colour() -> Rgb {
    Rgb { r: 5, g: 5, b: 7 }
}

/// The picture `s` with a square blip laid on it.
pub open spec fn dotted(s: Seq<u8>, x: int, y: int, r: int, c: Rgb, outline: bool) -> Seq<u8> {
    let framed = if outline {
        painted(s, x, y, r + 1, r + 1, frame_colour(), Shape::Square { alpha: 204 })
    } else {
        s
    };
    painted(framed, x, y, r, r, c, Shape::Square { alpha: 255 })
}

/// The picture `s` with one stroke drawn on it.
pub open spec fn stroked(s: Seq<u8>, st: Stroke) -> Seq<u8> {
    match st {
        Stroke::Dot { x, y, r, c, outline } => dotted(s, x as int, y as int, r as int, c, outline),
        Stroke::Badge { x, y, r, c, outline, inner_r, inner_c } => dotted(
            dotted(s, x as int, y as int, r as int, c, outline),
            x as int,
            y as int,
            inner_r as int,
            inner_c,
            false,
        ),
        Stroke::Wash { x, y, rx, ry, c, strength, cap } => painted(
            s,
            x as int,
            y as int,
            rx as int,
            ry as int,
            c,
            Shape::Disc { strength, cap },
        ),
    }
}

/// The picture `s` with the strokes drawn on it in order.
pub open spec fn strokes_applied(s: Seq<u8>, strokes: Seq<Stroke>) -> Seq<u8>
    decreases strokes.len(),
{
    if strokes.len() == 0 {
        s
    } else {
        stroked(strokes_applied(s, strokes.drop_last()), strokes.last())
    }
}

/// Byte `j` of the pixel (`x`, `y`) is byte `(y * MAP_W + x) * 4 + j`, and no
/// other pixel's.
proof fn lemma_pixel_byte(x: int, y: int, j: int)
    requires
        0 <= x < MAP_W,
        0 <= y < MAP_H,
        0 <= j < 4,
    ensures
        ((y * MAP_W + x) * 4 + j) / 4 == y * MAP_W + x,
        ((y * MAP_W + x) * 4 + j) % 4 == j,
        col_of((y * MAP_W + x) * 4 + j) == x,
        row_of((y * MAP_W + x) * 4 + j) == y,
        0 <= (y * MAP_W + x) * 4 + j < MAP_BYTES,
{
    let p = y * MAP_W + x;
    lemma_fundamental_div_mod_converse(p * 4 + j, 4, p, j);
    lemma_fundamental_div_mod_converse(p, MAP_W as int, y, x);
    assert(p * 4 + j < MAP_BYTES) by (nonlinear_arith)
        requires
            p == y * MAP_W + x,
            0 <= x < MAP_W,
            0 <= y < MAP_H,
            0 <= j < 4,
    ;
    assert(p * 4 + j >= 0) by (nonlinear_arith)
        requires
            p == y * MAP_W + x,
            0 <= x,
            0 <= y,
            0 <= j,
    ;
}

/// Every byte of the picture lies in a pixel on the map.
proof fn lemma_byte_pixel(k: int)
    requires
        0 <= k < MAP_BYTES,
    ensures
        0 <= col_of(k) < MAP_W,
        0 <= row_of(k) < MAP_H,
        k == (row_of(k) * MAP_W + col_of(k)) * 4 + k % 4,
{
    let p = k / 4;
    assert(0 <= p < MAP_W * MAP_H);
    assert(p == (p / (MAP_W as int)) * MAP_W + p % (MAP_W as int));
    assert(k == p * 4 + k % 4);
}

/// Lay colour byte `c` over `src` at opacity `a`.
fn mix_bytes(src: u8, c: u8, a: u8) -> (r: u8)
    ensures
        r == mix(src, c, a),
{
    let keep: u32 = 255 - a as u32;
    proof {
        assert(src as u32 * keep <= 255 * keep) by (nonlinear_arith)
            requires
                src <= 255,
        ;
        assert(c as u32 * a as u32 <= 255 * a) by (nonlinear_arith)
            requires
                c <= 255,
        ;
    }
    let sum: u32 = src as u32 * keep + c as u32 * a as u32;
    assert(sum / 255 <= 255);
    (sum / 255) as u8
}


/// The two sides of the ellipse test for an offset (`ax`, `ay`) in a box of
/// half-widths `wx` by `wy`.
fn disc_terms(ax: u128, ay: u128, wx: u128, wy: u128) -> (r: (u128, u128))
    requires
        ax <= 65535,
        ay <= 65535,
        wx <= 65535,
        wy <= 65535,
    ensures
        r.0 == ax * ax * wy * wy + ay * ay * wx * wx,
        r.1 == wx * wx * wy * wy,
        r.1 <= 65535 * 65535 * 65535 * 65535,
{
    proof {
        assert(ax * ax <= 65535 * 65535) by (nonlinear_arith)
            requires
                ax <= 65535,
        ;
        assert(ay * ay <= 65535 * 65535) by (nonlinear_arith)
            requires
                ay <= 65535,
        ;
        assert(wx * wx <= 65535 * 65535) by (nonlinear_arith)
            requires
                wx <= 65535,
        ;
        assert(wy * wy <= 65535 * 65535) by (nonlinear_arith)
            requires
                wy <= 65535,
        ;
    }
    let xx: u128 = ax * ax;
    let yy: u128 = ay * ay;
    let rxx: u128 = wx * wx;
    let ryy: u128 = wy * wy;
    proof {
        assert(xx * ryy <= (65535 * 65535) * (65535 * 65535)) by (nonlinear_arith)
            requires
                xx <= 65535 * 65535,
                ryy <= 65535 * 65535,
        ;
        assert(yy * rxx <= (65535 * 65535) * (65535 * 65535)) by (nonlinear_arith)
            requires
                yy <= 65535 * 65535,
                rxx <= 65535 * 65535,
        ;
        assert(rxx * ryy <= (65535 * 65535) * (65535 * 65535)) by (nonlinear_arith)
            requires
                rxx <= 65535 * 65535,
                ryy <= 65535 * 65535,
        ;
        assert(xx * ryy == ax * ax * wy * wy) by (nonlinear_arith)
            requires
                xx == ax * ax,
                ryy == wy * wy,
        ;
        assert(yy * rxx == ay * ay * wx * wx) by (nonlinear_arith)
            requires
                yy == ay * ay,
                rxx == wx * wx,
        ;
        assert(rxx * ryy == wx * wx * wy * wy) by (nonlinear_arith)
            requires
                rxx == wx * wx,
                ryy == wy * wy,
        ;
    }
    (xx * ryy + yy * rxx, rxx * ryy)
}

/// The opacity a shape paints an offset inside its box with.
fn shade_at(shape: Shape, dx: i64, dy: i64, rx: u16, ry: u16) -> (r: Option<u8>)
    requires
        -(rx as int) <= dx <= rx,
        -(ry as int) <= dy <= ry,
    ensures
        r == shade(shape, dx as int, dy as int, rx as int, ry as int),
{
    match shape {
        Shape::Square { alpha } => Some(alpha),
        Shape::Disc { strength, cap } => {
            let ax: u128 = if dx < 0 { (-dx) as u128 } else { dx as u128 };
            let ay: u128 = if dy < 0 { (-dy) as u128 } else { dy as u128 };
            let wx: u128 = rx as u128;
            let wy: u128 = ry as u128;
            assert(ax <= 65535 && ay <= 65535);
            let (num, den) = disc_terms(ax, ay, wx, wy);
            proof {
                assert(ax * ax == dx * dx) by (nonlinear_arith)
                    requires
                        ax == dx || ax == -dx,
                ;
                assert(ay * ay == dy * dy) by (nonlinear_arith)
                    requires
                        ay == dy || ay == -dy,
                ;
            }
            if den == 0 || num > den {
                None
            } else {
                proof {
                    assert((den - num) * strength <= den * 255) by (nonlinear_arith)
                        requires
                            num <= den,
                            strength <= 255,
                    ;
                    assert((den - num) * strength / (den as int) <= 255) by (nonlinear_arith)
                        requires
                            (den - num) * strength <= den * 255,
                            den > 0,
                    ;
                }
                let a: u128 = (den - num) * strength as u128 / den;
                Some(
                    if a > cap as u128 {
                        cap
                    } else {
                        a as u8
                    },
                )
            }
        },
    }
}

/// A channel that brightens from `base` by up to `span` with the pulse.
fn pulse_channel(base: u8, span: u8, pulse: u8) -> (r: u8)
    requires
        base + span <= 255,
    ensures
        r == pulsed(base, span, pulse),
{
    proof {
        assert(span * pulse <= span * 255) by (nonlinear_arith)
            requires
                pulse <= 255,
        ;
        assert(span * pulse / 255 <= span) by (nonlinear_arith)
            requires
                span * pulse <= span * 255,
        ;
    }
    base + ((span as u32 * pulse as u32) / 255) as u8
}

fn make_zone_stroke(z: ZoneBlip, strength: u8) -> (st: Stroke)
    ensures
        st == zone_stroke(z, strength),
{
    Stroke::Wash {
        x: z.at.x,
        y: z.at.y,
        rx: z.rx,
        ry: z.ry,
        c: Rgb { r: 89, g: 242, b: 216 },
        strength,
        cap: 158,
    }
}

fn make_enemy_stroke(b: Blip) -> (st: Stroke)
    ensures
        st == enemy_stroke(b),
{
    Stroke::Dot { x: b.x, y: b.y, r: 0, c: Rgb { r: 242, g: 63, b: 56 }, outline: false }
}

fn make_pitch_stroke(p: PitchBlip, pulse: u8) -> (st: Stroke)
    ensures
        st == pitch_stroke(p, pulse),
{
    let c = match p.kind {
        StructureKind::Speaker => Rgb { r: 76, g: pulse_channel(158, 51, pulse), b: 204 },
        StructureKind::Stage => Rgb { r: 216, g: pulse_channel(140, 51, pulse), b: 56 },
    };
    Stroke::Dot { x: p.at.x, y: p.at.y, r: 1, c, outline: false }
}

fn make_site_stroke(b: Blip, pulse: u8) -> (st: Stroke)
    ensures
        st == site_stroke(b, pulse),
{
    Stroke::Dot {
        x: b.x,
        y: b.y,
        r: 1,
        c: Rgb { r: 255, g: pulse_channel(178, 76, pulse), b: 51 },
        outline: true,
    }
}

fn make_speaker_stroke(b: Blip) -> (st: Stroke)
    ensures
        st == speaker_stroke(b),
{
    Stroke::Dot { x: b.x, y: b.y, r: 1, c: Rgb { r: 102, g: 242, b: 255 }, outline: true }
}

fn make_stage_stroke(b: Blip) -> (st: Stroke)
    ensures
        st == stage_stroke(b),
{
    Stroke::Badge {
        x: b.x,
        y: b.y,
        r: 2,
        c: Rgb { r: 178, g: 255, b: 255 },
        outline: true,
        inner_r: 1,
        inner_c: Rgb { r: 255, g: 127, b: 242 },
    }
}

fn make_gloom_stroke(g: GloomBlip, pulse: u8) -> (st: Stroke)
    ensures
        st == gloom_stroke(g, pulse),
{
    match g.mood {
        Mood::Dormant => Stroke::Dot {
            x: g.at.x,
            y: g.at.y,
            r: 1,
            c: Rgb { r: 86, g: 76, b: 117 },
            outline: true,
        },
        Mood::Brooding => Stroke::Badge {
            x: g.at.x,
            y: g.at.y,
            r: 2,
            c: Rgb { r: 12, g: 7, b: 25 },
            outline: true,
            inner_r: 1,
            inner_c: Rgb { r: 158, g: pulse_channel(91, 86, pulse), b: 242 },
        },
        _ => Stroke::Dot {
            x: g.at.x,
            y: g.at.y,
            r: 1,
            c: Rgb { r: 255, g: 219, b: 107 },
            outline: true,
        },
    }
}

fn make_hero_stroke(h: HeroBlip) -> (st: Stroke)
    ensures
        st == hero_stroke(h),
{
    let c = match h.hero {
        Hero::Guitarist => Rgb { r: 89, g: 216, b: 255 },
        Hero::Drummer => Rgb { r: 255, g: 158, b: 56 },
    };
    let c = if h.downed {
        Rgb { r: c.r / 5 * 2 + c.r % 5 * 2 / 5, g: c.g / 5 * 2 + c.g % 5 * 2 / 5, b: c.b / 5 * 2 + c.b % 5 * 2 / 5 }
    } else {
        c
    };
    Stroke::Dot { x: h.at.x, y: h.at.y, r: 2, c, outline: true }
}

/// The washes over the home districts of the gloom sources that have come
/// round.
fn push_district_strokes(out: &mut Vec<Stroke>, items: &Vec<GloomBlip>, rx: u16, ry: u16)
    ensures
        final(out)@ == old(out)@ + items@.filter_map(|g: GloomBlip| district_stroke(g, rx, ry)),
{
    let ghost start = old(out)@;
    let ghost f = |g: GloomBlip| district_stroke(g, rx, ry);
    let mut i: usize = 0;
    assert(items@.take(0).filter_map(f) =~= Seq::<Stroke>::empty());
    while i < items.len()
        invariant
            0 <= i <= items@.len(),
            f == (|g: GloomBlip| district_stroke(g, rx, ry)),
            out@ == start + items@.take(i as int).filter_map(f),
        decreases items@.len() - i,
    {
        let g = items[i];
        proof {
            items@.lemma_filter_map_take_succ(f, i as int);
        }
        if g.mood == Mood::Marching || g.mood == Mood::Happy {
            out.push(
                Stroke::Wash {
                    x: g.home.x,
                    y: g.home.y,
                    rx,
                    ry,
                    c: Rgb { r: 255, g: 209, b: 107 },
                    strength: 66,
                    cap: 255,
                },
            );
        }
        i = i + 1;
        assert(out@ =~= start + items@.take(i as int).filter_map(f));
    }
    assert(items@.take(items@.len() as int) =~= items@);
}

/// The glow of each secured zone.
fn push_zone_strokes(out: &mut Vec<Stroke>, items: &Vec<ZoneBlip>, strength: u8)
    ensures
        final(out)@ == old(out)@ + items@.map_values(|z: ZoneBlip| zone_stroke(z, strength)),
{
    let ghost start = old(out)@;
    let mut i: usize = 0;
    while i < items.len()
        invariant
            0 <= i <= items@.len(),
            out@ == start + items@.subrange(0, i as int).map_values(|z: ZoneBlip| zone_stroke(z, strength)),
        decreases items@.len() - i,
    {
        let st = make_zone_stroke(items[i], strength);
        out.push(st);
        i = i + 1;
        assert(out@ =~= start + items@.subrange(0, i as int).map_values(|z: ZoneBlip| zone_stroke(z, strength)));
    }
    assert(items@.subrange(0, items@.len() as int) =~= items@);
}

/// A blip for each bad vibe.
fn push_enemy_strokes(out: &mut Vec<Stroke>, items: &Vec<Blip>)
    ensures
        final(out)@ == old(out)@ + items@.map_values(|b: Blip| enemy_stroke(b)),
{
    let ghost start = old(out)@;
    let mut i: usize = 0;
    while i < items.len()
        invariant
            0 <= i <= items@.len(),
            out@ == start + items@.subrange(0, i as int).map_values(|b: Blip| enemy_stroke(b)),
        decreases items@.len() - i,
    {
        let st = make_enemy_stroke(items[i]);
        out.push(st);
        i = i + 1;
        assert(out@ =~= start + items@.subrange(0, i as int).map_values(|b: Blip| enemy_stroke(b)));
    }
    assert(items@.subrange(0, items@.len() as int) =~= items@);
}

/// A marker for each free pitch.
fn push_pitch_strokes(out: &mut Vec<Stroke>, items: &Vec<PitchBlip>, pulse: u8)
    ensures
        final(out)@ == old(out)@ + items@.map_values(|p: PitchBlip| pitch_stroke(p, pulse)),
{
    let ghost start = old(out)@;
    let mut i: usize = 0;
    while i < items.len()
        invariant
            0 <= i <= items@.len(),
            out@ == start + items@.subrange(0, i as int).map_values(|p: PitchBlip| pitch_stroke(p, pulse)),
        decreases items@.len() - i,
    {
        let st = make_pitch_stroke(items[i], pulse);
        out.push(st);
        i = i + 1;
        assert(out@ =~= start + items@.subrange(0, i as int).map_values(|p: PitchBlip| pitch_stroke(p, pulse)));
    }
    assert(items@.subrange(0, items@.len() as int) =~= items@);
}

/// A marker for each build site.
fn push_site_strokes(out: &mut Vec<Stroke>, items: &Vec<Blip>, pulse: u8)
    ensures
        final(out)@ == old(out)@ + items@.map_values(|b: Blip| site_stroke(b, pulse)),
{
    let ghost start = old(out)@;
    let mut i: usize = 0;
    while i < items.len()
        invariant
            0 <= i <= items@.len(),
            out@ == start + items@.subrange(0, i as int).map_values(|b: Blip| site_stroke(b, pulse)),
        decreases items@.len() - i,
    {
        let st = make_site_stroke(items[i], pulse);
        out.push(st);
        i = i + 1;
        assert(out@ =~= start + items@.subrange(0, i as int).map_values(|b: Blip| site_stroke(b, pulse)));
    }
    assert(items@.subrange(0, items@.len() as int) =~= items@);
}

/// A marker for each loudspeaker.
fn push_speaker_strokes(out: &mut Vec<Stroke>, items: &Vec<Blip>)
    ensures
        final(out)@ == old(out)@ + items@.map_values(|b: Blip| speaker_stroke(b)),
{
    let ghost start = old(out)@;
    let mut i: usize = 0;
    while i < items.len()
        invariant
            0 <= i <= items@.len(),
            out@ == start + items@.subrange(0, i as int).map_values(|b: Blip| speaker_stroke(b)),
        decreases items@.len() - i,
    {
        let st = make_speaker_stroke(items[i]);
        out.push(st);
        i = i + 1;
        assert(out@ =~= start + items@.subrange(0, i as int).map_values(|b: Blip| speaker_stroke(b)));
    }
    assert(items@.subrange(0, items@.len() as int) =~= items@);
}

/// A marker for each stage.
fn push_stage_strokes(out: &mut Vec<Stroke>, items: &Vec<Blip>)
    ensures
        final(out)@ == old(out)@ + items@.map_values(|b: Blip| stage_stroke(b)),
{
    let ghost start = old(out)@;
    let mut i: usize = 0;
    while i < items.len()
        invariant
            0 <= i <= items@.len(),
            out@ == start + items@.subrange(0, i as int).map_values(|b: Blip| stage_stroke(b)),
        decreases items@.len() - i,
    {
        let st = make_stage_stroke(items[i]);
        out.push(st);
        i = i + 1;
        assert(out@ =~= start + items@.subrange(0, i as int).map_values(|b: Blip| stage_stroke(b)));
    }
    assert(items@.subrange(0, items@.len() as int) =~= items@);
}

/// A marker for each gloom source.
fn push_gloom_strokes(out: &mut Vec<Stroke>, items: &Vec<GloomBlip>, pulse: u8)
    ensures
        final(out)@ == old(out)@ + items@.map_values(|g: GloomBlip| gloom_stroke(g, pulse)),
{
    let ghost start = old(out)@;
    let mut i: usize = 0;
    while i < items.len()
        invariant
            0 <= i <= items@.len(),
            out@ == start + items@.subrange(0, i as int).map_values(|g: GloomBlip| gloom_stroke(g, pulse)),
        decreases items@.len() - i,
    {
        let st = make_gloom_stroke(items[i], pulse);
        out.push(st);
        i = i + 1;
        assert(out@ =~= start + items@.subrange(0, i as int).map_values(|g: GloomBlip| gloom_stroke(g, pulse)));
    }
    assert(items@.subrange(0, items@.len() as int) =~= items@);
}

/// A marker for each hero.
fn push_hero_strokes(out: &mut Vec<Stroke>, items: &Vec<HeroBlip>)
    ensures
        final(out)@ == old(out)@ + items@.map_values(|h: HeroBlip| hero_stroke(h)),
{
    let ghost start = old(out)@;
    let mut i: usize = 0;
    while i < items.len()
        invariant
            0 <= i <= items@.len(),
            out@ == start + items@.subrange(0, i as int).map_values(|h: HeroBlip| hero_stroke(h)),
        decreases items@.len() - i,
    {
        let st = make_hero_stroke(items[i]);
        out.push(st);
        i = i + 1;
        assert(out@ =~= start + items@.subrange(0, i as int).map_values(|h: HeroBlip| hero_stroke(h)));
    }
    assert(items@.subrange(0, items@.len() as int) =~= items@);
}

/// Every stroke of a frame, bottom layer first.
pub fn strokes_of(f: &MapFrame) -> (r: Vec<Stroke>)
    ensures
        r@ == frame_strokes(*f),
{
    let mut flags: Vec<bool> = Vec::new();
    let mut i: usize = 0;
    while i < f.zones.len()
        invariant
            0 <= i <= f.zones@.len(),
            flags@ == f.zones@.subrange(0, i as int).map_values(|z: ZoneBlip| z.stage),
        decreases f.zones@.len() - i,
    {
        flags.push(f.zones[i].stage);
        i = i + 1;
        assert(flags@ =~= f.zones@.subrange(0, i as int).map_values(|z: ZoneBlip| z.stage));
    }
    assert(f.zones@.subrange(0, f.zones@.len() as int) =~= f.zones@);
    let level: u32 = music_level(&flags);
    assert(level <= 9500);
    let strength: u8 = ((16000 + 3 * level as u64) * 255 / 100000) as u8;
    let mut out: Vec<Stroke> = Vec::new();
    push_district_strokes(&mut out, &f.gloom, f.district_rx, f.district_ry);
    push_zone_strokes(&mut out, &f.zones, strength);
    push_enemy_strokes(&mut out, &f.enemies);
    push_pitch_strokes(&mut out, &f.pitches, f.pulse);
    push_site_strokes(&mut out, &f.sites, f.pulse);
    push_speaker_strokes(&mut out, &f.speakers);
    push_stage_strokes(&mut out, &f.stages);
    push_gloom_strokes(&mut out, &f.gloom, f.pulse);
    push_hero_strokes(&mut out, &f.heroes);
    assert(out@ =~= frame_strokes(*f));
    out
}

/// The minimap picture.
pub struct Minimap {
    data: Vec<u8>,
}

impl View for Minimap {
    type V = Seq<u8>;

    closed spec fn view(&self) -> Seq<u8> {
        self.data@
    }
}

impl Minimap {
    /// The picture is the map's size.
    pub closed spec fn wf(&self) -> bool {
        self.data@.len() == MAP_BYTES
    }

    /// A blank, fully transparent picture.
    pub fn new() -> (m: Minimap)
        ensures
            m.wf(),
            m@ == Seq::new(MAP_BYTES as nat, |k: int| 0u8),
    {
        let mut data: Vec<u8> = Vec::new();
        let mut k: usize = 0;
        while k < MAP_BYTES
            invariant
                0 <= k <= MAP_BYTES,
                data@ == Seq::new(k as nat, |j: int| 0u8),
            decreases MAP_BYTES - k,
        {
            data.push(0);
            k = k + 1;
            assert(data@ =~= Seq::new(k as nat, |j: int| 0u8));
        }
        Minimap { data }
    }

    /// The picture's bytes, row by row, four per pixel.
    pub fn pixels(&self) -> (r: &Vec<u8>)
        requires
            self.wf(),
        ensures
            r@ == self@,
            r@.len() == MAP_BYTES,
    {
        &self.data
    }

    /// Redraw the bare map: the frame, the roads (`road` says, for each pixel
    /// in reading order, whether it lies on one) and grass, all opaque.
    pub fn fill_ground(&mut self, road: &Vec<bool>)
        requires
            road@.len() == MAP_W * MAP_H,
        ensures
            final(self).wf(),
            final(self)@ == Seq::new(MAP_BYTES as nat, |k: int| ground_byte(k, road@)),
    {
        let mut data: Vec<u8> = Vec::new();
        let mut p: usize = 0;
        while p < MAP_W * MAP_H
            invariant
                road@.len() == MAP_W * MAP_H,
                0 <= p <= MAP_W * MAP_H,
                data@ == Seq::new((p * 4) as nat, |k: int| ground_byte(k, road@)),
            decreases MAP_W * MAP_H - p,
        {
            let x: usize = p % MAP_W;
            let y: usize = p / MAP_W;
            let edge = x < 1 || y < 1 || x >= MAP_W - 1 || y >= MAP_H - 1;
            let c = if edge {
                Rgb { r: 71, g: 112, b: 127 }
            } else if road[p] {
                Rgb { r: 25, g: 28, b: 33 }
            } else {
                Rgb { r: 33, g: 43, b: 33 }
            };
            proof {
                assert(p == y * MAP_W + x);
                lemma_pixel_byte(x as int, y as int, 0);
                lemma_pixel_byte(x as int, y as int, 1);
                lemma_pixel_byte(x as int, y as int, 2);
                lemma_pixel_byte(x as int, y as int, 3);
            }
            data.push(c.r);
            data.push(c.g);
            data.push(c.b);
            data.push(255);
            p = p + 1;
            assert(data@ =~= Seq::new((p * 4) as nat, |k: int| ground_byte(k, road@)));
        }
        self.data = data;
    }

    /// Redraw the whole map for a frame: the bare ground, then every stroke
    /// of the frame in order.
    pub fn draw_frame(&mut self, f: &MapFrame)
        requires
            f.road@.len() == MAP_W * MAP_H,
        ensures
            final(self).wf(),
            final(self)@ == strokes_applied(
                Seq::new(MAP_BYTES as nat, |k: int| ground_byte(k, f.road@)),
                frame_strokes(*f),
            ),
    {
        let strokes = strokes_of(f);
        self.fill_ground(&f.road);
        self.draw_all(&strokes);
    }

    /// Lay a square blip on the map.
    fn dot(&mut self, x: i32, y: i32, r: u8, c: Rgb, outline: bool)
        requires
            old(self).wf(),
        ensures
            final(self).wf(),
            final(self)@ == dotted(old(self)@, x as int, y as int, r as int, c, outline),
    {
        if outline {
            self.paint(x, y, r as u16 + 1, r as u16 + 1, Rgb { r: 5, g: 5, b: 7 }, Shape::Square { alpha: 204 });
        }
        self.paint(x, y, r as u16, r as u16, c, Shape::Square { alpha: 255 });
    }

    /// Draw one stroke on the map.
    pub fn draw(&mut self, st: Stroke)
        requires
            old(self).wf(),
        ensures
            final(self).wf(),
            final(self)@ == stroked(old(self)@, st),
    {
        match st {
            Stroke::Dot { x, y, r, c, outline } => self.dot(x, y, r, c, outline),
            Stroke::Badge { x, y, r, c, outline, inner_r, inner_c } => {
                self.dot(x, y, r, c, outline);
                self.dot(x, y, inner_r, inner_c, false);
            },
            Stroke::Wash { x, y, rx, ry, c, strength, cap } => {
                self.paint(x, y, rx, ry, c, Shape::Disc { strength, cap });
            },
        }
    }

    /// Draw the strokes on the map, in order.
    pub fn draw_all(&mut self, strokes: &Vec<Stroke>)
        requires
            old(self).wf(),
        ensures
            final(self).wf(),
            final(self)@ == strokes_applied(old(self)@, strokes@),
    {
        let ghost start = self@;
        let mut i: usize = 0;
        while i < strokes.len()
            invariant
                self.wf(),
                0 <= i <= strokes@.len(),
                self@ == strokes_applied(start, strokes@.subrange(0, i as int)),
            decreases strokes@.len() - i,
        {
            self.draw(strokes[i]);
            proof {
                let done = strokes@.subrange(0, i + 1);
                assert(done.drop_last() =~= strokes@.subrange(0, i as int));
            }
            i = i + 1;
        }
        assert(strokes@.subrange(0, strokes@.len() as int) =~= strokes@);
    }

    /// Paint a shape in colour `c` over the box of half-widths `rx` by `ry`
    /// around (`cx`, `cy`), clipped to the map.
    pub fn paint(&mut self, cx: i32, cy: i32, rx: u16, ry: u16, c: Rgb, shape: Shape)
        requires
            old(self).wf(),
        ensures
            final(self).wf(),
            final(self)@ == painted(old(self)@, cx as int, cy as int, rx as int, ry as int, c, shape),
    {
        let ghost s = self@;
        let ghost (gcx, gcy, grx, gry) = (cx as int, cy as int, rx as int, ry as int);
        let left: i64 = cx as i64 - rx as i64;
        let right: i64 = cx as i64 + rx as i64;
        let top: i64 = cy as i64 - ry as i64;
        let bottom: i64 = cy as i64 + ry as i64;
        let x_lo: i64 = if left < 0 { 0 } else { left };
        let x_hi: i64 = if right > 191 { 191 } else { right };
        let y_lo: i64 = if top < 0 { 0 } else { top };
        let y_hi: i64 = if bottom > 137 { 137 } else { bottom };
        if x_lo > x_hi || y_lo > y_hi {
            proof {
                assert forall|k: int| 0 <= k < s.len() implies #[trigger] painted(
                    s,
                    gcx,
                    gcy,
                    grx,
                    gry,
                    c,
                    shape,
                )[k] == s[k] by {
                    lemma_byte_pixel(k);
                }
                assert(painted(s, gcx, gcy, grx, gry, c, shape) =~= s);
            }
            return;
        }
        proof {
            assert forall|k: int| 0 <= k < s.len() implies #[trigger] painted_upto(
                s,
                gcx,
                gcy,
                grx,
                gry,
                c,
                shape,
                y_lo as int,
                x_lo as int,
            )[k] == s[k] by {
                lemma_byte_pixel(k);
            }
            assert(painted_upto(s, gcx, gcy, grx, gry, c, shape, y_lo as int, x_lo as int) =~= s);
        }
        let mut y: i64 = y_lo;
        while y <= y_hi
            invariant
                self.wf(),
                s.len() == MAP_BYTES,
                gcx == cx,
                gcy == cy,
                grx == rx,
                gry == ry,
                x_lo == (if cx - rx < 0 { 0 } else { cx - rx }),
                x_hi == (if cx + rx > 191 { 191 } else { cx + rx }),
                y_lo == (if cy - ry < 0 { 0 } else { cy - ry }),
                y_hi == (if cy + ry > 137 { 137 } else { cy + ry }),
                x_lo <= x_hi,
                y_lo <= y <= y_hi + 1,
                self@ == painted_upto(s, gcx, gcy, grx, gry, c, shape, y as int, x_lo as int),
            decreases y_hi + 1 - y,
        {
            let mut x: i64 = x_lo;
            while x <= x_hi
                invariant
                    self.wf(),
                    s.len() == MAP_BYTES,
                    gcx == cx,
                    gcy == cy,
                    grx == rx,
                    gry == ry,
                    x_lo == (if cx - rx < 0 { 0 } else { cx - rx }),
                    x_hi == (if cx + rx > 191 { 191 } else { cx + rx }),
                    y_lo == (if cy - ry < 0 { 0 } else { cy - ry }),
                    y_hi == (if cy + ry > 137 { 137 } else { cy + ry }),
                    y_lo <= y <= y_hi,
                    x_lo <= x <= x_hi + 1,
                    self@ == painted_upto(s, gcx, gcy, grx, gry, c, shape, y as int, x as int),
                decreases x_hi + 1 - x,
            {
                let ghost before = self@;
                let a = shade_at(shape, x - cx as i64, y - cy as i64, rx, ry);
                match a {
                    Some(al) => {
                        self.blend_at(x as usize, y as usize, c, al);
                    },
                    None => {},
                }
                proof {
                    let next = painted_upto(s, gcx, gcy, grx, gry, c, shape, y as int, x + 1);
                    assert forall|k: int| 0 <= k < s.len() implies #[trigger] self@[k] == next[k] by {
                        if col_of(k) == x && row_of(k) == y {
                            assert(in_box(x as int, y as int, gcx, gcy, grx, gry));
                        }
                    }
                    assert(self@ =~= next);
                }
                x = x + 1;
            }
            proof {
                let done = painted_upto(s, gcx, gcy, grx, gry, c, shape, y as int, x_hi + 1);
                let next = painted_upto(s, gcx, gcy, grx, gry, c, shape, y + 1, x_lo as int);
                assert forall|k: int| 0 <= k < s.len() implies #[trigger] done[k] == next[k] by {
                    lemma_byte_pixel(k);
                }
                assert(done =~= next);
            }
            y = y + 1;
        }
        proof {
            let done = painted_upto(s, gcx, gcy, grx, gry, c, shape, y_hi + 1, x_lo as int);
            let all = painted(s, gcx, gcy, grx, gry, c, shape);
            assert forall|k: int| 0 <= k < s.len() implies #[trigger] done[k] == all[k] by {
                lemma_byte_pixel(k);
            }
            assert(done =~= all);
        }
    }

    /// Lay colour `c` over the pixel (`x`, `y`) at opacity `a`.
    fn blend_at(&mut self, x: usize, y: usize, c: Rgb, a: u8)
        requires
            old(self).wf(),
            x < MAP_W,
            y < MAP_H,
        ensures
            final(self).wf(),
            final(self)@ == Seq::new(
                old(self)@.len(),
                |k: int|
                    if col_of(k) == x && row_of(k) == y {
                        channel(old(self)@[k], k % 4, c, a)
                    } else {
                        old(self)@[k]
                    },
            ),
    {
        let ghost before = self.data@;
        let i: usize = (y * MAP_W + x) * 4;
        proof {
            lemma_pixel_byte(x as int, y as int, 0);
            lemma_pixel_byte(x as int, y as int, 1);
            lemma_pixel_byte(x as int, y as int, 2);
            lemma_pixel_byte(x as int, y as int, 3);
        }
        let r: u8 = mix_bytes(self.data[i], c.r, a);
        let g: u8 = mix_bytes(self.data[i + 1], c.g, a);
        let b: u8 = mix_bytes(self.data[i + 2], c.b, a);
        self.data.set(i, r);
        self.data.set(i + 1, g);
        self.data.set(i + 2, b);
        self.data.set(i + 3, 255);
        proof {
            assert forall|k: int| 0 <= k < before.len() implies #[trigger] self.data@[k] == (
            if col_of(k) == x && row_of(k) == y {
                channel(before[k], k % 4, c, a)
            } else {
                before[k]
            }) by {
                lemma_byte_pixel(k);
                if col_of(k) == x && row_of(k) == y {
                    assert(k == i + k % 4);
                } else {
                    assert(k < i || k > i + 3) by {
                        if i <= k <= i + 3 {
                            lemma_pixel_byte(x as int, y as int, k - i);
                        }
                    }
                }
            }
            assert(self.data@ =~= Seq::new(
                before.len(),
                |k: int|
                    if col_of(k) == x && row_of(k) == y {
                        channel(before[k], k % 4, c, a)
                    } else {
                        before[k]
                    },
            ));
        }
    }
}

// ---------------------------------------------------------------------------
// A frame of the map
// ---------------------------------------------------------------------------

/// A point on the map, in pixels; it may lie off the map.
#[derive(Clone, Copy, PartialEq, Eq, Debug, Structural)]
pub struct Blip {
    pub x: i32,
    pub y: i32,
}

/// A secured zone: its centre, its half-widths in pixels, and whether it is
/// stage-sized.
#[derive(Clone, Copy, PartialEq, Eq, Debug, Structural)]
pub struct ZoneBlip {
    pub at: Blip,
    pub rx: u16,
    pub ry: u16,
    pub stage: bool,
}

/// A free pitch and what it is for.
#[derive(Clone, Copy, PartialEq, Eq, Debug, Structural)]
pub struct PitchBlip {
    pub at: Blip,
    pub kind: StructureKind,
}

/// One of the five gloom sources: where it stands, where its home district
/// is, and its mood.
#[derive(Clone, Copy, PartialEq, Eq, Debug, Structural)]
pub struct GloomBlip {
    pub at: Blip,
    pub home: Blip,
    pub mood: Mood,
}

/// A hero.
#[derive(Clone, Copy, PartialEq, Eq, Debug, Structural)]
pub struct HeroBlip {
    pub at: Blip,
    pub hero: Hero,
    pub downed: bool,
}

/// Everything the map shows in one frame.
pub struct MapFrame {
    /// For each pixel in reading order, whether it lies on a road.
    pub road: Vec<bool>,
    /// Half-widths, in pixels, of the warm wash over a reclaimed district.
    pub district_rx: u16,
    pub district_ry: u16,
    pub zones: Vec<ZoneBlip>,
    pub enemies: Vec<Blip>,
    pub pitches: Vec<PitchBlip>,
    pub sites: Vec<Blip>,
    pub speakers: Vec<Blip>,
    pub stages: Vec<Blip>,
    pub gloom: Vec<GloomBlip>,
    pub heroes: Vec<HeroBlip>,
    /// The markers' slow pulse, in 255ths.
    pub pulse: u8,
}

/// A channel that brightens from `base` by up to `span` with the pulse.
pub open spec fn pulsed(base: u8, span: u8, pulse: u8) -> u8 {
    (base + span * pulse / 255) as u8
}

/// Whether a gloom source has come round.
pub open spec fn cheered(m: Mood) -> bool {
    m == Mood::Marching || m == Mood::Happy
}

/// The warm wash over the home district of a gloom source that has come
/// round; none for one that has not.
pub open spec fn district_stroke(g: GloomBlip, rx: u16, ry: u16) -> Option<Stroke> {
    if cheered(g.mood) {
        Some(
            Stroke::Wash {
                x: g.home.x,
                y: g.home.y,
                rx,
                ry,
                c: Rgb { r: 255, g: 209, b: 107 },
                strength: 66,
                cap: 255,
            },
        )
    } else {
        None
    }
}

/// How strongly the secured zones glow at music level `level` (in
/// ten-thousandths): 0.16 plus 0.3 of the level.
pub open spec fn zone_strength(level: int) -> int {
    (16000 + 3 * level) * 255 / 100000
}

/// The zones glow brighter as the music rises, and never past the cap.
pub proof fn lemma_zone_glow_rises(low: int, high: int)
    requires
        0 <= low <= high <= 9500,
    ensures
        zone_strength(low) <= zone_strength(high),
        zone_strength(high) <= 158,
{
    assert((16000 + 3 * low) * 255 <= (16000 + 3 * high) * 255) by (nonlinear_arith)
        requires
            low <= high,
    ;
    assert((16000 + 3 * low) * 255 / 100000 <= (16000 + 3 * high) * 255 / 100000) by (nonlinear_arith)
        requires
            (16000 + 3 * low) * 255 <= (16000 + 3 * high) * 255,
    ;
}

/// The glow of a secured zone.
pub open spec fn zone_stroke(z: ZoneBlip, strength: u8) -> Stroke {
    Stroke::Wash {
        x: z.at.x,
        y: z.at.y,
        rx: z.rx,
        ry: z.ry,
        c: Rgb { r: 89, g: 242, b: 216 },
        strength,
        cap: 158,
    }
}

/// The blip of a bad vibe.
pub open spec fn enemy_stroke(b: Blip) -> Stroke {
    Stroke::Dot { x: b.x, y: b.y, r: 0, c: Rgb { r: 242, g: 63, b: 56 }, outline: false }
}

/// The hollow marker of a free pitch: cyan for a loudspeaker, amber for the
/// stage, both pulsing.
pub open spec fn pitch_stroke(p: PitchBlip, pulse: u8) -> Stroke {
    let c = match p.kind {
        StructureKind::Speaker => Rgb { r: 76, g: pulsed(158, 51, pulse), b: 204 },
        StructureKind::Stage => Rgb { r: 216, g: pulsed(140, 51, pulse), b: 56 },
    };
    Stroke::Dot { x: p.at.x, y: p.at.y, r: 1, c, outline: false }
}

/// The pulsing amber marker of a build site.
pub open spec fn site_stroke(b: Blip, pulse: u8) -> Stroke {
    Stroke::Dot {
        x: b.x,
        y: b.y,
        r: 1,
        c: Rgb { r: 255, g: pulsed(178, 76, pulse), b: 51 },
        outline: true,
    }
}

/// The marker of a loudspeaker.
pub open spec fn speaker_stroke(b: Blip) -> Stroke {
    Stroke::Dot { x: b.x, y: b.y, r: 1, c: Rgb { r: 102, g: 242, b: 255 }, outline: true }
}

/// The marker of the stage.
pub open spec fn stage_stroke(b: Blip) -> Stroke {
    Stroke::Badge {
        x: b.x,
        y: b.y,
        r: 2,
        c: Rgb { r: 178, g: 255, b: 255 },
        outline: true,
        inner_r: 1,
        inner_c: Rgb { r: 255, g: 127, b: 242 },
    }
}

/// The marker of a gloom source: muted while it is dormant, a pulsing purple
/// ring while it broods, warm once it has come round.
pub open spec fn gloom_stroke(g: GloomBlip, pulse: u8) -> Stroke {
    match g.mood {
        Mood::Dormant => Stroke::Dot {
            x: g.at.x,
            y: g.at.y,
            r: 1,
            c: Rgb { r: 86, g: 76, b: 117 },
            outline: true,
        },
        Mood::Brooding => Stroke::Badge {
            x: g.at.x,
            y: g.at.y,
            r: 2,
            c: Rgb { r: 12, g: 7, b: 25 },
            outline: true,
            inner_r: 1,
            inner_c: Rgb { r: 158, g: pulsed(91, 86, pulse), b: 242 },
        },
        _ => Stroke::Dot {
            x: g.at.x,
            y: g.at.y,
            r: 1,
            c: Rgb { r: 255, g: 219, b: 107 },
            outline: true,
        },
    }
}

/// A hero's colour, dimmed to two fifths while they are down.
pub open spec fn hero_colour(hero: Hero, downed: bool) -> Rgb {
    let c = match hero {
        Hero::Guitarist => Rgb { r: 89, g: 216, b: 255 },
        Hero::Drummer => Rgb { r: 255, g: 158, b: 56 },
    };
    if downed {
        Rgb { r: (c.r * 2 / 5) as u8, g: (c.g * 2 / 5) as u8, b: (c.b * 2 / 5) as u8 }
    } else {
        c
    }
}

/// The marker of a hero.
pub open spec fn hero_stroke(h: HeroBlip) -> Stroke {
    Stroke::Dot { x: h.at.x, y: h.at.y, r: 2, c: hero_colour(h.hero, h.downed), outline: true }
}

/// Every stroke of a frame, bottom layer first: reclaimed districts, secured
/// zones, the swarm, free pitches, build sites, loudspeakers, the stage, the
/// gloom sources, and the heroes on top.
pub open spec fn frame_strokes(f: MapFrame) -> Seq<Stroke> {
    let strength = zone_strength(music_level_of(f.zones@.map_values(|z: ZoneBlip| z.stage))) as u8;
    f.gloom@.filter_map(|g: GloomBlip| district_stroke(g, f.district_rx, f.district_ry))
        + f.zones@.map_values(|z: ZoneBlip| zone_stroke(z, strength))
        + f.enemies@.map_values(|b: Blip| enemy_stroke(b))
        + f.pitches@.map_values(|p: PitchBlip| pitch_stroke(p, f.pulse))
        + f.sites@.map_values(|b: Blip| site_stroke(b, f.pulse))
        + f.speakers@.map_values(|b: Blip| speaker_stroke(b))
        + f.stages@.map_values(|b: Blip| stage_stroke(b))
        + f.gloom@.map_values(|g: GloomBlip| gloom_stroke(g, f.pulse))
        + f.heroes@.map_values(|h: HeroBlip| hero_stroke(h))
}

} // verus!
