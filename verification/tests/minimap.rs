use shooty::build_phase::StructureKind;
use shooty::gloom::Mood;
use shooty::minimap::{
    strokes_of, Blip, GloomBlip, HeroBlip, MapFrame, Minimap, PitchBlip, Rgb, Shape, Stroke,
    ZoneBlip, MAP_BYTES, MAP_H, MAP_W,
};
use shooty::Hero;

fn px(m: &Minimap, x: usize, y: usize) -> [u8; 4] {
    let i = (y * MAP_W + x) * 4;
    let p = m.pixels();
    [p[i], p[i + 1], p[i + 2], p[i + 3]]
}

fn grass_map() -> Minimap {
    let mut m = Minimap::new();
    m.fill_ground(&vec![false; MAP_W * MAP_H]);
    m
}

fn empty_frame() -> MapFrame {
    MapFrame {
        road: vec![false; MAP_W * MAP_H],
        district_rx: 10,
        district_ry: 8,
        zones: vec![],
        enemies: vec![],
        pitches: vec![],
        sites: vec![],
        speakers: vec![],
        stages: vec![],
        gloom: vec![],
        heroes: vec![],
        pulse: 0,
    }
}

#[test]
fn a_new_map_is_blank() {
    let m = Minimap::new();
    assert_eq!(m.pixels().len(), MAP_BYTES);
    assert!(m.pixels().iter().all(|b| *b == 0));
}

#[test]
fn ground_frame_roads_and_grass() {
    let mut road = vec![false; MAP_W * MAP_H];
    road[10 * MAP_W + 20] = true;
    road[0] = true;
    let mut m = Minimap::new();
    m.fill_ground(&road);
    assert_eq!(px(&m, 0, 0), [71, 112, 127, 255]);
    assert_eq!(px(&m, MAP_W - 1, 50), [71, 112, 127, 255]);
    assert_eq!(px(&m, 20, 10), [25, 28, 33, 255]);
    assert_eq!(px(&m, 21, 10), [33, 43, 33, 255]);
}

#[test]
fn a_solid_dot_is_a_square_and_clips_at_the_edge() {
    let mut m = grass_map();
    let red = Rgb { r: 200, g: 10, b: 20 };
    m.draw(Stroke::Dot { x: 50, y: 40, r: 1, c: red, outline: false });
    for y in 39..=41 {
        for x in 49..=51 {
            assert_eq!(px(&m, x, y), [200, 10, 20, 255]);
        }
    }
    assert_eq!(px(&m, 52, 40), [33, 43, 33, 255]);
    assert_eq!(px(&m, 50, 38), [33, 43, 33, 255]);
    // Half off the map: what lands on it is drawn, the rest is dropped.
    m.draw(Stroke::Dot { x: -1, y: -1, r: 1, c: red, outline: false });
    assert_eq!(px(&m, 0, 0), [200, 10, 20, 255]);
    assert_eq!(px(&m, 1, 0), [71, 112, 127, 255]);
    // Entirely off the map changes nothing.
    let before = m.pixels().clone();
    m.draw(Stroke::Dot { x: -100, y: 5000, r: 2, c: red, outline: true });
    assert_eq!(m.pixels(), &before);
}

#[test]
fn an_outlined_dot_has_a_dark_frame() {
    let mut m = grass_map();
    m.draw(Stroke::Dot { x: 60, y: 60, r: 1, c: Rgb { r: 255, g: 255, b: 255 }, outline: true });
    assert_eq!(px(&m, 60, 60), [255, 255, 255, 255]);
    // Grass (33, 43, 33) under the frame colour (5, 5, 7) at 204/255.
    let mix = |s: u32, c: u32| ((s * 51 + c * 204) / 255) as u8;
    assert_eq!(px(&m, 62, 60), [mix(33, 5), mix(43, 5), mix(33, 7), 255]);
    assert_eq!(px(&m, 63, 60), [33, 43, 33, 255]);
}

#[test]
fn a_wash_is_brightest_at_its_centre_and_stays_inside_its_ellipse() {
    let mut m = grass_map();
    let c = Rgb { r: 255, g: 255, b: 255 };
    m.paint(80, 60, 10, 5, c, Shape::Disc { strength: 255, cap: 255 });
    assert_eq!(px(&m, 80, 60), [255, 255, 255, 255]);
    let mid = px(&m, 85, 60);
    assert!(mid[0] > 33 && mid[0] < 255);
    // The rim and the box corners are left alone.
    assert_eq!(px(&m, 90, 60), [33, 43, 33, 255]);
    assert_eq!(px(&m, 90, 65), [33, 43, 33, 255]);
    // A cap limits the opacity.
    let mut m2 = grass_map();
    m2.paint(80, 60, 10, 5, c, Shape::Disc { strength: 255, cap: 0 });
    assert_eq!(px(&m2, 80, 60), [33, 43, 33, 255]);
}

#[test]
fn frame_layers_come_in_order() {
    let mut f = empty_frame();
    f.zones = vec![ZoneBlip { at: Blip { x: 5, y: 5 }, rx: 4, ry: 4, stage: true }];
    f.enemies = vec![Blip { x: 1, y: 1 }];
    f.pitches = vec![PitchBlip { at: Blip { x: 9, y: 9 }, kind: StructureKind::Stage }];
    f.stages = vec![Blip { x: 30, y: 30 }];
    f.gloom = vec![
        GloomBlip { at: Blip { x: 3, y: 3 }, home: Blip { x: 7, y: 7 }, mood: Mood::Happy },
        GloomBlip { at: Blip { x: 4, y: 4 }, home: Blip { x: 8, y: 8 }, mood: Mood::Brooding },
    ];
    f.heroes = vec![HeroBlip { at: Blip { x: 2, y: 2 }, hero: Hero::Drummer, downed: true }];
    let s = strokes_of(&f);
    assert_eq!(s.len(), 8);
    assert!(matches!(s[0], Stroke::Wash { x: 7, y: 7, strength: 66, .. }));
    // One zone, a stage: music level 0.4875, glow 0.16 + 0.3 * 0.4875.
    assert!(matches!(s[1], Stroke::Wash { x: 5, y: 5, strength: 78, cap: 158, .. }));
    assert!(matches!(s[2], Stroke::Dot { x: 1, y: 1, r: 0, .. }));
    assert!(matches!(s[3], Stroke::Dot { x: 9, y: 9, c: Rgb { r: 216, g: 140, b: 56 }, .. }));
    assert!(matches!(s[4], Stroke::Badge { x: 30, y: 30, r: 2, inner_r: 1, .. }));
    assert!(matches!(s[5], Stroke::Dot { x: 3, y: 3, c: Rgb { r: 255, g: 219, b: 107 }, .. }));
    assert!(matches!(s[6], Stroke::Badge { x: 4, y: 4, .. }));
    assert!(matches!(s[7], Stroke::Dot { x: 2, y: 2, r: 2, c: Rgb { r: 102, g: 63, b: 22 }, outline: true }));
}

#[test]
fn a_drawn_frame_is_ground_then_strokes() {
    let mut f = empty_frame();
    f.heroes = vec![HeroBlip { at: Blip { x: 100, y: 70 }, hero: Hero::Guitarist, downed: false }];
    f.sites = vec![Blip { x: 20, y: 20 }];
    f.pulse = 255;
    let mut m = Minimap::new();
    m.draw_frame(&f);
    assert_eq!(px(&m, 100, 70), [89, 216, 255, 255]);
    assert_eq!(px(&m, 20, 20), [255, 254, 51, 255]);
    assert_eq!(px(&m, 150, 100), [33, 43, 33, 255]);
}
