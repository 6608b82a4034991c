use brick_geometry::{
    generate, generate_castle_wall, generate_cone, generate_crest, generate_crest_corner,
    generate_crest_end, generate_spawn_point, generate_window, CFrame, Color3, Fraction, Item,
    PartClass, SpecialBricksCache, SpecialShape, Vector3,
};

fn v(x: i64, y: i64, z: i64) -> Vector3 {
    Vector3::new(x, y, z)
}

fn at(item: &Item) -> Vector3 {
    item.cframe.unwrap().vector
}

fn frame(item: &Item) -> CFrame {
    item.cframe.unwrap()
}

fn sample(item: &Item) -> u32 {
    let f = item.facet.unwrap();
    if f.trailing {
        (f.step + 1) % f.resolution
    } else {
        f.step
    }
}

#[test]
fn cone_facets_share_edges() {
    for n in [8u32, 32] {
        let cone = generate_cone(2, n);
        assert_eq!(cone.children.len(), 2 * n as usize + 2);
        for i in 0..n as usize {
            let lead = &cone.children[2 * i];
            let trail = &cone.children[2 * i + 1];
            let next = &cone.children[2 * ((i + 1) % n as usize)];
            assert_eq!(sample(lead), i as u32);
            assert_eq!(sample(trail), sample(next));
            assert_eq!(trail.facet.unwrap().origin, next.facet.unwrap().origin);
            assert_eq!(lead.class, PartClass::WedgePart);
        }
    }
}

/// The outer rim point and the tapered inner point that a wedge is oriented
/// by, for a cone `cone_size` studs across.
fn rim_points(item: &Item, cone_size: f64) -> ([f64; 3], [f64; 3]) {
    let f = item.facet.unwrap();
    let t = sample(item) as f64 / f.resolution as f64 * 2.0 * std::f64::consts::PI;
    let r = cone_size / 2.0;
    let outer = [r * t.sin(), 0.0, r * t.cos()];
    let inner = [outer[0] * 0.5, 1.2 * cone_size, outer[2] * 0.5];
    (outer, inner)
}

#[test]
fn cone_seam_points_coincide() {
    for n in [8u32, 32] {
        for size in [1u32, 2] {
            let cone = generate_cone(size, n);
            for i in 0..n as usize {
                let trail = rim_points(&cone.children[2 * i + 1], size as f64);
                let next = rim_points(&cone.children[2 * ((i + 1) % n as usize)], size as f64);
                for k in 0..3 {
                    assert!((trail.0[k] - next.0[k]).abs() < 1e-9 * size as f64);
                    assert!((trail.1[k] - next.1[k]).abs() < 1e-9 * size as f64);
                }
            }
        }
    }
}

#[test]
fn cone_caps() {
    let cone = generate_cone(1, 4);
    assert_eq!(cone.children.len(), 10);
    assert_eq!(cone.children[8].size, Some(v(600, 6, 600)));
    assert_eq!(at(&cone.children[8]), v(0, -360, 0));
    assert_eq!(cone.children[9].size, Some(v(300, 6, 300)));
    assert_eq!(at(&cone.children[9]), v(0, 360, 0));
    assert_eq!(cone.children[9].children.len(), 1);
    assert_eq!(cone.children[9].children[0].class, PartClass::CylinderMesh);
}

#[test]
fn cache_hands_out_equal_copies() {
    let mut cache = SpecialBricksCache::new();
    let first = cache.cone2x2x2();
    let second = cache.cone2x2x2();
    assert_eq!(first, second);
    assert_eq!(first, generate(SpecialShape::Cone2x2x2));
    let wall = cache.castle_wall();
    assert_eq!(wall, cache.castle_wall());
    assert_eq!(cache.cone1x1(), generate_cone(1, 32));
    assert_eq!(cache.spawn_point(), generate_spawn_point());
    assert_eq!(cache.window_1x4x3(), generate_window());
    assert_eq!(cache.crest_corner_25(), generate_crest_corner(480));
    assert_eq!(cache.crest_end_25(), generate_crest_end(480));
    assert_eq!(cache.crest_corner_45(), generate_crest_corner(720));
    assert_eq!(cache.crest_end_45(), generate_crest_end(720));
    assert_eq!(cache.crest_end_45(), cache.crest_end_45());
}

#[test]
fn castle_wall_parts() {
    let wall = generate_castle_wall();
    assert_eq!(wall.class, PartClass::Model);
    assert_eq!(wall.children.len(), 6);
    assert_eq!(wall.children[0].size, Some(v(600, 2160, 1800)));
    assert_eq!(at(&wall.children[0]), v(0, -1080, 0));
    assert_eq!(at(&wall.children[1]), v(0, 600, 600));
    assert_eq!(at(&wall.children[2]), v(0, 600, -600));
    assert_eq!(wall.children[3].class, PartClass::WedgePart);
    assert_eq!(wall.children[3].size, Some(v(600, 240, 200)));
    assert_eq!(at(&wall.children[3]), v(0, 1080, 200));
    assert_eq!(frame(&wall.children[3]).rotation.r00, -1);
    assert_eq!(frame(&wall.children[3]).rotation.r11, -1);
    assert_eq!(frame(&wall.children[3]).rotation.r22, 1);
    assert_eq!(wall.children[5].size, Some(v(600, 960, 1800)));
    assert_eq!(at(&wall.children[5]), v(0, 1680, 0));
}

#[test]
fn spawn_point_cover_is_see_through() {
    let spawn = generate_spawn_point();
    assert_eq!(spawn.children[0].class, PartClass::SpawnLocation);
    assert_eq!(spawn.children[0].size, Some(v(1800, 144, 1800)));
    assert_eq!(at(&spawn.children[0]), v(0, -1728, 0));
    let cover = &spawn.children[1];
    assert_eq!(cover.transparency, Some(Fraction { num: 1, den: 2 }));
    assert_eq!(cover.can_collide, Some(false));
    assert_eq!(cover.size, Some(v(1800, 3456, 1800)));
    assert_eq!(at(cover), v(0, 72, 0));
}

#[test]
fn window_frame_and_pane() {
    let window = generate_window();
    assert_eq!(window.children.len(), 5);
    assert_eq!(at(&window.children[0]), v(0, -1764, 0));
    assert_eq!(at(&window.children[1]), v(0, 1764, 0));
    assert_eq!(at(&window.children[2]), v(1170, 0, 0));
    assert_eq!(at(&window.children[3]), v(-1170, 0, 0));
    assert_eq!(window.children[4].size, Some(v(2280, 3456, 600)));
    assert_eq!(window.children[4].transparency, Some(Fraction { num: 1, den: 2 }));
}

#[test]
fn crest_heights() {
    let crest = generate_crest(720, 4);
    assert_eq!(crest.children[0].size, Some(v(2400, 612, 600)));
    assert_eq!(at(&crest.children[0]), v(0, 54, 300));
    assert_eq!(at(&crest.children[1]), v(0, 54, -300));
    assert_eq!(crest.children[2].size, Some(v(2400, 108, 1200)));
    assert_eq!(at(&crest.children[2]), v(0, -306, 0));
    let corner = generate_crest_corner(480);
    assert_eq!(corner.children.len(), 6);
    assert_eq!(corner.children[4].class, PartClass::CornerWedgePart);
    assert_eq!(corner.children[4].size, Some(v(600, 372, 600)));
    assert_eq!(at(&corner.children[4]), v(-300, -66, -300));
    let end = generate_crest_end(720);
    assert_eq!(end.children[2].size, Some(v(600, 108, 1200)));
    assert_eq!(end.children[0].class, PartClass::CornerWedgePart);
}

#[test]
fn color_packs_argb() {
    assert_eq!(Color3 { r: 1, g: 2, b: 3, a: 4 }.argb(), 0x0401_0203);
    assert_eq!(Color3 { r: 255, g: 255, b: 255, a: 255 }.argb(), u32::MAX);
}
