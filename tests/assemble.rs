use brick_geometry::{
    cframe_from_pos_and_rot, items_from_brick, BrickRecord, CFrame, Color3, ConversionError,
    Fraction, Item, NameError, PartClass, Rotation, SpecialBricksCache, Vector3,
};

fn palette() -> [Color3; 64] {
    let mut p = [Color3 { r: 0, g: 0, b: 0, a: 255 }; 64];
    p[0] = Color3 { r: 10, g: 20, b: 30, a: 200 };
    p[5] = Color3 { r: 255, g: 0, b: 0, a: 255 };
    p
}

fn brick(name: &str, position: (i64, i64, i64), angle: u8, color_index: u8) -> BrickRecord {
    BrickRecord {
        ui_name: name.to_string(),
        position,
        angle,
        color_index,
        rendering: true,
        collision: true,
    }
}

fn convert(b: &BrickRecord) -> Result<Vec<Item>, ConversionError> {
    let mut cache = SpecialBricksCache::new();
    items_from_brick(b, &palette(), &mut cache)
}

fn v(x: i64, y: i64, z: i64) -> Vector3 {
    Vector3::new(x, y, z)
}

fn pose(item: &Item) -> CFrame {
    item.cframe.unwrap()
}

fn size(item: &Item) -> Vector3 {
    item.size.unwrap()
}

#[test]
fn single_2x4_brick() {
    let items = convert(&brick("2x4", (0, 0, 0), 0, 0)).unwrap();
    assert_eq!(items.len(), 1);
    let part = &items[0];
    assert_eq!(part.class, PartClass::Part);
    assert_eq!(size(part), v(1200, 720, 2400));
    assert_eq!(pose(part).vector, v(0, 0, 0));
    assert_eq!(pose(part).rotation, Rotation::identity());
    assert_eq!(part.transparency, Some(Fraction { num: 55, den: 255 }));
    assert_eq!(part.color, Some(Color3 { r: 10, g: 20, b: 30, a: 200 }));
    assert_eq!(part.can_collide, Some(true));
    assert!(part.children.is_empty());
}

#[test]
fn hidden_brick_is_fully_transparent() {
    let mut b = brick("1x1", (0, 0, 0), 0, 5);
    b.rendering = false;
    b.collision = false;
    let items = convert(&b).unwrap();
    assert_eq!(items[0].transparency, Some(Fraction { num: 1, den: 1 }));
    assert_eq!(items[0].can_collide, Some(false));
    assert_eq!(items[0].color, Some(Color3 { r: 255, g: 0, b: 0, a: 255 }));
}

#[test]
fn round_brick_carries_cylinder_marker() {
    let items = convert(&brick("1x1 Round", (0, 0, 0), 0, 0)).unwrap();
    assert_eq!(items.len(), 1);
    assert_eq!(items[0].children.len(), 1);
    assert_eq!(items[0].children[0].class, PartClass::CylinderMesh);
    assert_eq!(items[0].children[0].size, None);
}

#[test]
fn ramp_parts_meet_without_gaps() {
    for inverted in [false, true] {
        for facing in 0..4u8 {
            let name = if inverted { "-45\u{b0} Ramp 2x" } else { "45\u{b0} Ramp 2x" };
            let items = convert(&brick(name, (600, 0, 300), facing, 0)).unwrap();
            assert_eq!(items.len(), 3);
            let f = brick_geometry::forward_from_angle(facing);
            let along = |i: &Item| {
                let c = pose(i).vector;
                c.x() * f.x() + c.y() * f.y() + c.z() * f.z()
            };
            let (wedge, lip, back) = (&items[0], &items[1], &items[2]);
            assert_eq!(wedge.class, PartClass::WedgePart);
            assert_eq!(lip.class, PartClass::Part);
            assert_eq!(back.class, PartClass::Part);
            let back_front = along(back) + size(back).z() / 2;
            assert_eq!(along(wedge) - size(wedge).z() / 2, back_front);
            assert_eq!(along(lip) - size(lip).z() / 2, back_front);
            let low = |i: &Item| pose(i).vector.y() - size(i).y() / 2;
            let high = |i: &Item| pose(i).vector.y() + size(i).y() / 2;
            if inverted {
                assert_eq!(high(lip), high(back));
                assert_eq!(low(lip), high(wedge));
                assert_eq!(low(wedge), low(back));
            } else {
                assert_eq!(low(lip), low(back));
                assert_eq!(high(lip), low(wedge));
                assert_eq!(high(wedge), high(back));
            }
        }
    }
}

#[test]
fn ramp_25_exact_parts() {
    let items = convert(&brick("25\u{b0} Ramp 3x", (0, 0, 0), 0, 0)).unwrap();
    assert_eq!(size(&items[0]), v(1800, 630, 1200));
    assert_eq!(pose(&items[0]).vector, v(0, 45, -300));
    assert_eq!(size(&items[1]), v(1800, 90, 1200));
    assert_eq!(pose(&items[1]).vector, v(0, -315, -300));
    assert_eq!(size(&items[2]), v(1800, 720, 600));
    assert_eq!(pose(&items[2]).vector, v(0, 0, 600));
}

#[test]
fn corner_45_upright_exact_parts() {
    let items = convert(&brick("45\u{b0} Ramp Corner", (0, 0, 0), 0, 0)).unwrap();
    let classes: Vec<PartClass> = items.iter().map(|i| i.class).collect();
    assert_eq!(
        classes,
        vec![
            PartClass::CornerWedgePart,
            PartClass::Part,
            PartClass::WedgePart,
            PartClass::WedgePart,
            PartClass::Part
        ]
    );
    let back = cframe_from_pos_and_rot((0, 0, 0), 2, false).rotation;
    let side = cframe_from_pos_and_rot((0, 0, 0), 1, false).rotation;
    let expected = [
        (v(600, 630, 600), v(300, 45, -300), back),
        (v(600, 630, 600), v(-300, 45, 300), back),
        (v(600, 630, 600), v(300, 45, 300), side),
        (v(600, 630, 600), v(-300, 45, -300), Rotation::identity()),
        (v(1200, 90, 1200), v(0, -315, 0), back),
    ];
    for (item, (s, c, r)) in items.iter().zip(expected.iter()) {
        assert_eq!(size(item), *s);
        assert_eq!(pose(item).vector, *c);
        assert_eq!(pose(item).rotation, *r);
    }
    // The four upper parts fill the 2 x 2 stud plan above the lip exactly.
    let (mut lo, mut hi) = (v(i64::MAX, i64::MAX, i64::MAX), v(i64::MIN, i64::MIN, i64::MIN));
    for item in &items[..4] {
        let (c, s) = (pose(item).vector, size(item));
        lo = v(lo.x().min(c.x() - s.x() / 2), lo.y().min(c.y() - s.y() / 2), lo.z().min(c.z() - s.z() / 2));
        hi = v(hi.x().max(c.x() + s.x() / 2), hi.y().max(c.y() + s.y() / 2), hi.z().max(c.z() + s.z() / 2));
    }
    assert_eq!(lo, v(-600, -270, -600));
    assert_eq!(hi, v(600, 360, 600));
    let lip = &items[4];
    assert_eq!(pose(lip).vector.y() - size(lip).y() / 2, -360);
    assert_eq!(pose(lip).vector.y() + size(lip).y() / 2, -270);
}

#[test]
fn inverted_corner_45_facing_1() {
    let items = convert(&brick("-45\u{b0} Ramp Corner", (0, 0, 0), 1, 0)).unwrap();
    assert_eq!(items.len(), 5);
    let classes: Vec<PartClass> = items.iter().map(|i| i.class).collect();
    assert_eq!(
        classes,
        vec![
            PartClass::CornerWedgePart,
            PartClass::Part,
            PartClass::WedgePart,
            PartClass::WedgePart,
            PartClass::Part
        ]
    );
    let expected = [
        v(300, -45, 300),
        v(-300, -45, -300),
        v(-300, -45, 300),
        v(300, -45, -300),
        v(0, 315, 0),
    ];
    for (item, c) in items.iter().zip(expected.iter()) {
        assert_eq!(pose(item).vector, *c);
    }
    assert_eq!(pose(&items[0]).rotation, cframe_from_pos_and_rot((0, 0, 0), 0, true).rotation);
    assert_eq!(pose(&items[2]).rotation, cframe_from_pos_and_rot((0, 0, 0), 2, true).rotation);
    assert_eq!(pose(&items[3]).rotation, cframe_from_pos_and_rot((0, 0, 0), 1, true).rotation);
}

#[test]
fn wide_block_is_built() {
    let items = convert(&brick("70000x1", (0, 0, 0), 0, 0)).unwrap();
    assert_eq!(items.len(), 1);
    assert_eq!(size(&items[0]), v(70000 * 600, 720, 600));
}

#[test]
fn unknown_name_gives_no_parts() {
    assert_eq!(convert(&brick("Bogus Shape", (0, 0, 0), 0, 0)), Err(ConversionError::Unrecognized));
}

#[test]
fn malformed_names_are_errors() {
    assert_eq!(
        convert(&brick("33\u{b0} Ramp 1x", (0, 0, 0), 0, 0)),
        Err(ConversionError::Malformed(NameError::UnknownRampAngle))
    );
    assert_eq!(
        convert(&brick("99999999999x1", (0, 0, 0), 0, 0)),
        Err(ConversionError::Malformed(NameError::DimensionTooLarge))
    );
}

#[test]
fn cone_brick_is_placed_and_painted() {
    let mut cache = SpecialBricksCache::new();
    let b = brick("2x2x2 Cone", (300, 600, 150), 2, 0);
    let items = items_from_brick(&b, &palette(), &mut cache).unwrap();
    assert_eq!(items.len(), 1);
    let model = &items[0];
    assert_eq!(model.class, PartClass::Model);
    assert_eq!(model.children.len(), 66);
    let anchor = v(600, 300, -1200);
    let bottom = &model.children[64];
    assert_eq!(pose(bottom).vector, v(600, 300 - 720, -1200));
    assert_eq!(size(bottom), v(1200, 6, 1200));
    assert_eq!(bottom.children[0].class, PartClass::CylinderMesh);
    let top = &model.children[65];
    assert_eq!(pose(top).vector, v(600, 300 + 720, -1200));
    assert_eq!(size(top), v(600, 6, 600));
    for part in &model.children {
        assert_eq!(part.color, Some(Color3 { r: 10, g: 20, b: 30, a: 200 }));
        assert_eq!(part.transparency, Some(Fraction { num: 55, den: 255 }));
    }
    let facet = model.children[3].facet.unwrap();
    assert_eq!(facet.origin, anchor);
    assert_eq!((facet.step, facet.trailing, facet.cone_size), (1, true, 2));
    let again = items_from_brick(&b, &palette(), &mut cache).unwrap();
    assert_eq!(again, items);
}
