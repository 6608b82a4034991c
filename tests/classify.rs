use brick_geometry::{
    cframe_from_pos_and_rot, get_brick_type, parse_ramp_angle, BrickRecord, BrickType, NameError,
    RampAngle, RegularBrickMesh, Vector3,
};

fn brick(name: &str, angle: u8) -> BrickRecord {
    BrickRecord {
        ui_name: name.to_string(),
        position: (0, 0, 0),
        angle,
        color_index: 0,
        rendering: true,
        collision: true,
    }
}

fn classify(name: &str, angle: u8) -> Result<BrickType, NameError> {
    get_brick_type(&brick(name, angle))
}

fn regular(size: (i64, i64, i64), facing: u8, mesh: RegularBrickMesh) -> BrickType {
    BrickType::Regular {
        cframe: cframe_from_pos_and_rot((0, 0, 0), facing, false),
        size: Vector3::new(size.0, size.1, size.2),
        mesh,
    }
}

#[test]
fn regular_block_sizes() {
    assert_eq!(classify("2x4", 0), Ok(regular((1200, 720, 2400), 0, RegularBrickMesh::Block)));
    assert_eq!(classify("2x2F", 2), Ok(regular((1200, 240, 1200), 2, RegularBrickMesh::Block)));
    assert_eq!(
        classify("16x16 Base", 1),
        Ok(regular((9600, 240, 9600), 1, RegularBrickMesh::Block))
    );
    assert_eq!(classify("1x1 Round", 0), Ok(regular((600, 720, 600), 0, RegularBrickMesh::Round)));
    assert_eq!(
        classify("2x2F Round Print", 1),
        Ok(regular((1200, 240, 1200), 2, RegularBrickMesh::Round))
    );
}

#[test]
fn print_suffix_turns_a_quarter() {
    assert_eq!(classify("1x2 Print", 3), Ok(regular((600, 720, 1200), 0, RegularBrickMesh::Block)));
    assert_eq!(
        classify("1x2x5 Print", 0),
        Ok(regular((600, 3600, 1200), 1, RegularBrickMesh::Block))
    );
}

#[test]
fn tall_block_sizes() {
    assert_eq!(classify("1x2x5", 0), Ok(regular((600, 3600, 1200), 0, RegularBrickMesh::Block)));
    assert_eq!(classify("4x4x3", 2), Ok(regular((2400, 2160, 2400), 2, RegularBrickMesh::Block)));
}

#[test]
fn ramp_table() {
    let cases = [
        ("25\u{b0} Ramp 2x", (1200, 720, 1200)),
        ("45\u{b0} Ramp 1x Print", (600, 720, 600)),
        ("72\u{b0} Ramp 4x", (2400, 2160, 600)),
        ("80\u{b0} Ramp 1x", (600, 3600, 600)),
    ];
    for (name, size) in cases {
        assert_eq!(
            classify(name, 1),
            Ok(BrickType::Ramp {
                cframe: cframe_from_pos_and_rot((0, 0, 0), 1, false),
                size: Vector3::new(size.0, size.1, size.2),
                inverted: false,
            })
        );
    }
    assert_eq!(
        classify("-25\u{b0} Ramp 2x", 0),
        Ok(BrickType::Ramp {
            cframe: cframe_from_pos_and_rot((0, 0, 0), 0, true),
            size: Vector3::new(1200, 720, 1200),
            inverted: true,
        })
    );
}

#[test]
fn corner_ramp_table() {
    assert_eq!(
        classify("25\u{b0} Ramp Corner", 0),
        Ok(BrickType::RampCorner {
            corner_cframe: cframe_from_pos_and_rot((0, 0, 0), 2, false),
            wedge_cframe_1: cframe_from_pos_and_rot((0, 0, 0), 1, false),
            wedge_cframe_2: cframe_from_pos_and_rot((0, 0, 0), 0, false),
            size: Vector3::new(1800, 720, 1800),
            inverted: false,
        })
    );
    assert_eq!(
        classify("-80\u{b0} Ramp Corner", 2),
        Ok(BrickType::RampCorner {
            corner_cframe: cframe_from_pos_and_rot((0, 0, 0), 1, true),
            wedge_cframe_1: cframe_from_pos_and_rot((0, 0, 0), 3, true),
            wedge_cframe_2: cframe_from_pos_and_rot((0, 0, 0), 2, true),
            size: Vector3::new(1200, 3600, 1200),
            inverted: true,
        })
    );
}

#[test]
fn unknown_angles_are_malformed() {
    assert_eq!(classify("33\u{b0} Ramp 2x", 0), Err(NameError::UnknownRampAngle));
    assert_eq!(classify("-30\u{b0} Ramp Corner", 0), Err(NameError::UnknownRampAngle));
    assert_eq!(classify("045\u{b0} Ramp 1x", 0), Err(NameError::UnknownRampAngle));
}

#[test]
fn oversized_dimensions_are_malformed() {
    assert_eq!(classify("4294967296x1", 0), Err(NameError::DimensionTooLarge));
    assert_eq!(classify("1x1x4294967296", 0), Err(NameError::DimensionTooLarge));
    assert_eq!(classify("45\u{b0} Ramp 4294967296x", 0), Err(NameError::DimensionTooLarge));
}

#[test]
fn large_dimensions_make_blocks() {
    assert_eq!(classify("70000x1", 0), Ok(regular((70000 * 600, 720, 600), 0, RegularBrickMesh::Block)));
    assert_eq!(classify("100000x2F", 0), Ok(regular((100000 * 600, 240, 1200), 0, RegularBrickMesh::Block)));
    assert_eq!(
        classify("4294967295x1", 0),
        Ok(regular((4294967295 * 600, 720, 600), 0, RegularBrickMesh::Block))
    );
    assert_eq!(
        classify("1x1x4294967295", 0),
        Ok(regular((600, 4294967295 * 720, 600), 0, RegularBrickMesh::Block))
    );
    assert_eq!(
        classify("45\u{b0} Ramp 70000x", 0),
        Ok(BrickType::Ramp {
            cframe: cframe_from_pos_and_rot((0, 0, 0), 0, false),
            size: Vector3::new(70000 * 600, 720, 600),
            inverted: false,
        })
    );
}

#[test]
fn names_outside_the_grammars_are_unknown() {
    for name in [
        "2x2x2 Cone",
        "Bogus Shape",
        "",
        "2x",
        "x2",
        "2x4 ",
        "2x4 Round Base",
        "1x1x1 Round",
        "45\u{b0} Ramp",
        "45\u{b0} Ramp x",
        "45 Ramp 1x",
        "45\u{b0} Ramp Corner Print",
    ] {
        assert_eq!(classify(name, 0), Ok(BrickType::Unknown), "{}", name);
    }
}

#[test]
fn classification_is_deterministic() {
    for name in ["2x4", "1x2x5 Print", "-72\u{b0} Ramp 3x", "45\u{b0} Ramp Corner", "Bogus Shape"] {
        assert_eq!(classify(name, 1), classify(name, 1));
    }
}

#[test]
fn ramp_angles() {
    assert_eq!(parse_ramp_angle("25"), Some(RampAngle::Angle25));
    assert_eq!(parse_ramp_angle("45"), Some(RampAngle::Angle45));
    assert_eq!(parse_ramp_angle("72"), Some(RampAngle::Angle72));
    assert_eq!(parse_ramp_angle("80"), Some(RampAngle::Angle80));
    assert_eq!(parse_ramp_angle("30"), None);
    assert_eq!(parse_ramp_angle("045"), None);
    assert_eq!(parse_ramp_angle(""), None);
}
