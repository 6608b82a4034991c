use brick_geometry::{cframe_from_pos_and_rot, forward_from_angle, right_from_angle, Rotation, Vector3};

fn rot(m: [i8; 9]) -> Rotation {
    Rotation {
        r00: m[0],
        r01: m[1],
        r02: m[2],
        r10: m[3],
        r11: m[4],
        r12: m[5],
        r20: m[6],
        r21: m[7],
        r22: m[8],
    }
}

fn turn(v: Vector3) -> Vector3 {
    Vector3::new(-v.z(), v.y(), v.x())
}

#[test]
fn grid_frames_take_eight_fixed_rotations() {
    let expected = [
        rot([1, 0, 0, 0, 1, 0, 0, 0, 1]),
        rot([0, 0, -1, 0, 1, 0, 1, 0, 0]),
        rot([-1, 0, 0, 0, 1, 0, 0, 0, -1]),
        rot([0, 0, 1, 0, 1, 0, -1, 0, 0]),
        rot([-1, 0, 0, 0, -1, 0, 0, 0, 1]),
        rot([0, 0, -1, 0, -1, 0, -1, 0, 0]),
        rot([1, 0, 0, 0, -1, 0, 0, 0, -1]),
        rot([0, 0, 1, 0, -1, 0, 1, 0, 0]),
    ];
    let mut seen = Vec::new();
    for inverted in [false, true] {
        for facing in 0..4u8 {
            let frame = cframe_from_pos_and_rot((0, 0, 0), facing, inverted);
            let k = facing as usize + if inverted { 4 } else { 0 };
            assert_eq!(frame.rotation, expected[k]);
            assert!(!seen.contains(&frame.rotation));
            seen.push(frame.rotation);
        }
    }
    assert_eq!(seen.len(), 8);
}

#[test]
fn grid_position_maps_axes() {
    let frame = cframe_from_pos_and_rot((600, 1200, 300), 0, false);
    assert_eq!(frame.vector, Vector3::new(1200, 600, -2400));
}

#[test]
fn four_quarter_turns_return_helper_directions() {
    for facing in 0..4u8 {
        let next = (facing + 1) % 4;
        assert_eq!(forward_from_angle(next), turn(forward_from_angle(facing)));
        assert_eq!(right_from_angle(next), turn(right_from_angle(facing)));
        let f = forward_from_angle(facing);
        assert_eq!(turn(turn(turn(turn(f)))), f);
        let r = right_from_angle(facing);
        assert_eq!(turn(turn(turn(turn(r)))), r);
    }
    assert_eq!(forward_from_angle(0), Vector3::new(0, 0, -1));
    assert_eq!(right_from_angle(0), Vector3::new(1, 0, 0));
}

#[test]
fn frame_shifts_add_and_subtract() {
    let frame = cframe_from_pos_and_rot((0, 0, 0), 1, false);
    let moved = frame.add(Vector3::new(3, -4, 5));
    assert_eq!(moved.vector, Vector3::new(3, -4, 5));
    assert_eq!(moved.rotation, frame.rotation);
    assert_eq!(moved.sub(Vector3::new(3, -4, 5)), frame);
    assert_eq!(Vector3::new(1, -2, 3).mul(-2), Vector3::new(-2, 4, -6));
}
