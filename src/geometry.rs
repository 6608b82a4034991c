use vstd::prelude::*;

verus! {

/// Ticks in one stud.
pub const STUD: i64 = 600;

/// Height of a full brick: 1.2 studs.
pub const BRICK_HEIGHT: i64 = 720;

/// Height of a plate ("F" or "Base" bricks): 0.4 studs.
pub const PLATE_HEIGHT: i64 = 240;

/// Height of the slab under a ramp's slope: 0.15 studs.
pub const WEDGE_LIP_SIZE: i64 = 90;

/// A vector of ticks.
#[derive(Clone, Copy, Debug, PartialEq, Eq, Structural)]
pub struct Vector3 {
    pub x: i64,
    pub y: i64,
    pub z: i64,
}

/// Largest coordinate magnitude the pose algebra works with.
pub const COORD_LIMIT: i64 = 0x1000_0000_0000;

pub open spec fn vec3(x: int, y: int, z: int) -> Vector3 {
    Vector3 { x: x as i64, y: y as i64, z: z as i64 }
}

pub open spec fn in_limit(v: int) -> bool {
    -COORD_LIMIT <= v <= COORD_LIMIT
}

impl Vector3 {
    pub open spec fn bounded(self) -> bool {
        in_limit(self.x as int) && in_limit(self.y as int) && in_limit(self.z as int)
    }

    /// Components of -1, 0 or 1.
    pub open spec fn unit(self) -> bool {
        -1 <= self.x <= 1 && -1 <= self.y <= 1 && -1 <= self.z <= 1
    }

    /// Components within 2^28, small enough to scale by up to 2^16.
    pub open spec fn small(self) -> bool {
        -0x1000_0000 <= self.x <= 0x1000_0000 && -0x1000_0000 <= self.y <= 0x1000_0000
            && -0x1000_0000 <= self.z <= 0x1000_0000
    }

    pub open spec fn plus(self, o: Vector3) -> Vector3 {
        vec3(self.x + o.x, self.y + o.y, self.z + o.z)
    }

    pub open spec fn minus(self, o: Vector3) -> Vector3 {
        vec3(self.x - o.x, self.y - o.y, self.z - o.z)
    }

    pub open spec fn times(self, k: int) -> Vector3 {
        vec3(self.x * k, self.y * k, self.z * k)
    }

    /// Component of the vector along `d`.
    pub open spec fn dot(self, d: Vector3) -> int {
        self.x * d.x + self.y * d.y + self.z * d.z
    }

    pub fn new(x: i64, y: i64, z: i64) -> (r: Vector3)
        ensures
            r == (Vector3 { x, y, z }),
    {
        Vector3 { x, y, z }
    }

    pub fn x(&self) -> (r: i64)
        ensures
            r == self.x,
    {
        self.x
    }

    pub fn y(&self) -> (r: i64)
        ensures
            r == self.y,
    {
        self.y
    }

    pub fn z(&self) -> (r: i64)
        ensures
            r == self.z,
    {
        self.z
    }

    pub fn add(self, o: Vector3) -> (r: Vector3)
        requires
            self.bounded(),
            o.bounded(),
        ensures
            r == self.plus(o),
    {
        Vector3 { x: self.x + o.x, y: self.y + o.y, z: self.z + o.z }
    }

    pub fn sub(self, o: Vector3) -> (r: Vector3)
        requires
            self.bounded(),
            o.bounded(),
        ensures
            r == self.minus(o),
    {
        Vector3 { x: self.x - o.x, y: self.y - o.y, z: self.z - o.z }
    }

    /// Multiplies each component by `k`.
    pub fn mul(self, k: i64) -> (r: Vector3)
        requires
            self.bounded(),
            -0x10000 <= k <= 0x10000,
        ensures
            r == self.times(k as int),
            self.small() ==> r.bounded(),
            self.unit() ==> r.small(),
    {
        proof {
            assert(-COORD_LIMIT * 0x10000 <= self.x * k <= COORD_LIMIT * 0x10000) by (nonlinear_arith)
                requires
                    in_limit(self.x as int),
                    -0x10000 <= k <= 0x10000,
            ;
            assert(-COORD_LIMIT * 0x10000 <= self.y * k <= COORD_LIMIT * 0x10000) by (nonlinear_arith)
                requires
                    in_limit(self.y as int),
                    -0x10000 <= k <= 0x10000,
            ;
            assert(-COORD_LIMIT * 0x10000 <= self.z * k <= COORD_LIMIT * 0x10000) by (nonlinear_arith)
                requires
                    in_limit(self.z as int),
                    -0x10000 <= k <= 0x10000,
            ;
        }
        proof {
            if self.unit() {
                assert(-0x10000 <= self.x * k <= 0x10000) by (nonlinear_arith)
                    requires
                        -1 <= self.x <= 1,
                        -0x10000 <= k <= 0x10000,
                ;
                assert(-0x10000 <= self.y * k <= 0x10000) by (nonlinear_arith)
                    requires
                        -1 <= self.y <= 1,
                        -0x10000 <= k <= 0x10000,
                ;
                assert(-0x10000 <= self.z * k <= 0x10000) by (nonlinear_arith)
                    requires
                        -1 <= self.z <= 1,
                        -0x10000 <= k <= 0x10000,
                ;
            }
            if self.small() {
                assert(-COORD_LIMIT <= self.x * k <= COORD_LIMIT) by (nonlinear_arith)
                    requires
                        -0x1000_0000 <= self.x <= 0x1000_0000,
                        -0x10000 <= k <= 0x10000,
                ;
                assert(-COORD_LIMIT <= self.y * k <= COORD_LIMIT) by (nonlinear_arith)
                    requires
                        -0x1000_0000 <= self.y <= 0x1000_0000,
                        -0x10000 <= k <= 0x10000,
                ;
                assert(-COORD_LIMIT <= self.z * k <= COORD_LIMIT) by (nonlinear_arith)
                    requires
                        -0x1000_0000 <= self.z <= 0x1000_0000,
                        -0x10000 <= k <= 0x10000,
                ;
            }
        }
        Vector3 { x: self.x * k, y: self.y * k, z: self.z * k }
    }
}

/// `e * k` for `e` of -1, 0 or 1, without a product.
pub open spec fn unit_times(e: i64, k: int) -> int {
    if e == 1 {
        k
    } else if e == -1 {
        -k
    } else {
        0
    }
}

proof fn lemma_entry_product(e: i64, k: int)
    requires
        -1 <= e <= 1,
    ensures
        e * k == unit_times(e, k),
{
    if e == 0 {
        assert(e * k == 0) by (nonlinear_arith)
            requires
                e == 0,
        ;
    } else if e == 1 {
        assert(e * k == k) by (nonlinear_arith)
            requires
                e == 1,
        ;
    } else {
        assert(e * k == -k) by (nonlinear_arith)
            requires
                e == -1,
        ;
    }
}

/// Scaling a vector of -1, 0 and 1 picks or negates the factor.
pub proof fn lemma_unit_times(f: Vector3, k: int)
    requires
        f.unit(),
    ensures
        f.times(k) == vec3(unit_times(f.x, k), unit_times(f.y, k), unit_times(f.z, k)),
{
    lemma_entry_product(f.x, k);
    lemma_entry_product(f.y, k);
    lemma_entry_product(f.z, k);
}

/// A rotation that maps each axis onto an axis: a 3x3 matrix whose entries
/// are -1, 0 or 1, with one non-zero entry in each row and each column.
/// Entry `rij` is row `i`, column `j`.
#[derive(Clone, Copy, Debug, PartialEq, Eq, Structural)]
pub struct Rotation {
    pub r00: i8,
    pub r01: i8,
    pub r02: i8,
    pub r10: i8,
    pub r11: i8,
    pub r12: i8,
    pub r20: i8,
    pub r21: i8,
    pub r22: i8,
}

pub open spec fn mat(
    r00: int,
    r01: int,
    r02: int,
    r10: int,
    r11: int,
    r12: int,
    r20: int,
    r21: int,
    r22: int,
) -> Rotation {
    Rotation {
        r00: r00 as i8,
        r01: r01 as i8,
        r02: r02 as i8,
        r10: r10 as i8,
        r11: r11 as i8,
        r12: r12 as i8,
        r20: r20 as i8,
        r21: r21 as i8,
        r22: r22 as i8,
    }
}

/// `e * v` for a matrix entry `e` of -1, 0 or 1.
pub open spec fn entry_times(e: i8, v: int) -> int {
    if e == 1 {
        v
    } else if e == -1 {
        -v
    } else {
        0
    }
}

impl Rotation {
    /// The matrix applied to a column vector.
    pub open spec fn apply(self, v: Vector3) -> Vector3 {
        vec3(
            entry_times(self.r00, v.x as int) + entry_times(self.r01, v.y as int) + entry_times(
                self.r02,
                v.z as int,
            ),
            entry_times(self.r10, v.x as int) + entry_times(self.r11, v.y as int) + entry_times(
                self.r12,
                v.z as int,
            ),
            entry_times(self.r20, v.x as int) + entry_times(self.r21, v.y as int) + entry_times(
                self.r22,
                v.z as int,
            ),
        )
    }

    pub fn identity() -> (r: Rotation)
        ensures
            r == identity(),
    {
        Rotation { r00: 1, r01: 0, r02: 0, r10: 0, r11: 1, r12: 0, r20: 0, r21: 0, r22: 1 }
    }
}

pub open spec fn identity() -> Rotation {
    mat(1, 0, 0, 0, 1, 0, 0, 0, 1)
}

/// Turn about the vertical axis by `-facing` quarter turns, the rotation of a
/// brick whose facing is `facing`.
pub open spec fn yaw(facing: int) -> Rotation {
    if facing == 0 {
        identity()
    } else if facing == 1 {
        mat(0, 0, -1, 0, 1, 0, 1, 0, 0)
    } else if facing == 2 {
        mat(-1, 0, 0, 0, 1, 0, 0, 0, -1)
    } else {
        mat(0, 0, 1, 0, 1, 0, -1, 0, 0)
    }
}

/// `yaw(facing)` followed, for an inverted brick, by a half turn about the
/// Z axis (a roll), which negates the first two columns.
pub open spec fn grid_rotation(facing: int, inverted: bool) -> Rotation {
    let m = yaw(facing);
    if inverted {
        mat(-m.r00, -m.r01, m.r02 as int, -m.r10, -m.r11, m.r12 as int, -m.r20, -m.r21, m.r22 as int)
    } else {
        m
    }
}

/// Half turn about the vertical axis.
pub open spec fn half_turn_y() -> Rotation {
    mat(-1, 0, 0, 0, 1, 0, 0, 0, -1)
}

/// Quarter turn about the vertical axis (counterclockwise seen from above).
pub open spec fn quarter_turn_y() -> Rotation {
    mat(0, 0, 1, 0, 1, 0, -1, 0, 0)
}

/// Three quarter turns about the vertical axis.
pub open spec fn three_quarter_turn_y() -> Rotation {
    mat(0, 0, -1, 0, 1, 0, 1, 0, 0)
}

/// Half turn about the X axis.
pub open spec fn half_turn_x() -> Rotation {
    mat(1, 0, 0, 0, -1, 0, 0, 0, -1)
}

/// Half turn about the Z axis.
pub open spec fn half_turn_z() -> Rotation {
    mat(-1, 0, 0, 0, -1, 0, 0, 0, 1)
}

pub fn half_turn_y_exec() -> (r: Rotation)
    ensures
        r == half_turn_y(),
{
    Rotation { r00: -1, r01: 0, r02: 0, r10: 0, r11: 1, r12: 0, r20: 0, r21: 0, r22: -1 }
}

pub fn quarter_turn_y_exec() -> (r: Rotation)
    ensures
        r == quarter_turn_y(),
{
    Rotation { r00: 0, r01: 0, r02: 1, r10: 0, r11: 1, r12: 0, r20: -1, r21: 0, r22: 0 }
}

pub fn three_quarter_turn_y_exec() -> (r: Rotation)
    ensures
        r == three_quarter_turn_y(),
{
    Rotation { r00: 0, r01: 0, r02: -1, r10: 0, r11: 1, r12: 0, r20: 1, r21: 0, r22: 0 }
}

pub fn half_turn_x_exec() -> (r: Rotation)
    ensures
        r == half_turn_x(),
{
    Rotation { r00: 1, r01: 0, r02: 0, r10: 0, r11: -1, r12: 0, r20: 0, r21: 0, r22: -1 }
}

pub fn half_turn_z_exec() -> (r: Rotation)
    ensures
        r == half_turn_z(),
{
    Rotation { r00: -1, r01: 0, r02: 0, r10: 0, r11: -1, r12: 0, r20: 0, r21: 0, r22: 1 }
}

/// A pose: a translation in ticks and an axis-aligned rotation.
#[derive(Clone, Copy, Debug, PartialEq, Eq, Structural)]
pub struct CFrame {
    pub vector: Vector3,
    pub rotation: Rotation,
}

impl CFrame {
    pub open spec fn bounded(self) -> bool {
        self.vector.bounded()
    }

    pub open spec fn shifted(self, v: Vector3) -> CFrame {
        CFrame { vector: self.vector.plus(v), rotation: self.rotation }
    }

    /// Moves the pose by `v` in world space; the rotation is kept.
    pub fn add(self, v: Vector3) -> (r: CFrame)
        requires
            self.bounded(),
            v.bounded(),
        ensures
            r == self.shifted(v),
    {
        CFrame { vector: self.vector.add(v), rotation: self.rotation }
    }

    /// Moves the pose by `-v` in world space; the rotation is kept.
    pub fn sub(self, v: Vector3) -> (r: CFrame)
        requires
            self.bounded(),
            v.bounded(),
        ensures
            r == (CFrame { vector: self.vector.minus(v), rotation: self.rotation }),
    {
        CFrame { vector: self.vector.sub(v), rotation: self.rotation }
    }
}

/// Unit vector (in ticks of one) that a brick with this facing looks along.
pub open spec fn forward(facing: int) -> Vector3 {
    if facing == 0 {
        vec3(0, 0, -1)
    } else if facing == 1 {
        vec3(1, 0, 0)
    } else if facing == 2 {
        vec3(0, 0, 1)
    } else {
        vec3(-1, 0, 0)
    }
}

/// Unit vector to the right of a brick with this facing.
pub open spec fn right(facing: int) -> Vector3 {
    if facing == 0 {
        vec3(1, 0, 0)
    } else if facing == 1 {
        vec3(0, 0, 1)
    } else if facing == 2 {
        vec3(-1, 0, 0)
    } else {
        vec3(0, 0, -1)
    }
}

pub fn forward_from_angle(angle: u8) -> (r: Vector3)
    ensures
        r == forward(angle as int),
{
    match angle {
        0 => Vector3::new(0, 0, -1),
        1 => Vector3::new(1, 0, 0),
        2 => Vector3::new(0, 0, 1),
        _ => Vector3::new(-1, 0, 0),
    }
}

pub fn right_from_angle(angle: u8) -> (r: Vector3)
    ensures
        r == right(angle as int),
{
    match angle {
        0 => Vector3::new(1, 0, 0),
        1 => Vector3::new(0, 0, 1),
        2 => Vector3::new(-1, 0, 0),
        _ => Vector3::new(0, 0, -1),
    }
}

/// The eight rotations a brick can take: four facings, each upright or rolled
/// over.
pub open spec fn quantized_rotations() -> Seq<Rotation> {
    seq![
        mat(1, 0, 0, 0, 1, 0, 0, 0, 1),
        mat(0, 0, -1, 0, 1, 0, 1, 0, 0),
        mat(-1, 0, 0, 0, 1, 0, 0, 0, -1),
        mat(0, 0, 1, 0, 1, 0, -1, 0, 0),
        mat(-1, 0, 0, 0, -1, 0, 0, 0, 1),
        mat(0, 0, -1, 0, -1, 0, -1, 0, 0),
        mat(1, 0, 0, 0, -1, 0, 0, 0, -1),
        mat(0, 0, 1, 0, -1, 0, 1, 0, 0),
    ]
}

/// Every facing and inversion gives one of eight distinct rotations, and
/// each of the eight is reached by exactly one of them.
pub proof fn lemma_grid_rotations_are_quantized(facing: int, inverted: bool)
    requires
        0 <= facing < 4,
    ensures
        quantized_rotations().len() == 8,
        forall|i: int, j: int|
            0 <= i < j < 8 ==> quantized_rotations()[i] != quantized_rotations()[j],
        grid_rotation(facing, inverted) == quantized_rotations()[facing + if inverted {
            4int
        } else {
            0int
        }],
{
}

proof fn lemma_turn_of_facing(facing: int)
    requires
        0 <= facing < 4,
    ensures
        forward((facing + 1) % 4) == yaw(1).apply(forward(facing)),
        right((facing + 1) % 4) == yaw(1).apply(right(facing)),
{
    if facing == 0 {
        assert((facing + 1) % 4 == 1);
    } else if facing == 1 {
        assert((facing + 1) % 4 == 2);
    } else if facing == 2 {
        assert((facing + 1) % 4 == 3);
    } else {
        assert((facing + 1) % 4 == 0);
    }
}

proof fn lemma_helpers_of_facing(facing: int)
    requires
        0 <= facing < 4,
    ensures
        forward(facing) == grid_rotation(facing, false).apply(vec3(0, 0, -1)),
        right(facing) == grid_rotation(facing, false).apply(vec3(1, 0, 0)),
{
    if facing == 0 {
    } else if facing == 1 {
    } else if facing == 2 {
    } else {
        assert(facing == 3);
    }
}

/// Turning a direction a quarter turn clockwise (seen from above) moves both
/// helper directions of a facing on to those of the next facing, and four
/// such turns bring any vector back to itself. The helper directions are the
/// facing's rotation applied to -Z and to +X.
pub proof fn lemma_quarter_turns(facing: int, v: Vector3)
    requires
        0 <= facing < 4,
        v.bounded(),
    ensures
        forward((facing + 1) % 4) == yaw(1).apply(forward(facing)),
        right((facing + 1) % 4) == yaw(1).apply(right(facing)),
        yaw(1).apply(yaw(1).apply(yaw(1).apply(yaw(1).apply(v)))) == v,
        forward(facing) == grid_rotation(facing, false).apply(vec3(0, 0, -1)),
        right(facing) == grid_rotation(facing, false).apply(vec3(1, 0, 0)),
{
    lemma_turn_of_facing(facing);
    lemma_helpers_of_facing(facing);
}

/// Largest grid coordinate magnitude, in 1/600 of a grid unit.
pub const GRID_LIMIT: i64 = 0x100_0000_0000;

pub open spec fn grid_pos_ok(pos: (i64, i64, i64)) -> bool {
    -GRID_LIMIT <= pos.0 <= GRID_LIMIT && -GRID_LIMIT <= pos.1 <= GRID_LIMIT && -GRID_LIMIT
        <= pos.2 <= GRID_LIMIT
}

/// World translation of a grid position given in 1/600 of a grid unit. A
/// grid unit is two studs; the grid's second axis runs along world -Z and
/// its third (vertical) axis along world Y.
pub open spec fn grid_translation(pos: (i64, i64, i64)) -> Vector3 {
    vec3(2 * pos.0, 2 * pos.2, -2 * pos.1)
}

pub open spec fn grid_frame(pos: (i64, i64, i64), facing: int, inverted: bool) -> CFrame {
    CFrame { vector: grid_translation(pos), rotation: grid_rotation(facing, inverted) }
}

/// The pose of a brick at grid position `pos` with this facing, rolled over
/// when the brick is inverted.
pub fn cframe_from_pos_and_rot(pos: (i64, i64, i64), angle: u8, inverted: bool) -> (r: CFrame)
    requires
        grid_pos_ok(pos),
        angle < 4,
    ensures
        r == grid_frame(pos, angle as int, inverted),
        r.bounded(),
{
    let vector = Vector3 { x: pos.0 * 2, y: pos.2 * 2, z: -pos.1 * 2 };
    let yaw = match angle {
        0 => Rotation::identity(),
        1 => three_quarter_turn_y_exec(),
        2 => half_turn_y_exec(),
        _ => quarter_turn_y_exec(),
    };
    let rotation = if inverted {
        Rotation {
            r00: -yaw.r00,
            r01: -yaw.r01,
            r02: yaw.r02,
            r10: -yaw.r10,
            r11: -yaw.r11,
            r12: yaw.r12,
            r20: -yaw.r20,
            r21: -yaw.r21,
            r22: yaw.r22,
        }
    } else {
        yaw
    };
    CFrame { vector, rotation }
}

} // verus!
