use vstd::prelude::*;
use crate::classify::{
    brick_type_of, chars_of, get_brick_type, has_at, has_word, BrickRecord, BrickType, NameError,
    RegularBrickMesh,
};
use crate::geometry::{
    forward, forward_from_angle, grid_translation, lemma_unit_times, right, right_from_angle, vec3, CFrame, Vector3,
    WEDGE_LIP_SIZE,
};
use crate::scene::{rounded_node, solid, Color3, ConeFacet, Fraction, Item, Node, PartClass};
use crate::special::{template, SpecialBricksCache, SpecialShape, answered, requested};

verus! {

broadcast use vstd::std_specs::vec::group_vec_axioms;

/// The colour, transparency and collision that a brick gives every part it
/// is built from.
#[derive(Clone, Copy, Debug, PartialEq, Eq, Structural)]
pub struct Paint {
    pub color: Color3,
    pub transparency: Fraction,
    pub can_collide: bool,
}

/// A brick's paint: its palette colour; fully transparent when the brick is
/// not drawn, else as transparent as its colour's alpha leaves it.
pub open spec fn paint_of(
    palette: Seq<Color3>,
    color_index: int,
    rendering: bool,
    collision: bool,
) -> Paint {
    let color = palette[color_index];
    Paint {
        color,
        transparency: if rendering {
            Fraction { num: (255 - color.a) as u32, den: 255 }
        } else {
            Fraction { num: 1, den: 1 }
        },
        can_collide: collision,
    }
}

pub open spec fn painted(n: Node, p: Paint) -> Node {
    Node {
        color: Some(p.color),
        transparency: Some(p.transparency),
        can_collide: Some(p.can_collide),
        ..n
    }
}

/// The paint of `brick` from `palette`.
pub fn paint_for(brick: &BrickRecord, palette: &[Color3; 64]) -> (p: Paint)
    requires
        brick.wf(),
    ensures
        p == paint_of(palette@, brick.color_index as int, brick.rendering, brick.collision),
{
    let color = palette[brick.color_index as usize];
    let transparency = if brick.rendering {
        Fraction { num: 255 - (color.a as u32), den: 255 }
    } else {
        Fraction { num: 1, den: 1 }
    };
    Paint { color, transparency, can_collide: brick.collision }
}

fn paint(item: &mut Item, p: Paint)
    ensures
        final(item)@ == painted(old(item)@, p),
{
    item.color = Some(p.color);
    item.transparency = Some(p.transparency);
    item.can_collide = Some(p.can_collide);
    assert(final(item)@.children =~= old(item)@.children);
}

fn painted_part(class: PartClass, size: Vector3, cframe: CFrame, p: Paint) -> (r: Item)
    ensures
        r@ == painted(solid(class, size, cframe), p),
{
    let mut r = Item::solid(class, size, cframe);
    paint(&mut r, p);
    r
}

// --------------------------------------------------------------- plain blocks

pub open spec fn regular_nodes(cframe: CFrame, size: Vector3, mesh: RegularBrickMesh, p: Paint) -> Seq<
    Node,
> {
    seq![
        painted(
            if mesh == RegularBrickMesh::Round {
                rounded_node(PartClass::Part, size, cframe)
            } else {
                solid(PartClass::Part, size, cframe)
            },
            p,
        ),
    ]
}

// ---------------------------------------------------------------------- ramps

/// `v`, negated for an inverted brick.
pub open spec fn flip(inverted: bool, v: int) -> int {
    if inverted {
        -v
    } else {
        v
    }
}

pub open spec fn ramp_nodes(
    cframe: CFrame,
    size: Vector3,
    inverted: bool,
    facing: int,
    p: Paint,
) -> Seq<Node> {
    let f = forward(facing);
    seq![
        painted(
            solid(
                PartClass::WedgePart,
                vec3(size.x as int, size.y - WEDGE_LIP_SIZE, size.z as int),
                cframe.shifted(vec3(0, flip(inverted, 45), 0)).shifted(f.times(300)),
            ),
            p,
        ),
        painted(
            solid(
                PartClass::Part,
                vec3(size.x as int, WEDGE_LIP_SIZE as int, size.z as int),
                cframe.shifted(vec3(0, flip(inverted, 45 - size.y / 2), 0)).shifted(f.times(300)),
            ),
            p,
        ),
        painted(
            solid(
                PartClass::Part,
                vec3(size.x as int, size.y as int, 600),
                CFrame { vector: cframe.vector.minus(f.times(size.z / 2)), ..cframe },
            ),
            p,
        ),
    ]
}

// --------------------------------------------------------------- corner ramps

pub open spec fn corner_nodes(
    corner: CFrame,
    side_1: CFrame,
    side_2: CFrame,
    size: Vector3,
    inverted: bool,
    facing: int,
    p: Paint,
) -> Seq<Node> {
    let f = forward(facing);
    let r = right(facing);
    let lift = vec3(0, flip(inverted, 45), 0);
    let slope = size.y - WEDGE_LIP_SIZE;
    seq![
        painted(
            solid(
                PartClass::CornerWedgePart,
                vec3(size.x - 600, slope, size.z - 600),
                corner.shifted(f.times(300)).shifted(r.times(300)).shifted(lift),
            ),
            p,
        ),
        painted(
            solid(
                PartClass::Part,
                vec3(600, slope, 600),
                corner.shifted(f.times(-(size.x / 2))).shifted(f.times(300)).shifted(
                    r.times(-(size.z / 2)),
                ).shifted(r.times(300)).shifted(lift),
            ),
            p,
        ),
        painted(
            solid(
                PartClass::WedgePart,
                vec3(600, slope, size.z - 600),
                side_1.shifted(f.times(-(size.x / 2))).shifted(f.times(300)).shifted(
                    r.times(300),
                ).shifted(lift),
            ),
            p,
        ),
        painted(
            solid(
                PartClass::WedgePart,
                vec3(600, slope, size.z - 600),
                side_2.shifted(f.times(300)).shifted(r.times(-(size.z / 2))).shifted(
                    r.times(300),
                ).shifted(lift),
            ),
            p,
        ),
        painted(
            solid(
                PartClass::Part,
                vec3(size.x as int, WEDGE_LIP_SIZE as int, size.z as int),
                corner.shifted(vec3(0, flip(inverted, 45 - size.y / 2), 0)),
            ),
            p,
        ),
    ]
}

/// The values of a list of nodes.
pub open spec fn nodes_of(items: Seq<Item>) -> Seq<Node> {
    Seq::new(items.len(), |i: int| items[i]@)
}

/// Largest coordinate of a brick's pose that the assembler accepts.
pub const NEAR_LIMIT: i64 = 0x400_0000_0000;

pub open spec fn near(v: Vector3) -> bool {
    -NEAR_LIMIT <= v.x <= NEAR_LIMIT && -NEAR_LIMIT <= v.y <= NEAR_LIMIT && -NEAR_LIMIT <= v.z
        <= NEAR_LIMIT
}

/// A size that a straight or corner ramp can have.
pub open spec fn ramp_size_ok(size: Vector3) -> bool {
    0 <= size.x <= 0xFFFF_FFFF * 600 && 0 <= size.y <= 0x1_0000 && 0 <= size.z <= 0x1_0000
        && size.y % 2 == 0 && size.z % 2 == 0 && size.x % 2 == 0
}

fn regular_items(cframe: CFrame, size: Vector3, mesh: RegularBrickMesh, p: Paint) -> (r: Vec<Item>)
    ensures
        nodes_of(r@) == regular_nodes(cframe, size, mesh, p),
{
    let mut item = match mesh {
        RegularBrickMesh::Round => Item::rounded(PartClass::Part, size, cframe),
        RegularBrickMesh::Block => Item::solid(PartClass::Part, size, cframe),
    };
    paint(&mut item, p);
    let r = vec![item];
    assert(nodes_of(r@) =~= regular_nodes(cframe, size, mesh, p));
    r
}

fn ramp_items(cframe: CFrame, size: Vector3, inverted: bool, angle: u8, p: Paint) -> (r: Vec<Item>)
    requires
        near(cframe.vector),
        ramp_size_ok(size),
    ensures
        nodes_of(r@) == ramp_nodes(cframe, size, inverted, angle as int, p),
{
    let f = forward_from_angle(angle);
    let rise: i64 = if inverted {
        -45
    } else {
        45
    };
    let drop: i64 = if inverted {
        size.y / 2 - 45
    } else {
        45 - size.y / 2
    };
    let wedge = painted_part(
        PartClass::WedgePart,
        Vector3 { x: size.x, y: size.y - WEDGE_LIP_SIZE, z: size.z },
        cframe.add(Vector3 { x: 0, y: rise, z: 0 }).add(f.mul(300)),
        p,
    );
    let lip = painted_part(
        PartClass::Part,
        Vector3 { x: size.x, y: WEDGE_LIP_SIZE, z: size.z },
        cframe.add(Vector3 { x: 0, y: drop, z: 0 }).add(f.mul(300)),
        p,
    );
    let back = painted_part(
        PartClass::Part,
        Vector3 { x: size.x, y: size.y, z: 600 },
        cframe.sub(f.mul(size.z / 2)),
        p,
    );
    let r = vec![wedge, lip, back];
    assert(nodes_of(r@) =~= ramp_nodes(cframe, size, inverted, angle as int, p));
    r
}

#[verifier::rlimit(40)]
fn corner_items(
    corner: CFrame,
    side_1: CFrame,
    side_2: CFrame,
    size: Vector3,
    inverted: bool,
    angle: u8,
    p: Paint,
) -> (r: Vec<Item>)
    requires
        near(corner.vector),
        near(side_1.vector),
        near(side_2.vector),
        ramp_size_ok(size),
        size.x <= 0x1_0000,
    ensures
        nodes_of(r@) == corner_nodes(corner, side_1, side_2, size, inverted, angle as int, p),
{
    let f = forward_from_angle(angle);
    let rt = right_from_angle(angle);
    let lift = Vector3 {
        x: 0,
        y: if inverted {
            -45
        } else {
            45
        },
        z: 0,
    };
    let slope = size.y - WEDGE_LIP_SIZE;
    let drop: i64 = if inverted {
        size.y / 2 - 45
    } else {
        45 - size.y / 2
    };
    let ahead = f.mul(300);
    let back = f.mul(-(size.x / 2));
    let aside = rt.mul(300);
    let across = rt.mul(-(size.z / 2));
    let wedge = painted_part(
        PartClass::CornerWedgePart,
        Vector3 { x: size.x - 600, y: slope, z: size.z - 600 },
        corner.add(ahead).add(aside).add(lift),
        p,
    );
    let filler = painted_part(
        PartClass::Part,
        Vector3 { x: 600, y: slope, z: 600 },
        corner.add(back).add(ahead).add(across).add(aside).add(lift),
        p,
    );
    let first = painted_part(
        PartClass::WedgePart,
        Vector3 { x: 600, y: slope, z: size.z - 600 },
        side_1.add(back).add(ahead).add(aside).add(lift),
        p,
    );
    let second = painted_part(
        PartClass::WedgePart,
        Vector3 { x: 600, y: slope, z: size.z - 600 },
        side_2.add(ahead).add(across).add(aside).add(lift),
        p,
    );
    let lip = painted_part(
        PartClass::Part,
        Vector3 { x: size.x, y: WEDGE_LIP_SIZE, z: size.z },
        corner.add(Vector3 { x: 0, y: drop, z: 0 }),
        p,
    );
    let r = vec![wedge, filler, first, second, lip];
    assert(nodes_of(r@) =~= corner_nodes(
        corner,
        side_1,
        side_2,
        size,
        inverted,
        angle as int,
        p,
    ));
    r
}

/// Where a part's extent along direction `d` starts and ends: its centre's
/// component along `d`, less and plus half its local depth (the size along
/// its local Z axis, which a brick's rotation turns onto its facing).
pub open spec fn rear_along(n: Node, d: Vector3) -> int {
    n.cframe->Some_0.vector.dot(d) - n.size->Some_0.z / 2
}

pub open spec fn front_along(n: Node, d: Vector3) -> int {
    n.cframe->Some_0.vector.dot(d) + n.size->Some_0.z / 2
}

/// Bottom and top of a part.
pub open spec fn bottom(n: Node) -> int {
    n.cframe->Some_0.vector.y - n.size->Some_0.y / 2
}

pub open spec fn top(n: Node) -> int {
    n.cframe->Some_0.vector.y + n.size->Some_0.y / 2
}

/// A ramp's slope and lip both end exactly where its back filler begins,
/// along the ramp's facing, so there is neither gap nor overlap there; and
/// stacked, the lip (at the bottom, or at the top when inverted) and the
/// slope fill exactly the filler's height.
pub proof fn lemma_ramp_seams(
    cframe: CFrame,
    size: Vector3,
    inverted: bool,
    facing: int,
    p: Paint,
)
    requires
        near(cframe.vector),
        ramp_size_ok(size),
        0 <= facing < 4,
    ensures
        ({
            let parts = ramp_nodes(cframe, size, inverted, facing, p);
            let f = forward(facing);
            let (wedge, lip, back) = (parts[0], parts[1], parts[2]);
            &&& rear_along(wedge, f) == front_along(back, f)
            &&& rear_along(lip, f) == front_along(back, f)
            &&& !inverted ==> bottom(lip) == bottom(back) && top(lip) == bottom(wedge) && top(
                wedge,
            ) == top(back)
            &&& inverted ==> top(lip) == top(back) && bottom(lip) == top(wedge) && bottom(wedge)
                == bottom(back)
        }),
{
    let f = forward(facing);
    lemma_unit_times(f, size.z / 2);
    lemma_unit_times(f, 300);
    if facing == 0 {
        assert(f == vec3(0, 0, -1));
    } else if facing == 1 {
        assert(f == vec3(1, 0, 0));
    } else if facing == 2 {
        assert(f == vec3(0, 0, 1));
    } else {
        assert(f == vec3(-1, 0, 0));
    }
}

// ---------------------------------------------------------- special templates

/// A node moved by `v`: its pose, or its cone facet's anchor.
pub open spec fn moved(n: Node, v: Vector3) -> Node {
    Node {
        cframe: match n.cframe {
            Some(c) => Some(c.shifted(v)),
            None => None,
        },
        facet: match n.facet {
            Some(f) => Some(ConeFacet { origin: f.origin.plus(v), ..f }),
            None => None,
        },
        ..n
    }
}

/// A special shape's model placed at `v` and painted: each of its parts is
/// moved by `v` and painted; the parts' own children are kept.
pub open spec fn placed(model: Node, v: Vector3, p: Paint) -> Node {
    Node {
        children: Seq::new(model.children.len(), |k: int| painted(moved(model.children[k], v), p)),
        ..model
    }
}

/// Every part of the model sits within 2^28 ticks of its anchor.
pub open spec fn parts_near_anchor(model: Node) -> bool {
    forall|k: int|
        0 <= k < model.children.len() ==> {
            &&& (#[trigger] model.children[k]).cframe matches Some(c) ==> c.vector.small()
            &&& model.children[k].facet matches Some(f) ==> f.origin.small()
        }
}

/// Places a special shape's model at `v` with the brick's paint.
pub fn place(model: &Item, v: Vector3, p: Paint) -> (r: Item)
    requires
        parts_near_anchor(model@),
        near(v),
    ensures
        r@ == placed(model@, v, p),
{
    let mut children: Vec<Item> = Vec::new();
    let n = model.children.len();
    let mut i: usize = 0;
    while i < n
        invariant
            n == model.children@.len(),
            i <= n,
            parts_near_anchor(model@),
            near(v),
            children@.len() == i,
            forall|k: int|
                0 <= k < i ==> #[trigger] children@[k]@ == painted(moved(model@.children[k], v), p),
        decreases n - i,
    {
        let mut part = model.children[i].duplicate();
        assert(part@ == model@.children[i as int]);
        part.cframe = match part.cframe {
            Some(c) => Some(c.add(v)),
            None => None,
        };
        part.facet = match part.facet {
            Some(f) => Some(ConeFacet { origin: f.origin.add(v), ..f }),
            None => None,
        };
        paint(&mut part, p);
        children.push(part);
        i = i + 1;
    }
    let r = Item {
        class: model.class,
        size: model.size,
        cframe: model.cframe,
        facet: model.facet,
        color: model.color,
        transparency: model.transparency,
        can_collide: model.can_collide,
        children,
    };
    assert forall|k: int| 0 <= k < n implies r@.children[k] == placed(model@, v, p).children[k] by {
        assert(r@.children[k] == r.children@[k]@);
    }
    assert(r@.children =~= placed(model@, v, p).children);
    r
}

// ---------------------------------------------------------------- conversion

/// Why a brick gave no parts.
#[derive(Clone, Copy, Debug, PartialEq, Eq, Structural)]
pub enum ConversionError {
    /// The name is none of the shapes this compiler builds.
    Unrecognized,
    /// The name has a shape's form but cannot be built.
    Malformed(NameError),
}

/// The name of the round cone 2 studs across and 2 bricks tall.
pub open spec fn cone_name() -> Seq<char> {
    seq!['2', 'x', '2', 'x', '2', ' ', 'C', 'o', 'n', 'e']
}

/// Whether a brick named `name` is built from the cached 2 stud cone.
pub open spec fn uses_cone(name: Seq<char>, pos: (i64, i64, i64), facing: int) -> bool {
    brick_type_of(name, pos, facing) == Ok::<BrickType, NameError>(BrickType::Unknown) && name
        == cone_name()
}

/// The parts that a brick is built from, in order; or why there are none.
pub open spec fn brick_nodes(name: Seq<char>, pos: (i64, i64, i64), facing: int, p: Paint) -> Result<
    Seq<Node>,
    ConversionError,
> {
    match brick_type_of(name, pos, facing) {
        Err(e) => Err(ConversionError::Malformed(e)),
        Ok(BrickType::Regular { cframe, size, mesh }) => Ok(regular_nodes(cframe, size, mesh, p)),
        Ok(BrickType::Ramp { cframe, size, inverted }) => Ok(
            ramp_nodes(cframe, size, inverted, facing, p),
        ),
        Ok(BrickType::RampCorner { corner_cframe, wedge_cframe_1, wedge_cframe_2, size, inverted }) => Ok(
            corner_nodes(corner_cframe, wedge_cframe_1, wedge_cframe_2, size, inverted, facing, p),
        ),
        Ok(BrickType::Unknown) => if name == cone_name() {
            Ok(seq![placed(template(SpecialShape::Cone2x2x2), grid_translation(pos), p)])
        } else {
            Err(ConversionError::Unrecognized)
        },
    }
}

pub open spec fn result_nodes(r: Result<Vec<Item>, ConversionError>) -> Result<
    Seq<Node>,
    ConversionError,
> {
    match r {
        Ok(items) => Ok(nodes_of(items@)),
        Err(e) => Err(e),
    }
}

fn is_cone_name(name: &str) -> (r: bool)
    ensures
        r == (name@ == cone_name()),
{
    let s = chars_of(name);
    let w = vec!['2', 'x', '2', 'x', '2', ' ', 'C', 'o', 'n', 'e'];
    assert(w@ =~= cone_name());
    let r = s.len() == w.len() && has_word(&s, 0, &w);
    proof {
        if s@ == cone_name() {
            assert(s@.subrange(0, w@.len() as int) =~= s@);
        }
    }
    if r {
        assert(s@ =~= s@.subrange(0, w@.len() as int));
    }
    r
}

proof fn lemma_cone_parts_near_anchor()
    ensures
        parts_near_anchor(template(SpecialShape::Cone2x2x2)),
{
}

/// Builds the parts of one brick, painted from `palette`. Special shapes
/// come from `cache`, which builds each at most once.
pub fn items_from_brick(
    brick: &BrickRecord,
    palette: &[Color3; 64],
    cache: &mut SpecialBricksCache,
) -> (r: Result<Vec<Item>, ConversionError>)
    requires
        brick.wf(),
        old(cache).wf(),
    ensures
        final(cache).wf(),
        result_nodes(r) == brick_nodes(
            brick.ui_name@,
            brick.position,
            brick.angle as int,
            paint_of(palette@, brick.color_index as int, brick.rendering, brick.collision),
        ),
        final(cache)@ == if uses_cone(brick.ui_name@, brick.position, brick.angle as int) {
            requested(old(cache)@, SpecialShape::Cone2x2x2)
        } else {
            old(cache)@
        },
{
    let p = paint_for(brick, palette);
    match get_brick_type(brick) {
        Err(e) => Err(ConversionError::Malformed(e)),
        Ok(BrickType::Regular { cframe, size, mesh }) => Ok(regular_items(cframe, size, mesh, p)),
        Ok(BrickType::Ramp { cframe, size, inverted }) => Ok(
            ramp_items(cframe, size, inverted, brick.angle, p),
        ),
        Ok(BrickType::RampCorner { corner_cframe, wedge_cframe_1, wedge_cframe_2, size, inverted }) => Ok(
            corner_items(
                corner_cframe,
                wedge_cframe_1,
                wedge_cframe_2,
                size,
                inverted,
                brick.angle,
                p,
            ),
        ),
        Ok(BrickType::Unknown) => {
            if is_cone_name(brick.ui_name.as_str()) {
                let model = cache.cone2x2x2();
                proof {
                    lemma_cone_parts_near_anchor();
                }
                let anchor = Vector3 {
                    x: brick.position.0 * 2,
                    y: brick.position.2 * 2,
                    z: -brick.position.1 * 2,
                };
                let item = place(&model, anchor, p);
                let r = vec![item];
                assert(nodes_of(r@) =~= seq![item@]);
                Ok(r)
            } else {
                Err(ConversionError::Unrecognized)
            }
        },
    }
}

} // verus!
