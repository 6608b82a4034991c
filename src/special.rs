use vstd::prelude::*;
use crate::geometry::{
    half_turn_x, half_turn_x_exec, half_turn_y, half_turn_y_exec, half_turn_z, half_turn_z_exec,
    identity, quarter_turn_y, quarter_turn_y_exec, three_quarter_turn_y,
    three_quarter_turn_y_exec, vec3, CFrame, Rotation, Vector3,
};
use crate::scene::{bare, rounded_node, solid, ConeFacet, Fraction, Item, Node, PartClass};

verus! {

broadcast use vstd::std_specs::vec::group_vec_axioms;

/// Number of facets in the ring of wedges that makes a cone's side.
pub const CONE_RESOLUTION: u32 = 32;

/// Thickness of a cone's walls and caps: 0.01 studs.
pub const CONE_WALL_WIDTH: i64 = 6;

/// Height of the slab under a roof crest's slopes: 0.15 brick heights.
pub const CREST_LIP: i64 = 108;

/// Largest roof crest height.
pub const MAX_CREST_HEIGHT: i64 = 0x10000;

pub open spec fn at(x: int, y: int, z: int, rotation: Rotation) -> CFrame {
    CFrame { vector: vec3(x, y, z), rotation }
}

fn frame(x: i64, y: i64, z: i64, rotation: Rotation) -> (r: CFrame)
    ensures
        r == at(x as int, y as int, z as int, rotation),
{
    CFrame { vector: Vector3 { x, y, z }, rotation }
}

fn part(class: PartClass, sx: i64, sy: i64, sz: i64, cframe: CFrame) -> (r: Item)
    ensures
        r@ == solid(class, vec3(sx as int, sy as int, sz as int), cframe),
{
    Item::solid(class, Vector3 { x: sx, y: sy, z: sz }, cframe)
}

pub open spec fn group(children: Seq<Node>) -> Node {
    Node { children, ..bare(PartClass::Model) }
}


// ---------------------------------------------------------------- castle wall

pub open spec fn castle_wall_node() -> Node {
    group(
        seq![
            solid(PartClass::Part, vec3(600, 2160, 1800), at(0, -1080, 0, identity())),
            solid(PartClass::Part, vec3(600, 1200, 600), at(0, 600, 600, identity())),
            solid(PartClass::Part, vec3(600, 1200, 600), at(0, 600, -600, identity())),
            solid(PartClass::WedgePart, vec3(600, 240, 200), at(0, 1080, 200, half_turn_z())),
            solid(PartClass::WedgePart, vec3(600, 240, 200), at(0, 1080, -200, half_turn_x())),
            solid(PartClass::Part, vec3(600, 960, 1800), at(0, 1680, 0, identity())),
        ],
    )
}

/// A castle wall segment: a base, two posts, two sloped caps between them
/// and a top, in a 1 by 3 stud footprint.
pub fn generate_castle_wall() -> (r: Item)
    ensures
        r@ == castle_wall_node(),
{
    let mut model = Item::default(PartClass::Model);
    let id = Rotation::identity();
    model.children.push(part(PartClass::Part, 600, 2160, 1800, frame(0, -1080, 0, id)));
    model.children.push(part(PartClass::Part, 600, 1200, 600, frame(0, 600, 600, id)));
    model.children.push(part(PartClass::Part, 600, 1200, 600, frame(0, 600, -600, id)));
    model.children.push(
        part(PartClass::WedgePart, 600, 240, 200, frame(0, 1080, 200, half_turn_z_exec())),
    );
    model.children.push(
        part(PartClass::WedgePart, 600, 240, 200, frame(0, 1080, -200, half_turn_x_exec())),
    );
    model.children.push(part(PartClass::Part, 600, 960, 1800, frame(0, 1680, 0, id)));
    assert(model@.children =~= castle_wall_node().children);
    model
}

// ---------------------------------------------------------------- spawn point

pub open spec fn spawn_point_node() -> Node {
    group(
        seq![
            solid(
                PartClass::SpawnLocation,
                vec3(1800, 144, 1800),
                at(0, -1728, 0, quarter_turn_y()),
            ),
            Node {
                transparency: Some(Fraction { num: 1, den: 2 }),
                can_collide: Some(false),
                ..solid(PartClass::Part, vec3(1800, 3456, 1800), at(0, 72, 0, identity()))
            },
        ],
    )
}

/// A spawn pad under a see-through, walk-through cover that fills the rest
/// of a five brick tall, 3 by 3 stud volume.
pub fn generate_spawn_point() -> (r: Item)
    ensures
        r@ == spawn_point_node(),
{
    let mut model = Item::default(PartClass::Model);
    model.children.push(
        part(PartClass::SpawnLocation, 1800, 144, 1800, frame(0, -1728, 0, quarter_turn_y_exec())),
    );
    let mut cover = part(PartClass::Part, 1800, 3456, 1800, frame(0, 72, 0, Rotation::identity()));
    cover.transparency = Some(Fraction { num: 1, den: 2 });
    cover.can_collide = Some(false);
    assert(cover@.children =~= Seq::empty());
    model.children.push(cover);
    assert(model@.children =~= spawn_point_node().children);
    model
}

// --------------------------------------------------------------------- window

pub open spec fn window_node() -> Node {
    group(
        seq![
            solid(PartClass::Part, vec3(2400, 72, 600), at(0, -1764, 0, identity())),
            solid(PartClass::Part, vec3(2400, 72, 600), at(0, 1764, 0, identity())),
            solid(PartClass::Part, vec3(60, 3456, 600), at(1170, 0, 0, identity())),
            solid(PartClass::Part, vec3(60, 3456, 600), at(-1170, 0, 0, identity())),
            Node {
                transparency: Some(Fraction { num: 1, den: 2 }),
                ..solid(PartClass::Part, vec3(2280, 3456, 600), at(0, 0, 0, identity()))
            },
        ],
    )
}

/// A 1 by 4 stud, five brick tall window: a frame of four rims around a
/// half see-through pane.
pub fn generate_window() -> (r: Item)
    ensures
        r@ == window_node(),
{
    let mut model = Item::default(PartClass::Model);
    let id = Rotation::identity();
    model.children.push(part(PartClass::Part, 2400, 72, 600, frame(0, -1764, 0, id)));
    model.children.push(part(PartClass::Part, 2400, 72, 600, frame(0, 1764, 0, id)));
    model.children.push(part(PartClass::Part, 60, 3456, 600, frame(1170, 0, 0, id)));
    model.children.push(part(PartClass::Part, 60, 3456, 600, frame(-1170, 0, 0, id)));
    let mut pane = part(PartClass::Part, 2280, 3456, 600, frame(0, 0, 0, id));
    pane.transparency = Some(Fraction { num: 1, den: 2 });
    assert(pane@.children =~= Seq::empty());
    model.children.push(pane);
    assert(model@.children =~= window_node().children);
    model
}

// --------------------------------------------------------------- roof crests

/// A crest height the generators accept, in ticks: taller than the lip and
/// even, so that the slopes' centres fall on whole ticks.
pub open spec fn crest_height_ok(height: int) -> bool {
    CREST_LIP < height <= MAX_CREST_HEIGHT && height % 2 == 0
}

/// Height of the centre of a crest's slopes over the brick's anchor.
pub open spec fn crest_level(height: int) -> int {
    (height - 612) / 2
}

/// The slab under a crest, `x` by `z` ticks.
pub open spec fn crest_lip_node(x: int, z: int) -> Node {
    solid(PartClass::Part, vec3(x, CREST_LIP as int, z), at(0, -306, 0, identity()))
}

fn generate_crest_lip(x: i64, z: i64) -> (r: Item)
    ensures
        r@ == crest_lip_node(x as int, z as int),
{
    part(PartClass::Part, x, CREST_LIP, z, frame(0, -306, 0, Rotation::identity()))
}

pub open spec fn crest_slope(
    class: PartClass,
    sx: int,
    height: int,
    x: int,
    z: int,
    rotation: Rotation,
) -> Node {
    solid(class, vec3(sx, height - CREST_LIP, 600), at(x, crest_level(height), z, rotation))
}

pub open spec fn crest_node(height: int, length: int) -> Node {
    group(
        seq![
            crest_slope(PartClass::WedgePart, length * 600, height, 0, 300, half_turn_y()),
            crest_slope(PartClass::WedgePart, length * 600, height, 0, -300, identity()),
            crest_lip_node(length * 600, 1200),
        ],
    )
}

/// A straight roof crest `length` studs long: two slopes meeting at the
/// ridge over a lip. `height` is the crest's height in ticks.
pub fn generate_crest(height: i64, length: u8) -> (r: Item)
    requires
        crest_height_ok(height as int),
    ensures
        r@ == crest_node(height as int, length as int),
{
    let mut model = Item::default(PartClass::Model);
    let l = (length as i64) * 600;
    let level = (height - 612) / 2;
    model.children.push(
        part(
            PartClass::WedgePart,
            l,
            height - CREST_LIP,
            600,
            frame(0, level, 300, half_turn_y_exec()),
        ),
    );
    model.children.push(
        part(PartClass::WedgePart, l, height - CREST_LIP, 600, frame(0, level, -300, Rotation::identity())),
    );
    model.children.push(generate_crest_lip(l, 1200));
    assert(model@.children =~= crest_node(height as int, length as int).children);
    model
}

pub open spec fn crest_corner_node(height: int) -> Node {
    group(
        seq![
            crest_slope(PartClass::WedgePart, 600, height, 300, 300, half_turn_y()),
            crest_slope(PartClass::WedgePart, 600, height, 300, -300, identity()),
            crest_slope(PartClass::WedgePart, 600, height, -300, 300, quarter_turn_y()),
            crest_slope(PartClass::WedgePart, 600, height, 300, 300, three_quarter_turn_y()),
            crest_slope(PartClass::CornerWedgePart, 600, height, -300, -300, three_quarter_turn_y()),
            crest_lip_node(1200, 1200),
        ],
    )
}

/// Where two crests meet at a right angle, over a 2 by 2 stud lip.
pub fn generate_crest_corner(height: i64) -> (r: Item)
    requires
        crest_height_ok(height as int),
    ensures
        r@ == crest_corner_node(height as int),
{
    let mut model = Item::default(PartClass::Model);
    let h = height - CREST_LIP;
    let level = (height - 612) / 2;
    model.children.push(
        part(PartClass::WedgePart, 600, h, 600, frame(300, level, 300, half_turn_y_exec())),
    );
    model.children.push(
        part(PartClass::WedgePart, 600, h, 600, frame(300, level, -300, Rotation::identity())),
    );
    model.children.push(
        part(PartClass::WedgePart, 600, h, 600, frame(-300, level, 300, quarter_turn_y_exec())),
    );
    model.children.push(
        part(PartClass::WedgePart, 600, h, 600, frame(300, level, 300, three_quarter_turn_y_exec())),
    );
    model.children.push(
        part(
            PartClass::CornerWedgePart,
            600,
            h,
            600,
            frame(-300, level, -300, three_quarter_turn_y_exec()),
        ),
    );
    model.children.push(generate_crest_lip(1200, 1200));
    assert(model@.children =~= crest_corner_node(height as int).children);
    model
}

pub open spec fn crest_end_node(height: int) -> Node {
    group(
        seq![
            crest_slope(PartClass::CornerWedgePart, 600, height, 0, 300, quarter_turn_y()),
            crest_slope(PartClass::CornerWedgePart, 600, height, 0, -300, half_turn_y()),
            crest_lip_node(600, 1200),
        ],
    )
}

/// The closed end of a crest, over a 1 by 2 stud lip.
pub fn generate_crest_end(height: i64) -> (r: Item)
    requires
        crest_height_ok(height as int),
    ensures
        r@ == crest_end_node(height as int),
{
    let mut model = Item::default(PartClass::Model);
    let h = height - CREST_LIP;
    let level = (height - 612) / 2;
    model.children.push(
        part(PartClass::CornerWedgePart, 600, h, 600, frame(0, level, 300, quarter_turn_y_exec())),
    );
    model.children.push(
        part(PartClass::CornerWedgePart, 600, h, 600, frame(0, level, -300, half_turn_y_exec())),
    );
    model.children.push(generate_crest_lip(600, 1200));
    assert(model@.children =~= crest_end_node(height as int).children);
    model
}

// ---------------------------------------------------------------------- cones

pub open spec fn facet_node(cone_size: int, step: int, resolution: int, trailing: bool) -> Node {
    Node {
        facet: Some(
            ConeFacet {
                cone_size: cone_size as u32,
                step: step as u32,
                resolution: resolution as u32,
                trailing,
                origin: vec3(0, 0, 0),
            },
        ),
        ..bare(PartClass::WedgePart)
    }
}

/// The `k`-th part of a cone: facet pairs first, then the bottom and the top
/// caps.
pub open spec fn cone_part(cone_size: int, resolution: int, k: int) -> Node {
    if k < 2 * resolution {
        facet_node(cone_size, k / 2, resolution, k % 2 == 1)
    } else if k == 2 * resolution {
        rounded_node(
            PartClass::Part,
            vec3(cone_size * 600, CONE_WALL_WIDTH as int, cone_size * 600),
            at(0, -360 * cone_size, 0, identity()),
        )
    } else {
        rounded_node(
            PartClass::Part,
            vec3(cone_size * 300, CONE_WALL_WIDTH as int, cone_size * 300),
            at(0, 360 * cone_size, 0, identity()),
        )
    }
}

pub open spec fn cone_node(cone_size: int, resolution: int) -> Node {
    group(Seq::new((2 * resolution + 2) as nat, |k: int| cone_part(cone_size, resolution, k)))
}

/// Largest cone diameter, in studs.
pub const MAX_CONE_SIZE: u32 = 0x10000;

/// Largest number of facets of a cone.
pub const MAX_RESOLUTION: u32 = 0x10000;

/// A round cone `cone_size` studs across at its base and twice as many brick
/// heights tall, whose top is half as wide as its base: a ring of
/// `resolution` pairs of wedges between a bottom and a top cap, each cap
/// drawn as a disc.
pub fn generate_cone(cone_size: u32, resolution: u32) -> (r: Item)
    requires
        0 < cone_size <= MAX_CONE_SIZE,
        0 < resolution <= MAX_RESOLUTION,
    ensures
        r@ == cone_node(cone_size as int, resolution as int),
{
    let mut model = Item::default(PartClass::Model);
    let mut i: u32 = 0;
    while i < resolution
        invariant
            i <= resolution <= MAX_RESOLUTION,
            model.class == PartClass::Model,
            model@ == group(model@.children),
            model.children@.len() == 2 * i,
            forall|k: int|
                0 <= k < 2 * i ==> #[trigger] model.children@[k]@ == cone_part(
                    cone_size as int,
                    resolution as int,
                    k,
                ),
        decreases resolution - i,
    {
        let mut leading = Item::default(PartClass::WedgePart);
        leading.facet = Some(
            ConeFacet {
                cone_size,
                step: i,
                resolution,
                trailing: false,
                origin: Vector3 { x: 0, y: 0, z: 0 },
            },
        );
        let mut trailing = Item::default(PartClass::WedgePart);
        trailing.facet = Some(
            ConeFacet { cone_size, step: i, resolution, trailing: true, origin: Vector3 { x: 0, y: 0, z: 0 } },
        );
        assert(leading@.children =~= Seq::empty());
        assert(trailing@.children =~= Seq::empty());
        model.children.push(leading);
        model.children.push(trailing);
        proof {
            assert(cone_part(cone_size as int, resolution as int, 2 * i) == leading@);
            assert(cone_part(cone_size as int, resolution as int, 2 * i + 1) == trailing@);
        }
        i = i + 1;
    }
    let c = cone_size as i64;
    let id = Rotation::identity();
    model.children.push(
        Item::rounded(PartClass::Part, Vector3 { x: c * 600, y: CONE_WALL_WIDTH, z: c * 600 }, frame(0, -360 * c, 0, id)),
    );
    model.children.push(
        Item::rounded(PartClass::Part, Vector3 { x: c * 300, y: CONE_WALL_WIDTH, z: c * 300 }, frame(0, 360 * c, 0, id)),
    );
    let ghost n = 2 * resolution as int + 2;
    assert forall|k: int| 0 <= k < n implies model@.children[k] == cone_part(
        cone_size as int,
        resolution as int,
        k,
    ) by {
        assert(model@.children[k] == model.children@[k]@);
    }
    assert(model@.children =~= cone_node(cone_size as int, resolution as int).children);
    model
}

/// Around a cone of any number of facets, the trailing wedge of each pair is
/// oriented by the same sample of the cone's side as the leading wedge of
/// the next pair (the last pair wrapping round to the first), and every
/// facet belongs to the same cone; so neighbouring pairs share the edge
/// between them. The leading wedge of pair `i` samples step `i`.
pub proof fn lemma_cone_facets_continuous(cone_size: int, resolution: int, i: int)
    requires
        0 < cone_size <= MAX_CONE_SIZE,
        0 < resolution <= MAX_RESOLUTION,
        0 <= i < resolution,
    ensures
        ({
            let parts = cone_node(cone_size, resolution).children;
            let lead = parts[2 * i].facet->Some_0;
            let trail = parts[2 * i + 1].facet->Some_0;
            let next = parts[2 * ((i + 1) % resolution)].facet->Some_0;
            &&& parts.len() == 2 * resolution + 2
            &&& parts[2 * i].facet is Some
            &&& parts[2 * i + 1].facet is Some
            &&& lead.sample_step() == i
            &&& trail.sample_step() == next.sample_step()
            &&& trail.cone_size == next.cone_size == cone_size
            &&& trail.resolution == next.resolution == resolution
            &&& trail.origin == next.origin
        }),
{
    let parts = cone_node(cone_size, resolution).children;
    let j = (i + 1) % resolution;
    assert(0 <= j < resolution);
    assert((2 * i) / 2 == i && (2 * i) % 2 == 0);
    assert((2 * i + 1) / 2 == i && (2 * i + 1) % 2 == 1);
    assert((2 * j) / 2 == j && (2 * j) % 2 == 0);
    assert(parts[2 * i] == facet_node(cone_size, i, resolution, false));
    assert(parts[2 * i + 1] == facet_node(cone_size, i, resolution, true));
    assert(parts[2 * j] == facet_node(cone_size, j, resolution, false));
}

// ---------------------------------------------------------------------- cache

/// The special shapes that the cache holds.
#[derive(Clone, Copy, Debug, PartialEq, Eq, Structural)]
pub enum SpecialShape {
    Cone2x2x2,
    Cone1x1,
    CastleWall,
    SpawnPoint,
    Window1x4x3,
    CrestCorner25,
    CrestEnd25,
    CrestCorner45,
    CrestEnd45,
}

/// Number of special shapes.
pub const SPECIAL_SHAPES: usize = 9;

/// Crest height of a 25 degree roof: two thirds of a brick.
pub const CREST_HEIGHT_25: i64 = 480;

/// Crest height of a 45 degree roof: one brick.
pub const CREST_HEIGHT_45: i64 = 720;

pub open spec fn slot_of(shape: SpecialShape) -> int {
    match shape {
        SpecialShape::Cone2x2x2 => 0,
        SpecialShape::Cone1x1 => 1,
        SpecialShape::CastleWall => 2,
        SpecialShape::SpawnPoint => 3,
        SpecialShape::Window1x4x3 => 4,
        SpecialShape::CrestCorner25 => 5,
        SpecialShape::CrestEnd25 => 6,
        SpecialShape::CrestCorner45 => 7,
        SpecialShape::CrestEnd45 => 8,
    }
}

/// The model of a special shape, in its own frame centred on the brick's
/// anchor.
pub open spec fn template(shape: SpecialShape) -> Node {
    match shape {
        SpecialShape::Cone2x2x2 => cone_node(2, CONE_RESOLUTION as int),
        SpecialShape::Cone1x1 => cone_node(1, CONE_RESOLUTION as int),
        SpecialShape::CastleWall => castle_wall_node(),
        SpecialShape::SpawnPoint => spawn_point_node(),
        SpecialShape::Window1x4x3 => window_node(),
        SpecialShape::CrestCorner25 => crest_corner_node(CREST_HEIGHT_25 as int),
        SpecialShape::CrestEnd25 => crest_end_node(CREST_HEIGHT_25 as int),
        SpecialShape::CrestCorner45 => crest_corner_node(CREST_HEIGHT_45 as int),
        SpecialShape::CrestEnd45 => crest_end_node(CREST_HEIGHT_45 as int),
    }
}

/// Builds the model of a special shape.
pub fn generate(shape: SpecialShape) -> (r: Item)
    ensures
        r@ == template(shape),
{
    match shape {
        SpecialShape::Cone2x2x2 => generate_cone(2, CONE_RESOLUTION),
        SpecialShape::Cone1x1 => generate_cone(1, CONE_RESOLUTION),
        SpecialShape::CastleWall => generate_castle_wall(),
        SpecialShape::SpawnPoint => generate_spawn_point(),
        SpecialShape::Window1x4x3 => generate_window(),
        SpecialShape::CrestCorner25 => generate_crest_corner(CREST_HEIGHT_25),
        SpecialShape::CrestEnd25 => generate_crest_end(CREST_HEIGHT_25),
        SpecialShape::CrestCorner45 => generate_crest_corner(CREST_HEIGHT_45),
        SpecialShape::CrestEnd45 => generate_crest_end(CREST_HEIGHT_45),
    }
}

/// What a cache holds after a request for `shape`: that shape's model, and
/// whatever it held for the others.
pub open spec fn requested(held: Seq<Option<Node>>, shape: SpecialShape) -> Seq<Option<Node>> {
    held.update(slot_of(shape), Some(template(shape)))
}

/// Special-shape models built on first request and copied out afterwards.
pub struct SpecialBricksCache {
    slots: Vec<Option<Item>>,
    /// The shapes built so far, in the order they were built.
    generated: Ghost<Seq<SpecialShape>>,
}

impl View for SpecialBricksCache {
    type V = Seq<Option<Node>>;

    /// The model held for each shape, by slot.
    closed spec fn view(&self) -> Seq<Option<Node>> {
        Seq::new(
            self.slots@.len(),
            |i: int|
                match self.slots@[i] {
                    Some(item) => Some(item@),
                    None => None,
                },
        )
    }
}

/// A request for `shape` on cache `before` that left `after` and handed out
/// `r`: `r` is the shape's model; `after` holds it too and is otherwise
/// `before`; the shape was built only if `before` did not hold it.
pub open spec fn answered(
    before: SpecialBricksCache,
    after: SpecialBricksCache,
    shape: SpecialShape,
    r: Node,
) -> bool {
    &&& after.wf()
    &&& r == template(shape)
    &&& after@ == requested(before@, shape)
    &&& before@[slot_of(shape)] is Some ==> after@ == before@ && after.generated()
        == before.generated()
    &&& before@[slot_of(shape)] is None ==> after.generated() == before.generated().push(shape)
}

/// Asking for a shape twice gives the same model both times; the second
/// request builds nothing and leaves the cache as the first left it; and no
/// shape is ever built twice.
pub proof fn lemma_request_idempotent(
    c1: SpecialBricksCache,
    c2: SpecialBricksCache,
    c3: SpecialBricksCache,
    shape: SpecialShape,
    r1: Node,
    r2: Node,
)
    requires
        c1.wf(),
        answered(c1, c2, shape, r1),
        answered(c2, c3, shape, r2),
    ensures
        r1 == r2,
        c3@ == c2@,
        c3.generated() == c2.generated(),
        requested(requested(c1@, shape), shape) == requested(c1@, shape),
        c3.generated().no_duplicates(),
{
    assert(c2@[slot_of(shape)] is Some);
    assert(requested(requested(c1@, shape), shape) =~= requested(c1@, shape));
}

impl SpecialBricksCache {
    /// The shapes whose models have been built, in order.
    pub closed spec fn generated(&self) -> Seq<SpecialShape> {
        self.generated@
    }

    /// One slot per shape; a filled slot holds that shape's model; each
    /// shape was built at most once, and exactly the shapes built have their
    /// slot filled.
    pub open spec fn wf(&self) -> bool {
        &&& self@.len() == SPECIAL_SHAPES
        &&& forall|s: SpecialShape| #[trigger]
            self@[slot_of(s)] is Some ==> self@[slot_of(s)] == Some(template(s))
        &&& self.generated().no_duplicates()
        &&& forall|s: SpecialShape| #[trigger]
            self.generated().contains(s) <==> self@[slot_of(s)] is Some
    }

    pub fn new() -> (r: SpecialBricksCache)
        ensures
            r.wf(),
            r@ == Seq::new(SPECIAL_SHAPES as nat, |i: int| None::<Node>),
            r.generated() == Seq::<SpecialShape>::empty(),
    {
        let mut slots: Vec<Option<Item>> = Vec::new();
        let mut i: usize = 0;
        while i < SPECIAL_SHAPES
            invariant
                i <= SPECIAL_SHAPES,
                slots@.len() == i,
                forall|j: int| 0 <= j < i ==> slots@[j] is None,
            decreases SPECIAL_SHAPES - i,
        {
            slots.push(None);
            i = i + 1;
        }
        let r = SpecialBricksCache { slots, generated: Ghost(Seq::empty()) };
        assert(r@ =~= Seq::new(SPECIAL_SHAPES as nat, |i: int| None::<Node>));
        r
    }

    /// A copy of the model of `shape`, built on the first request for it.
    /// A shape already held is copied and nothing changes.
    pub fn request(&mut self, shape: SpecialShape) -> (r: Item)
        requires
            old(self).wf(),
        ensures
            answered(*old(self), *final(self), shape, r@),
    {
        let i: usize = match shape {
            SpecialShape::Cone2x2x2 => 0,
            SpecialShape::Cone1x1 => 1,
            SpecialShape::CastleWall => 2,
            SpecialShape::SpawnPoint => 3,
            SpecialShape::Window1x4x3 => 4,
            SpecialShape::CrestCorner25 => 5,
            SpecialShape::CrestEnd25 => 6,
            SpecialShape::CrestCorner45 => 7,
            SpecialShape::CrestEnd45 => 8,
        };
        assert(self@[i as int] == match self.slots@[i as int] {
            Some(item) => Some(item@),
            None => None::<Node>,
        });
        match &self.slots[i] {
            Some(item) => {
                let r = item.duplicate();
                assert(self@ =~= requested(self@, shape));
                return r;
            },
            None => {},
        }
        let model = generate(shape);
        let copy = model.duplicate();
        let ghost before = self@;
        self.slots.set(i, Some(model));
        self.generated = Ghost(self.generated@.push(shape));
        assert(self@ =~= requested(before, shape));
        proof {
            assert forall|s: SpecialShape| #[trigger]
                self.generated().contains(s) <==> self@[slot_of(s)] is Some by {
                if s == shape {
                    assert(self.generated().last() == s);
                } else {
                    assert(slot_of(s) != slot_of(shape));
                    if old(self).generated().contains(s) {
                        let k = choose|k: int|
                            0 <= k < old(self).generated().len() && old(self).generated()[k]
                                == s;
                        assert(self.generated()[k] == s);
                    }
                    if self.generated().contains(s) {
                        let k = choose|k: int|
                            0 <= k < self.generated().len() && self.generated()[k] == s;
                        assert(k < old(self).generated().len());
                        assert(old(self).generated()[k] == s);
                    }
                }
            }
            assert(!old(self).generated().contains(shape));
            assert(self.generated().no_duplicates()) by {
                assert forall|a: int, b: int|
                    0 <= a < b < self.generated().len() implies self.generated()[a]
                    != self.generated()[b] by {
                    if b == self.generated().len() - 1 {
                        assert(old(self).generated()[a] == self.generated()[a]);
                    }
                }
            }
        }
        copy
    }

    /// A copy of the cone 2 studs across.
    pub fn cone2x2x2(&mut self) -> (r: Item)
        requires
            old(self).wf(),
        ensures
            answered(*old(self), *final(self), SpecialShape::Cone2x2x2, r@),
    {
        self.request(SpecialShape::Cone2x2x2)
    }

    /// A copy of the cone 1 stud across.
    pub fn cone1x1(&mut self) -> (r: Item)
        requires
            old(self).wf(),
        ensures
            answered(*old(self), *final(self), SpecialShape::Cone1x1, r@),
    {
        self.request(SpecialShape::Cone1x1)
    }

    /// A copy of the castle wall segment.
    pub fn castle_wall(&mut self) -> (r: Item)
        requires
            old(self).wf(),
        ensures
            answered(*old(self), *final(self), SpecialShape::CastleWall, r@),
    {
        self.request(SpecialShape::CastleWall)
    }

    /// A copy of the spawn point.
    pub fn spawn_point(&mut self) -> (r: Item)
        requires
            old(self).wf(),
        ensures
            answered(*old(self), *final(self), SpecialShape::SpawnPoint, r@),
    {
        self.request(SpecialShape::SpawnPoint)
    }

    /// A copy of the 1 by 4 stud window.
    pub fn window_1x4x3(&mut self) -> (r: Item)
        requires
            old(self).wf(),
        ensures
            answered(*old(self), *final(self), SpecialShape::Window1x4x3, r@),
    {
        self.request(SpecialShape::Window1x4x3)
    }

    /// A copy of the corner of a 25 degree roof crest.
    pub fn crest_corner_25(&mut self) -> (r: Item)
        requires
            old(self).wf(),
        ensures
            answered(*old(self), *final(self), SpecialShape::CrestCorner25, r@),
    {
        self.request(SpecialShape::CrestCorner25)
    }

    /// A copy of the end of a 25 degree roof crest.
    pub fn crest_end_25(&mut self) -> (r: Item)
        requires
            old(self).wf(),
        ensures
            answered(*old(self), *final(self), SpecialShape::CrestEnd25, r@),
    {
        self.request(SpecialShape::CrestEnd25)
    }

    /// A copy of the corner of a 45 degree roof crest.
    pub fn crest_corner_45(&mut self) -> (r: Item)
        requires
            old(self).wf(),
        ensures
            answered(*old(self), *final(self), SpecialShape::CrestCorner45, r@),
    {
        self.request(SpecialShape::CrestCorner45)
    }

    /// A copy of the end of a 45 degree roof crest.
    pub fn crest_end_45(&mut self) -> (r: Item)
        requires
            old(self).wf(),
        ensures
            answered(*old(self), *final(self), SpecialShape::CrestEnd45, r@),
    {
        self.request(SpecialShape::CrestEnd45)
    }
}

} // verus!
