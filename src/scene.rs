use vstd::prelude::*;
use crate::geometry::{CFrame, Vector3};

verus! {

broadcast use vstd::std_specs::vec::group_vec_axioms;

/// A colour with four 8-bit channels.
#[derive(Clone, Copy, Debug, PartialEq, Eq, Structural)]
pub struct Color3 {
    pub r: u8,
    pub g: u8,
    pub b: u8,
    pub a: u8,
}

impl Color3 {
    /// The colour packed as one integer: alpha, red, green, blue from the
    /// most significant byte down.
    pub fn argb(&self) -> (v: u32)
        ensures
            v == self.a * 0x100_0000 + self.r * 0x1_0000 + self.g * 0x100 + self.b,
    {
        (self.a as u32) * 0x100_0000 + (self.r as u32) * 0x1_0000 + (self.g as u32) * 0x100
            + (self.b as u32)
    }
}

/// Whether a part carries custom physical properties.
#[derive(Clone, Copy, Debug, PartialEq, Eq, Structural)]
pub struct PhysicalProperties(pub bool);

/// An exact non-negative fraction `num / den`.
#[derive(Clone, Copy, Debug, PartialEq, Eq, Structural)]
pub struct Fraction {
    pub num: u32,
    pub den: u32,
}

/// The kind of a scene node.
#[derive(Clone, Copy, Debug, PartialEq, Eq, Structural)]
pub enum PartClass {
    /// A grouping node.
    Model,
    /// A box.
    Part,
    /// A wedge: a box cut along one diagonal.
    WedgePart,
    /// A wedge sloping down on two sides.
    CornerWedgePart,
    /// A marker that renders its parent box as a cylinder.
    CylinderMesh,
    /// A box where players appear.
    SpawnLocation,
}

impl PartClass {
    /// The class name of the target scene format.
    pub fn name(&self) -> (r: &'static str)
        ensures
            r@ == match self {
                PartClass::Model => "Model"@,
                PartClass::Part => "Part"@,
                PartClass::WedgePart => "WedgePart"@,
                PartClass::CornerWedgePart => "CornerWedgePart"@,
                PartClass::CylinderMesh => "CylinderMesh"@,
                PartClass::SpawnLocation => "SpawnLocation"@,
            },
    {
        match self {
            PartClass::Model => "Model",
            PartClass::Part => "Part",
            PartClass::WedgePart => "WedgePart",
            PartClass::CornerWedgePart => "CornerWedgePart",
            PartClass::CylinderMesh => "CylinderMesh",
            PartClass::SpawnLocation => "SpawnLocation",
        }
    }
}

/// One wedge of the ring that approximates a cone's side. Its size and pose
/// involve sines and cosines of the facet's angle, so the node records which
/// facet it is, exactly, and leaves the trigonometry to whoever renders it.
///
/// The cone has `resolution` facets and a base diameter of `cone_size` studs;
/// this wedge is sampled at facet `step` (the leading wedge of the pair) or
/// one step later (the trailing wedge). `origin` is the cone's anchor.
#[derive(Clone, Copy, Debug, PartialEq, Eq, Structural)]
pub struct ConeFacet {
    pub cone_size: u32,
    pub step: u32,
    pub resolution: u32,
    pub trailing: bool,
    pub origin: Vector3,
}

impl ConeFacet {
    /// The step at which the cone's side is sampled to orient this wedge.
    pub open spec fn sample_step(self) -> int {
        if self.trailing {
            (self.step + 1) % (self.resolution as int)
        } else {
            self.step as int
        }
    }
}

/// A scene node as a value: what `Item` holds, with its children as a
/// sequence of values.
pub struct Node {
    pub class: PartClass,
    pub size: Option<Vector3>,
    pub cframe: Option<CFrame>,
    pub facet: Option<ConeFacet>,
    pub color: Option<Color3>,
    pub transparency: Option<Fraction>,
    pub can_collide: Option<bool>,
    pub children: Seq<Node>,
}

/// A scene node: a primitive or a group, the properties set on it, and the
/// nodes it owns. Properties left at `None` take the scene format's
/// defaults.
#[derive(Debug, PartialEq, Eq)]
pub struct Item {
    pub class: PartClass,
    pub size: Option<Vector3>,
    pub cframe: Option<CFrame>,
    pub facet: Option<ConeFacet>,
    pub color: Option<Color3>,
    pub transparency: Option<Fraction>,
    pub can_collide: Option<bool>,
    pub children: Vec<Item>,
}

/// A node of this class with no properties set and no children.
pub open spec fn bare(class: PartClass) -> Node {
    Node {
        class,
        size: None,
        cframe: None,
        facet: None,
        color: None,
        transparency: None,
        can_collide: None,
        children: Seq::empty(),
    }
}

/// A node of this class with a size and a pose.
pub open spec fn solid(class: PartClass, size: Vector3, cframe: CFrame) -> Node {
    Node { size: Some(size), cframe: Some(cframe), ..bare(class) }
}

/// A box drawn as a cylinder.
pub open spec fn rounded_node(class: PartClass, size: Vector3, cframe: CFrame) -> Node {
    Node { children: seq![bare(PartClass::CylinderMesh)], ..solid(class, size, cframe) }
}

impl Item {
    /// The tree as a value.
    pub open spec fn node(&self) -> Node
        decreases self,
    {
        Node {
            class: self.class,
            size: self.size,
            cframe: self.cframe,
            facet: self.facet,
            color: self.color,
            transparency: self.transparency,
            can_collide: self.can_collide,
            children: Seq::new(
                self.children@.len(),
                |i: int|
                    if 0 <= i < self.children@.len() {
                        self.children@[i].node()
                    } else {
                        bare(PartClass::Model)
                    },
            ),
        }
    }
}

impl View for Item {
    type V = Node;

    open spec fn view(&self) -> Node {
        self.node()
    }
}

impl Item {
    /// A node of this class with no properties set and no children.
    pub fn default(class: PartClass) -> (r: Item)
        ensures
            r@ == bare(class),
            r.children@.len() == 0,
    {
        let r = Item {
            class,
            size: None,
            cframe: None,
            facet: None,
            color: None,
            transparency: None,
            can_collide: None,
            children: Vec::new(),
        };
        assert(r@.children =~= Seq::empty());
        r
    }

    /// A node of this class with a size and a pose and no children.
    pub fn solid(class: PartClass, size: Vector3, cframe: CFrame) -> (r: Item)
        ensures
            r@ == solid(class, size, cframe),
            r.children@.len() == 0,
    {
        let mut r = Item::default(class);
        r.size = Some(size);
        r.cframe = Some(cframe);
        r
    }

    /// A box of this class, size and pose, drawn as a cylinder.
    pub fn rounded(class: PartClass, size: Vector3, cframe: CFrame) -> (r: Item)
        ensures
            r@ == rounded_node(class, size, cframe),
    {
        let mut r = Item::solid(class, size, cframe);
        r.children.push(Item::default(PartClass::CylinderMesh));
        assert(r@.children =~= seq![bare(PartClass::CylinderMesh)]);
        r
    }

    /// A copy of the whole tree.
    pub fn duplicate(&self) -> (r: Item)
        ensures
            r@ == self@,
        decreases self,
    {
        let mut children: Vec<Item> = Vec::new();
        let n = self.children.len();
        let mut i: usize = 0;
        while i < n
            invariant
                n == self.children@.len(),
                i <= n,
                children@.len() == i,
                forall|j: int| 0 <= j < i ==> children@[j]@ == self.children@[j]@,
            decreases n - i,
        {
            proof {
                assert(decreases_to!(self => self.children));
                assert(decreases_to!(self.children => self.children@[i as int]));
            }
            let c = self.children[i].duplicate();
            children.push(c);
            i = i + 1;
        }
        let r = Item {
            class: self.class,
            size: self.size,
            cframe: self.cframe,
            facet: self.facet,
            color: self.color,
            transparency: self.transparency,
            can_collide: self.can_collide,
            children,
        };
        assert(r@.children =~= self@.children);
        r
    }
}

} // verus!
