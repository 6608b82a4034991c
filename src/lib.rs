//! Brick geometry compiler: turns voxel-grid brick records into trees of
//! typed scene primitives with exact, fixed-point sizes and poses.
//!
//! Every length is an `i64` count of ticks; a tick is 1/600 of a stud at the
//! conversion's scale, so every dimension the compiler produces is exact.
//! Grid positions are given in 1/600 of a grid unit; a grid unit is two
//! studs.
mod assemble;
mod classify;
mod geometry;
mod scene;
mod special;

pub use assemble::{
    items_from_brick, paint_for, place, ConversionError, Paint, NEAR_LIMIT,
};
pub use classify::{
    get_brick_type, parse_ramp_angle, BrickRecord, BrickType, NameError, RampAngle,
    RegularBrickMesh, MAX_DIMENSION,
};
pub use geometry::{
    cframe_from_pos_and_rot, forward_from_angle, right_from_angle, CFrame, Rotation, Vector3,
    BRICK_HEIGHT, COORD_LIMIT, GRID_LIMIT, PLATE_HEIGHT, STUD, WEDGE_LIP_SIZE,
};
pub use scene::{Color3, ConeFacet, Fraction, Item, Node, PartClass, PhysicalProperties};
pub use special::{
    generate, generate_castle_wall, generate_cone, generate_crest, generate_crest_corner,
    generate_crest_end, generate_spawn_point, generate_window, SpecialBricksCache, SpecialShape,
    CONE_RESOLUTION, CONE_WALL_WIDTH, CREST_HEIGHT_25, CREST_HEIGHT_45, CREST_LIP,
    MAX_CONE_SIZE, MAX_CREST_HEIGHT, MAX_RESOLUTION,
};
