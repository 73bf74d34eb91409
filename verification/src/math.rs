//! Block positions, directions and float-valued vectors held as bit patterns.
use vstd::prelude::*;

verus! {

/// The position of a block.
#[derive(Clone, Copy, PartialEq, Eq, Structural, Debug)]
pub struct BlockPos {
    pub x: i32,
    pub y: i32,
    pub z: i32,
}

/// A point in the world, each coordinate held as the bits of an `f64`.
#[derive(Clone, Copy, PartialEq, Eq, Structural, Debug)]
pub struct Vec3Bits {
    pub x: u64,
    pub y: u64,
    pub z: u64,
}

/// The six faces of a block.
#[derive(Clone, Copy, PartialEq, Eq, Structural, Debug)]
pub enum BlockDirection {
    Down,
    Up,
    North,
    South,
    West,
    East,
}

/// The four horizontal directions a block can face.
#[derive(Clone, Copy, PartialEq, Eq, Structural, Debug)]
pub enum HorizontalFacing {
    North,
    South,
    West,
    East,
}

impl BlockPos {
    pub fn new(x: i32, y: i32, z: i32) -> (r: BlockPos)
        ensures
            r == (BlockPos { x, y, z }),
    {
        BlockPos { x, y, z }
    }

    /// The position of the chunk column that holds the block: `x` and `z` divided by 16,
    /// rounded down.
    pub fn chunk_position(self) -> (r: (i32, i32))
        ensures
            r.0 as int == (self.x as int) / 16,
            r.1 as int == (self.z as int) / 16,
    {
        (floor_div_16(self.x), floor_div_16(self.z))
    }

    /// The neighbouring position one step in `direction`.
    pub open spec fn spec_offset(self, direction: BlockDirection) -> BlockPos {
        let (dx, dy, dz) = direction.spec_to_offset();
        BlockPos { x: (self.x + dx) as i32, y: (self.y + dy) as i32, z: (self.z + dz) as i32 }
    }

    /// The step in `direction` stays within the range of the coordinates (only the axis that
    /// the direction moves along can leave it).
    pub open spec fn offset_in_range(self, direction: BlockDirection) -> bool {
        let (dx, dy, dz) = direction.spec_to_offset();
        &&& i32::MIN <= self.x + dx <= i32::MAX
        &&& i32::MIN <= self.y + dy <= i32::MAX
        &&& i32::MIN <= self.z + dz <= i32::MAX
    }

    /// The neighbouring position one step in `direction`.
    pub fn offset(self, direction: BlockDirection) -> (r: BlockPos)
        requires
            self.offset_in_range(direction),
        ensures
            r == self.spec_offset(direction),
    {
        let (dx, dy, dz) = direction.to_offset();
        BlockPos { x: self.x + dx, y: self.y + dy, z: self.z + dz }
    }
}

/// `v` divided by 16, rounded towards negative infinity.
fn floor_div_16(v: i32) -> (r: i32)
    ensures
        r as int == (v as int) / 16,
{
    let shifted: i64 = v as i64 + 0x8000_0000i64;
    let q: i64 = shifted / 16 - 0x800_0000i64;
    assert(q as int == (v as int) / 16) by (nonlinear_arith)
        requires
            shifted == v + 0x8000_0000,
            shifted >= 0,
            q == shifted / 16 - 0x800_0000,
    {
    }
    q as i32
}

impl BlockDirection {
    pub open spec fn spec_to_offset(self) -> (i32, i32, i32) {
        match self {
            BlockDirection::Down => (0i32, -1i32, 0i32),
            BlockDirection::Up => (0i32, 1i32, 0i32),
            BlockDirection::North => (0i32, 0i32, -1i32),
            BlockDirection::South => (0i32, 0i32, 1i32),
            BlockDirection::West => (-1i32, 0i32, 0i32),
            BlockDirection::East => (1i32, 0i32, 0i32),
        }
    }

    /// The unit step of the direction.
    pub fn to_offset(self) -> (r: (i32, i32, i32))
        ensures
            r == self.spec_to_offset(),
    {
        match self {
            BlockDirection::Down => (0, -1, 0),
            BlockDirection::Up => (0, 1, 0),
            BlockDirection::North => (0, 0, -1),
            BlockDirection::South => (0, 0, 1),
            BlockDirection::West => (-1, 0, 0),
            BlockDirection::East => (1, 0, 0),
        }
    }

    pub open spec fn spec_opposite(self) -> BlockDirection {
        match self {
            BlockDirection::Down => BlockDirection::Up,
            BlockDirection::Up => BlockDirection::Down,
            BlockDirection::North => BlockDirection::South,
            BlockDirection::South => BlockDirection::North,
            BlockDirection::West => BlockDirection::East,
            BlockDirection::East => BlockDirection::West,
        }
    }

    /// The direction pointing the other way.
    pub fn opposite(self) -> (r: BlockDirection)
        ensures
            r == self.spec_opposite(),
    {
        match self {
            BlockDirection::Down => BlockDirection::Up,
            BlockDirection::Up => BlockDirection::Down,
            BlockDirection::North => BlockDirection::South,
            BlockDirection::South => BlockDirection::North,
            BlockDirection::West => BlockDirection::East,
            BlockDirection::East => BlockDirection::West,
        }
    }

    /// All six directions.
    pub fn all() -> (r: Vec<BlockDirection>)
        ensures
            r@ == seq![
                BlockDirection::Down,
                BlockDirection::Up,
                BlockDirection::North,
                BlockDirection::South,
                BlockDirection::West,
                BlockDirection::East,
            ],
    {
        vec![
            BlockDirection::Down,
            BlockDirection::Up,
            BlockDirection::North,
            BlockDirection::South,
            BlockDirection::West,
            BlockDirection::East,
        ]
    }
}

/// Turning around twice faces the same way again.
pub proof fn lemma_opposite_involutive(d: BlockDirection)
    ensures
        d.spec_opposite().spec_opposite() == d,
{
}

/// The opposite direction points the other way: its step is the negated step, so it is never
/// the direction itself.
pub proof fn lemma_opposite_negates(d: BlockDirection)
    ensures
        d.spec_opposite().spec_to_offset().0 == -d.spec_to_offset().0,
        d.spec_opposite().spec_to_offset().1 == -d.spec_to_offset().1,
        d.spec_opposite().spec_to_offset().2 == -d.spec_to_offset().2,
        d.spec_opposite() != d,
{
}

/// Each direction is a unit step along one axis: down and up move y, north and south z, west
/// and east x, the first of each pair towards negative coordinates.
pub proof fn lemma_direction_steps(d: BlockDirection)
    ensures
        d == BlockDirection::Down <==> d.spec_to_offset() == (0i32, -1i32, 0i32),
        d == BlockDirection::Up <==> d.spec_to_offset() == (0i32, 1i32, 0i32),
        d == BlockDirection::North <==> d.spec_to_offset() == (0i32, 0i32, -1i32),
        d == BlockDirection::South <==> d.spec_to_offset() == (0i32, 0i32, 1i32),
        d == BlockDirection::West <==> d.spec_to_offset() == (-1i32, 0i32, 0i32),
        d == BlockDirection::East <==> d.spec_to_offset() == (1i32, 0i32, 0i32),
{
}

} // verus!
