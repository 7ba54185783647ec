use vstd::prelude::*;
use crate::store::{sector_added, sector_grids, spawn_sector_entity};

verus! {

/// Side of a sector's square grid of chunk slots.
pub const SECTOR_SIZE: usize = 64;
/// Number of chunk slots in a sector.
pub const SECTOR_SLOTS: usize = 4096;

/// Marker component of sector entities.
#[derive(Clone, Copy, Debug, PartialEq, Eq, Structural)]
pub struct Sector;

/// Integer address of a sector.
#[derive(Clone, Copy, Debug, PartialEq, Eq, Structural)]
pub struct SectorCoordinate {
    pub x: i32,
    pub y: i32,
}

/// A sector's scalar height, held as the bits of a 32-bit IEEE-754 float.
#[derive(Clone, Copy, Debug, PartialEq, Eq, Structural)]
pub struct SectorHeight {
    pub bits: u32,
}

/// A sector's grid of chunk slots, row by row. A slot holds the handle of a
/// chunk entity, or nothing.
#[derive(Clone, Debug)]
pub struct SectorData {
    pub chunks: Vec<Option<u64>>,
}

/// A grid of `SECTOR_SLOTS` empty chunk slots.
pub open spec fn empty_grid() -> Seq<Option<u64>> {
    Seq::new(SECTOR_SLOTS as nat, |i: int| None::<u64>)
}

impl SectorData {
    pub open spec fn wf(self) -> bool {
        self.chunks@.len() == SECTOR_SLOTS
    }

    /// Every slot is empty.
    pub open spec fn is_empty_grid(self) -> bool {
        forall|i: int| 0 <= i < self.chunks@.len() ==> #[trigger] self.chunks@[i] is None
    }

    /// A grid of empty slots.
    pub fn empty() -> (r: SectorData)
        ensures
            r.wf(),
            r.is_empty_grid(),
    {
        let mut chunks: Vec<Option<u64>> = Vec::new();
        let mut i: usize = 0;
        while i < SECTOR_SLOTS
            invariant
                0 <= i <= SECTOR_SLOTS,
                chunks@.len() == i,
                forall|k: int| 0 <= k < i ==> #[trigger] chunks@[k] is None,
            decreases SECTOR_SLOTS - i,
        {
            chunks.push(None);
            i = i + 1;
        }
        SectorData { chunks }
    }

    /// The slot at column `x`, row `y` of the grid.
    pub fn slot(&self, x: usize, y: usize) -> (r: Option<u64>)
        requires
            self.wf(),
            x < SECTOR_SIZE,
            y < SECTOR_SIZE,
        ensures
            r == self.chunks@[(y * SECTOR_SIZE + x) as int],
    {
        self.chunks[y * SECTOR_SIZE + x]
    }
}

impl Sector {
    /// Spawns a sector at `(x, y)` with every chunk slot empty; no chunk
    /// entity is created, and every other entity is left as it was. Returns
    /// a handle that no live entity had.
    pub fn spawn_at(world: &mut hecs::World, x: i32, y: i32) -> (r: u64)
        ensures
            sector_added(*old(world), *final(world), r, (x, y), empty_grid()),
    {
        let data = SectorData::empty();
        proof {
            assert(data.chunks@ =~= empty_grid());
        }
        spawn_sector_entity(world, SectorCoordinate { x, y }, data)
    }
}

} // verus!
