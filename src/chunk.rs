use vstd::prelude::*;
use crate::store::{chunk_added, spawn_chunk_entity, spawn_chunk_entity_with};

verus! {

/// Side of a chunk's square height field.
pub const CHUNK_SIZE: usize = 16;
/// Number of height samples in a chunk.
pub const CHUNK_SAMPLES: usize = 256;

/// Marker component of chunk entities.
#[derive(Clone, Copy, Debug, PartialEq, Eq, Structural)]
pub struct Chunk;

/// Integer address of a chunk.
#[derive(Clone, Copy, Debug, PartialEq, Eq, Structural)]
pub struct ChunkCoordinate {
    pub y: i32,
    pub x: i32,
}

/// A chunk's scalar height, held as the bits of a 32-bit IEEE-754 float.
#[derive(Clone, Copy, Debug, PartialEq, Eq, Structural)]
pub struct ChunkHeight {
    pub bits: u32,
}

/// A chunk's height field, row by row, each sample held as the bits of a
/// 32-bit IEEE-754 float.
#[derive(Clone, Debug)]
pub struct ChunkData {
    pub heights: Vec<u32>,
}

impl ChunkData {
    pub open spec fn wf(self) -> bool {
        self.heights@.len() == CHUNK_SAMPLES
    }
}

impl Chunk {
    /// Spawns a chunk at `(x, y)` with height `h` and no height field; every
    /// other entity is left as it was. Returns a handle that no live entity had.
    pub fn spawn_at(world: &mut hecs::World, x: i32, y: i32, h: ChunkHeight) -> (r: u64)
        ensures
            chunk_added(*old(world), *final(world), r, (x, y), h.bits, None),
    {
        spawn_chunk_entity(world, ChunkCoordinate { x, y }, h)
    }

    /// Spawns a chunk at `(x, y)` with height field `data` and height `mean`;
    /// every other entity is left as it was. Returns a handle that no live
    /// entity had. The chunk's height is meant to be the mean of the field;
    /// that mean is float arithmetic, so it is the caller's to compute and
    /// is stored as given.
    pub fn spawn_with(
        world: &mut hecs::World,
        x: i32,
        y: i32,
        data: ChunkData,
        mean: ChunkHeight,
    ) -> (r: u64)
        requires
            data.wf(),
        ensures
            chunk_added(*old(world), *final(world), r, (x, y), mean.bits, Some(data.heights@)),
    {
        spawn_chunk_entity_with(world, ChunkCoordinate { x, y }, mean, data)
    }
}

} // verus!
