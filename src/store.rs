use vstd::prelude::*;
use crate::chunk::{Chunk, ChunkCoordinate, ChunkData, ChunkHeight};
use crate::sector::{Sector, SectorCoordinate, SectorData};

verus! {

#[verifier::external_type_specification]
#[verifier::external_body]
pub struct ExWorld(hecs::World);

/// Handles (`Entity::to_bits`) of the entities live in a world.
pub uninterp spec fn live_entities(w: hecs::World) -> Set<u64>;

/// Handles of the live entities that carry the `Sector` marker.
pub uninterp spec fn sector_entities(w: hecs::World) -> Set<u64>;

/// `(x, y)` of the live entities that carry a `SectorCoordinate`, by handle.
pub uninterp spec fn sector_coords(w: hecs::World) -> Map<u64, (i32, i32)>;

/// Chunk-slot grids of the live entities that carry a `SectorData`, by handle.
pub uninterp spec fn sector_grids(w: hecs::World) -> Map<u64, Seq<Option<u64>>>;

/// Handles of the live entities that carry the `Chunk` marker.
pub uninterp spec fn chunk_entities(w: hecs::World) -> Set<u64>;

/// `(x, y)` of the live entities that carry a `ChunkCoordinate`, by handle.
pub uninterp spec fn chunk_coords(w: hecs::World) -> Map<u64, (i32, i32)>;

/// Height bits of the live entities that carry a `ChunkHeight`, by handle.
pub uninterp spec fn chunk_heights(w: hecs::World) -> Map<u64, u32>;

/// Height fields of the live entities that carry a `ChunkData`, by handle.
pub uninterp spec fn chunk_fields(w: hecs::World) -> Map<u64, Seq<u32>>;

/// `w1` is `w0` with one more entity, `r`: a sector at `coord` with chunk
/// slots `grid`. Every other entity is as it was.
pub open spec fn sector_added(
    w0: hecs::World,
    w1: hecs::World,
    r: u64,
    coord: (i32, i32),
    grid: Seq<Option<u64>>,
) -> bool {
    &&& !live_entities(w0).contains(r)
    &&& live_entities(w1) == live_entities(w0).insert(r)
    &&& sector_entities(w1) == sector_entities(w0).insert(r)
    &&& sector_coords(w1) == sector_coords(w0).insert(r, coord)
    &&& sector_grids(w1) == sector_grids(w0).insert(r, grid)
    &&& chunk_entities(w1) == chunk_entities(w0)
    &&& chunk_coords(w1) == chunk_coords(w0)
    &&& chunk_heights(w1) == chunk_heights(w0)
    &&& chunk_fields(w1) == chunk_fields(w0)
}

/// `w1` is `w0` with one more entity, `r`: a chunk at `coord` of height
/// `height`, with height field `field` if there is one. Every other entity
/// is as it was.
pub open spec fn chunk_added(
    w0: hecs::World,
    w1: hecs::World,
    r: u64,
    coord: (i32, i32),
    height: u32,
    field: Option<Seq<u32>>,
) -> bool {
    &&& !live_entities(w0).contains(r)
    &&& live_entities(w1) == live_entities(w0).insert(r)
    &&& chunk_entities(w1) == chunk_entities(w0).insert(r)
    &&& chunk_coords(w1) == chunk_coords(w0).insert(r, coord)
    &&& chunk_heights(w1) == chunk_heights(w0).insert(r, height)
    &&& chunk_fields(w1) == match field {
        Some(f) => chunk_fields(w0).insert(r, f),
        None => chunk_fields(w0),
    }
    &&& sector_entities(w1) == sector_entities(w0)
    &&& sector_coords(w1) == sector_coords(w0)
    &&& sector_grids(w1) == sector_grids(w0)
}

/// Relies on hecs::World::new: a new world holds no entity.
pub assume_specification[ hecs::World::new ]() -> (r: hecs::World)
    ensures
        live_entities(r) == Set::<u64>::empty(),
        sector_entities(r) == Set::<u64>::empty(),
        sector_coords(r).dom() == Set::<u64>::empty(),
        sector_grids(r).dom() == Set::<u64>::empty(),
        chunk_entities(r) == Set::<u64>::empty(),
        chunk_coords(r).dom() == Set::<u64>::empty(),
        chunk_heights(r).dom() == Set::<u64>::empty(),
        chunk_fields(r).dom() == Set::<u64>::empty(),
;

/// Relies on hecs::World::spawn, which makes reserved entities (already
/// live) empty entities, then allocates one entity that was not live and
/// gives it exactly the components handed over, leaving every other entity
/// as it was; and on Entity::to_bits for its handle.
#[verifier::external_body]
pub(crate) fn spawn_sector_entity(
    world: &mut hecs::World,
    coord: SectorCoordinate,
    data: SectorData,
) -> (r: u64)
    ensures
        !live_entities(*old(world)).contains(r),
        live_entities(*final(world)) == live_entities(*old(world)).insert(r),
        sector_entities(*final(world)) == sector_entities(*old(world)).insert(r),
        sector_coords(*final(world)) == sector_coords(*old(world)).insert(r, (coord.x, coord.y)),
        sector_grids(*final(world)) == sector_grids(*old(world)).insert(r, data.chunks@),
        chunk_entities(*final(world)) == chunk_entities(*old(world)),
        chunk_coords(*final(world)) == chunk_coords(*old(world)),
        chunk_heights(*final(world)) == chunk_heights(*old(world)),
        chunk_fields(*final(world)) == chunk_fields(*old(world)),
{
    world.spawn((Sector, coord, data)).to_bits().get()
}

/// Relies on hecs::World::spawn and Entity::to_bits, as for sectors.
#[verifier::external_body]
pub(crate) fn spawn_chunk_entity(world: &mut hecs::World, coord: ChunkCoordinate, h: ChunkHeight) -> (r: u64)
    ensures
        !live_entities(*old(world)).contains(r),
        live_entities(*final(world)) == live_entities(*old(world)).insert(r),
        chunk_entities(*final(world)) == chunk_entities(*old(world)).insert(r),
        chunk_coords(*final(world)) == chunk_coords(*old(world)).insert(r, (coord.x, coord.y)),
        chunk_heights(*final(world)) == chunk_heights(*old(world)).insert(r, h.bits),
        chunk_fields(*final(world)) == chunk_fields(*old(world)),
        sector_entities(*final(world)) == sector_entities(*old(world)),
        sector_coords(*final(world)) == sector_coords(*old(world)),
        sector_grids(*final(world)) == sector_grids(*old(world)),
{
    world.spawn((Chunk, coord, h)).to_bits().get()
}

/// Relies on hecs::World::spawn and Entity::to_bits, as for sectors.
#[verifier::external_body]
pub(crate) fn spawn_chunk_entity_with(
    world: &mut hecs::World,
    coord: ChunkCoordinate,
    h: ChunkHeight,
    data: ChunkData,
) -> (r: u64)
    ensures
        !live_entities(*old(world)).contains(r),
        live_entities(*final(world)) == live_entities(*old(world)).insert(r),
        chunk_entities(*final(world)) == chunk_entities(*old(world)).insert(r),
        chunk_coords(*final(world)) == chunk_coords(*old(world)).insert(r, (coord.x, coord.y)),
        chunk_heights(*final(world)) == chunk_heights(*old(world)).insert(r, h.bits),
        chunk_fields(*final(world)) == chunk_fields(*old(world)).insert(r, data.heights@),
        sector_entities(*final(world)) == sector_entities(*old(world)),
        sector_coords(*final(world)) == sector_coords(*old(world)),
        sector_grids(*final(world)) == sector_grids(*old(world)),
{
    world.spawn((Chunk, coord, h, data)).to_bits().get()
}

/// Spawning a sector and then a chunk into an empty world leaves exactly
/// those two entities: the sector keeps its coordinate and its slots, the
/// chunk is the only chunk entity, and neither is linked to the other.
pub proof fn lemma_sector_then_chunk(
    w0: hecs::World,
    w1: hecs::World,
    w2: hecs::World,
    s: u64,
    c: u64,
    sector_at: (i32, i32),
    grid: Seq<Option<u64>>,
    chunk_at: (i32, i32),
    height: u32,
)
    requires
        live_entities(w0) == Set::<u64>::empty(),
        chunk_entities(w0) == Set::<u64>::empty(),
        sector_added(w0, w1, s, sector_at, grid),
        chunk_added(w1, w2, c, chunk_at, height, None),
    ensures
        s != c,
        live_entities(w2) == set![s, c],
        live_entities(w2).len() == 2,
        chunk_entities(w2) == set![c],
        sector_coords(w2)[s] == sector_at,
        sector_grids(w2)[s] == grid,
        chunk_coords(w2)[c] == chunk_at,
        chunk_heights(w2)[c] == height,
{
    assert(live_entities(w2) =~= set![s, c]);
    assert(chunk_entities(w2) =~= set![c]);
}

} // verus!
