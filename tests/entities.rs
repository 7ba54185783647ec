use hecs::{Entity, World};
use terrain_render::chunk::{Chunk, ChunkCoordinate, ChunkData, ChunkHeight, CHUNK_SAMPLES};
use terrain_render::sector::{Sector, SectorCoordinate, SectorData, SECTOR_SLOTS};

fn entity(handle: u64) -> Entity {
    Entity::from_bits(handle).unwrap()
}

#[test]
fn new_sector_has_only_empty_chunk_slots() {
    let mut world = World::new();
    let s = Sector::spawn_at(&mut world, 3, -4);
    assert_eq!(world.len(), 1);
    let data = world.get::<&SectorData>(entity(s)).unwrap();
    assert_eq!(data.chunks.len(), SECTOR_SLOTS);
    assert!(data.chunks.iter().all(|c| c.is_none()));
    assert_eq!(data.slot(63, 63), None);
    let coord = world.get::<&SectorCoordinate>(entity(s)).unwrap();
    assert_eq!((coord.x, coord.y), (3, -4));
}

#[test]
fn sector_and_chunk_at_origin_stay_unlinked() {
    let mut world = World::new();
    let s = Sector::spawn_at(&mut world, 0, 0);
    let c = Chunk::spawn_at(&mut world, 0, 0, ChunkHeight { bits: 5.0f32.to_bits() });
    assert_ne!(s, c);
    assert_eq!(world.len(), 2);
    let h = world.get::<&ChunkHeight>(entity(c)).unwrap();
    assert_eq!(f32::from_bits(h.bits), 5.0);
    assert!(world.get::<&Chunk>(entity(c)).is_ok());
    assert!(world.get::<&Chunk>(entity(s)).is_err());
    assert!(world.get::<&ChunkData>(entity(c)).is_err());
    let cc = world.get::<&ChunkCoordinate>(entity(c)).unwrap();
    assert_eq!((cc.x, cc.y), (0, 0));
    let sc = world.get::<&SectorCoordinate>(entity(s)).unwrap();
    assert_eq!((sc.x, sc.y), (0, 0));
    let data = world.get::<&SectorData>(entity(s)).unwrap();
    assert!(data.chunks.iter().all(|c| c.is_none()));
}

#[test]
fn duplicate_coordinates_make_distinct_entities() {
    let mut world = World::new();
    let a = Sector::spawn_at(&mut world, 1, 1);
    let b = Sector::spawn_at(&mut world, 1, 1);
    assert_ne!(a, b);
    assert_eq!(world.len(), 2);
    let c = Chunk::spawn_at(&mut world, 2, 2, ChunkHeight { bits: 1.0f32.to_bits() });
    let d = Chunk::spawn_at(&mut world, 2, 2, ChunkHeight { bits: 3.0f32.to_bits() });
    assert_ne!(c, d);
    let hc = world.get::<&ChunkHeight>(entity(c)).unwrap();
    assert_eq!(f32::from_bits(hc.bits), 1.0);
    let cc = world.get::<&ChunkCoordinate>(entity(c)).unwrap();
    assert_eq!((cc.x, cc.y), (2, 2));
}

#[test]
fn chunk_with_height_field_keeps_field_and_height() {
    let mut world = World::new();
    let data = ChunkData { heights: vec![2.0f32.to_bits(); CHUNK_SAMPLES] };
    let c = Chunk::spawn_with(&mut world, -1, 2, data, ChunkHeight { bits: 2.0f32.to_bits() });
    let stored = world.get::<&ChunkData>(entity(c)).unwrap();
    assert_eq!(stored.heights.len(), CHUNK_SAMPLES);
    let coord = world.get::<&ChunkCoordinate>(entity(c)).unwrap();
    assert_eq!((coord.x, coord.y), (-1, 2));
    let h = world.get::<&ChunkHeight>(entity(c)).unwrap();
    assert_eq!(f32::from_bits(h.bits), 2.0);
}
