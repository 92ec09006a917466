use slime_dodge::chunks::{
    beyond_despawn_range, delete_chunks, despawn_chunks, spawn_chunk, spawn_chunks, stream_chunks,
    ChunkController, DESPAWN_RANGE, PLACEHOLDER_TEXTURE_INDEX, TILES_PER_CHUNK,
};
use slime_dodge::geometry::{chunk_extent_of, chunk_index_of, chunk_origin_of, ChunkPos, WorldPos};
use slime_dodge::tiles::TileData;

fn configured(tile_width: u16, tile_height: u16) -> TileData {
    let mut data = TileData::new(tile_width, tile_height);
    data.full_dirt_tiles = Some(vec![(0, 0)]);
    data.full_grass_tiles = Some(vec![(1, 0)]);
    data.corner_outer_grass_to_dirt_tiles = Some(vec![]);
    data.corner_outer_dirt_to_grass_tiles = Some(vec![]);
    data.side_dirt_and_grass_tiles = Some(vec![(2, 3), (4, 5)]);
    data.diag_stripe_grass_in_dirt_tiles = Some(vec![]);
    data
}

fn window(vx: i32, vy: i32) -> Vec<ChunkPos> {
    let mut w = Vec::new();
    for y in vy - 2..vy + 2 {
        for x in vx - 2..vx + 2 {
            w.push(ChunkPos::new(x, y));
        }
    }
    w
}

fn sorted(mut v: Vec<ChunkPos>) -> Vec<(i32, i32)> {
    let mut r: Vec<(i32, i32)> = v.drain(..).map(|c| (c.x, c.y)).collect();
    r.sort();
    r
}

#[test]
fn chunk_index_floors_negative_positions() {
    assert_eq!(chunk_extent_of(16), 256);
    assert_eq!(chunk_index_of(0, 16), 0);
    assert_eq!(chunk_index_of(255, 16), 0);
    assert_eq!(chunk_index_of(256, 16), 1);
    assert_eq!(chunk_index_of(-1, 16), -1);
    assert_eq!(chunk_index_of(-256, 16), -1);
    assert_eq!(chunk_index_of(-257, 16), -2);
    assert_eq!(chunk_origin_of(-2, 16), -512);
    assert_eq!(chunk_origin_of(3, 10), 480);
}

#[test]
fn chunk_index_of_origin_gives_chunk_back() {
    for c in [-9000, -3, -1, 0, 1, 2, 77] {
        for tile in [1u16, 7, 16, 255] {
            let origin = chunk_origin_of(c, tile);
            assert_eq!(chunk_index_of(origin as i32, tile), c);
            assert_eq!(chunk_index_of(origin as i32 - 1, tile), c - 1);
        }
    }
}

#[test]
fn spawn_chunk_places_tiles_at_origin() {
    let data = configured(16, 8);
    let chunk = spawn_chunk(ChunkPos::new(-1, 2), &data, 4);
    assert_eq!(chunk.pos, ChunkPos::new(-1, 2));
    assert_eq!(chunk.origin_x, -256);
    assert_eq!(chunk.origin_y, 256);
    assert_eq!(chunk.tiles.len(), TILES_PER_CHUNK);
    assert!(chunk.tiles.iter().all(|t| *t == 4));
}

#[test]
fn first_pass_fills_exactly_the_window() {
    let data = configured(16, 16);
    let mut controller = ChunkController::new();
    let out = stream_chunks(&mut controller, WorldPos::new(0, 0), &data);
    assert!(!out.tiles_missing);
    assert_eq!(out.spawned.len(), 16);
    assert!(out.despawned.is_empty());
    assert_eq!(sorted(controller.positions()), sorted(window(0, 0)));
    let spawned: Vec<ChunkPos> = out.spawned.iter().map(|c| c.pos).collect();
    assert_eq!(sorted(spawned), sorted(window(0, 0)));
    assert!(out.spawned.iter().all(|c| c.tiles.iter().all(|t| *t == PLACEHOLDER_TEXTURE_INDEX)));
    assert_eq!(controller.generation, 1);
}

#[test]
fn window_follows_negative_viewpoint() {
    let data = configured(16, 16);
    let mut controller = ChunkController::new();
    stream_chunks(&mut controller, WorldPos::new(-300, 700), &data);
    assert_eq!(sorted(controller.positions()), sorted(window(-2, 2)));
}

#[test]
fn repeated_passes_are_idempotent() {
    let data = configured(8, 8);
    let mut controller = ChunkController::new();
    let viewpoint = WorldPos::new(10, 10);
    let first = stream_chunks(&mut controller, viewpoint, &data);
    assert_eq!(first.spawned.len(), 16);
    let after_first = sorted(controller.positions());
    let generation = controller.generation;
    for _ in 0..3 {
        let again = stream_chunks(&mut controller, viewpoint, &data);
        assert!(again.spawned.is_empty());
        assert!(again.despawned.is_empty());
        assert_eq!(sorted(controller.positions()), after_first);
        assert_eq!(controller.generation, generation);
    }
}

#[test]
fn corner_chunk_beyond_range_leaves_on_next_pass() {
    let data = configured(16, 16);
    let mut controller = ChunkController::new();
    let viewpoint = WorldPos::new(0, 0);
    stream_chunks(&mut controller, viewpoint, &data);
    assert!(controller.contains(ChunkPos::new(-2, -2)));
    assert!(beyond_despawn_range(ChunkPos::new(-2, -2), viewpoint, &data));
    let second = stream_chunks(&mut controller, viewpoint, &data);
    assert_eq!(sorted(second.despawned), vec![(-2, -2)]);
    assert!(!controller.contains(ChunkPos::new(-2, -2)));
    assert_eq!(controller.positions().len(), 15);
}

#[test]
fn despawn_threshold_keeps_hysteresis_band() {
    let data = configured(16, 16);
    let mut controller = ChunkController::new();
    spawn_chunks(&mut controller, WorldPos::new(1024, 0), &data).unwrap();
    assert!(controller.contains(ChunkPos::new(5, 0)));
    assert!(controller.contains(ChunkPos::new(2, 0)));
    let out = stream_chunks(&mut controller, WorldPos::new(0, 0), &data);
    // (5, 0) has its origin 1280 units away; (2, 0) only 512, outside the window.
    assert!(!controller.contains(ChunkPos::new(5, 0)));
    assert!(controller.contains(ChunkPos::new(2, 0)));
    assert!(out.despawned.contains(&ChunkPos::new(5, 0)));
    assert!(!out.despawned.contains(&ChunkPos::new(2, 0)));
}

#[test]
fn despawn_range_is_euclidean() {
    let data = configured(16, 16);
    assert_eq!(DESPAWN_RANGE, 720);
    // Origin (512, 512) is 724.08 away from (0, 0); (512, 0) is 512 away.
    assert!(beyond_despawn_range(ChunkPos::new(2, 2), WorldPos::new(0, 0), &data));
    assert!(!beyond_despawn_range(ChunkPos::new(2, 0), WorldPos::new(0, 0), &data));
    // Exactly at the range stays.
    assert!(!beyond_despawn_range(ChunkPos::new(0, 0), WorldPos::new(720, 0), &data));
    assert!(beyond_despawn_range(ChunkPos::new(0, 0), WorldPos::new(721, 0), &data));
}

#[test]
fn missing_tile_sets_skip_spawning() {
    let data = TileData::new(16, 16);
    assert!(data.get_tiles().is_none());
    let mut controller = ChunkController::new();
    assert!(spawn_chunks(&mut controller, WorldPos::new(0, 0), &data).is_none());
    assert!(controller.is_empty());
    let out = stream_chunks(&mut controller, WorldPos::new(0, 0), &data);
    assert!(out.tiles_missing);
    assert!(out.spawned.is_empty());
    assert!(controller.is_empty());
    assert_eq!(controller.generation, 0);
}

#[test]
fn partial_tile_sets_count_as_missing() {
    let mut data = configured(16, 16);
    data.side_dirt_and_grass_tiles = None;
    assert!(data.get_tiles().is_none());
    let data = configured(16, 16);
    let tiles = data.get_tiles().unwrap();
    assert_eq!(tiles.full_dirt, vec![(0, 0)]);
    assert_eq!(tiles.side_dirt_and_grass, vec![(2, 3), (4, 5)]);
    assert!(tiles.diag_stripe_grass_in_dirt.is_empty());
}

#[test]
fn despawn_chunks_removes_far_chunks_only() {
    let data = configured(16, 16);
    let mut controller = ChunkController::new();
    spawn_chunks(&mut controller, WorldPos::new(0, 0), &data).unwrap();
    let generation = controller.generation;
    let gone = despawn_chunks(&mut controller, WorldPos::new(0, 0), &data);
    assert_eq!(sorted(gone), vec![(-2, -2)]);
    assert_eq!(controller.positions().len(), 15);
    assert_eq!(controller.generation, generation + 1);
    let none = despawn_chunks(&mut controller, WorldPos::new(0, 0), &data);
    assert!(none.is_empty());
    assert_eq!(controller.generation, generation + 1);
}

#[test]
fn delete_chunks_clears_controller() {
    let data = configured(16, 16);
    let mut controller = ChunkController::new();
    spawn_chunks(&mut controller, WorldPos::new(0, 0), &data).unwrap();
    delete_chunks(&mut controller);
    assert!(controller.is_empty());
    assert_eq!(controller.generation, 2);
    delete_chunks(&mut controller);
    assert_eq!(controller.generation, 2);
}
