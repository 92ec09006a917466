use slime_dodge::chunks::{stream_chunks, ChunkController};
use slime_dodge::geometry::{ChunkPos, WorldPos};
use slime_dodge::navigation::{
    agent_pos_of, min_chunk_pos, rebuild_nav_grid, spawn_nav_grid, update_nav_grid_agent_pos,
    AgentPos, GridUpdate, Nav, NavGridError, NavGridManager, TrackedCharacter, GRID_SIZE,
    PASSABLE_COST,
};
use slime_dodge::tiles::TileData;
use slime_dodge::timer::RepeatingTimer;

fn configured(tile_width: u16, tile_height: u16) -> TileData {
    let mut data = TileData::new(tile_width, tile_height);
    data.full_dirt_tiles = Some(vec![]);
    data.full_grass_tiles = Some(vec![]);
    data.corner_outer_grass_to_dirt_tiles = Some(vec![]);
    data.corner_outer_dirt_to_grass_tiles = Some(vec![]);
    data.side_dirt_and_grass_tiles = Some(vec![]);
    data.diag_stripe_grass_in_dirt_tiles = Some(vec![]);
    data
}

fn controller_with(chunks: &[(i32, i32)]) -> ChunkController {
    let mut controller = ChunkController::new();
    controller.chunks = chunks.iter().copied().collect();
    controller.generation = 1;
    controller
}

fn fired() -> RepeatingTimer {
    let mut timer = RepeatingTimer::new(100);
    timer.tick(100);
    timer
}

#[test]
fn anchor_is_lexicographic_minimum() {
    let controller = controller_with(&[(0, 0), (1, 0), (0, 1)]);
    assert_eq!(min_chunk_pos(&controller), Some(ChunkPos::new(0, 0)));
    let controller = controller_with(&[(2, 3), (2, 1)]);
    assert_eq!(min_chunk_pos(&controller), Some(ChunkPos::new(2, 1)));
    let controller = controller_with(&[(1, -5), (0, 7), (0, 6)]);
    assert_eq!(min_chunk_pos(&controller), Some(ChunkPos::new(0, 6)));
    assert_eq!(min_chunk_pos(&ChunkController::new()), None);
}

#[test]
fn grid_spans_streamed_window() {
    let data = configured(16, 16);
    let mut controller = ChunkController::new();
    stream_chunks(&mut controller, WorldPos::new(0, 0), &data);
    let mut manager = NavGridManager::new();
    assert_eq!(manager.update(&controller, &data, &fired()), Ok(GridUpdate::Replaced));
    let grid = manager.grid.as_ref().unwrap();
    assert_eq!(GRID_SIZE, 80);
    assert_eq!((grid.width, grid.height), (80, 80));
    assert_eq!(grid.cells.len(), 6400);
    assert_eq!(grid.anchor, ChunkPos::new(-2, -2));
    assert_eq!((grid.origin_x, grid.origin_y), (-512, -512));
    assert!(grid.cells.iter().all(|c| *c == Nav::Passable(PASSABLE_COST)));
}

#[test]
fn grid_update_waits_for_timer_and_change() {
    let data = configured(16, 16);
    let controller = controller_with(&[(0, 0), (1, 1)]);
    let mut manager = NavGridManager::new();
    let idle = RepeatingTimer::new(100);
    assert_eq!(manager.update(&controller, &data, &idle), Ok(GridUpdate::Idle));
    assert!(manager.grid.is_none());
    assert_eq!(manager.update(&controller, &data, &fired()), Ok(GridUpdate::Replaced));
    assert_eq!(manager.seen_generation, Some(1));
    assert_eq!(manager.update(&controller, &data, &fired()), Ok(GridUpdate::Idle));
}

#[test]
fn grid_rebuilds_in_place_or_replaces() {
    let data = configured(16, 16);
    let mut manager = NavGridManager::new();
    let mut controller = controller_with(&[(0, 0), (1, 1)]);
    manager.update(&controller, &data, &fired()).unwrap();
    controller.chunks.insert((3, 3));
    controller.generation = 2;
    assert_eq!(manager.update(&controller, &data, &fired()), Ok(GridUpdate::Rebuilt));
    assert_eq!(manager.grid.as_ref().unwrap().anchor, ChunkPos::new(0, 0));
    controller.chunks.insert((-1, 4));
    controller.generation = 3;
    assert_eq!(manager.update(&controller, &data, &fired()), Ok(GridUpdate::Replaced));
    let grid = manager.grid.as_ref().unwrap();
    assert_eq!(grid.anchor, ChunkPos::new(-1, 4));
    assert_eq!((grid.origin_x, grid.origin_y), (-256, 1024));
}

#[test]
fn grid_update_without_chunks_fails() {
    let data = configured(16, 16);
    let mut controller = ChunkController::new();
    controller.generation = 5;
    let mut manager = NavGridManager::new();
    assert_eq!(
        manager.update(&controller, &data, &fired()),
        Err(NavGridError::MissingMinimumChunk)
    );
    assert!(manager.grid.is_none());
    assert_eq!(manager.seen_generation, None);
}

#[test]
fn new_grid_is_impassable_until_rebuilt() {
    let data = configured(10, 20);
    let mut grid = spawn_nav_grid(ChunkPos::new(1, -1), &data);
    assert_eq!((grid.origin_x, grid.origin_y), (160, -320));
    assert!(grid.cells.iter().all(|c| *c == Nav::Impassable));
    rebuild_nav_grid(&mut grid);
    assert!(grid.cells.iter().all(|c| *c == Nav::Passable(1)));
    assert_eq!(grid.cells.len(), 6400);
}

#[test]
fn agent_at_chunk_origin_is_on_tile_zero() {
    let data = configured(16, 16);
    let anchor = ChunkPos::new(-2, 3);
    let (ox, oy) = (-512, 768);
    assert_eq!(agent_pos_of(ox, oy, anchor, &data), AgentPos { x: 0, y: 0, z: 0 });
    assert_eq!(agent_pos_of(ox + 16, oy, anchor, &data), AgentPos { x: 1, y: 0, z: 0 });
    assert_eq!(agent_pos_of(ox + 15, oy + 15, anchor, &data), AgentPos { x: 0, y: 0, z: 0 });
}

#[test]
fn agent_left_of_anchor_goes_negative() {
    let data = configured(16, 8);
    let anchor = ChunkPos::new(0, 0);
    assert_eq!(agent_pos_of(-1, -9, anchor, &data), AgentPos { x: -1, y: -2, z: 0 });
    assert_eq!(agent_pos_of(40, 40, ChunkPos::new(1, 1), &data), AgentPos { x: -14, y: -11, z: 0 });
}

fn character(x: i32, y: i32, changed_tick: u64) -> TrackedCharacter {
    TrackedCharacter { x, y, changed_tick, agent_pos: None }
}

#[test]
fn sync_projects_changed_characters_only() {
    let data = configured(16, 16);
    let controller = controller_with(&[(0, 0), (1, 0)]);
    let stale = AgentPos { x: 7, y: 7, z: 0 };
    let mut characters = vec![character(16, 0, 5), character(100, 100, 3)];
    characters[1].agent_pos = Some(stale);
    update_nav_grid_agent_pos(&mut characters, &controller, &data, &fired(), 4);
    assert_eq!(characters[0].agent_pos, Some(AgentPos { x: 1, y: 0, z: 0 }));
    assert_eq!(characters[1].agent_pos, Some(stale));
    // A second tick with nothing changed leaves everything as it was.
    let before = characters.clone();
    update_nav_grid_agent_pos(&mut characters, &controller, &data, &fired(), 5);
    assert_eq!(characters, before);
}

#[test]
fn sync_skips_without_chunks_or_timer() {
    let data = configured(16, 16);
    let mut characters = vec![character(16, 0, 5)];
    update_nav_grid_agent_pos(&mut characters, &ChunkController::new(), &data, &fired(), 0);
    assert_eq!(characters[0].agent_pos, None);
    let controller = controller_with(&[(0, 0)]);
    update_nav_grid_agent_pos(&mut characters, &controller, &data, &RepeatingTimer::new(9), 0);
    assert_eq!(characters[0].agent_pos, None);
}

#[test]
fn timer_keeps_remainder() {
    let mut timer = RepeatingTimer::new(100);
    timer.tick(60);
    assert!(!timer.is_finished());
    assert_eq!(timer.elapsed(), 60);
    timer.tick(60);
    assert!(timer.is_finished());
    assert_eq!(timer.elapsed(), 20);
    timer.tick(10);
    assert!(!timer.is_finished());
    timer.tick(u64::MAX);
    assert!(timer.is_finished());
    assert_eq!(timer.elapsed(), ((30 + u64::MAX as u128) % 100) as u64);
    assert_eq!(timer.interval(), 100);
}
