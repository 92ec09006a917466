//! The navigation grid kept in step with the streamed chunks, and the
//! projection of characters onto it.
use vstd::prelude::*;

use crate::chunks::{seq_set, ChunkController};
use crate::geometry::{
    chunk_origin, chunk_origin_of, lemma_floor_div_bounds, lex_le, ChunkPos, CHUNK_SIZE,
};
use crate::tiles::TileData;
use crate::timer::RepeatingTimer;

verus! {

/// Chunks covered by the navigation grid on each side of the centre chunk.
pub const PROCGEN_DISTANCE: u32 = 2;

/// Cells of the navigation grid along each axis.
pub const GRID_SIZE: u32 = 16 * (PROCGEN_DISTANCE * 2 + 1);

/// Cost of crossing a passable cell after a full rebuild.
pub const PASSABLE_COST: u32 = 1;

/// Passability of one navigation cell.
#[derive(Clone, Copy, Debug, PartialEq, Eq, Structural)]
pub enum Nav {
    Impassable,
    Passable(u32),
}

/// `m` is the lexicographic minimum of `s`.
pub open spec fn is_anchor(m: ChunkPos, s: Set<ChunkPos>) -> bool {
    s.contains(m) && forall|c: ChunkPos| #[trigger] s.contains(c) ==> lex_le(m, c)
}

/// The lexicographically smallest materialised chunk, by `x` and then `y`, or
/// `None` when no chunk is materialised.
pub fn min_chunk_pos(controller: &ChunkController) -> (r: Option<ChunkPos>)
    ensures
        r is None <==> controller@ == Set::<ChunkPos>::empty(),
        r matches Some(m) ==> is_anchor(m, controller@),
{
    let chunks = controller.positions();
    if chunks.len() == 0 {
        assert(controller@ =~= Set::<ChunkPos>::empty());
        return None;
    }
    let mut best = chunks[0];
    assert(chunks@[0] == best);
    let mut i: usize = 1;
    while i < chunks.len()
        invariant
            1 <= i <= chunks.len(),
            exists|k: int| 0 <= k < i && chunks@[k] == best,
            forall|k: int| 0 <= k < i ==> lex_le(best, #[trigger] chunks@[k]),
        decreases chunks.len() - i,
    {
        let c = chunks[i];
        if c.x < best.x || (c.x == best.x && c.y < best.y) {
            best = c;
            assert(chunks@[i as int] == best);
        }
        i += 1;
    }
    assert(seq_set(chunks@).contains(best));
    assert forall|c: ChunkPos| controller@.contains(c) implies lex_le(best, c) by {
        assert(seq_set(chunks@).contains(c));
        let j = choose|j: int| 0 <= j < chunks.len() && chunks@[j] == c;
        assert(lex_le(best, chunks@[j]));
    }
    Some(best)
}

/// The anchor of a chunk set is unique: two chunks that are both its
/// lexicographic minimum are the same chunk.
pub proof fn lemma_anchor_unique(s: Set<ChunkPos>, a: ChunkPos, b: ChunkPos)
    requires
        is_anchor(a, s),
        is_anchor(b, s),
    ensures
        a == b,
{
    assert(lex_le(a, b) && lex_le(b, a));
}

/// A navigation grid of `width` by `height` cells whose cell (0, 0) sits at
/// the world origin of chunk `anchor`. Cells are stored row by row.
pub struct NavGrid {
    pub anchor: ChunkPos,
    pub origin_x: i64,
    pub origin_y: i64,
    pub width: u32,
    pub height: u32,
    pub cells: Vec<Nav>,
}

impl NavGrid {
    /// Sized to cover the streaming window, with one entry per cell.
    pub open spec fn wf(&self) -> bool {
        &&& self.width == GRID_SIZE
        &&& self.height == GRID_SIZE
        &&& self.cells.len() == GRID_SIZE * GRID_SIZE
    }

    /// Anchored at `anchor` and placed at its world origin for `data`.
    pub open spec fn placed_at(&self, anchor: ChunkPos, data: TileData) -> bool {
        &&& self.anchor == anchor
        &&& self.origin_x == chunk_origin(anchor.x as int, data.tile_width as int)
        &&& self.origin_y == chunk_origin(anchor.y as int, data.tile_height as int)
    }

    /// Every cell holds `nav`.
    pub open spec fn all_cells(&self, nav: Nav) -> bool {
        forall|i: int| 0 <= i < self.cells.len() ==> #[trigger] self.cells@[i] == nav
    }
}

/// A fresh navigation grid anchored at `anchor`, every cell impassable.
pub fn spawn_nav_grid(anchor: ChunkPos, data: &TileData) -> (r: NavGrid)
    ensures
        r.wf(),
        r.placed_at(anchor, *data),
        r.all_cells(Nav::Impassable),
{
    assert(GRID_SIZE == 80);
    let n: usize = (GRID_SIZE * GRID_SIZE) as usize;
    let mut cells: Vec<Nav> = Vec::new();
    let mut i: usize = 0;
    while i < n
        invariant
            i <= n,
            n == GRID_SIZE * GRID_SIZE,
            cells.len() == i,
            forall|k: int| 0 <= k < i ==> #[trigger] cells@[k] == Nav::Impassable,
        decreases n - i,
    {
        cells.push(Nav::Impassable);
        i += 1;
    }
    NavGrid {
        anchor,
        origin_x: chunk_origin_of(anchor.x, data.tile_width),
        origin_y: chunk_origin_of(anchor.y, data.tile_height),
        width: GRID_SIZE,
        height: GRID_SIZE,
        cells,
    }
}

/// Mark every cell passable at unit cost. No obstacle detection is made.
pub fn rebuild_nav_grid(grid: &mut NavGrid)
    requires
        old(grid).wf(),
    ensures
        final(grid).wf(),
        final(grid).anchor == old(grid).anchor,
        final(grid).origin_x == old(grid).origin_x,
        final(grid).origin_y == old(grid).origin_y,
        final(grid).all_cells(Nav::Passable(PASSABLE_COST)),
{
    let n = grid.cells.len();
    let mut i: usize = 0;
    while i < n
        invariant
            i <= n,
            n == grid.cells.len(),
            grid.wf(),
            grid.anchor == old(grid).anchor,
            grid.origin_x == old(grid).origin_x,
            grid.origin_y == old(grid).origin_y,
            forall|k: int| 0 <= k < i ==> #[trigger] grid.cells@[k] == Nav::Passable(PASSABLE_COST),
        decreases n - i,
    {
        grid.cells.set(i, Nav::Passable(PASSABLE_COST));
        i += 1;
    }
}

/// What a grid update did.
#[derive(Clone, Copy, Debug, PartialEq, Eq, Structural)]
pub enum GridUpdate {
    /// Not due: the timer has not fired or the chunk set is unchanged.
    Idle,
    /// The existing grid kept its anchor and was rebuilt in place.
    Rebuilt,
    /// The old grid, if any, was dropped and a new one built at the anchor.
    Replaced,
}

/// Why a grid update could not be made.
#[derive(Clone, Copy, Debug, PartialEq, Eq, Structural)]
pub enum NavGridError {
    /// No chunk is materialised, so the grid has no anchor.
    MissingMinimumChunk,
}

/// Owner of the single navigation grid of one level kind.
pub struct NavGridManager {
    pub grid: Option<NavGrid>,
    /// Controller generation seen by the last update that was made.
    pub seen_generation: Option<u64>,
}

impl NavGridManager {
    pub open spec fn wf(&self) -> bool {
        self.grid matches Some(g) ==> g.wf()
    }

    /// No grid yet, and no chunk set seen.
    pub fn new() -> (r: NavGridManager)
        ensures
            r.wf(),
            r.grid is None,
            r.seen_generation is None,
    {
        NavGridManager { grid: None, seen_generation: None }
    }

    /// Whether an update is due: the timer fired and the chunk set moved to a
    /// generation not seen before.
    pub open spec fn due(&self, controller: ChunkController, timer: RepeatingTimer) -> bool {
        timer.spec_finished() && self.seen_generation != Some(controller.generation)
    }

    /// When due, rebuild the grid at the lexicographically smallest chunk:
    /// in place when the anchor is unchanged, otherwise by dropping the old
    /// grid and building a new one there. Every cell ends passable.
    pub fn update(
        &mut self,
        controller: &ChunkController,
        data: &TileData,
        timer: &RepeatingTimer,
    ) -> (r: Result<GridUpdate, NavGridError>)
        requires
            old(self).wf(),
        ensures
            final(self).wf(),
            !old(self).due(*controller, *timer) ==> {
                &&& r == Ok::<GridUpdate, NavGridError>(GridUpdate::Idle)
                &&& *final(self) == *old(self)
            },
            old(self).due(*controller, *timer) && controller@ == Set::<ChunkPos>::empty() ==> {
                &&& r == Err::<GridUpdate, NavGridError>(NavGridError::MissingMinimumChunk)
                &&& *final(self) == *old(self)
            },
            old(self).due(*controller, *timer) && controller@ != Set::<ChunkPos>::empty() ==> {
                &&& final(self).seen_generation == Some(controller.generation)
                &&& final(self).grid matches Some(g) && {
                    &&& is_anchor(g.anchor, controller@)
                    &&& g.all_cells(Nav::Passable(PASSABLE_COST))
                    &&& if old(self).grid matches Some(o) && o.anchor == g.anchor {
                        &&& r == Ok::<GridUpdate, NavGridError>(GridUpdate::Rebuilt)
                        &&& g.origin_x == old(self).grid->0.origin_x
                        &&& g.origin_y == old(self).grid->0.origin_y
                    } else {
                        &&& r == Ok::<GridUpdate, NavGridError>(GridUpdate::Replaced)
                        &&& g.placed_at(g.anchor, *data)
                    }
                }
            },
    {
        if !timer.is_finished() {
            return Ok(GridUpdate::Idle);
        }
        match self.seen_generation {
            Some(g) => {
                if g == controller.generation {
                    return Ok(GridUpdate::Idle);
                }
            },
            None => {},
        }
        let anchor = match min_chunk_pos(controller) {
            Some(a) => a,
            None => {
                return Err(NavGridError::MissingMinimumChunk);
            },
        };
        self.seen_generation = Some(controller.generation);
        let same = match &self.grid {
            Some(g) => g.anchor == anchor,
            None => false,
        };
        if same {
            let mut grid = self.grid.take().unwrap();
            rebuild_nav_grid(&mut grid);
            self.grid = Some(grid);
            Ok(GridUpdate::Rebuilt)
        } else {
            let mut grid = spawn_nav_grid(anchor, data);
            rebuild_nav_grid(&mut grid);
            self.grid = Some(grid);
            Ok(GridUpdate::Replaced)
        }
    }
}

/// A character's tile position relative to the navigation grid's anchor.
#[derive(Clone, Copy, Debug, PartialEq, Eq, Structural)]
pub struct AgentPos {
    pub x: i64,
    pub y: i64,
    pub z: i64,
}

/// A character whose position is projected onto the navigation grid.
/// `changed_tick` is the tick at which its position last changed.
#[derive(Clone, Copy, Debug, PartialEq, Eq, Structural)]
pub struct TrackedCharacter {
    pub x: i32,
    pub y: i32,
    pub changed_tick: u64,
    pub agent_pos: Option<AgentPos>,
}

/// Tile index of world coordinate `p` relative to anchor chunk index `anchor`,
/// along an axis whose tiles measure `tile` world units.
pub open spec fn agent_tile(p: int, anchor: int, tile: int) -> int {
    p / tile - anchor * CHUNK_SIZE
}

/// `a` is the projection of world position (`x`, `y`) relative to `anchor`.
pub open spec fn projects(a: AgentPos, x: int, y: int, anchor: ChunkPos, data: TileData) -> bool {
    &&& a.x == agent_tile(x, anchor.x as int, data.tile_width as int)
    &&& a.y == agent_tile(y, anchor.y as int, data.tile_height as int)
    &&& a.z == 0
}

fn tile_index_of(p: i32, tile: u16, anchor: i32) -> (r: i64)
    requires
        tile > 0,
    ensures
        r == agent_tile(p as int, anchor as int, tile as int),
{
    proof {
        lemma_floor_div_bounds(p as int, tile as int);
    }
    let q: i32 = match p.checked_div_euclid(tile as i32) {
        Some(q) => q,
        None => 0,
    };
    q as i64 - anchor as i64 * CHUNK_SIZE as i64
}

/// The tile position of world position (`x`, `y`) relative to the chunk
/// `anchor`: tile units, less the anchor's tile offset, floored. Positions
/// left of or below the anchor give negative values.
pub fn agent_pos_of(x: i32, y: i32, anchor: ChunkPos, data: &TileData) -> (r: AgentPos)
    requires
        data.wf(),
    ensures
        projects(r, x as int, y as int, anchor, *data),
{
    AgentPos {
        x: tile_index_of(x, data.tile_width, anchor.x),
        y: tile_index_of(y, data.tile_height, anchor.y),
        z: 0,
    }
}

/// A character at a chunk's origin, projected against that same chunk, sits
/// on tile (0, 0, 0); one tile width further along x it sits on (1, 0, 0).
pub proof fn lemma_agent_projection_round_trip(c: ChunkPos, data: TileData)
    requires
        data.wf(),
    ensures
        agent_tile(chunk_origin(c.x as int, data.tile_width as int), c.x as int, data.tile_width as int)
            == 0,
        agent_tile(
            chunk_origin(c.x as int, data.tile_width as int) + data.tile_width,
            c.x as int,
            data.tile_width as int,
        ) == 1,
        agent_tile(
            chunk_origin(c.y as int, data.tile_height as int),
            c.y as int,
            data.tile_height as int,
        ) == 0,
{
    let tw = data.tile_width as int;
    let th = data.tile_height as int;
    assert(chunk_origin(c.x as int, tw) == (16 * c.x) * tw) by (nonlinear_arith);
    assert(chunk_origin(c.x as int, tw) + tw == (16 * c.x + 1) * tw) by (nonlinear_arith);
    assert(chunk_origin(c.y as int, th) == (16 * c.y) * th) by (nonlinear_arith);
    vstd::arithmetic::div_mod::lemma_div_multiples_vanish(16 * c.x, tw);
    vstd::arithmetic::div_mod::lemma_div_multiples_vanish(16 * c.x + 1, tw);
    vstd::arithmetic::div_mod::lemma_div_multiples_vanish(16 * c.y, th);
    assert((16 * c.x) * tw == tw * (16 * c.x)) by (nonlinear_arith);
    assert((16 * c.x + 1) * tw == tw * (16 * c.x + 1)) by (nonlinear_arith);
    assert((16 * c.y) * th == th * (16 * c.y)) by (nonlinear_arith);
}

/// Whether a sync pass projects characters at all: the timer fired and the
/// grid has an anchor.
pub open spec fn sync_due(controller: ChunkController, timer: RepeatingTimer) -> bool {
    timer.spec_finished() && controller@ != Set::<ChunkPos>::empty()
}

/// When the timer fired and some chunk is materialised, give every character
/// whose position changed after tick `last_sync` its tile position relative to
/// the lexicographically smallest chunk. Other characters are left untouched.
pub fn update_nav_grid_agent_pos(
    characters: &mut Vec<TrackedCharacter>,
    controller: &ChunkController,
    data: &TileData,
    timer: &RepeatingTimer,
    last_sync: u64,
)
    requires
        data.wf(),
    ensures
        final(characters).len() == old(characters).len(),
        forall|i: int|
            0 <= i < old(characters).len() ==> {
                let before = #[trigger] old(characters)@[i];
                let after = final(characters)@[i];
                &&& after.x == before.x
                &&& after.y == before.y
                &&& after.changed_tick == before.changed_tick
                &&& if sync_due(*controller, *timer) && before.changed_tick > last_sync {
                    after.agent_pos matches Some(a) && exists|m: ChunkPos|
                        is_anchor(m, controller@) && projects(
                            a,
                            before.x as int,
                            before.y as int,
                            m,
                            *data,
                        )
                } else {
                    after == before
                }
            },
{
    if !timer.is_finished() {
        return;
    }
    let anchor = match min_chunk_pos(controller) {
        Some(a) => a,
        None => {
            return;
        },
    };
    let n = characters.len();
    let mut i: usize = 0;
    while i < n
        invariant
            i <= n,
            n == old(characters).len(),
            characters.len() == n,
            data.wf(),
            sync_due(*controller, *timer),
            is_anchor(anchor, controller@),
            forall|k: int| i <= k < n ==> #[trigger] characters@[k] == old(characters)@[k],
            forall|k: int|
                0 <= k < i ==> {
                    let before = #[trigger] old(characters)@[k];
                    let after = characters@[k];
                    &&& after.x == before.x
                    &&& after.y == before.y
                    &&& after.changed_tick == before.changed_tick
                    &&& if before.changed_tick > last_sync {
                        after.agent_pos matches Some(a) && projects(
                            a,
                            before.x as int,
                            before.y as int,
                            anchor,
                            *data,
                        )
                    } else {
                        after == before
                    }
                },
        decreases n - i,
    {
        let ch = characters[i];
        if ch.changed_tick > last_sync {
            let pos = agent_pos_of(ch.x, ch.y, anchor, data);
            characters.set(i, TrackedCharacter { agent_pos: Some(pos), ..ch });
        }
        i += 1;
    }
}

} // verus!
