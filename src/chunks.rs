//! The chunk controller and the chunk streamer.
use vstd::prelude::*;

use bevy::platform::collections::HashSet;

use crate::geometry::{
    chunk_index, chunk_index_of, chunk_origin, chunk_origin_of, ChunkPos, WorldPos,
};
use crate::chunk_set::{
    chunk_set, empty_set, set_clear, set_contains, set_elements, set_insert, set_is_empty, set_remove,
};
use crate::tiles::TileData;

verus! {

/// In-game resolution height, in world units.
pub const RES_HEIGHT: i64 = 180;

/// Number of chunks kept spawned on each side of the viewpoint's chunk.
pub const RENDER_DISTANCE: i32 = 2;

/// World distance from the viewpoint beyond which a chunk is removed.
pub const DESPAWN_RANGE: i64 = RES_HEIGHT * 4;

/// Texture index given to every tile slot of a freshly spawned chunk.
pub const PLACEHOLDER_TEXTURE_INDEX: u32 = 8;

/// Number of tile slots in a chunk (16 by 16).
pub const TILES_PER_CHUNK: usize = 256;

/// The set of coordinates held by a sequence.
pub open spec fn seq_set(s: Seq<ChunkPos>) -> Set<ChunkPos> {
    Set::new(|c: ChunkPos| s.contains(c))
}

/// The chunk that holds the viewpoint, along x.
pub open spec fn view_chunk_x(p: WorldPos, data: TileData) -> int {
    chunk_index(p.x as int, data.tile_width as int)
}

/// The chunk that holds the viewpoint, along y.
pub open spec fn view_chunk_y(p: WorldPos, data: TileData) -> int {
    chunk_index(p.y as int, data.tile_height as int)
}

/// Whether `c` lies in the square render window around the viewpoint's chunk.
pub open spec fn in_window(c: ChunkPos, p: WorldPos, data: TileData) -> bool {
    &&& view_chunk_x(p, data) - RENDER_DISTANCE <= c.x < view_chunk_x(p, data) + RENDER_DISTANCE
    &&& view_chunk_y(p, data) - RENDER_DISTANCE <= c.y < view_chunk_y(p, data) + RENDER_DISTANCE
}

/// The render window around the viewpoint.
pub open spec fn window(p: WorldPos, data: TileData) -> Set<ChunkPos> {
    Set::new(|c: ChunkPos| in_window(c, p, data))
}

/// Squared world distance from the viewpoint to the origin of chunk `c`.
pub open spec fn origin_distance_sq(c: ChunkPos, p: WorldPos, data: TileData) -> int {
    let dx = chunk_origin(c.x as int, data.tile_width as int) - p.x;
    let dy = chunk_origin(c.y as int, data.tile_height as int) - p.y;
    dx * dx + dy * dy
}

/// Whether the origin of chunk `c` lies farther than `DESPAWN_RANGE` from the
/// viewpoint.
pub open spec fn beyond_range(c: ChunkPos, p: WorldPos, data: TileData) -> bool {
    origin_distance_sq(c, p, data) > DESPAWN_RANGE * DESPAWN_RANGE
}

/// The chunks of `s` that lie beyond the despawn range.
pub open spec fn far_chunks(s: Set<ChunkPos>, p: WorldPos, data: TileData) -> Set<ChunkPos> {
    s.filter(|c: ChunkPos| beyond_range(c, p, data))
}

/// The chunk set after one streamer pass from `s`: missing window chunks are
/// added (when the terrain-mask sets are present), and the chunks that were
/// live at the start of the pass and lie beyond range are removed.
pub open spec fn stream_step(s: Set<ChunkPos>, p: WorldPos, data: TileData) -> Set<ChunkPos> {
    if data.has_tiles() {
        s.union(window(p, data)).difference(far_chunks(s, p, data))
    } else {
        s.difference(far_chunks(s, p, data))
    }
}

/// A chunk: its coordinate, its world origin and the texture index of each of
/// its tile slots, in row-major order.
pub struct Chunk {
    pub pos: ChunkPos,
    pub origin_x: i64,
    pub origin_y: i64,
    pub tiles: Vec<u32>,
}

impl Chunk {
    /// This is the chunk at `pos`, placed for `data`'s tile size, with every
    /// slot showing `texture`.
    pub open spec fn built(&self, pos: ChunkPos, data: TileData, texture: u32) -> bool {
        &&& self.pos == pos
        &&& self.origin_x == chunk_origin(pos.x as int, data.tile_width as int)
        &&& self.origin_y == chunk_origin(pos.y as int, data.tile_height as int)
        &&& self.tiles@ == Seq::new(TILES_PER_CHUNK as nat, |i: int| texture)
    }
}

/// Build the chunk at `pos`, anchored at its world origin, with every tile slot
/// showing `texture`.
pub fn spawn_chunk(pos: ChunkPos, data: &TileData, texture: u32) -> (r: Chunk)
    ensures
        r.built(pos, *data, texture),
{
    let mut tiles: Vec<u32> = Vec::new();
    let mut i: usize = 0;
    while i < TILES_PER_CHUNK
        invariant
            i <= TILES_PER_CHUNK,
            tiles@ == Seq::new(i as nat, |k: int| texture),
        decreases TILES_PER_CHUNK - i,
    {
        tiles.push(texture);
        i += 1;
        assert(tiles@ =~= Seq::new(i as nat, |k: int| texture));
    }
    Chunk {
        pos,
        origin_x: chunk_origin_of(pos.x, data.tile_width),
        origin_y: chunk_origin_of(pos.y, data.tile_height),
        tiles,
    }
}

/// The set of chunk coordinates that are currently materialised for one level
/// kind, with a generation stamp that moves whenever the set changes.
pub struct ChunkController {
    pub chunks: HashSet<(i32, i32)>,
    pub generation: u64,
}

impl View for ChunkController {
    type V = Set<ChunkPos>;

    open spec fn view(&self) -> Set<ChunkPos> {
        Set::new(|c: ChunkPos| chunk_set(self.chunks).contains((c.x, c.y)))
    }
}

/// The generation that follows `g` after a change of the set.
pub open spec fn next_generation(g: u64) -> u64 {
    if g == u64::MAX {
        0
    } else {
        (g + 1) as u64
    }
}

/// The generation after an operation that took the set from `before` to `after`.
pub open spec fn stamped(g: u64, before: Set<ChunkPos>, after: Set<ChunkPos>) -> u64 {
    if before == after {
        g
    } else {
        next_generation(g)
    }
}

/// The generation stamp moved exactly when the set changed.
pub open spec fn generation_tracks(
    g_before: u64,
    g_after: u64,
    before: Set<ChunkPos>,
    after: Set<ChunkPos>,
) -> bool {
    (g_before == g_after) == (before == after)
}

proof fn lemma_seq_set_push(s: Seq<ChunkPos>, c: ChunkPos)
    ensures
        seq_set(s.push(c)) == seq_set(s).insert(c),
{
    assert forall|d: ChunkPos| s.push(c).contains(d) <==> (s.contains(d) || d == c) by {
        if s.contains(d) {
            let i = choose|i: int| 0 <= i < s.len() && s[i] == d;
            assert(s.push(c)[i] == d);
        }
        if d == c {
            assert(s.push(c)[s.len() as int] == c);
        }
        if s.push(c).contains(d) {
            let i = choose|i: int| 0 <= i < s.push(c).len() && s.push(c)[i] == d;
            if i < s.len() {
                assert(s[i] == d);
            }
        }
    }
    assert forall|d: ChunkPos| #[trigger] seq_set(s.push(c)).contains(d) <==> seq_set(s).insert(
        c,
    ).contains(d) by {
        assert(s.push(c).contains(d) <==> (s.contains(d) || d == c));
    }
    assert(seq_set(s.push(c)) =~= seq_set(s).insert(c));
}

impl ChunkController {
    /// An empty controller.
    pub fn new() -> (r: ChunkController)
        ensures
            r@ == Set::<ChunkPos>::empty(),
            r.generation == 0,
    {
        let r = ChunkController { chunks: empty_set(), generation: 0 };
        assert(r@ =~= Set::<ChunkPos>::empty());
        r
    }

    /// Whether chunk `c` is materialised.
    pub fn contains(&self, c: ChunkPos) -> (r: bool)
        ensures
            r == self@.contains(c),
    {
        set_contains(&self.chunks, (c.x, c.y))
    }

    /// Whether no chunk is materialised.
    pub fn is_empty(&self) -> (r: bool)
        ensures
            r == (self@ == Set::<ChunkPos>::empty()),
    {
        let r = set_is_empty(&self.chunks);
        if !r {
            let ghost t = choose|t: (i32, i32)| chunk_set(self.chunks).contains(t);
            assert(chunk_set(self.chunks).contains(t)) by {
                assert(chunk_set(self.chunks) !== Set::<(i32, i32)>::empty());
                if !chunk_set(self.chunks).contains(t) {
                    assert(chunk_set(self.chunks) =~= Set::<(i32, i32)>::empty());
                }
            }
            assert(self@.contains(ChunkPos { x: t.0, y: t.1 }));
        } else {
            assert(self@ =~= Set::<ChunkPos>::empty());
        }
        r
    }

    /// The materialised chunks, each once, in no particular order.
    pub fn positions(&self) -> (r: Vec<ChunkPos>)
        ensures
            r@.no_duplicates(),
            seq_set(r@) == self@,
    {
        let elems = set_elements(&self.chunks);
        let mut r: Vec<ChunkPos> = Vec::new();
        let mut i: usize = 0;
        while i < elems.len()
            invariant
                i <= elems.len(),
                elems@.no_duplicates(),
                r.len() == i,
                forall|k: int| 0 <= k < i ==> (#[trigger] r@[k]).x == elems@[k].0 && r@[k].y == elems@[k].1,
            decreases elems.len() - i,
        {
            let (x, y) = elems[i];
            r.push(ChunkPos::new(x, y));
            i += 1;
        }
        assert(r@.no_duplicates()) by {
            assert forall|j: int, k: int| 0 <= j < r.len() && 0 <= k < r.len() && j != k implies r@[j]
                != r@[k] by {
                assert(elems@[j] != elems@[k]);
            }
        }
        assert forall|c: ChunkPos| seq_set(r@).contains(c) <==> self@.contains(c) by {
            if r@.contains(c) {
                let k = choose|k: int| 0 <= k < r.len() && r@[k] == c;
                assert(elems@.contains(elems@[k]));
            }
            if self@.contains(c) {
                assert(elems@.contains((c.x, c.y)));
                let k = choose|k: int| 0 <= k < elems.len() && elems@[k] == (c.x, c.y);
                assert(r@[k] == c);
            }
        }
        assert(seq_set(r@) =~= self@);
        r
    }

    fn bump(&mut self)
        ensures
            final(self).chunks == old(self).chunks,
            final(self).generation == next_generation(old(self).generation),
    {
        self.generation = self.generation.wrapping_add(1);
    }
}

/// Spawn every chunk of the render window around `viewpoint` that is not yet
/// materialised, and return the new chunks in the order they were made. When
/// the terrain-mask sets are not all present, nothing is spawned and `None`
/// comes back; the caller is expected to retry on a later tick.
pub fn spawn_chunks(controller: &mut ChunkController, viewpoint: WorldPos, data: &TileData) -> (r:
    Option<Vec<Chunk>>)
    requires
        data.wf(),
    ensures
        !data.has_tiles() ==> r is None && *final(controller) == *old(controller),
        data.has_tiles() ==> r is Some,
        r matches Some(spawned) ==> {
            &&& final(controller)@ == old(controller)@.union(window(viewpoint, *data))
            &&& final(controller).generation == stamped(
                old(controller).generation,
                old(controller)@,
                final(controller)@,
            )
            &&& seq_set(spawned@.map_values(|k: Chunk| k.pos)) == window(viewpoint, *data).difference(
                old(controller)@,
            )
            &&& spawned@.map_values(|k: Chunk| k.pos).no_duplicates()
            &&& forall|i: int|
                0 <= i < spawned.len() ==> #[trigger] spawned@[i].built(
                    spawned@[i].pos,
                    *data,
                    PLACEHOLDER_TEXTURE_INDEX,
                )
        },
{
    if data.get_tiles().is_none() {
        return None;
    }
    let ghost old_set = controller@;
    let ghost w = window(viewpoint, *data);
    let vx = chunk_index_of(viewpoint.x, data.tile_width);
    let vy = chunk_index_of(viewpoint.y, data.tile_height);
    let mut spawned: Vec<Chunk> = Vec::new();
    let mut y: i32 = vy - RENDER_DISTANCE;
    while y < vy + RENDER_DISTANCE
        invariant
            data.wf(),
            data.has_tiles(),
            vx == view_chunk_x(viewpoint, *data),
            vy == view_chunk_y(viewpoint, *data),
            -0x800_0000 <= vx < 0x800_0000,
            -0x800_0000 <= vy < 0x800_0000,
            vy - RENDER_DISTANCE <= y <= vy + RENDER_DISTANCE,
            w == window(viewpoint, *data),
            controller.generation == old(controller).generation,
            controller@ == old_set.union(w.filter(|c: ChunkPos| c.y < y)),
            seq_set(spawned@.map_values(|k: Chunk| k.pos)) == w.filter(|c: ChunkPos| c.y < y).difference(old_set),
            spawned@.map_values(|k: Chunk| k.pos).no_duplicates(),
            forall|i: int|
                0 <= i < spawned.len() ==> #[trigger] spawned@[i].built(
                    spawned@[i].pos,
                    *data,
                    PLACEHOLDER_TEXTURE_INDEX,
                ),
        decreases vy + RENDER_DISTANCE - y,
    {
        let mut x: i32 = vx - RENDER_DISTANCE;
        while x < vx + RENDER_DISTANCE
            invariant
                data.wf(),
                data.has_tiles(),
                vx == view_chunk_x(viewpoint, *data),
                vy == view_chunk_y(viewpoint, *data),
                -0x800_0000 <= vx < 0x800_0000,
                -0x800_0000 <= vy < 0x800_0000,
                vy - RENDER_DISTANCE <= y < vy + RENDER_DISTANCE,
                vx - RENDER_DISTANCE <= x <= vx + RENDER_DISTANCE,
                w == window(viewpoint, *data),
                controller.generation == old(controller).generation,
                controller@ == old_set.union(
                    w.filter(|c: ChunkPos| c.y < y || (c.y == y && c.x < x)),
                ),
                seq_set(spawned@.map_values(|k: Chunk| k.pos)) == w.filter(
                    |c: ChunkPos| c.y < y || (c.y == y && c.x < x),
                ).difference(old_set),
                spawned@.map_values(|k: Chunk| k.pos).no_duplicates(),
                forall|i: int|
                    0 <= i < spawned.len() ==> #[trigger] spawned@[i].built(
                        spawned@[i].pos,
                        *data,
                        PLACEHOLDER_TEXTURE_INDEX,
                    ),
            decreases vx + RENDER_DISTANCE - x,
        {
            let c = ChunkPos::new(x, y);
            let ghost before = w.filter(|d: ChunkPos| d.y < y || (d.y == y && d.x < x));
            let ghost after = w.filter(|d: ChunkPos| d.y < y || (d.y == y && d.x < x + 1));
            assert(w.contains(c));
            assert(after =~= before.insert(c));
            if !controller.contains(c) {
                let ghost ps = spawned@.map_values(|k: Chunk| k.pos);
                let ghost cs = controller@;
                set_insert(&mut controller.chunks, (c.x, c.y));
                assert(controller@ =~= cs.insert(c));
                let chunk = spawn_chunk(c, data, PLACEHOLDER_TEXTURE_INDEX);
                spawned.push(chunk);
                proof {
                    assert(spawned@.map_values(|k: Chunk| k.pos) =~= ps.push(c));
                    lemma_seq_set_push(ps, c);
                    assert(!before.contains(c));
                    assert(!seq_set(ps).contains(c));
                    assert(!ps.contains(c));
                }
            }
            assert(controller@ =~= old_set.union(after));
            assert(seq_set(spawned@.map_values(|k: Chunk| k.pos)) =~= after.difference(old_set));
            x += 1;
        }
        assert(w.filter(|c: ChunkPos| c.y < y || (c.y == y && c.x < vx + RENDER_DISTANCE)) =~= w.filter(
            |c: ChunkPos| c.y < y + 1,
        ));
        y += 1;
    }
    assert(w.filter(|c: ChunkPos| c.y < vy + RENDER_DISTANCE) =~= w);
    if spawned.len() > 0 {
        let ghost first = spawned@[0].pos;
        let ghost ps = spawned@.map_values(|k: Chunk| k.pos);
        assert(ps[0] == first);
        assert(ps.contains(first));
        assert(seq_set(ps).contains(first));
        assert(!old_set.contains(first) && controller@.contains(first));
        controller.bump();
    } else {
        assert(controller@ =~= old_set) by {
            assert forall|c: ChunkPos| w.contains(c) implies old_set.contains(c) by {
                if !old_set.contains(c) {
                    assert(seq_set(spawned@.map_values(|k: Chunk| k.pos)).contains(c));
                }
            }
        }
    }
    Some(spawned)
}

/// Whether the origin of chunk `c` lies farther than `DESPAWN_RANGE` from
/// `viewpoint` (Euclidean distance).
pub fn beyond_despawn_range(c: ChunkPos, viewpoint: WorldPos, data: &TileData) -> (r: bool)
    ensures
        r == beyond_range(c, viewpoint, *data),
{
    let ox = chunk_origin_of(c.x, data.tile_width);
    let oy = chunk_origin_of(c.y, data.tile_height);
    let dx: i128 = (ox - viewpoint.x as i64) as i128;
    let dy: i128 = (oy - viewpoint.y as i64) as i128;
    assert(0 <= dx * dx <= 0x100_0000_0000_0000_0000_0000_0000) by (nonlinear_arith)
        requires
            -0x10_0000_0000_0000 <= dx <= 0x10_0000_0000_0000,
    ;
    assert(0 <= dy * dy <= 0x100_0000_0000_0000_0000_0000_0000) by (nonlinear_arith)
        requires
            -0x10_0000_0000_0000 <= dy <= 0x10_0000_0000_0000,
    ;
    let range: i128 = DESPAWN_RANGE as i128;
    dx * dx + dy * dy > range * range
}

/// Split `chunks` into those within range of `viewpoint` and those beyond it,
/// each in the order given.
fn partition_by_range(chunks: &Vec<ChunkPos>, viewpoint: WorldPos, data: &TileData) -> (r: (
    Vec<ChunkPos>,
    Vec<ChunkPos>,
))
    requires
        chunks@.no_duplicates(),
    ensures
        r.0@.no_duplicates(),
        r.1@.no_duplicates(),
        seq_set(r.0@) == seq_set(chunks@).difference(far_chunks(seq_set(chunks@), viewpoint, *data)),
        seq_set(r.1@) == far_chunks(seq_set(chunks@), viewpoint, *data),
{
    let mut kept: Vec<ChunkPos> = Vec::new();
    let mut gone: Vec<ChunkPos> = Vec::new();
    let mut i: usize = 0;
    while i < chunks.len()
        invariant
            i <= chunks.len(),
            chunks@.no_duplicates(),
            kept@.no_duplicates(),
            gone@.no_duplicates(),
            seq_set(kept@) == seq_set(chunks@.subrange(0, i as int)).filter(
                |c: ChunkPos| !beyond_range(c, viewpoint, *data),
            ),
            seq_set(gone@) == seq_set(chunks@.subrange(0, i as int)).filter(
                |c: ChunkPos| beyond_range(c, viewpoint, *data),
            ),
        decreases chunks.len() - i,
    {
        let c = chunks[i];
        let ghost pre = chunks@.subrange(0, i as int);
        assert(chunks@.subrange(0, i + 1) =~= pre.push(c));
        proof {
            lemma_seq_set_push(pre, c);
            assert(!pre.contains(c)) by {
                if pre.contains(c) {
                    let k = choose|k: int| 0 <= k < pre.len() && pre[k] == c;
                    assert(chunks@[k] == chunks@[i as int]);
                }
            }
        }
        if beyond_despawn_range(c, viewpoint, data) {
            proof {
                lemma_seq_set_push(gone@, c);
                assert(!seq_set(gone@).contains(c));
            }
            gone.push(c);
        } else {
            proof {
                lemma_seq_set_push(kept@, c);
                assert(!seq_set(kept@).contains(c));
            }
            kept.push(c);
        }
        i += 1;
        assert(seq_set(kept@) =~= seq_set(chunks@.subrange(0, i as int)).filter(
            |c: ChunkPos| !beyond_range(c, viewpoint, *data),
        ));
        assert(seq_set(gone@) =~= seq_set(chunks@.subrange(0, i as int)).filter(
            |c: ChunkPos| beyond_range(c, viewpoint, *data),
        ));
    }
    assert(chunks@.subrange(0, chunks.len() as int) =~= chunks@);
    assert(seq_set(kept@) =~= seq_set(chunks@).difference(
        far_chunks(seq_set(chunks@), viewpoint, *data),
    ));
    assert(seq_set(gone@) =~= far_chunks(seq_set(chunks@), viewpoint, *data));
    (kept, gone)
}

/// Despawn every materialised chunk whose origin lies beyond `DESPAWN_RANGE`
/// of `viewpoint`, and return the coordinates removed.
pub fn despawn_chunks(controller: &mut ChunkController, viewpoint: WorldPos, data: &TileData) -> (r:
    Vec<ChunkPos>)
    requires
    ensures
        final(controller)@ == old(controller)@.difference(
            far_chunks(old(controller)@, viewpoint, *data),
        ),
        seq_set(r@) == far_chunks(old(controller)@, viewpoint, *data),
        r@.no_duplicates(),
        final(controller).generation == stamped(
            old(controller).generation,
            old(controller)@,
            final(controller)@,
        ),
{
    let live = controller.positions();
    let (_, gone) = partition_by_range(&live, viewpoint, data);
    remove_listed(controller, &gone);
    gone
}

/// Forget every materialised chunk, leaving the entities to the level's own
/// teardown.
pub fn delete_chunks(controller: &mut ChunkController)
    ensures
        final(controller)@ == Set::<ChunkPos>::empty(),
        final(controller).generation == stamped(
            old(controller).generation,
            old(controller)@,
            final(controller)@,
        ),
{
    let was_empty = controller.is_empty();
    set_clear(&mut controller.chunks);
    assert(controller@ =~= Set::<ChunkPos>::empty());
    if !was_empty {
        controller.bump();
    }
}

/// What one streamer pass changed: the chunks it spawned and the coordinates
/// it despawned. `tiles_missing` is set when spawning was skipped because the
/// terrain-mask sets are not all present.
pub struct StreamOutcome {
    pub spawned: Vec<Chunk>,
    pub despawned: Vec<ChunkPos>,
    pub tiles_missing: bool,
}

/// Remove every coordinate listed in `gone` from the controller.
fn remove_listed(controller: &mut ChunkController, gone: &Vec<ChunkPos>)
    requires
    ensures
        final(controller)@ == old(controller)@.difference(seq_set(gone@)),
        final(controller).generation == stamped(
            old(controller).generation,
            old(controller)@,
            final(controller)@,
        ),
{
    let ghost before = controller@;
    let ghost g = controller.generation;
    let mut removed_any = false;
    let mut i: usize = 0;
    while i < gone.len()
        invariant
            i <= gone.len(),
            controller.generation == g,
            controller@ == before.difference(seq_set(gone@.subrange(0, i as int))),
            removed_any == (controller@ != before),
        decreases gone.len() - i,
    {
        let c = gone[i];
        let ghost cs = controller@;
        let ghost pre = gone@.subrange(0, i as int);
        assert(gone@.subrange(0, i + 1) =~= pre.push(c));
        proof {
            lemma_seq_set_push(pre, c);
        }
        let was = set_remove(&mut controller.chunks, (c.x, c.y));
        assert(controller@ =~= cs.remove(c));
        if was {
            assert(cs.contains(c));
            assert(before.contains(c) && !controller@.contains(c));
            removed_any = true;
        } else {
            assert(!cs.contains(c));
            assert(controller@ =~= cs);
        }
        assert(controller@ =~= before.difference(seq_set(gone@.subrange(0, i + 1))));
        i += 1;
    }
    assert(gone@.subrange(0, gone.len() as int) =~= gone@);
    if removed_any {
        controller.bump();
    }
}

/// One streamer pass: spawn the missing chunks of the render window, then
/// despawn the chunks that were live before the pass and lie beyond
/// `DESPAWN_RANGE` of `viewpoint`. Chunks spawned in this pass are only looked
/// at by the next one.
pub fn stream_chunks(controller: &mut ChunkController, viewpoint: WorldPos, data: &TileData) -> (r:
    StreamOutcome)
    requires
        data.wf(),
    ensures
        final(controller)@ == stream_step(old(controller)@, viewpoint, *data),
        r.tiles_missing == !data.has_tiles(),
        seq_set(r.spawned@.map_values(|k: Chunk| k.pos)) == (if data.has_tiles() {
            window(viewpoint, *data).difference(old(controller)@)
        } else {
            Set::<ChunkPos>::empty()
        }),
        r.spawned@.map_values(|k: Chunk| k.pos).no_duplicates(),
        forall|i: int|
            0 <= i < r.spawned.len() ==> #[trigger] r.spawned@[i].built(
                r.spawned@[i].pos,
                *data,
                PLACEHOLDER_TEXTURE_INDEX,
            ),
        seq_set(r.despawned@) == far_chunks(old(controller)@, viewpoint, *data),
        r.despawned@.no_duplicates(),
        generation_tracks(
            old(controller).generation,
            final(controller).generation,
            old(controller)@,
            final(controller)@,
        ),
{
    let ghost s = controller@;
    let ghost g = controller.generation;
    let live = controller.positions();
    let (_, gone) = partition_by_range(&live, viewpoint, data);
    let spawned = spawn_chunks(controller, viewpoint, data);
    let ghost mid = controller@;
    let ghost g_mid = controller.generation;
    remove_listed(controller, &gone);
    let ghost far = far_chunks(s, viewpoint, *data);
    match spawned {
        Some(spawned) => {
            assert(controller@ =~= stream_step(s, viewpoint, *data));
            proof {
                if controller@ == s {
                    assert(mid =~= s) by {
                        assert forall|c: ChunkPos| mid.contains(c) implies s.contains(c) by {
                            if !s.contains(c) {
                                assert(!far.contains(c));
                                assert(controller@.contains(c));
                            }
                        }
                    }
                    assert(far =~= Set::<ChunkPos>::empty()) by {
                        assert forall|c: ChunkPos| far.contains(c) implies false by {
                            assert(!controller@.contains(c));
                        }
                    }
                } else {
                    if g_mid == g {
                        assert(mid == s);
                    }
                    assert(next_generation(next_generation(g)) != g);
                }
            }
            StreamOutcome { spawned, despawned: gone, tiles_missing: false }
        },
        None => {
            assert(controller@ =~= stream_step(s, viewpoint, *data));
            let empty: Vec<Chunk> = Vec::new();
            assert(seq_set(empty@.map_values(|k: Chunk| k.pos)) =~= Set::<ChunkPos>::empty());
            StreamOutcome { spawned: empty, despawned: gone, tiles_missing: true }
        },
    }
}

/// Repeating a streamer pass with an unchanged viewpoint changes nothing
/// more, provided every chunk of the render window lies within
/// `DESPAWN_RANGE` of the viewpoint: the second pass spawns nothing and
/// despawns nothing.
pub proof fn lemma_streaming_idempotent(s: Set<ChunkPos>, p: WorldPos, data: TileData)
    requires
        data.has_tiles() ==> forall|c: ChunkPos| #[trigger] in_window(c, p, data) ==> !beyond_range(c, p, data),
    ensures
        stream_step(stream_step(s, p, data), p, data) == stream_step(s, p, data),
        far_chunks(stream_step(s, p, data), p, data) == Set::<ChunkPos>::empty(),
        data.has_tiles() ==> window(p, data).difference(stream_step(s, p, data)) == Set::<
            ChunkPos,
        >::empty(),
{
    let s1 = stream_step(s, p, data);
    assert(far_chunks(s1, p, data) =~= Set::<ChunkPos>::empty());
    if data.has_tiles() {
        assert(window(p, data).difference(s1) =~= Set::<ChunkPos>::empty());
    }
    assert(stream_step(s1, p, data) =~= s1);
}

/// After one pass from a set with no chunk beyond range, the set is the old
/// set together with the whole render window; from a set inside the window
/// (an empty one, say) it is exactly the window.
pub proof fn lemma_window_coverage(s: Set<ChunkPos>, p: WorldPos, data: TileData)
    requires
        data.has_tiles(),
        far_chunks(s, p, data) == Set::<ChunkPos>::empty(),
    ensures
        stream_step(s, p, data) == s.union(window(p, data)),
        s.subset_of(window(p, data)) ==> stream_step(s, p, data) == window(p, data),
{
    assert forall|c: ChunkPos| s.contains(c) implies !beyond_range(c, p, data) by {
        assert(!far_chunks(s, p, data).contains(c));
    }
    assert(stream_step(s, p, data) =~= s.union(window(p, data)));
    if s.subset_of(window(p, data)) {
        assert(s.union(window(p, data)) =~= window(p, data));
    }
}

/// A chunk live before a pass is gone after it exactly when its origin lies
/// beyond `DESPAWN_RANGE` of the viewpoint; a chunk within range stays even
/// when it is outside the render window.
pub proof fn lemma_despawn_threshold(s: Set<ChunkPos>, p: WorldPos, data: TileData, c: ChunkPos)
    requires
        s.contains(c),
    ensures
        beyond_range(c, p, data) ==> !stream_step(s, p, data).contains(c),
        !beyond_range(c, p, data) ==> stream_step(s, p, data).contains(c),
{
}

} // verus!
