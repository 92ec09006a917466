//! Chunk coordinates, world positions and the conversions between them.
use vstd::prelude::*;

verus! {

/// Number of tiles along each axis of a chunk.
pub const CHUNK_SIZE: i32 = 16;

/// An integer 2-vector naming a chunk on the infinite chunk grid.
#[derive(Clone, Copy, Debug, PartialEq, Eq, Structural, Hash)]
pub struct ChunkPos {
    pub x: i32,
    pub y: i32,
}

/// A position in world units.
#[derive(Clone, Copy, Debug, PartialEq, Eq, Structural, Hash)]
pub struct WorldPos {
    pub x: i32,
    pub y: i32,
}

impl ChunkPos {
    pub fn new(x: i32, y: i32) -> (r: ChunkPos)
        ensures
            r.x == x,
            r.y == y,
    {
        ChunkPos { x, y }
    }
}

impl WorldPos {
    pub fn new(x: i32, y: i32) -> (r: WorldPos)
        ensures
            r.x == x,
            r.y == y,
    {
        WorldPos { x, y }
    }
}

/// World extent of one chunk along an axis whose tiles measure `tile`.
pub open spec fn chunk_extent(tile: int) -> int {
    CHUNK_SIZE as int * tile
}

/// The chunk index that contains world coordinate `p` (floor division).
pub open spec fn chunk_index(p: int, tile: int) -> int {
    p / chunk_extent(tile)
}

/// World coordinate of the origin of chunk index `c`.
pub open spec fn chunk_origin(c: int, tile: int) -> int {
    c * chunk_extent(tile)
}

/// Lexicographic order on chunk coordinates: by `x`, then by `y`.
pub open spec fn lex_le(a: ChunkPos, b: ChunkPos) -> bool {
    a.x < b.x || (a.x == b.x && a.y <= b.y)
}

/// World extent of one chunk along an axis whose tiles measure `tile` world
/// units.
pub fn chunk_extent_of(tile: u16) -> (r: i32)
    ensures
        r == chunk_extent(tile as int),
        0 <= r <= 0x10_0000,
{
    let t: i32 = tile as i32;
    t * CHUNK_SIZE
}

pub(crate) proof fn lemma_floor_div_bounds(p: int, s: int)
    requires
        s >= 1,
    ensures
        p >= 0 ==> 0 <= p / s <= p,
        p < 0 ==> p <= p / s < 0,
        s >= 16 && -0x8000_0000 <= p < 0x8000_0000 ==> -0x800_0000 <= p / s < 0x800_0000,
{
    let q = p / s;
    let r = p % s;
    assert(p == s * q + r && 0 <= r < s) by {
        vstd::arithmetic::div_mod::lemma_fundamental_div_mod(p, s);
    }
    if s >= 16 && -0x8000_0000 <= p < 0x8000_0000 {
        if q >= 0 {
            assert(q < 0x800_0000) by (nonlinear_arith)
                requires
                    p == s * q + r,
                    0 <= r,
                    s >= 16,
                    p < 0x8000_0000,
                    q >= 0,
            ;
        } else {
            assert(-0x800_0000 <= q) by (nonlinear_arith)
                requires
                    p == s * q + r,
                    r < s,
                    s >= 16,
                    -0x8000_0000 <= p,
                    q < 0,
            ;
        }
    }
    if p >= 0 {
        assert(0 <= q <= p) by (nonlinear_arith)
            requires
                p == s * q + r,
                0 <= r < s,
                s >= 1,
                p >= 0,
        ;
    } else {
        assert(p <= q < 0) by (nonlinear_arith)
            requires
                p == s * q + r,
                0 <= r < s,
                s >= 1,
                p < 0,
        ;
    }
}

/// The index of the chunk that holds world coordinate `p` along an axis whose
/// tiles measure `tile` world units.
pub fn chunk_index_of(p: i32, tile: u16) -> (r: i32)
    requires
        tile > 0,
    ensures
        r == chunk_index(p as int, tile as int),
        -0x800_0000 <= r < 0x800_0000,
{
    let extent: i32 = chunk_extent_of(tile);
    proof {
        lemma_floor_div_bounds(p as int, extent as int);
    }
    match p.checked_div_euclid(extent) {
        Some(q) => q,
        None => 0,
    }
}

/// World coordinate of the origin of chunk index `c` along an axis whose tiles
/// measure `tile` world units.
pub fn chunk_origin_of(c: i32, tile: u16) -> (r: i64)
    ensures
        r == chunk_origin(c as int, tile as int),
        -0x8_0000_0000_0000 <= r <= 0x8_0000_0000_0000,
{
    let extent: i64 = chunk_extent_of(tile) as i64;
    assert(-0x8000_0000 * 0x10_0000 <= c as int * extent <= 0x8000_0000 * 0x10_0000)
        by (nonlinear_arith)
        requires
            -0x8000_0000 <= c as int <= 0x8000_0000,
            0 <= extent <= 0x10_0000,
    ;
    c as i64 * extent
}

/// Taking the chunk index of a chunk's origin gives back that chunk.
pub proof fn lemma_chunk_index_of_origin(c: int, tile: int)
    requires
        tile > 0,
    ensures
        chunk_index(chunk_origin(c, tile), tile) == c,
{
    vstd::arithmetic::div_mod::lemma_div_multiples_vanish(c, chunk_extent(tile));
    assert(c * chunk_extent(tile) == chunk_extent(tile) * c) by (nonlinear_arith);
}

} // verus!
