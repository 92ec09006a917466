//! Per-level tile configuration.
use vstd::prelude::*;

verus! {

/// A set of tile coordinates, kept in the order in which it was written.
pub type TileCoords = Vec<(u32, u32)>;

/// The six terrain-mask sets, all present together.
pub struct TileSets {
    pub full_dirt: TileCoords,
    pub full_grass: TileCoords,
    pub corner_outer_grass_to_dirt: TileCoords,
    pub corner_outer_dirt_to_grass: TileCoords,
    pub side_dirt_and_grass: TileCoords,
    pub diag_stripe_grass_in_dirt: TileCoords,
}

/// Tile dimensions of one level kind, in whole world units, with the optional
/// terrain-mask sets used to choose tile visuals.
pub struct TileData {
    pub tile_width: u16,
    pub tile_height: u16,
    pub full_dirt_tiles: Option<TileCoords>,
    pub full_grass_tiles: Option<TileCoords>,
    pub corner_outer_grass_to_dirt_tiles: Option<TileCoords>,
    pub corner_outer_dirt_to_grass_tiles: Option<TileCoords>,
    pub side_dirt_and_grass_tiles: Option<TileCoords>,
    pub diag_stripe_grass_in_dirt_tiles: Option<TileCoords>,
}

/// Whether an optional set is present and, if so, equal to `s`.
pub open spec fn same_coords(o: Option<TileCoords>, s: TileCoords) -> bool {
    o is Some && o->0@ == s@
}

impl TileData {
    /// A configuration with the given tile size and no terrain-mask sets.
    pub fn new(tile_width: u16, tile_height: u16) -> (r: TileData)
        ensures
            r.tile_width == tile_width,
            r.tile_height == tile_height,
            !r.has_tiles(),
    {
        TileData {
            tile_width,
            tile_height,
            full_dirt_tiles: None,
            full_grass_tiles: None,
            corner_outer_grass_to_dirt_tiles: None,
            corner_outer_dirt_to_grass_tiles: None,
            side_dirt_and_grass_tiles: None,
            diag_stripe_grass_in_dirt_tiles: None,
        }
    }

    /// Tile sizes are positive.
    pub open spec fn wf(&self) -> bool {
        self.tile_width > 0 && self.tile_height > 0
    }

    /// All six terrain-mask sets are present.
    pub open spec fn has_tiles(&self) -> bool {
        &&& self.full_dirt_tiles is Some
        &&& self.full_grass_tiles is Some
        &&& self.corner_outer_grass_to_dirt_tiles is Some
        &&& self.corner_outer_dirt_to_grass_tiles is Some
        &&& self.side_dirt_and_grass_tiles is Some
        &&& self.diag_stripe_grass_in_dirt_tiles is Some
    }

    /// The six terrain-mask sets as a group, or `None` when any one is absent.
    pub fn get_tiles(&self) -> (r: Option<TileSets>)
        ensures
            r is Some <==> self.has_tiles(),
            r matches Some(t) ==> {
                &&& same_coords(self.full_dirt_tiles, t.full_dirt)
                &&& same_coords(self.full_grass_tiles, t.full_grass)
                &&& same_coords(self.corner_outer_grass_to_dirt_tiles, t.corner_outer_grass_to_dirt)
                &&& same_coords(self.corner_outer_dirt_to_grass_tiles, t.corner_outer_dirt_to_grass)
                &&& same_coords(self.side_dirt_and_grass_tiles, t.side_dirt_and_grass)
                &&& same_coords(self.diag_stripe_grass_in_dirt_tiles, t.diag_stripe_grass_in_dirt)
            },
    {
        let full_dirt = copy_present(&self.full_dirt_tiles)?;
        let full_grass = copy_present(&self.full_grass_tiles)?;
        let corner_outer_grass_to_dirt = copy_present(&self.corner_outer_grass_to_dirt_tiles)?;
        let corner_outer_dirt_to_grass = copy_present(&self.corner_outer_dirt_to_grass_tiles)?;
        let side_dirt_and_grass = copy_present(&self.side_dirt_and_grass_tiles)?;
        let diag_stripe_grass_in_dirt = copy_present(&self.diag_stripe_grass_in_dirt_tiles)?;
        Some(
            TileSets {
                full_dirt,
                full_grass,
                corner_outer_grass_to_dirt,
                corner_outer_dirt_to_grass,
                side_dirt_and_grass,
                diag_stripe_grass_in_dirt,
            },
        )
    }
}

/// A copy of the set held in `o`, if there is one.
fn copy_present(o: &Option<TileCoords>) -> (r: Option<TileCoords>)
    ensures
        r is Some <==> o is Some,
        r matches Some(s) ==> same_coords(*o, s),
{
    match o {
        Some(v) => Some(copy_coords(v)),
        None => None,
    }
}

fn copy_coords(v: &TileCoords) -> (r: TileCoords)
    ensures
        r@ == v@,
{
    let mut r: TileCoords = Vec::new();
    let mut i: usize = 0;
    while i < v.len()
        invariant
            i <= v.len(),
            r@ == v@.subrange(0, i as int),
        decreases v.len() - i,
    {
        r.push(v[i]);
        i += 1;
    }
    assert(r@ =~= v@);
    r
}

} // verus!
