//! Web Mercator tile coordinates.
//!
//! Zoom levels are restricted to 4-15.

use vstd::prelude::*;
use vstd::arithmetic::power2::{lemma2_to64, pow2};
use crate::text::{decimal, push_decimal, push_str};

verus! {

/// Minimum zoom level supported by the tile system.
pub const MIN_ZOOM: u8 = 4;

/// Maximum zoom level supported by the tile system.
pub const MAX_ZOOM: u8 = 15;

/// Number of tiles across the world at each zoom level from `MIN_ZOOM` to `MAX_ZOOM`.
pub const TILES_PER_ZOOM: [u32; 12] = [16, 32, 64, 128, 256, 512, 1024, 2048, 4096, 8192, 16384, 32768];

/// A zoom level the tile system supports.
pub open spec fn valid_zoom(z: u8) -> bool {
    MIN_ZOOM <= z <= MAX_ZOOM
}

/// The number of tiles across the world at zoom `z` (`2^z`).
pub fn tiles_at_zoom(zoom: u8) -> (n: u32)
    requires
        valid_zoom(zoom),
    ensures
        n == pow2(zoom as nat),
{
    proof {
        lemma2_to64();
    }
    let mut n: u32 = 1;
    let mut i: u8 = 0;
    while i < zoom
        invariant
            i <= zoom <= 15,
            n == pow2(i as nat),
            pow2(15) == 32768,
        decreases zoom - i,
    {
        proof {
            vstd::arithmetic::power2::lemma_pow2_unfold((i + 1) as nat);
            lemma_pow2_le_32768(i as nat);
        }
        n = n * 2;
        i = i + 1;
    }
    n
}

proof fn lemma_pow2_le_32768(i: nat)
    requires
        i < 15,
    ensures
        pow2(i) < 32768,
{
    lemma2_to64();
    vstd::arithmetic::power2::lemma_pow2_strictly_increases(i, 15);
}

/// A tile of the Web Mercator grid: zoom `z`, column `x`, row `y` (row 0 northmost).
#[derive(Debug, Clone, Copy, PartialEq, Eq, Structural, Hash)]
pub struct TileCoordinate {
    /// Zoom level (4-15).
    pub z: u8,
    /// Tile column (0 to 2^z - 1).
    pub x: u32,
    /// Tile row (0 to 2^z - 1).
    pub y: u32,
}

/// A coordinate on the grid of its zoom level.
pub open spec fn valid_tile(t: TileCoordinate) -> bool {
    valid_zoom(t.z) && t.x < pow2(t.z as nat) && t.y < pow2(t.z as nat)
}

impl TileCoordinate {
    /// A tile coordinate; the zoom must be supported and `x`, `y` on its grid.
    pub fn new(z: u8, x: u32, y: u32) -> (t: Self)
        requires
            valid_zoom(z),
            x < pow2(z as nat),
            y < pow2(z as nat),
        ensures
            t == (TileCoordinate { z, x, y }),
            valid_tile(t),
    {
        TileCoordinate { z, x, y }
    }

    /// A tile coordinate taken as given.
    pub fn new_unchecked(z: u8, x: u32, y: u32) -> (t: Self)
        ensures
            t == (TileCoordinate { z, x, y }),
    {
        TileCoordinate { z, x, y }
    }

    /// The largest column at this zoom level.
    pub fn max_x(&self) -> (m: u32)
        requires
            valid_zoom(self.z),
        ensures
            m == pow2(self.z as nat) - 1,
    {
        proof {
            lemma_zoom_grid_bound(self.z);
        }
        tiles_at_zoom(self.z) - 1
    }

    /// The largest row at this zoom level.
    pub fn max_y(&self) -> (m: u32)
        requires
            valid_zoom(self.z),
        ensures
            m == pow2(self.z as nat) - 1,
    {
        proof {
            lemma_zoom_grid_bound(self.z);
        }
        tiles_at_zoom(self.z) - 1
    }
}

/// Tile providers for the base map.
#[derive(Debug, Clone, Copy, PartialEq, Eq)]
pub enum TileSource {
    /// OpenFreeMap.
    OpenFreeMap,
    /// OpenStreetMap.
    OpenStreetMap,
}

/// Base URL of a tile source.
pub open spec fn source_base_url(s: TileSource) -> Seq<char> {
    match s {
        TileSource::OpenFreeMap => "https://tiles.openfreemap.org"@,
        TileSource::OpenStreetMap => "https://tile.openstreetmap.org"@,
    }
}

/// Attribution text of a tile source.
pub open spec fn source_attribution(s: TileSource) -> Seq<char> {
    match s {
        TileSource::OpenFreeMap => "© OpenFreeMap contributors © OpenStreetMap contributors"@,
        TileSource::OpenStreetMap => "© OpenStreetMap contributors"@,
    }
}

impl TileSource {
    /// The base URL of this tile source.
    pub fn base_url(&self) -> (u: &'static str)
        ensures
            u@ == source_base_url(*self),
    {
        match self {
            TileSource::OpenFreeMap => "https://tiles.openfreemap.org",
            TileSource::OpenStreetMap => "https://tile.openstreetmap.org",
        }
    }

    /// The attribution text required by this tile source.
    pub fn attribution(&self) -> (a: &'static str)
        ensures
            a@ == source_attribution(*self),
    {
        match self {
            TileSource::OpenFreeMap => "© OpenFreeMap contributors © OpenStreetMap contributors",
            TileSource::OpenStreetMap => "© OpenStreetMap contributors",
        }
    }

    /// The maximum zoom level this source serves.
    pub fn max_zoom(&self) -> (z: u8)
        ensures
            z == 19,
    {
        match self {
            TileSource::OpenFreeMap => 19,
            TileSource::OpenStreetMap => 19,
        }
    }
}

/// The URL of a tile: `{base}/{z}/{x}/{y}.png`.
pub open spec fn tile_url(t: TileCoordinate, s: TileSource) -> Seq<char> {
    source_base_url(s) + "/"@ + decimal(t.z as nat) + "/"@ + decimal(t.x as nat) + "/"@
        + decimal(t.y as nat) + ".png"@
}

/// The URL for fetching `tile` from `source`.
pub fn tile_to_tile_url(tile: &TileCoordinate, source: &TileSource) -> (u: String)
    ensures
        u@ == tile_url(*tile, *source),
{
    let mut u = String::new();
    push_str(&mut u, source.base_url());
    push_str(&mut u, "/");
    push_decimal(&mut u, tile.z as u64);
    push_str(&mut u, "/");
    push_decimal(&mut u, tile.x as u64);
    push_str(&mut u, "/");
    push_decimal(&mut u, tile.y as u64);
    push_str(&mut u, ".png");
    proof {
        let e: Seq<char> = Seq::empty();
        assert(e + tile_url(*tile, *source) == tile_url(*tile, *source));
    }
    u
}

/// The tiles of the range `min_x..=max_x` by `min_y..=max_y` clamped to
/// the grid of zoom `z`, row by row from the north.
pub open spec fn tiles_in_clamped_range(z: u8, min_x: int, max_x: int, min_y: int, max_y: int) -> Seq<TileCoordinate> {
    let last = pow2(z as nat) - 1;
    let x0 = if min_x > 0 { min_x } else { 0 };
    let x1 = if max_x < last { max_x } else { last };
    let y0 = if min_y > 0 { min_y } else { 0 };
    let y1 = if max_y < last { max_y } else { last };
    let w = if x1 >= x0 { x1 - x0 + 1 } else { 0 };
    let h = if y1 >= y0 { y1 - y0 + 1 } else { 0 };
    Seq::new((w * h) as nat, |k: int| TileCoordinate { z, x: (x0 + k % w) as u32, y: (y0 + k / w) as u32 })
}

/// The tiles covering a span of tile indices, clamped to the grid (the
/// integer part of finding a viewport's visible tiles).
pub fn tiles_in_range(zoom: u8, min_x: i64, max_x: i64, min_y: i64, max_y: i64) -> (tiles: Vec<TileCoordinate>)
    requires
        valid_zoom(zoom),
    ensures
        tiles@ == tiles_in_clamped_range(zoom, min_x as int, max_x as int, min_y as int, max_y as int),
{
    let last = tiles_at_zoom(zoom) as i64 - 1;
    let x0 = if min_x > 0 { min_x } else { 0 };
    let x1 = if max_x < last { max_x } else { last };
    let y0 = if min_y > 0 { min_y } else { 0 };
    let y1 = if max_y < last { max_y } else { last };
    let ghost w: int = if x1 >= x0 { x1 - x0 + 1 } else { 0 };
    let ghost spec_tiles = tiles_in_clamped_range(zoom, min_x as int, max_x as int, min_y as int, max_y as int);
    proof {
        lemma2_to64();
        lemma_zoom_grid_bound(zoom);
    }
    let mut tiles: Vec<TileCoordinate> = Vec::new();
    if x1 < x0 || y1 < y0 {
        assert(tiles@ =~= spec_tiles);
        return tiles;
    }
    let mut y = y0;
    while y <= y1
        invariant
            x0 == (if min_x > 0 { min_x } else { 0 }),
            x1 == (if max_x < last { max_x } else { last }),
            y0 == (if min_y > 0 { min_y } else { 0 }),
            y1 == (if max_y < last { max_y } else { last }),
            last == pow2(zoom as nat) - 1,
            0 <= y0 <= y <= y1 + 1,
            y1 <= last,
            0 <= x0 <= x1 <= last,
            last == pow2(zoom as nat) - 1,
            last < 32768,
            w == x1 - x0 + 1,
            spec_tiles == tiles_in_clamped_range(zoom, min_x as int, max_x as int, min_y as int, max_y as int),
            tiles@ =~= spec_tiles.take((y - y0) * w),
            spec_tiles.len() == w * (y1 - y0 + 1),
        decreases y1 + 1 - y,
    {
        let mut x = x0;
        while x <= x1
            invariant
                x0 == (if min_x > 0 { min_x } else { 0 }),
                x1 == (if max_x < last { max_x } else { last }),
                y0 == (if min_y > 0 { min_y } else { 0 }),
                y1 == (if max_y < last { max_y } else { last }),
                last == pow2(zoom as nat) - 1,
                0 <= x0 <= x <= x1 + 1,
                x1 <= last < 32768,
                0 <= y0 <= y <= y1,
                w == x1 - x0 + 1,
                spec_tiles == tiles_in_clamped_range(zoom, min_x as int, max_x as int, min_y as int, max_y as int),
                spec_tiles.len() == w * (y1 - y0 + 1),
                tiles@ =~= spec_tiles.take((y - y0) * w + (x - x0)),
            decreases x1 + 1 - x,
        {
            let ghost k = (y - y0) * w + (x - x0);
            proof {
                assert(0 <= k < w * (y1 - y0 + 1)) by (nonlinear_arith)
                    requires
                        k == (y - y0) * w + (x - x0),
                        0 <= x - x0 < w,
                        0 <= y - y0 <= y1 - y0;
                assert(k % w == x - x0 && k / w == y - y0) by (nonlinear_arith)
                    requires
                        k == (y - y0) * w + (x - x0),
                        0 <= x - x0 < w,
                        0 <= y - y0;
            }
            tiles.push(TileCoordinate::new_unchecked(zoom, x as u32, y as u32));
            assert(spec_tiles[k] == TileCoordinate { z: zoom, x: x as u32, y: y as u32 });
            assert(tiles@ =~= spec_tiles.take(k + 1));
            x = x + 1;
        }
        proof {
            assert((y - y0) * w + (x - x0) == (y + 1 - y0) * w) by (nonlinear_arith)
                requires
                    x - x0 == w;
        }
        y = y + 1;
    }
    proof {
        assert((y - y0) * w == spec_tiles.len()) by (nonlinear_arith)
            requires
                y == y1 + 1,
                spec_tiles.len() == w * (y1 - y0 + 1);
    }
    assert(tiles@ =~= spec_tiles);
    tiles
}

proof fn lemma_zoom_grid_bound(z: u8)
    requires
        valid_zoom(z),
    ensures
        1 <= pow2(z as nat) <= 32768,
{
    lemma2_to64();
    if z < 15 {
        lemma_pow2_le_32768(z as nat);
    }
    vstd::arithmetic::power2::lemma_pow2_pos(z as nat);
}

} // verus!
