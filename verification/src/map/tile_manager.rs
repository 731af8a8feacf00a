//! Loaded tiles, tile errors and the fetch policy of the tile manager.

use vstd::prelude::*;
use vstd::arithmetic::power2::pow2;
use crate::text::push_str;
use super::tile::TileCoordinate;

verus! {

/// Maximum cache size in bytes (500 MB).
pub const MAX_CACHE_SIZE_BYTES: u64 = 524_288_000;

/// Maximum number of concurrent tile fetch requests.
pub const MAX_CONCURRENT_REQUESTS: usize = 10;

/// Number of attempts for a tile fetch.
pub const MAX_RETRIES: usize = 3;

/// Base delay for exponential backoff between attempts, in milliseconds.
pub const RETRY_BASE_DELAY_MS: u64 = 100;

/// User-Agent header for tile requests.
pub const USER_AGENT: &'static str = "Tempest-NEXRAD/0.1.0";

/// Seconds since the Unix epoch by the system clock (0 if the clock is
/// before the epoch); nothing is claimed of the value.
#[verifier::external_body]
pub(crate) fn unix_time_secs() -> u64 {
    std::time::SystemTime::now()
        .duration_since(std::time::UNIX_EPOCH)
        .map(|d| d.as_secs())
        .unwrap_or(0)
}

/// Errors of tile operations.
#[derive(Debug, Clone)]
pub enum TileError {
    /// Network error.
    NetworkError(String),
    /// Cache error.
    CacheError(String),
    /// Image decode error.
    ImageDecodeError(String),
    /// Invalid tile.
    InvalidTileError(String),
}

/// How `Display` shows a tile error.
pub open spec fn tile_error_text(e: TileError) -> Seq<char> {
    match e {
        TileError::NetworkError(s) => "Network error: "@ + s@,
        TileError::CacheError(s) => "Cache error: "@ + s@,
        TileError::ImageDecodeError(s) => "Image decode error: "@ + s@,
        TileError::InvalidTileError(s) => "Invalid tile error: "@ + s@,
    }
}

impl TileError {
    /// What `Display` shows.
    pub fn message(&self) -> (s: String)
        ensures
            s@ == tile_error_text(*self),
    {
        let mut s = String::new();
        let (prefix, detail) = match self {
            TileError::NetworkError(d) => ("Network error: ", d),
            TileError::CacheError(d) => ("Cache error: ", d),
            TileError::ImageDecodeError(d) => ("Image decode error: ", d),
            TileError::InvalidTileError(d) => ("Invalid tile error: ", d),
        };
        push_str(&mut s, prefix);
        push_str(&mut s, detail.as_str());
        proof {
            let e: Seq<char> = Seq::empty();
            assert(e + tile_error_text(*self) == tile_error_text(*self));
        }
        s
    }
}

/// A loaded map tile with its RGBA pixels.
#[derive(Debug, Clone)]
pub struct Tile {
    /// Tile coordinate.
    pub coordinate: TileCoordinate,
    /// Raw RGBA image data.
    pub data: Vec<u8>,
    /// Image width in pixels.
    pub width: u32,
    /// Image height in pixels.
    pub height: u32,
    /// Load time, in seconds since the Unix epoch.
    pub timestamp: u64,
}

impl Tile {
    /// A tile of the given pixels, stamped with the current time.
    pub fn new(coordinate: TileCoordinate, data: Vec<u8>, width: u32, height: u32) -> (t: Self)
        ensures
            t.coordinate == coordinate,
            t.data@ == data@,
            t.width == width,
            t.height == height,
    {
        let timestamp = unix_time_secs();
        Tile { coordinate, data, width, height, timestamp }
    }

    /// The size of the tile's pixel data in bytes.
    pub fn size_bytes(&self) -> (n: u64)
        ensures
            n == self.data@.len(),
    {
        self.data.len() as u64
    }
}

/// The pause after failed attempt `attempt` (from 0) of a tile fetch:
/// `100 * 2^attempt` milliseconds, or none after the last attempt.
pub open spec fn tile_retry_pause(attempt: nat) -> Option<u64> {
    if attempt + 1 < MAX_RETRIES {
        Some((RETRY_BASE_DELAY_MS * pow2(attempt)) as u64)
    } else {
        None
    }
}

/// The pause, in milliseconds, after failed attempt `attempt` of a tile fetch.
pub fn tile_retry_delay_ms(attempt: usize) -> (d: Option<u64>)
    ensures
        d == tile_retry_pause(attempt as nat),
{
    if attempt < MAX_RETRIES - 1 {
        let p: u64 = if attempt == 0 { 1 } else { 2 };
        proof {
            vstd::arithmetic::power2::lemma2_to64();
        }
        Some(RETRY_BASE_DELAY_MS * p)
    } else {
        None
    }
}

/// The 8-bit RGBA pixels, width and height of a PNG image, or `None` when
/// the `image` crate does not read the bytes as a PNG.
pub uninterp spec fn png_rgba8(data: Seq<u8>) -> Option<(Seq<u8>, u32, u32)>;

/// `image::load_from_memory_with_format(data, ImageFormat::Png)` turned into
/// 8-bit RGBA: claims the result is the named decoding.
#[verifier::external_body]
fn png_to_rgba8(data: &[u8]) -> (r: Option<(Vec<u8>, u32, u32)>)
    ensures
        r is None ==> png_rgba8(data@) is None,
        r is Some ==> png_rgba8(data@) == Some(((r->0).0@, (r->0).1, (r->0).2)),
{
    let img = image::load_from_memory_with_format(data, image::ImageFormat::Png).ok()?.to_rgba8();
    let (w, h) = img.dimensions();
    Some((img.into_raw(), w, h))
}

/// Decodes the PNG bytes of `tile` into a tile of RGBA pixels; `None` when
/// the bytes are not a readable PNG.
pub fn decode_tile_data(tile: &TileCoordinate, data: &[u8]) -> (r: Option<Tile>)
    ensures
        match png_rgba8(data@) {
            None => r is None,
            Some(d) => r matches Some(t) && t.coordinate == *tile && t.data@ == d.0 && t.width == d.1
                && t.height == d.2,
        },
{
    match png_to_rgba8(data) {
        Some((pixels, width, height)) => Some(Tile::new(*tile, pixels, width, height)),
        None => None,
    }
}

} // verus!
