use std::collections::HashSet;

use tempest::map::tile::{tile_to_tile_url, tiles_at_zoom, tiles_in_range, TileCoordinate, TileSource, MAX_ZOOM, MIN_ZOOM};
use tempest::map::tile_cache::TileCache;
use tempest::map::tile_manager::{
    decode_tile_data, tile_retry_delay_ms, Tile, TileError, MAX_CACHE_SIZE_BYTES, MAX_CONCURRENT_REQUESTS,
    MAX_RETRIES, USER_AGENT,
};

#[test]
fn test_tile_count_at_zoom() {
    assert_eq!(tiles_at_zoom(4), 16);
    assert_eq!(tiles_at_zoom(8), 256);
    assert_eq!(tiles_at_zoom(15), 32768);
}

#[test]
fn tile_count_at_zoom_bounds() {
    assert_eq!(MIN_ZOOM, 4);
    assert_eq!(MAX_ZOOM, 15);
    assert_eq!(tiles_at_zoom(MIN_ZOOM), 16);
}

#[test]
fn test_tile_coordinate_creation() {
    let tile = TileCoordinate::new(10, 100, 200);
    assert_eq!(tile.z, 10);
    assert_eq!(tile.x, 100);
    assert_eq!(tile.y, 200);
    assert_eq!(tile.max_x(), 1023);
    assert_eq!(tile.max_y(), 1023);
}

#[test]
fn test_tile_source_urls() {
    let tile = TileCoordinate::new_unchecked(10, 512, 340);
    let url = tile_to_tile_url(&tile, &TileSource::OpenFreeMap);
    assert!(url.contains("tiles.openfreemap.org"));
    assert!(url.contains("/10/512/340.png"));
    let url = tile_to_tile_url(&tile, &TileSource::OpenStreetMap);
    assert!(url.contains("tile.openstreetmap.org"));
    assert!(url.contains("/10/512/340.png"));
}

#[test]
fn test_url_generation() {
    let tile = TileCoordinate::new(5, 10, 20);
    let url = tile_to_tile_url(&tile, &TileSource::OpenFreeMap);
    assert_eq!(url, "https://tiles.openfreemap.org/5/10/20.png");
    let url = tile_to_tile_url(&tile, &TileSource::OpenStreetMap);
    assert_eq!(url, "https://tile.openstreetmap.org/5/10/20.png");
}

#[test]
fn tile_source_details() {
    assert_eq!(TileSource::OpenFreeMap.base_url(), "https://tiles.openfreemap.org");
    assert_eq!(TileSource::OpenStreetMap.base_url(), "https://tile.openstreetmap.org");
    assert!(TileSource::OpenStreetMap.attribution().contains("OpenStreetMap"));
}

#[test]
fn visible_tile_span_is_clamped() {
    let tiles = tiles_in_range(4, -2, 1, 14, 20);
    let coords: Vec<(u32, u32)> = tiles.iter().map(|t| (t.x, t.y)).collect();
    assert_eq!(coords, vec![(0, 14), (1, 14), (0, 15), (1, 15)]);
    assert!(tiles_in_range(4, 5, 3, 0, 0).is_empty());
}

#[test]
fn test_tile_error_display() {
    let err = TileError::NetworkError("connection failed".to_string());
    assert_eq!(err.message(), "Network error: connection failed");
    let err = TileError::CacheError("permission denied".to_string());
    assert_eq!(err.message(), "Cache error: permission denied");
    let err = TileError::ImageDecodeError("invalid PNG".to_string());
    assert_eq!(err.message(), "Image decode error: invalid PNG");
    let err = TileError::InvalidTileError("invalid coordinates".to_string());
    assert_eq!(err.message(), "Invalid tile error: invalid coordinates");
}

#[test]
fn test_tile_creation() {
    let coord = TileCoordinate::new(10, 100, 200);
    let data = vec![0u8; 256 * 256 * 4];
    let tile = Tile::new(coord, data.clone(), 256, 256);
    assert_eq!(tile.coordinate.z, 10);
    assert_eq!(tile.coordinate.x, 100);
    assert_eq!(tile.coordinate.y, 200);
    assert_eq!(tile.width, 256);
    assert_eq!(tile.height, 256);
    assert_eq!(tile.size_bytes() as usize, 256 * 256 * 4);
}

#[test]
fn test_tile_size_bytes() {
    let coord = TileCoordinate::new(5, 1, 2);
    let data = vec![0u8; 1024];
    let tile = Tile::new(coord, data, 32, 32);
    assert_eq!(tile.size_bytes(), 1024);
}

#[test]
fn test_tile_source_dir() {
    let cache = TileCache::new("/tmp/t/cache".to_string(), None);
    let ofm_dir = cache.source_dir(&TileSource::OpenFreeMap);
    assert!(ofm_dir.ends_with("openfreemap"));
    assert_eq!(ofm_dir, "/tmp/t/cache/tiles/openfreemap");
    let osm_dir = cache.source_dir(&TileSource::OpenStreetMap);
    assert!(osm_dir.ends_with("openstreetmap"));
}

#[test]
fn test_tile_path_generation() {
    let cache = TileCache::new("/tmp/t/cache".to_string(), None);
    let source = TileSource::OpenFreeMap;
    let tile = TileCoordinate::new(10, 123, 456);
    let path = cache.tile_path(&tile, &source);
    let expected = "10/123/456.png".to_string();
    assert!(path.ends_with(&expected));
    assert_eq!(path, "/tmp/t/cache/tiles/openfreemap/10/123/456.png");
}

#[test]
fn test_tile_coordinate_in_cache_key() {
    let mut set = HashSet::new();
    let tile1 = TileCoordinate::new(5, 1, 2);
    let tile2 = TileCoordinate::new(5, 1, 2);
    let tile3 = TileCoordinate::new(5, 1, 3);
    set.insert(tile1);
    assert!(set.contains(&tile2));
    assert!(!set.contains(&tile3));
}

#[test]
fn test_max_retries_constant() {
    assert_eq!(MAX_RETRIES, 3);
}

#[test]
fn test_max_concurrent_requests_constant() {
    assert_eq!(MAX_CONCURRENT_REQUESTS, 10);
}

#[test]
fn test_user_agent() {
    assert_eq!(USER_AGENT, "Tempest-NEXRAD/0.1.0");
}

#[test]
fn test_cache_size_limit() {
    assert_eq!(MAX_CACHE_SIZE_BYTES, 500 * 1024 * 1024);
}

#[test]
fn tile_retry_delays() {
    assert_eq!(tile_retry_delay_ms(0), Some(100));
    assert_eq!(tile_retry_delay_ms(1), Some(200));
    assert_eq!(tile_retry_delay_ms(2), None);
}

#[test]
fn tile_cache_empty_initialization() {
    let cache = TileCache::new("/tmp/tiles".to_string(), None);
    assert!(cache.is_empty());
    assert_eq!(cache.len(), 0);
    assert_eq!(cache.size(), 0);
}

#[test]
fn tile_cache_evicts_least_recently_used() {
    let mut cache = TileCache::new("/tmp/tiles".to_string(), Some(100));
    for i in 0..5u32 {
        let tile = TileCoordinate::new(10, i, 0);
        let evicted = cache.put_at(&tile, 30, i as u64);
        if i < 3 {
            assert!(evicted.is_empty());
        } else {
            assert_eq!(evicted, vec![TileCoordinate::new(10, i - 3, 0)]);
        }
    }
    assert!(cache.len() <= 4);
    assert!(cache.size() <= 100);
    // A use at a later time protects a tile.
    assert!(cache.touch_at(&TileCoordinate::new(10, 2, 0), 100));
    let evicted = cache.put_at(&TileCoordinate::new(10, 9, 0), 30, 101);
    assert_eq!(evicted, vec![TileCoordinate::new(10, 3, 0)]);
    // Replacing a tile adjusts the total size.
    let before = cache.size();
    cache.put_at(&TileCoordinate::new(10, 9, 0), 10, 102);
    assert_eq!(cache.size(), before - 20);
}

fn png_bytes(w: u32, h: u32) -> Vec<u8> {
    let img = image::RgbaImage::from_fn(w, h, |x, y| image::Rgba([x as u8, y as u8, 7, 255]));
    let mut out = std::io::Cursor::new(Vec::new());
    img.write_to(&mut out, image::ImageFormat::Png).unwrap();
    out.into_inner()
}

#[test]
fn decode_tile_png() {
    let coord = TileCoordinate::new(4, 1, 1);
    let tile = decode_tile_data(&coord, &png_bytes(3, 2)).unwrap();
    assert_eq!(tile.coordinate, coord);
    assert_eq!((tile.width, tile.height), (3, 2));
    assert_eq!(tile.data.len(), 3 * 2 * 4);
    assert_eq!(&tile.data[4..8], &[1, 0, 7, 255]);
    assert!(decode_tile_data(&coord, b"not a png").is_none());
}

#[test]
fn tile_cache_keeps_within_its_limit() {
    let mut cache = TileCache::new("/tmp/tiles".to_string(), Some(100));
    for i in 0..5u32 {
        cache.put_at(&TileCoordinate::new(10, i, 0), 30, i as u64);
        assert!(cache.size() <= 100);
    }
    assert_eq!(cache.len(), 3);
    assert_eq!(cache.size(), 90);
    cache.put_at(&TileCoordinate::new(10, 7, 0), 150, 9);
    assert_eq!(cache.len(), 0);
    assert_eq!(cache.size(), 0);
}
