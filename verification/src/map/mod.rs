//! Web Mercator map tiles and their disk-cache bookkeeping.

pub mod tile;
pub mod tile_cache;
pub mod tile_manager;
