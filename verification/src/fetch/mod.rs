//! Fetching NEXRAD scans: listings, retries, polling and cache bookkeeping.

pub mod cache;
pub mod decompress;
pub mod error;
pub mod filename;
pub mod listing;
pub mod poll;
pub mod prefetch;
pub mod retry;
pub mod s3;
pub mod station;
pub mod types;
