//! Prefetch settings and predictions.

use vstd::prelude::*;
use super::cache::utc_now_millis;

verus! {

/// Direction of playback for predictive prefetching.
#[derive(Debug, Clone, Copy, PartialEq, Eq)]
pub enum PlaybackDirection {
    /// Playing forward through time (next scans).
    Forward,
    /// Playing backward through time (previous scans).
    Backward,
    /// Not playing, no prefetch needed.
    Paused,
}

impl Default for PlaybackDirection {
    /// Playback starts paused.
    fn default() -> (d: Self)
        ensures
            d == PlaybackDirection::Paused,
    {
        PlaybackDirection::Paused
    }
}

/// Configuration of the prefetcher.
#[derive(Debug, Clone, Copy, PartialEq, Eq)]
pub struct PrefetchConfig {
    /// Number of scans to prefetch ahead or behind.
    pub prefetch_count: usize,
    /// Whether prefetching is enabled.
    pub enabled: bool,
}

impl Default for PrefetchConfig {
    fn default() -> (c: Self)
        ensures
            c == (PrefetchConfig { prefetch_count: 5, enabled: true }),
    {
        PrefetchConfig { prefetch_count: 5, enabled: true }
    }
}

/// State of playback, from which prefetching predicts what comes next.
#[derive(Debug, Clone, Copy, PartialEq, Eq)]
pub struct PlaybackState {
    /// Current scan index in the timeline.
    pub current_index: usize,
    /// Total number of available scans.
    pub total_scans: usize,
    /// Current playback direction.
    pub direction: PlaybackDirection,
    /// Playback speed in scans per second (the bits of an `f64`; 0 is paused).
    pub speed_bits: u64,
    /// Time of the last update, in milliseconds since the Unix epoch.
    pub last_update: i64,
}

impl Default for PlaybackState {
    /// At the first of no scans, paused, at speed 0, updated now.
    fn default() -> (s: Self)
        ensures
            s.current_index == 0,
            s.total_scans == 0,
            s.direction == PlaybackDirection::Paused,
            s.speed_bits == 0,
    {
        PlaybackState {
            current_index: 0,
            total_scans: 0,
            direction: PlaybackDirection::Paused,
            speed_bits: 0,
            last_update: utc_now_millis(),
        }
    }
}

/// A prediction of which scans should be prefetched.
#[derive(Debug, Clone)]
pub struct PrefetchPrediction {
    /// Cache keys that should be prefetched.
    pub keys: Vec<String>,
    /// Direction the prediction is for.
    pub direction: PlaybackDirection,
}

} // verus!
