//! Scan metadata and cache statistics.

use vstd::prelude::*;
use crate::text::push_str;

verus! {

/// Earliest scan time, the first second `chrono::DateTime<Utc>` holds:
/// -262143-01-01T00:00:00Z, in seconds since the Unix epoch.
pub const MIN_SCAN_TIMESTAMP: i64 = -8_334_601_315_200;

/// Latest scan time, the last second `chrono::DateTime<Utc>` holds:
/// +262142-12-31T23:59:59Z, in seconds since the Unix epoch.
pub const MAX_SCAN_TIMESTAMP: i64 = 8_210_266_876_799;

/// First second of a four-digit year: 0001-01-01T00:00:00Z.
pub const MIN_FOUR_DIGIT_YEAR_TIMESTAMP: i64 = -62_135_596_800;

/// Last second of a four-digit year: 9999-12-31T23:59:59Z.
pub const MAX_FOUR_DIGIT_YEAR_TIMESTAMP: i64 = 253_402_300_799;

/// `chrono::NaiveDate`, the date a listing was asked for; carried, never read.
#[verifier::external_type_specification]
#[verifier::external_body]
pub struct ExNaiveDate(chrono::NaiveDate);

/// The UTC calendar date of a Unix timestamp written `YYYYMMDD`.
pub uninterp spec fn utc_compact_date(ts: int) -> Seq<char>;

/// `chrono::DateTime::<Utc>::from_timestamp(ts, 0)` formatted with `%Y%m%d`
/// (defined on the whole range of `DateTime<Utc>`): claims the text is the
/// named date, eight characters long in years 1 to 9999 (years outside
/// 0-9999 take a sign).
#[verifier::external_body]
fn format_utc_compact_date(ts: i64) -> (r: String)
    requires
        MIN_SCAN_TIMESTAMP <= ts <= MAX_SCAN_TIMESTAMP,
    ensures
        r@ == utc_compact_date(ts as int),
        MIN_FOUR_DIGIT_YEAR_TIMESTAMP <= ts <= MAX_FOUR_DIGIT_YEAR_TIMESTAMP ==> r@.len() == 8,
{
    chrono::DateTime::from_timestamp(ts, 0).unwrap().format("%Y%m%d").to_string()
}

/// Metadata of a radar scan file.
#[derive(Debug)]
pub struct ScanMeta {
    /// Radar station identifier (such as `KATX`).
    pub station: String,
    /// Date of the scan, in seconds since the Unix epoch (UTC).
    pub date: i64,
    /// Filename of the scan data.
    pub filename: String,
    /// Size of the file in bytes.
    pub size: u64,
    /// Last modification time, in seconds since the Unix epoch (UTC).
    pub timestamp: i64,
}

/// The value of scan metadata.
pub struct ScanMetaView {
    pub station: Seq<char>,
    pub date: i64,
    pub filename: Seq<char>,
    pub size: u64,
    pub timestamp: i64,
}

impl View for ScanMeta {
    type V = ScanMetaView;

    open spec fn view(&self) -> ScanMetaView {
        ScanMetaView {
            station: self.station@,
            date: self.date,
            filename: self.filename@,
            size: self.size,
            timestamp: self.timestamp,
        }
    }
}

impl Clone for ScanMeta {
    fn clone(&self) -> (r: Self)
        ensures
            r@ == self@,
    {
        ScanMeta {
            station: self.station.clone(),
            date: self.date,
            filename: self.filename.clone(),
            size: self.size,
            timestamp: self.timestamp,
        }
    }
}

/// The cache key of a scan: station, date (`YYYYMMDD`) and filename joined by `_`.
pub open spec fn scan_cache_key(m: ScanMetaView) -> Seq<char> {
    m.station + "_"@ + utc_compact_date(m.date as int) + "_"@ + m.filename
}

impl ScanMeta {
    /// Creates scan metadata.
    pub fn new(station: &str, date: i64, filename: &str, size: u64, timestamp: i64) -> (m: Self)
        ensures
            m@ == (ScanMetaView { station: station@, date, filename: filename@, size, timestamp }),
    {
        ScanMeta {
            station: crate::text::owned(station),
            date,
            filename: crate::text::owned(filename),
            size,
            timestamp,
        }
    }

    /// The cache key of this scan.
    pub fn cache_key(&self) -> (k: String)
        requires
            MIN_SCAN_TIMESTAMP <= self.date <= MAX_SCAN_TIMESTAMP,
        ensures
            k@ == scan_cache_key(self@),
    {
        let mut k = self.station.clone();
        push_str(&mut k, "_");
        let date = format_utc_compact_date(self.date);
        push_str(&mut k, date.as_str());
        push_str(&mut k, "_");
        push_str(&mut k, self.filename.as_str());
        k
    }
}

/// Statistics about the cache.
#[derive(Debug, Clone, Copy, PartialEq, Eq)]
pub struct CacheStats {
    /// Total size of cached data in bytes.
    pub total_size: u64,
    /// Number of entries in the cache.
    pub entry_count: usize,
    /// Access time of the least recently used entry, in milliseconds since the Unix epoch.
    pub oldest: Option<i64>,
    /// Access time of the most recently used entry, in milliseconds since the Unix epoch.
    pub newest: Option<i64>,
}

impl Default for CacheStats {
    fn default() -> (s: Self)
        ensures
            s == (CacheStats { total_size: 0, entry_count: 0, oldest: None, newest: None }),
    {
        CacheStats { total_size: 0, entry_count: 0, oldest: None, newest: None }
    }
}

impl CacheStats {
    /// Empty statistics.
    pub fn new() -> (s: Self)
        ensures
            s == (CacheStats { total_size: 0, entry_count: 0, oldest: None, newest: None }),
    {
        Self::default()
    }

    /// Whether the cache holds no entry.
    pub fn is_empty(&self) -> (b: bool)
        ensures
            b == (self.entry_count == 0),
    {
        self.entry_count == 0
    }
}

} // verus!
