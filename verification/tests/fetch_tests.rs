use std::io::Write;

use chrono::{TimeZone, Timelike, Utc};
use tempest::fetch::cache::{cache_file_name, Cache, CacheConfig};
use tempest::fetch::decompress::{decompress_bz2, decompress_gzip};
use tempest::fetch::error::{FetchError, RetryableError};
use tempest::fetch::filename::parse_scan_filename;
use tempest::fetch::listing::{parse_list_objects_response, parse_list_objects_response_via_keys};
use tempest::fetch::poll::{take_unseen, PollConfig, SeenScans};
use tempest::fetch::prefetch::{PlaybackDirection, PlaybackState, PrefetchConfig, PrefetchPrediction};
use tempest::fetch::retry::{after_failure, backoff_delay_ms, RetryConfig, RetryStep};
use tempest::fetch::s3::{
    classify_request_failure, list_scans_url, no_scans_message, reply_status_error, scan_data_url,
    scan_not_found_message, NOAA_NEXRAD_BUCKET,
};
use tempest::fetch::station::{sort_texts, Station, StationRegistry};
use tempest::text::text_le_exec;
use tempest::fetch::types::{CacheStats, ScanMeta};

fn date() -> chrono::NaiveDate {
    chrono::NaiveDate::from_ymd_opt(2024, 3, 15).unwrap()
}

fn ts(y: i32, mo: u32, d: u32, h: u32, mi: u32, s: u32) -> i64 {
    Utc.with_ymd_and_hms(y, mo, d, h, mi, s).unwrap().timestamp()
}

// ----------------------------------------------------------------- poll

#[test]
fn test_poll_config_default() {
    let config = PollConfig::default();
    assert_eq!(config.poll_interval_secs, 60);
    assert_eq!(config.max_retries, 3);
}

#[test]
fn test_seen_scans_tracking() {
    let mut seen = SeenScans::new();
    assert!(!seen.is_seen("scan1"));
    seen.mark_seen("scan1".to_string());
    assert!(seen.is_seen("scan1"));
    assert!(!seen.is_seen("scan2"));
}

#[test]
fn test_poll_config_custom() {
    let config = PollConfig { poll_interval_secs: 30, max_retries: 5 };
    assert_eq!(config.poll_interval_secs, 30);
    assert_eq!(config.max_retries, 5);
}

#[test]
fn test_seen_scans_default() {
    let seen = SeenScans::default();
    assert!(!seen.is_seen("anything"));
}

#[test]
fn take_unseen_reports_each_scan_once() {
    let mut seen = SeenScans::new();
    let t = ts(2024, 3, 15, 12, 0, 21);
    let first = vec![
        ScanMeta::new("KTLX", t, "KTLX20240315_120021", 0, t),
        ScanMeta::new("KTLX", t, "KTLX20240315_120521", 0, t),
    ];
    let fresh = take_unseen(&mut seen, first);
    assert_eq!(fresh.len(), 2);
    let second = vec![
        ScanMeta::new("KTLX", t, "KTLX20240315_120521", 0, t),
        ScanMeta::new("KTLX", t, "KTLX20240315_121021", 0, t),
    ];
    let fresh = take_unseen(&mut seen, second);
    assert_eq!(fresh.len(), 1);
    assert_eq!(fresh[0].filename, "KTLX20240315_121021");
    assert!(seen.is_seen("KTLX20240315_120021"));
}

// ----------------------------------------------------------------- prefetch

#[test]
fn test_playback_direction_default() {
    let direction = PlaybackDirection::default();
    assert_eq!(direction, PlaybackDirection::Paused);
}

#[test]
fn test_prefetch_config_default() {
    let config = PrefetchConfig::default();
    assert_eq!(config.prefetch_count, 5);
    assert!(config.enabled);
}

#[test]
fn test_prefetch_prediction() {
    let prediction = PrefetchPrediction {
        keys: vec!["key1".to_string(), "key2".to_string()],
        direction: PlaybackDirection::Forward,
    };
    assert_eq!(prediction.keys.len(), 2);
    assert_eq!(prediction.direction, PlaybackDirection::Forward);
}

// ----------------------------------------------------------------- retry

#[test]
fn test_retryable_error_network() {
    let error = FetchError::Network("connection refused".to_string());
    assert!(error.is_retryable());
}

#[test]
fn test_retryable_error_timeout() {
    let error = FetchError::Timeout("request timed out".to_string());
    assert!(error.is_retryable());
}

#[test]
fn test_retryable_error_rate_limited() {
    let error = FetchError::TooManyRequests("rate limited".to_string());
    assert!(error.is_retryable());
}

#[test]
fn test_retryable_error_not_found() {
    let error = FetchError::S3NotFound("not found".to_string());
    assert!(!error.is_retryable());
}

#[test]
fn test_retryable_error_cache_io() {
    let error = FetchError::CacheIo("disk full".to_string());
    assert!(!error.is_retryable());
}

#[test]
fn test_retryable_error_internal() {
    let error = FetchError::Internal("bug".to_string());
    assert!(!error.is_retryable());
}

#[test]
fn retry_steps_follow_backoff() {
    let config = RetryConfig::default();
    assert_eq!(after_failure(&config, 0, true), RetryStep::WaitMs(1000));
    assert_eq!(after_failure(&config, 1, true), RetryStep::WaitMs(2000));
    assert_eq!(after_failure(&config, 2, true), RetryStep::GiveUp);
    assert_eq!(after_failure(&config, 0, false), RetryStep::GiveUp);
    let capped = RetryConfig { max_retries: 10, base_delay_ms: 1000, max_delay_ms: 5000 };
    assert_eq!(backoff_delay_ms(&capped, 2), 4000);
    assert_eq!(backoff_delay_ms(&capped, 3), 5000);
    assert_eq!(backoff_delay_ms(&capped, 8), 5000);
}

#[test]
fn retry_backoff_keeps_milliseconds() {
    let config = RetryConfig { max_retries: 3, base_delay_ms: 10, max_delay_ms: 100 };
    assert_eq!(after_failure(&config, 0, true), RetryStep::WaitMs(10));
    assert_eq!(after_failure(&config, 1, true), RetryStep::WaitMs(20));
    assert_eq!(after_failure(&config, 2, true), RetryStep::GiveUp);
    let fractional = RetryConfig { max_retries: 5, base_delay_ms: 1500, max_delay_ms: 30_000 };
    assert_eq!(backoff_delay_ms(&fractional, 0), 1500);
    assert_eq!(backoff_delay_ms(&fractional, 1), 3000);
    assert_eq!(backoff_delay_ms(&fractional, 2), 6000);
    let capped = RetryConfig { max_retries: 10, base_delay_ms: 10, max_delay_ms: 100 };
    assert_eq!(backoff_delay_ms(&capped, 4), 100);
}

#[test]
fn fetch_error_messages() {
    assert_eq!(FetchError::io("disk").message(), "I/O error: disk");
    assert_eq!(FetchError::s3_not_found("gone").message(), "S3 not found: gone");
    assert_eq!(FetchError::cache("full").message(), "Cache error: full");
    assert_eq!(FetchError::http("500").message(), "HTTP error: 500");
}

// ----------------------------------------------------------------- types

#[test]
fn test_scan_meta_cache_key() {
    let date = ts(2024, 3, 15, 12, 0, 0);
    let timestamp = ts(2024, 3, 15, 12, 30, 0);
    let meta = ScanMeta::new("KATX", date, "KATX20240315_120021", 1024, timestamp);
    assert_eq!(meta.cache_key(), "KATX_20240315_KATX20240315_120021");
}

#[test]
fn cache_key_uses_the_utc_date() {
    let date = ts(1999, 12, 31, 23, 59, 59);
    let meta = ScanMeta::new("KTLX", date, "f", 0, date);
    assert_eq!(meta.cache_key(), "KTLX_19991231_f");
}

#[test]
fn test_cache_stats_default() {
    let stats = CacheStats::default();
    assert!(stats.is_empty());
    assert_eq!(stats.total_size, 0);
    assert_eq!(stats.entry_count, 0);
}

// ----------------------------------------------------------------- decompress

#[test]
fn test_decompress_bz2_valid_data() {
    let original = b"NEXRAD Level II Data - Test message for decompression";
    let mut encoder = bzip2::write::BzEncoder::new(Vec::new(), bzip2::Compression::default());
    encoder.write_all(original).unwrap();
    let compressed = encoder.finish().unwrap();
    let decompressed = decompress_bz2(&compressed).unwrap();
    assert_eq!(decompressed, original);
}

#[test]
fn test_decompress_bz2_empty_data() {
    let original = b"";
    let mut encoder = bzip2::write::BzEncoder::new(Vec::new(), bzip2::Compression::default());
    encoder.write_all(original).unwrap();
    let compressed = encoder.finish().unwrap();
    let decompressed = decompress_bz2(&compressed).unwrap();
    assert_eq!(decompressed, original);
}

#[test]
fn test_decompress_bz2_invalid_data() {
    let invalid_data = b"This is not valid bzip2 data!!!";
    let result = decompress_bz2(invalid_data);
    assert!(result.is_err());
    let message = result.unwrap_err().message();
    assert!(message.starts_with("I/O error: bzip2 decompression failed: "));
}

#[test]
fn test_decompress_bz2_short_data() {
    let short_data = b"ab";
    let result = decompress_bz2(short_data);
    assert!(result.is_err());
}

#[test]
fn test_decompress_bz2_binary_data() {
    let original: Vec<u8> = (0..255).cycle().take(10000).collect();
    let mut encoder = bzip2::write::BzEncoder::new(Vec::new(), bzip2::Compression::default());
    encoder.write_all(&original).unwrap();
    let compressed = encoder.finish().unwrap();
    let decompressed = decompress_bz2(&compressed).unwrap();
    assert_eq!(decompressed, original);
}

#[test]
fn test_decompress_gzip_valid_data() {
    let original = b"NEXRAD Level II Data - Test message for gzip decompression";
    let mut encoder = flate2::write::GzEncoder::new(Vec::new(), flate2::Compression::default());
    encoder.write_all(original).unwrap();
    let compressed = encoder.finish().unwrap();
    let decompressed = decompress_gzip(&compressed).unwrap();
    assert_eq!(decompressed, original);
}

#[test]
fn test_decompress_gzip_empty_data() {
    let original = b"";
    let mut encoder = flate2::write::GzEncoder::new(Vec::new(), flate2::Compression::default());
    encoder.write_all(original).unwrap();
    let compressed = encoder.finish().unwrap();
    let decompressed = decompress_gzip(&compressed).unwrap();
    assert_eq!(decompressed, original);
}

#[test]
fn test_decompress_gzip_invalid_data() {
    let invalid_data = b"This is not valid gzip data!!!";
    let result = decompress_gzip(invalid_data);
    assert!(result.is_err());
    let message = result.unwrap_err().message();
    assert!(message.starts_with("I/O error: gzip decompression failed: "));
}

#[test]
fn test_decompress_gzip_short_data() {
    let short_data = b"ab";
    let result = decompress_gzip(short_data);
    assert!(result.is_err());
}

#[test]
fn test_decompress_gzip_binary_data() {
    let original: Vec<u8> = (0..255).cycle().take(10000).collect();
    let mut encoder = flate2::write::GzEncoder::new(Vec::new(), flate2::Compression::default());
    encoder.write_all(&original).unwrap();
    let compressed = encoder.finish().unwrap();
    let decompressed = decompress_gzip(&compressed).unwrap();
    assert_eq!(decompressed, original);
}

// ----------------------------------------------------------------- filenames and listings

#[test]
fn test_parse_scan_filename_valid() {
    let result = parse_scan_filename("KTLX", date(), "KTLX20240315_120021");
    assert!(result.is_some());
    let scan = result.unwrap();
    assert_eq!(scan.station, "KTLX");
    assert_eq!(scan.filename, "KTLX20240315_120021");
    let when = chrono::DateTime::from_timestamp(scan.date, 0).unwrap();
    assert_eq!(when.hour(), 12);
    assert_eq!(when.minute(), 0);
    assert_eq!(when.second(), 21);
}

#[test]
fn test_parse_scan_filename_lowercase() {
    let result = parse_scan_filename("ktlx", date(), "KTLX20240315_120021");
    assert!(result.is_some());
    let scan = result.unwrap();
    assert_eq!(scan.station, "KTLX");
}

#[test]
fn test_parse_scan_filename_wrong_station() {
    let result = parse_scan_filename("KTLX", date(), "KATX20240315_120021");
    assert!(result.is_none());
}

#[test]
fn test_parse_scan_filename_invalid() {
    let result = parse_scan_filename("KTLX", date(), "invalid");
    assert!(result.is_none());
}

#[test]
fn parse_scan_filename_exact_fields() {
    let scan = parse_scan_filename("KTLX", date(), "KTLX20240315_120021_V06").unwrap();
    assert_eq!(scan.date, ts(2024, 3, 15, 12, 0, 21));
    assert_eq!(scan.timestamp, scan.date);
    assert_eq!(scan.size, 0);
    assert_eq!(scan.filename, "KTLX20240315_120021_V06");
    // An impossible calendar date names no scan.
    assert!(parse_scan_filename("KTLX", date(), "KTLX20240230_120021").is_none());
    // Non-digit fields name no scan.
    assert!(parse_scan_filename("KTLX", date(), "KTLX2024XX15_120021").is_none());
    // Too short after the station.
    assert!(parse_scan_filename("KTLX", date(), "KTLX20240315_1200").is_none());
}

fn listing(prefixes: &[&str]) -> String {
    let mut xml = String::from("<?xml version=\"1.0\" encoding=\"UTF-8\"?>\n<ListBucketResult>\n");
    for p in prefixes {
        xml.push_str(&format!("  <CommonPrefixes>\n    <Prefix>{}</Prefix>\n  </CommonPrefixes>\n", p));
    }
    xml.push_str("</ListBucketResult>");
    xml
}

#[test]
fn listing_reads_common_prefixes() {
    let xml = listing(&["/2024/3/15/KTLX/KTLX20240315_120021", "/2024/3/15/KTLX/KTLX20240315_120521"]);
    let scans = parse_list_objects_response(&xml, "KTLX", date()).unwrap();
    assert_eq!(scans.len(), 2);
    assert_eq!(scans[0].filename, "KTLX20240315_120021");
    assert_eq!(scans[1].filename, "KTLX20240315_120521");
    assert_eq!(scans[0].station, "KTLX");
    assert_eq!(scans[1].date, ts(2024, 3, 15, 12, 5, 21));
}

#[test]
fn listing_skips_unreadable_names() {
    let xml = listing(&["/2024/3/15/KTLX/", "/2024/3/15/KTLX/KTLX20240315_120021", "/x/KICT20240315_110000"]);
    let scans = parse_list_objects_response(&xml, "ktlx", date()).unwrap();
    assert_eq!(scans.len(), 1);
    assert_eq!(scans[0].filename, "KTLX20240315_120021");
}

#[test]
fn listing_falls_back_to_keys() {
    let xml = "<ListBucketResult><Contents><Key>2024/03/15/KTLX/KTLX20240315_120021_V06</Key></Contents>\
               <Contents><Key>2024/03/15/KTLX/NOP3_20240315</Key></Contents>\
               <Contents><Key>2024/03/15/KTLX/KTLX20240315_121021_V06</Key></Contents></ListBucketResult>";
    let scans = parse_list_objects_response(xml, "KTLX", date()).unwrap();
    assert_eq!(scans.len(), 2);
    assert_eq!(scans[0].filename, "KTLX20240315_120021_V06");
    assert_eq!(scans[1].filename, "KTLX20240315_121021_V06");
    let via_keys = parse_list_objects_response_via_keys(xml, "KTLX", date()).unwrap();
    assert_eq!(via_keys.len(), 2);
}

#[test]
fn empty_listing_has_no_scans() {
    let scans = parse_list_objects_response("<ListBucketResult></ListBucketResult>", "KTLX", date()).unwrap();
    assert!(scans.is_empty());
}

// ----------------------------------------------------------------- S3 addresses and replies

#[test]
fn list_url_of_a_station_day() {
    let url = list_scans_url(NOAA_NEXRAD_BUCKET, "ktlx", 2024, 3, 5);
    assert_eq!(
        url,
        "https://noaa-nexrad-level2.s3.amazonaws.com/2024/03/05/KTLX?list-type=2&delimiter=/"
    );
}

#[test]
fn scan_url_of_a_scan() {
    let t = ts(2024, 3, 15, 12, 0, 21);
    let scan = ScanMeta::new("KTLX", t, "KTLX20240315_120021", 0, t);
    let url = scan_data_url("http://127.0.0.1:1234", "KTLX", &scan);
    assert_eq!(url, "http://127.0.0.1:1234/2024/03/15/KTLX/KTLX20240315_120021");
}

#[test]
fn reply_statuses() {
    assert!(reply_status_error(200, "200 OK", "u", "nf").is_none());
    match reply_status_error(404, "404 Not Found", "u", "Scan not found: f") {
        Some(FetchError::S3NotFound(m)) => assert_eq!(m, "Scan not found: f"),
        other => panic!("unexpected {:?}", other),
    }
    match reply_status_error(503, "503 Service Unavailable", "http://x/y", "nf") {
        Some(FetchError::Http(m)) => assert_eq!(m, "S3 request failed with status 503 Service Unavailable: http://x/y"),
        other => panic!("unexpected {:?}", other),
    }
    assert_eq!(no_scans_message("KTLX", "2024-03-15"), "No scans found for station KTLX on 2024-03-15");
    assert_eq!(scan_not_found_message("F"), "Scan not found: F");
}

#[test]
fn request_failures_are_classified() {
    assert!(matches!(classify_request_failure(true, true, Some(404), "t".to_string()), FetchError::Timeout(_)));
    assert!(matches!(classify_request_failure(false, true, None, "t".to_string()), FetchError::Network(_)));
    assert!(matches!(classify_request_failure(false, false, Some(404), "t".to_string()), FetchError::S3NotFound(_)));
    assert!(matches!(classify_request_failure(false, false, Some(429), "t".to_string()), FetchError::TooManyRequests(_)));
    match classify_request_failure(false, false, Some(500), "boom".to_string()) {
        FetchError::Http(m) => assert_eq!(m, "boom"),
        other => panic!("unexpected {:?}", other),
    }
    assert!(matches!(classify_request_failure(false, false, None, "t".to_string()), FetchError::Network(_)));
}

// ----------------------------------------------------------------- cache index

#[test]
fn test_cache_config_default() {
    let config = CacheConfig::with_home(Some("/home/radar"));
    assert_eq!(config.max_size_bytes, 1_073_741_824);
    assert!(config.cache_dir.contains(".config/tempest/cache") || config.cache_dir.contains("tempest-cache"));
    assert_eq!(config.cache_dir, "/home/radar/.config/tempest/cache");
    let config = CacheConfig::with_home(None);
    assert_eq!(config.max_size_bytes, 1_073_741_824);
    assert_eq!(config.cache_dir, "/tmp/tempest-cache");
    assert_eq!(CacheConfig::with_home(Some("/root/")).cache_dir, "/root/.config/tempest/cache");
}

#[test]
fn cache_file_names_are_sanitized() {
    assert_eq!(cache_file_name("KTLX_20240315_KTLX20240315_120021"), "KTLX_20240315_KTLX20240315_120021.cache");
    assert_eq!(cache_file_name("a/b\\c:d*e?f\"g<h>i|j"), "a_b_c_d_e_f_g_h_i_j.cache");
}

/// Stores `key` as the original cache does: evict least recently used
/// entries while the data does not fit, then record it.
fn put(cache: &mut Cache, key: &str, size: u64, now: i64) -> Vec<String> {
    let mut evicted = Vec::new();
    while cache.needs_eviction(size) {
        let (k, _) = cache.pop_lru_entry().unwrap();
        evicted.push(k);
    }
    cache.record(key, size, now);
    evicted
}

#[test]
fn cache_index_basic_put_and_lookup() {
    let mut cache = Cache::new(CacheConfig::new(1024 * 1024, "/tmp/c".to_string()));
    assert!(!cache.contains("test_key"));
    put(&mut cache, "test_key", 13, 100);
    assert!(cache.contains("test_key"));
    assert!(cache.touch("test_key", 200));
    assert!(!cache.touch("other", 300));
    let stats = cache.stats();
    assert_eq!(stats.entry_count, 1);
    assert_eq!(stats.total_size, 13);
    assert_eq!(stats.oldest, Some(200));
    assert_eq!(stats.newest, Some(200));
}

#[test]
fn cache_index_evicts_least_recently_used() {
    let mut cache = Cache::new(CacheConfig::new(100, "/tmp/c".to_string()));
    let mut all_evicted = Vec::new();
    for i in 0..10 {
        let key = format!("key_{}", i);
        all_evicted.extend(put(&mut cache, &key, 50, i));
    }
    let stats = cache.stats();
    assert!(stats.entry_count < 10);
    assert!(stats.total_size <= 100);
    assert_eq!(stats.entry_count, 2);
    assert_eq!(all_evicted, (0..8).map(|i| format!("key_{}", i)).collect::<Vec<_>>());
    // A use protects an entry from the next eviction.
    assert!(cache.touch("key_8", 20));
    let evicted = put(&mut cache, "key_10", 50, 21);
    assert_eq!(evicted, vec!["key_9".to_string()]);
    assert!(cache.contains("key_8"));
}

#[test]
fn cache_byte_count_follows_the_entries() {
    let mut cache = Cache::new(CacheConfig::new(1024, "/tmp/c".to_string()));
    cache.record("a", 5, 1);
    cache.record("a", 5, 2);
    assert_eq!(cache.current_size(), 5);
    assert_eq!(cache.stats().entry_count, 1);
    cache.record("a", 7, 3);
    assert_eq!(cache.current_size(), 7);
    cache.record("b", 3, 4);
    assert_eq!(cache.current_size(), 10);
    assert_eq!(cache.pop_lru_entry(), Some(("a".to_string(), 7)));
    assert_eq!(cache.current_size(), 3);
    assert_eq!(cache.pop_lru_entry(), Some(("b".to_string(), 3)));
    assert_eq!(cache.current_size(), 0);
    assert_eq!(cache.pop_lru_entry(), None);
    assert_eq!(cache.config().cache_dir, "/tmp/c");
    assert_eq!(cache.config().max_size_bytes, 1024);
}

#[test]
fn cache_index_clear_and_stats() {
    let mut cache = Cache::new(CacheConfig::new(1024 * 1024, "/tmp/c".to_string()));
    let stats = cache.stats();
    assert!(stats.is_empty());
    assert!(stats.oldest.is_none());
    assert!(stats.newest.is_none());
    put(&mut cache, "key1", 5, 10);
    put(&mut cache, "key2", 5, 20);
    let stats = cache.stats();
    assert_eq!(stats.entry_count, 2);
    assert_eq!(stats.oldest, Some(10));
    assert_eq!(stats.newest, Some(20));
    cache.clear_index();
    let stats = cache.stats();
    assert_eq!(stats.entry_count, 0);
    assert_eq!(stats.total_size, 0);
}

#[test]
fn cache_index_record_now_stamps_entries() {
    let mut cache = Cache::new(CacheConfig::new(1024, "/tmp/c".to_string()));
    cache.record_now("k", 1);
    assert!(cache.touch_now("k"));
    let stats = cache.stats();
    assert!(stats.oldest.unwrap() > 1_600_000_000_000);
}

#[test]
fn station_display() {
    let s = Station::new("KTLX", "Oklahoma City", 35.333f64.to_bits(), (-97.278f64).to_bits(), 370.0f32.to_bits());
    assert_eq!(s.to_display_string(), "KTLX - Oklahoma City");
    assert_eq!(f64::from_bits(s.lat_bits), 35.333);
}

fn plain_station(id: &str, name: &str) -> Station {
    Station::new(id, name, 0.0f64.to_bits(), 0.0f64.to_bits(), 0.0f32.to_bits())
}

#[test]
fn registry_keeps_last_station_of_an_id() {
    let reg = StationRegistry::from_stations(vec![
        plain_station("KTLX", "First"),
        plain_station("KFWS", "Dallas"),
        plain_station("KTLX", "Second"),
    ]);
    assert_eq!(reg.len(), 2);
    assert!(!reg.is_empty());
    assert_eq!(reg.get("KTLX").map(|s| s.name.clone()), Some("Second".to_string()));
    assert_eq!(reg.get("KFWS").map(|s| s.name.clone()), Some("Dallas".to_string()));
    assert!(reg.get("KXXX").is_none());
}

#[test]
fn registry_lists_stations_in_id_order() {
    let reg = StationRegistry::from_stations(vec![
        plain_station("KTLX", "Oklahoma City"),
        plain_station("KAMA", "Amarillo"),
        plain_station("KFWS", "Dallas"),
    ]);
    let ids: Vec<String> = reg.iter().into_iter().map(|s| s.id).collect();
    assert_eq!(ids, vec!["KAMA".to_string(), "KFWS".to_string(), "KTLX".to_string()]);
}

#[test]
fn empty_registry() {
    let reg = StationRegistry::from_stations(Vec::new());
    assert!(reg.is_empty());
    assert_eq!(reg.len(), 0);
    assert!(reg.iter().is_empty());
}

#[test]
fn sort_texts_orders_like_str() {
    let v = vec!["b".to_string(), "ab".to_string(), "a".to_string(), "B".to_string()];
    let r = sort_texts(&v);
    assert_eq!(r, vec!["B".to_string(), "a".to_string(), "ab".to_string(), "b".to_string()]);
}

#[test]
fn text_order_matches_str_order() {

    assert!(text_le_exec("KAMA", "KTLX"));
    assert!(!text_le_exec("KTLX", "KAMA"));
    assert!(text_le_exec("KTL", "KTLX"));
    assert!(!text_le_exec("KTLX", "KTL"));
    assert!(text_le_exec("KTLX", "KTLX"));
    assert!(text_le_exec("", ""));
    assert!(text_le_exec("Z", "a"));
}

#[test]
fn test_playback_state_default() {
    let state = PlaybackState::default();
    assert_eq!(state.current_index, 0);
    assert_eq!(state.total_scans, 0);
    assert_eq!(state.direction, PlaybackDirection::Paused);
    assert_eq!(f64::from_bits(state.speed_bits), 0.0);
}

#[test]
fn dates_past_four_digit_years() {
    let ts = 253_402_300_800; // 10000-01-01T00:00:00Z
    let meta = ScanMeta::new("KTLX", ts, "f", 0, ts);
    assert_eq!(meta.cache_key(), "KTLX_+100000101_f");
    assert_eq!(scan_data_url("http://h", "KTLX", &meta), "http://h/10000/01/01/KTLX/f");
}

#[test]
fn scan_filenames_need_the_separator_and_digits() {
    let date = chrono::NaiveDate::from_ymd_opt(2024, 3, 15).unwrap();
    assert!(parse_scan_filename("KTLX", date, "KTLX20240315_120021").is_some());
    assert!(parse_scan_filename("KTLX", date, "KTLX20240315X120021").is_none());
    assert!(parse_scan_filename("KTLX", date, "KTLX20240315-120021").is_none());
    assert!(parse_scan_filename("KTLX", date, "KTLX+0240315_120021").is_none());
    assert!(parse_scan_filename("KTLX", date, "KTLX-0240315_120021").is_none());
    assert!(parse_scan_filename("KTLX", date, "KTLX2024+315_120021").is_none());
    assert!(parse_scan_filename("KTLX", date, "KTLX20240315_+20021").is_none());
    let m = parse_scan_filename("KTLX", date, "KTLX20240315_120021_V06").unwrap();
    assert_eq!(m.filename, "KTLX20240315_120021_V06");
    assert_eq!(m.date, 1_710_504_021);
}

#[test]
fn polls_report_each_filename_once() {
    let scan = |f: &str| ScanMeta::new("KTLX", 0, f, 0, 0);
    let mut seen = SeenScans::new();
    let first = take_unseen(&mut seen, vec![scan("a"), scan("b"), scan("a")]);
    let names: Vec<String> = first.into_iter().map(|m| m.filename).collect();
    assert_eq!(names, vec!["a", "b"]);
    // A failed poll reports nothing and changes nothing; the next listing
    // reports only what is new.
    let second = take_unseen(&mut seen, vec![scan("b"), scan("c"), scan("a"), scan("d")]);
    let names: Vec<String> = second.into_iter().map(|m| m.filename).collect();
    assert_eq!(names, vec!["c", "d"]);
    assert!(take_unseen(&mut seen, vec![scan("d"), scan("c")]).is_empty());
}
