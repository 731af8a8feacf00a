//! Addresses and replies of the NOAA NEXRAD Level II bucket on S3.
//!
//! Objects are stored under `/{YYYY}/{MM}/{DD}/{STATION}/{FILENAME}`, for
//! example `/2024/03/15/KTLX/KTLX20240315_120021`.  The requests themselves are
//! made by the caller; this module builds their addresses and reads what
//! the status of a reply means.

use vstd::prelude::*;
use crate::text::{owned, push_char, push_signed_decimal, push_str, push_two_digits, signed_decimal, two_digits};
use super::error::{FetchError, fetch_error_detail, fetch_error_retryable};
use super::filename::{text_to_uppercase, upper_text};
use super::types::{MAX_SCAN_TIMESTAMP, MIN_SCAN_TIMESTAMP, ScanMeta};

verus! {

/// Base URL of the NOAA NEXRAD Level II bucket.
pub const NOAA_NEXRAD_BUCKET: &'static str = "https://noaa-nexrad-level2.s3.amazonaws.com";

/// The directory of a station's scans on a date.
pub open spec fn day_path(station: Seq<char>, year: int, month: nat, day: nat) -> Seq<char> {
    seq!['/'] + signed_decimal(year) + seq!['/'] + two_digits(month) + seq!['/'] + two_digits(day) + seq!['/']
        + upper_text(station)
}

/// The address that lists a station's scans on a date.
pub open spec fn list_url(base: Seq<char>, station: Seq<char>, year: int, month: nat, day: nat) -> Seq<char> {
    base + day_path(station, year, month, day) + "?list-type=2&delimiter=/"@
}

/// The UTC calendar date `(year, month, day)` of a Unix timestamp.
pub uninterp spec fn utc_date_of(ts: int) -> (int, int, int);

/// `DateTime::<Utc>::from_timestamp(ts, 0)` read as year, month and day:
/// claims the named date, with a month in 1-12 and a day in 1-31.
#[verifier::external_body]
fn utc_ymd(ts: i64) -> (r: (i32, u32, u32))
    requires
        MIN_SCAN_TIMESTAMP <= ts <= MAX_SCAN_TIMESTAMP,
    ensures
        (r.0 as int, r.1 as int, r.2 as int) == utc_date_of(ts as int),
        1 <= r.1 <= 12,
        1 <= r.2 <= 31,
{
    let t = chrono::DateTime::from_timestamp(ts, 0).unwrap();
    (chrono::Datelike::year(&t), chrono::Datelike::month(&t), chrono::Datelike::day(&t))
}

/// Appends the directory of a station's scans on a date.
fn push_day_path(s: &mut String, station: &str, year: i32, month: u32, day: u32)
    ensures
        final(s)@ == old(s)@ + day_path(station@, year as int, month as nat, day as nat),
{
    let upper = text_to_uppercase(station);
    push_char(s, '/');
    push_signed_decimal(s, year as i64);
    push_char(s, '/');
    push_two_digits(s, month);
    push_char(s, '/');
    push_two_digits(s, day);
    push_char(s, '/');
    push_str(s, upper.as_str());
    proof {
        assert(final(s)@ =~= old(s)@ + day_path(station@, year as int, month as nat, day as nat));
    }
}

/// The address that lists the scans of `station` on a date, in the bucket at `base`.
pub fn list_scans_url(base: &str, station: &str, year: i32, month: u32, day: u32) -> (url: String)
    ensures
        url@ == list_url(base@, station@, year as int, month as nat, day as nat),
{
    let mut url = owned(base);
    push_day_path(&mut url, station, year, month, day);
    push_str(&mut url, "?list-type=2&delimiter=/");
    url
}

/// The address of a scan's data.
pub open spec fn scan_url(base: Seq<char>, station: Seq<char>, ts: int, filename: Seq<char>) -> Seq<char> {
    let (y, m, d) = utc_date_of(ts);
    base + day_path(station, y, m as nat, d as nat) + seq!['/'] + filename
}

/// The address of the data of `scan` (taken by its UTC date) for `station`,
/// in the bucket at `base`.
pub fn scan_data_url(base: &str, station: &str, scan: &ScanMeta) -> (url: String)
    requires
        MIN_SCAN_TIMESTAMP <= scan.date <= MAX_SCAN_TIMESTAMP,
    ensures
        url@ == scan_url(base@, station@, scan.date as int, scan.filename@),
{
    let (y, m, d) = utc_ymd(scan.date);
    let mut url = owned(base);
    push_day_path(&mut url, station, y, m, d);
    push_char(&mut url, '/');
    push_str(&mut url, scan.filename.as_str());
    url
}

/// Whether an HTTP status is a success (`200..=299`).
pub open spec fn is_success(status: u16) -> bool {
    200 <= status <= 299
}

/// The message of a reply whose status is neither a success nor 404.
pub open spec fn http_failure_message(status_text: Seq<char>, url: Seq<char>) -> Seq<char> {
    "S3 request failed with status "@ + status_text + ": "@ + url
}

/// The error a reply's status calls for, if any: `S3NotFound(not_found)`
/// for 404, `Http("S3 request failed with status {status_text}: {url}")`
/// for another status outside `200..=299`, none for a success.
pub fn reply_status_error(status: u16, status_text: &str, url: &str, not_found: &str) -> (r: Option<FetchError>)
    ensures
        status == 404 ==> (r matches Some(FetchError::S3NotFound(m)) && m@ == not_found@),
        status != 404 && !is_success(status) ==> (r matches Some(FetchError::Http(m)) && m@
            == http_failure_message(status_text@, url@)),
        is_success(status) ==> r is None,
{
    if status == 404 {
        return Some(FetchError::S3NotFound(owned(not_found)));
    }
    if 200 <= status && status <= 299 {
        return None;
    }
    let mut m = owned("S3 request failed with status ");
    push_str(&mut m, status_text);
    push_str(&mut m, ": ");
    push_str(&mut m, url);
    Some(FetchError::Http(m))
}

/// The message of a listing that found nothing: `No scans found for station {station} on {date}`.
pub fn no_scans_message(station: &str, date_text: &str) -> (m: String)
    ensures
        m@ == "No scans found for station "@ + station@ + " on "@ + date_text@,
{
    let mut m = owned("No scans found for station ");
    push_str(&mut m, station);
    push_str(&mut m, " on ");
    push_str(&mut m, date_text);
    m
}

/// The message of a scan that is not in the bucket: `Scan not found: {filename}`.
pub fn scan_not_found_message(filename: &str) -> (m: String)
    ensures
        m@ == "Scan not found: "@ + filename@,
{
    let mut m = owned("Scan not found: ");
    push_str(&mut m, filename);
    m
}

/// The error a failed request becomes, from what the HTTP client reports of
/// it: a timeout, a failed connection, the status of the reply (404 and 429
/// have their own kinds), and its text.
pub open spec fn request_failure(is_timeout: bool, is_connect: bool, status: Option<u16>, text: Seq<char>) -> FetchErrorKind {
    if is_timeout {
        FetchErrorKind::Timeout
    } else if is_connect {
        FetchErrorKind::Network
    } else {
        match status {
            Some(404) => FetchErrorKind::S3NotFound,
            Some(429) => FetchErrorKind::TooManyRequests,
            Some(_) => FetchErrorKind::Http,
            None => FetchErrorKind::Network,
        }
    }
}

/// The kinds of error a failed request can become.
#[derive(PartialEq, Eq, Structural)]
pub enum FetchErrorKind {
    Timeout,
    Network,
    S3NotFound,
    TooManyRequests,
    Http,
}

/// The kind of a fetch error among those of failed requests.
pub open spec fn kind_of(e: FetchError) -> Option<FetchErrorKind> {
    match e {
        FetchError::Timeout(_) => Some(FetchErrorKind::Timeout),
        FetchError::Network(_) => Some(FetchErrorKind::Network),
        FetchError::S3NotFound(_) => Some(FetchErrorKind::S3NotFound),
        FetchError::TooManyRequests(_) => Some(FetchErrorKind::TooManyRequests),
        FetchError::Http(_) => Some(FetchErrorKind::Http),
        _ => None,
    }
}

/// Classifies a failed request (see [`request_failure`]); the error carries `text`.
pub fn classify_request_failure(is_timeout: bool, is_connect: bool, status: Option<u16>, text: String) -> (e: FetchError)
    ensures
        kind_of(e) == Some(request_failure(is_timeout, is_connect, status, text@)),
        fetch_error_detail(e) == text@,
{
    if is_timeout {
        FetchError::Timeout(text)
    } else if is_connect {
        FetchError::Network(text)
    } else {
        match status {
            Some(404) => FetchError::S3NotFound(text),
            Some(429) => FetchError::TooManyRequests(text),
            Some(_) => FetchError::Http(text),
            None => FetchError::Network(text),
        }
    }
}

/// A failed request is retried unless the object is missing: the error it
/// becomes is retryable exactly when the request timed out, could not
/// connect, or got a reply whose status is not 404 (429 and server errors
/// among them).
pub proof fn lemma_failed_requests_retry_unless_missing(
    e: FetchError,
    is_timeout: bool,
    is_connect: bool,
    status: Option<u16>,
    text: Seq<char>,
)
    requires
        kind_of(e) == Some(request_failure(is_timeout, is_connect, status, text)),
    ensures
        fetch_error_retryable(e) <==> (is_timeout || is_connect || status != Some(404u16)),
{
}

/// A reply whose status is an error other than 404 is retried, a 404 is not.
pub proof fn lemma_reply_errors_retry_unless_missing(e: FetchError, status: u16)
    requires
        status == 404 ==> e is S3NotFound,
        status != 404 && !is_success(status) ==> e is Http,
    ensures
        !is_success(status) ==> (fetch_error_retryable(e) <==> status != 404),
{
}

} // verus!
