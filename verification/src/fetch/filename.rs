//! Scan filenames: `{STATION}{YYYYMMDD}_{HHMMSS}`, such as `KTLX20240315_120021`.

use vstd::prelude::*;
use vstd::utf8::{encode_utf8, is_ascii_chars};
use super::types::{ScanMeta, ScanMetaView};

verus! {

/// Unicode uppercase of a text (what `str::to_uppercase` returns).
pub uninterp spec fn upper_text(s: Seq<char>) -> Seq<char>;

/// ASCII uppercase of one character.
pub open spec fn ascii_upper(c: char) -> char {
    if 'a' <= c <= 'z' { ((c as int) - 32) as char } else { c }
}

/// `str::to_uppercase`: claims the result is the named uppercase text, and
/// that ASCII text is uppercased letter by letter.
#[verifier::external_body]
pub(crate) fn text_to_uppercase(s: &str) -> (r: String)
    ensures
        r@ == upper_text(s@),
        is_ascii_chars(s@) ==> r@ == s@.map_values(|c: char| ascii_upper(c)),
{
    s.to_uppercase()
}

/// The Unix timestamp of a UTC date and time, or `None` when they are not a
/// valid calendar date and time of day.
pub uninterp spec fn utc_datetime_timestamp(y: int, mo: int, d: int, h: int, mi: int, s: int) -> Option<i64>;

/// `Utc.with_ymd_and_hms(..).single()` as a Unix timestamp: claims the
/// result is the named timestamp, and exists only for months 1-12, days
/// 1-31, hours below 24 and minutes and seconds below 60.
#[verifier::external_body]
fn utc_ymd_hms(y: i32, mo: u32, d: u32, h: u32, mi: u32, s: u32) -> (r: Option<i64>)
    ensures
        r == utc_datetime_timestamp(y as int, mo as int, d as int, h as int, mi as int, s as int),
        r is Some ==> 1 <= mo <= 12 && 1 <= d <= 31 && h < 24 && mi < 60 && s < 60,
{
    chrono::TimeZone::with_ymd_and_hms(&chrono::Utc, y, mo, d, h, mi, s).single().map(|t| t.timestamp())
}

/// Every byte is an ASCII digit.
pub open spec fn all_digit_bytes(b: Seq<u8>) -> bool {
    forall|i: int| 0 <= i < b.len() ==> 48 <= #[trigger] b[i] <= 57
}

/// The value of ASCII decimal digits.
pub open spec fn digit_bytes_value(b: Seq<u8>) -> int
    decreases b.len(),
{
    if b.len() == 0 {
        0
    } else {
        digit_bytes_value(b.drop_last()) * 10 + (b.last() - 48)
    }
}

/// The value of a field of one or more ASCII digits, or `None` when the
/// field is empty or holds anything but digits.
pub open spec fn digits_field(b: Seq<u8>) -> Option<int> {
    if b.len() > 0 && all_digit_bytes(b) { Some(digit_bytes_value(b)) } else { None }
}

/// The bytes of `f` after the station prefix `p`, when `f` starts with it.
pub open spec fn after_prefix(p: Seq<u8>, f: Seq<u8>) -> Option<Seq<u8>> {
    if p.len() <= f.len() && f.subrange(0, p.len() as int) == p {
        Some(f.subrange(p.len() as int, f.len() as int))
    } else {
        None
    }
}

/// The scan a filename names, for the uppercased station `upper`: the text
/// after the station starts with `YYYYMMDD_HHMMSS` (digits, an underscore,
/// digits), and the fields form a valid UTC time.
pub open spec fn scan_from_filename(upper: Seq<char>, f: Seq<char>) -> Option<ScanMetaView> {
    match after_prefix(encode_utf8(upper), encode_utf8(f)) {
        None => None,
        Some(t) => if t.len() < 15 || t[8] != 95 {
            None
        } else {
            match (
                digits_field(t.subrange(0, 4)),
                digits_field(t.subrange(4, 6)),
                digits_field(t.subrange(6, 8)),
                digits_field(t.subrange(9, 11)),
                digits_field(t.subrange(11, 13)),
                digits_field(t.subrange(13, 15)),
            ) {
                (Some(y), Some(mo), Some(d), Some(h), Some(mi), Some(s)) => match utc_datetime_timestamp(
                    y,
                    mo,
                    d,
                    h,
                    mi,
                    s,
                ) {
                    Some(ts) => Some(
                        ScanMetaView { station: upper, date: ts, filename: f, size: 0, timestamp: ts },
                    ),
                    None => None,
                },
                _ => None,
            }
        },
    }
}

/// Reads `b[from..to]` (one to four bytes) as decimal digits.
fn parse_digits_field(b: &[u8], from: usize, to: usize) -> (r: Option<u32>)
    requires
        from < to <= b@.len(),
        to - from <= 4,
    ensures
        match digits_field(b@.subrange(from as int, to as int)) {
            Some(v) => r == Some(v as u32) && 0 <= v < 10000,
            None => r is None,
        },
{
    let ghost s = b@.subrange(from as int, to as int);
    let mut v: u32 = 0;
    let mut i = from;
    while i < to
        invariant
            from <= i <= to <= b@.len(),
            to - from <= 4,
            s == b@.subrange(from as int, to as int),
            all_digit_bytes(b@.subrange(from as int, i as int)),
            v == digit_bytes_value(b@.subrange(from as int, i as int)),
            0 <= v < pow10(i - from),
        decreases to - i,
    {
        assert(b@.subrange(from as int, i + 1).drop_last() =~= b@.subrange(from as int, i as int));
        if b[i] < 48 || b[i] > 57 {
            assert(s[i - from] == b@[i as int]);
            return None;
        }
        proof {
            reveal_with_fuel(pow10, 5);
            assert(v * 10 + 9 < pow10(i + 1 - from)) by (nonlinear_arith)
                requires v < pow10(i - from), pow10(i + 1 - from) == 10 * pow10(i - from), i - from < 4;
        }
        v = v * 10 + (b[i] - 48) as u32;
        i = i + 1;
    }
    assert(b@.subrange(from as int, to as int) =~= s);
    proof {
        reveal_with_fuel(pow10, 5);
    }
    Some(v)
}

/// `10^k` for small `k`.
pub open spec fn pow10(k: int) -> int
    decreases k,
{
    if k <= 0 { 1 } else { 10 * pow10(k - 1) }
}

/// Whether `f` starts with `p`.
fn starts_with_bytes(f: &[u8], p: &[u8]) -> (r: bool)
    ensures
        r == (p@.len() <= f@.len() && f@.subrange(0, p@.len() as int) == p@),
{
    if p.len() > f.len() {
        return false;
    }
    let mut i: usize = 0;
    while i < p.len()
        invariant
            p@.len() <= f@.len(),
            i <= p@.len(),
            forall|k: int| 0 <= k < i ==> f@[k] == p@[k],
        decreases p@.len() - i,
    {
        if f[i] != p[i] {
            assert(f@.subrange(0, p@.len() as int)[i as int] != p@[i as int]);
            return false;
        }
        i = i + 1;
    }
    assert(f@.subrange(0, p@.len() as int) =~= p@);
    true
}

/// Reads the scan a filename names for `station` (compared in uppercase).
///
/// The date of the listing is not consulted: the filename carries the date.
pub fn parse_scan_filename(station: &str, _date: chrono::NaiveDate, filename: &str) -> (r: Option<
    ScanMeta,
>)
    ensures
        match scan_from_filename(upper_text(station@), filename@) {
            Some(m) => r matches Some(v) && v@ == m,
            None => r is None,
        },
{
    let upper = text_to_uppercase(station);
    let p = upper.as_str().as_bytes();
    let f = filename.as_bytes();
    if !starts_with_bytes(f, p) {
        return None;
    }
    let plen = p.len();
    if f.len() - plen < 15 || f[plen + 8] != 95 {
        return None;
    }
    let ghost t = f@.subrange(plen as int, f@.len() as int);
    assert(t.subrange(0, 4) =~= f@.subrange(plen as int, plen + 4));
    assert(t.subrange(4, 6) =~= f@.subrange(plen + 4, plen + 6));
    assert(t.subrange(6, 8) =~= f@.subrange(plen + 6, plen + 8));
    assert(t.subrange(9, 11) =~= f@.subrange(plen + 9, plen + 11));
    assert(t.subrange(11, 13) =~= f@.subrange(plen + 11, plen + 13));
    assert(t.subrange(13, 15) =~= f@.subrange(plen + 13, plen + 15));
    let year = match parse_digits_field(f, plen, plen + 4) {
        Some(v) => v as i32,
        None => return None,
    };
    let month = match parse_digits_field(f, plen + 4, plen + 6) {
        Some(v) => v,
        None => return None,
    };
    let day = match parse_digits_field(f, plen + 6, plen + 8) {
        Some(v) => v,
        None => return None,
    };
    let hour = match parse_digits_field(f, plen + 9, plen + 11) {
        Some(v) => v,
        None => return None,
    };
    let minute = match parse_digits_field(f, plen + 11, plen + 13) {
        Some(v) => v,
        None => return None,
    };
    let second = match parse_digits_field(f, plen + 13, plen + 15) {
        Some(v) => v,
        None => return None,
    };
    let ts = match utc_ymd_hms(year, month, day, hour, minute, second) {
        Some(t) => t,
        None => return None,
    };
    Some(ScanMeta { station: upper, date: ts, filename: crate::text::owned(filename), size: 0, timestamp: ts })
}

} // verus!
