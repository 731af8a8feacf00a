//! Reading S3 `ListObjectsV2` responses for the NOAA NEXRAD bucket.
//!
//! Each scan appears as a `<CommonPrefixes><Prefix>/2024/03/15/KTLX/KTLX20240315_120021</Prefix></CommonPrefixes>`
//! element; its filename is the text after the last `/`.  When no such
//! element names a scan, the `<Key>` elements are read instead.

use vstd::prelude::*;
use crate::text::{chars_of, find_chars, find_in, lemma_find_in_bounds, push_char};
use super::error::FetchError;
use super::filename::{parse_scan_filename, scan_from_filename, text_to_uppercase, upper_text};
use super::poll::scans_view;
use super::types::{ScanMeta, ScanMetaView};

verus! {

/// `after_last_slash` stays inside its range.
pub proof fn lemma_after_last_slash_bounds(s: Seq<char>, lo: int, hi: int)
    requires
        lo <= hi,
    ensures
        lo <= after_last_slash(s, lo, hi) <= hi,
    decreases hi - lo,
{
    if hi > lo && s[hi - 1] != '/' {
        lemma_after_last_slash_bounds(s, lo, hi - 1);
    }
}

/// The position just after the last `/` in `lo..hi` (or `lo` when there is none).
pub open spec fn after_last_slash(s: Seq<char>, lo: int, hi: int) -> int
    decreases hi - lo,
{
    if hi <= lo {
        lo
    } else if s[hi - 1] == '/' {
        hi
    } else {
        after_last_slash(s, lo, hi - 1)
    }
}

pub open spec fn open_prefixes() -> Seq<char> {
    "<CommonPrefixes>"@
}

pub open spec fn close_prefixes() -> Seq<char> {
    "</CommonPrefixes>"@
}

pub open spec fn open_prefix() -> Seq<char> {
    "<Prefix>"@
}

pub open spec fn close_prefix() -> Seq<char> {
    "</Prefix>"@
}

pub open spec fn open_key() -> Seq<char> {
    "<Key>"@
}

pub open spec fn close_key() -> Seq<char> {
    "</Key>"@
}

/// The filename of the `<CommonPrefixes>` section `q..e`: the non-empty
/// text after the last `/` of its `<Prefix>` element.
pub open spec fn section_filename(x: Seq<char>, q: int, e: int) -> Option<Seq<char>> {
    match find_in(x, open_prefix(), q, e) {
        None => None,
        Some(c) => {
            let cs = c + open_prefix().len();
            match find_in(x, close_prefix(), cs, e) {
                None => None,
                Some(ce) => {
                    let f = x.subrange(after_last_slash(x, cs, ce), ce);
                    if f.len() == 0 { None } else { Some(f) }
                },
            }
        },
    }
}

/// The filenames of the `<CommonPrefixes>` sections from position `p` on.
pub open spec fn prefix_filenames(x: Seq<char>, p: int) -> Seq<Seq<char>>
    decreases x.len() - p,
{
    if p < 0 || p > x.len() {
        Seq::empty()
    } else {
        match find_in(x, open_prefixes(), p, x.len() as int) {
            None => Seq::empty(),
            Some(a) => {
                let q = a + open_prefixes().len();
                match find_in(x, close_prefixes(), q, x.len() as int) {
                    None => Seq::empty(),
                    Some(e) => {
                        proof {
                            reveal_strlit("<CommonPrefixes>");
                            lemma_find_in_bounds(x, open_prefixes(), p, x.len() as int);
                            lemma_find_in_bounds(x, close_prefixes(), q, x.len() as int);
                        }
                        let rest = prefix_filenames(x, e + close_prefixes().len());
                        match section_filename(x, q, e) {
                            Some(f) => seq![f] + rest,
                            None => rest,
                        }
                    },
                }
            },
        }
    }
}

/// The filenames of the `<Key>` elements from position `p` on that contain `upper`.
pub open spec fn key_filenames(x: Seq<char>, upper: Seq<char>, p: int) -> Seq<Seq<char>>
    decreases x.len() - p,
{
    if p < 0 || p > x.len() {
        Seq::empty()
    } else {
        match find_in(x, open_key(), p, x.len() as int) {
            None => Seq::empty(),
            Some(a) => {
                let ks = a + open_key().len();
                match find_in(x, close_key(), ks, x.len() as int) {
                    None => Seq::empty(),
                    Some(ke) => {
                        proof {
                            reveal_strlit("<Key>");
                            lemma_find_in_bounds(x, open_key(), p, x.len() as int);
                            lemma_find_in_bounds(x, close_key(), ks, x.len() as int);
                        }
                        let rest = key_filenames(x, upper, ke + close_key().len());
                        let f = x.subrange(after_last_slash(x, ks, ke), ke);
                        if f.len() > 0 && find_in(f, upper, 0, f.len() as int) is Some {
                            seq![f] + rest
                        } else {
                            rest
                        }
                    },
                }
            },
        }
    }
}

/// The scans that filenames name, in order, skipping those that name none.
pub open spec fn scans_named(upper: Seq<char>, fs: Seq<Seq<char>>) -> Seq<ScanMetaView>
    decreases fs.len(),
{
    if fs.len() == 0 {
        Seq::empty()
    } else {
        let rest = scans_named(upper, fs.drop_first());
        match scan_from_filename(upper, fs[0]) {
            Some(m) => seq![m] + rest,
            None => rest,
        }
    }
}

/// The scans a listing names for a station (uppercased `upper`): those of
/// the `<CommonPrefixes>` elements, or when there are none, those of the
/// `<Key>` elements.
pub open spec fn listed_scans(x: Seq<char>, upper: Seq<char>) -> Seq<ScanMetaView> {
    let from_prefixes = scans_named(upper, prefix_filenames(x, 0));
    if from_prefixes.len() > 0 {
        from_prefixes
    } else {
        scans_named(upper, key_filenames(x, upper, 0))
    }
}

/// The position after the last `/` in `x[lo..hi]`.
fn last_slash_end(x: &Vec<char>, lo: usize, hi: usize) -> (r: usize)
    requires
        lo <= hi <= x@.len(),
    ensures
        r == after_last_slash(x@, lo as int, hi as int),
        lo <= r <= hi,
    decreases hi - lo,
{
    if hi <= lo {
        lo
    } else if x[hi - 1] == '/' {
        hi
    } else {
        last_slash_end(x, lo, hi - 1)
    }
}

/// The text of `x[from..to]`.
fn text_of(x: &Vec<char>, from: usize, to: usize) -> (s: String)
    requires
        from <= to <= x@.len(),
    ensures
        s@ == x@.subrange(from as int, to as int),
{
    let mut s = String::new();
    let mut i = from;
    while i < to
        invariant
            from <= i <= to <= x@.len(),
            s@ == x@.subrange(from as int, i as int),
        decreases to - i,
    {
        push_char(&mut s, x[i]);
        assert(x@.subrange(from as int, i + 1) =~= x@.subrange(from as int, i as int).push(x@[i as int]));
        i = i + 1;
    }
    s
}

/// Appends to `out` the scans that `names` name.
fn push_named_scans(station: &str, date: chrono::NaiveDate, names: &Vec<String>, out: &mut Vec<ScanMeta>)
    ensures
        scans_view(final(out)@) == scans_view(old(out)@) + scans_named(
            upper_text(station@),
            names@.map_values(|n: String| n@),
        ),
{
    let ghost upper = upper_text(station@);
    let ghost all = names@.map_values(|n: String| n@);
    let mut i: usize = 0;
    assert(all.skip(0) =~= all);
    assert(scans_view(out@) + scans_named(upper, all.skip(0)) =~= scans_view(old(out)@) + scans_named(upper, all));
    while i < names.len()
        invariant
            i <= names@.len(),
            upper == upper_text(station@),
            all == names@.map_values(|n: String| n@),
            scans_view(out@) + scans_named(upper, all.skip(i as int)) == scans_view(old(out)@)
                + scans_named(upper, all),
        decreases names@.len() - i,
    {
        let ghost before = scans_view(out@);
        assert(all.skip(i as int).drop_first() =~= all.skip(i + 1));
        assert(all.skip(i as int)[0] == names@[i as int]@);
        match parse_scan_filename(station, date, names[i].as_str()) {
            Some(m) => {
                let ghost mv = m@;
                out.push(m);
                assert(scans_view(out@) =~= before.push(mv));
                assert(scans_view(out@) + scans_named(upper, all.skip(i + 1)) =~= before + scans_named(
                    upper,
                    all.skip(i as int),
                ));
            },
            None => {},
        }
        i = i + 1;
    }
    assert(all.skip(i as int) =~= Seq::<Seq<char>>::empty());
    assert(scans_view(out@) =~= scans_view(old(out)@) + scans_named(upper, all));
}

/// The filenames of the `<CommonPrefixes>` sections of `x`.
fn collect_prefix_filenames(x: &Vec<char>) -> (names: Vec<String>)
    ensures
        names@.map_values(|n: String| n@) == prefix_filenames(x@, 0),
{
    let open_sec = chars_of("<CommonPrefixes>");
    let close_sec = chars_of("</CommonPrefixes>");
    let open_pre = chars_of("<Prefix>");
    let close_pre = chars_of("</Prefix>");
    proof {
        reveal_strlit("<CommonPrefixes>");
    }
    let mut names: Vec<String> = Vec::new();
    let mut p: usize = 0;
    let n = x.len();
    loop
        invariant
            p <= n,
            n == x@.len(),
            open_sec@ == open_prefixes(),
            open_sec@.len() > 0,
            close_sec@ == close_prefixes(),
            open_pre@ == open_prefix(),
            close_pre@ == close_prefix(),
            names@.map_values(|s: String| s@) + prefix_filenames(x@, p as int) == prefix_filenames(x@, 0),
        ensures
            names@.map_values(|s: String| s@) == prefix_filenames(x@, 0),
        decreases n - p,
    {
        let ghost before = names@.map_values(|s: String| s@);
        let a = match find_chars(x, &open_sec, p, n) {
            Some(a) => a,
            None => {
                assert(before + prefix_filenames(x@, p as int) =~= before);
                break;
            },
        };
        let q = a + open_sec.len();
        let e = match find_chars(x, &close_sec, q, n) {
            Some(e) => e,
            None => {
                assert(before + prefix_filenames(x@, p as int) =~= before);
                break;
            },
        };
        let next = e + close_sec.len();
        let mut name: Option<String> = None;
        if let Some(c) = find_chars(x, &open_pre, q, e) {
            let cs = c + open_pre.len();
            if let Some(ce) = find_chars(x, &close_pre, cs, e) {
                let start = last_slash_end(x, cs, ce);
                if start < ce {
                    name = Some(text_of(x, start, ce));
                }
            }
        }
        assert(match section_filename(x@, q as int, e as int) {
            Some(f) => name matches Some(t) && t@ == f,
            None => name is None,
        });
        match name {
            Some(t) => {
                names.push(t);
                assert(names@.map_values(|s: String| s@) + prefix_filenames(x@, next as int) =~= before
                    + prefix_filenames(x@, p as int));
            },
            None => {
                assert(names@.map_values(|s: String| s@) =~= before);
            },
        }
        p = next;
    }
    names
}

/// The filenames of the `<Key>` elements of `x` that contain `upper`.
fn collect_key_filenames(x: &Vec<char>, upper: &Vec<char>) -> (names: Vec<String>)
    ensures
        names@.map_values(|n: String| n@) == key_filenames(x@, upper@, 0),
{
    let open_k = chars_of("<Key>");
    let close_k = chars_of("</Key>");
    proof {
        reveal_strlit("<Key>");
    }
    let mut names: Vec<String> = Vec::new();
    let mut p: usize = 0;
    let n = x.len();
    loop
        invariant
            p <= n,
            n == x@.len(),
            open_k@ == open_key(),
            open_k@.len() > 0,
            close_k@ == close_key(),
            names@.map_values(|s: String| s@) + key_filenames(x@, upper@, p as int) == key_filenames(
                x@,
                upper@,
                0,
            ),
        ensures
            names@.map_values(|s: String| s@) == key_filenames(x@, upper@, 0),
        decreases n - p,
    {
        let ghost before = names@.map_values(|s: String| s@);
        let a = match find_chars(x, &open_k, p, n) {
            Some(a) => a,
            None => {
                assert(before + key_filenames(x@, upper@, p as int) =~= before);
                break;
            },
        };
        let ks = a + open_k.len();
        let ke = match find_chars(x, &close_k, ks, n) {
            Some(e) => e,
            None => {
                assert(before + key_filenames(x@, upper@, p as int) =~= before);
                break;
            },
        };
        let next = ke + close_k.len();
        let start = last_slash_end(x, ks, ke);
        let f = slice_chars(x, start, ke);
        let keep = start < ke && find_chars(&f, upper, 0, f.len()).is_some();
        if keep {
            names.push(text_of(x, start, ke));
            assert(names@.map_values(|s: String| s@) + key_filenames(x@, upper@, next as int) =~= before
                + key_filenames(x@, upper@, p as int));
        } else {
            assert(names@.map_values(|s: String| s@) =~= before);
        }
        p = next;
    }
    names
}

/// A copy of `x[from..to]`.
fn slice_chars(x: &Vec<char>, from: usize, to: usize) -> (v: Vec<char>)
    requires
        from <= to <= x@.len(),
    ensures
        v@ == x@.subrange(from as int, to as int),
{
    let mut v: Vec<char> = Vec::new();
    let mut i = from;
    while i < to
        invariant
            from <= i <= to <= x@.len(),
            v@ == x@.subrange(from as int, i as int),
        decreases to - i,
    {
        v.push(x[i]);
        assert(v@ =~= x@.subrange(from as int, i + 1));
        i = i + 1;
    }
    v
}

/// The scans an S3 listing names for `station`; the listing is always read.
pub fn parse_list_objects_response(xml: &str, station: &str, date: chrono::NaiveDate) -> (r: Result<
    Vec<ScanMeta>,
    FetchError,
>)
    ensures
        r matches Ok(scans) && scans_view(scans@) == listed_scans(xml@, upper_text(station@)),
{
    let x = chars_of(xml);
    let names = collect_prefix_filenames(&x);
    let mut scans: Vec<ScanMeta> = Vec::new();
    assert(scans_view(scans@) =~= Seq::<ScanMetaView>::empty());
    push_named_scans(station, date, &names, &mut scans);
    assert(scans_view(scans@) =~= scans_named(upper_text(station@), prefix_filenames(xml@, 0)));
    if scans.len() > 0 {
        return Ok(scans);
    }
    parse_list_objects_response_via_keys(xml, station, date)
}

/// The scans named by the `<Key>` elements of an S3 listing for `station`.
pub fn parse_list_objects_response_via_keys(xml: &str, station: &str, date: chrono::NaiveDate) -> (r:
    Result<Vec<ScanMeta>, FetchError>)
    ensures
        r matches Ok(scans) && scans_view(scans@) == scans_named(
            upper_text(station@),
            key_filenames(xml@, upper_text(station@), 0),
        ),
{
    let x = chars_of(xml);
    let upper_string = text_to_uppercase(station);
    let upper = chars_of(upper_string.as_str());
    let names = collect_key_filenames(&x, &upper);
    let mut scans: Vec<ScanMeta> = Vec::new();
    assert(scans_view(scans@) =~= Seq::<ScanMetaView>::empty());
    push_named_scans(station, date, &names, &mut scans);
    assert(scans_view(scans@) =~= scans_named(upper_text(station@), key_filenames(xml@, upper_text(station@), 0)));
    Ok(scans)
}

} // verus!
