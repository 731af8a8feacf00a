//! Bookkeeping of the tile disk cache: which tiles are stored, their sizes,
//! when each was last used, and which to evict when the cache grows past its
//! limit (least recently used first).  Reading and writing the tile files is
//! the caller's; this index tells it which files to delete.

use vstd::prelude::*;
use super::tile::{TileCoordinate, TileSource};
use crate::text::{decimal, decimal_string, join_path, joined_path, push_str};
use super::tile_manager::{unix_time_secs, MAX_CACHE_SIZE_BYTES};

verus! {

/// What the cache knows of one stored tile.
#[derive(Debug, Clone, Copy, PartialEq, Eq)]
pub struct TileCacheEntry {
    /// The stored tile.
    pub tile: TileCoordinate,
    /// Size of its file in bytes.
    pub size: u64,
    /// Last access, in seconds since the Unix epoch.
    pub last_access: u64,
}

/// Total size of entries.
pub open spec fn sum_sizes(s: Seq<TileCacheEntry>) -> int
    decreases s.len(),
{
    if s.len() == 0 {
        0
    } else {
        sum_sizes(s.drop_last()) + s.last().size
    }
}

/// No tile appears twice.
pub open spec fn distinct_tiles(s: Seq<TileCacheEntry>) -> bool {
    forall|i: int, j: int| 0 <= i < j < s.len() ==> s[i].tile != s[j].tile
}

/// Whether a tile is stored.
pub open spec fn has_tile(s: Seq<TileCacheEntry>, t: TileCoordinate) -> bool {
    exists|i: int| 0 <= i < s.len() && s[i].tile == t
}

/// The position of the first entry with the earliest last access.
pub open spec fn oldest_index(s: Seq<TileCacheEntry>) -> int
    decreases s.len(),
{
    if s.len() <= 1 {
        0
    } else {
        let j = oldest_index(s.drop_last());
        if s.last().last_access < s[j].last_access { s.len() - 1 } else { j }
    }
}

/// Evicts least recently used entries until the total fits `max`: the
/// remaining entries and the evicted ones in eviction order.
pub open spec fn evicted_to_fit(s: Seq<TileCacheEntry>, max: u64) -> (Seq<TileCacheEntry>, Seq<TileCacheEntry>)
    decreases s.len(),
{
    if s.len() > 0 && sum_sizes(s) > max {
        let i = oldest_index(s);
        proof {
            lemma_oldest_in_range(s);
        }
        let rest = evicted_to_fit(s.remove(i), max);
        (rest.0, seq![s[i]] + rest.1)
    } else {
        (s, Seq::empty())
    }
}

/// The entries with `tile` stored anew: its entry replaced in place, or
/// appended when absent.
pub open spec fn with_entry(s: Seq<TileCacheEntry>, e: TileCacheEntry) -> Seq<TileCacheEntry> {
    if has_tile(s, e.tile) {
        let i = choose|i: int| 0 <= i < s.len() && s[i].tile == e.tile;
        s.update(i, e)
    } else {
        s.push(e)
    }
}

/// The entries with the last access of `tile` set to `now` (unchanged when absent).
pub open spec fn touched(s: Seq<TileCacheEntry>, t: TileCoordinate, now: u64) -> Seq<TileCacheEntry> {
    if has_tile(s, t) {
        let i = choose|i: int| 0 <= i < s.len() && s[i].tile == t;
        s.update(i, TileCacheEntry { last_access: now, ..s[i] })
    } else {
        s
    }
}

/// The value of a tile cache index.
pub struct TileCacheView {
    pub entries: Seq<TileCacheEntry>,
    pub max_size: u64,
}

/// The name of a tile source's directory.
pub open spec fn source_dir_name(s: TileSource) -> Seq<char> {
    match s {
        TileSource::OpenFreeMap => "openfreemap"@,
        TileSource::OpenStreetMap => "openstreetmap"@,
    }
}

/// The directory of a source's tiles under a cache directory.
pub open spec fn source_dir_of(dir: Seq<char>, s: TileSource) -> Seq<char> {
    joined_path(joined_path(dir, "tiles"@), source_dir_name(s))
}

/// The file of a tile under a cache directory.
pub open spec fn tile_path_of(dir: Seq<char>, t: TileCoordinate, s: TileSource) -> Seq<char> {
    joined_path(
        joined_path(joined_path(source_dir_of(dir, s), decimal(t.z as nat)), decimal(t.x as nat)),
        decimal(t.y as nat) + ".png"@,
    )
}

/// Index of the tile disk cache.
#[derive(Debug)]
pub struct TileCache {
    cache_dir: String,
    entries: Vec<TileCacheEntry>,
    total_size: u64,
    max_size: u64,
}

proof fn lemma_sum_nonneg(s: Seq<TileCacheEntry>)
    ensures
        sum_sizes(s) >= 0,
    decreases s.len(),
{
    if s.len() > 0 {
        lemma_sum_nonneg(s.drop_last());
    }
}

proof fn lemma_sum_push(s: Seq<TileCacheEntry>, e: TileCacheEntry)
    ensures
        sum_sizes(s.push(e)) == sum_sizes(s) + e.size,
{
    assert(s.push(e).drop_last() =~= s);
}

proof fn lemma_sum_update(s: Seq<TileCacheEntry>, i: int, e: TileCacheEntry)
    requires
        0 <= i < s.len(),
    ensures
        sum_sizes(s.update(i, e)) == sum_sizes(s) - s[i].size + e.size,
    decreases s.len(),
{
    if i == s.len() - 1 {
        assert(s.update(i, e).drop_last() =~= s.drop_last());
    } else {
        lemma_sum_update(s.drop_last(), i, e);
        assert(s.update(i, e).drop_last() =~= s.drop_last().update(i, e));
    }
}

proof fn lemma_sum_remove(s: Seq<TileCacheEntry>, i: int)
    requires
        0 <= i < s.len(),
    ensures
        sum_sizes(s.remove(i)) == sum_sizes(s) - s[i].size,
    decreases s.len(),
{
    if i == s.len() - 1 {
        assert(s.remove(i) =~= s.drop_last());
    } else {
        lemma_sum_remove(s.drop_last(), i);
        assert(s.remove(i).drop_last() =~= s.drop_last().remove(i));
    }
}

/// The oldest position lies within a non-empty sequence.
pub proof fn lemma_oldest_in_range(s: Seq<TileCacheEntry>)
    requires
        s.len() > 0,
    ensures
        0 <= oldest_index(s) < s.len(),
    decreases s.len(),
{
    if s.len() > 1 {
        lemma_oldest_in_range(s.drop_last());
    }
}

proof fn lemma_oldest_is_min(s: Seq<TileCacheEntry>)
    requires
        s.len() > 0,
    ensures
        0 <= oldest_index(s) < s.len(),
        forall|k: int| 0 <= k < s.len() ==> s[oldest_index(s)].last_access <= #[trigger] s[k].last_access,
    decreases s.len(),
{
    lemma_oldest_in_range(s);
    if s.len() > 1 {
        let d = s.drop_last();
        lemma_oldest_is_min(d);
        let j = oldest_index(d);
        assert(d[j] == s[j]);
        assert forall|k: int| 0 <= k < s.len() implies s[oldest_index(s)].last_access <= #[trigger] s[k].last_access by {
            if k < s.len() - 1 {
                assert(d[k] == s[k]);
            }
        }
    }
}

proof fn lemma_oldest_step(s: Seq<TileCacheEntry>, i: int)
    requires
        0 < i < s.len(),
    ensures
        oldest_index(s.take(i + 1)) == (if s[i].last_access < s[oldest_index(s.take(i))].last_access {
            i
        } else {
            oldest_index(s.take(i))
        }),
{
    assert(s.take(i + 1).drop_last() =~= s.take(i));
    lemma_oldest_in_range(s.take(i));
    let j = oldest_index(s.take(i));
    assert(s.take(i + 1)[j] == s[j]);
    assert(s.take(i + 1).last() == s[i]);
}

proof fn lemma_remove_distinct(s: Seq<TileCacheEntry>, i: int)
    requires
        0 <= i < s.len(),
        distinct_tiles(s),
    ensures
        distinct_tiles(s.remove(i)),
        forall|t: TileCoordinate| has_tile(s.remove(i), t) ==> has_tile(s, t),
{
    assert forall|t: TileCoordinate| has_tile(s.remove(i), t) implies has_tile(s, t) by {
        let k = choose|k: int| 0 <= k < s.remove(i).len() && s.remove(i)[k].tile == t;
        if k < i {
            assert(s[k].tile == t);
        } else {
            assert(s[k + 1].tile == t);
        }
    }
}

/// Which entries `evicted_to_fit` removes and keeps.
proof fn lemma_evicted_to_fit(s: Seq<TileCacheEntry>, max: u64)
    requires
        distinct_tiles(s),
    ensures
        distinct_tiles(evicted_to_fit(s, max).0),
        evicted_to_fit(s, max).0.len() == 0 || sum_sizes(evicted_to_fit(s, max).0) <= max,
        forall|a: int, b: int|
            0 <= a < evicted_to_fit(s, max).1.len() && 0 <= b < evicted_to_fit(s, max).0.len()
                ==> #[trigger] evicted_to_fit(s, max).1[a].last_access
                <= #[trigger] evicted_to_fit(s, max).0[b].last_access,
        forall|t: TileCoordinate| has_tile(evicted_to_fit(s, max).0, t) ==> has_tile(s, t),
    decreases s.len(),
{
    if s.len() > 0 && sum_sizes(s) > max {
        let i = oldest_index(s);
        lemma_oldest_is_min(s);
        lemma_remove_distinct(s, i);
        let r = s.remove(i);
        lemma_evicted_to_fit(r, max);
        let out = evicted_to_fit(s, max);
        let rest = evicted_to_fit(r, max);
        assert forall|a: int, b: int|
            0 <= a < out.1.len() && 0 <= b < out.0.len() implies #[trigger] out.1[a].last_access
            <= #[trigger] out.0[b].last_access by {
            if a == 0 {
                // out.0[b] is an entry of r, hence of s
                lemma_kept_entry_in(r, max, b);
                let m = choose|m: int| 0 <= m < r.len() && r[m] == rest.0[b];
                if m < i {
                    assert(r[m] == s[m]);
                } else {
                    assert(r[m] == s[m + 1]);
                }
            } else {
                assert(out.1[a] == rest.1[a - 1]);
            }
        }
        assert forall|t: TileCoordinate| has_tile(out.0, t) implies has_tile(s, t) by {
            assert(has_tile(r, t));
        }
    }
}

/// Every entry kept by `evicted_to_fit` is an entry of the input.
proof fn lemma_kept_entry_in(s: Seq<TileCacheEntry>, max: u64, b: int)
    requires
        0 <= b < evicted_to_fit(s, max).0.len(),
    ensures
        exists|m: int| 0 <= m < s.len() && s[m] == evicted_to_fit(s, max).0[b],
    decreases s.len(),
{
    if s.len() > 0 && sum_sizes(s) > max {
        let i = oldest_index(s);
        lemma_oldest_is_min(s);
        let r = s.remove(i);
        lemma_kept_entry_in(r, max, b);
        let m = choose|m: int| 0 <= m < r.len() && r[m] == evicted_to_fit(r, max).0[b];
        if m < i {
            assert(s[m] == r[m]);
        } else {
            assert(s[m + 1] == r[m]);
        }
    } else {
        assert(s[b] == evicted_to_fit(s, max).0[b]);
    }
}

impl View for TileCache {
    type V = TileCacheView;

    closed spec fn view(&self) -> TileCacheView {
        TileCacheView { entries: self.entries@, max_size: self.max_size }
    }
}

impl TileCache {
    #[verifier::type_invariant]
    spec fn inv(self) -> bool {
        &&& self.total_size == sum_sizes(self.entries@)
        &&& distinct_tiles(self.entries@)
    }

    /// An empty index for tiles under `cache_dir`, with limit `max_size`
    /// (500 MB when `None`).
    pub fn new(cache_dir: String, max_size: Option<u64>) -> (c: Self)
        ensures
            c.dir() == cache_dir@,
            c@.entries == Seq::<TileCacheEntry>::empty(),
            c@.max_size == (match max_size {
                Some(m) => m,
                None => MAX_CACHE_SIZE_BYTES,
            }),
    {
        let max = match max_size {
            Some(m) => m,
            None => MAX_CACHE_SIZE_BYTES,
        };
        let c = TileCache { cache_dir, entries: Vec::new(), total_size: 0, max_size: max };
        assert(c.entries@ =~= Seq::<TileCacheEntry>::empty());
        c
    }

    /// The directory of the cache (specification).
    pub closed spec fn dir(&self) -> Seq<char> {
        self.cache_dir@
    }

    /// The directory that holds the tiles of `source`: `tiles/{name}` under
    /// the cache directory.
    pub fn source_dir(&self, source: &TileSource) -> (d: String)
        ensures
            d@ == source_dir_of(self.dir(), *source),
    {
        let tiles = join_path(self.cache_dir.as_str(), "tiles");
        let name = match source {
            TileSource::OpenFreeMap => "openfreemap",
            TileSource::OpenStreetMap => "openstreetmap",
        };
        join_path(tiles.as_str(), name)
    }

    /// The file of `tile` from `source`: `{z}/{x}/{y}.png` under the source directory.
    pub fn tile_path(&self, tile: &TileCoordinate, source: &TileSource) -> (p: String)
        ensures
            p@ == tile_path_of(self.dir(), *tile, *source),
    {
        let d = self.source_dir(source);
        let dz = join_path(d.as_str(), decimal_string(tile.z as u64).as_str());
        let dx = join_path(dz.as_str(), decimal_string(tile.x as u64).as_str());
        let mut file = decimal_string(tile.y as u64);
        push_str(&mut file, ".png");
        join_path(dx.as_str(), file.as_str())
    }

    fn find(&self, tile: &TileCoordinate) -> (r: Option<usize>)
        ensures
            r is None ==> !has_tile(self.entries@, *tile),
            r matches Some(i) ==> i < self.entries@.len() && self.entries@[i as int].tile == *tile,
    {
        let mut i: usize = 0;
        while i < self.entries.len()
            invariant
                i <= self.entries@.len(),
                forall|k: int| 0 <= k < i ==> self.entries@[k].tile != *tile,
            decreases self.entries@.len() - i,
        {
            if self.entries[i].tile == *tile {
                return Some(i);
            }
            i = i + 1;
        }
        None
    }

    /// Records a use of `tile` at time `now`; tells whether it is stored.
    pub fn touch_at(&mut self, tile: &TileCoordinate, now: u64) -> (found: bool)
        ensures
            found == has_tile(old(self)@.entries, *tile),
            final(self)@.entries == touched(old(self)@.entries, *tile, now),
            final(self)@.max_size == old(self)@.max_size,
            final(self).dir() == old(self).dir(),
    {
        proof {
            use_type_invariant(&*self);
        }
        match self.find(tile) {
            None => false,
            Some(i) => {
                let ghost s = self.entries@;
                let e = self.entries[i];
                let updated = TileCacheEntry { last_access: now, ..e };
                proof {
                    lemma_sum_update(s, i as int, updated);
                    let j = choose|j: int| 0 <= j < s.len() && s[j].tile == *tile;
                    assert(j == i as int);
                }
                let mut entries = self.entries.clone();
                assert(entries@ =~= self.entries@);
                entries.set(i, updated);
                assert(distinct_tiles(entries@));
                *self = TileCache { cache_dir: self.cache_dir.clone(), entries, total_size: self.total_size, max_size: self.max_size };
                true
            },
        }
    }

    /// Records a use of `tile` now (the index side of reading a cached tile);
    /// tells whether the tile is stored.
    pub fn get(&mut self, tile: &TileCoordinate) -> (found: bool)
        ensures
            found == has_tile(old(self)@.entries, *tile),
            exists|now: u64| final(self)@.entries == touched(old(self)@.entries, *tile, now),
            final(self)@.max_size == old(self)@.max_size,
            final(self).dir() == old(self).dir(),
    {
        let now = unix_time_secs();
        self.touch_at(tile, now)
    }

    /// Evicts least recently used entries until the total size fits the
    /// limit; returns the evicted tiles in eviction order.
    pub fn evict_if_needed(&mut self) -> (evicted: Vec<TileCoordinate>)
        ensures
            final(self)@.entries == evicted_to_fit(old(self)@.entries, old(self)@.max_size).0,
            sum_sizes(final(self)@.entries) <= final(self)@.max_size,
            evicted@ == evicted_to_fit(old(self)@.entries, old(self)@.max_size).1.map_values(
                |e: TileCacheEntry| e.tile,
            ),
            final(self)@.max_size == old(self)@.max_size,
            final(self).dir() == old(self).dir(),
    {
        proof {
            use_type_invariant(&*self);
        }
        let ghost s0 = self.entries@;
        let max = self.max_size;
        let mut entries = self.entries.clone();
        assert(entries@ =~= self.entries@);
        let mut total = self.total_size;
        let mut evicted: Vec<TileCoordinate> = Vec::new();
        let ghost mut gone: Seq<TileCacheEntry> = Seq::empty();
        while total > max && entries.len() > 0
            invariant
                total == sum_sizes(entries@),
                distinct_tiles(entries@),
                evicted@ == gone.map_values(|e: TileCacheEntry| e.tile),
                evicted_to_fit(s0, max) == (evicted_to_fit(entries@, max).0, gone + evicted_to_fit(entries@, max).1),
            decreases entries@.len(),
        {
            let i = oldest(&entries);
            let ghost s = entries@;
            proof {
                lemma_oldest_is_min(s);
                lemma_sum_remove(s, i as int);
                lemma_remove_distinct(s, i as int);
                lemma_sum_nonneg(s.remove(i as int));
            }
            let e = entries.remove(i);
            total = total - e.size;
            evicted.push(e.tile);
            proof {
                assert(evicted_to_fit(s, max).1 == seq![e] + evicted_to_fit(entries@, max).1);
                assert(gone.push(e) + evicted_to_fit(entries@, max).1 =~= gone + (seq![e]
                    + evicted_to_fit(entries@, max).1));
                gone = gone.push(e);
                assert(evicted@ =~= gone.map_values(|e: TileCacheEntry| e.tile));
            }
        }
        proof {
            assert(evicted_to_fit(entries@, max).1 =~= Seq::<TileCacheEntry>::empty());
            assert(gone + Seq::<TileCacheEntry>::empty() =~= gone);
            lemma_evicted_to_fit(s0, max);
        }
        *self = TileCache { cache_dir: self.cache_dir.clone(), entries, total_size: total, max_size: max };
        evicted
    }

    /// Stores `tile` (`size` bytes) as used at `now`, replacing an earlier
    /// entry of the same tile, then evicts as needed; returns the evicted tiles.
    pub fn put_at(&mut self, tile: &TileCoordinate, size: u64, now: u64) -> (evicted: Vec<TileCoordinate>)
        requires
            sum_sizes(with_entry(old(self)@.entries, TileCacheEntry { tile: *tile, size, last_access: now }))
                <= u64::MAX,
        ensures
            final(self)@.entries == evicted_to_fit(
                with_entry(old(self)@.entries, TileCacheEntry { tile: *tile, size, last_access: now }),
                old(self)@.max_size,
            ).0,
            evicted@ == evicted_to_fit(
                with_entry(old(self)@.entries, TileCacheEntry { tile: *tile, size, last_access: now }),
                old(self)@.max_size,
            ).1.map_values(|e: TileCacheEntry| e.tile),
            sum_sizes(final(self)@.entries) <= final(self)@.max_size,
            final(self)@.max_size == old(self)@.max_size,
            final(self).dir() == old(self).dir(),
    {
        proof {
            use_type_invariant(&*self);
        }
        let entry = TileCacheEntry { tile: *tile, size, last_access: now };
        let ghost s = self.entries@;
        let mut entries = self.entries.clone();
        assert(entries@ =~= self.entries@);
        let total;
        match self.find_in(&entries, tile) {
            Some(i) => {
                proof {
                    lemma_sum_update(s, i as int, entry);
                    let j = choose|j: int| 0 <= j < s.len() && s[j].tile == *tile;
                    assert(j == i as int);
                }
                proof {
                    lemma_sum_update(s, i as int, TileCacheEntry { size: 0, ..entry });
                    lemma_sum_nonneg(s.update(i as int, TileCacheEntry { size: 0, ..entry }));
                }
                total = (self.total_size - entries[i].size) + size;
                entries.set(i, entry);
            },
            None => {
                proof {
                    lemma_sum_push(s, entry);
                }
                total = self.total_size + size;
                entries.push(entry);
            },
        }
        assert(entries@ == with_entry(s, entry));
        assert(distinct_tiles(entries@));
        *self = TileCache { cache_dir: self.cache_dir.clone(), entries, total_size: total, max_size: self.max_size };
        self.evict_if_needed()
    }

    fn find_in(&self, entries: &Vec<TileCacheEntry>, tile: &TileCoordinate) -> (r: Option<usize>)
        ensures
            r is None ==> !has_tile(entries@, *tile),
            r matches Some(i) ==> i < entries@.len() && entries@[i as int].tile == *tile,
    {
        let mut i: usize = 0;
        while i < entries.len()
            invariant
                i <= entries@.len(),
                forall|k: int| 0 <= k < i ==> entries@[k].tile != *tile,
            decreases entries@.len() - i,
        {
            if entries[i].tile == *tile {
                return Some(i);
            }
            i = i + 1;
        }
        None
    }

    /// Stores `tile` (`size` bytes) as used now, then evicts as needed;
    /// returns the evicted tiles, whose files the caller deletes.
    pub fn put(&mut self, tile: &TileCoordinate, size: u64) -> (evicted: Vec<TileCoordinate>)
        requires
            sum_sizes(with_entry(old(self)@.entries, TileCacheEntry { tile: *tile, size, last_access: 0 }))
                <= u64::MAX,
        ensures
            exists|now: u64|
                final(self)@.entries == evicted_to_fit(
                    with_entry(old(self)@.entries, TileCacheEntry { tile: *tile, size, last_access: now }),
                    old(self)@.max_size,
                ).0 && evicted@ == evicted_to_fit(
                    with_entry(old(self)@.entries, TileCacheEntry { tile: *tile, size, last_access: now }),
                    old(self)@.max_size,
                ).1.map_values(|e: TileCacheEntry| e.tile),
            sum_sizes(final(self)@.entries) <= final(self)@.max_size,
            final(self)@.max_size == old(self)@.max_size,
            final(self).dir() == old(self).dir(),
    {
        let now = unix_time_secs();
        proof {
            let e = TileCacheEntry { tile: *tile, size, last_access: now };
            let s = self@.entries;
            let e0 = TileCacheEntry { tile: *tile, size, last_access: 0 };
            if has_tile(s, *tile) {
                let i = choose|i: int| 0 <= i < s.len() && s[i].tile == *tile;
                lemma_sum_update(s, i, e);
                lemma_sum_update(s, i, e0);
            } else {
                lemma_sum_push(s, e);
                lemma_sum_push(s, e0);
            }
        }
        self.put_at(tile, size, now)
    }

    /// The total size of the stored tiles in bytes.
    pub fn size(&self) -> (n: u64)
        ensures
            n == sum_sizes(self@.entries),
    {
        proof {
            use_type_invariant(self);
        }
        self.total_size
    }

    /// The number of stored tiles.
    pub fn len(&self) -> (n: usize)
        ensures
            n == self@.entries.len(),
    {
        self.entries.len()
    }

    /// Whether no tile is stored.
    pub fn is_empty(&self) -> (b: bool)
        ensures
            b == (self@.entries.len() == 0),
    {
        self.entries.len() == 0
    }
}

/// The position of the first entry with the earliest last access.
fn oldest(entries: &Vec<TileCacheEntry>) -> (i: usize)
    requires
        entries@.len() > 0,
    ensures
        i == oldest_index(entries@),
        i < entries@.len(),
{
    let mut best: usize = 0;
    let mut k: usize = 1;
    assert(entries@.take(1).len() == 1);
    while k < entries.len()
        invariant
            1 <= k <= entries@.len(),
            best < k,
            best == oldest_index(entries@.take(k as int)),
        decreases entries@.len() - k,
    {
        proof {
            lemma_oldest_step(entries@, k as int);
            lemma_oldest_is_min(entries@.take(k as int));
        }
        if entries[k].last_access < entries[best].last_access {
            best = k;
        }
        k = k + 1;
    }
    assert(entries@.take(k as int) =~= entries@);
    best
}

/// A put of tile entry `e` (store it anew, then evict to fit the limit `max`):
/// the tile is held once, under its new size; nothing is evicted when the
/// stored entries fit the limit; otherwise the entries left total at most the
/// limit (or none is left), no tile is held twice, every evicted entry was
/// used no later than any kept one, and every kept tile was held before or
/// is the new one.
pub proof fn lemma_tile_put_law(s: Seq<TileCacheEntry>, e: TileCacheEntry, max: u64)
    requires
        distinct_tiles(s),
    ensures
        forall|i: int| 0 <= i < with_entry(s, e).len() && (#[trigger] with_entry(s, e)[i]).tile == e.tile
            ==> with_entry(s, e)[i] == e,
        has_tile(with_entry(s, e), e.tile),
        sum_sizes(with_entry(s, e)) <= max ==> evicted_to_fit(with_entry(s, e), max).0 == with_entry(s, e)
            && evicted_to_fit(with_entry(s, e), max).1.len() == 0,
        sum_sizes(evicted_to_fit(with_entry(s, e), max).0) <= max,
        distinct_tiles(evicted_to_fit(with_entry(s, e), max).0),
        forall|a: int, b: int|
            0 <= a < evicted_to_fit(with_entry(s, e), max).1.len() && 0 <= b < evicted_to_fit(
                with_entry(s, e),
                max,
            ).0.len() ==> #[trigger] evicted_to_fit(with_entry(s, e), max).1[a].last_access
                <= #[trigger] evicted_to_fit(with_entry(s, e), max).0[b].last_access,
        forall|t: TileCoordinate| #[trigger] has_tile(evicted_to_fit(with_entry(s, e), max).0, t)
            ==> t == e.tile || has_tile(s, t),
{
    let w = with_entry(s, e);
    if has_tile(s, e.tile) {
        let i = choose|i: int| 0 <= i < s.len() && s[i].tile == e.tile;
        assert(w[i] == e);
        assert forall|j: int| 0 <= j < w.len() && (#[trigger] w[j]).tile == e.tile implies w[j] == e by {
            if j != i {
                assert(w[j] == s[j]);
                if j < i {
                    assert(s[j].tile != s[i].tile);
                } else {
                    assert(s[i].tile != s[j].tile);
                }
            }
        }
        assert forall|a: int, b: int| 0 <= a < b < w.len() implies w[a].tile != w[b].tile by {
            if a != i && b != i {
                assert(w[a] == s[a] && w[b] == s[b]);
            } else if a == i {
                assert(w[b] == s[b]);
                assert(s[a].tile != s[b].tile);
            } else {
                assert(w[a] == s[a]);
                assert(s[a].tile != s[b].tile);
            }
        }
    } else {
        assert(w[s.len() as int] == e);
        assert forall|j: int| 0 <= j < w.len() && (#[trigger] w[j]).tile == e.tile implies w[j] == e by {
            if j < s.len() {
                assert(w[j] == s[j]);
            }
        }
        assert forall|a: int, b: int| 0 <= a < b < w.len() implies w[a].tile != w[b].tile by {
            assert(w[a] == s[a]);
            if b < s.len() {
                assert(w[b] == s[b]);
            }
        }
    }
    assert(distinct_tiles(w));
    lemma_evicted_to_fit(w, max);
    let r = evicted_to_fit(w, max);
    if r.0.len() == 0 {
        assert(sum_sizes(r.0) == 0);
    }
    assert forall|t: TileCoordinate| #[trigger] has_tile(r.0, t) implies t == e.tile || has_tile(s, t) by {
        assert(has_tile(w, t));
        let j = choose|j: int| 0 <= j < w.len() && w[j].tile == t;
        if t != e.tile {
            if has_tile(s, e.tile) {
                assert(w[j] == s[j]);
            } else {
                assert(j < s.len());
                assert(w[j] == s[j]);
            }
        }
    }
}

/// After any eviction the stored tiles fit the limit (or none is left), no
/// tile is stored twice, and every evicted entry was used no later than any
/// entry kept.
pub proof fn lemma_eviction_is_lru(s: Seq<TileCacheEntry>, max: u64)
    requires
        distinct_tiles(s),
    ensures
        evicted_to_fit(s, max).0.len() == 0 || sum_sizes(evicted_to_fit(s, max).0) <= max,
        distinct_tiles(evicted_to_fit(s, max).0),
        forall|a: int, b: int|
            0 <= a < evicted_to_fit(s, max).1.len() && 0 <= b < evicted_to_fit(s, max).0.len()
                ==> #[trigger] evicted_to_fit(s, max).1[a].last_access
                <= #[trigger] evicted_to_fit(s, max).0[b].last_access,
{
    lemma_evicted_to_fit(s, max);
}

} // verus!
