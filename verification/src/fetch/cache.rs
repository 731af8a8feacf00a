//! The index of the scan cache: which keys are cached, how large they are,
//! and in which order they were used, kept in an `lru::LruCache`.
//!
//! The scan bytes themselves live in files named by [`cache_file_name`];
//! reading and writing them is the caller's part.  This module decides what
//! is evicted, keeps the byte count, and computes the statistics.

use vstd::prelude::*;
use lru::LruCache;
use crate::text::{join_path, joined_path, owned, push_char, push_str};
use super::types::CacheStats;

verus! {

/// Capacity of the in-memory index (entries).
pub const INDEX_CAPACITY: usize = 10000;

/// Default maximum cache size: 1 GiB.
pub const DEFAULT_MAX_SIZE_BYTES: u64 = 1_073_741_824;

/// Configuration for the cache.
#[derive(Debug, Clone)]
pub struct CacheConfig {
    /// Maximum size of the cache in bytes.
    pub max_size_bytes: u64,
    /// Directory that holds the cached files.
    pub cache_dir: String,
}

impl CacheConfig {
    /// Creates a configuration.
    pub fn new(max_size_bytes: u64, cache_dir: String) -> (c: Self)
        ensures
            c.max_size_bytes == max_size_bytes,
            c.cache_dir@ == cache_dir@,
    {
        CacheConfig { max_size_bytes, cache_dir }
    }

    /// The default configuration for a home directory (the value of `HOME`,
    /// when it is set): 1 GiB under `$HOME/.config/tempest/cache`, or under
    /// `/tmp/tempest-cache` without a home.
    pub fn with_home(home: Option<&str>) -> (c: Self)
        ensures
            c.max_size_bytes == DEFAULT_MAX_SIZE_BYTES,
            c.cache_dir@ == match home {
                Some(h) => joined_path(h@, ".config/tempest/cache"@),
                None => "/tmp/tempest-cache"@,
            },
    {
        let dir = match home {
            Some(h) => join_path(h, ".config/tempest/cache"),
            None => owned("/tmp/tempest-cache"),
        };
        CacheConfig { max_size_bytes: DEFAULT_MAX_SIZE_BYTES, cache_dir: dir }
    }
}

/// An entry of the index.
#[derive(Debug)]
pub struct CacheEntry {
    /// The key of the entry.
    pub key: String,
    /// Size of the cached data in bytes.
    pub size: u64,
    /// Last access, in milliseconds since the Unix epoch.
    pub last_accessed: i64,
}

impl CacheEntry {
    /// Creates an entry accessed at `now` (milliseconds since the Unix epoch).
    pub fn new(key: String, size: u64, now: i64) -> (e: Self)
        ensures
            e.key@ == key@,
            e.size == size,
            e.last_accessed == now,
    {
        CacheEntry { key, size, last_accessed: now }
    }
}

/// What an index of `lru::LruCache<String, CacheEntry>` holds, most
/// recently used first: the map key, then the entry's key, size and access time.
pub uninterp spec fn lru_entries(c: LruCache<String, CacheEntry>) -> Seq<(Seq<char>, Seq<char>, u64, i64)>;

/// The capacity an `lru::LruCache` was made with.
pub uninterp spec fn lru_capacity(c: LruCache<String, CacheEntry>) -> nat;

/// `lru::LruCache` with the default hasher.
#[verifier::external_type_specification]
#[verifier::external_body]
#[verifier::reject_recursive_types(K)]
#[verifier::reject_recursive_types(V)]
#[verifier::reject_recursive_types(S)]
pub struct ExLruCache<K, V, S>(lru::LruCache<K, V, S>);

/// The hasher an `lru::LruCache` uses by default.
#[verifier::external_type_specification]
#[verifier::external_body]
pub struct ExLruHasher(lru::DefaultHasher);

/// A position of an entry with key `k` (the only one when keys are distinct).
pub open spec fn key_position(s: Seq<(Seq<char>, Seq<char>, u64, i64)>, k: Seq<char>) -> Option<int> {
    if exists|i: int| 0 <= i < s.len() && #[trigger] s[i].0 == k {
        Some(choose|i: int| 0 <= i < s.len() && #[trigger] s[i].0 == k)
    } else {
        None
    }
}

/// `LruCache::new(cap)`: an empty index of capacity `cap`.
#[verifier::external_body]
fn lru_new(cap: usize) -> (c: LruCache<String, CacheEntry>)
    requires
        cap > 0,
    ensures
        lru_entries(c) == Seq::<(Seq<char>, Seq<char>, u64, i64)>::empty(),
        lru_capacity(c) == cap,
{
    LruCache::new(std::num::NonZeroUsize::new(cap).unwrap())
}

/// `LruCache::get`: the key and size of the entry under `k`, which becomes
/// the most recently used; `None` and no change when `k` is absent.
#[verifier::external_body]
fn lru_get(c: &mut LruCache<String, CacheEntry>, k: &str) -> (r: Option<(String, u64)>)
    ensures
        lru_capacity(*final(c)) == lru_capacity(*old(c)),
        match key_position(lru_entries(*old(c)), k@) {
            Some(i) => r is Some && (r->0).0@ == lru_entries(*old(c))[i].1 && (r->0).1 == lru_entries(
                *old(c),
            )[i].2 && lru_entries(*final(c)) == seq![lru_entries(*old(c))[i]] + lru_entries(
                *old(c),
            ).remove(i),
            None => r is None && lru_entries(*final(c)) == lru_entries(*old(c)),
        },
{
    c.get(k).map(|e| (e.key.clone(), e.size))
}

/// `LruCache::push`: `k` maps to `v` as the most recently used entry; an
/// entry under `k` is replaced and handed back (with the key given), and
/// when a new key finds the index full, the least recently used entry
/// leaves and is handed back.  The entry handed back is given by its key
/// and size.
#[verifier::external_body]
fn lru_push(c: &mut LruCache<String, CacheEntry>, k: String, v: CacheEntry) -> (r: Option<(String, u64)>)
    ensures
        lru_capacity(*final(c)) == lru_capacity(*old(c)),
        lru_entries(*final(c)) == seq![(k@, v.key@, v.size, v.last_accessed)] + match key_position(
            lru_entries(*old(c)),
            k@,
        ) {
            Some(i) => lru_entries(*old(c)).remove(i),
            None => if lru_entries(*old(c)).len() == lru_capacity(*old(c)) {
                lru_entries(*old(c)).drop_last()
            } else {
                lru_entries(*old(c))
            },
        },
        match key_position(lru_entries(*old(c)), k@) {
            Some(i) => r is Some && (r->0).0@ == k@ && (r->0).1 == lru_entries(*old(c))[i].2,
            None => if lru_entries(*old(c)).len() == lru_capacity(*old(c)) {
                r is Some && (r->0).0@ == lru_entries(*old(c)).last().0 && (r->0).1 == lru_entries(
                    *old(c),
                ).last().2
            } else {
                r is None
            },
        },
{
    c.push(k, v).map(|(k, e)| (k, e.size))
}

/// `LruCache::contains`: whether an entry has key `k` (the order is kept).
#[verifier::external_body]
fn lru_contains(c: &LruCache<String, CacheEntry>, k: &str) -> (r: bool)
    ensures
        r == key_position(lru_entries(*c), k@) is Some,
{
    c.contains(k)
}

/// `LruCache::pop_lru`: removes the least recently used entry and gives its
/// key and size.
#[verifier::external_body]
fn lru_pop_lru(c: &mut LruCache<String, CacheEntry>) -> (r: Option<(String, u64)>)
    ensures
        lru_capacity(*final(c)) == lru_capacity(*old(c)),
        lru_entries(*old(c)).len() == 0 ==> r is None && lru_entries(*final(c)) == lru_entries(
            *old(c),
        ),
        lru_entries(*old(c)).len() > 0 ==> r is Some && (r->0).0@ == lru_entries(*old(c)).last().0
            && (r->0).1 == lru_entries(*old(c)).last().2 && lru_entries(*final(c)) == lru_entries(
            *old(c),
        ).drop_last(),
{
    c.pop_lru().map(|(k, e)| (k, e.size))
}

/// `LruCache::len`.
#[verifier::external_body]
fn lru_len(c: &LruCache<String, CacheEntry>) -> (n: usize)
    ensures
        n == lru_entries(*c).len(),
{
    c.len()
}

/// `LruCache::clear`: the index becomes empty.
#[verifier::external_body]
fn lru_clear(c: &mut LruCache<String, CacheEntry>)
    ensures
        lru_capacity(*final(c)) == lru_capacity(*old(c)),
        lru_entries(*final(c)) == Seq::<(Seq<char>, Seq<char>, u64, i64)>::empty(),
{
    c.clear();
}

/// `LruCache::iter`, each entry taken to its access time, most recently used first.
#[verifier::external_body]
fn lru_access_times(c: &LruCache<String, CacheEntry>) -> (v: Vec<i64>)
    ensures
        v@ == lru_entries(*c).map_values(|e: (Seq<char>, Seq<char>, u64, i64)| e.3),
{
    c.iter().map(|(_, e)| e.last_accessed).collect()
}

/// `chrono::Utc::now()` in milliseconds since the Unix epoch; nothing is
/// claimed of the value.
#[verifier::external_body]
pub(crate) fn utc_now_millis() -> (t: i64) {
    chrono::Utc::now().timestamp_millis()
}

/// One entry of the index as the cache shows it: key, size, access time.
pub type IndexEntry = (Seq<char>, u64, i64);

/// Each entry of an index is filed under its own key.
pub open spec fn entries_keyed(s: Seq<(Seq<char>, Seq<char>, u64, i64)>) -> bool {
    forall|i: int| 0 <= i < s.len() ==> (#[trigger] s[i]).0 == s[i].1
}

/// The entries of an index, most recently used first.
pub open spec fn index_view(s: Seq<(Seq<char>, Seq<char>, u64, i64)>) -> Seq<IndexEntry> {
    s.map_values(|e: (Seq<char>, Seq<char>, u64, i64)| (e.0, e.2, e.3))
}

/// The sum of the sizes of entries.
pub open spec fn total_of(s: Seq<IndexEntry>) -> int
    decreases s.len(),
{
    if s.len() == 0 {
        0
    } else {
        total_of(s.drop_last()) + s.last().1
    }
}

/// No two entries share a key.
pub open spec fn keys_distinct(s: Seq<IndexEntry>) -> bool {
    forall|i: int, j: int| 0 <= i < s.len() && 0 <= j < s.len() && i != j ==> #[trigger] s[i].0 != #[trigger] s[j].0
}

/// The position of the entry with key `k`.
pub open spec fn entry_position(s: Seq<IndexEntry>, k: Seq<char>) -> Option<int> {
    if exists|i: int| 0 <= i < s.len() && #[trigger] s[i].0 == k {
        Some(choose|i: int| 0 <= i < s.len() && #[trigger] s[i].0 == k)
    } else {
        None
    }
}

/// The entries after `k` is stored with `size` at time `now`: first, and
/// gone from where it was; a new key pushes the last entry out of a full index.
pub open spec fn stored(s: Seq<IndexEntry>, cap: nat, k: Seq<char>, size: u64, now: i64) -> Seq<IndexEntry> {
    seq![(k, size, now)] + match entry_position(s, k) {
        Some(i) => s.remove(i),
        None => if s.len() == cap {
            s.drop_last()
        } else {
            s
        },
    }
}

/// The abstract state of the cache index.
pub struct CacheView {
    /// Entries, most recently used first.
    pub entries: Seq<IndexEntry>,
    /// How many entries the index holds at most.
    pub capacity: nat,
    /// The byte count the cache keeps.
    pub current_size: u64,
    /// The configured limit in bytes.
    pub max_size: u64,
    /// The configured directory of the cached files.
    pub cache_dir: Seq<char>,
}

/// The index of the scan cache with its byte count.
#[derive(Debug)]
pub struct Cache {
    config: CacheConfig,
    lru: LruCache<String, CacheEntry>,
    current_size: u64,
}

impl View for Cache {
    type V = CacheView;

    closed spec fn view(&self) -> CacheView {
        CacheView {
            entries: index_view(lru_entries(self.lru)),
            capacity: lru_capacity(self.lru),
            current_size: self.current_size,
            max_size: self.config.max_size_bytes,
            cache_dir: self.config.cache_dir@,
        }
    }
}

/// The index is consistent: keys are distinct, the index is within
/// capacity, and the byte count is the total size of the entries.
pub open spec fn index_wf(v: CacheView) -> bool {
    &&& keys_distinct(v.entries)
    &&& v.entries.len() <= v.capacity
    &&& v.capacity > 0
    &&& v.current_size == total_of(v.entries)
}

/// Sizes are non-negative, so the total of a part is at most the total.
pub proof fn lemma_total_remove(s: Seq<IndexEntry>, i: int)
    requires
        0 <= i < s.len(),
    ensures
        total_of(s) == total_of(s.remove(i)) + s[i].1,
    decreases s.len(),
{
    if i == s.len() - 1 {
        assert(s.remove(i) =~= s.drop_last());
    } else {
        lemma_total_remove(s.drop_last(), i);
        assert(s.remove(i).drop_last() =~= s.drop_last().remove(i));
        assert(s.remove(i).last() == s.last());
    }
}

/// A total of sizes is never negative.
pub proof fn lemma_total_nonneg(s: Seq<IndexEntry>)
    ensures
        total_of(s) >= 0,
    decreases s.len(),
{
    if s.len() > 0 {
        lemma_total_nonneg(s.drop_last());
    }
}

/// The total of an entry put in front.
pub proof fn lemma_total_front(e: IndexEntry, s: Seq<IndexEntry>)
    ensures
        total_of(seq![e] + s) == e.1 + total_of(s),
    decreases s.len(),
{
    let t = seq![e] + s;
    if s.len() == 0 {
        assert(t =~= seq![e]);
        assert(t.drop_last() =~= Seq::<IndexEntry>::empty());
        assert(t.last() == e);
        assert(total_of(t) == total_of(t.drop_last()) + t.last().1);
    } else {
        lemma_total_front(e, s.drop_last());
        assert(t.drop_last() =~= seq![e] + s.drop_last());
        assert(t.last() == s.last());
        assert(total_of(t) == total_of(t.drop_last()) + t.last().1);
    }
}

/// What `entry_position` finds: an entry with the key, or none at all.
pub proof fn lemma_entry_position(v: Seq<IndexEntry>, k: Seq<char>)
    ensures
        entry_position(v, k) matches Some(i) ==> 0 <= i < v.len() && v[i].0 == k,
        entry_position(v, k) is None ==> forall|i: int| 0 <= i < v.len() ==> #[trigger] v[i].0 != k,
{
}

/// Entries in the index are the index view of the `lru` entries, point by point.
proof fn lemma_index_view_remove(s: Seq<(Seq<char>, Seq<char>, u64, i64)>, i: int)
    requires
        0 <= i < s.len(),
    ensures
        index_view(s.remove(i)) == index_view(s).remove(i),
{
    assert(index_view(s.remove(i)) =~= index_view(s).remove(i));
}

/// Key positions agree between the `lru` entries and the index view.
proof fn lemma_positions_agree(s: Seq<(Seq<char>, Seq<char>, u64, i64)>, k: Seq<char>)
    requires
        keys_distinct(index_view(s)),
    ensures
        key_position(s, k) == entry_position(index_view(s), k),
        key_position(s, k) matches Some(i) ==> 0 <= i < s.len() && s[i].0 == k,
{
    let v = index_view(s);
    lemma_entry_position(v, k);
    if exists|i: int| 0 <= i < s.len() && #[trigger] s[i].0 == k {
        assert(key_position(s, k) is Some);
        let i = key_position(s, k)->0;
        assert(0 <= i < s.len() && s[i].0 == k);
        assert(v[i].0 == k);
        let j = entry_position(v, k)->0;
        assert(v[j].0 == k);
        if i != j {
            assert(v[i].0 != v[j].0);
        }
    } else {
        assert forall|j: int| 0 <= j < v.len() implies #[trigger] v[j].0 != k by {
            assert(s[j].0 == v[j].0);
        }
        assert(entry_position(v, k) is None);
    }
}

/// The file that holds the data of `key`: the key with each of
/// `/ \ : * ? " < > |` made `_`, then `.cache`.
pub open spec fn cache_file_name_of(key: Seq<char>) -> Seq<char> {
    key.map_values(|c: char| sanitized_char(c)) + ".cache"@
}

/// A character as it stands in a file name.
pub open spec fn sanitized_char(c: char) -> char {
    if c == '/' || c == '\\' || c == ':' || c == '*' || c == '?' || c == '"' || c == '<' || c == '>'
        || c == '|' {
        '_'
    } else {
        c
    }
}

/// The name of the file that holds the data of `key`.
pub fn cache_file_name(key: &str) -> (name: String)
    ensures
        name@ == cache_file_name_of(key@),
{
    let mut name = String::new();
    let n = key.unicode_len();
    let mut i: usize = 0;
    while i < n
        invariant
            n == key@.len(),
            i <= n,
            name@ == key@.subrange(0, i as int).map_values(|c: char| sanitized_char(c)),
        decreases n - i,
    {
        let c = key.get_char(i);
        let d = if c == '/' || c == '\\' || c == ':' || c == '*' || c == '?' || c == '"' || c == '<'
            || c == '>' || c == '|' {
            '_'
        } else {
            c
        };
        push_char(&mut name, d);
        assert(key@.subrange(0, i + 1).map_values(|c: char| sanitized_char(c)) =~= key@.subrange(
            0,
            i as int,
        ).map_values(|c: char| sanitized_char(c)).push(d));
        i = i + 1;
    }
    assert(key@.subrange(0, n as int) =~= key@);
    push_str(&mut name, ".cache");
    name
}

/// The earliest of access times.
pub open spec fn min_time(s: Seq<i64>) -> Option<i64>
    decreases s.len(),
{
    if s.len() == 0 {
        None
    } else {
        match min_time(s.drop_last()) {
            None => Some(s.last()),
            Some(m) => Some(if s.last() < m { s.last() } else { m }),
        }
    }
}

/// The latest of access times.
pub open spec fn max_time(s: Seq<i64>) -> Option<i64>
    decreases s.len(),
{
    if s.len() == 0 {
        None
    } else {
        match max_time(s.drop_last()) {
            None => Some(s.last()),
            Some(m) => Some(if s.last() > m { s.last() } else { m }),
        }
    }
}

/// The access times of entries.
pub open spec fn times_of(s: Seq<IndexEntry>) -> Seq<i64> {
    s.map_values(|e: IndexEntry| e.2)
}

impl Cache {
    #[verifier::type_invariant]
    spec fn inv(self) -> bool {
        &&& index_wf(self@)
        &&& entries_keyed(lru_entries(self.lru))
    }

    /// Takes the index and its byte count out, leaving an empty index with
    /// no limit behind.
    fn take_parts(&mut self) -> (r: (CacheConfig, LruCache<String, CacheEntry>, u64))
        ensures
            r.0 == old(self).config,
            r.1 == old(self).lru,
            r.2 == old(self).current_size,
            index_wf(old(self)@),
            entries_keyed(lru_entries(old(self).lru)),
    {
        proof {
            use_type_invariant(&*self);
        }
        let lru = lru_new(1);
        proof {
            assert(index_view(lru_entries(lru)) =~= Seq::<IndexEntry>::empty());
        }
        let mut taken = Cache {
            config: CacheConfig { max_size_bytes: 0, cache_dir: String::new() },
            lru,
            current_size: 0,
        };
        std::mem::swap(&mut taken, self);
        let Cache { config, lru, current_size } = taken;
        (config, lru, current_size)
    }

    /// An empty index for `config` (the index holds up to 10000 entries).
    pub fn new(config: CacheConfig) -> (c: Self)
        ensures
            c@.entries == Seq::<IndexEntry>::empty(),
            c@.capacity == INDEX_CAPACITY,
            c@.current_size == 0,
            c@.max_size == config.max_size_bytes,
            c@.cache_dir == config.cache_dir@,
            index_wf(c@),
    {
        let lru = lru_new(INDEX_CAPACITY);
        proof {
            assert(index_view(lru_entries(lru)) =~= Seq::<IndexEntry>::empty());
        }
        Cache { config, lru, current_size: 0 }
    }

    /// The configuration.
    pub fn config(&self) -> (c: &CacheConfig)
        ensures
            c.max_size_bytes == self@.max_size,
            c.cache_dir@ == self@.cache_dir,
    {
        &self.config
    }

    /// The byte count of the cache.
    pub fn current_size(&self) -> (n: u64)
        ensures
            n == self@.current_size,
    {
        self.current_size
    }

    /// Whether the cache holds `key`; the use order is kept.
    pub fn contains(&self, key: &str) -> (r: bool)
        ensures
            r == (entry_position(self@.entries, key@) is Some),
    {
        proof {
            use_type_invariant(self);
            lemma_positions_agree(lru_entries(self.lru), key@);
        }
        lru_contains(&self.lru, key)
    }

    /// Looks `key` up at time `now`: when cached, it becomes the most
    /// recently used entry, accessed at `now`, and `true` is returned.
    pub fn touch(&mut self, key: &str, now: i64) -> (hit: bool)
        ensures
            index_wf(old(self)@) && index_wf(final(self)@),
            hit == (entry_position(old(self)@.entries, key@) is Some),
            final(self)@.capacity == old(self)@.capacity,
            final(self)@.current_size == old(self)@.current_size,
            final(self)@.max_size == old(self)@.max_size,
            final(self)@.cache_dir == old(self)@.cache_dir,
            match entry_position(old(self)@.entries, key@) {
                Some(i) => final(self)@.entries == seq![(key@, old(self)@.entries[i].1, now)]
                    + old(self)@.entries.remove(i),
                None => final(self)@.entries == old(self)@.entries,
            },
    {
        proof {
            use_type_invariant(&*self);
        }
        let ghost s0 = lru_entries(self.lru);
        let ghost v0 = index_view(s0);
        proof {
            lemma_positions_agree(s0, key@);
        }
        let (config, mut lru, current) = self.take_parts();

        let found = lru_get(&mut lru, key);
        match found {
            Some((k, size)) => {
                let ghost i = key_position(s0, key@)->0;
                let ghost s1 = lru_entries(lru);
                proof {
                    lemma_index_view_remove(s0, i);
                    assert(index_view(s1) =~= seq![v0[i]] + v0.remove(i));
                    assert forall|a: int, b: int|
                        0 <= a < index_view(s1).len() && 0 <= b < index_view(s1).len() && a != b
                        implies #[trigger] index_view(s1)[a].0 != #[trigger] index_view(s1)[b].0 by {
                        let t = seq![v0[i]] + v0.remove(i);
                        let pa = if a == 0 { i } else if a - 1 < i { a - 1 } else { a };
                        let pb = if b == 0 { i } else if b - 1 < i { b - 1 } else { b };
                        assert(t[a] == v0[pa]);
                        assert(t[b] == v0[pb]);
                    }
                    lemma_positions_agree(s1, key@);
                    assert(index_view(s1)[0].0 == key@);
                    assert(key_position(s1, key@) == Some(0int));
                }
                let entry = CacheEntry::new(owned(key), size, now);
                let ghost ek = entry.key@;
                proof {
                    assert(ek == key@);
                }
                let _ = lru_push(&mut lru, owned(key), entry);
                let ghost s2 = lru_entries(lru);
                proof {
                    assert(s1.remove(0) =~= s0.remove(i));
                    lemma_index_view_remove(s1, 0);
                    assert(index_view(s2) =~= seq![(key@, size, now)] + v0.remove(i));
                    lemma_total_remove(v0, i);
                    lemma_total_front((key@, size, now), v0.remove(i));
                    assert(size == v0[i].1);
                    assert forall|a: int, b: int|
                        0 <= a < index_view(s2).len() && 0 <= b < index_view(s2).len() && a != b
                        implies #[trigger] index_view(s2)[a].0 != #[trigger] index_view(s2)[b].0 by {
                        let t = seq![v0[i]] + v0.remove(i);
                        assert(index_view(s2)[a].0 == t[a].0);
                        assert(index_view(s2)[b].0 == t[b].0);
                        let pa = if a == 0 { i } else if a - 1 < i { a - 1 } else { a };
                        let pb = if b == 0 { i } else if b - 1 < i { b - 1 } else { b };
                        assert(t[a] == v0[pa]);
                        assert(t[b] == v0[pb]);
                    }
                }
                *self = Cache { config, lru, current_size: current };
                true
            },
            None => {
                *self = Cache { config, lru, current_size: current };
                false
            },
        }
    }

    /// Whether storing `size` more bytes calls for an eviction first: the
    /// byte count would pass the limit and an entry is left to evict.
    pub fn needs_eviction(&self, size: u64) -> (r: bool)
        requires
            self@.current_size + size <= u64::MAX,
        ensures
            r == (self@.current_size + size > self@.max_size && self@.entries.len() > 0),
    {
        let n = lru_len(&self.lru);
        proof {
            assert(index_view(lru_entries(self.lru)).len() == lru_entries(self.lru).len());
        }
        self.current_size + size > self.config.max_size_bytes && n > 0
    }

    /// Takes the least recently used entry out of the index and gives its key
    /// and size; the byte count drops by that size.
    pub fn pop_lru_entry(&mut self) -> (r: Option<(String, u64)>)
        ensures
            index_wf(old(self)@) && index_wf(final(self)@),
            final(self)@.capacity == old(self)@.capacity,
            final(self)@.max_size == old(self)@.max_size,
            final(self)@.cache_dir == old(self)@.cache_dir,
            old(self)@.entries.len() == 0 ==> r is None && final(self)@.entries == old(self)@.entries
                && final(self)@.current_size == old(self)@.current_size,
            old(self)@.entries.len() > 0 ==> r is Some && (r->0).0@ == old(self)@.entries.last().0
                && (r->0).1 == old(self)@.entries.last().1 && final(self)@.entries
                == old(self)@.entries.drop_last() && final(self)@.current_size == old(self)@.current_size
                - old(self)@.entries.last().1,
    {
        proof {
            use_type_invariant(&*self);
        }
        let ghost s0 = lru_entries(self.lru);
        let ghost v0 = index_view(s0);
        let (config, mut lru, current) = self.take_parts();
        let r = lru_pop_lru(&mut lru);
        proof {
            if s0.len() > 0 {
                assert(index_view(lru_entries(lru)) =~= v0.drop_last());
                lemma_total_remove(v0, v0.len() - 1);
                assert(v0.remove(v0.len() - 1) =~= v0.drop_last());
                lemma_total_nonneg(v0.drop_last());
                assert(v0.last() == v0[v0.len() - 1]);
            }
        }
        let size = match &r {
            Some((_, n)) => *n,
            None => 0,
        };
        *self = Cache { config, lru, current_size: current - size };
        r
    }

    /// Records that `key` now holds `size` bytes, accessed at `now`: it
    /// becomes the most recently used entry, and the byte count becomes the
    /// total of the entries kept (an entry replaced or pushed out gives its
    /// size back).
    pub fn record(&mut self, key: &str, size: u64, now: i64)
        requires
            old(self)@.current_size + size <= u64::MAX,
        ensures
            index_wf(old(self)@) && index_wf(final(self)@),
            final(self)@.entries == stored(old(self)@.entries, old(self)@.capacity, key@, size, now),
            final(self)@.capacity == old(self)@.capacity,
            final(self)@.current_size == total_of(final(self)@.entries),
            final(self)@.max_size == old(self)@.max_size,
            final(self)@.cache_dir == old(self)@.cache_dir,
    {
        proof {
            use_type_invariant(&*self);
        }
        let ghost s0 = lru_entries(self.lru);
        let ghost v0 = index_view(s0);
        let ghost cap = lru_capacity(self.lru);
        proof {
            lemma_positions_agree(s0, key@);
            lemma_entry_position(v0, key@);
        }
        let (config, mut lru, current) = self.take_parts();

        let entry = CacheEntry::new(owned(key), size, now);
        let replaced = lru_push(&mut lru, owned(key), entry);
        let ghost s1 = lru_entries(lru);
        let ghost rest = match entry_position(v0, key@) {
            Some(i) => v0.remove(i),
            None => if v0.len() == cap {
                v0.drop_last()
            } else {
                v0
            },
        };
        proof {
            match entry_position(v0, key@) {
                Some(i) => {
                    lemma_index_view_remove(s0, i);
                    lemma_total_remove(v0, i);
                },
                None => {
                    if v0.len() == cap {
                        assert(index_view(s0.drop_last()) =~= v0.drop_last());
                        lemma_total_remove(v0, v0.len() - 1);
                        assert(v0.remove(v0.len() - 1) =~= v0.drop_last());
                    }
                },
            }
            assert(index_view(s1) =~= seq![(key@, size, now)] + rest);
            lemma_total_front((key@, size, now), rest);
            assert forall|a: int, b: int|
                0 <= a < index_view(s1).len() && 0 <= b < index_view(s1).len() && a != b
                implies #[trigger] index_view(s1)[a].0 != #[trigger] index_view(s1)[b].0 by {
                let t = seq![(key@, size, now)] + rest;
                assert(index_view(s1)[a] == t[a]);
                assert(index_view(s1)[b] == t[b]);
                match entry_position(v0, key@) {
                    Some(i) => {
                        let pa = if a - 1 < i { a - 1 } else { a };
                        let pb = if b - 1 < i { b - 1 } else { b };
                        if a > 0 {
                            assert(t[a] == v0[pa]);
                        }
                        if b > 0 {
                            assert(t[b] == v0[pb]);
                        }
                    },
                    None => {
                        if a > 0 {
                            assert(t[a] == v0[a - 1]);
                        }
                        if b > 0 {
                            assert(t[b] == v0[b - 1]);
                        }
                    },
                }
            }
        }
        let freed = match &replaced {
            Some((_, n)) => *n,
            None => 0,
        };
        proof {
            match entry_position(v0, key@) {
                Some(i) => assert(freed == v0[i].1),
                None => if v0.len() == cap {
                    assert(freed == v0.last().1);
                    assert(v0[v0.len() - 1] == v0.last());
                } else {
                    assert(freed == 0);
                },
            }
            assert(total_of(rest) + freed == total_of(v0));
            lemma_total_nonneg(rest);
        }
        *self = Cache { config, lru, current_size: current - freed + size };

    }

    /// Records `key` with `size` bytes, accessed now (the clock is read here).
    pub fn record_now(&mut self, key: &str, size: u64)
        requires
            old(self)@.current_size + size <= u64::MAX,
        ensures
            exists|now: i64| final(self)@.entries == stored(
                old(self)@.entries,
                old(self)@.capacity,
                key@,
                size,
                now,
            ),
            final(self)@.capacity == old(self)@.capacity,
            final(self)@.current_size == total_of(final(self)@.entries),
            final(self)@.max_size == old(self)@.max_size,
            final(self)@.cache_dir == old(self)@.cache_dir,
    {
        let now = utc_now_millis();
        self.record(key, size, now);
    }

    /// Looks `key` up now (the clock is read here); see [`Cache::touch`].
    pub fn touch_now(&mut self, key: &str) -> (hit: bool)
        ensures
            hit == (entry_position(old(self)@.entries, key@) is Some),
            final(self)@.capacity == old(self)@.capacity,
            final(self)@.current_size == old(self)@.current_size,
            final(self)@.max_size == old(self)@.max_size,
            final(self)@.cache_dir == old(self)@.cache_dir,
            match entry_position(old(self)@.entries, key@) {
                Some(i) => exists|now: i64| final(self)@.entries == seq![(key@, old(self)@.entries[i].1, now)]
                    + old(self)@.entries.remove(i),
                None => final(self)@.entries == old(self)@.entries,
            },
    {
        let now = utc_now_millis();
        self.touch(key, now)
    }

    /// Empties the index and sets the byte count to zero.
    pub fn clear_index(&mut self)
        ensures
            index_wf(old(self)@) && index_wf(final(self)@),
            final(self)@.entries == Seq::<IndexEntry>::empty(),
            final(self)@.capacity == old(self)@.capacity,
            final(self)@.current_size == 0,
            final(self)@.max_size == old(self)@.max_size,
            final(self)@.cache_dir == old(self)@.cache_dir,
    {
        proof {
            use_type_invariant(&*self);
        }
        let (config, mut lru, current) = self.take_parts();

        lru_clear(&mut lru);
        proof {
            assert(index_view(lru_entries(lru)) =~= Seq::<IndexEntry>::empty());
        }
        *self = Cache { config, lru, current_size: 0 };

    }

    /// Statistics: the byte count, the number of entries, and the earliest
    /// and latest access times among them.
    pub fn stats(&self) -> (s: CacheStats)
        ensures
            s.total_size == self@.current_size,
            s.entry_count == self@.entries.len(),
            s.oldest == min_time(times_of(self@.entries)),
            s.newest == max_time(times_of(self@.entries)),
    {
        let times = lru_access_times(&self.lru);
        let ghost ts = times_of(self@.entries);
        proof {
            assert(times@ =~= ts);
        }
        let mut oldest: Option<i64> = None;
        let mut newest: Option<i64> = None;
        let mut i: usize = 0;
        while i < times.len()
            invariant
                i <= times@.len(),
                times@ == ts,
                oldest == min_time(ts.subrange(0, i as int)),
                newest == max_time(ts.subrange(0, i as int)),
            decreases times@.len() - i,
        {
            let t = times[i];
            proof {
                assert(ts.subrange(0, i + 1).drop_last() =~= ts.subrange(0, i as int));
            }
            oldest = match oldest {
                None => Some(t),
                Some(o) => Some(if t < o { t } else { o }),
            };
            newest = match newest {
                None => Some(t),
                Some(m) => Some(if t > m { t } else { m }),
            };
            i = i + 1;
        }
        proof {
            assert(ts.subrange(0, i as int) =~= ts);
        }
        let n = lru_len(&self.lru);
        CacheStats { total_size: self.current_size, entry_count: n, oldest, newest }
    }
}

/// Storing after evicting while an eviction is called for keeps the cache
/// within its limit: when no eviction is called for and the data itself fits
/// the limit, the stored entries total at most the limit, and the key is
/// cached with its size.
pub proof fn lemma_store_fits(v: CacheView, k: Seq<char>, size: u64, now: i64)
    requires
        index_wf(v),
        !(v.current_size + size > v.max_size && v.entries.len() > 0),
        size <= v.max_size,
    ensures
        total_of(stored(v.entries, v.capacity, k, size, now)) <= v.max_size,
        stored(v.entries, v.capacity, k, size, now)[0] == (k, size, now),
{
    let s = v.entries;
    let rest = match entry_position(s, k) {
        Some(i) => s.remove(i),
        None => if s.len() == v.capacity {
            s.drop_last()
        } else {
            s
        },
    };
    lemma_entry_position(s, k);
    match entry_position(s, k) {
        Some(i) => {
            lemma_total_remove(s, i);
            lemma_total_nonneg(s.remove(i));
        },
        None => {
            if s.len() == v.capacity {
                lemma_total_remove(s, s.len() - 1);
                assert(s.remove(s.len() - 1) =~= s.drop_last());
                lemma_total_nonneg(s.drop_last());
            }
        },
    }
    assert(total_of(rest) <= total_of(s));
    lemma_total_front((k, size, now), rest);
    if s.len() == 0 {
        assert(rest =~= Seq::<IndexEntry>::empty());
    }
}

/// The entries left after evicting the least recently used ones while
/// storing `size` more bytes would pass the limit `max` (what repeating
/// `pop_lru_entry` while `needs_eviction(size)` leaves).
pub open spec fn evicted_for(s: Seq<IndexEntry>, size: u64, max: u64) -> Seq<IndexEntry>
    decreases s.len(),
{
    if s.len() > 0 && total_of(s) + size > max {
        evicted_for(s.drop_last(), size, max)
    } else {
        s
    }
}

/// The entries after putting `k` with `size` bytes at time `now`: evict as
/// needed, then store.
pub open spec fn put_entries(v: CacheView, k: Seq<char>, size: u64, now: i64) -> Seq<IndexEntry> {
    stored(evicted_for(v.entries, size, v.max_size), v.capacity, k, size, now)
}

/// Evicting keeps the most recently used entries, in order, and ends with
/// room for the new bytes or with no entry left.
proof fn lemma_evicted_for(s: Seq<IndexEntry>, size: u64, max: u64)
    requires
        keys_distinct(s),
    ensures
        evicted_for(s, size, max).len() <= s.len(),
        evicted_for(s, size, max) == s.take(evicted_for(s, size, max).len() as int),
        total_of(evicted_for(s, size, max)) <= total_of(s),
        evicted_for(s, size, max).len() == 0 || total_of(evicted_for(s, size, max)) + size <= max,
        keys_distinct(evicted_for(s, size, max)),
    decreases s.len(),
{
    if s.len() > 0 && total_of(s) + size > max {
        let t = s.drop_last();
        assert(keys_distinct(t)) by {
            assert forall|i: int, j: int| 0 <= i < t.len() && 0 <= j < t.len() && i != j implies #[trigger] t[i].0
                != #[trigger] t[j].0 by {
                assert(t[i] == s[i] && t[j] == s[j]);
            }
        }
        lemma_evicted_for(t, size, max);
        let e = evicted_for(t, size, max);
        assert(t.take(e.len() as int) =~= s.take(e.len() as int));
        assert(total_of(s) == total_of(t) + s.last().1);
    } else {
        assert(s.take(s.len() as int) =~= s);
    }
}

/// One turn of the eviction loop: while `needs_eviction(size)` holds,
/// `pop_lru_entry` drops the last entry and the entries left to come are
/// unchanged; once it fails, nothing more is evicted.
pub proof fn lemma_evict_step(v: CacheView, size: u64)
    requires
        index_wf(v),
    ensures
        v.current_size + size > v.max_size && v.entries.len() > 0 ==> evicted_for(v.entries, size, v.max_size)
            == evicted_for(v.entries.drop_last(), size, v.max_size),
        !(v.current_size + size > v.max_size && v.entries.len() > 0) ==> evicted_for(v.entries, size, v.max_size)
            == v.entries,
{
}

/// A put (evict the least recently used entries while the new bytes would
/// pass the limit, then store) keeps the index consistent, leaves only the
/// most recently used of the earlier entries, stores the key first with its
/// size so that a lookup finds it, and keeps the byte count, the total of
/// the entries, within the limit when the data itself fits.
pub proof fn lemma_put_law(v: CacheView, k: Seq<char>, size: u64, now: i64)
    requires
        index_wf(v),
        size <= v.max_size,
    ensures
        evicted_for(v.entries, size, v.max_size) == v.entries.take(evicted_for(v.entries, size, v.max_size).len() as int),
        keys_distinct(put_entries(v, k, size, now)),
        put_entries(v, k, size, now).len() <= v.capacity,
        put_entries(v, k, size, now)[0] == (k, size, now),
        entry_position(put_entries(v, k, size, now), k) == Some(0int),
        total_of(put_entries(v, k, size, now)) <= v.max_size,
{
    let e = evicted_for(v.entries, size, v.max_size);
    lemma_evicted_for(v.entries, size, v.max_size);
    let w = CacheView { entries: e, current_size: total_of(e) as u64, ..v };
    lemma_total_nonneg(e);
    if e.len() > 0 {
        assert(total_of(e) <= v.max_size);
    } else {
        assert(total_of(e) == 0);
    }
    assert(index_wf(w));
    lemma_store_fits(w, k, size, now);
    lemma_stored_is_found(e, v.capacity, k, size, now);
}

/// Storing a key keeps the index consistent and puts the key first: a
/// lookup right after a store finds what was stored.
pub proof fn lemma_stored_is_found(s: Seq<IndexEntry>, cap: nat, k: Seq<char>, size: u64, now: i64)
    requires
        keys_distinct(s),
        s.len() <= cap,
        cap > 0,
    ensures
        keys_distinct(stored(s, cap, k, size, now)),
        stored(s, cap, k, size, now).len() <= cap,
        entry_position(stored(s, cap, k, size, now), k) == Some(0int),
        stored(s, cap, k, size, now)[0] == (k, size, now),
{
    let t = stored(s, cap, k, size, now);
    lemma_entry_position(s, k);
    assert forall|a: int, b: int| 0 <= a < t.len() && 0 <= b < t.len() && a != b implies #[trigger] t[a].0
        != #[trigger] t[b].0 by {
        match entry_position(s, k) {
            Some(i) => {
                let pa = if a - 1 < i { a - 1 } else { a };
                let pb = if b - 1 < i { b - 1 } else { b };
                if a > 0 {
                    assert(t[a] == s[pa]);
                }
                if b > 0 {
                    assert(t[b] == s[pb]);
                }
            },
            None => {
                if a > 0 {
                    assert(t[a] == s[a - 1]);
                }
                if b > 0 {
                    assert(t[b] == s[b - 1]);
                }
            },
        }
    }
    lemma_entry_position(t, k);
    let p = entry_position(t, k);
    assert(t[0].0 == k);
    if p != Some(0int) {
        assert(t[p->0].0 == k);
    }
}

/// Storing a key evicts no other entry, except the least recently used one
/// when a new key finds the index full; the others keep their values.
pub proof fn lemma_store_keeps_others(
    s: Seq<IndexEntry>,
    cap: nat,
    k: Seq<char>,
    size: u64,
    now: i64,
    j: int,
)
    requires
        keys_distinct(s),
        s.len() <= cap,
        cap > 0,
        0 <= j < s.len(),
        s[j].0 != k,
        !(entry_position(s, k) is None && s.len() == cap && j == s.len() - 1),
    ensures
        entry_position(stored(s, cap, k, size, now), s[j].0) matches Some(p) && stored(
            s,
            cap,
            k,
            size,
            now,
        )[p] == s[j],
{
    let t = stored(s, cap, k, size, now);
    lemma_stored_is_found(s, cap, k, size, now);
    lemma_entry_position(s, k);
    let q = match entry_position(s, k) {
        Some(i) => if j < i { j + 1 } else { j },
        None => j + 1,
    };
    assert(t[q] == s[j]);
    lemma_entry_position(t, s[j].0);
    let p = entry_position(t, s[j].0);
    if p != Some(q) {
        assert(t[p->0].0 == s[j].0);
    }
}

/// A key just stored is not the next to be evicted, unless it is the only entry.
pub proof fn lemma_stored_not_evicted_next(s: Seq<IndexEntry>, cap: nat, k: Seq<char>, size: u64, now: i64)
    requires
        keys_distinct(s),
        s.len() <= cap,
        cap > 0,
        stored(s, cap, k, size, now).len() > 1,
    ensures
        stored(s, cap, k, size, now).last().0 != k,
{
    lemma_stored_is_found(s, cap, k, size, now);
    let t = stored(s, cap, k, size, now);
    assert(t[t.len() - 1].0 != t[0].0);
}

} // verus!
