//! NEXRAD radar stations.
//!
//! Coordinates are kept as the bit patterns of their floats (`f64::to_bits`
//! for latitude and longitude, `f32::to_bits` for the elevation).

use vstd::prelude::*;
use crate::text::{lemma_text_le_total, lemma_text_le_transitive, owned, push_str, same_text, text_le, text_le_exec};

verus! {

/// A NEXRAD radar station.
#[derive(Debug)]
pub struct Station {
    /// The ICAO identifier (such as `KTLX`).
    pub id: String,
    /// Human-readable name (such as `Oklahoma City`).
    pub name: String,
    /// Latitude in decimal degrees, as `f64` bits.
    pub lat_bits: u64,
    /// Longitude in decimal degrees, as `f64` bits.
    pub lon_bits: u64,
    /// Elevation in meters above sea level, as `f32` bits.
    pub elevation_m_bits: u32,
}

/// The value of a station.
pub struct StationView {
    pub id: Seq<char>,
    pub name: Seq<char>,
    pub lat_bits: u64,
    pub lon_bits: u64,
    pub elevation_m_bits: u32,
}

impl View for Station {
    type V = StationView;

    open spec fn view(&self) -> StationView {
        StationView {
            id: self.id@,
            name: self.name@,
            lat_bits: self.lat_bits,
            lon_bits: self.lon_bits,
            elevation_m_bits: self.elevation_m_bits,
        }
    }
}

impl Clone for Station {
    fn clone(&self) -> (r: Self)
        ensures
            r@ == self@,
    {
        Station {
            id: self.id.clone(),
            name: self.name.clone(),
            lat_bits: self.lat_bits,
            lon_bits: self.lon_bits,
            elevation_m_bits: self.elevation_m_bits,
        }
    }
}

impl Station {
    /// Creates a station.
    pub fn new(id: &str, name: &str, lat_bits: u64, lon_bits: u64, elevation_m_bits: u32) -> (s: Self)
        ensures
            s@ == (StationView { id: id@, name: name@, lat_bits, lon_bits, elevation_m_bits }),
    {
        Station { id: owned(id), name: owned(name), lat_bits, lon_bits, elevation_m_bits }
    }

    /// The text a station is shown as: `ID - Name`.
    pub fn to_display_string(&self) -> (t: String)
        ensures
            t@ == self.id@ + " - "@ + self.name@,
    {
        let mut t = self.id.clone();
        push_str(&mut t, " - ");
        push_str(&mut t, self.name.as_str());
        t
    }
}

/// The texts of strings.
pub open spec fn texts(v: Seq<String>) -> Seq<Seq<char>> {
    v.map_values(|s: String| s@)
}

/// Texts in the order of `str`.
pub open spec fn texts_sorted(s: Seq<Seq<char>>) -> bool {
    forall|i: int, j: int| 0 <= i < j < s.len() ==> text_le(#[trigger] s[i], #[trigger] s[j])
}

/// Sorts strings in the order of `str` (what `sort` does to a `Vec<String>`).
pub fn sort_texts(v: &Vec<String>) -> (r: Vec<String>)
    ensures
        texts_sorted(texts(r@)),
        texts(r@).to_multiset() == texts(v@).to_multiset(),
{
    let mut r: Vec<String> = Vec::new();
    let mut i: usize = 0;
    proof {
        assert(texts(r@) =~= Seq::<Seq<char>>::empty());
        assert(texts(v@).take(0) =~= Seq::<Seq<char>>::empty());
    }
    while i < v.len()
        invariant
            i <= v@.len(),
            texts_sorted(texts(r@)),
            texts(r@).to_multiset() == texts(v@).take(i as int).to_multiset(),
        decreases v@.len() - i,
    {
        let x = v[i].clone();
        let mut j: usize = 0;
        while j < r.len() && text_le_exec(r[j].as_str(), x.as_str())
            invariant
                j <= r@.len(),
                forall|k: int| 0 <= k < j ==> text_le(#[trigger] texts(r@)[k], x@),
            decreases r@.len() - j,
        {
            j = j + 1;
        }
        let ghost old_t = texts(r@);
        proof {
            if j < r@.len() {
                lemma_text_le_total(old_t[j as int], x@);
                assert forall|k: int| j <= k < old_t.len() implies text_le(x@, #[trigger] old_t[k]) by {
                    if k > j {
                        lemma_text_le_transitive(x@, old_t[j as int], old_t[k]);
                    }
                }
            }
        }
        r.insert(j, x);
        proof {
            let t = texts(r@);
            assert(t =~= old_t.insert(j as int, x@));
            assert forall|a: int, b: int| 0 <= a < b < t.len() implies text_le(#[trigger] t[a], #[trigger] t[b]) by {
                if a < j && b < j {
                    assert(t[a] == old_t[a] && t[b] == old_t[b]);
                } else if a < j && b == j {
                } else if a < j && b > j {
                    assert(t[b] == old_t[b - 1]);
                    if b - 1 >= j {
                        lemma_text_le_transitive(old_t[a], x@, old_t[b - 1]);
                    }
                } else if a == j {
                    assert(t[b] == old_t[b - 1]);
                } else {
                    assert(t[a] == old_t[a - 1] && t[b] == old_t[b - 1]);
                }
            }
            vstd::seq_lib::to_multiset_insert(old_t, j as int, x@);
            assert(texts(v@).take(i + 1) =~= texts(v@).take(i as int).push(x@));
            vstd::seq_lib::to_multiset_build(texts(v@).take(i as int), x@);
        }
        i = i + 1;
    }
    proof {
        assert(texts(v@).take(i as int) =~= texts(v@));
    }
    r
}

/// The views of stations.
pub open spec fn station_views(v: Seq<Station>) -> Seq<StationView> {
    v.map_values(|s: Station| s@)
}

/// A position of a station with ID `id` (the only one when IDs are distinct).
pub open spec fn id_position(s: Seq<StationView>, id: Seq<char>) -> Option<int> {
    if exists|i: int| 0 <= i < s.len() && (#[trigger] s[i]).id == id {
        Some(choose|i: int| 0 <= i < s.len() && (#[trigger] s[i]).id == id)
    } else {
        None
    }
}

/// The stations of `all`, one per ID, where the ID first appears: a
/// station given again under an ID already seen replaces the earlier one.
pub open spec fn one_per_id(all: Seq<StationView>) -> Seq<StationView>
    decreases all.len(),
{
    if all.len() == 0 {
        Seq::empty()
    } else {
        let rest = one_per_id(all.drop_last());
        match id_position(rest, all.last().id) {
            Some(p) => rest.update(p, all.last()),
            None => rest.push(all.last()),
        }
    }
}

/// No two stations share an ID.
pub open spec fn ids_distinct(s: Seq<StationView>) -> bool {
    forall|i: int, j: int| 0 <= i < s.len() && 0 <= j < s.len() && i != j ==> (#[trigger] s[i]).id != (#[trigger] s[j]).id
}

/// The last station of `all` with ID `id`.
pub open spec fn last_with_id(all: Seq<StationView>, id: Seq<char>) -> Option<StationView>
    decreases all.len(),
{
    if all.len() == 0 {
        None
    } else if all.last().id == id {
        Some(all.last())
    } else {
        last_with_id(all.drop_last(), id)
    }
}

/// What `id_position` finds.
proof fn lemma_id_position(s: Seq<StationView>, id: Seq<char>)
    ensures
        id_position(s, id) matches Some(p) ==> 0 <= p < s.len() && s[p].id == id,
        id_position(s, id) is None ==> forall|i: int| 0 <= i < s.len() ==> (#[trigger] s[i]).id != id,
{
}

/// One station per ID: the IDs are distinct, every ID given has its entry,
/// and that entry is the last station given with the ID.
pub proof fn lemma_one_per_id(all: Seq<StationView>)
    ensures
        ids_distinct(one_per_id(all)),
        forall|k: Seq<char>| #[trigger] last_with_id(all, k) is Some <==> id_position(one_per_id(all), k) is Some,
        forall|k: Seq<char>| #[trigger] id_position(one_per_id(all), k) matches Some(p) ==> Some(one_per_id(all)[p])
            == last_with_id(all, k),
    decreases all.len(),
{
    if all.len() > 0 {
        let rest = one_per_id(all.drop_last());
        let e = all.last();
        let t = one_per_id(all);
        lemma_one_per_id(all.drop_last());
        lemma_id_position(rest, e.id);
        assert forall|a: int, b: int| 0 <= a < t.len() && 0 <= b < t.len() && a != b implies (#[trigger] t[a]).id
            != (#[trigger] t[b]).id by {
            match id_position(rest, e.id) {
                Some(p) => {
                    if a != p && b != p {
                        assert(t[a] == rest[a] && t[b] == rest[b]);
                    } else if a == p {
                        assert(t[b] == rest[b]);
                        assert(rest[p].id == e.id);
                    } else {
                        assert(t[a] == rest[a]);
                        assert(rest[p].id == e.id);
                    }
                },
                None => {
                    if a < rest.len() && b < rest.len() {
                        assert(t[a] == rest[a] && t[b] == rest[b]);
                    } else if a < rest.len() {
                        assert(t[a] == rest[a]);
                    } else {
                        assert(t[b] == rest[b]);
                    }
                },
            }
        }
        assert forall|k: Seq<char>| #[trigger] last_with_id(all, k) is Some <==> id_position(t, k) is Some by {
            lemma_id_position(t, k);
            lemma_id_position(rest, k);
            assert(last_with_id(all, k) == if e.id == k {
                Some(e)
            } else {
                last_with_id(all.drop_last(), k)
            });
            assert(last_with_id(all.drop_last(), k) is Some <==> id_position(rest, k) is Some);
            if k == e.id {
                match id_position(rest, e.id) {
                    Some(p) => assert(t[p].id == k),
                    None => assert(t[rest.len() as int].id == k),
                }
            } else {
                if id_position(rest, k) is Some {
                    let q = id_position(rest, k)->0;
                    assert(t[q].id == k);
                }
                if id_position(t, k) is Some {
                    let q = id_position(t, k)->0;
                    match id_position(rest, e.id) {
                        Some(p) => {
                            assert(q != p);
                            assert(rest[q].id == k);
                        },
                        None => {
                            assert(q < rest.len());
                            assert(rest[q].id == k);
                        },
                    }
                }
            }
        }
        assert forall|k: Seq<char>| #[trigger] id_position(t, k) matches Some(p) ==> Some(t[p]) == last_with_id(all, k) by {
            lemma_id_position(t, k);
            lemma_id_position(rest, k);
            assert(last_with_id(all, k) == if e.id == k {
                Some(e)
            } else {
                last_with_id(all.drop_last(), k)
            });
            assert(last_with_id(all.drop_last(), k) is Some <==> id_position(rest, k) is Some);
            if id_position(t, k) is Some {
                let q = id_position(t, k)->0;
                if k == e.id {
                    match id_position(rest, e.id) {
                        Some(p) => {
                            if q != p {
                                assert(t[q].id != t[p].id);
                            }
                        },
                        None => {
                            if q != rest.len() {
                                assert(t[q] == rest[q]);
                            }
                        },
                    }
                } else {
                    match id_position(rest, e.id) {
                        Some(p) => {
                            assert(q != p);
                            assert(t[q] == rest[q]);
                        },
                        None => {
                            assert(q < rest.len());
                            assert(t[q] == rest[q]);
                        },
                    }
                    assert(id_position(rest, k) is Some);
                    let r = id_position(rest, k)->0;
                    assert(id_position(rest, k) matches Some(pp) ==> Some(rest[pp]) == last_with_id(all.drop_last(), k));
                    if r != q {
                        assert(rest[r].id == rest[q].id);
                    }
                }
            }
        }
    }
}

/// The registry of NEXRAD stations: one station per ID, and every ID given
/// in the order of `str` (an ID given twice is listed twice).
#[derive(Debug)]
pub struct StationRegistry {
    stations: Vec<Station>,
    station_ids: Vec<String>,
}

impl StationRegistry {
    /// The stations, one per ID (specification).
    pub closed spec fn entries(&self) -> Seq<StationView> {
        station_views(self.stations@)
    }

    /// The IDs given, sorted (specification).
    pub closed spec fn ids(&self) -> Seq<Seq<char>> {
        texts(self.station_ids@)
    }

    #[verifier::type_invariant]
    spec fn inv(self) -> bool {
        &&& ids_distinct(self.entries())
        &&& forall|i: int| 0 <= i < self.ids().len() ==> id_position(self.entries(), #[trigger] self.ids()[i]) is Some
    }

    /// A registry of `stations`.
    pub fn from_stations(stations: Vec<Station>) -> (r: Self)
        ensures
            r.entries() == one_per_id(station_views(stations@)),
            texts_sorted(r.ids()),
            r.ids().to_multiset() == station_views(stations@).map_values(|s: StationView| s.id).to_multiset(),
    {
        let ghost all = station_views(stations@);
        let mut entries: Vec<Station> = Vec::new();
        let mut ids: Vec<String> = Vec::new();
        let mut i: usize = 0;
        proof {
            assert(station_views(entries@) =~= one_per_id(all.take(0)));
            assert(texts(ids@) =~= all.take(0).map_values(|s: StationView| s.id));
        }
        while i < stations.len()
            invariant
                i <= stations@.len(),
                all == station_views(stations@),
                station_views(entries@) == one_per_id(all.take(i as int)),
                texts(ids@) == all.take(i as int).map_values(|s: StationView| s.id),
            decreases stations@.len() - i,
        {
            let s = stations[i].clone();
            let ghost pre = all.take(i + 1);
            proof {
                assert(pre.drop_last() =~= all.take(i as int));
                assert(pre.last() == s@);
            }
            let ghost cur = station_views(entries@);
            proof {
                lemma_one_per_id(all.take(i as int));
            }
            let mut p: usize = 0;
            while p < entries.len() && !same_text(entries[p].id.as_str(), s.id.as_str())
                invariant
                    p <= entries@.len(),
                    cur == station_views(entries@),
                    forall|k: int| 0 <= k < p ==> (#[trigger] cur[k]).id != s@.id,
                decreases entries@.len() - p,
            {
                p = p + 1;
            }
            proof {
                lemma_id_position(cur, s@.id);
                if p < entries@.len() {
                    assert(cur[p as int].id == s@.id);
                    let q = id_position(cur, s@.id)->0;
                    if q != p {
                        assert(cur[q].id == s@.id);
                    }
                }
            }
            let id_copy = owned(s.id.as_str());
            let ghost old_ids = texts(ids@);
            ids.push(id_copy);
            proof {
                assert(texts(ids@) =~= old_ids.push(s@.id));
                assert(pre.map_values(|s: StationView| s.id) =~= all.take(i as int).map_values(|s: StationView| s.id).push(
                    s@.id,
                ));
            }
            if p < entries.len() {
                entries.set(p, s);
                proof {
                    assert(station_views(entries@) =~= cur.update(p as int, pre.last()));
                }
            } else {
                entries.push(s);
                proof {
                    assert(station_views(entries@) =~= cur.push(pre.last()));
                }
            }
            proof {
                assert(one_per_id(pre.drop_last()) == cur);
                assert(texts(ids@) =~= pre.map_values(|s: StationView| s.id));
            }
            i = i + 1;
        }
        proof {
            assert(all.take(i as int) =~= all);
            lemma_one_per_id(all);
        }
        let sorted = sort_texts(&ids);
        proof {
            let e = station_views(entries@);
            let ts = texts(sorted@);
            assert forall|j: int| 0 <= j < ts.len() implies id_position(e, #[trigger] ts[j]) is Some by {
                vstd::seq_lib::to_multiset_contains(ts, ts[j]);
                assert(ts.contains(ts[j]));
                vstd::seq_lib::to_multiset_contains(texts(ids@), ts[j]);
                let q = choose|q: int| 0 <= q < texts(ids@).len() && texts(ids@)[q] == ts[j];
                assert(all[q].id == ts[j]);
                lemma_last_with_id_exists(all, q);
            }
        }
        StationRegistry { stations: entries, station_ids: sorted }
    }

    /// The station with ID `id`.
    pub fn get(&self, id: &str) -> (r: Option<&Station>)
        ensures
            match id_position(self.entries(), id@) {
                Some(p) => r matches Some(s) && s@ == self.entries()[p],
                None => r is None,
            },
    {
        proof {
            use_type_invariant(self);
        }
        let ghost e = self.entries();
        let mut p: usize = 0;
        while p < self.stations.len()
            invariant
                p <= self.stations@.len(),
                e == station_views(self.stations@),
                ids_distinct(e),
                forall|k: int| 0 <= k < p ==> (#[trigger] e[k]).id != id@,
            decreases self.stations@.len() - p,
        {
            if same_text(self.stations[p].id.as_str(), id) {
                proof {
                    assert(e[p as int] == self.stations@[p as int]@);
                    assert(e[p as int].id == id@);
                    lemma_id_position(e, id@);
                    let q = id_position(e, id@)->0;
                    assert(0 <= q < e.len() && e[q].id == id@);
                    assert(q == p as int);
                }
                return Some(&self.stations[p]);
            }
            p = p + 1;
        }
        proof {
            lemma_id_position(e, id@);
        }
        None
    }

    /// All stations in the order of their IDs.
    pub fn iter(&self) -> (v: Vec<Station>)
        ensures
            v@.len() == self.ids().len(),
            forall|i: int| 0 <= i < v@.len() ==> (id_position(self.entries(), #[trigger] self.ids()[i]) matches Some(p)
                && v@[i]@ == self.entries()[p]),
    {
        proof {
            use_type_invariant(self);
        }
        let mut v: Vec<Station> = Vec::new();
        let mut i: usize = 0;
        while i < self.station_ids.len()
            invariant
                i <= self.station_ids@.len(),
                v@.len() == i,
                forall|k: int| 0 <= k < self.ids().len() ==> id_position(self.entries(), #[trigger] self.ids()[k]) is Some,
                forall|k: int| 0 <= k < i ==> (id_position(self.entries(), #[trigger] self.ids()[k]) matches Some(p)
                    && v@[k]@ == self.entries()[p]),
            decreases self.station_ids@.len() - i,
        {
            assert(self.ids()[i as int] == self.station_ids@[i as int]@);
            match self.get(self.station_ids[i].as_str()) {
                Some(s) => {
                    v.push(s.clone());
                },
                None => {
                    return v;
                },
            }
            i = i + 1;
        }
        v
    }

    /// The number of stations.
    pub fn len(&self) -> (n: usize)
        ensures
            n == self.entries().len(),
    {
        self.stations.len()
    }

    /// Whether the registry has no station.
    pub fn is_empty(&self) -> (b: bool)
        ensures
            b == (self.entries().len() == 0),
    {
        self.stations.len() == 0
    }
}

/// A station given at position `q` has a last station with its ID.
proof fn lemma_last_with_id_exists(all: Seq<StationView>, q: int)
    requires
        0 <= q < all.len(),
    ensures
        last_with_id(all, all[q].id) is Some,
    decreases all.len(),
{
    if all.last().id != all[q].id {
        assert(q < all.len() - 1);
        assert(all.drop_last()[q] == all[q]);
        lemma_last_with_id_exists(all.drop_last(), q);
    }
}

} // verus!
