//! Station selector: a filter over the station list and the station chosen.

use vstd::prelude::*;
use vstd::string::StringExecFns;
use crate::fetch::station::{Station, StationView};
use crate::text::{contains_text, decimal, lower_text, push_decimal, push_str, same_text, text_contains, text_to_lowercase};

verus! {

/// Most stations the list shows.
pub const MAX_VISIBLE_STATIONS: usize = 15;

/// Messages of the station selector.
#[derive(Debug, Clone)]
pub enum StationSelectorMessage {
    /// The filter text changed.
    FilterChanged(String),
    /// A station was chosen from the list.
    StationSelected(Station),
}

/// Whether a station matches a lowercase query: its lowercased ID or name
/// contains the query.
pub open spec fn station_matches(s: StationView, query: Seq<char>) -> bool {
    contains_text(lower_text(s.id), query) || contains_text(lower_text(s.name), query)
}

/// The stations of `all` that match `query`, in order.
pub open spec fn matching(all: Seq<StationView>, query: Seq<char>) -> Seq<StationView>
    decreases all.len(),
{
    if all.len() == 0 {
        Seq::empty()
    } else {
        let rest = matching(all.drop_last(), query);
        if station_matches(all.last(), query) {
            rest.push(all.last())
        } else {
            rest
        }
    }
}

/// At most the first `MAX_VISIBLE_STATIONS` of `s`.
pub open spec fn first_visible(s: Seq<StationView>) -> Seq<StationView> {
    if s.len() > MAX_VISIBLE_STATIONS { s.take(MAX_VISIBLE_STATIONS as int) } else { s }
}

/// The stations listed for a lowercase query: all stations when the query
/// is empty, else those that match; at most `MAX_VISIBLE_STATIONS` of them.
pub open spec fn visible_stations(all: Seq<StationView>, query: Seq<char>) -> Seq<StationView> {
    first_visible(if query.len() == 0 { all } else { matching(all, query) })
}

/// Whether some station of `s` has the ID `id`.
pub open spec fn has_station_id(s: Seq<StationView>, id: Seq<char>) -> bool {
    exists|i: int| 0 <= i < s.len() && (#[trigger] s[i]).id == id
}

/// The views of stations.
pub open spec fn stations_view(v: Seq<Station>) -> Seq<StationView> {
    v.map_values(|s: Station| s@)
}

/// The line under the station list.
pub open spec fn count_line(unfiltered: bool, listed: nat, all: nat) -> Seq<char> {
    if unfiltered {
        "Showing all "@ + decimal(all) + " stations (scroll to see more)"@
    } else {
        "Found "@ + decimal(listed) + " of "@ + decimal(all) + " stations"@
    }
}

/// The state of the station selector.
#[derive(Debug)]
pub struct StationSelector {
    all_stations: Vec<Station>,
    filtered_stations: Vec<Station>,
    filter_text: String,
    selected_station: Option<Station>,
}

/// A copy of stations.
fn clone_stations(v: &Vec<Station>) -> (r: Vec<Station>)
    ensures
        stations_view(r@) == stations_view(v@),
{
    let mut r: Vec<Station> = Vec::new();
    let mut i: usize = 0;
    while i < v.len()
        invariant
            i <= v@.len(),
            stations_view(r@) == stations_view(v@).take(i as int),
        decreases v@.len() - i,
    {
        let c = v[i].clone();
        let ghost before = r@;
        r.push(c);
        proof {
            assert(c@ == v@[i as int]@);
            assert(stations_view(r@) =~= stations_view(before).push(c@));
            assert(stations_view(v@).take(i + 1) =~= stations_view(v@).take(i as int).push(v@[i as int]@));
        }
        i = i + 1;
    }
    assert(stations_view(v@).take(i as int) =~= stations_view(v@));
    r
}

/// The stations of `all` that match `query`.
fn matching_stations(all: &Vec<Station>, query: &str) -> (r: Vec<Station>)
    ensures
        stations_view(r@) == matching(stations_view(all@), query@),
{
    let mut r: Vec<Station> = Vec::new();
    let mut i: usize = 0;
    while i < all.len()
        invariant
            i <= all@.len(),
            stations_view(r@) == matching(stations_view(all@).take(i as int), query@),
        decreases all@.len() - i,
    {
        let ghost pre = stations_view(all@).take(i + 1);
        assert(pre.drop_last() =~= stations_view(all@).take(i as int));
        assert(pre.last() == all@[i as int]@);
        let id = text_to_lowercase(all[i].id.as_str());
        let name = text_to_lowercase(all[i].name.as_str());
        if text_contains(id.as_str(), query) || text_contains(name.as_str(), query) {
            r.push(all[i].clone());
            assert(stations_view(r@) =~= matching(pre, query@));
        }
        i = i + 1;
    }
    assert(stations_view(all@).take(i as int) =~= stations_view(all@));
    r
}

impl StationSelector {
    /// All stations (specification).
    pub closed spec fn all(&self) -> Seq<StationView> {
        stations_view(self.all_stations@)
    }

    /// The stations listed (specification).
    pub closed spec fn listed(&self) -> Seq<StationView> {
        stations_view(self.filtered_stations@)
    }

    /// The filter text (specification).
    pub closed spec fn filter(&self) -> Seq<char> {
        self.filter_text@
    }

    /// The station chosen (specification).
    pub closed spec fn selected(&self) -> Option<StationView> {
        match self.selected_station {
            Some(s) => Some(s@),
            None => None,
        }
    }

    /// A selector over `stations`, all listed, none chosen, no filter.
    pub fn with_stations(stations: Vec<Station>) -> (s: Self)
        ensures
            s.all() == stations_view(stations@),
            s.listed() == stations_view(stations@),
            s.filter() == Seq::<char>::empty(),
            s.selected() is None,
    {
        let filtered_stations = clone_stations(&stations);
        StationSelector {
            all_stations: stations,
            filtered_stations,
            filter_text: String::new(),
            selected_station: None,
        }
    }

    /// The station chosen.
    pub fn selected_station(&self) -> (r: Option<&Station>)
        ensures
            match r {
                Some(s) => self.selected() == Some(s@),
                None => self.selected() is None,
            },
    {
        match &self.selected_station {
            Some(s) => Some(s),
            None => None,
        }
    }

    /// The stations listed.
    pub fn filtered_stations(&self) -> (r: &[Station])
        ensures
            stations_view(r@) == self.listed(),
    {
        self.filtered_stations.as_slice()
    }

    /// The filter text.
    pub fn filter_text(&self) -> (r: &str)
        ensures
            r@ == self.filter(),
    {
        self.filter_text.as_str()
    }

    /// Whether the listed station at `i` is the one chosen (same ID), as the
    /// list marks it.
    pub fn is_selected(&self, i: usize) -> (b: bool)
        requires
            i < self.listed().len(),
        ensures
            b == (self.selected() matches Some(c) && c.id == self.listed()[i as int].id),
    {
        assert(self.listed()[i as int] == self.filtered_stations@[i as int]@);
        match &self.selected_station {
            Some(c) => same_text(c.id.as_str(), self.filtered_stations[i].id.as_str()),
            None => false,
        }
    }

    /// The line under the list: `Showing all {n} stations (scroll to see
    /// more)` without a filter, `Found {k} of {n} stations` with one.
    pub fn count_text(&self) -> (t: String)
        ensures
            t@ == count_line(self.filter().len() == 0, self.listed().len(), self.all().len()),
    {
        let mut t = String::new();
        if self.filter_text.unicode_len() == 0 {
            push_str(&mut t, "Showing all ");
            push_decimal(&mut t, self.all_stations.len() as u64);
            push_str(&mut t, " stations (scroll to see more)");
        } else {
            push_str(&mut t, "Found ");
            push_decimal(&mut t, self.filtered_stations.len() as u64);
            push_str(&mut t, " of ");
            push_decimal(&mut t, self.all_stations.len() as u64);
            push_str(&mut t, " stations");
        }
        proof {
            assert(t@ =~= count_line(self.filter().len() == 0, self.listed().len(), self.all().len()));
        }
        t
    }

    /// Lists the stations for the current filter text.
    fn update_filter(&mut self)
        ensures
            final(self).all() == old(self).all(),
            final(self).filter() == old(self).filter(),
            final(self).selected() == old(self).selected(),
            final(self).listed() == visible_stations(old(self).all(), lower_text(old(self).filter())),
    {
        let query = text_to_lowercase(self.filter_text.as_str());
        let mut list = if query.unicode_len() == 0 {
            clone_stations(&self.all_stations)
        } else {
            matching_stations(&self.all_stations, query.as_str())
        };
        if list.len() > MAX_VISIBLE_STATIONS {
            list.truncate(MAX_VISIBLE_STATIONS);
            proof {
                assert(stations_view(list@) =~= stations_view(old(self).filtered_stations@).take(0)
                    + stations_view(list@));
            }
        }
        proof {
            let full = if lower_text(self.filter_text@).len() == 0 {
                stations_view(self.all_stations@)
            } else {
                matching(stations_view(self.all_stations@), lower_text(self.filter_text@))
            };
            assert(stations_view(list@) =~= first_visible(full));
        }
        self.filtered_stations = list;
    }

    /// Handles a message.  A new filter lists the matching stations and drops
    /// a chosen station whose ID is no longer listed; a chosen station is
    /// recorded as is.
    pub fn update(&mut self, message: StationSelectorMessage)
        ensures
            final(self).all() == old(self).all(),
            match message {
                StationSelectorMessage::FilterChanged(text) => {
                    &&& final(self).filter() == text@
                    &&& final(self).listed() == visible_stations(old(self).all(), lower_text(text@))
                    &&& final(self).selected() == match old(self).selected() {
                        Some(s) => if has_station_id(final(self).listed(), s.id) {
                            Some(s)
                        } else {
                            None
                        },
                        None => None,
                    }
                },
                StationSelectorMessage::StationSelected(station) => {
                    &&& final(self).filter() == old(self).filter()
                    &&& final(self).listed() == old(self).listed()
                    &&& final(self).selected() == Some(station@)
                },
            },
    {
        match message {
            StationSelectorMessage::FilterChanged(text) => {
                self.filter_text = text;
                self.update_filter();
                let keep = match &self.selected_station {
                    Some(sel) => {
                        let mut found = false;
                        let mut i: usize = 0;
                        while i < self.filtered_stations.len()
                            invariant
                                i <= self.filtered_stations@.len(),
                                found == exists|j: int|
                                    0 <= j < i && (#[trigger] self.filtered_stations@[j])@.id == sel.id@,
                            decreases self.filtered_stations@.len() - i,
                        {
                            if same_text(self.filtered_stations[i].id.as_str(), sel.id.as_str()) {
                                found = true;
                            }
                            i = i + 1;
                        }
                        proof {
                            let l = stations_view(self.filtered_stations@);
                            if found {
                                let j = choose|j: int|
                                    0 <= j < i && (#[trigger] self.filtered_stations@[j])@.id == sel.id@;
                                assert(l[j].id == sel.id@);
                            } else {
                                assert forall|j: int| 0 <= j < l.len() implies (#[trigger] l[j]).id != sel.id@ by {
                                    assert(l[j] == self.filtered_stations@[j]@);
                                }
                            }
                        }
                        found
                    },
                    None => true,
                };
                if !keep {
                    self.selected_station = None;
                }
            },
            StationSelectorMessage::StationSelected(station) => {
                self.selected_station = Some(station);
            },
        }
    }
}

} // verus!
