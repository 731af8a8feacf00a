//! Polling for new volume scans: which listed scans have not been seen yet.

use vstd::prelude::*;
use crate::text::same_text;
use super::types::{ScanMeta, ScanMetaView};

verus! {

/// Configuration of polling.
#[derive(Debug, Clone, Copy, PartialEq, Eq)]
pub struct PollConfig {
    /// Interval between polls, in seconds.
    pub poll_interval_secs: u64,
    /// Maximum number of attempts for a failed S3 request.
    pub max_retries: u32,
}

impl Default for PollConfig {
    fn default() -> (c: Self)
        ensures
            c == (PollConfig { poll_interval_secs: 60, max_retries: 3 }),
    {
        PollConfig { poll_interval_secs: 60, max_retries: 3 }
    }
}

/// The filenames of scans already reported.
#[derive(Debug)]
pub struct SeenScans {
    filenames: Vec<String>,
}

/// The texts held by a vector of strings.
pub open spec fn texts_of(v: Seq<String>) -> Set<Seq<char>> {
    Set::new(|t: Seq<char>| exists|i: int| 0 <= i < v.len() && #[trigger] v[i]@ == t)
}

impl SeenScans {
    /// The filenames seen so far.
    pub closed spec fn seen(&self) -> Set<Seq<char>> {
        texts_of(self.filenames@)
    }

    /// A tracker that has seen nothing.
    pub fn new() -> (s: Self)
        ensures
            s.seen() == Set::<Seq<char>>::empty(),
    {
        let s = SeenScans { filenames: Vec::new() };
        assert(s.seen() =~= Set::<Seq<char>>::empty());
        s
    }

    /// Whether `filename` has been seen.
    pub fn is_seen(&self, filename: &str) -> (b: bool)
        ensures
            b == self.seen().contains(filename@),
    {
        let mut i: usize = 0;
        while i < self.filenames.len()
            invariant
                i <= self.filenames@.len(),
                forall|j: int| 0 <= j < i ==> self.filenames@[j]@ != filename@,
            decreases self.filenames@.len() - i,
        {
            if same_text(self.filenames[i].as_str(), filename) {
                assert(self.seen().contains(filename@)) by {
                    assert(self.filenames@[i as int]@ == filename@);
                }
                return true;
            }
            i = i + 1;
        }
        false
    }

    /// Records `filename` as seen.
    pub fn mark_seen(&mut self, filename: String)
        ensures
            final(self).seen() == old(self).seen().insert(filename@),
    {
        let ghost old_names = self.filenames@;
        let ghost t = filename@;
        self.filenames.push(filename);
        assert forall|x: Seq<char>| #[trigger] self.seen().contains(x) == old(self).seen().insert(t).contains(x) by {
            if x == t {
                assert(self.filenames@[old_names.len() as int]@ == t);
            }
            if old(self).seen().contains(x) {
                let k = choose|k: int| 0 <= k < old_names.len() && #[trigger] old_names[k]@ == x;
                assert(self.filenames@[k]@ == x);
            }
            if self.seen().contains(x) {
                let k = choose|k: int| 0 <= k < self.filenames@.len() && #[trigger] self.filenames@[k]@ == x;
                if k < old_names.len() {
                    assert(old_names[k]@ == x);
                }
            }
        }
        assert(self.seen() =~= old(self).seen().insert(t));
    }
}

impl Default for SeenScans {
    fn default() -> (s: Self)
        ensures
            s.seen() == Set::<Seq<char>>::empty(),
    {
        Self::new()
    }
}

/// The views of a vector of scans.
pub open spec fn scans_view(v: Seq<ScanMeta>) -> Seq<ScanMetaView> {
    v.map_values(|m: ScanMeta| m@)
}

/// The scans of a listing that are reported, in order, when `seen` holds the
/// filenames reported before: those whose filename is neither in `seen` nor
/// on an earlier scan of the listing.
pub open spec fn unseen_scans(seen: Set<Seq<char>>, scans: Seq<ScanMetaView>) -> Seq<ScanMetaView>
    decreases scans.len(),
{
    if scans.len() == 0 {
        Seq::empty()
    } else if seen.contains(scans[0].filename) {
        unseen_scans(seen, scans.drop_first())
    } else {
        seq![scans[0]] + unseen_scans(seen.insert(scans[0].filename), scans.drop_first())
    }
}

/// The filenames of a listing.
pub open spec fn filenames_of(scans: Seq<ScanMetaView>) -> Set<Seq<char>> {
    Set::new(|t: Seq<char>| exists|i: int| 0 <= i < scans.len() && #[trigger] scans[i].filename == t)
}

proof fn lemma_filenames_step(scans: Seq<ScanMetaView>, i: int)
    requires
        0 <= i < scans.len(),
    ensures
        filenames_of(scans.take(i + 1)) == filenames_of(scans.take(i)).insert(scans[i].filename),
{
    let a = filenames_of(scans.take(i + 1));
    let b = filenames_of(scans.take(i)).insert(scans[i].filename);
    assert forall|t: Seq<char>| #[trigger] a.contains(t) == b.contains(t) by {
        if a.contains(t) {
            let k = choose|k: int| 0 <= k < i + 1 && #[trigger] scans.take(i + 1)[k].filename == t;
            if k < i {
                assert(scans.take(i)[k].filename == t);
            }
        }
        if filenames_of(scans.take(i)).contains(t) {
            let k = choose|k: int| 0 <= k < i && #[trigger] scans.take(i)[k].filename == t;
            assert(scans.take(i + 1)[k].filename == t);
        }
        if t == scans[i].filename {
            assert(scans.take(i + 1)[i].filename == t);
        }
    }
    assert(a =~= b);
}

/// Reports the scans of a listing not seen before, in listing order, and
/// records every filename of the listing as seen.
pub fn take_unseen(seen: &mut SeenScans, scans: Vec<ScanMeta>) -> (fresh: Vec<ScanMeta>)
    ensures
        scans_view(fresh@) == unseen_scans(old(seen).seen(), scans_view(scans@)),
        final(seen).seen() == old(seen).seen().union(filenames_of(scans_view(scans@))),
{
    let ghost all = scans_view(scans@);
    let ghost seen0 = seen.seen();
    let mut fresh: Vec<ScanMeta> = Vec::new();
    let mut i: usize = 0;
    assert(filenames_of(all.take(0)) =~= Set::<Seq<char>>::empty());
    assert(seen0.union(filenames_of(all.take(0))) =~= seen0);
    assert(all.skip(0) =~= all);
    while i < scans.len()
        invariant
            i <= scans@.len(),
            all == scans_view(scans@),
            seen.seen() == seen0.union(filenames_of(all.take(i as int))),
            scans_view(fresh@) + unseen_scans(seen.seen(), all.skip(i as int)) == unseen_scans(seen0, all),
        decreases scans@.len() - i,
    {
        let ghost before = scans_view(fresh@);
        let ghost seen_before = seen.seen();
        let scan = scans[i].clone();
        assert(all.skip(i as int).drop_first() =~= all.skip(i + 1));
        assert(all.skip(i as int)[0] == scan@);
        if !seen.is_seen(scan.filename.as_str()) {
            let name = scan.filename.clone();
            seen.mark_seen(name);
            fresh.push(scan);
            assert(scans_view(fresh@) =~= before.push(scans@[i as int]@));
            assert(scans_view(fresh@) + unseen_scans(seen.seen(), all.skip(i + 1)) =~= before
                + unseen_scans(seen_before, all.skip(i as int)));
        }
        proof {
            lemma_filenames_step(all, i as int);
            assert(seen.seen() =~= seen0.union(filenames_of(all.take(i + 1))));
        }
        i = i + 1;
    }
    assert(all.take(scans@.len() as int) =~= all);
    assert(all.skip(scans@.len() as int) =~= Seq::<ScanMetaView>::empty());
    assert(scans_view(fresh@) =~= unseen_scans(seen0, all));
    fresh
}

/// No filename is reported twice: a scan reported by one poll is never
/// reported by a later poll, and none of the reported scans was seen before.
pub proof fn lemma_unseen_scans_are_fresh(seen: Set<Seq<char>>, scans: Seq<ScanMetaView>, k: int)
    requires
        0 <= k < unseen_scans(seen, scans).len(),
    ensures
        !seen.contains(unseen_scans(seen, scans)[k].filename),
        forall|j: int| 0 <= j < k ==> unseen_scans(seen, scans)[j].filename != unseen_scans(seen, scans)[k].filename,
    decreases scans.len(),
{
    if scans.len() > 0 {
        let rest = scans.drop_first();
        if seen.contains(scans[0].filename) {
            lemma_unseen_scans_are_fresh(seen, rest, k);
        } else {
            let s2 = seen.insert(scans[0].filename);
            if k > 0 {
                lemma_unseen_scans_are_fresh(s2, rest, k - 1);
                assert forall|j: int| 0 <= j < k implies unseen_scans(seen, scans)[j].filename != unseen_scans(seen, scans)[k].filename by {
                    if j > 0 {
                        assert(unseen_scans(seen, scans)[j] == unseen_scans(s2, rest)[j - 1]);
                    }
                }
            }
        }
    }
}

/// The filenames seen after polls starting from `seen`: each poll either
/// failed (`None`), which adds nothing, or listed scans, all of whose
/// filenames it adds.
pub open spec fn seen_after(seen: Set<Seq<char>>, ls: Seq<Option<Seq<ScanMetaView>>>) -> Set<Seq<char>>
    decreases ls.len(),
{
    if ls.len() == 0 {
        seen
    } else {
        match ls.last() {
            Some(l) => seen_after(seen, ls.drop_last()).union(filenames_of(l)),
            None => seen_after(seen, ls.drop_last()),
        }
    }
}

/// The scans polls report, poll after poll, starting from `seen`: a failed
/// poll reports none, a listing reports its unseen scans (one `take_unseen`).
pub open spec fn polled(seen: Set<Seq<char>>, ls: Seq<Option<Seq<ScanMetaView>>>) -> Seq<ScanMetaView>
    decreases ls.len(),
{
    if ls.len() == 0 {
        Seq::empty()
    } else {
        match ls.last() {
            Some(l) => polled(seen, ls.drop_last()) + unseen_scans(seen_after(seen, ls.drop_last()), l),
            None => polled(seen, ls.drop_last()),
        }
    }
}

/// A reported scan was in the listing.
proof fn lemma_unseen_in_listing(seen: Set<Seq<char>>, scans: Seq<ScanMetaView>, k: int)
    requires
        0 <= k < unseen_scans(seen, scans).len(),
    ensures
        filenames_of(scans).contains(unseen_scans(seen, scans)[k].filename),
    decreases scans.len(),
{
    let rest = scans.drop_first();
    let u = unseen_scans(seen, scans);
    if seen.contains(scans[0].filename) {
        lemma_unseen_in_listing(seen, rest, k);
        let i = choose|i: int| 0 <= i < rest.len() && #[trigger] rest[i].filename == u[k].filename;
        assert(scans[i + 1].filename == u[k].filename);
    } else if k == 0 {
        assert(scans[0].filename == u[0].filename);
    } else {
        let s2 = seen.insert(scans[0].filename);
        lemma_unseen_in_listing(s2, rest, k - 1);
        assert(u[k] == unseen_scans(s2, rest)[k - 1]);
        let i = choose|i: int| 0 <= i < rest.len() && #[trigger] rest[i].filename == u[k].filename;
        assert(scans[i + 1].filename == u[k].filename);
    }
}

/// Every scan of a listing whose filename is not yet seen has its filename
/// reported.
proof fn lemma_unseen_complete(seen: Set<Seq<char>>, scans: Seq<ScanMetaView>, i: int)
    requires
        0 <= i < scans.len(),
        !seen.contains(scans[i].filename),
    ensures
        exists|k: int| 0 <= k < unseen_scans(seen, scans).len() && #[trigger] unseen_scans(seen, scans)[k].filename
            == scans[i].filename,
    decreases scans.len(),
{
    let rest = scans.drop_first();
    let u = unseen_scans(seen, scans);
    if seen.contains(scans[0].filename) {
        assert(i > 0);
        lemma_unseen_complete(seen, rest, i - 1);
        assert(rest[i - 1] == scans[i]);
    } else if scans[0].filename == scans[i].filename {
        assert(u[0].filename == scans[i].filename);
    } else {
        let s2 = seen.insert(scans[0].filename);
        assert(i > 0);
        assert(rest[i - 1] == scans[i]);
        lemma_unseen_complete(s2, rest, i - 1);
        let k = choose|k: int| 0 <= k < unseen_scans(s2, rest).len() && #[trigger] unseen_scans(s2, rest)[k].filename
            == rest[i - 1].filename;
        assert(u[k + 1] == unseen_scans(s2, rest)[k]);
    }
}

/// Over any run of polls (some of which may fail), no filename is reported
/// twice, none seen before the first poll is reported, each reported
/// filename is among those seen afterwards, and every scan listed by a poll
/// whose filename was not seen before that poll has its filename reported.
pub proof fn lemma_polls_report_once(seen: Set<Seq<char>>, ls: Seq<Option<Seq<ScanMetaView>>>)
    ensures
        forall|k: int| 0 <= k < polled(seen, ls).len() ==> !seen.contains(#[trigger] polled(seen, ls)[k].filename)
            && seen_after(seen, ls).contains(polled(seen, ls)[k].filename),
        forall|i: int, j: int| 0 <= i < j < polled(seen, ls).len() ==> #[trigger] polled(seen, ls)[i].filename
            != #[trigger] polled(seen, ls)[j].filename,
        forall|x: Seq<char>| seen.contains(x) ==> #[trigger] seen_after(seen, ls).contains(x),
        forall|p: int, i: int|
            0 <= p < ls.len() && ls[p] is Some && 0 <= i < ls[p]->0.len() && !seen_after(seen, ls.take(p)).contains(
                (#[trigger] ls[p]->0[i]).filename,
            ) ==> exists|k: int| 0 <= k < polled(seen, ls).len() && #[trigger] polled(seen, ls)[k].filename
                == ls[p]->0[i].filename,
    decreases ls.len(),
{
    if ls.len() > 0 {
        let prev = ls.drop_last();
        lemma_polls_report_once(seen, prev);
        let p0 = polled(seen, prev);
        let s0 = seen_after(seen, prev);
        let p = polled(seen, ls);
        match ls.last() {
            None => {
                assert(p == p0);
                assert forall|q: int, i: int|
                    0 <= q < ls.len() && ls[q] is Some && 0 <= i < ls[q]->0.len() && !seen_after(seen, ls.take(q)).contains(
                        (#[trigger] ls[q]->0[i]).filename,
                    ) implies exists|k: int| 0 <= k < p.len() && #[trigger] p[k].filename == ls[q]->0[i].filename by {
                    assert(q < prev.len());
                    assert(prev[q] == ls[q]);
                    assert(prev.take(q) =~= ls.take(q));
                }
            },
            Some(l) => {
                let u = unseen_scans(s0, l);
                assert(p == p0 + u);
                assert forall|k: int| 0 <= k < p.len() implies !seen.contains(#[trigger] p[k].filename)
                    && seen_after(seen, ls).contains(p[k].filename) by {
                    if k >= p0.len() {
                        lemma_unseen_scans_are_fresh(s0, l, k - p0.len());
                        lemma_unseen_in_listing(s0, l, k - p0.len());
                        assert(p[k] == u[k - p0.len()]);
                    } else {
                        assert(p[k] == p0[k]);
                    }
                }
                assert forall|i: int, j: int| 0 <= i < j < p.len() implies #[trigger] p[i].filename
                    != #[trigger] p[j].filename by {
                    if j < p0.len() {
                        assert(p[i] == p0[i] && p[j] == p0[j]);
                    } else if i >= p0.len() {
                        lemma_unseen_scans_are_fresh(s0, l, j - p0.len());
                        assert(p[i] == u[i - p0.len()] && p[j] == u[j - p0.len()]);
                    } else {
                        lemma_unseen_scans_are_fresh(s0, l, j - p0.len());
                        assert(p[i] == p0[i] && p[j] == u[j - p0.len()]);
                        assert(s0.contains(p0[i].filename));
                    }
                }
                assert forall|q: int, i: int|
                    0 <= q < ls.len() && ls[q] is Some && 0 <= i < ls[q]->0.len() && !seen_after(seen, ls.take(q)).contains(
                        (#[trigger] ls[q]->0[i]).filename,
                    ) implies exists|k: int| 0 <= k < p.len() && #[trigger] p[k].filename == ls[q]->0[i].filename by {
                    if q < prev.len() {
                        assert(prev[q] == ls[q]);
                        assert(prev.take(q) =~= ls.take(q));
                        let k = choose|k: int| 0 <= k < p0.len() && #[trigger] p0[k].filename == prev[q]->0[i].filename;
                        assert(p[k] == p0[k]);
                    } else {
                        assert(ls.take(q) =~= prev);
                        assert(ls[q] == Some(l));
                        lemma_unseen_complete(s0, l, i);
                        let k = choose|k: int| 0 <= k < u.len() && #[trigger] u[k].filename == l[i].filename;
                        assert(p[p0.len() + k] == u[k]);
                    }
                }
            },
        }
    }
}
} // verus!
