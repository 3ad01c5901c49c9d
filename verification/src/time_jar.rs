//! Time-based cookie store.
//!
//! No per-request cookie jar exists: every request issued through one
//! client shares a single HTTP engine and therefore a single cookie
//! sink. To report the cookies a request's round-trip caused the server
//! to set, cookie-set events are recorded under a monotonic instant and
//! queried by "strictly since" time ranges. Under overlapping requests
//! this attribution is approximate by design: an entry recorded during
//! another request's lifetime is visible to both.

use vstd::prelude::*;

verus! {

/// One cookie-set event as reported to a caller: the origin the server
/// answered from, and the raw cookie-header values of that response,
/// grouped into one entry.
#[derive(Debug, PartialEq, Eq)]
pub struct NewCookies {
    pub origin: String,
    pub cookies: Vec<String>,
}

/// The mathematical value of a [`NewCookies`] record.
pub struct NewCookiesView {
    pub origin: Seq<char>,
    pub cookies: Seq<Seq<char>>,
}

impl View for NewCookies {
    type V = NewCookiesView;

    open spec fn view(&self) -> NewCookiesView {
        NewCookiesView { origin: self.origin@, cookies: self.cookies.deep_view() }
    }
}

impl DeepView for NewCookies {
    type V = NewCookiesView;

    open spec fn deep_view(&self) -> NewCookiesView {
        self.view()
    }
}

/// Clones every string of a vector, keeping the exact character
/// sequences.
fn clone_strings(v: &Vec<String>) -> (r: Vec<String>)
    ensures
        r.deep_view() == v.deep_view(),
{
    let mut r: Vec<String> = Vec::new();
    let n = v.len();
    for i in 0..n
        invariant
            n == v.len(),
            r@.len() == i,
            r.deep_view() == v.deep_view().take(i as int),
    {
        let ghost old_rd = r.deep_view();
        r.push(v[i].clone());
        proof {
            assert(r.deep_view() =~= old_rd.push(r@[i as int].deep_view()));
            assert(r@[i as int]@ == v@[i as int]@);
            assert(old_rd.push(v@[i as int].deep_view()) =~= v.deep_view().take(i as int + 1));
        }
    }
    proof {
        assert(v.deep_view().take(n as int) =~= v.deep_view());
    }
    r
}

impl Clone for NewCookies {
    fn clone(&self) -> (res: Self)
        ensures
            res@ == self@,
    {
        NewCookies { origin: self.origin.clone(), cookies: clone_strings(&self.cookies) }
    }
}

/// One recorded cookie-set event: the monotonic instant it was observed
/// at, and what was observed.
pub struct CookieEvent {
    pub time: u64,
    pub entry: NewCookies,
}

/// The mathematical value of a [`CookieEvent`].
pub struct CookieEventView {
    pub time: u64,
    pub entry: NewCookiesView,
}

impl View for CookieEvent {
    type V = CookieEventView;

    open spec fn view(&self) -> CookieEventView {
        CookieEventView { time: self.time, entry: self.entry@ }
    }
}

/// Event times never decrease along the sequence; events with equal
/// times keep their insertion order.
pub open spec fn spec_chronological(events: Seq<CookieEventView>) -> bool {
    forall|i: int, j: int|
        0 <= i < j < events.len() ==> #[trigger] events[i].time <= #[trigger] events[j].time
}

/// Where a new event with the given time is placed: after every event
/// whose time is not later, so that ties are broken by insertion order.
pub open spec fn spec_insert_pos(events: Seq<CookieEventView>, time: u64) -> int
    decreases events.len(),
{
    if events.len() == 0 {
        0
    } else if events[0].time <= time {
        1 + spec_insert_pos(events.drop_first(), time)
    } else {
        0
    }
}

/// The entries recorded strictly after the given instant, in
/// chronological order.
pub open spec fn spec_since(events: Seq<CookieEventView>, time: u64) -> Seq<NewCookiesView> {
    events.filter(|e: CookieEventView| e.time > time).map_values(
        |e: CookieEventView| e.entry,
    )
}

/// Time based cookie jar: an append-only, time-indexed record of the
/// cookies a server asked to set, queryable by "since" timestamp.
/// Entries are never removed.
pub struct TimeJar {
    events: Vec<CookieEvent>,
}

impl View for TimeJar {
    type V = Seq<CookieEventView>;

    closed spec fn view(&self) -> Seq<CookieEventView> {
        self.events.deep_view()
    }
}

impl DeepView for CookieEvent {
    type V = CookieEventView;

    open spec fn deep_view(&self) -> CookieEventView {
        self.view()
    }
}

impl TimeJar {
    /// The jar's invariant: recorded events stand in chronological
    /// order.
    pub open spec fn well_formed(self) -> bool {
        spec_chronological(self@)
    }

    /// A fresh jar with no recorded events.
    pub fn new() -> (r: TimeJar)
        ensures
            r@ == Seq::<CookieEventView>::empty(),
            r.well_formed(),
    {
        let r = TimeJar { events: Vec::new() };
        proof {
            assert(r@ =~= Seq::<CookieEventView>::empty());
        }
        r
    }

    /// Records one cookie-set event under the given monotonic instant:
    /// the new entry is placed after every entry whose time is not
    /// later, which keeps the jar chronological and breaks ties by
    /// insertion order.
    pub fn set_cookies(&mut self, time: u64, origin: String, cookies: Vec<String>)
        requires
            old(self).well_formed(),
        ensures
            final(self).well_formed(),
            final(self)@ == old(self)@.insert(
                spec_insert_pos(old(self)@, time),
                CookieEventView {
                    time,
                    entry: NewCookiesView { origin: origin@, cookies: cookies.deep_view() },
                },
            ),
    {
        let ghost old_view = self@;
        let mut idx: usize = self.events.len();
        while idx > 0 && time < self.events[idx - 1].time
            invariant
                idx <= self.events.len(),
                old_view == self@,
                spec_chronological(old_view),
                old_view.len() == self.events.len(),
                forall|j: int| idx <= j < old_view.len() ==> time < #[trigger] old_view[j].time,
            decreases idx,
        {
            proof {
                assert(old_view[idx - 1] == self.events@[idx - 1]@);
            }
            idx = idx - 1;
        }
        proof {
            if idx > 0 {
                assert(old_view[idx - 1] == self.events@[idx - 1]@);
                assert(old_view[idx - 1].time <= time);
                assert forall|j: int| 0 <= j < idx implies #[trigger] old_view[j].time
                    <= time by {
                    assert(old_view[j].time <= old_view[idx - 1].time);
                }
            }
            lemma_insert_pos_boundary(old_view, time, idx as int);
        }
        let event = CookieEvent { time, entry: NewCookies { origin, cookies } };
        self.events.insert(idx, event);
        proof {
            assert(self@ =~= old_view.insert(idx as int, event@));
            lemma_insert_keeps_chronological(old_view, time, idx as int, event@);
        }
    }

    /// Returns every entry recorded strictly after the given instant,
    /// in chronological order; the list is empty when nothing was
    /// recorded after it.
    pub fn cookies_since(&self, time: u64) -> (r: Vec<NewCookies>)
        ensures
            r.deep_view() == spec_since(self@, time),
    {
        let mut r: Vec<NewCookies> = Vec::new();
        let n = self.events.len();
        proof {
            reveal(Seq::filter);
            assert(self@.take(0) =~= Seq::<CookieEventView>::empty());
            assert(r.deep_view() =~= spec_since(self@.take(0), time));
        }
        for k in 0..n
            invariant
                n == self.events.len(),
                n == self@.len(),
                r.deep_view() == spec_since(self@.take(k as int), time),
        {
            let ghost prefix = self@.take(k as int);
            let ghost ev = self@[k as int];
            let ghost old_r = r.deep_view();
            proof {
                assert(ev == self.events@[k as int]@);
                assert(self@.take(k as int + 1) =~= prefix.push(ev));
                prefix.lemma_filter_push(ev, |e: CookieEventView| e.time > time);
            }
            if time < self.events[k].time {
                r.push(self.events[k].entry.clone());
                proof {
                    assert(r.deep_view() =~= old_r.push(ev.entry));
                    assert(prefix.push(ev).filter(|e: CookieEventView| e.time > time)
                        .map_values(|e: CookieEventView| e.entry) =~= prefix.filter(
                        |e: CookieEventView| e.time > time,
                    ).map_values(|e: CookieEventView| e.entry).push(ev.entry));
                    assert(r.deep_view() == spec_since(self@.take(k as int + 1), time));
                }
            } else {
                proof {
                    assert(r.deep_view() == spec_since(self@.take(k as int + 1), time));
                }
            }
        }
        proof {
            assert(self@.take(n as int) =~= self@);
        }
        r
    }
}

impl Default for TimeJar {
    fn default() -> (r: TimeJar)
        ensures
            r@ == Seq::<CookieEventView>::empty(),
            r.well_formed(),
    {
        TimeJar::new()
    }
}

/// In a chronological sequence, a boundary position — everything before
/// it not later than the given time, everything from it on strictly
/// later — is exactly where a new event with that time is placed.
proof fn lemma_insert_pos_boundary(events: Seq<CookieEventView>, time: u64, p: int)
    requires
        spec_chronological(events),
        0 <= p <= events.len(),
        forall|j: int| 0 <= j < p ==> #[trigger] events[j].time <= time,
        forall|j: int| p <= j < events.len() ==> time < #[trigger] events[j].time,
    ensures
        spec_insert_pos(events, time) == p,
    decreases events.len(),
{
    if events.len() == 0 {
    } else if p == 0 {
        assert(time < events[0].time);
    } else {
        assert(events[0].time <= time);
        lemma_insert_pos_boundary(events.drop_first(), time, p - 1);
    }
}

/// Inserting an event at its boundary position keeps the sequence
/// chronological.
proof fn lemma_insert_keeps_chronological(
    events: Seq<CookieEventView>,
    time: u64,
    p: int,
    ev: CookieEventView,
)
    requires
        spec_chronological(events),
        0 <= p <= events.len(),
        forall|j: int| 0 <= j < p ==> #[trigger] events[j].time <= time,
        forall|j: int| p <= j < events.len() ==> time < #[trigger] events[j].time,
        ev.time == time,
    ensures
        spec_chronological(events.insert(p, ev)),
{
    let after = events.insert(p, ev);
    assert forall|i: int, j: int|
        0 <= i < j < after.len() implies #[trigger] after[i].time <= #[trigger] after[j].time by {
        if i < p {
            assert(after[i] == events[i]);
        }
        if j < p {
            assert(after[j] == events[j]);
        }
        if i > p {
            assert(after[i] == events[i - 1]);
        }
        if j > p {
            assert(after[j] == events[j - 1]);
        }
    }
}

/// What `cookies_since` reports, stated of the jar's value: only
/// entries recorded strictly after the given instant are kept, their
/// chronological order is preserved, and nothing recorded after the
/// instant means an empty answer.
pub proof fn lemma_since_properties(events: Seq<CookieEventView>, time: u64)
    requires
        spec_chronological(events),
    ensures
        ({
            let kept = events.filter(|e: CookieEventView| e.time > time);
            &&& spec_since(events, time) == kept.map_values(|e: CookieEventView| e.entry)
            &&& forall|i: int| 0 <= i < kept.len() ==> time < (#[trigger] kept[i]).time
            &&& spec_chronological(kept)
            &&& (forall|i: int| 0 <= i < events.len() ==> (#[trigger] events[i]).time <= time)
                ==> spec_since(events, time) == Seq::<NewCookiesView>::empty()
        }),
{
    let pred = |e: CookieEventView| e.time > time;
    let kept = events.filter(pred);
    assert forall|i: int| 0 <= i < kept.len() implies time < (#[trigger] kept[i]).time by {
        events.lemma_filter_pred(pred, i);
    }
    lemma_filter_keeps_chronological(events, pred);
    if forall|i: int| 0 <= i < events.len() ==> (#[trigger] events[i]).time <= time {
        assert(events.all(|e: CookieEventView| !pred(e))) by {
            reveal(Seq::all);
        }
        events.lemma_all_neg_filter_empty(pred);
        assert(spec_since(events, time) =~= Seq::<NewCookiesView>::empty());
    }
}

/// Filtering a chronological sequence leaves a chronological sequence:
/// the kept events appear in their original order.
proof fn lemma_filter_keeps_chronological(
    events: Seq<CookieEventView>,
    pred: spec_fn(CookieEventView) -> bool,
)
    requires
        spec_chronological(events),
    ensures
        spec_chronological(events.filter(pred)),
    decreases events.len(),
{
    reveal(Seq::filter);
    if events.len() != 0 {
        let rest = events.drop_last();
        assert(spec_chronological(rest));
        lemma_filter_keeps_chronological(rest, pred);
        if pred(events.last()) {
            let kept = rest.filter(pred).push(events.last());
            assert forall|i: int, j: int|
                0 <= i < j < kept.len() implies #[trigger] kept[i].time
                <= #[trigger] kept[j].time by {
                if j < kept.len() - 1 {
                    assert(kept[i] == rest.filter(pred)[i]);
                    assert(kept[j] == rest.filter(pred)[j]);
                } else {
                    rest.lemma_filter_pred(pred, i);
                    rest.lemma_filter_contains_rev(pred, kept[i]);
                    let w = choose|w: int| 0 <= w < rest.len() && rest[w] == kept[i];
                    assert(events[w].time <= events.last().time);
                }
            }
        }
    }
}

} // verus!
