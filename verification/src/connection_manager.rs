//! The set of flows that are currently admitted, each with the signal that
//! tells its copy loop to stop.
//!
//! The manager is generic in the signal: it stores one per flow, lends it to
//! whoever tracks the flow, and hands it back when the flow leaves, so that
//! the owner can raise or drop it.

use vstd::prelude::*;
use crate::connection::{Connection, ConnectionView};

verus! {

struct Entry<S> {
    conn: Connection,
    signal: S,
}

/// Tracks every admitted flow. Its view lists the flows in the order in which
/// they were registered, each with its signal.
pub struct ConnectionManager<S> {
    entries: Vec<Entry<S>>,
}

/// Whether `c` is one of the flows of `entries`.
pub open spec fn registered<S>(entries: Seq<(ConnectionView, S)>, c: ConnectionView) -> bool {
    exists|i: int| 0 <= i < entries.len() && (#[trigger] entries[i]).0 == c
}

/// No flow occurs twice.
pub open spec fn distinct_keys<S>(entries: Seq<(ConnectionView, S)>) -> bool {
    forall|i: int, j: int|
        0 <= i < j < entries.len() ==> (#[trigger] entries[i]).0 != (#[trigger] entries[j]).0
}

/// Where `c` stands in `entries`, if it is registered.
pub open spec fn index_of<S>(entries: Seq<(ConnectionView, S)>, c: ConnectionView) -> int {
    choose|i: int| 0 <= i < entries.len() && (#[trigger] entries[i]).0 == c
}

/// The signal stored for `c`.
pub open spec fn signal_of<S>(entries: Seq<(ConnectionView, S)>, c: ConnectionView) -> Option<S> {
    if registered(entries, c) {
        Some(entries[index_of(entries, c)].1)
    } else {
        None
    }
}

/// `entries` after `c` was registered with `signal`: unchanged if `c` was
/// there already, else with `c` added at the end.
pub open spec fn with_registered<S>(
    entries: Seq<(ConnectionView, S)>,
    c: ConnectionView,
    signal: S,
) -> Seq<(ConnectionView, S)> {
    if registered(entries, c) {
        entries
    } else {
        entries.push((c, signal))
    }
}

/// `entries` without the entry of `c`.
pub open spec fn without<S>(entries: Seq<(ConnectionView, S)>, c: ConnectionView) -> Seq<
    (ConnectionView, S),
> {
    if registered(entries, c) {
        entries.remove(index_of(entries, c))
    } else {
        entries
    }
}

/// Whether `c` is the view of one of `conns`.
pub open spec fn listed(conns: Seq<Connection>, c: ConnectionView) -> bool {
    exists|k: int| 0 <= k < conns.len() && (#[trigger] conns[k])@ == c
}

/// `entries` after the flows of `denied` were removed one after the other.
pub open spec fn without_all<S>(entries: Seq<(ConnectionView, S)>, denied: Seq<Connection>) -> Seq<
    (ConnectionView, S),
>
    decreases denied.len(),
{
    if denied.len() == 0 {
        entries
    } else {
        without(without_all(entries, denied.drop_last()), denied.last()@)
    }
}

/// The signals of the flows of `denied` that `entries` holds, in the order
/// in which `denied` first names each flow.
pub open spec fn signals_of<S>(entries: Seq<(ConnectionView, S)>, denied: Seq<Connection>) -> Seq<S>
    decreases denied.len(),
{
    if denied.len() == 0 {
        Seq::empty()
    } else {
        let before = signals_of(entries, denied.drop_last());
        match signal_of(without_all(entries, denied.drop_last()), denied.last()@) {
            Some(s) => before.push(s),
            None => before,
        }
    }
}

/// Whether `s` is the signal of a flow of `entries` that `denied` lists.
pub open spec fn revoked_signal<S>(
    entries: Seq<(ConnectionView, S)>,
    denied: Seq<Connection>,
    s: S,
) -> bool {
    exists|c: ConnectionView| listed(denied, c) && #[trigger] signal_of(entries, c) == Some(s)
}

/// With distinct keys, a flow found at `i` is the flow that `index_of` finds.
pub proof fn lemma_index_unique<S>(entries: Seq<(ConnectionView, S)>, c: ConnectionView, i: int)
    requires
        distinct_keys(entries),
        0 <= i < entries.len(),
        entries[i].0 == c,
    ensures
        registered(entries, c),
        index_of(entries, c) == i,
{
    let j = index_of(entries, c);
    assert(0 <= j < entries.len() && entries[j].0 == c);
    if j < i {
        assert(entries[j].0 != entries[i].0);
    } else if i < j {
        assert(entries[i].0 != entries[j].0);
    }
}

impl<S> View for ConnectionManager<S> {
    type V = Seq<(ConnectionView, S)>;

    closed spec fn view(&self) -> Seq<(ConnectionView, S)> {
        Seq::new(
            self.entries@.len(),
            |i: int| (self.entries@[i].conn@, self.entries@[i].signal),
        )
    }
}

impl<S> ConnectionManager<S> {
    /// The invariant of the manager: no flow is registered twice.
    pub open spec fn wf(&self) -> bool {
        distinct_keys(self@)
    }

    /// A manager that tracks nothing.
    pub fn new() -> (m: Self)
        ensures
            m.wf(),
            m@ == Seq::<(ConnectionView, S)>::empty(),
            forall|c: ConnectionView| (#[trigger] signal_of(m@, c)).is_none(),
    {
        let m = ConnectionManager { entries: Vec::new() };
        assert(m@ =~= Seq::<(ConnectionView, S)>::empty());
        m
    }

    /// The number of flows that are registered.
    pub fn len(&self) -> (n: usize)
        ensures
            n == self@.len(),
    {
        self.entries.len()
    }

    fn find(&self, conn: &Connection) -> (at: Option<usize>)
        ensures
            match at {
                Some(i) => i < self@.len() && self@[i as int].0 == conn@,
                None => !registered(self@, conn@),
            },
    {
        let mut i: usize = 0;
        while i < self.entries.len()
            invariant
                i <= self.entries@.len(),
                forall|j: int| 0 <= j < i ==> (#[trigger] self@[j]).0 != conn@,
            decreases self.entries@.len() - i,
        {
            if self.entries[i].conn.same(conn) {
                return Some(i);
            }
            i += 1;
        }
        None
    }

    /// Adds `conn` with `signal`, unless `conn` is registered already: then
    /// nothing changes and the signal comes back unused.
    pub fn register(&mut self, conn: &Connection, signal: S) -> (unused: Option<S>)
        requires
            old(self).wf(),
        ensures
            final(self).wf(),
            final(self)@ == with_registered(old(self)@, conn@, signal),
            registered(final(self)@, conn@),
            unused == if registered(old(self)@, conn@) {
                Some(signal)
            } else {
                None
            },
            signal_of(final(self)@, conn@) == if registered(old(self)@, conn@) {
                signal_of(old(self)@, conn@)
            } else {
                Some(signal)
            },
            forall|d: ConnectionView|
                d != conn@ ==> #[trigger] signal_of(final(self)@, d) == signal_of(old(self)@, d),
    {
        proof {
            lemma_with_registered_wf(self@, conn@, signal);
        }
        match self.find(conn) {
            Some(i) => {
                assert(self@[i as int].0 == conn@);
                Some(signal)
            },
            None => {
                self.entries.push(Entry { conn: conn.duplicate(), signal });
                assert(self@ =~= old(self)@.push((conn@, signal)));
                None
            },
        }
    }

    /// Lends the signal of `conn`, or returns `None` if `conn` is not
    /// registered (any more): the flow must then be treated as denied.
    pub fn track(&self, conn: &Connection) -> (handle: Option<&S>)
        requires
            self.wf(),
        ensures
            match handle {
                Some(s) => signal_of(self@, conn@) == Some(*s),
                None => signal_of(self@, conn@).is_none(),
            },
    {
        match self.find(conn) {
            Some(i) => {
                proof {
                    lemma_index_unique(self@, conn@, i as int);
                }
                Some(&self.entries[i].signal)
            },
            None => None,
        }
    }

    /// Removes `conn` and hands its signal out. Does nothing, and returns
    /// `None`, if `conn` is not registered.
    pub fn release(&mut self, conn: &Connection) -> (signal: Option<S>)
        requires
            old(self).wf(),
        ensures
            final(self).wf(),
            final(self)@ == without(old(self)@, conn@),
            signal == signal_of(old(self)@, conn@),
            !registered(final(self)@, conn@),
            forall|d: ConnectionView|
                d != conn@ ==> #[trigger] signal_of(final(self)@, d) == signal_of(old(self)@, d),
    {
        proof {
            lemma_without_wf(self@, conn@);
        }
        match self.find(conn) {
            Some(i) => {
                proof {
                    lemma_index_unique(self@, conn@, i as int);
                }
                let entry = self.entries.remove(i);
                proof {
                    assert(self@ =~= old(self)@.remove(i as int));
                }
                Some(entry.signal)
            },
            None => None,
        }
    }

    /// The flows that are registered now, in the order of registration.
    pub fn connections(&self) -> (all: Vec<Connection>)
        ensures
            all@.len() == self@.len(),
            forall|i: int| 0 <= i < all@.len() ==> (#[trigger] all@[i])@ == self@[i].0,
    {
        let mut all: Vec<Connection> = Vec::new();
        let mut i: usize = 0;
        while i < self.entries.len()
            invariant
                i <= self.entries@.len(),
                all@.len() == i,
                forall|j: int| 0 <= j < i ==> (#[trigger] all@[j])@ == self@[j].0,
            decreases self.entries@.len() - i,
        {
            all.push(self.entries[i].conn.duplicate());
            i += 1;
        }
        all
    }

    /// Removes every flow of `denied` that is registered and hands out the
    /// signals of the removed flows, for the caller to raise. Every other
    /// flow stays, with its signal.
    pub fn revoke(&mut self, denied: &Vec<Connection>) -> (raised: Vec<S>)
        requires
            old(self).wf(),
        ensures
            final(self).wf(),
            final(self)@ == without_all(old(self)@, denied@),
            raised@ == signals_of(old(self)@, denied@),
            forall|c: ConnectionView| #[trigger]
                signal_of(final(self)@, c) == if listed(denied@, c) {
                    None
                } else {
                    signal_of(old(self)@, c)
                },
            forall|s: S| #[trigger]
                raised@.contains(s) <==> revoked_signal(old(self)@, denied@, s),
            raised@.len() + final(self)@.len() == old(self)@.len(),
    {
        let ghost start = self@;
        let mut raised: Vec<S> = Vec::new();
        let mut k: usize = 0;
        while k < denied.len()
            invariant
                self.wf(),
                k <= denied@.len(),
                self@ == without_all(start, denied@.take(k as int)),
                raised@ == signals_of(start, denied@.take(k as int)),
                forall|c: ConnectionView| #[trigger]
                    signal_of(self@, c) == if listed(denied@.take(k as int), c) {
                        None
                    } else {
                        signal_of(start, c)
                    },
                forall|s: S| #[trigger]
                    raised@.contains(s) <==> revoked_signal(start, denied@.take(k as int), s),
                raised@.len() + self@.len() == start.len(),
            decreases denied@.len() - k,
        {
            let ghost before = self@;
            let ghost seen = denied@.take(k as int);
            let ghost next = denied@.take(k + 1);
            let ghost gone = denied@[k as int]@;
            let ghost earlier = raised@;
            let signal = self.release(&denied[k]);
            proof {
                lemma_without_wf(before, gone);
                assert(next[k as int] == denied@[k as int]);
                assert(next.drop_last() =~= seen);
                assert forall|c: ConnectionView| listed(next, c) <==> (listed(seen, c) || c
                    == gone) by {
                    if listed(seen, c) {
                        let j = choose|j: int| 0 <= j < seen.len() && (#[trigger] seen[j])@ == c;
                        assert(next[j] == seen[j]);
                    }
                    if listed(next, c) && c != gone {
                        let j = choose|j: int| 0 <= j < next.len() && (#[trigger] next[j])@ == c;
                        assert(seen[j] == next[j]);
                    }
                }
                assert(signal_of(before, gone) == if listed(seen, gone) {
                    None
                } else {
                    signal_of(start, gone)
                });
            }
            match signal {
                Some(s) => {
                    raised.push(s);
                    proof {
                        assert(raised@ == earlier.push(s));
                        assert(raised@[earlier.len() as int] == s);
                        assert forall|t: S| #[trigger]
                            raised@.contains(t) <==> revoked_signal(start, next, t) by {
                            if raised@.contains(t) {
                                let j = choose|j: int| 0 <= j < raised@.len() && raised@[j] == t;
                                if j < earlier.len() {
                                    assert(earlier[j] == t);
                                    assert(earlier.contains(t));
                                    let c = choose|c: ConnectionView|
                                        listed(seen, c) && #[trigger] signal_of(start, c) == Some(
                                            t,
                                        );
                                    assert(listed(next, c));
                                } else {
                                    assert(listed(next, gone) && signal_of(start, gone) == Some(t));
                                }
                            }
                            if revoked_signal(start, next, t) {
                                let c = choose|c: ConnectionView|
                                    listed(next, c) && #[trigger] signal_of(start, c) == Some(t);
                                if c == gone {
                                    assert(t == s);
                                } else {
                                    assert(listed(seen, c));
                                    assert(revoked_signal(start, seen, t));
                                    assert(earlier.contains(t));
                                    let j = choose|j: int|
                                        0 <= j < earlier.len() && earlier[j] == t;
                                    assert(raised@[j] == t);
                                }
                            }
                        }
                    }
                },
                None => {
                    proof {
                        assert forall|t: S| #[trigger]
                            raised@.contains(t) <==> revoked_signal(start, next, t) by {
                            if raised@.contains(t) {
                                let c = choose|c: ConnectionView|
                                    listed(seen, c) && #[trigger] signal_of(start, c) == Some(
                                        t,
                                    );
                                assert(listed(next, c));
                            }
                            if revoked_signal(start, next, t) {
                                let c = choose|c: ConnectionView|
                                    listed(next, c) && #[trigger] signal_of(start, c) == Some(t);
                                if c != gone {
                                    assert(listed(seen, c));
                                } else if listed(seen, gone) {
                                } else {
                                    assert(signal_of(start, gone).is_none());
                                }
                            }
                        }
                    }
                },
            }
            k += 1;
        }
        proof {
            assert(denied@.take(k as int) =~= denied@);
        }
        raised
    }
}

/// Registering a flow keeps the keys distinct and leaves every other flow as
/// it was; the flow itself keeps the signal it had, or gets the new one.
pub proof fn lemma_with_registered_wf<S>(
    entries: Seq<(ConnectionView, S)>,
    c: ConnectionView,
    signal: S,
)
    requires
        distinct_keys(entries),
    ensures
        distinct_keys(with_registered(entries, c, signal)),
        registered(with_registered(entries, c, signal), c),
        signal_of(with_registered(entries, c, signal), c) == if registered(entries, c) {
            signal_of(entries, c)
        } else {
            Some(signal)
        },
        forall|d: ConnectionView|
            d != c ==> #[trigger] signal_of(with_registered(entries, c, signal), d) == signal_of(
                entries,
                d,
            ),
{
    let added = with_registered(entries, c, signal);
    if !registered(entries, c) {
        let last = entries.len() as int;
        assert(added[last].0 == c);
        assert forall|i: int, j: int| 0 <= i < j < added.len() implies (#[trigger] added[i]).0 != (
        #[trigger] added[j]).0 by {
            assert(added[i] == entries[i]);
            if j < last {
                assert(added[j] == entries[j]);
            }
        }
        lemma_index_unique(added, c, last);
        assert forall|d: ConnectionView| d != c implies #[trigger] signal_of(added, d)
            == signal_of(entries, d) by {
            if registered(added, d) {
                let i = index_of(added, d);
                assert(added[i] == entries[i]);
                lemma_index_unique(entries, d, i);
            }
            if registered(entries, d) {
                let i = index_of(entries, d);
                assert(added[i] == entries[i]);
                lemma_index_unique(added, d, i);
            }
        }
    }
}

/// Removing a flow keeps the keys distinct and leaves the flow unregistered;
/// every other entry stays.
pub proof fn lemma_without_wf<S>(entries: Seq<(ConnectionView, S)>, c: ConnectionView)
    requires
        distinct_keys(entries),
    ensures
        distinct_keys(without(entries, c)),
        !registered(without(entries, c), c),
        forall|d: ConnectionView|
            d != c ==> (#[trigger] registered(without(entries, c), d) <==> registered(entries, d)),
        forall|d: ConnectionView|
            d != c ==> #[trigger] signal_of(without(entries, c), d) == signal_of(entries, d),
{
    let rest = without(entries, c);
    if registered(entries, c) {
        let at = index_of(entries, c);
        assert forall|i: int, j: int| 0 <= i < j < rest.len() implies (#[trigger] rest[i]).0 != (
        #[trigger] rest[j]).0 by {
            let oi = if i < at { i } else { i + 1 };
            let oj = if j < at { j } else { j + 1 };
            assert(rest[i] == entries[oi]);
            assert(rest[j] == entries[oj]);
        }
        if registered(rest, c) {
            let i = index_of(rest, c);
            let oi = if i < at { i } else { i + 1 };
            assert(rest[i] == entries[oi]);
            lemma_index_unique(entries, c, oi);
        }
        assert forall|d: ConnectionView| d != c implies (#[trigger] registered(rest, d)
            <==> registered(entries, d)) && signal_of(rest, d) == signal_of(entries, d) by {
            if registered(rest, d) {
                let i = index_of(rest, d);
                let oi = if i < at { i } else { i + 1 };
                assert(rest[i] == entries[oi]);
                lemma_index_unique(entries, d, oi);
            }
            if registered(entries, d) {
                let oi = index_of(entries, d);
                let i = if oi < at { oi } else { oi - 1 };
                assert(rest[i] == entries[oi]);
                lemma_index_unique(rest, d, i);
            }
        }
    }
}

/// Registering a flow that was not registered, tracking it and releasing it
/// gives back the signal it was registered with and leaves the entries as
/// they were.
pub proof fn lemma_register_track_release<S>(
    entries: Seq<(ConnectionView, S)>,
    c: ConnectionView,
    signal: S,
)
    requires
        distinct_keys(entries),
        !registered(entries, c),
    ensures
        signal_of(with_registered(entries, c, signal), c) == Some(signal),
        without(with_registered(entries, c, signal), c) == entries,
{
    let added = with_registered(entries, c, signal);
    assert(added[entries.len() as int].0 == c);
    assert forall|i: int, j: int| 0 <= i < j < added.len() implies (#[trigger] added[i]).0 != (
    #[trigger] added[j]).0 by {
        assert(added[i] == entries[i]);
    }
    lemma_index_unique(added, c, entries.len() as int);
    assert(without(added, c) =~= entries);
}

/// Releasing a flow a second time changes nothing.
pub proof fn lemma_release_twice<S>(entries: Seq<(ConnectionView, S)>, c: ConnectionView)
    requires
        distinct_keys(entries),
    ensures
        without(without(entries, c), c) == without(entries, c),
        signal_of(without(entries, c), c).is_none(),
{
    lemma_without_wf(entries, c);
}

/// Registering a flow a second time changes nothing, whatever signal the
/// second call brings.
pub proof fn lemma_register_twice<S>(
    entries: Seq<(ConnectionView, S)>,
    c: ConnectionView,
    first: S,
    second: S,
)
    ensures
        with_registered(with_registered(entries, c, first), c, second) == with_registered(
            entries,
            c,
            first,
        ),
{
    let added = with_registered(entries, c, first);
    if !registered(entries, c) {
        assert(added[entries.len() as int].0 == c);
    }
}

} // verus!
