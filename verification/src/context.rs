use vstd::prelude::*;

use crate::datasets::{GtfsRT, UpdatedTimetable};
use crate::model::{lines_of_stop, NetworkModel};
use vstd::rwlock::{RwLock, RwLockPredicate};

verus! {

/// One complete real-time generation: the raw feed snapshot together with the
/// overlay derived from it.  Readers always obtain the two as a unit, never a
/// snapshot paired with the wrong overlay.
#[derive(Debug)]
pub struct RealTimePair {
    pub snapshot: GtfsRT,
    pub overlay: UpdatedTimetable,
}

/// The lock invariant of the overlay store: whatever generation is stored,
/// its overlay keys only positions of the schedule index generation the store
/// was created for.
pub struct OverlayInv {
    pub n_connections: int,
}

impl RwLockPredicate<Option<RealTimePair>> for OverlayInv {
    open spec fn inv(self, v: Option<RealTimePair>) -> bool {
        v matches Some(p) ==> p.overlay.wf(self.n_connections)
    }
}

/// The real-time overlay store: the single shared mutable value of the
/// engine.  `replace` swaps a complete (snapshot, overlay) pair as a unit and
/// `current` reads a complete pair, so no reader can observe a mix of two
/// generations; the reader-writer lock holds neither side for longer than the
/// copy.  A store outlives a schedule index generation never: it is created
/// for one index and its invariant is keyed to that index's length.
pub struct OverlayStore {
    lock: RwLock<Option<RealTimePair>, OverlayInv>,
}

impl OverlayStore {
    /// The length of the schedule index this store's overlay positions refer
    /// to.
    pub closed spec fn n_connections(&self) -> int {
        self.lock.pred().n_connections
    }

    /// An empty store: no merge has succeeded yet, queries see no overlay.
    pub fn new(n_connections: usize) -> (s: OverlayStore)
        ensures
            s.n_connections() == n_connections as int,
    {
        OverlayStore {
            lock: RwLock::new(None, Ghost(OverlayInv { n_connections: n_connections as int })),
        }
    }

    /// Atomically installs a new complete (snapshot, overlay) pair; readers
    /// from now on see the new pair, never part of it.
    pub fn replace(&self, snapshot: GtfsRT, overlay: UpdatedTimetable)
        requires
            overlay.wf(self.n_connections()),
    {
        let (_old_pair, handle) = self.lock.acquire_write();
        handle.release_write(Some(RealTimePair { snapshot, overlay }));
    }

    /// The latest complete pair, or `None` when no merge has ever succeeded
    /// (queries then run against the base schedule alone).
    pub fn current(&self) -> (r: Option<RealTimePair>)
        ensures
            r matches Some(p) ==> p.overlay.wf(self.n_connections()),
    {
        let handle = self.lock.acquire_read();
        let r = match handle.borrow() {
            None => None,
            Some(p) => Some(
                RealTimePair {
                    snapshot: GtfsRT {
                        datetime: p.snapshot.datetime,
                        data: vstd::slice::slice_to_vec(p.snapshot.data.as_slice()),
                    },
                    overlay: UpdatedTimetable {
                        realtime_connections: p.overlay.realtime_connections.clone(),
                    },
                },
            ),
        };
        handle.release_read();
        r
    }
}

/// The lines listed for stop `s` are exactly the ids of the routes whose
/// journeys visit it, each once.
pub open spec fn stop_lines_ok(m: NetworkModel, s: int, lines: Seq<String>) -> bool {
    &&& forall|k: int|
        0 <= k < lines.len() ==> m.stop_line_ids(s).contains((#[trigger] lines[k])@)
    &&& forall|i: int|
        0 <= i < m.vehicle_journeys@.len() && #[trigger] m.trip_contributes(i, s) ==> exists|k: int|
            0 <= k < lines.len() && (#[trigger] lines[k])@ == m.trip_route_id(i)
    &&& forall|k1: int, k2: int|
        0 <= k1 < k2 < lines.len() ==> (#[trigger] lines[k1])@ != (#[trigger] lines[k2])@
}

/// The load-time context of the service: the network model, the shared
/// real-time store, the feed's source address, and a per-stop cache of the
/// lines serving each stop.
pub struct Context {
    pub gtfs_rt: OverlayStore,
    pub gtfs: NetworkModel,
    pub gtfs_rt_provider_url: String,
    pub lines_of_stops: Vec<Vec<String>>,
}

impl Context {
    /// The model is consistent and the per-stop cache lists, for every stop,
    /// exactly the lines serving it.
    pub open spec fn wf(self) -> bool {
        &&& self.gtfs.wf()
        &&& self.lines_of_stops@.len() == self.gtfs.stop_points@.len()
        &&& forall|s: int|
            0 <= s < self.lines_of_stops@.len() ==> stop_lines_ok(
                self.gtfs,
                s,
                (#[trigger] self.lines_of_stops@[s])@,
            )
    }

    /// Builds the context: computes the lines serving each stop once, and
    /// starts with an empty real-time store keyed to `n_connections`.
    pub fn new(gtfs: NetworkModel, gtfs_rt_provider_url: String, n_connections: usize) -> (r:
        Context)
        requires
            gtfs.wf(),
        ensures
            r.wf(),
            r.gtfs == gtfs,
            r.gtfs_rt_provider_url == gtfs_rt_provider_url,
            r.gtfs_rt.n_connections() == n_connections as int,
    {
        let n = gtfs.stop_points.len();
        let mut cache: Vec<Vec<String>> = Vec::new();
        let mut s: usize = 0;
        while s < n
            invariant
                gtfs.wf(),
                n == gtfs.stop_points@.len(),
                s <= n,
                cache@.len() == s,
                forall|q: int|
                    0 <= q < s ==> stop_lines_ok(gtfs, q, (#[trigger] cache@[q])@),
            decreases n - s,
        {
            let lines = lines_of_stop(&gtfs, s);
            cache.push(lines);
            s += 1;
        }
        Context {
            gtfs_rt: OverlayStore::new(n_connections),
            gtfs,
            gtfs_rt_provider_url,
            lines_of_stops: cache,
        }
    }
}

} // verus!
