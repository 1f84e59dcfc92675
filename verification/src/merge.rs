use vstd::prelude::*;

use crate::datasets::{Connection, RealTimeConnection, ScheduleIndex, UpdatedTimetable};
use crate::siri_lite::DateTime;

verus! {

/// One structured update from the real-time feed, keyed by (dated journey,
/// stop): whichever of the estimated arrival/departure the feed provided, and
/// the feed's reported update time when it gave one.
#[derive(Clone, Copy, Debug, PartialEq, Eq, Structural)]
pub struct TripUpdate {
    pub vj_idx: usize,
    pub date: i64,
    pub stop_idx: usize,
    pub arr_time: Option<DateTime>,
    pub dep_time: Option<DateTime>,
    pub update_time: Option<DateTime>,
}

/// The update targets this connection: same dated journey and same stop.
pub open spec fn update_matches_conn(c: Connection, u: TripUpdate) -> bool {
    &&& c.dated_vj.vj_idx == u.vj_idx
    &&& c.dated_vj.date == u.date
    &&& c.stop_point_idx == u.stop_idx
}

/// The position of the first connection at or after `i` that the update
/// targets.
pub open spec fn position_from(s: Seq<Connection>, u: TripUpdate, i: int) -> Option<int>
    decreases s.len() - i when 0 <= i <= s.len()
{
    if i >= s.len() {
        None
    } else if update_matches_conn(s[i], u) {
        Some(i)
    } else {
        position_from(s, u, i + 1)
    }
}

/// The connection position an update resolves to: the first connection of the
/// same dated journey at the same stop, or `None` when the index has no such
/// visit (the update is dropped).
pub open spec fn spec_position_of(s: Seq<Connection>, u: TripUpdate) -> Option<int> {
    position_from(s, u, 0)
}

/// The override an update contributes: the feed's times, stamped with the
/// feed's update time or — when the feed gave none — the fetch time.
pub open spec fn override_of(u: TripUpdate, fetch_time: DateTime) -> RealTimeConnection {
    RealTimeConnection {
        update_time: match u.update_time {
            Some(t) => t,
            None => fetch_time,
        },
        arr_time: u.arr_time,
        dep_time: u.dep_time,
    }
}

/// The overlay built from the first `j` updates: each resolvable update puts
/// its override at its connection position (later updates to the same
/// position win); unresolvable updates are dropped, not fatal.
pub open spec fn merged_overlay(
    s: Seq<Connection>,
    updates: Seq<TripUpdate>,
    fetch_time: DateTime,
    j: int,
) -> Map<usize, RealTimeConnection>
    decreases j,
{
    if j <= 0 {
        Map::empty()
    } else {
        let m0 = merged_overlay(s, updates, fetch_time, j - 1);
        match spec_position_of(s, updates[j - 1]) {
            Some(p) => m0.insert(p as usize, override_of(updates[j - 1], fetch_time)),
            None => m0,
        }
    }
}

/// Finds the first connection the update targets, scanning the index in
/// order.
fn find_connection_position(index: &ScheduleIndex, u: &TripUpdate) -> (r: Option<usize>)
    ensures
        match r {
            Some(p) => spec_position_of(index.connections@, *u) == Some(p as int) && p
                < index.connections@.len(),
            None => spec_position_of(index.connections@, *u) is None,
        },
{
    let s = &index.connections;
    let n = s.len();
    let mut i: usize = 0;
    while i < n
        invariant
            s@ == index.connections@,
            n == s@.len(),
            i <= n,
            position_from(s@, *u, 0) == position_from(s@, *u, i as int),
        decreases n - i,
    {
        let c = &s[i];
        if c.dated_vj.vj_idx == u.vj_idx && c.dated_vj.date == u.date && c.stop_point_idx
            == u.stop_idx {
            assert(position_from(s@, *u, i as int) == Some(i as int));
            return Some(i);
        }
        i += 1;
    }
    None
}

/// Builds a fresh overlay from one parsed feed: resolves each update to a
/// connection position and records its override there; updates that reference
/// an unknown (journey, stop) pair are dropped individually.  The result maps
/// only existing positions.
pub fn merge_updates(index: &ScheduleIndex, updates: &Vec<TripUpdate>, fetch_time: DateTime) -> (r:
    UpdatedTimetable)
    ensures
        r.realtime_connections@ == merged_overlay(
            index.connections@,
            updates@,
            fetch_time,
            updates@.len() as int,
        ),
        r.wf(index.connections@.len() as int),
{
    let mut r = UpdatedTimetable::new();
    let n = updates.len();
    let mut j: usize = 0;
    while j < n
        invariant
            n == updates@.len(),
            j <= n,
            r.realtime_connections@ == merged_overlay(
                index.connections@,
                updates@,
                fetch_time,
                j as int,
            ),
            r.wf(index.connections@.len() as int),
        decreases n - j,
    {
        let u = updates[j];
        match find_connection_position(index, &u) {
            Some(p) => {
                let update_time = match u.update_time {
                    Some(t) => t,
                    None => fetch_time,
                };
                let rtc = RealTimeConnection {
                    update_time,
                    arr_time: u.arr_time,
                    dep_time: u.dep_time,
                };
                assert(rtc == override_of(u, fetch_time));
                r.realtime_connections.insert(p, rtc);
            },
            None => {},
        }
        j += 1;
    }
    r
}

} // verus!
