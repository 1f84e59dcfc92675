use vstd::prelude::*;

use std::collections::HashMap;

use crate::model::NetworkModel;
use crate::siri_lite::DateTime;
use vstd::seq_lib::lemma_multiset_commutative;

verus! {

/// One run of a scheduled trip on a specific service date.  `date` is a day
/// number (days since the epoch); the bound in [`dvj_date_in_range`] keeps
/// `date * 86400 + seconds_of_day` inside an `i64`.
#[derive(Clone, Copy, Debug, PartialEq, Eq, Structural)]
pub struct DatedVehicleJourney {
    pub vj_idx: usize,
    pub date: i64,
}

/// One scheduled stop visit of a dated journey.  Connections form a single
/// sequence, globally ordered by scheduled departure time; a connection's
/// identity for the real-time overlay is its position in that sequence.
#[derive(Clone, Copy, Debug, PartialEq, Eq, Structural)]
pub struct Connection {
    pub stop_point_idx: usize,
    pub dated_vj: DatedVehicleJourney,
    pub sequence: u16,
    pub arr_time: DateTime,
    pub dep_time: DateTime,
}

/// The real-time override for exactly one connection: the feed's update time
/// and whichever of the estimated arrival/departure it reported.
#[derive(Clone, Copy, Debug, PartialEq, Eq, Structural)]
pub struct RealTimeConnection {
    pub update_time: DateTime,
    pub arr_time: Option<DateTime>,
    pub dep_time: Option<DateTime>,
}

/// The sparse overlay: connection position (in the schedule index) to its
/// real-time override.  Rebuilt wholesale on every merge, never patched.
#[derive(Debug)]
pub struct UpdatedTimetable {
    pub realtime_connections: HashMap<usize, RealTimeConnection>,
}

/// The raw bytes of the last successfully fetched real-time feed, with the
/// fetch time.
#[derive(Clone, Debug)]
pub struct GtfsRT {
    pub datetime: DateTime,
    pub data: Vec<u8>,
}

/// The order of the schedule index: by scheduled departure time, ties broken
/// by journey and then by sequence within the journey, so that the index is
/// deterministic.
pub open spec fn conn_le(a: Connection, b: Connection) -> bool {
    if a.dep_time.0 != b.dep_time.0 {
        a.dep_time.0 < b.dep_time.0
    } else if a.dated_vj.vj_idx != b.dated_vj.vj_idx {
        a.dated_vj.vj_idx < b.dated_vj.vj_idx
    } else if a.dated_vj.date != b.dated_vj.date {
        a.dated_vj.date < b.dated_vj.date
    } else {
        a.sequence <= b.sequence
    }
}

/// Non-decreasing under [`conn_le`]; in particular departure times are
/// non-decreasing.
pub open spec fn conn_sorted(s: Seq<Connection>) -> bool {
    forall|i: int, j: int| 0 <= i < j < s.len() ==> conn_le(#[trigger] s[i], #[trigger] s[j])
}

/// The connection's cross references point inside a model with `n_stops`
/// stops and `n_vjs` journeys.
pub open spec fn conn_wf(c: Connection, n_stops: int, n_vjs: int) -> bool {
    &&& c.stop_point_idx < n_stops
    &&& c.dated_vj.vj_idx < n_vjs
}

/// Service dates this far from day zero keep every derived timestamp inside
/// an `i64` (and inside [`crate::utils::dt_in_range`]).
pub open spec fn dvj_date_in_range(date: int) -> bool {
    -0x4000_0000 <= date <= 0x4000_0000
}

/// Exec comparison mirroring [`conn_le`].
fn conn_le_exec(a: &Connection, b: &Connection) -> (r: bool)
    ensures
        r == conn_le(*a, *b),
{
    if a.dep_time.0 != b.dep_time.0 {
        a.dep_time.0 < b.dep_time.0
    } else if a.dated_vj.vj_idx != b.dated_vj.vj_idx {
        a.dated_vj.vj_idx < b.dated_vj.vj_idx
    } else if a.dated_vj.date != b.dated_vj.date {
        a.dated_vj.date < b.dated_vj.date
    } else {
        a.sequence <= b.sequence
    }
}

/// Inserting into a sequence adds exactly one occurrence to its multiset.
proof fn lemma_insert_to_multiset(s: Seq<Connection>, i: int, a: Connection)
    requires
        0 <= i <= s.len(),
    ensures
        s.insert(i, a).to_multiset() == s.to_multiset().insert(a),
{
    broadcast use vstd::seq_lib::group_seq_properties;

    let pre = s.subrange(0, i);
    let post = s.subrange(i, s.len() as int);
    s.to_multiset_ensures();
    pre.to_multiset_ensures();
    pre.push(a).to_multiset_ensures();
    post.to_multiset_ensures();
    lemma_multiset_commutative(pre.push(a), post);
    lemma_multiset_commutative(pre, post);
    assert(pre + post =~= s);
    assert(s.insert(i, a).to_multiset() =~= s.to_multiset().insert(a));
}

/// A multiset-preserving transformation keeps every element well formed.
proof fn lemma_permutation_keeps_wf(
    src: Seq<Connection>,
    dst: Seq<Connection>,
    n_stops: int,
    n_vjs: int,
)
    requires
        dst.to_multiset() == src.to_multiset(),
        forall|i: int| 0 <= i < src.len() ==> conn_wf(#[trigger] src[i], n_stops, n_vjs),
    ensures
        forall|i: int| 0 <= i < dst.len() ==> conn_wf(#[trigger] dst[i], n_stops, n_vjs),
{
    src.to_multiset_ensures();
    dst.to_multiset_ensures();
    assert forall|i: int| 0 <= i < dst.len() implies conn_wf(
        #[trigger] dst[i],
        n_stops,
        n_vjs,
    ) by {
        assert(dst.to_multiset().count(dst[i]) > 0) by {
            assert(dst.contains(dst[i]));
        }
        assert(src.contains(dst[i]));
        let w = choose|j: int| 0 <= j < src.len() && src[j] == dst[i];
        assert(conn_wf(src[w], n_stops, n_vjs));
    }
}

/// Sorts connections by [`conn_le`] (insertion sort), preserving the
/// multiset of elements.
fn sort_connections(v: Vec<Connection>) -> (r: Vec<Connection>)
    ensures
        conn_sorted(r@),
        r@.to_multiset() == v@.to_multiset(),
{
    let mut out: Vec<Connection> = Vec::new();
    let n = v.len();
    proof {
        v@.to_multiset_ensures();
        assert(v@.subrange(0, 0) =~= Seq::<Connection>::empty());
        Seq::<Connection>::empty().to_multiset_ensures();
        assert(out@.to_multiset() =~= v@.subrange(0, 0).to_multiset());
    }
    let mut idx: usize = 0;
    while idx < n
        invariant
            n == v@.len(),
            idx <= n,
            conn_sorted(out@),
            out@.to_multiset() == v@.subrange(0, idx as int).to_multiset(),
        decreases n - idx,
    {
        let c = v[idx];
        let mut p: usize = 0;
        while p < out.len() && conn_le_exec(&out[p], &c)
            invariant
                p <= out@.len(),
                forall|i: int| 0 <= i < p ==> conn_le(#[trigger] out@[i], c),
                conn_sorted(out@),
            decreases out@.len() - p,
        {
            p += 1;
        }
        let ghost old_out = out@;
        out.insert(p, c);
        proof {
            old_out.insert_ensures(p as int, c);
            assert forall|i: int, j: int| 0 <= i < j < out@.len() implies conn_le(
                #[trigger] out@[i],
                #[trigger] out@[j],
            ) by {
                if j < p {
                    assert(out@[i] == old_out[i] && out@[j] == old_out[j]);
                } else if i < p && j == p {
                    assert(out@[i] == old_out[i]);
                } else if i < p && j > p {
                    assert(out@[i] == old_out[i] && out@[j] == old_out[j - 1]);
                } else if i == p {
                    assert(out@[j] == old_out[j - 1]);
                    if p < old_out.len() {
                        assert(!conn_le(old_out[p as int], c));
                    }
                } else {
                    assert(out@[i] == old_out[i - 1] && out@[j] == old_out[j - 1]);
                }
            }
            lemma_insert_to_multiset(old_out, p as int, c);
            assert(v@.subrange(0, idx + 1) =~= v@.subrange(0, idx as int).push(c));
            v@.subrange(0, idx as int).to_multiset_ensures();
            assert(out@.to_multiset() =~= v@.subrange(0, idx + 1).to_multiset());
        }
        idx += 1;
    }
    proof {
        assert(v@.subrange(0, n as int) =~= v@);
    }
    out
}

/// The connection produced by the `k`-th stop visit of the dated journey.
pub open spec fn connection_of(
    model: NetworkModel,
    dvj: DatedVehicleJourney,
    k: int,
) -> Connection {
    let st = model.vehicle_journeys@[dvj.vj_idx as int].stop_times@[k];
    Connection {
        stop_point_idx: st.stop_point_idx,
        dated_vj: dvj,
        sequence: st.sequence,
        arr_time: DateTime((dvj.date * 86400 + st.arrival) as i64),
        dep_time: DateTime((dvj.date * 86400 + st.departure) as i64),
    }
}

/// All connections of one dated journey, in stop-visit order.
pub open spec fn connections_of_journey(
    model: NetworkModel,
    dvj: DatedVehicleJourney,
) -> Seq<Connection> {
    Seq::new(
        model.vehicle_journeys@[dvj.vj_idx as int].stop_times@.len(),
        |k: int| connection_of(model, dvj, k),
    )
}

/// The connections of the first `j` dated journeys, concatenated.
pub open spec fn connections_up_to(
    model: NetworkModel,
    dvjs: Seq<DatedVehicleJourney>,
    j: int,
) -> Seq<Connection>
    decreases j,
{
    if j <= 0 {
        Seq::empty()
    } else {
        connections_up_to(model, dvjs, j - 1) + connections_of_journey(model, dvjs[j - 1])
    }
}

/// Every scheduled stop visit of every dated journey, one connection each.
pub open spec fn all_connections(
    model: NetworkModel,
    dvjs: Seq<DatedVehicleJourney>,
) -> Seq<Connection> {
    connections_up_to(model, dvjs, dvjs.len() as int)
}

/// The immutable, ordered index of every scheduled stop visit.  Built once at
/// load time; queries rely on its sortedness for their scan start.
#[derive(Debug)]
pub struct ScheduleIndex {
    pub connections: Vec<Connection>,
}

impl ScheduleIndex {
    /// The index is sorted by scheduled departure (ties broken by journey and
    /// sequence).
    pub open spec fn wf(self) -> bool {
        conn_sorted(self.connections@)
    }

    /// Builds the index: one connection per stop visit of each dated journey,
    /// sorted by scheduled departure time.  The result holds exactly the
    /// enumerated visits (as a multiset), in sorted order, and every
    /// connection's references point inside the model.
    pub fn build(model: &NetworkModel, dated_vjs: &Vec<DatedVehicleJourney>) -> (r: ScheduleIndex)
        requires
            model.wf(),
            forall|d: int|
                0 <= d < dated_vjs@.len() ==> (#[trigger] dated_vjs@[d]).vj_idx
                    < model.vehicle_journeys@.len() && dvj_date_in_range(dated_vjs@[d].date as int),
        ensures
            r.wf(),
            r.connections@.to_multiset() == all_connections(*model, dated_vjs@).to_multiset(),
            forall|k: int|
                0 <= k < r.connections@.len() ==> conn_wf(
                    #[trigger] r.connections@[k],
                    model.stop_points@.len() as int,
                    model.vehicle_journeys@.len() as int,
                ),
    {
        let mut conns: Vec<Connection> = Vec::new();
        let nd = dated_vjs.len();
        let mut d: usize = 0;
        while d < nd
            invariant
                model.wf(),
                nd == dated_vjs@.len(),
                d <= nd,
                forall|i: int|
                    0 <= i < dated_vjs@.len() ==> (#[trigger] dated_vjs@[i]).vj_idx
                        < model.vehicle_journeys@.len() && dvj_date_in_range(
                        dated_vjs@[i].date as int,
                    ),
                conns@ == connections_up_to(*model, dated_vjs@, d as int),
                forall|k: int|
                    0 <= k < conns@.len() ==> conn_wf(
                        #[trigger] conns@[k],
                        model.stop_points@.len() as int,
                        model.vehicle_journeys@.len() as int,
                    ),
            decreases nd - d,
        {
            let dvj = dated_vjs[d];
            let vj = &model.vehicle_journeys[dvj.vj_idx];
            let ns = vj.stop_times.len();
            let ghost base = conns@;
            let mut k: usize = 0;
            while k < ns
                invariant
                    model.wf(),
                    dvj.vj_idx < model.vehicle_journeys@.len(),
                    dvj_date_in_range(dvj.date as int),
                    *vj == model.vehicle_journeys@[dvj.vj_idx as int],
                    ns == vj.stop_times@.len(),
                    k <= ns,
                    conns@ == base + connections_of_journey(*model, dvj).subrange(0, k as int),
                    forall|i: int|
                        0 <= i < conns@.len() ==> conn_wf(
                            #[trigger] conns@[i],
                            model.stop_points@.len() as int,
                            model.vehicle_journeys@.len() as int,
                        ),
                decreases ns - k,
            {
                let st = vj.stop_times[k];
                let arr: i64 = dvj.date * 86400 + (st.arrival as i64);
                let dep: i64 = dvj.date * 86400 + (st.departure as i64);
                let c = Connection {
                    stop_point_idx: st.stop_point_idx,
                    dated_vj: dvj,
                    sequence: st.sequence,
                    arr_time: DateTime(arr),
                    dep_time: DateTime(dep),
                };
                assert(c == connection_of(*model, dvj, k as int));
                conns.push(c);
                proof {
                    assert(connections_of_journey(*model, dvj).subrange(0, k + 1)
                        =~= connections_of_journey(*model, dvj).subrange(0, k as int).push(c));
                    assert(conns@ =~= base + connections_of_journey(*model, dvj).subrange(
                        0,
                        k + 1,
                    ));
                }
                k += 1;
            }
            proof {
                assert(connections_of_journey(*model, dvj).subrange(
                    0,
                    ns as int,
                ) =~= connections_of_journey(*model, dvj));
                assert(conns@ == connections_up_to(*model, dated_vjs@, d + 1));
            }
            d += 1;
        }
        assert(conns@ == all_connections(*model, dated_vjs@));
        let ghost pre_sort = conns@;
        let sorted = sort_connections(conns);
        proof {
            lemma_permutation_keeps_wf(
                pre_sort,
                sorted@,
                model.stop_points@.len() as int,
                model.vehicle_journeys@.len() as int,
            );
        }
        ScheduleIndex { connections: sorted }
    }
}

/// The ordering invariant in plain terms: a well-formed schedule index lists
/// its connections with non-decreasing scheduled departure times.
pub proof fn lemma_index_departures_monotone(index: ScheduleIndex)
    requires
        index.wf(),
    ensures
        forall|i: int, j: int|
            0 <= i <= j < index.connections@.len() ==> (#[trigger] index.connections@[i]).dep_time.0
                <= (#[trigger] index.connections@[j]).dep_time.0,
{
    assert forall|i: int, j: int|
        0 <= i <= j < index.connections@.len() implies (#[trigger] index.connections@[i]).dep_time.0
        <= (#[trigger] index.connections@[j]).dep_time.0 by {
        if i < j {
            assert(conn_le(index.connections@[i], index.connections@[j]));
        }
    }
}

impl UpdatedTimetable {
    /// Every overlay key is the position of an existing connection.
    pub open spec fn wf(self, n_connections: int) -> bool {
        forall|p: usize| #[trigger]
            self.realtime_connections@.contains_key(p) ==> p < n_connections
    }

    /// The empty overlay: no connection has real-time information.
    pub fn new() -> (r: UpdatedTimetable)
        ensures
            r.realtime_connections@ == Map::<usize, RealTimeConnection>::empty(),
    {
        UpdatedTimetable { realtime_connections: HashMap::new() }
    }
}

/// The load-time bundle: the network model, the schedule index derived from
/// it, the dataset's operating timezone, and the load time.  Immutable for
/// the lifetime of the process.
#[derive(Debug)]
pub struct Dataset {
    pub ntm: NetworkModel,
    pub timetable: ScheduleIndex,
    pub timezone: String,
    pub loaded_at: DateTime,
}

impl Dataset {
    /// The model is internally consistent, the index is sorted, and every
    /// connection of the index points inside the model.
    pub open spec fn wf(self) -> bool {
        &&& self.ntm.wf()
        &&& self.timetable.wf()
        &&& forall|k: int|
            0 <= k < self.timetable.connections@.len() ==> conn_wf(
                #[trigger] self.timetable.connections@[k],
                self.ntm.stop_points@.len() as int,
                self.ntm.vehicle_journeys@.len() as int,
            )
    }

    /// Bundles a loaded model with its freshly built schedule index.
    pub fn new(
        ntm: NetworkModel,
        dated_vjs: &Vec<DatedVehicleJourney>,
        timezone: String,
        loaded_at: DateTime,
    ) -> (r: Dataset)
        requires
            ntm.wf(),
            forall|d: int|
                0 <= d < dated_vjs@.len() ==> (#[trigger] dated_vjs@[d]).vj_idx
                    < ntm.vehicle_journeys@.len() && dvj_date_in_range(dated_vjs@[d].date as int),
        ensures
            r.wf(),
            r.ntm == ntm,
            r.timezone == timezone,
            r.loaded_at == loaded_at,
            r.timetable.connections@.to_multiset() == all_connections(
                ntm,
                dated_vjs@,
            ).to_multiset(),
    {
        let timetable = ScheduleIndex::build(&ntm, dated_vjs);
        Dataset { ntm, timetable, timezone, loaded_at }
    }
}

} // verus!
