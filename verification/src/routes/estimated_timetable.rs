use vstd::prelude::*;

use crate::datasets::{conn_le, conn_sorted, conn_wf, Connection, Dataset, RealTimeConnection,
    UpdatedTimetable};
use crate::model::NetworkModel;
use crate::siri_lite::{self, iso_date_of, DateTime};
use crate::clock::{now_in_timezone, now_local_rfc3339, now_utc_rfc3339, now_utc_secs};
use crate::utils::{dt_in_range, Duration};
use crate::Error;
use vstd::string::StringExecFns;

verus! {

/// Whether a query wants real-time-adjusted times or the pure base schedule.
#[derive(Clone, Copy, Debug, PartialEq, Eq, Structural)]
pub enum DataFreshness {
    RealTime,
    Scheduled,
}

impl Default for DataFreshness {
    /// Queries default to real-time-adjusted data.
    fn default() -> (r: DataFreshness)
        ensures
            r is RealTime,
    {
        DataFreshness::RealTime
    }
}

/// Default result cap: effectively unbounded, the surrounding layer decides
/// the policy.
pub fn default_stop_visits() -> (r: u64)
    ensures
        r == u64::MAX,
{
    u64::MAX
}

/// By default only connections with real-time data are returned.
pub fn default_only_realtime() -> (r: bool)
    ensures
        r == true,
{
    true
}

/// A parameterized request for upcoming stop visits.
#[derive(Clone, Debug)]
pub struct Params {
    pub _requestor_ref: Option<String>,
    /// Id of the stop point whose next departures are wanted.
    pub monitoring_ref: Option<String>,
    /// Keep only connections that carry real-time data.
    pub only_realtime: bool,
    /// Keep only departures of this operator.
    pub operator_ref: Option<String>,
    /// Keep only departures of this line.
    pub line_ref: Option<String>,
    pub _destination_ref: Option<String>,
    /// The datetime from which the next departures are wanted; the default is
    /// the current time of the query, in the dataset's timezone.
    pub start_time: Option<DateTime>,
    /// Keep only departures/arrivals within `[start_time, start_time + d]`.
    pub preview_interval: Option<Duration>,
    /// Real-time-adjusted times, or base schedule only.
    pub data_freshness: DataFreshness,
    /// Hard cap on the number of returned visits.
    pub maximum_stop_visits: u64,
}

impl Params {
    /// The durations and timestamps the request carries are in safe range.
    pub open spec fn wf(self) -> bool {
        &&& (self.preview_interval matches Some(d) ==> d.wf())
        &&& (self.start_time matches Some(t) ==> dt_in_range(t.0 as int))
    }
}

/// The line of the connection's journey, resolved journey -> route -> line;
/// a journey without a route has no line.
pub open spec fn spec_line_of(m: NetworkModel, c: Connection) -> Option<Seq<char>> {
    match m.vehicle_journeys@[c.dated_vj.vj_idx as int].route_idx {
        Some(ri) => Some(m.routes@[ri as int].line_id@),
        None => None,
    }
}

/// The operator of the connection's journey, when the journey resolves to
/// one.
pub open spec fn spec_operator_of(m: NetworkModel, c: Connection) -> Option<Seq<char>> {
    match m.vehicle_journeys@[c.dated_vj.vj_idx as int].company_idx {
        Some(ci) => Some(m.companies@[ci as int].id@),
        None => None,
    }
}

/// The id of the line of the connection's journey.
pub fn get_line_ref<'a>(cnx: &Connection, model: &'a NetworkModel) -> (r: Option<&'a String>)
    requires
        model.wf(),
        cnx.dated_vj.vj_idx < model.vehicle_journeys@.len(),
    ensures
        match r {
            Some(s) => spec_line_of(*model, *cnx) == Some(s@),
            None => spec_line_of(*model, *cnx) is None,
        },
{
    match model.vehicle_journeys[cnx.dated_vj.vj_idx].route_idx {
        Some(ri) => Some(&model.routes[ri].line_id),
        None => None,
    }
}

/// The id of the operator of the connection's journey.
pub fn get_operator_ref<'a>(cnx: &Connection, model: &'a NetworkModel) -> (r: Option<&'a String>)
    requires
        model.wf(),
        cnx.dated_vj.vj_idx < model.vehicle_journeys@.len(),
    ensures
        match r {
            Some(s) => spec_operator_of(*model, *cnx) == Some(s@),
            None => spec_operator_of(*model, *cnx) is None,
        },
{
    match model.vehicle_journeys[cnx.dated_vj.vj_idx].company_idx {
        Some(ci) => Some(&model.companies[ci].id),
        None => None,
    }
}

/// The connection lies inside the preview window: with no window every
/// connection qualifies; with a window `d`, it qualifies when its departure
/// *or* its arrival is at or before `start + d` — deliberately an "or", so a
/// journey ending inside the window is not dropped.
pub open spec fn spec_in_interval(c: Connection, start_time: DateTime, duration: Option<
    Duration,
>) -> bool {
    match duration {
        None => true,
        Some(d) => c.dep_time.0 <= start_time.0 + d.0 || c.arr_time.0 <= start_time.0 + d.0,
    }
}

/// Whether the connection departs or arrives within the preview window.
pub fn is_in_interval(cnx: &Connection, start_time: DateTime, duration: &Option<Duration>) -> (r:
    bool)
    requires
        dt_in_range(start_time.0 as int),
        duration matches Some(d) ==> d.wf(),
    ensures
        r == spec_in_interval(*cnx, start_time, *duration),
{
    match duration {
        None => true,
        Some(d) => {
            let limit: i64 = start_time.0 + d.0;
            cnx.dep_time.0 <= limit || cnx.arr_time.0 <= limit
        },
    }
}

/// The timestamp reported for a projected record: the overlay entry's update
/// time when there is one, otherwise the time the base schedule was loaded
/// (no better timestamp is available then).
pub fn update_time_of(updated_connection: Option<&RealTimeConnection>, loaded_at: DateTime) -> (r:
    DateTime)
    ensures
        match updated_connection {
            Some(rtc) => r == rtc.update_time,
            None => r == loaded_at,
        },
{
    match updated_connection {
        Some(rtc) => rtc.update_time,
        None => loaded_at,
    }
}

/// The record that [`create_estimated_timetable_visit`] builds for the given
/// connection and optional override: every field is pinned.
///
/// Scheduled times are copied from the connection; expected times are copied
/// from the override exactly when it carries them (the caller passes no
/// override under `Scheduled` freshness, so such records carry no expected
/// time at all).
pub open spec fn visit_matches(
    data: Dataset,
    c: Connection,
    rtc: Option<RealTimeConnection>,
    v: siri_lite::EstimatedVehicleJourney,
) -> bool {
    let stop = data.ntm.stop_points@[c.stop_point_idx as int];
    let line = match spec_line_of(data.ntm, c) {
        Some(l) => l,
        None => Seq::<char>::empty(),
    };
    let operator = match spec_operator_of(data.ntm, c) {
        Some(o) => o,
        None => Seq::<char>::empty(),
    };
    &&& v.LineRef.LineRef@ == "IT:ITC1:Line:busATS:"@ + line
    &&& v.DirectionRef matches Some(d) && d.DirectionRef@ == "inbound"@
    &&& v.JourneyPatternRef is None
    &&& v.PublishedLineName is None
    &&& v.FramedVehicleJourneyRef.DataFrameRef matches Some(w) && w.DataFrameRef@ == iso_date_of(
        c.arr_time.0 as int,
    )
    &&& v.FramedVehicleJourneyRef.DatedVehicleJourneyRef matches Some(w)
        && w.DatedVehicleJourneyRef@ == "x"@
    &&& v.OperatorRef.OperatorRef matches Some(w) && w.OperatorRef@
        == "IT::Operator:02194050486:"@ + operator
    &&& v.VehicleRef is None
    &&& v.EstimatedCalls.StopPointRef.StopPointRef@ == "IT:ITC1:ScheduledStopPoint:busATS:"@
        + stop.id@
    &&& v.EstimatedCalls.VisitNumber is None
    &&& v.EstimatedCalls.Order.Order == c.sequence
    &&& v.EstimatedCalls.StopPointName.StopPointName@ == stop.name@
    &&& v.EstimatedCalls.AimedArrivalTime matches Some(w) && w.AimedArrivalTime == c.arr_time
    &&& v.EstimatedCalls.AimedDepartureTime matches Some(w) && w.AimedDepartureTime == c.dep_time
    &&& (match rtc {
        Some(u) => {
            &&& (match u.arr_time {
                Some(t) => v.EstimatedCalls.ExpectedArrivalTime matches Some(w)
                    && w.ExpectedArrivalTime == t,
                None => v.EstimatedCalls.ExpectedArrivalTime is None,
            })
            &&& (match u.dep_time {
                Some(t) => v.EstimatedCalls.ExpectedDepartureTime matches Some(w)
                    && w.ExpectedDepartureTime == t,
                None => v.EstimatedCalls.ExpectedDepartureTime is None,
            })
        },
        None => {
            &&& v.EstimatedCalls.ExpectedArrivalTime is None
            &&& v.EstimatedCalls.ExpectedDepartureTime is None
        },
    })
}

/// Projects one kept (connection, optional override) pair into the output
/// record shape; see [`visit_matches`] for exactly what each field holds.
pub fn create_estimated_timetable_visit(
    data: &Dataset,
    connection: &Connection,
    updated_connection: Option<&RealTimeConnection>,
) -> (r: siri_lite::EstimatedVehicleJourney)
    requires
        data.wf(),
        conn_wf(
            *connection,
            data.ntm.stop_points@.len() as int,
            data.ntm.vehicle_journeys@.len() as int,
        ),
    ensures
        visit_matches(
            *data,
            *connection,
            match updated_connection {
                Some(u) => Some(*u),
                None => None,
            },
            r,
        ),
{
    let stop = &data.ntm.stop_points[connection.stop_point_idx];
    let line_ref: String = match get_line_ref(connection, &data.ntm) {
        Some(l) => String::from_str(l.as_str()),
        None => String::new(),
    };
    let operator_ref: String = match get_operator_ref(connection, &data.ntm) {
        Some(o) => String::from_str(o.as_str()),
        None => String::new(),
    };
    let call = siri_lite::EstimatedCall {
        StopPointRef: siri_lite::StopPointRefWrapper {
            StopPointRef: String::from_str("IT:ITC1:ScheduledStopPoint:busATS:").concat(
                stop.id.as_str(),
            ),
        },
        VisitNumber: None,
        Order: siri_lite::OrderWrapper { Order: connection.sequence },
        StopPointName: siri_lite::StopPointNameWrapper {
            StopPointName: String::from_str(stop.name.as_str()),
        },
        AimedArrivalTime: Some(
            siri_lite::AimedArrivalTimeWrapper { AimedArrivalTime: connection.arr_time },
        ),
        AimedDepartureTime: Some(
            siri_lite::AimedDepartureTimeWrapper { AimedDepartureTime: connection.dep_time },
        ),
        ExpectedArrivalTime: match updated_connection {
            Some(u) => match u.arr_time {
                Some(t) => Some(siri_lite::ExpectedArrivalTimeWrapper { ExpectedArrivalTime: t }),
                None => None,
            },
            None => None,
        },
        ExpectedDepartureTime: match updated_connection {
            Some(u) => match u.dep_time {
                Some(t) => Some(
                    siri_lite::ExpectedDepartureTimeWrapper { ExpectedDepartureTime: t },
                ),
                None => None,
            },
            None => None,
        },
    };
    siri_lite::EstimatedVehicleJourney {
        LineRef: siri_lite::LineRefWrapper {
            LineRef: String::from_str("IT:ITC1:Line:busATS:").concat(line_ref.as_str()),
        },
        DirectionRef: Some(
            siri_lite::DirectionRefWrapper { DirectionRef: String::from_str("inbound") },
        ),
        JourneyPatternRef: None,
        PublishedLineName: None,
        FramedVehicleJourneyRef: siri_lite::FramedVehicleJourneyRef {
            DataFrameRef: Some(
                siri_lite::DataFrameRefWrapper { DataFrameRef: connection.arr_time.date_string() },
            ),
            DatedVehicleJourneyRef: Some(
                siri_lite::DatedVehicleJourneyRefWrapper {
                    DatedVehicleJourneyRef: String::from_str("x"),
                },
            ),
        },
        OperatorRef: siri_lite::ServiceInfoGroup {
            OperatorRef: Some(
                siri_lite::OperatorRefWrapper {
                    OperatorRef: String::from_str("IT::Operator:02194050486:").concat(
                        operator_ref.as_str(),
                    ),
                },
            ),
        },
        VehicleRef: None,
        EstimatedCalls: call,
    }
}

/// A fully resolved request: the stop filter as an index, the string filters
/// as character sequences, and the start time already defaulted.
pub ghost struct QueryFilter {
    pub stop_idx: Option<usize>,
    pub line: Option<Seq<char>>,
    pub operator: Option<Seq<char>>,
    pub start: DateTime,
    pub preview: Option<Duration>,
    pub only_realtime: bool,
    pub freshness: DataFreshness,
}

/// The filter that a request resolves to, given the stop index its
/// monitoring reference named and the start time to use.
pub open spec fn filter_of(p: Params, stop_idx: Option<usize>, start: DateTime) -> QueryFilter {
    QueryFilter {
        stop_idx,
        line: match p.line_ref {
            Some(l) => Some(l@),
            None => None,
        },
        operator: match p.operator_ref {
            Some(o) => Some(o@),
            None => None,
        },
        start,
        preview: p.preview_interval,
        only_realtime: p.only_realtime,
        freshness: p.data_freshness,
    }
}

/// The overlay carries, for position `i`, an entry with at least one
/// populated time — the connection "has real-time data".
pub open spec fn has_realtime(overlay: Map<usize, RealTimeConnection>, i: int) -> bool {
    &&& overlay.contains_key(i as usize)
    &&& (overlay[i as usize].arr_time is Some || overlay[i as usize].dep_time is Some)
}

/// Whether the connection at position `i` is kept by the query: it departs at
/// or after the start time, passes the stop, line, operator and window
/// filters, and — when only real-time data is wanted — has an overlay entry
/// with a populated time.
pub open spec fn conn_matches(
    m: NetworkModel,
    overlay: Map<usize, RealTimeConnection>,
    f: QueryFilter,
    c: Connection,
    i: int,
) -> bool {
    &&& c.dep_time.0 >= f.start.0
    &&& (f.stop_idx matches Some(s) ==> c.stop_point_idx == s)
    &&& (f.line matches Some(l) ==> spec_line_of(m, c) == Some(l))
    &&& (f.operator matches Some(o) ==> spec_operator_of(m, c) == Some(o))
    &&& spec_in_interval(c, f.start, f.preview)
    &&& (f.only_realtime ==> has_realtime(overlay, i))
}

/// The positions, in ascending order, of the connections among the first `j`
/// that the query keeps.
pub open spec fn kept_up_to(
    m: NetworkModel,
    overlay: Map<usize, RealTimeConnection>,
    f: QueryFilter,
    s: Seq<Connection>,
    j: int,
) -> Seq<int>
    decreases j,
{
    if j <= 0 {
        Seq::empty()
    } else {
        let pre = kept_up_to(m, overlay, f, s, j - 1);
        if conn_matches(m, overlay, f, s[j - 1], j - 1) {
            pre.push(j - 1)
        } else {
            pre
        }
    }
}

/// The kept positions are in range, strictly ascending, all matching, and
/// complete: every matching position among the first `j` is listed.
pub proof fn lemma_kept_props(
    m: NetworkModel,
    overlay: Map<usize, RealTimeConnection>,
    f: QueryFilter,
    s: Seq<Connection>,
    j: int,
)
    requires
        0 <= j <= s.len(),
    ensures
        forall|k: int|
            0 <= k < kept_up_to(m, overlay, f, s, j).len() ==> {
                let p = #[trigger] kept_up_to(m, overlay, f, s, j)[k];
                0 <= p < j && conn_matches(m, overlay, f, s[p], p)
            },
        forall|k1: int, k2: int|
            0 <= k1 < k2 < kept_up_to(m, overlay, f, s, j).len() ==> kept_up_to(
                m,
                overlay,
                f,
                s,
                j,
            )[k1] < kept_up_to(m, overlay, f, s, j)[k2],
        forall|i: int|
            0 <= i < j && conn_matches(m, overlay, f, #[trigger] s[i], i) ==> kept_up_to(
                m,
                overlay,
                f,
                s,
                j,
            ).contains(i),
    decreases j,
{
    if j > 0 {
        lemma_kept_props(m, overlay, f, s, j - 1);
        let pre = kept_up_to(m, overlay, f, s, j - 1);
        let cur = kept_up_to(m, overlay, f, s, j);
        assert forall|i: int|
            0 <= i < j && conn_matches(m, overlay, f, #[trigger] s[i], i) implies cur.contains(
            i,
        ) by {
            if i < j - 1 {
                assert(pre.contains(i));
                let k0 = choose|k: int| 0 <= k < pre.len() && pre[k] == i;
                assert(cur[k0] == i);
            } else {
                assert(cur[cur.len() - 1] == i);
            }
        }
    }
}

/// For `j1 <= j2`, the positions kept among the first `j1` connections are a
/// prefix of those kept among the first `j2`.
pub proof fn lemma_kept_prefix(
    m: NetworkModel,
    overlay: Map<usize, RealTimeConnection>,
    f: QueryFilter,
    s: Seq<Connection>,
    j1: int,
    j2: int,
)
    requires
        0 <= j1 <= j2 <= s.len(),
    ensures
        kept_up_to(m, overlay, f, s, j1).len() <= kept_up_to(m, overlay, f, s, j2).len(),
        kept_up_to(m, overlay, f, s, j2).take(kept_up_to(m, overlay, f, s, j1).len() as int)
            == kept_up_to(m, overlay, f, s, j1),
    decreases j2 - j1,
{
    if j1 < j2 {
        lemma_kept_prefix(m, overlay, f, s, j1, j2 - 1);
        let a = kept_up_to(m, overlay, f, s, j1);
        let b = kept_up_to(m, overlay, f, s, j2 - 1);
        let c = kept_up_to(m, overlay, f, s, j2);
        assert(c.take(a.len() as int) =~= a) by {
            assert(b.take(a.len() as int) == a);
        }
    } else {
        let a = kept_up_to(m, overlay, f, s, j1);
        assert(a.take(a.len() as int) =~= a);
    }
}

/// The first position whose scheduled departure is at or after `start`.
fn lower_bound(conns: &Vec<Connection>, start: i64) -> (lo: usize)
    requires
        conn_sorted(conns@),
    ensures
        lo <= conns@.len(),
        forall|i: int| 0 <= i < lo ==> (#[trigger] conns@[i]).dep_time.0 < start,
        forall|i: int| lo <= i < conns@.len() ==> (#[trigger] conns@[i]).dep_time.0 >= start,
{
    let mut lo: usize = 0;
    let mut hi: usize = conns.len();
    while lo < hi
        invariant
            lo <= hi <= conns@.len(),
            conn_sorted(conns@),
            forall|i: int| 0 <= i < lo ==> (#[trigger] conns@[i]).dep_time.0 < start,
            forall|i: int| hi <= i < conns@.len() ==> (#[trigger] conns@[i]).dep_time.0 >= start,
        decreases hi - lo,
    {
        let mid = lo + (hi - lo) / 2;
        if conns[mid].dep_time.0 < start {
            assert forall|i: int| 0 <= i < mid + 1 implies (#[trigger] conns@[i]).dep_time.0
                < start by {
                if i < mid {
                    assert(conn_le(conns@[i], conns@[mid as int]));
                }
            }
            lo = mid + 1;
        } else {
            assert forall|i: int| mid <= i < conns@.len() implies (#[trigger] conns@[i]).dep_time.0
                >= start by {
                if i > mid {
                    assert(conn_le(conns@[mid as int], conns@[i]));
                }
            }
            hi = mid;
        }
    }
    lo
}

/// The override a kept connection is paired with: its overlay entry, but only
/// under `RealTime` freshness — a caller asking for base-schedule data never
/// sees real-time numbers.
pub open spec fn rtc_for(
    overlay: Map<usize, RealTimeConnection>,
    freshness: DataFreshness,
    i: int,
) -> Option<RealTimeConnection> {
    if freshness is RealTime && overlay.contains_key(i as usize) {
        Some(overlay[i as usize])
    } else {
        None
    }
}

/// The positions the query keeps, over the whole schedule index.
pub open spec fn kept_positions(
    data: Dataset,
    overlay: Map<usize, RealTimeConnection>,
    f: QueryFilter,
) -> Seq<int> {
    kept_up_to(
        data.ntm,
        overlay,
        f,
        data.timetable.connections@,
        data.timetable.connections@.len() as int,
    )
}

/// What the query returns: one projected record per kept connection, in
/// schedule order, truncated to the requested cap.
pub open spec fn query_result_ok(
    data: Dataset,
    overlay: Map<usize, RealTimeConnection>,
    f: QueryFilter,
    cap: int,
    evjs: Seq<siri_lite::EstimatedVehicleJourney>,
) -> bool {
    let s = data.timetable.connections@;
    let ks = kept_positions(data, overlay, f);
    &&& evjs.len() == if ks.len() <= cap {
        ks.len() as int
    } else {
        cap
    }
    &&& forall|k: int|
        0 <= k < evjs.len() ==> {
            let p = ks[k];
            0 <= p < s.len() && visit_matches(
                data,
                s[p],
                rtc_for(overlay, f.freshness, p),
                #[trigger] evjs[k],
            )
        }
}

/// The ordered, bounded record list for one request, scanning the sorted
/// index from the first connection departing at or after `start_time`.
pub fn estimated_vehicle_journeys(
    stop_idx: Option<usize>,
    data: &Dataset,
    updated_timetable: &UpdatedTimetable,
    request: &Params,
    start_time: DateTime,
) -> (r: Vec<siri_lite::EstimatedVehicleJourney>)
    requires
        data.wf(),
        request.wf(),
        dt_in_range(start_time.0 as int),
    ensures
        query_result_ok(
            *data,
            updated_timetable.realtime_connections@,
            filter_of(*request, stop_idx, start_time),
            request.maximum_stop_visits as int,
            r@,
        ),
{
    let ghost m = data.ntm;
    let ghost overlay = updated_timetable.realtime_connections@;
    let ghost f = filter_of(*request, stop_idx, start_time);
    let conns = &data.timetable.connections;
    let n = conns.len();
    let cap = request.maximum_stop_visits;
    let lo = lower_bound(conns, start_time.0);
    proof {
        lemma_kept_props(m, overlay, f, conns@, lo as int);
        if kept_up_to(m, overlay, f, conns@, lo as int).len() > 0 {
            let p = kept_up_to(m, overlay, f, conns@, lo as int)[0];
            assert(conn_matches(m, overlay, f, conns@[p], p));
            assert(false);
        }
    }
    let mut out: Vec<siri_lite::EstimatedVehicleJourney> = Vec::new();
    let mut i = lo;
    while i < n && (out.len() as u64) < cap
        invariant
            data.wf(),
            request.wf(),
            dt_in_range(start_time.0 as int),
            m == data.ntm,
            overlay == updated_timetable.realtime_connections@,
            f == filter_of(*request, stop_idx, start_time),
            conns == &data.timetable.connections,
            n == conns@.len(),
            cap == request.maximum_stop_visits,
            lo <= i <= n,
            forall|q: int|
                lo <= q < n ==> (#[trigger] conns@[q]).dep_time.0 >= start_time.0,
            out@.len() <= cap,
            out@.len() == kept_up_to(m, overlay, f, conns@, i as int).len(),
            forall|k: int|
                0 <= k < out@.len() ==> {
                    let p = kept_up_to(m, overlay, f, conns@, i as int)[k];
                    0 <= p < conns@.len() && visit_matches(
                        *data,
                        conns@[p],
                        rtc_for(overlay, f.freshness, p),
                        #[trigger] out@[k],
                    )
                },
        decreases n - i,
    {
        let c = &conns[i];
        proof {
            lemma_kept_props(m, overlay, f, conns@, i as int);
        }
        let stop_ok = match stop_idx {
            None => true,
            Some(s) => c.stop_point_idx == s,
        };
        let line_ok = match &request.line_ref {
            None => true,
            Some(want) => match get_line_ref(c, &data.ntm) {
                Some(got) => want.eq(got),
                None => false,
            },
        };
        let operator_ok = match &request.operator_ref {
            None => true,
            Some(want) => match get_operator_ref(c, &data.ntm) {
                Some(got) => want.eq(got),
                None => false,
            },
        };
        let window_ok = is_in_interval(c, start_time, &request.preview_interval);
        let entry = updated_timetable.realtime_connections.get(&i);
        let rt_ok = if request.only_realtime {
            match entry {
                Some(e) => e.arr_time.is_some() || e.dep_time.is_some(),
                None => false,
            }
        } else {
            true
        };
        let keep = stop_ok && line_ok && operator_ok && window_ok && rt_ok;
        assert(keep == conn_matches(m, overlay, f, conns@[i as int], i as int));
        if keep {
            let rtc = match request.data_freshness {
                DataFreshness::RealTime => entry,
                DataFreshness::Scheduled => None,
            };
            proof {
                match rtc {
                    Some(u) => {
                        assert(rtc_for(overlay, f.freshness, i as int) == Some(*u));
                    },
                    None => {
                        assert(rtc_for(overlay, f.freshness, i as int) is None);
                    },
                }
            }
            let visit = create_estimated_timetable_visit(data, c, rtc);
            let ghost old_out = out@;
            out.push(visit);
            proof {
                let ks1 = kept_up_to(m, overlay, f, conns@, i + 1);
                let ks0 = kept_up_to(m, overlay, f, conns@, i as int);
                assert(ks1 == ks0.push(i as int));
                assert forall|k: int| 0 <= k < out@.len() implies {
                    let p = ks1[k];
                    0 <= p < conns@.len() && visit_matches(
                        *data,
                        conns@[p],
                        rtc_for(overlay, f.freshness, p),
                        #[trigger] out@[k],
                    )
                } by {
                    if k < old_out.len() {
                        assert(out@[k] == old_out[k]);
                        assert(ks1[k] == ks0[k]);
                    } else {
                        assert(out@[k] == visit);
                        assert(ks1[k] == i as int);
                    }
                }
            }
        }
        i += 1;
    }
    proof {
        let s = conns@;
        let ks_i = kept_up_to(m, overlay, f, s, i as int);
        let ks = kept_positions(*data, overlay, f);
        lemma_kept_props(m, overlay, f, s, i as int);
        lemma_kept_prefix(m, overlay, f, s, i as int, s.len() as int);
        if i < n {
            // stopped because the cap was reached
            assert(out@.len() == cap);
            assert(ks.take(ks_i.len() as int) == ks_i);
            assert forall|k: int| 0 <= k < out@.len() implies ks[k] == ks_i[k] by {
                assert(ks.take(ks_i.len() as int)[k] == ks[k]);
            }
        } else {
            assert(ks_i == ks);
        }
        assert(out@.len() == if ks.len() <= cap as int {
            ks.len() as int
        } else {
            cap as int
        });
        assert forall|k: int| 0 <= k < out@.len() implies {
            let p = ks[k];
            0 <= p < s.len() && visit_matches(
                *data,
                s[p],
                rtc_for(overlay, f.freshness, p),
                #[trigger] out@[k],
            )
        } by {
            assert(ks[k] == ks_i[k]);
            assert({
                let p = ks_i[k];
                0 <= p < conns@.len() && visit_matches(
                    *data,
                    conns@[p],
                    rtc_for(overlay, f.freshness, p),
                    out@[k],
                )
            });
        }
    }
    out
}

/// Clamps a clock reading into the range that timestamp arithmetic admits.
fn clamp_secs(secs: i64) -> (r: i64)
    ensures
        dt_in_range(r as int),
{
    if secs > 0x2000_0000_0000_0000i64 {
        0x2000_0000_0000_0000i64
    } else if secs < -0x2000_0000_0000_0000i64 {
        -0x2000_0000_0000_0000i64
    } else {
        secs
    }
}

/// The delivery envelope around one query: a single
/// `EstimatedTimetableDelivery` whose journey frame holds the query's record
/// list.  When the request names no start time, the current time in the
/// dataset's timezone is used.
pub fn create_estimated_timetable(
    stop_idx: Option<usize>,
    data: &Dataset,
    updated_timetable: &UpdatedTimetable,
    request: &Params,
) -> (r: Vec<siri_lite::EstimatedTimetableDelivery>)
    requires
        data.wf(),
        request.wf(),
    ensures
        r@.len() == 1,
        r@[0].RequestMessageRef is None,
        r@[0].SubscriberRef.SubscriberRef@ == "NAP"@,
        r@[0].SubscriptionRef.SubscriptionRef@ == "0001"@,
        exists|start: DateTime|
            {
                &&& dt_in_range(start.0 as int)
                &&& #[trigger] query_result_ok(
                    *data,
                    updated_timetable.realtime_connections@,
                    filter_of(*request, stop_idx, start),
                    request.maximum_stop_visits as int,
                    r@[0].EstimatedJourneyVersionFrame.EstimatedVehicleJourney@,
                )
                &&& (request.start_time matches Some(t) ==> start == t)
            },
{
    let requested_start_time: DateTime = match &request.start_time {
        Some(t) => *t,
        None => {
            let secs = match now_in_timezone(data.timezone.as_str()) {
                Some(s) => s,
                None => now_utc_secs(),
            };
            DateTime(clamp_secs(secs))
        },
    };
    let journeys = estimated_vehicle_journeys(
        stop_idx,
        data,
        updated_timetable,
        request,
        requested_start_time,
    );
    let delivery = siri_lite::EstimatedTimetableDelivery {
        ResponseTimestamp: siri_lite::ResponseTimeStampWrapper {
            ResponseTimestamp: now_local_rfc3339(),
        },
        RequestMessageRef: None,
        SubscriberRef: siri_lite::SubscriberRefWrapper {
            SubscriberRef: String::from_str("NAP"),
        },
        SubscriptionRef: siri_lite::SubscriptionRefWrapper {
            SubscriptionRef: String::from_str("0001"),
        },
        EstimatedJourneyVersionFrame: siri_lite::EstimatedJourneyVersionFrame {
            RecordedAtTime: siri_lite::RecordedAtTimeWrapper {
                RecordedAtTime: now_local_rfc3339(),
            },
            EstimatedVehicleJourney: journeys,
        },
    };
    let ghost d = delivery;
    let mut r: Vec<siri_lite::EstimatedTimetableDelivery> = Vec::new();
    r.push(delivery);
    proof {
        assert(r@[0] == d);
        assert(query_result_ok(
            *data,
            updated_timetable.realtime_connections@,
            filter_of(*request, stop_idx, requested_start_time),
            request.maximum_stop_visits as int,
            r@[0].EstimatedJourneyVersionFrame.EstimatedVehicleJourney@,
        ));
    }
    r
}

/// Whether some stop of the model carries the id.
pub open spec fn stop_exists(m: NetworkModel, id: Seq<char>) -> bool {
    exists|j: int| 0 <= j < m.stop_points@.len() && (#[trigger] m.stop_points@[j]).id@ == id
}

/// The index of the first stop with the given id, or `None` when the id names
/// no stop of the model.
pub fn find_stop_idx(model: &NetworkModel, id: &String) -> (r: Option<usize>)
    ensures
        match r {
            Some(i) => i < model.stop_points@.len() && model.stop_points@[i as int].id@ == id@
                && forall|q: int| 0 <= q < i ==> (#[trigger] model.stop_points@[q]).id@ != id@,
            None => !stop_exists(*model, id@),
        },
{
    let n = model.stop_points.len();
    let mut j: usize = 0;
    while j < n
        invariant
            n == model.stop_points@.len(),
            j <= n,
            forall|q: int| 0 <= q < j ==> (#[trigger] model.stop_points@[q]).id@ != id@,
        decreases n - j,
    {
        if model.stop_points[j].id.eq(id) {
            return Some(j);
        }
        j += 1;
    }
    None
}

/// Request validation: every parameter combination the types admit is
/// accepted; the cap is whatever the caller supplied.
pub fn validate_params(request: &mut Params) -> (r: Result<(), Error>)
    ensures
        r is Ok,
        *final(request) == *old(request),
{
    Ok(())
}

/// Answers one request against the given dataset and overlay: resolves the
/// stop filter (an unknown stop id is a `NotFound` error, reported before any
/// scanning), runs the query, and wraps the result in a service delivery.
pub fn estimated_timetable(
    request: Params,
    data: &Dataset,
    updated_timetable: &UpdatedTimetable,
) -> (r: Result<siri_lite::ServiceDelivery, Error>)
    requires
        data.wf(),
        request.wf(),
    ensures
        r is Err <==> (request.monitoring_ref matches Some(id) && !stop_exists(data.ntm, id@)),
        r matches Err(e) ==> e is NotFound,
        r matches Ok(sd) ==> {
            &&& sd.EstimatedTimetableDelivery@.len() == 1
            &&& sd.ProducerRef matches Some(p) && p.ProducerRef@ == "RAP_Toscana"@
            &&& sd.ResponseMessageIdentifier matches Some(mi) && mi.ResponseMessageIdentifier@
                == "0001"@
            &&& sd.StopMonitoringDelivery@.len() == 0
            &&& exists|stop_idx: Option<usize>, start: DateTime|
                {
                    &&& dt_in_range(start.0 as int)
                    &&& #[trigger] query_result_ok(
                        *data,
                        updated_timetable.realtime_connections@,
                        filter_of(request, stop_idx, start),
                        request.maximum_stop_visits as int,
                        sd.EstimatedTimetableDelivery@[0].EstimatedJourneyVersionFrame.EstimatedVehicleJourney@,
                    )
                    &&& (request.start_time matches Some(t) ==> start == t)
                    &&& (match request.monitoring_ref {
                        None => stop_idx is None,
                        Some(id) => stop_idx matches Some(si) && si < data.ntm.stop_points@.len()
                            && data.ntm.stop_points@[si as int].id@ == id@,
                    })
                }
        },
{
    let mut request = request;
    match validate_params(&mut request) {
        Ok(()) => {},
        Err(e) => {
            return Err(e);
        },
    }
    let stop_idx: Option<usize> = match &request.monitoring_ref {
        None => None,
        Some(id) => match find_stop_idx(&data.ntm, id) {
            Some(si) => Some(si),
            None => {
                return Err(Error::NotFound);
            },
        },
    };
    let deliveries = create_estimated_timetable(stop_idx, data, updated_timetable, &request);
    let sd = siri_lite::ServiceDelivery {
        ResponseTimestamp: siri_lite::ResponseTimeStampWrapper {
            ResponseTimestamp: now_utc_rfc3339(),
        },
        ProducerRef: Some(
            siri_lite::ProducerRefWrapper { ProducerRef: String::from_str("RAP_Toscana") },
        ),
        Address: None,
        ResponseMessageIdentifier: Some(
            siri_lite::ResponseMessageIdentifierWrapper {
                ResponseMessageIdentifier: String::from_str("0001"),
            },
        ),
        StopMonitoringDelivery: Vec::new(),
        EstimatedTimetableDelivery: deliveries,
    };
    proof {
        let chosen_start = choose|start: DateTime|
            {
                &&& dt_in_range(start.0 as int)
                &&& #[trigger] query_result_ok(
                    *data,
                    updated_timetable.realtime_connections@,
                    filter_of(request, stop_idx, start),
                    request.maximum_stop_visits as int,
                    sd.EstimatedTimetableDelivery@[0].EstimatedJourneyVersionFrame.EstimatedVehicleJourney@,
                )
                &&& (request.start_time matches Some(t) ==> start == t)
            };
        assert(query_result_ok(
            *data,
            updated_timetable.realtime_connections@,
            filter_of(request, stop_idx, chosen_start),
            request.maximum_stop_visits as int,
            sd.EstimatedTimetableDelivery@[0].EstimatedJourneyVersionFrame.EstimatedVehicleJourney@,
        ));
    }
    Ok(sd)
}

/// The scheduled departure time a record reports (records always carry one).
pub open spec fn aimed_departure_secs(v: siri_lite::EstimatedVehicleJourney) -> int {
    v.EstimatedCalls.AimedDepartureTime->Some_0.AimedDepartureTime.0 as int
}

/// Ordering: the query's output lists records in non-decreasing scheduled
/// departure order — the order of the (sorted) schedule index is preserved.
pub proof fn lemma_query_preserves_order(
    data: Dataset,
    overlay: Map<usize, RealTimeConnection>,
    f: QueryFilter,
    cap: int,
    evjs: Seq<siri_lite::EstimatedVehicleJourney>,
)
    requires
        data.wf(),
        query_result_ok(data, overlay, f, cap, evjs),
    ensures
        forall|k1: int, k2: int|
            0 <= k1 <= k2 < evjs.len() ==> aimed_departure_secs(#[trigger] evjs[k1])
                <= aimed_departure_secs(#[trigger] evjs[k2]),
{
    let s = data.timetable.connections@;
    let ks = kept_positions(data, overlay, f);
    lemma_kept_props(data.ntm, overlay, f, s, s.len() as int);
    assert forall|k1: int, k2: int|
        0 <= k1 <= k2 < evjs.len() implies aimed_departure_secs(#[trigger] evjs[k1])
        <= aimed_departure_secs(#[trigger] evjs[k2]) by {
        let p1 = ks[k1];
        let p2 = ks[k2];
        assert(aimed_departure_secs(evjs[k1]) == s[p1].dep_time.0 as int);
        assert(aimed_departure_secs(evjs[k2]) == s[p2].dep_time.0 as int);
        if k1 < k2 {
            assert(p1 < p2);
            assert(conn_le(s[p1], s[p2]));
        }
    }
}

/// Cap respected: the query never returns more records than the requested
/// maximum.
pub proof fn lemma_query_cap_respected(
    data: Dataset,
    overlay: Map<usize, RealTimeConnection>,
    f: QueryFilter,
    cap: int,
    evjs: Seq<siri_lite::EstimatedVehicleJourney>,
)
    requires
        cap >= 0,
        query_result_ok(data, overlay, f, cap, evjs),
    ensures
        evjs.len() <= cap,
{
}

/// Freshness isolation: under `Scheduled` freshness no record carries an
/// expected time, even when an overlay entry exists; under `RealTime`
/// freshness a record whose connection has an overlay entry reports exactly
/// the entry's populated times.
pub proof fn lemma_freshness_isolation(
    data: Dataset,
    overlay: Map<usize, RealTimeConnection>,
    f: QueryFilter,
    cap: int,
    evjs: Seq<siri_lite::EstimatedVehicleJourney>,
)
    requires
        query_result_ok(data, overlay, f, cap, evjs),
    ensures
        f.freshness is Scheduled ==> forall|k: int|
            0 <= k < evjs.len() ==> (#[trigger] evjs[k]).EstimatedCalls.ExpectedArrivalTime is None
                && evjs[k].EstimatedCalls.ExpectedDepartureTime is None,
        f.freshness is RealTime ==> forall|k: int|
            0 <= k < evjs.len() ==> {
                let p = kept_positions(data, overlay, f)[k];
                &&& (overlay.contains_key(p as usize) && overlay[p as usize].arr_time is Some
                    ==> ((#[trigger] evjs[k]).EstimatedCalls.ExpectedArrivalTime matches Some(w)
                    && w.ExpectedArrivalTime == overlay[p as usize].arr_time->Some_0))
                &&& (overlay.contains_key(p as usize) && overlay[p as usize].dep_time is Some
                    ==> (evjs[k].EstimatedCalls.ExpectedDepartureTime matches Some(w)
                    && w.ExpectedDepartureTime == overlay[p as usize].dep_time->Some_0))
            },
{
}

/// Realtime-only filter: when the request asks for real-time data only, every
/// returned record's connection has an overlay entry with at least one
/// populated time.
pub proof fn lemma_realtime_only_filter(
    data: Dataset,
    overlay: Map<usize, RealTimeConnection>,
    f: QueryFilter,
    cap: int,
    evjs: Seq<siri_lite::EstimatedVehicleJourney>,
)
    requires
        f.only_realtime,
        query_result_ok(data, overlay, f, cap, evjs),
    ensures
        forall|k: int|
            0 <= k < evjs.len() ==> has_realtime(
                overlay,
                #[trigger] kept_positions(data, overlay, f)[k],
            ),
{
    let s = data.timetable.connections@;
    lemma_kept_props(data.ntm, overlay, f, s, s.len() as int);
}

/// Window inclusivity: a connection that arrives inside the preview window is
/// kept by the window filter even when it departs after the window's end.
pub proof fn lemma_window_inclusive(c: Connection, start: DateTime, d: Duration)
    requires
        c.arr_time.0 <= start.0 + d.0,
    ensures
        spec_in_interval(c, start, Some(d)),
{
}

} // verus!
