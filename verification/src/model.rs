use vstd::prelude::*;

verus! {

/// A stop, referenced by its dense index in [`NetworkModel::stop_points`].
/// `parent_station` points at the enclosing station, when there is one.
#[derive(Clone, Debug)]
pub struct StopPoint {
    pub id: String,
    pub name: String,
    pub parent_station: Option<usize>,
}

/// A route, carrying the line it belongs to.
#[derive(Clone, Debug)]
pub struct Route {
    pub id: String,
    pub line_id: String,
}

/// An operating company.
#[derive(Clone, Debug)]
pub struct Company {
    pub id: String,
}

/// One scheduled visit of a journey at a stop.  Times are seconds after
/// midnight of the journey's service date.
#[derive(Clone, Copy, Debug)]
pub struct StopTime {
    pub stop_point_idx: usize,
    pub sequence: u16,
    pub arrival: u32,
    pub departure: u32,
}

/// A scheduled trip: its route and operator (when known) and its ordered
/// stop visits.
#[derive(Clone, Debug)]
pub struct VehicleJourney {
    pub route_idx: Option<usize>,
    pub company_idx: Option<usize>,
    pub stop_times: Vec<StopTime>,
}

/// The static transit network, read-only after load: every cross reference is
/// a dense index into one of the vectors, so the query engine's lookups are
/// plain, checkable indexing.
#[derive(Clone, Debug)]
pub struct NetworkModel {
    pub stop_points: Vec<StopPoint>,
    pub routes: Vec<Route>,
    pub companies: Vec<Company>,
    pub vehicle_journeys: Vec<VehicleJourney>,
}

impl VehicleJourney {
    /// Every index the journey holds points inside the model's vectors.
    pub open spec fn wf(self, n_stops: int, n_routes: int, n_companies: int) -> bool {
        &&& (self.route_idx matches Some(r) ==> r < n_routes)
        &&& (self.company_idx matches Some(c) ==> c < n_companies)
        &&& forall|k: int|
            0 <= k < self.stop_times@.len() ==> self.stop_times@[k].stop_point_idx < n_stops
    }
}

impl NetworkModel {
    /// Every cross reference in the model points inside the model.
    pub open spec fn wf(self) -> bool {
        &&& forall|s: int|
            0 <= s < self.stop_points@.len() ==> (#[trigger] self.stop_points@[s].parent_station
                matches Some(p) ==> p < self.stop_points@.len())
        &&& forall|j: int|
            0 <= j < self.vehicle_journeys@.len() ==> (#[trigger] self.vehicle_journeys@[j]).wf(
                self.stop_points@.len() as int,
                self.routes@.len() as int,
                self.companies@.len() as int,
            )
    }

    /// The journey visits the stop: one of its stop visits is the stop
    /// itself, or a stop whose parent station is the stop.
    pub open spec fn spec_visits(self, trip: VehicleJourney, stop_idx: int) -> bool {
        exists|k: int|
            0 <= k < trip.stop_times@.len() && {
                let visited = (#[trigger] trip.stop_times@[k]).stop_point_idx as int;
                ||| visited == stop_idx
                ||| self.stop_points@[visited].parent_station matches Some(p) && p == stop_idx
            }
    }

    /// The journey at index `j` visits the stop and has a route, so it
    /// contributes that route's id to the stop's set of lines.
    pub open spec fn trip_contributes(self, j: int, stop_idx: int) -> bool {
        &&& self.spec_visits(self.vehicle_journeys@[j], stop_idx)
        &&& self.vehicle_journeys@[j].route_idx is Some
    }

    /// The id of the route of the journey at index `j` (meaningful only when
    /// the journey has a route).
    pub open spec fn trip_route_id(self, j: int) -> Seq<char> {
        self.routes@[self.vehicle_journeys@[j].route_idx->Some_0 as int].id@
    }

    /// Some journey among the first `j` contributes the id `l` to the stop's
    /// set of lines.
    pub open spec fn line_in_prefix(self, stop_idx: int, j: int, l: Seq<char>) -> bool {
        exists|i: int|
            0 <= i < j && #[trigger] self.trip_contributes(i, stop_idx) && self.trip_route_id(i)
                == l
    }

    /// The ids of the routes whose journeys visit the stop.
    pub open spec fn stop_line_ids(self, stop_idx: int) -> Set<Seq<char>> {
        Set::new(
            |l: Seq<char>|
                exists|j: int|
                    0 <= j < self.vehicle_journeys@.len() && #[trigger] self.trip_contributes(
                        j,
                        stop_idx,
                    ) && self.trip_route_id(j) == l,
        )
    }
}

/// Whether the journey serves the stop, counting visits to child stops of a
/// station as visits to the station.
pub fn trip_has_stop(model: &NetworkModel, trip: &VehicleJourney, stop_idx: usize) -> (r: bool)
    requires
        forall|k: int|
            0 <= k < trip.stop_times@.len() ==> (#[trigger] trip.stop_times@[k]).stop_point_idx
                < model.stop_points@.len(),
    ensures
        r == model.spec_visits(*trip, stop_idx as int),
{
    let n = trip.stop_times.len();
    for k in 0..n
        invariant
            n == trip.stop_times@.len(),
            forall|i: int|
                0 <= i < trip.stop_times@.len() ==> (#[trigger] trip.stop_times@[i]).stop_point_idx
                    < model.stop_points@.len(),
            forall|i: int|
                0 <= i < k ==> !({
                    let visited = (#[trigger] trip.stop_times@[i]).stop_point_idx as int;
                    ||| visited == stop_idx as int
                    ||| model.stop_points@[visited].parent_station matches Some(p) && p
                        == stop_idx as int
                }),
    {
        let visited = trip.stop_times[k].stop_point_idx;
        if visited == stop_idx {
            return true;
        }
        match model.stop_points[visited].parent_station {
            Some(p) => {
                if p == stop_idx {
                    return true;
                }
            },
            None => {},
        }
    }
    false
}

/// Whether some element of `v` has the same characters as `s`.
pub fn contains_string(v: &Vec<String>, s: &String) -> (r: bool)
    ensures
        r == exists|k: int| 0 <= k < v@.len() && (#[trigger] v@[k])@ == s@,
{
    let n = v.len();
    for k in 0..n
        invariant
            n == v@.len(),
            forall|i: int| 0 <= i < k ==> (#[trigger] v@[i])@ != s@,
    {
        let elem: &String = &v[k];
        if elem.eq(s) {
            return true;
        }
    }
    false
}

/// The ids of all routes serving the stop, each listed once.
///
/// The result is exactly [`NetworkModel::stop_line_ids`]: a route id is in
/// the result if and only if some journey of that route visits the stop, and
/// no id appears twice.
pub fn lines_of_stop(model: &NetworkModel, stop_idx: usize) -> (r: Vec<String>)
    requires
        model.wf(),
        stop_idx < model.stop_points@.len(),
    ensures
        forall|k: int|
            0 <= k < r@.len() ==> model.stop_line_ids(stop_idx as int).contains(
                (#[trigger] r@[k])@,
            ),
        forall|i: int|
            0 <= i < model.vehicle_journeys@.len() && #[trigger] model.trip_contributes(
                i,
                stop_idx as int,
            ) ==> exists|k: int| 0 <= k < r@.len() && (#[trigger] r@[k])@ == model.trip_route_id(i),
        forall|k1: int, k2: int|
            0 <= k1 < k2 < r@.len() ==> (#[trigger] r@[k1])@ != (#[trigger] r@[k2])@,
{
    let mut r: Vec<String> = Vec::new();
    let n = model.vehicle_journeys.len();
    let mut j: usize = 0;
    while j < n
        invariant
            model.wf(),
            stop_idx < model.stop_points@.len(),
            n == model.vehicle_journeys@.len(),
            j <= n,
            forall|k: int|
                0 <= k < r@.len() ==> model.line_in_prefix(
                    stop_idx as int,
                    j as int,
                    (#[trigger] r@[k])@,
                ),
            forall|i: int|
                0 <= i < j && #[trigger] model.trip_contributes(i, stop_idx as int) ==> exists|k: int|
                    0 <= k < r@.len() && (#[trigger] r@[k])@ == model.trip_route_id(i),
            forall|k1: int, k2: int|
                0 <= k1 < k2 < r@.len() ==> (#[trigger] r@[k1])@ != (#[trigger] r@[k2])@,
        decreases n - j,
    {
        let trip = &model.vehicle_journeys[j];
        if trip_has_stop(model, trip, stop_idx) {
            match trip.route_idx {
                Some(ri) => {
                    let id = model.routes[ri].id.clone();
                    assert(model.trip_contributes(j as int, stop_idx as int));
                    assert(id@ == model.trip_route_id(j as int));
                    if !contains_string(&r, &id) {
                        let ghost old_r = r@;
                        r.push(id);
                        proof {
                            assert forall|k: int| 0 <= k < r@.len() implies model.line_in_prefix(
                                stop_idx as int,
                                j + 1,
                                (#[trigger] r@[k])@,
                            ) by {
                                if k < old_r.len() {
                                    assert(r@[k] == old_r[k]);
                                    assert(model.line_in_prefix(
                                        stop_idx as int,
                                        j as int,
                                        old_r[k]@,
                                    ));
                                } else {
                                    assert((r@[k])@ == model.trip_route_id(j as int));
                                }
                            }
                            assert forall|i: int|
                                0 <= i < j + 1 && #[trigger] model.trip_contributes(
                                    i,
                                    stop_idx as int,
                                ) implies exists|k: int|
                                0 <= k < r@.len() && (#[trigger] r@[k])@ == model.trip_route_id(
                                    i,
                                ) by {
                                if i < j {
                                    let k0 = choose|k: int|
                                        0 <= k < old_r.len() && (#[trigger] old_r[k])@
                                            == model.trip_route_id(i);
                                    assert(r@[k0] == old_r[k0]);
                                    assert(0 <= k0 < r@.len() && (r@[k0])@ == model.trip_route_id(
                                        i,
                                    ));
                                } else {
                                    let kl = r@.len() - 1;
                                    assert(0 <= kl < r@.len() && (r@[kl])@ == model.trip_route_id(
                                        i,
                                    ));
                                }
                            }
                        }
                    }
                },
                None => {},
            }
        }
        j += 1;
    }
    r
}

} // verus!
