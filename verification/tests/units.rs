// Unit tests for the time rendering, the schedule index, the merge process,
// the overlay store, and the per-stop line cache.

use siri_timetable::context::Context;
use siri_timetable::datasets::{
    Dataset, DatedVehicleJourney, GtfsRT, RealTimeConnection, UpdatedTimetable,
};
use siri_timetable::merge::{merge_updates, TripUpdate};
use siri_timetable::model::{
    lines_of_stop, Company, NetworkModel, Route, StopPoint, StopTime, VehicleJourney,
};
use siri_timetable::routes::estimated_timetable::{
    default_only_realtime, default_stop_visits, update_time_of, DataFreshness,
};
use siri_timetable::siri_lite::{CommonDelivery, DateTime};
use siri_timetable::utils::Duration;
use siri_timetable::Error;

fn small_model() -> NetworkModel {
    NetworkModel {
        stop_points: vec![
            StopPoint { id: "A".to_string(), name: "Stop A".to_string(), parent_station: Some(2) },
            StopPoint { id: "B".to_string(), name: "Stop B".to_string(), parent_station: None },
            StopPoint { id: "ST".to_string(), name: "Station".to_string(), parent_station: None },
        ],
        routes: vec![
            Route { id: "L1".to_string(), line_id: "L1".to_string() },
            Route { id: "L2".to_string(), line_id: "L2".to_string() },
        ],
        companies: vec![Company { id: "OP1".to_string() }],
        vehicle_journeys: vec![
            VehicleJourney {
                route_idx: Some(0),
                company_idx: Some(0),
                stop_times: vec![StopTime {
                    stop_point_idx: 0,
                    sequence: 1,
                    arrival: 35940,
                    departure: 36000,
                }],
            },
            VehicleJourney {
                route_idx: Some(0),
                company_idx: Some(0),
                stop_times: vec![StopTime {
                    stop_point_idx: 1,
                    sequence: 1,
                    arrival: 36240,
                    departure: 36300,
                }],
            },
            VehicleJourney {
                route_idx: Some(1),
                company_idx: None,
                stop_times: vec![StopTime {
                    stop_point_idx: 0,
                    sequence: 1,
                    arrival: 36540,
                    departure: 36600,
                }],
            },
        ],
    }
}

#[test]
fn datetime_renders_iso_shape() {
    // 2023-05-01T10:00:00 is 19478 days plus 10 hours after the epoch.
    let t = DateTime(19478 * 86400 + 36000);
    assert_eq!(t.to_string(), "2023-05-01T10:00:00");
    assert_eq!(t.date_string(), "2023-05-01");
    let epoch = DateTime(0);
    assert_eq!(epoch.to_string(), "1970-01-01T00:00:00");
    assert_eq!(epoch.date_string(), "1970-01-01");
}

#[test]
fn duration_accepts_only_safe_nonnegative_seconds() {
    assert_eq!(Duration::new(600).unwrap().0, 600);
    assert!(Duration::new(-1).is_none());
    assert!(Duration::new(i64::MAX).is_none());
}

#[test]
fn duration_parses_iso_shapes() {
    assert_eq!(Duration::parse("PT10H").unwrap().0, 36000);
    assert_eq!(Duration::parse("P1DT2H3M4S").unwrap().0, 93784);
    assert_eq!(Duration::parse("P2D").unwrap().0, 172800);
    assert_eq!(Duration::parse("PT90M").unwrap().0, 5400);
    assert_eq!(Duration::parse("PT0S").unwrap().0, 0);
}

#[test]
fn duration_rejects_malformed_strings() {
    assert!(Duration::parse("").is_none());
    assert!(Duration::parse("P").is_none());
    assert!(Duration::parse("PT").is_none());
    assert!(Duration::parse("10H").is_none());
    assert!(Duration::parse("PTH").is_none());
    // An hour component belongs after the `T`.
    assert!(Duration::parse("P1H").is_none());
    // Components must come in order, each at most once.
    assert!(Duration::parse("PT1S2M").is_none());
    assert!(Duration::parse("PT1H2H").is_none());
    assert!(Duration::parse("P1D2D").is_none());
    // A trailing digit run without its unit letter is incomplete.
    assert!(Duration::parse("PT5").is_none());
    // Out-of-range values are rejected, not wrapped.
    assert!(Duration::parse("PT99999999999999999999S").is_none());
}

#[test]
fn schedule_index_sorts_by_departure() {
    let model = small_model();
    // Deliberately out of departure order.
    let dated_vjs = vec![
        DatedVehicleJourney { vj_idx: 2, date: 0 },
        DatedVehicleJourney { vj_idx: 0, date: 0 },
        DatedVehicleJourney { vj_idx: 1, date: 0 },
    ];
    let data = Dataset::new(model, &dated_vjs, "Europe/Rome".to_string(), DateTime(0));
    let deps: Vec<i64> =
        data.timetable.connections.iter().map(|c| c.dep_time.0).collect();
    assert_eq!(deps, vec![36000, 36300, 36600]);
    assert_eq!(data.timetable.connections.len(), 3);
}

#[test]
fn schedule_index_spans_service_dates() {
    let model = small_model();
    // The same journey on two service dates: the later date sorts last.
    let dated_vjs = vec![
        DatedVehicleJourney { vj_idx: 0, date: 1 },
        DatedVehicleJourney { vj_idx: 0, date: 0 },
    ];
    let data = Dataset::new(model, &dated_vjs, "Europe/Rome".to_string(), DateTime(0));
    let deps: Vec<i64> =
        data.timetable.connections.iter().map(|c| c.dep_time.0).collect();
    assert_eq!(deps, vec![36000, 86400 + 36000]);
}

#[test]
fn merge_places_update_at_connection_position() {
    let model = small_model();
    let dated_vjs = vec![
        DatedVehicleJourney { vj_idx: 0, date: 0 },
        DatedVehicleJourney { vj_idx: 1, date: 0 },
    ];
    let data = Dataset::new(model, &dated_vjs, "Europe/Rome".to_string(), DateTime(0));
    let updates = vec![TripUpdate {
        vj_idx: 1,
        date: 0,
        stop_idx: 1,
        arr_time: Some(DateTime(36360)),
        dep_time: None,
        update_time: None,
    }];
    let overlay = merge_updates(&data.timetable, &updates, DateTime(40000));
    let entry = overlay.realtime_connections.get(&1).expect("C1 is at position 1");
    assert_eq!(entry.arr_time, Some(DateTime(36360)));
    assert_eq!(entry.dep_time, None);
    // No update time in the feed: the fetch time is used.
    assert_eq!(entry.update_time, DateTime(40000));
    assert!(overlay.realtime_connections.get(&0).is_none());
}

#[test]
fn merge_drops_unknown_references_individually() {
    let model = small_model();
    let dated_vjs = vec![
        DatedVehicleJourney { vj_idx: 0, date: 0 },
        DatedVehicleJourney { vj_idx: 1, date: 0 },
    ];
    let data = Dataset::new(model, &dated_vjs, "Europe/Rome".to_string(), DateTime(0));
    let updates = vec![
        // Unknown journey: dropped.
        TripUpdate {
            vj_idx: 9,
            date: 0,
            stop_idx: 0,
            arr_time: Some(DateTime(1)),
            dep_time: None,
            update_time: None,
        },
        // Known journey on an unknown service date: dropped.
        TripUpdate {
            vj_idx: 0,
            date: 7,
            stop_idx: 0,
            arr_time: Some(DateTime(2)),
            dep_time: None,
            update_time: None,
        },
        // Well-targeted: kept.
        TripUpdate {
            vj_idx: 0,
            date: 0,
            stop_idx: 0,
            arr_time: None,
            dep_time: Some(DateTime(36060)),
            update_time: Some(DateTime(36000)),
        },
    ];
    let overlay = merge_updates(&data.timetable, &updates, DateTime(40000));
    assert_eq!(overlay.realtime_connections.len(), 1);
    let entry = overlay.realtime_connections.get(&0).expect("C0 is at position 0");
    assert_eq!(entry.dep_time, Some(DateTime(36060)));
    assert_eq!(entry.update_time, DateTime(36000));
}

#[test]
fn merge_later_update_wins() {
    let model = small_model();
    let dated_vjs = vec![DatedVehicleJourney { vj_idx: 0, date: 0 }];
    let data = Dataset::new(model, &dated_vjs, "Europe/Rome".to_string(), DateTime(0));
    let mk = |arr: i64| TripUpdate {
        vj_idx: 0,
        date: 0,
        stop_idx: 0,
        arr_time: Some(DateTime(arr)),
        dep_time: None,
        update_time: None,
    };
    let overlay = merge_updates(&data.timetable, &vec![mk(36030), mk(36090)], DateTime(40000));
    let entry = overlay.realtime_connections.get(&0).unwrap();
    assert_eq!(entry.arr_time, Some(DateTime(36090)));
}

#[test]
fn store_swaps_complete_pairs() {
    let context = Context::new(small_model(), "http://example.invalid/feed".to_string(), 3);
    // No merge yet: the store is empty and queries degrade to base schedule.
    assert!(context.gtfs_rt.current().is_none());

    let first = UpdatedTimetable::new();
    context
        .gtfs_rt
        .replace(GtfsRT { datetime: DateTime(100), data: vec![1, 2, 3] }, first);
    let pair = context.gtfs_rt.current().expect("a pair was stored");
    assert_eq!(pair.snapshot.datetime, DateTime(100));
    assert_eq!(pair.snapshot.data, vec![1, 2, 3]);
    assert!(pair.overlay.realtime_connections.is_empty());

    // A reader holding the first pair keeps a complete, consistent value
    // while a writer replaces the store's content.
    let second = UpdatedTimetable::new();
    context
        .gtfs_rt
        .replace(GtfsRT { datetime: DateTime(200), data: vec![9] }, second);
    assert_eq!(pair.snapshot.datetime, DateTime(100));
    assert_eq!(pair.snapshot.data, vec![1, 2, 3]);
    let after = context.gtfs_rt.current().expect("the new pair is visible");
    assert_eq!(after.snapshot.datetime, DateTime(200));
    assert_eq!(after.snapshot.data, vec![9]);
}

#[test]
fn lines_of_stop_lists_each_route_once() {
    let model = small_model();
    let mut lines_a = lines_of_stop(&model, 0);
    lines_a.sort();
    assert_eq!(lines_a, vec!["L1".to_string(), "L2".to_string()]);
    let lines_b = lines_of_stop(&model, 1);
    assert_eq!(lines_b, vec!["L1".to_string()]);
}

#[test]
fn lines_of_stop_counts_child_stops_for_the_station() {
    let model = small_model();
    // Stop A's parent is the station: journeys visiting A serve the station.
    let mut lines_st = lines_of_stop(&model, 2);
    lines_st.sort();
    assert_eq!(lines_st, vec!["L1".to_string(), "L2".to_string()]);
}

#[test]
fn context_caches_lines_per_stop() {
    let context = Context::new(small_model(), "http://example.invalid/feed".to_string(), 0);
    assert_eq!(context.lines_of_stops.len(), 3);
    let mut lines_a = context.lines_of_stops[0].clone();
    lines_a.sort();
    assert_eq!(lines_a, vec!["L1".to_string(), "L2".to_string()]);
    assert_eq!(context.lines_of_stops[1], vec!["L1".to_string()]);
}

#[test]
fn update_time_falls_back_to_load_time() {
    let rtc = RealTimeConnection {
        update_time: DateTime(777),
        arr_time: None,
        dep_time: None,
    };
    assert_eq!(update_time_of(Some(&rtc), DateTime(5)), DateTime(777));
    assert_eq!(update_time_of(None, DateTime(5)), DateTime(5));
}

#[test]
fn defaults_match_the_documented_policy() {
    assert_eq!(default_stop_visits(), u64::MAX);
    assert!(default_only_realtime());
    assert!(matches!(DataFreshness::default(), DataFreshness::RealTime));
    let d = CommonDelivery::default();
    assert!(d.request_message_ref.is_none());
}

#[test]
fn error_labels_name_each_variant() {
    assert_eq!(Error::NotFound.label(), "not found");
    assert_eq!(Error::FeedFetchFailed.label(), "feed fetch failed");
    assert_eq!(Error::FeedParseFailed.label(), "feed parse failed");
}
