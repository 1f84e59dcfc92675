// End-to-end scenarios for the query engine, on a small three-connection
// schedule.

use siri_timetable::datasets::{Dataset, DatedVehicleJourney, UpdatedTimetable};
use siri_timetable::merge::{merge_updates, TripUpdate};
use siri_timetable::model::{Company, NetworkModel, Route, StopPoint, StopTime, VehicleJourney};
use siri_timetable::routes::estimated_timetable::{
    estimated_timetable, DataFreshness, Params,
};
use siri_timetable::siri_lite::{DateTime, EstimatedVehicleJourney, ServiceDelivery};
use siri_timetable::Error;

// Seconds of day for the scenario times.
const T_09_00: i64 = 32400;
const T_10_00: i64 = 36000;
const T_10_05: i64 = 36300;
const T_10_06: i64 = 36360;
const T_10_10: i64 = 36600;

/// A dataset with three connections, in departure order:
///   C0 dep=10:00 stop=A line=L1, C1 dep=10:05 stop=B line=L1,
///   C2 dep=10:10 stop=A line=L2.
/// Stop A is a child of station ST.
fn fixture() -> Dataset {
    let model = NetworkModel {
        stop_points: vec![
            StopPoint { id: "A".to_string(), name: "Stop A".to_string(), parent_station: Some(2) },
            StopPoint { id: "B".to_string(), name: "Stop B".to_string(), parent_station: None },
            StopPoint { id: "ST".to_string(), name: "Station".to_string(), parent_station: None },
        ],
        routes: vec![
            Route { id: "L1".to_string(), line_id: "L1".to_string() },
            Route { id: "L2".to_string(), line_id: "L2".to_string() },
        ],
        companies: vec![Company { id: "OP1".to_string() }],
        vehicle_journeys: vec![
            VehicleJourney {
                route_idx: Some(0),
                company_idx: Some(0),
                stop_times: vec![StopTime {
                    stop_point_idx: 0,
                    sequence: 1,
                    arrival: (T_10_00 - 60) as u32,
                    departure: T_10_00 as u32,
                }],
            },
            VehicleJourney {
                route_idx: Some(0),
                company_idx: Some(0),
                stop_times: vec![StopTime {
                    stop_point_idx: 1,
                    sequence: 1,
                    arrival: (T_10_05 - 60) as u32,
                    departure: T_10_05 as u32,
                }],
            },
            VehicleJourney {
                route_idx: Some(1),
                company_idx: None,
                stop_times: vec![StopTime {
                    stop_point_idx: 0,
                    sequence: 1,
                    arrival: (T_10_10 - 60) as u32,
                    departure: T_10_10 as u32,
                }],
            },
        ],
    };
    let dated_vjs = vec![
        DatedVehicleJourney { vj_idx: 0, date: 0 },
        DatedVehicleJourney { vj_idx: 1, date: 0 },
        DatedVehicleJourney { vj_idx: 2, date: 0 },
    ];
    Dataset::new(model, &dated_vjs, "Europe/Rome".to_string(), DateTime(0))
}

/// The overlay of the scenarios: position 1 (C1) has an estimated arrival of
/// 10:06.
fn fixture_overlay(data: &Dataset) -> UpdatedTimetable {
    let updates = vec![TripUpdate {
        vj_idx: 1,
        date: 0,
        stop_idx: 1,
        arr_time: Some(DateTime(T_10_06)),
        dep_time: None,
        update_time: Some(DateTime(T_10_06)),
    }];
    merge_updates(&data.timetable, &updates, DateTime(T_10_06))
}

fn base_params() -> Params {
    Params {
        _requestor_ref: None,
        monitoring_ref: None,
        only_realtime: false,
        operator_ref: None,
        line_ref: None,
        _destination_ref: None,
        start_time: Some(DateTime(T_09_00)),
        preview_interval: None,
        data_freshness: DataFreshness::RealTime,
        maximum_stop_visits: 10,
    }
}

fn journeys(sd: &ServiceDelivery) -> &Vec<EstimatedVehicleJourney> {
    assert_eq!(sd.EstimatedTimetableDelivery.len(), 1);
    &sd.EstimatedTimetableDelivery[0]
        .EstimatedJourneyVersionFrame
        .EstimatedVehicleJourney
}

fn aimed_departure(v: &EstimatedVehicleJourney) -> i64 {
    v.EstimatedCalls
        .AimedDepartureTime
        .as_ref()
        .expect("records always carry an aimed departure")
        .AimedDepartureTime
        .0
}

#[test]
fn scenario_stop_a_keeps_order() {
    let data = fixture();
    let overlay = fixture_overlay(&data);
    let mut params = base_params();
    params.monitoring_ref = Some("A".to_string());
    let sd = estimated_timetable(params, &data, &overlay).expect("stop A exists");
    let evjs = journeys(&sd);
    assert_eq!(evjs.len(), 2);
    // C0 then C2, in scheduled-departure order.
    assert_eq!(aimed_departure(&evjs[0]), T_10_00);
    assert_eq!(aimed_departure(&evjs[1]), T_10_10);
    assert_eq!(
        evjs[0].EstimatedCalls.StopPointRef.StopPointRef,
        "IT:ITC1:ScheduledStopPoint:busATS:A"
    );
    assert_eq!(evjs[0].LineRef.LineRef, "IT:ITC1:Line:busATS:L1");
    assert_eq!(evjs[1].LineRef.LineRef, "IT:ITC1:Line:busATS:L2");
    // realtime_only = false: C0 and C2 have no overlay entry and are still
    // returned.
    assert!(evjs[0].EstimatedCalls.ExpectedArrivalTime.is_none());
    assert!(evjs[1].EstimatedCalls.ExpectedArrivalTime.is_none());
}

#[test]
fn scenario_stop_b_realtime_only() {
    let data = fixture();
    let overlay = fixture_overlay(&data);
    let mut params = base_params();
    params.monitoring_ref = Some("B".to_string());
    params.only_realtime = true;
    let sd = estimated_timetable(params, &data, &overlay).expect("stop B exists");
    let evjs = journeys(&sd);
    assert_eq!(evjs.len(), 1);
    assert_eq!(aimed_departure(&evjs[0]), T_10_05);
    let expected_arrival = evjs[0]
        .EstimatedCalls
        .ExpectedArrivalTime
        .as_ref()
        .expect("C1 has real-time data");
    assert_eq!(expected_arrival.ExpectedArrivalTime, DateTime(T_10_06));
}

#[test]
fn scenario_stop_b_realtime_only_empty_overlay() {
    let data = fixture();
    let overlay = UpdatedTimetable::new();
    let mut params = base_params();
    params.monitoring_ref = Some("B".to_string());
    params.only_realtime = true;
    let sd = estimated_timetable(params, &data, &overlay).expect("stop B exists");
    assert_eq!(journeys(&sd).len(), 0);
}

#[test]
fn scenario_unknown_stop_is_not_found() {
    let data = fixture();
    let overlay = fixture_overlay(&data);
    let mut params = base_params();
    params.monitoring_ref = Some("ZZZ".to_string());
    let r = estimated_timetable(params, &data, &overlay);
    assert!(matches!(r, Err(Error::NotFound)));
}

#[test]
fn empty_filters_match_everything() {
    let data = fixture();
    let overlay = fixture_overlay(&data);
    let sd = estimated_timetable(base_params(), &data, &overlay).expect("no stop filter");
    let evjs = journeys(&sd);
    assert_eq!(evjs.len(), 3);
    // The output preserves schedule order.
    assert!(aimed_departure(&evjs[0]) <= aimed_departure(&evjs[1]));
    assert!(aimed_departure(&evjs[1]) <= aimed_departure(&evjs[2]));
}

#[test]
fn cap_truncates_the_result() {
    let data = fixture();
    let overlay = fixture_overlay(&data);
    let mut params = base_params();
    params.maximum_stop_visits = 1;
    let sd = estimated_timetable(params, &data, &overlay).expect("query succeeds");
    let evjs = journeys(&sd);
    assert_eq!(evjs.len(), 1);
    assert_eq!(aimed_departure(&evjs[0]), T_10_00);
}

#[test]
fn cap_zero_yields_empty_result() {
    let data = fixture();
    let overlay = fixture_overlay(&data);
    let mut params = base_params();
    params.maximum_stop_visits = 0;
    let sd = estimated_timetable(params, &data, &overlay).expect("query succeeds");
    assert_eq!(journeys(&sd).len(), 0);
}

#[test]
fn window_includes_arrival_inside_departure_outside() {
    let data = fixture();
    let overlay = fixture_overlay(&data);
    let mut params = base_params();
    params.monitoring_ref = Some("A".to_string());
    params.start_time = Some(DateTime(T_10_00));
    // start + d = 10:09: C2 arrives 10:09 (inside) but departs 10:10
    // (outside) and must still be included.
    params.preview_interval =
        Some(siri_timetable::utils::Duration::new(T_10_10 - 60 - T_10_00).unwrap());
    let sd = estimated_timetable(params, &data, &overlay).expect("query succeeds");
    let evjs = journeys(&sd);
    assert_eq!(evjs.len(), 2);
    assert_eq!(aimed_departure(&evjs[1]), T_10_10);
}

#[test]
fn window_excludes_connection_wholly_after() {
    let data = fixture();
    let overlay = fixture_overlay(&data);
    let mut params = base_params();
    params.monitoring_ref = Some("A".to_string());
    params.start_time = Some(DateTime(T_10_00));
    // start + d = 10:05: C2 (arr 10:09, dep 10:10) is wholly outside.
    params.preview_interval = Some(siri_timetable::utils::Duration::new(300).unwrap());
    let sd = estimated_timetable(params, &data, &overlay).expect("query succeeds");
    let evjs = journeys(&sd);
    assert_eq!(evjs.len(), 1);
    assert_eq!(aimed_departure(&evjs[0]), T_10_00);
}

#[test]
fn scheduled_freshness_hides_realtime() {
    let data = fixture();
    let overlay = fixture_overlay(&data);
    let mut params = base_params();
    params.monitoring_ref = Some("B".to_string());
    params.data_freshness = DataFreshness::Scheduled;
    let sd = estimated_timetable(params, &data, &overlay).expect("stop B exists");
    let evjs = journeys(&sd);
    assert_eq!(evjs.len(), 1);
    // The overlay entry for C1 exists, but a Scheduled query never sees it.
    assert!(evjs[0].EstimatedCalls.ExpectedArrivalTime.is_none());
    assert!(evjs[0].EstimatedCalls.ExpectedDepartureTime.is_none());
}

#[test]
fn line_filter_selects_one_line() {
    let data = fixture();
    let overlay = fixture_overlay(&data);
    let mut params = base_params();
    params.line_ref = Some("L2".to_string());
    let sd = estimated_timetable(params, &data, &overlay).expect("query succeeds");
    let evjs = journeys(&sd);
    assert_eq!(evjs.len(), 1);
    assert_eq!(aimed_departure(&evjs[0]), T_10_10);
}

#[test]
fn operator_filter_selects_operated_journeys() {
    let data = fixture();
    let overlay = fixture_overlay(&data);
    let mut params = base_params();
    params.operator_ref = Some("OP1".to_string());
    let sd = estimated_timetable(params, &data, &overlay).expect("query succeeds");
    // C2's journey has no operator and is filtered out.
    assert_eq!(journeys(&sd).len(), 2);
}

#[test]
fn operator_filter_unknown_operator_is_empty_not_error() {
    let data = fixture();
    let overlay = fixture_overlay(&data);
    let mut params = base_params();
    params.operator_ref = Some("NOBODY".to_string());
    let sd = estimated_timetable(params, &data, &overlay).expect("empty result is a success");
    assert_eq!(journeys(&sd).len(), 0);
}

#[test]
fn start_time_skips_earlier_departures() {
    let data = fixture();
    let overlay = fixture_overlay(&data);
    let mut params = base_params();
    params.start_time = Some(DateTime(T_10_05));
    let sd = estimated_timetable(params, &data, &overlay).expect("query succeeds");
    let evjs = journeys(&sd);
    // C0 departs 10:00, before the start time.
    assert_eq!(evjs.len(), 2);
    assert_eq!(aimed_departure(&evjs[0]), T_10_05);
}

#[test]
fn projector_pins_envelope_fields() {
    let data = fixture();
    let overlay = fixture_overlay(&data);
    let mut params = base_params();
    params.monitoring_ref = Some("B".to_string());
    let sd = estimated_timetable(params, &data, &overlay).expect("stop B exists");
    assert_eq!(sd.ProducerRef.as_ref().unwrap().ProducerRef, "RAP_Toscana");
    assert_eq!(
        sd.ResponseMessageIdentifier.as_ref().unwrap().ResponseMessageIdentifier,
        "0001"
    );
    let delivery = &sd.EstimatedTimetableDelivery[0];
    assert_eq!(delivery.SubscriberRef.SubscriberRef, "NAP");
    assert_eq!(delivery.SubscriptionRef.SubscriptionRef, "0001");
    let evj = &journeys(&sd)[0];
    assert_eq!(evj.DirectionRef.as_ref().unwrap().DirectionRef, "inbound");
    assert_eq!(
        evj.OperatorRef.OperatorRef.as_ref().unwrap().OperatorRef,
        "IT::Operator:02194050486:OP1"
    );
    assert_eq!(
        evj.FramedVehicleJourneyRef
            .DatedVehicleJourneyRef
            .as_ref()
            .unwrap()
            .DatedVehicleJourneyRef,
        "x"
    );
    assert_eq!(
        evj.FramedVehicleJourneyRef.DataFrameRef.as_ref().unwrap().DataFrameRef,
        "1970-01-01"
    );
    assert_eq!(evj.EstimatedCalls.StopPointName.StopPointName, "Stop B");
    assert_eq!(evj.EstimatedCalls.Order.Order, 1);
}
