use vstd::prelude::*;

use crate::clock::now_utc_rfc3339;

verus! {

/// A timezone-naive datetime, stored as whole seconds since
/// 1970-01-01T00:00:00.  Schedule times and real-time estimates are all
/// values of this type, so comparing and shifting them is plain integer
/// arithmetic.
#[derive(Clone, Copy, Debug, PartialEq, Eq, Structural)]
pub struct DateTime(pub i64);

/// What `DateTime::to_string` returns for a given seconds value: the
/// `YYYY-MM-DDTHH:MM:SS` rendering computed by chrono.  The result depends on
/// the seconds value alone.
pub uninterp spec fn iso_datetime_of(secs: int) -> Seq<char>;

/// What `DateTime::date_string` returns for a given seconds value: the
/// `YYYY-MM-DD` rendering of the value's calendar date, computed by chrono.
/// The result depends on the seconds value alone.
pub uninterp spec fn iso_date_of(secs: int) -> Seq<char>;

impl DateTime {
    /// Relies on chrono's `format("%Y-%m-%dT%H:%M:%S")` over
    /// `DateTime::from_timestamp`: renders the datetime in the SIRI wire
    /// shape.  Out-of-range seconds values (beyond chrono's representable
    /// dates) render as the empty string.
    #[verifier::external_body]
    pub fn to_string(&self) -> (r: String)
        ensures
            r@ == iso_datetime_of(self.0 as int),
    {
        match chrono::DateTime::from_timestamp(self.0, 0) {
            Some(t) => t.naive_utc().format("%Y-%m-%dT%H:%M:%S").to_string(),
            None => String::new(),
        }
    }

    /// Relies on chrono's `format("%Y-%m-%d")` over
    /// `DateTime::from_timestamp`: renders the calendar date of the
    /// datetime.  Out-of-range seconds values render as the empty string.
    #[verifier::external_body]
    pub fn date_string(&self) -> (r: String)
        ensures
            r@ == iso_date_of(self.0 as int),
    {
        match chrono::DateTime::from_timestamp(self.0, 0) {
            Some(t) => t.naive_utc().date().format("%Y-%m-%d").to_string(),
            None => String::new(),
        }
    }
}

#[derive(Clone, Copy, Debug, PartialEq, Eq, Structural)]
pub enum ArrivalStatus {
    OnTime,
    Early,
    Delayed,
    Cancelled,
    Missed,
    Arrived,
    NotExpected,
    NoReport,
}

#[derive(Clone, Debug, PartialEq)]
pub struct MonitoredCall {
    pub Order: OrderWrapper,
    pub StopPointName: StopPointNameWrapper,
    pub VehicleAtStop: Option<VehicleAtStopWrapper>,
    pub DestinationDisplay: Option<DestinationDisplayWrapper>,
    pub AimedArrivalTime: Option<AimedArrivalTimeWrapper>,
    pub AimedDepartureTime: Option<AimedDepartureTimeWrapper>,
    pub ExpectedArrivalTime: Option<ExpectedArrivalTimeWrapper>,
    pub ExpectedDepartureTime: Option<ExpectedDepartureTimeWrapper>,
    pub ArrivalStatus: Option<ArrivalStatusWrapper>,
}

#[derive(Clone, Debug, PartialEq)]
pub struct EstimatedVehicleJourney {
    pub LineRef: LineRefWrapper,
    pub DirectionRef: Option<DirectionRefWrapper>,
    pub JourneyPatternRef: Option<JourneyPatternRefWrapper>,
    pub PublishedLineName: Option<PublishedLineNameWrapper>,
    pub FramedVehicleJourneyRef: FramedVehicleJourneyRef,
    pub OperatorRef: ServiceInfoGroup,
    pub VehicleRef: Option<VehicleRefWrapper>,
    pub EstimatedCalls: EstimatedCall,
}

#[derive(Clone, Debug, PartialEq)]
pub struct EstimatedCall {
    pub StopPointRef: StopPointRefWrapper,
    pub VisitNumber: Option<VisitNumberWrapper>,
    pub Order: OrderWrapper,
    pub StopPointName: StopPointNameWrapper,
    pub AimedArrivalTime: Option<AimedArrivalTimeWrapper>,
    pub AimedDepartureTime: Option<AimedDepartureTimeWrapper>,
    pub ExpectedDepartureTime: Option<ExpectedDepartureTimeWrapper>,
    pub ExpectedArrivalTime: Option<ExpectedArrivalTimeWrapper>,
}

/// Common service-information fields: the id of the operating company.
#[derive(Clone, Debug, PartialEq)]
pub struct ServiceInfoGroup {
    pub OperatorRef: Option<OperatorRefWrapper>,
}

#[derive(Clone, Debug, PartialEq)]
pub struct MonitoredVehicleJourney {
    pub ServiceInfo: ServiceInfoGroup,
    pub JourneyPatternRef: Option<JourneyPatternRefWrapper>,
}

#[derive(Clone, Debug, PartialEq)]
pub struct MonitoredStopVisit {
    pub MonitoringRef: MonitoringRefWrapper,
    pub RecordedAtTime: RecordedAtTimeWrapper,
    pub ItemIdentifier: ItemIdentifierWrapper,
    pub MonitoredVehicleJourney: MonitoredVehicleJourney,
}

#[derive(Clone, Debug, PartialEq)]
pub struct EstimatedTimetableVisit {
    pub MonitoredVehicleJourney: EstimatedVehicleJourney,
}

#[derive(Clone, Debug, PartialEq)]
pub struct StopMonitoringDelivery {
    pub Version: VersionWrapper,
    pub ResponseTimestamp: ResponseTimeStampWrapper,
    pub RequestMessageRef: Option<RequestMessageRefWrapper>,
    pub Status: StatusWrapper,
    pub MonitoredStopVisit: Vec<MonitoredStopVisit>,
}

#[derive(Clone, Debug, PartialEq)]
pub struct EstimatedTimetableDelivery {
    pub ResponseTimestamp: ResponseTimeStampWrapper,
    pub RequestMessageRef: Option<RequestMessageRefWrapper>,
    pub SubscriberRef: SubscriberRefWrapper,
    pub SubscriptionRef: SubscriptionRefWrapper,
    pub EstimatedJourneyVersionFrame: EstimatedJourneyVersionFrame,
}

#[derive(Clone, Debug, PartialEq)]
pub struct EstimatedJourneyVersionFrame {
    pub RecordedAtTime: RecordedAtTimeWrapper,
    pub EstimatedVehicleJourney: Vec<EstimatedVehicleJourney>,
}

#[derive(Clone, Debug, PartialEq)]
pub struct ServiceDelivery {
    pub ResponseTimestamp: ResponseTimeStampWrapper,
    pub ProducerRef: Option<ProducerRefWrapper>,
    pub Address: Option<AddressWrapper>,
    pub ResponseMessageIdentifier: Option<ResponseMessageIdentifierWrapper>,
    pub StopMonitoringDelivery: Vec<StopMonitoringDelivery>,
    pub EstimatedTimetableDelivery: Vec<EstimatedTimetableDelivery>,
}

#[derive(Clone, Debug, PartialEq)]
pub struct FramedVehicleJourneyRef {
    pub DataFrameRef: Option<DataFrameRefWrapper>,
    pub DatedVehicleJourneyRef: Option<DatedVehicleJourneyRefWrapper>,
}

#[derive(Clone, Debug, PartialEq)]
pub struct DataFrameRefWrapper {
    pub DataFrameRef: String,
}

#[derive(Clone, Debug, PartialEq)]
pub struct DatedVehicleJourneyRefWrapper {
    pub DatedVehicleJourneyRef: String,
}

#[derive(Clone, Debug, PartialEq)]
pub struct ResponseTimeStampWrapper {
    pub ResponseTimestamp: String,
}

#[derive(Clone, Debug, PartialEq)]
pub struct RequestMessageRefWrapper {
    pub RequestMessageRef: String,
}

#[derive(Clone, Debug, PartialEq)]
pub struct SubscriberRefWrapper {
    pub SubscriberRef: String,
}

#[derive(Clone, Debug, PartialEq)]
pub struct SubscriptionRefWrapper {
    pub SubscriptionRef: String,
}

#[derive(Clone, Copy, Debug, PartialEq, Eq, Structural)]
pub struct OrderWrapper {
    pub Order: u16,
}

#[derive(Clone, Debug, PartialEq)]
pub struct StopPointNameWrapper {
    pub StopPointName: String,
}

#[derive(Clone, Copy, Debug, PartialEq, Eq, Structural)]
pub struct VehicleAtStopWrapper {
    pub VehicleAtStop: bool,
}

#[derive(Clone, Debug, PartialEq)]
pub struct DestinationDisplayWrapper {
    pub DestinationDisplay: String,
}

#[derive(Clone, Copy, Debug, PartialEq, Eq, Structural)]
pub struct AimedArrivalTimeWrapper {
    pub AimedArrivalTime: DateTime,
}

#[derive(Clone, Copy, Debug, PartialEq, Eq, Structural)]
pub struct AimedDepartureTimeWrapper {
    pub AimedDepartureTime: DateTime,
}

#[derive(Clone, Copy, Debug, PartialEq, Eq, Structural)]
pub struct ExpectedArrivalTimeWrapper {
    pub ExpectedArrivalTime: DateTime,
}

#[derive(Clone, Copy, Debug, PartialEq, Eq, Structural)]
pub struct ExpectedDepartureTimeWrapper {
    pub ExpectedDepartureTime: DateTime,
}

#[derive(Clone, Copy, Debug, PartialEq, Eq, Structural)]
pub struct ArrivalStatusWrapper {
    pub ArrivalStatus: ArrivalStatus,
}

#[derive(Clone, Debug, PartialEq)]
pub struct LineRefWrapper {
    pub LineRef: String,
}

#[derive(Clone, Debug, PartialEq)]
pub struct DirectionRefWrapper {
    pub DirectionRef: String,
}

#[derive(Clone, Debug, PartialEq)]
pub struct JourneyPatternRefWrapper {
    pub JourneyPatternRef: String,
}

#[derive(Clone, Debug, PartialEq)]
pub struct PublishedLineNameWrapper {
    pub PublishedLineName: String,
}

#[derive(Clone, Debug, PartialEq)]
pub struct VehicleRefWrapper {
    pub VeichleRef: String,
}

#[derive(Clone, Debug, PartialEq)]
pub struct StopPointRefWrapper {
    pub StopPointRef: String,
}

#[derive(Clone, Debug, PartialEq)]
pub struct VisitNumberWrapper {
    pub VisitNumber: String,
}

#[derive(Clone, Debug, PartialEq)]
pub struct OperatorRefWrapper {
    pub OperatorRef: String,
}

#[derive(Clone, Debug, PartialEq)]
pub struct MonitoringRefWrapper {
    pub MonitoringRef: String,
}

#[derive(Clone, Debug, PartialEq)]
pub struct RecordedAtTimeWrapper {
    pub RecordedAtTime: String,
}

#[derive(Clone, Debug, PartialEq)]
pub struct ItemIdentifierWrapper {
    pub ItemIdentifier: String,
}

#[derive(Clone, Debug, PartialEq)]
pub struct VersionWrapper {
    pub Version: String,
}

#[derive(Clone, Copy, Debug, PartialEq, Eq, Structural)]
pub struct StatusWrapper {
    pub Status: bool,
}

#[derive(Clone, Debug, PartialEq)]
pub struct ProducerRefWrapper {
    pub ProducerRef: String,
}

#[derive(Clone, Debug, PartialEq)]
pub struct AddressWrapper {
    pub Address: String,
}

#[derive(Clone, Debug, PartialEq)]
pub struct ResponseMessageIdentifierWrapper {
    pub ResponseMessageIdentifier: String,
}

/// Common fields shared by every SIRI delivery kind.
#[derive(Clone, Debug, PartialEq)]
pub struct CommonDelivery {
    pub response_time_stamp: String,
    pub request_message_ref: Option<String>,
}

impl Default for CommonDelivery {
    /// A delivery stamped with the current time and carrying no request id.
    fn default() -> (r: CommonDelivery)
        ensures
            r.request_message_ref is None,
    {
        CommonDelivery { response_time_stamp: now_utc_rfc3339(), request_message_ref: None }
    }
}

} // verus!
