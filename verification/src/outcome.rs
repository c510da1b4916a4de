//! The single result handed back to the presentation layer: either one
//! human-readable failure message, or a fully populated record of display
//! fields.

use vstd::prelude::*;

verus! {

/// The display fields of a successful lookup. Text fields default to the
/// empty string and the visibility flags to false when the payload lacks
/// them; a record is never partially populated.
#[derive(Clone, Debug, PartialEq, Eq)]
pub struct AstronomyRecord {
    pub country: String,
    pub region: String,
    pub local_time: String,
    pub moon_phase: String,
    pub moonrise: String,
    pub moonset: String,
    pub moon_visible: bool,
    pub sunrise: String,
    pub sunset: String,
    pub sun_visible: bool,
}

/// An `AstronomyRecord` at the specification level: each text field as its
/// characters.
pub struct RecordView {
    pub country: Seq<char>,
    pub region: Seq<char>,
    pub local_time: Seq<char>,
    pub moon_phase: Seq<char>,
    pub moonrise: Seq<char>,
    pub moonset: Seq<char>,
    pub moon_visible: bool,
    pub sunrise: Seq<char>,
    pub sunset: Seq<char>,
    pub sun_visible: bool,
}

impl View for AstronomyRecord {
    type V = RecordView;

    open spec fn view(&self) -> RecordView {
        RecordView {
            country: self.country@,
            region: self.region@,
            local_time: self.local_time@,
            moon_phase: self.moon_phase@,
            moonrise: self.moonrise@,
            moonset: self.moonset@,
            moon_visible: self.moon_visible,
            sunrise: self.sunrise@,
            sunset: self.sunset@,
            sun_visible: self.sun_visible,
        }
    }
}

/// A failure of the transport itself: the call did not complete and no
/// payload was received. Carries the transport layer's own description.
#[derive(Clone, Debug, PartialEq, Eq)]
pub struct TransportError {
    pub message: String,
}

/// The sole output of interpreting a response: exactly one of a failure
/// message (transport failure and service-reported error, unified) or a
/// complete record.
#[derive(Clone, Debug, PartialEq, Eq)]
pub enum Outcome {
    Failure(String),
    Success(AstronomyRecord),
}

/// Whether `outcome` is a failure carrying exactly `message`.
pub open spec fn is_failure_with(outcome: Outcome, message: Seq<char>) -> bool {
    match outcome {
        Outcome::Failure(m) => m@ == message,
        Outcome::Success(_) => false,
    }
}

/// Whether `outcome` is a success carrying exactly `record`.
pub open spec fn is_success_with(outcome: Outcome, record: RecordView) -> bool {
    match outcome {
        Outcome::Failure(_) => false,
        Outcome::Success(r) => r@ == record,
    }
}

} // verus!
