//! Interpreting the service's response: a transport failure or the service's
//! own error envelope becomes one failure message; anything else becomes a
//! complete record read from fixed paths, with every missing field defaulted.

use vstd::prelude::*;
use crate::json::Json;
use crate::json::get_member;
use crate::json::get_member2;
use crate::json::get_member3;
use crate::json::string_or_empty;
use crate::json::is_int_one;
use crate::json::string_field;
use crate::json::int_one_field;
use crate::outcome::AstronomyRecord;
use crate::outcome::RecordView;
use crate::outcome::Outcome;
use crate::outcome::TransportError;
use crate::outcome::is_failure_with;
use crate::outcome::is_success_with;

verus! {

/// The service reports an error when the payload's `error` member is present
/// and not null.
pub open spec fn has_service_error(payload: Json) -> bool {
    match get_member(payload, "error"@) {
        Some(v) => v != Json::Null,
        None => false,
    }
}

/// The message of a service-reported error: `error.message` when that is a
/// string, the empty sequence otherwise.
pub open spec fn service_error_message(payload: Json) -> Seq<char> {
    string_or_empty(get_member2(payload, "error"@, "message"@))
}

/// The record that a payload without a service error denotes: each field read
/// from its fixed path, text defaulting to empty, visibility true exactly on
/// the integer one.
pub open spec fn record_of(payload: Json) -> RecordView {
    RecordView {
        country: string_or_empty(get_member2(payload, "location"@, "country"@)),
        region: string_or_empty(get_member2(payload, "location"@, "region"@)),
        local_time: string_or_empty(get_member2(payload, "location"@, "localtime"@)),
        moon_phase: string_or_empty(get_member3(payload, "astronomy"@, "astro"@, "moon_phase"@)),
        moonrise: string_or_empty(get_member3(payload, "astronomy"@, "astro"@, "moonrise"@)),
        moonset: string_or_empty(get_member3(payload, "astronomy"@, "astro"@, "moonset"@)),
        moon_visible: is_int_one(get_member3(payload, "astronomy"@, "astro"@, "is_moon_up"@)),
        sunrise: string_or_empty(get_member3(payload, "astronomy"@, "astro"@, "sunrise"@)),
        sunset: string_or_empty(get_member3(payload, "astronomy"@, "astro"@, "sunset"@)),
        sun_visible: is_int_one(get_member3(payload, "astronomy"@, "astro"@, "is_sun_up"@)),
    }
}

/// Maps a response to its outcome. The three branches, in order: a transport
/// failure surfaces its own description; a payload whose `error` member is
/// present and non-null surfaces `error.message` (empty when that is missing
/// or not a string); any other payload yields the complete record of
/// `record_of`, with every default applied. Failure is returned exactly on
/// the first two branches.
pub fn interpret(response: Result<Json, TransportError>) -> (outcome: Outcome)
    ensures
        response matches Err(e) ==> is_failure_with(outcome, e.message@),
        response matches Ok(payload) ==> {
            &&& has_service_error(payload) ==> is_failure_with(
                outcome,
                service_error_message(payload),
            )
            &&& !has_service_error(payload) ==> is_success_with(outcome, record_of(payload))
        },
{
    match response {
        Err(e) => Outcome::Failure(e.message),
        Ok(payload) => {
            let service_error: bool = match payload.get("error") {
                Some(Json::Null) => false,
                Some(_) => true,
                None => false,
            };
            if service_error {
                Outcome::Failure(string_field(payload.get2("error", "message")))
            } else {
                Outcome::Success(
                    AstronomyRecord {
                        country: string_field(payload.get2("location", "country")),
                        region: string_field(payload.get2("location", "region")),
                        local_time: string_field(payload.get2("location", "localtime")),
                        moon_phase: string_field(
                            payload.get3("astronomy", "astro", "moon_phase"),
                        ),
                        moonrise: string_field(payload.get3("astronomy", "astro", "moonrise")),
                        moonset: string_field(payload.get3("astronomy", "astro", "moonset")),
                        moon_visible: int_one_field(
                            payload.get3("astronomy", "astro", "is_moon_up"),
                        ),
                        sunrise: string_field(payload.get3("astronomy", "astro", "sunrise")),
                        sunset: string_field(payload.get3("astronomy", "astro", "sunset")),
                        sun_visible: int_one_field(
                            payload.get3("astronomy", "astro", "is_sun_up"),
                        ),
                    },
                )
            }
        },
    }
}

/// A full payload interprets exactly: when the payload carries no service
/// error, each fixed path holds a string, and the two visibility members
/// hold integers, the outcome is a success whose record repeats those values
/// verbatim, with a visibility flag true exactly when its member is the
/// integer one.
pub proof fn lemma_full_payload_exact(
    payload: Json,
    outcome: Outcome,
    country: String,
    region: String,
    local_time: String,
    moon_phase: String,
    moonrise: String,
    moonset: String,
    sunrise: String,
    sunset: String,
    moon_up: i64,
    sun_up: i64,
)
    requires
        !has_service_error(payload),
        is_success_with(outcome, record_of(payload)),
        get_member2(payload, "location"@, "country"@) == Some(Json::Str(country)),
        get_member2(payload, "location"@, "region"@) == Some(Json::Str(region)),
        get_member2(payload, "location"@, "localtime"@) == Some(Json::Str(local_time)),
        get_member3(payload, "astronomy"@, "astro"@, "moon_phase"@) == Some(Json::Str(moon_phase)),
        get_member3(payload, "astronomy"@, "astro"@, "moonrise"@) == Some(Json::Str(moonrise)),
        get_member3(payload, "astronomy"@, "astro"@, "moonset"@) == Some(Json::Str(moonset)),
        get_member3(payload, "astronomy"@, "astro"@, "is_moon_up"@) == Some(Json::Int(moon_up)),
        get_member3(payload, "astronomy"@, "astro"@, "sunrise"@) == Some(Json::Str(sunrise)),
        get_member3(payload, "astronomy"@, "astro"@, "sunset"@) == Some(Json::Str(sunset)),
        get_member3(payload, "astronomy"@, "astro"@, "is_sun_up"@) == Some(Json::Int(sun_up)),
    ensures
        outcome is Success,
        outcome matches Outcome::Success(record) ==> {
            &&& record@.country == country@
            &&& record@.region == region@
            &&& record@.local_time == local_time@
            &&& record@.moon_phase == moon_phase@
            &&& record@.moonrise == moonrise@
            &&& record@.moonset == moonset@
            &&& record@.moon_visible == (moon_up == 1)
            &&& record@.sunrise == sunrise@
            &&& record@.sunset == sunset@
            &&& record@.sun_visible == (sun_up == 1)
        },
{
}

/// A missing string member is no failure: a payload without a service error
/// always interprets as a success, and each of the six text paths that is
/// missing only defaults its record field to the empty string.
pub proof fn lemma_missing_fields_default(payload: Json, outcome: Outcome)
    requires
        !has_service_error(payload),
        is_success_with(outcome, record_of(payload)),
    ensures
        outcome is Success,
        outcome matches Outcome::Success(record) ==> {
            &&& get_member2(payload, "location"@, "country"@) is None ==> record@.country
                == Seq::<char>::empty()
            &&& get_member2(payload, "location"@, "region"@) is None ==> record@.region
                == Seq::<char>::empty()
            &&& get_member2(payload, "location"@, "localtime"@) is None ==> record@.local_time
                == Seq::<char>::empty()
            &&& get_member3(payload, "astronomy"@, "astro"@, "moon_phase"@) is None
                ==> record@.moon_phase == Seq::<char>::empty()
            &&& get_member3(payload, "astronomy"@, "astro"@, "moonrise"@) is None
                ==> record@.moonrise == Seq::<char>::empty()
            &&& get_member3(payload, "astronomy"@, "astro"@, "moonset"@) is None
                ==> record@.moonset == Seq::<char>::empty()
            &&& get_member3(payload, "astronomy"@, "astro"@, "sunrise"@) is None
                ==> record@.sunrise == Seq::<char>::empty()
            &&& get_member3(payload, "astronomy"@, "astro"@, "sunset"@) is None
                ==> record@.sunset == Seq::<char>::empty()
        },
{
}

/// A non-empty `error.message` string decides the outcome: the payload then
/// carries a service error, and the outcome is a failure holding exactly that
/// message, whatever else the payload contains.
pub proof fn lemma_error_message_decides(payload: Json, message: String, outcome: Outcome)
    requires
        get_member2(payload, "error"@, "message"@) == Some(Json::Str(message)),
        message@.len() > 0,
        has_service_error(payload) ==> is_failure_with(outcome, service_error_message(payload)),
    ensures
        has_service_error(payload),
        outcome matches Outcome::Failure(m) && m@ == message@,
{
    let member = get_member(payload, "error"@);
    match member {
        Some(envelope) => {
            assert(get_member(envelope, "message"@) == Some(Json::Str(message)));
            assert(envelope != Json::Null);
        },
        None => {
            assert(false);
        },
    }
}

/// A transport failure never yields a success: the outcome is a failure whose
/// message is the transport's own (non-empty) description.
pub proof fn lemma_transport_failure_surfaces(error: TransportError, outcome: Outcome)
    requires
        error.message@.len() > 0,
        is_failure_with(outcome, error.message@),
    ensures
        outcome matches Outcome::Failure(m) && m@.len() > 0,
        !(outcome is Success),
{
}

} // verus!
