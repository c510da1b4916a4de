use lunar_insight::interpret::interpret;
use lunar_insight::json::Json;
use lunar_insight::outcome::Outcome;
use lunar_insight::outcome::TransportError;

fn obj(pairs: Vec<(&str, Json)>) -> Json {
    Json::Object(pairs.into_iter().map(|(k, v)| (k.to_string(), v)).collect())
}

fn s(text: &str) -> Json {
    Json::Str(text.to_string())
}

/// The full payload of a successful lookup for Paris on 2024-06-01.
fn paris_payload() -> Json {
    obj(vec![
        (
            "location",
            obj(vec![
                ("country", s("France")),
                ("region", s("Ile-de-France")),
                ("localtime", s("2024-06-01 10:00")),
            ]),
        ),
        (
            "astronomy",
            obj(vec![(
                "astro",
                obj(vec![
                    ("moon_phase", s("Waxing Gibbous")),
                    ("moonrise", s("08:00 AM")),
                    ("moonset", s("10:00 PM")),
                    ("is_moon_up", Json::Int(1)),
                    ("sunrise", s("05:50 AM")),
                    ("sunset", s("09:35 PM")),
                    ("is_sun_up", Json::Int(0)),
                ]),
            )]),
        ),
    ])
}

#[test]
fn full_payload_success_exact() {
    match interpret(Ok(paris_payload())) {
        Outcome::Success(record) => {
            assert_eq!(record.country, "France");
            assert_eq!(record.region, "Ile-de-France");
            assert_eq!(record.local_time, "2024-06-01 10:00");
            assert_eq!(record.moon_phase, "Waxing Gibbous");
            assert_eq!(record.moonrise, "08:00 AM");
            assert_eq!(record.moonset, "10:00 PM");
            assert!(record.moon_visible);
            assert_eq!(record.sunrise, "05:50 AM");
            assert_eq!(record.sunset, "09:35 PM");
            assert!(!record.sun_visible);
        }
        Outcome::Failure(message) => panic!("expected success, got failure: {}", message),
    }
}

#[test]
fn service_error_message_surfaces() {
    let payload = obj(vec![(
        "error",
        obj(vec![("message", s("No matching location found."))]),
    )]);
    assert_eq!(
        interpret(Ok(payload)),
        Outcome::Failure("No matching location found.".to_string())
    );
}

#[test]
fn service_error_wins_over_fields() {
    let mut pairs = match paris_payload() {
        Json::Object(pairs) => pairs,
        _ => unreachable!(),
    };
    pairs.push((
        "error".to_string(),
        obj(vec![("message", s("Key has expired."))]),
    ));
    assert_eq!(
        interpret(Ok(Json::Object(pairs))),
        Outcome::Failure("Key has expired.".to_string())
    );
}

#[test]
fn transport_failure_surfaces_description() {
    let error = TransportError { message: "connection refused".to_string() };
    match interpret(Err(error)) {
        Outcome::Failure(message) => {
            assert_eq!(message, "connection refused");
            assert!(!message.is_empty());
        }
        Outcome::Success(_) => panic!("a transport failure must never interpret as success"),
    }
}

#[test]
fn empty_payload_defaults_every_field() {
    match interpret(Ok(obj(vec![]))) {
        Outcome::Success(record) => {
            assert_eq!(record.country, "");
            assert_eq!(record.region, "");
            assert_eq!(record.local_time, "");
            assert_eq!(record.moon_phase, "");
            assert_eq!(record.moonrise, "");
            assert_eq!(record.moonset, "");
            assert!(!record.moon_visible);
            assert_eq!(record.sunrise, "");
            assert_eq!(record.sunset, "");
            assert!(!record.sun_visible);
        }
        Outcome::Failure(message) => panic!("expected success, got failure: {}", message),
    }
}

#[test]
fn partly_missing_fields_default_only_those() {
    let payload = obj(vec![
        ("location", obj(vec![("country", s("France"))])),
        (
            "astronomy",
            obj(vec![("astro", obj(vec![("moonrise", s("08:00 AM"))]))]),
        ),
    ]);
    match interpret(Ok(payload)) {
        Outcome::Success(record) => {
            assert_eq!(record.country, "France");
            assert_eq!(record.region, "");
            assert_eq!(record.moonrise, "08:00 AM");
            assert_eq!(record.moonset, "");
            assert!(!record.moon_visible);
        }
        Outcome::Failure(message) => panic!("expected success, got failure: {}", message),
    }
}

#[test]
fn null_error_member_is_success() {
    let payload = obj(vec![("error", Json::Null)]);
    assert!(matches!(interpret(Ok(payload)), Outcome::Success(_)));
}

#[test]
fn error_without_message_fails_empty() {
    let payload = obj(vec![("error", obj(vec![]))]);
    assert_eq!(interpret(Ok(payload)), Outcome::Failure("".to_string()));
}

#[test]
fn error_message_not_a_string_fails_empty() {
    let payload = obj(vec![("error", obj(vec![("message", Json::Int(5))]))]);
    assert_eq!(interpret(Ok(payload)), Outcome::Failure("".to_string()));
}

fn astro_only(name: &str, value: Json) -> Json {
    obj(vec![(
        "astronomy",
        obj(vec![("astro", obj(vec![(name, value)]))]),
    )])
}

fn moon_visible_of(value: Json) -> bool {
    match interpret(Ok(astro_only("is_moon_up", value))) {
        Outcome::Success(record) => record.moon_visible,
        Outcome::Failure(message) => panic!("expected success, got failure: {}", message),
    }
}

#[test]
fn visibility_true_only_on_integer_one() {
    assert!(moon_visible_of(Json::Int(1)));
    assert!(!moon_visible_of(Json::Int(0)));
    assert!(!moon_visible_of(Json::Int(2)));
    assert!(!moon_visible_of(s("1")));
    assert!(!moon_visible_of(Json::Bool(true)));
    assert!(!moon_visible_of(Json::Null));
    assert!(!moon_visible_of(Json::OtherNumber));
}

#[test]
fn string_field_not_a_string_defaults() {
    let payload = obj(vec![("location", obj(vec![("country", Json::Int(7))]))]);
    match interpret(Ok(payload)) {
        Outcome::Success(record) => assert_eq!(record.country, ""),
        Outcome::Failure(message) => panic!("expected success, got failure: {}", message),
    }
}

#[test]
fn member_lookup_takes_first_match() {
    let payload = obj(vec![
        ("location", obj(vec![("country", s("France"))])),
        ("location", obj(vec![("country", s("Spain"))])),
    ]);
    match interpret(Ok(payload)) {
        Outcome::Success(record) => assert_eq!(record.country, "France"),
        Outcome::Failure(message) => panic!("expected success, got failure: {}", message),
    }
}

#[test]
fn non_object_payload_defaults_every_field() {
    match interpret(Ok(s("not an object"))) {
        Outcome::Success(record) => {
            assert_eq!(record.country, "");
            assert!(!record.moon_visible);
        }
        Outcome::Failure(message) => panic!("expected success, got failure: {}", message),
    }
}
