use chrono::{Duration, SecondsFormat, Utc};

use ptv_departures::ptv::{Departure, ViewDeparturesResponse};
use ptv_departures::resolve::{
    get_departure_minutes_from_response, get_minutes_from_departure, ResolveError,
};
use ptv_departures::response::Departure as ResolvedDeparture;

fn departure_in(base: chrono::DateTime<Utc>, time_from_base: Duration) -> Departure {
    let departure_time = base + time_from_base;
    Departure {
        scheduled_departure_utc: Some(departure_time.to_rfc3339_opts(SecondsFormat::Secs, true)),
        ..Default::default()
    }
}

#[test]
fn test_get_minutes_from_response_calc() {
    let tests = vec![
        (190, 3),  // three minutes away
        (179, 2),  // under three minutes away
        (0, 0),    // zero
        (-5, 0),   // five seconds ago
        (-60, -1), // one minute ago
    ];

    for (future_secs, expected_mins) in tests {
        let now = Utc::now();
        let test_time = now + Duration::seconds(future_secs);
        let test_departure = Departure {
            scheduled_departure_utc: Some(test_time.to_rfc3339_opts(SecondsFormat::Secs, true)),
            ..Default::default()
        };
        let result = get_minutes_from_departure(&test_departure, now.timestamp())
            .expect("failed to find departure times");
        assert_eq!(result, expected_mins)
    }
}

#[test]
fn test_get_minutes_from_response_prioritise_estimated() {
    let now = Utc::now();
    let test_time_1 = now + Duration::seconds(60);
    let test_time_2 = now + Duration::seconds(130);
    let test_departure = Departure {
        scheduled_departure_utc: Some(test_time_1.to_rfc3339_opts(SecondsFormat::Secs, true)),
        estimated_departure_utc: Some(test_time_2.to_rfc3339_opts(SecondsFormat::Secs, true)),
        ..Default::default()
    };

    let result = get_minutes_from_departure(&test_departure, now.timestamp())
        .expect("failed to find departure times");
    assert_eq!(result, 2)
}

#[test]
fn test_get_minutes_for_responses_empty() {
    let test_departure = Departure {
        estimated_departure_utc: None,
        scheduled_departure_utc: None,
        ..Default::default()
    };

    let result = get_minutes_from_departure(&test_departure, Utc::now().timestamp());
    assert!(result.is_err());
    assert_eq!(
        result.unwrap_err().message(),
        "could not find timestamps from departure"
    );
}

#[test]
fn test_get_departure_minutes_from_response() {
    // The records are written at one instant and resolved a moment later;
    // resolving one second after the records were written reproduces that.
    let base = Utc::now();
    let now = base.timestamp() + 1;

    let test_cases: Vec<(ViewDeparturesResponse, Result<Vec<ResolvedDeparture>, String>)> = vec![
        (
            ViewDeparturesResponse { departures: vec![] },
            Err("no departures found".to_string()),
        ),
        (
            ViewDeparturesResponse {
                departures: vec![
                    departure_in(base, Duration::minutes(9)),
                    Departure {
                        ..Default::default()
                    },
                ],
            },
            Ok(vec![ResolvedDeparture { minutes: 8 }]),
        ),
        (
            ViewDeparturesResponse {
                departures: vec![
                    departure_in(base, Duration::minutes(3)),
                    departure_in(base, Duration::minutes(8)),
                ],
            },
            Ok(vec![
                ResolvedDeparture { minutes: 2 },
                ResolvedDeparture { minutes: 7 },
            ]),
        ),
        (
            ViewDeparturesResponse {
                departures: vec![
                    Departure {
                        scheduled_departure_utc: Some("invalid".to_string()),
                        ..Default::default()
                    },
                    departure_in(base, Duration::minutes(1)),
                ],
            },
            Err("input contains invalid characters".to_string()),
        ),
    ];

    for (response, expected) in test_cases {
        let actual = get_departure_minutes_from_response(response, now);
        match expected {
            Ok(minutes) => assert_eq!(minutes, actual.unwrap()),
            Err(e) => assert_eq!(e, actual.unwrap_err().message()),
        }
    }
}

#[test]
fn test_first_record_without_timestamps_is_fatal() {
    let response = ViewDeparturesResponse {
        departures: vec![
            Departure {
                ..Default::default()
            },
            departure_in(Utc::now(), Duration::minutes(5)),
        ],
    };
    let result = get_departure_minutes_from_response(response, Utc::now().timestamp());
    match result.unwrap_err() {
        ResolveError::MissingTimestamp => {}
        other => panic!("expected MissingTimestamp, got {:?}", other),
    }
}

#[test]
fn test_empty_response_error_variant() {
    let response = ViewDeparturesResponse { departures: vec![] };
    let result = get_departure_minutes_from_response(response, 0);
    match result.unwrap_err() {
        ResolveError::NoDeparturesFound => {}
        other => panic!("expected NoDeparturesFound, got {:?}", other),
    }
}

#[test]
fn test_parse_error_variant_carries_detail() {
    let departure = Departure {
        estimated_departure_utc: Some("not a timestamp".to_string()),
        ..Default::default()
    };
    let result = get_minutes_from_departure(&departure, 0);
    match result.unwrap_err() {
        ResolveError::TimestampParse(detail) => assert!(!detail.is_empty()),
        other => panic!("expected TimestampParse, got {:?}", other),
    }
}

#[test]
fn test_minutes_from_fixed_timestamps() {
    // Fixed instants, no clock involved: 10:03:10 is 190 seconds past
    // 10:00:00, so three whole minutes.
    let departure = Departure {
        scheduled_departure_utc: Some("2024-05-01T10:03:10+00:00".to_string()),
        ..Default::default()
    };
    let now = 1714557600i64; // 2024-05-01T10:00:00Z
    assert_eq!(get_minutes_from_departure(&departure, now).unwrap(), 3);

    let departed = Departure {
        scheduled_departure_utc: Some("2024-05-01T09:59:00+00:00".to_string()),
        ..Default::default()
    };
    assert_eq!(get_minutes_from_departure(&departed, now).unwrap(), -1);
}
