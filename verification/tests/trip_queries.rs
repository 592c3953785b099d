use db_train_info::trip_info::{
    Coordinates, DelayReason, MiscInfo, StationInfo, Stop, TimeInfo, TrackInfo, TrainVicinity,
    Trip,
};

fn make_stop(eva: &str, name: &str, dist_prev_m: i64, dist_origin_m: i64) -> Stop {
    Stop {
        station: StationInfo {
            eva_nr: eva.to_string(),
            name: name.to_string(),
            coordinates: Coordinates {
                latitude_bits: 50.0f32.to_bits(),
                longitude_bits: 8.0f32.to_bits(),
            },
        },
        timetable: TimeInfo {
            scheduled_arrival_ms: Some(1_466_000_000_000),
            actual_arrival_ms: Some(1_466_000_300_000),
            arrival_delay: "+5".to_string(),
            scheduled_departure_ms: Some(1_466_000_120_000),
            actual_departure_ms: Some(1_466_000_420_000),
            departure_delay: "+5".to_string(),
        },
        track: TrackInfo {
            scheduled: "4".to_string(),
            actual: "4".to_string(),
        },
        info: MiscInfo {
            status_code: 0,
            passed: false,
            distance_from_previous_m: dist_prev_m,
            distance_from_origin_m: dist_origin_m,
        },
        delay_reasons: None,
    }
}

fn make_trip(stops: Vec<Stop>, actual_next: &str, actual_last: &str, final_id: &str) -> Trip {
    Trip {
        trip_date: "2016-06-15".to_string(),
        train_type: "ICE".to_string(),
        train_number: "123".to_string(),
        actual_position: 0,
        distance_from_last_stop_m: 2000,
        total_distance_m: 500_000,
        vicinity: TrainVicinity {
            scheduled_next: actual_next.to_string(),
            actual_next: actual_next.to_string(),
            actual_last: actual_last.to_string(),
            actual_last_started: actual_next.to_string(),
            final_station_id: final_id.to_string(),
            final_station_name: "Endstation".to_string(),
        },
        stops,
    }
}

fn km_as_f64(km: db_train_info::trip_info::Kilometers) -> f64 {
    km.thousandths as f64 / 1000.0
}

#[test]
fn distance_to_km_exact_values() {
    assert_eq!(km_as_f64(Trip::distance_to_km(1000)), 1.0);
    assert_eq!(km_as_f64(Trip::distance_to_km(0)), 0.0);
    assert_eq!(km_as_f64(Trip::distance_to_km(-500)), -0.5);
}

#[test]
fn get_stop_on_empty_stops_is_absent() {
    let trip = make_trip(Vec::new(), "S2", "S1", "S9");
    assert!(trip.get_stop(&"S1".to_string()).is_none());
    assert!(trip.get_stop(&"S2".to_string()).is_none());
    assert!(trip.get_stop(&"".to_string()).is_none());
}

#[test]
fn get_stop_returns_first_match_on_duplicates() {
    let stops = vec![
        make_stop("S1", "Alpha", 0, 0),
        make_stop("S2", "Beta", 5000, 5000),
        make_stop("S2", "Gamma", 7000, 12000),
    ];
    let trip = make_trip(stops, "S2", "S1", "S2");
    let found = trip.get_stop(&"S2".to_string()).expect("S2 resolves");
    assert_eq!(found.station.name, "Beta");
    assert_eq!(found.info.distance_from_previous_m, 5000);
}

#[test]
fn get_stop_miss_is_absent() {
    let stops = vec![make_stop("S1", "Alpha", 0, 0)];
    let trip = make_trip(stops, "S2", "S1", "S9");
    assert!(trip.get_stop(&"S7".to_string()).is_none());
}

#[test]
fn origin_on_empty_stops_is_absent() {
    let trip = make_trip(Vec::new(), "S2", "S1", "S9");
    assert!(trip.origin().is_none());
}

#[test]
fn origin_on_nonempty_is_first_stop() {
    let stops = vec![
        make_stop("S1", "Alpha", 0, 0),
        make_stop("S2", "Beta", 5000, 5000),
    ];
    let trip = make_trip(stops, "S2", "S1", "S2");
    let origin = trip.origin().expect("origin resolves");
    assert_eq!(origin.station.eva_nr, "S1");
    assert_eq!(origin.station.name, "Alpha");
}

#[test]
fn end_to_end_two_stop_distances() {
    let stops = vec![
        make_stop("S1", "Alpha", 0, 0),
        make_stop("S2", "Beta", 5000, 5000),
    ];
    let trip = make_trip(stops, "S2", "S1", "S2");
    assert_eq!(km_as_f64(trip.distance_to_previous_stop()), 2.0);
    assert_eq!(
        km_as_f64(trip.distance_between_adjacent_stops().expect("next resolves")),
        5.0
    );
    assert_eq!(
        km_as_f64(trip.distance_to_next_stop().expect("next resolves")),
        3.0
    );
}

#[test]
fn unresolvable_next_stop_is_absent_not_an_error() {
    let stops = vec![make_stop("S1", "Alpha", 0, 0)];
    let trip = make_trip(stops, "S8", "S1", "S1");
    assert!(trip.next_stop().is_none());
    assert!(trip.distance_to_next_stop().is_none());
    assert!(trip.distance_between_adjacent_stops().is_none());
}

#[test]
fn next_and_previous_stop_resolve_by_vicinity() {
    let stops = vec![
        make_stop("S1", "Alpha", 0, 0),
        make_stop("S2", "Beta", 5000, 5000),
        make_stop("S3", "Gamma", 7000, 12000),
    ];
    let trip = make_trip(stops, "S3", "S2", "S3");
    assert_eq!(trip.next_stop().expect("next").station.name, "Gamma");
    assert_eq!(trip.previous_stop().expect("previous").station.name, "Beta");
    assert_eq!(trip.destination().expect("final").station.eva_nr, "S3");
}

#[test]
fn train_identifier_joins_type_and_number() {
    let trip = make_trip(Vec::new(), "S2", "S1", "S9");
    assert_eq!(trip.train_identifier(), "ICE 123");
    assert_eq!(trip.train_type(), "ICE");
    assert_eq!(trip.train_number(), "123");
}

#[test]
fn total_distance_converts_meters() {
    let trip = make_trip(Vec::new(), "S2", "S1", "S9");
    assert_eq!(km_as_f64(trip.total_distance()), 500.0);
}

#[test]
fn negative_distance_to_next_stop_is_allowed() {
    // The two upstream measurements need not share a reference point; the
    // difference may come out negative and must be passed through as is.
    let stops = vec![make_stop("S2", "Beta", 1000, 1000)];
    let trip = make_trip(stops, "S2", "S1", "S2");
    assert_eq!(
        km_as_f64(trip.distance_to_next_stop().expect("next resolves")),
        -1.0
    );
}

#[test]
fn stop_accessors_project_fields() {
    let stop = make_stop("S1", "Alpha", 100, 200);
    assert_eq!(stop.station().eva_nr(), "S1");
    assert_eq!(stop.station().name(), "Alpha");
    assert_eq!(
        f32::from_bits(stop.station().coordinates().latitude_bits),
        50.0
    );
    assert_eq!(stop.track().scheduled(), "4");
    assert_eq!(stop.track().actual(), "4");
    assert_eq!(stop.info().status(), 0);
    assert!(!stop.info().passed());
    assert_eq!(km_as_f64(stop.info().distance_to_previous_stop()), 0.1);
    assert_eq!(km_as_f64(stop.info().distance_to_origin()), 0.2);
    assert!(stop.delay_reasons().is_none());
    assert_eq!(stop.timetable().arrival_delay.as_str(), "+5");
}

#[test]
fn delay_reason_accessors_project_fields() {
    let reason = DelayReason {
        code: "38".to_string(),
        text: "Technische Stoerung an der Strecke".to_string(),
    };
    assert_eq!(reason.code(), "38");
    assert_eq!(reason.text(), "Technische Stoerung an der Strecke");
}

#[test]
fn vicinity_accessors_project_fields() {
    let trip = make_trip(Vec::new(), "S2", "S1", "S9");
    assert_eq!(trip.vicinity.scheduled_next(), "S2");
    assert_eq!(trip.vicinity.actual_next(), "S2");
    assert_eq!(trip.vicinity.actual_last(), "S1");
    assert_eq!(trip.vicinity.actual_last_started(), "S2");
    assert_eq!(trip.vicinity.final_station_id, "S9");
    assert_eq!(trip.vicinity.final_station_name, "Endstation");
}
