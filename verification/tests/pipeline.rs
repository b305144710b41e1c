//! End-to-end scenarios for the ride pipeline, run against the in-memory
//! store.

use ride_service::errors::RideError;
use ride_service::handler::{complete_ride, handle_ride_request, RideOutcome};
use ride_service::request::{Claim, IncomingEvent};
use ride_service::ride::{ride_id_well_formed, RideRecord};
use ride_service::store::{run_ride_request, MemoryStore};
use ride_service::vehicle::{default_roster, Car, Roster};

fn event(claims: &[(&str, &str)], body: &str) -> IncomingEvent {
    IncomingEvent {
        body: body.to_string(),
        claims: claims
            .iter()
            .map(|(n, v)| Claim { name: n.to_string(), value: v.to_string() })
            .collect(),
    }
}

const GOOD_BODY: &str = "{\"PickupLocation\":{\"Latitude\":47.6,\"Longtitude\":-122.3}}";

fn fixed_id() -> String {
    "550e8400-e29b-41d4-a716-446655440000".to_string()
}

#[test]
fn success_scenario() {
    let roster = default_roster();
    let ev = event(&[("cognito:username", "alice")], GOOD_BODY);
    let mut store = MemoryStore::new();
    let resp = run_ride_request(&ev, &roster, 1, fixed_id(), "t0".to_string(), &mut store);

    assert_eq!(resp.status_code, 201);
    assert_eq!(store.records.len(), 1);
    let rec = &store.records[0];
    assert_eq!(rec.ride_id, fixed_id());
    assert_eq!(rec.username, "alice");
    assert_eq!(rec.timestamp, "t0");
    assert_eq!(rec.car, *roster.car_at(1));

    assert!(resp.body.contains("\"Rider\":\"alice\""));
    let json: serde_json::Value = serde_json::from_str(&resp.body).unwrap();
    assert_eq!(json["RideId"].as_str().unwrap(), fixed_id());
    assert_eq!(json["Car"]["Name"].as_str().unwrap(), rec.car.name);
    assert_eq!(json["Car"]["Color"].as_str().unwrap(), rec.car.color);
    assert_eq!(json["Car"]["Gender"].as_str().unwrap(), rec.car.gender);
    assert_eq!(json["CarName"], json["Car"]["Name"]);
    assert_eq!(json["Eta"].as_str().unwrap(), "30 seconds");
    assert_eq!(json["Rider"].as_str().unwrap(), "alice");
    assert_eq!(resp.headers.len(), 1);
    assert_eq!(resp.headers[0].name, "Access-Control-Allow-Origin");
    assert_eq!(resp.headers[0].value, "*");
}

#[test]
fn auth_failure_writes_nothing() {
    let roster = default_roster();
    let ev = event(&[], GOOD_BODY);
    let mut store = MemoryStore::new();
    let resp = run_ride_request(&ev, &roster, 0, fixed_id(), "t0".to_string(), &mut store);
    assert_eq!(resp.status_code, 401);
    assert!(resp.body.contains("AuthenticationError"));
    assert_eq!(store.records.len(), 0);
}

#[test]
fn wrong_claim_key_is_auth_failure() {
    let roster = default_roster();
    let ev = event(&[("username", "alice")], GOOD_BODY);
    let mut store = MemoryStore::new();
    let resp = run_ride_request(&ev, &roster, 0, fixed_id(), "t0".to_string(), &mut store);
    assert_eq!(resp.status_code, 401);
    assert_eq!(store.records.len(), 0);
}

#[test]
fn malformed_body_writes_nothing() {
    let roster = default_roster();
    let ev = event(&[("cognito:username", "alice")], "not json");
    let mut store = MemoryStore::new();
    let resp = run_ride_request(&ev, &roster, 0, fixed_id(), "t0".to_string(), &mut store);
    assert_eq!(resp.status_code, 400);
    assert!(resp.body.contains("MalformedRequestError"));
    assert_eq!(store.records.len(), 0);
}

#[test]
fn storage_fault_short_circuits() {
    let roster = default_roster();
    let ev = event(&[("cognito:username", "alice")], GOOD_BODY);

    // First attempt: the record is planned, but the store is down.
    let mut store = MemoryStore::new();
    store.available = false;
    let failed_id = match handle_ride_request(&ev, &roster) {
        RideOutcome::Persist(rec) => {
            let id = rec.ride_id.clone();
            assert!(store.put_record(rec).is_err());
            id
        },
        RideOutcome::Reject(_) => panic!("a well-formed event must persist"),
    };
    assert_eq!(store.records.len(), 0);

    // The identifier of the failed attempt is discarded; a later successful
    // call runs under a fresh one.
    store.available = true;
    match handle_ride_request(&ev, &roster) {
        RideOutcome::Persist(rec) => {
            assert_ne!(rec.ride_id, failed_id);
            let retry_id = rec.ride_id.clone();
            assert!(store.put_record(rec).is_ok());
            assert_eq!(store.records.len(), 1);
            assert_eq!(store.records[0].ride_id, retry_id);
        },
        RideOutcome::Reject(_) => panic!("a well-formed event must persist"),
    }
}

#[test]
fn storage_fault_yields_no_success_response() {
    let roster = default_roster();
    let ev = event(&[("cognito:username", "alice")], GOOD_BODY);
    let mut store = MemoryStore::new();
    store.available = false;
    let resp = run_ride_request(&ev, &roster, 0, fixed_id(), "t0".to_string(), &mut store);
    assert_eq!(resp.status_code, 500);
    assert!(resp.body.contains("StorageError"));
    assert_eq!(store.records.len(), 0);
}

#[test]
fn ride_ids_distinct_and_well_formed() {
    let roster = default_roster();
    let ev = event(&[("cognito:username", "alice")], GOOD_BODY);
    let mut seen: Vec<String> = Vec::new();
    for _ in 0..100 {
        let id = match handle_ride_request(&ev, &roster) {
            RideOutcome::Persist(rec) => rec.ride_id,
            RideOutcome::Reject(_) => panic!("a well-formed event must persist"),
        };
        assert!(ride_id_well_formed(&id), "malformed ride id: {}", id);
        assert!(!seen.contains(&id), "ride id repeated: {}", id);
        seen.push(id);
    }
}

#[test]
fn ride_id_format_checker() {
    assert!(ride_id_well_formed("550e8400-e29b-41d4-a716-446655440000"));
    // wrong length
    assert!(!ride_id_well_formed("550e8400-e29b-41d4-a716-44665544000"));
    // wrong version nibble
    assert!(!ride_id_well_formed("550e8400-e29b-31d4-a716-446655440000"));
    // wrong variant nibble
    assert!(!ride_id_well_formed("550e8400-e29b-41d4-7716-446655440000"));
    // upper case is not the hyphenated form uuid renders
    assert!(!ride_id_well_formed("550E8400-E29B-41D4-A716-446655440000"));
    // hyphen out of place
    assert!(!ride_id_well_formed("550e84000e29b-41d4-a716-446655440000"));
}

#[test]
fn roster_not_mutated_by_selection() {
    let roster = default_roster();
    let before: Vec<(String, String, String)> = (0..roster.len())
        .map(|i| {
            let c = roster.car_at(i);
            (c.name.clone(), c.color.clone(), c.gender.clone())
        })
        .collect();
    let pickup = match ride_service::request::parse_ride_request(GOOD_BODY) {
        Ok(req) => req.pickup,
        Err(_) => panic!("body should parse"),
    };
    for _ in 0..25 {
        let car = roster.select_vehicle(&pickup);
        // the selected vehicle is one of the roster's
        assert!((0..roster.len()).any(|i| *roster.car_at(i) == car));
    }
    let after: Vec<(String, String, String)> = (0..roster.len())
        .map(|i| {
            let c = roster.car_at(i);
            (c.name.clone(), c.color.clone(), c.gender.clone())
        })
        .collect();
    assert_eq!(before, after);
}

#[test]
fn empty_roster_is_configuration_error() {
    match Roster::new(Vec::new()) {
        Err(RideError::Configuration) => {},
        _ => panic!("an empty roster must be refused at startup"),
    }
}

#[test]
fn vehicle_at_wraps_modulo_len() {
    let roster = default_roster();
    let c = roster.vehicle_at(5);
    assert_eq!(c, *roster.car_at(2));
    let c0 = roster.vehicle_at(3);
    assert_eq!(c0, *roster.car_at(0));
}

#[test]
fn handle_ride_request_persists_on_good_event() {
    let roster = default_roster();
    let ev = event(&[("cognito:username", "bob")], GOOD_BODY);
    match handle_ride_request(&ev, &roster) {
        RideOutcome::Persist(rec) => {
            assert_eq!(rec.username, "bob");
            assert!(ride_id_well_formed(&rec.ride_id));
            assert!((0..roster.len()).any(|i| *roster.car_at(i) == rec.car));
        },
        RideOutcome::Reject(_) => panic!("a well-formed event must persist"),
    }
}

#[test]
fn handle_ride_request_rejects_bad_event() {
    let roster = default_roster();
    let ev = event(&[], GOOD_BODY);
    match handle_ride_request(&ev, &roster) {
        RideOutcome::Reject(resp) => assert_eq!(resp.status_code, 401),
        RideOutcome::Persist(_) => panic!("an unauthenticated event must not persist"),
    }
}

#[test]
fn complete_ride_maps_write_outcome() {
    let record = RideRecord::new(
        fixed_id(),
        "carol".to_string(),
        Car::new("Shadowfax", "White", "Male"),
        "t0".to_string(),
    );
    let ok = complete_ride(&record, true);
    assert_eq!(ok.status_code, 201);
    assert!(ok.body.contains(&fixed_id()));
    let failed = complete_ride(&record, false);
    assert_eq!(failed.status_code, 500);
    assert!(failed.body.contains("StorageError"));
}

#[test]
fn success_body_exact_text() {
    let record = RideRecord::new(
        fixed_id(),
        "alice".to_string(),
        Car::new("Shadowfax", "White", "Male"),
        "t0".to_string(),
    );
    let resp = complete_ride(&record, true);
    assert_eq!(
        resp.body,
        "{\"RideId\":\"550e8400-e29b-41d4-a716-446655440000\",\
         \"Car\":{\"Name\":\"Shadowfax\",\"Color\":\"White\",\"Gender\":\"Male\"},\
         \"CarName\":\"Shadowfax\",\"Eta\":\"30 seconds\",\"Rider\":\"alice\"}"
    );
}

#[test]
fn error_body_exact_text() {
    let roster = default_roster();
    let ev = event(&[], GOOD_BODY);
    let mut store = MemoryStore::new();
    let resp = run_ride_request(&ev, &roster, 0, fixed_id(), "t0".to_string(), &mut store);
    assert_eq!(resp.body, "{\"Error\":\"AuthenticationError\"}");
}

#[test]
fn response_escapes_special_characters() {
    let roster = default_roster();
    let tricky = "al\"ice\\with\nnewline";
    let ev = event(&[("cognito:username", tricky)], GOOD_BODY);
    let mut store = MemoryStore::new();
    let resp = run_ride_request(&ev, &roster, 0, fixed_id(), "t0".to_string(), &mut store);
    assert_eq!(resp.status_code, 201);
    let json: serde_json::Value = serde_json::from_str(&resp.body).unwrap();
    assert_eq!(json["Rider"].as_str().unwrap(), tricky);
}

#[test]
fn car_new_sets_fields() {
    let c = Car::new("Bucephalus", "Golden", "Male");
    assert_eq!(c.name, "Bucephalus");
    assert_eq!(c.color, "Golden");
    assert_eq!(c.gender, "Male");
}

#[test]
fn error_labels() {
    assert_eq!(RideError::Authentication.label(), "AuthenticationError");
    assert_eq!(RideError::MalformedRequest.label(), "MalformedRequestError");
    assert_eq!(RideError::Storage.label(), "StorageError");
    assert_eq!(RideError::Configuration.label(), "ConfigurationError");
}
