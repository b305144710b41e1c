//! Unit tests for the request decoder: the claim lookup and the body
//! grammar.

use ride_service::errors::RideError;
use ride_service::json::{escape_json, str_eq};
use ride_service::request::{claim_value, decode_request, parse_ride_request, Claim, IncomingEvent};

fn claims(pairs: &[(&str, &str)]) -> Vec<Claim> {
    pairs
        .iter()
        .map(|(n, v)| Claim { name: n.to_string(), value: v.to_string() })
        .collect()
}

#[test]
fn parses_compact_body() {
    let req = parse_ride_request("{\"PickupLocation\":{\"Latitude\":47.6,\"Longtitude\":-122.3}}")
        .unwrap();
    assert_eq!(req.pickup.latitude, "47.6");
    assert_eq!(req.pickup.longitude, "-122.3");
}

#[test]
fn parses_body_with_whitespace() {
    let body = " {\n  \"PickupLocation\" : {\r\n\t\"Latitude\" : 47.6 ,\n \"Longtitude\" : -122.3 }\n } ";
    let req = parse_ride_request(body).unwrap();
    assert_eq!(req.pickup.latitude, "47.6");
    assert_eq!(req.pickup.longitude, "-122.3");
}

#[test]
fn parses_members_in_either_order() {
    let req = parse_ride_request("{\"PickupLocation\":{\"Longtitude\":-122.3,\"Latitude\":47.6}}")
        .unwrap();
    assert_eq!(req.pickup.latitude, "47.6");
    assert_eq!(req.pickup.longitude, "-122.3");
}

#[test]
fn accepts_number_shapes() {
    for (lat, lon) in [
        ("0", "-0"),
        ("1e10", "-1E-10"),
        ("47.6", "-122.3"),
        ("1.25E+2", "90"),
        ("-0.5", "0.0"),
    ] {
        let body = format!(
            "{{\"PickupLocation\":{{\"Latitude\":{},\"Longtitude\":{}}}}}",
            lat, lon
        );
        let req = parse_ride_request(&body)
            .unwrap_or_else(|_| panic!("should parse: {}", body));
        assert_eq!(req.pickup.latitude, lat);
        assert_eq!(req.pickup.longitude, lon);
    }
}

#[test]
fn rejects_bad_numbers() {
    for bad in ["01", ".5", "1.", "+1", "1e", "1e+", "--2", "4 7", "NaN", "\"4\""] {
        let body = format!(
            "{{\"PickupLocation\":{{\"Latitude\":{},\"Longtitude\":1}}}}",
            bad
        );
        assert!(
            parse_ride_request(&body).is_err(),
            "should reject latitude {}",
            bad
        );
    }
}

#[test]
fn rejects_malformed_bodies() {
    for bad in [
        "",
        "not json",
        "\"not an object\"",
        "{}",
        "{\"PickupLocation\":{}}",
        "{\"PickupLocation\":{\"Latitude\":47.6}}",
        "{\"PickupLocation\":{\"Latitude\":47.6,\"Latitude\":47.6}}",
        "{\"PickupLocation\":{\"Longtitude\":-1,\"Longtitude\":-1}}",
        "{\"PickupLocation\":{\"Latitude\":47.6,\"Longtitude\":-122.3}",
        "{\"PickupLocation\":{\"Latitude\":47.6,\"Longtitude\":-122.3}}}",
        "{\"PickupLocation\":{\"Latitude\":47.6,\"Longtitude\":-122.3}} x",
        "{\"pickupLocation\":{\"Latitude\":47.6,\"Longtitude\":-122.3}}",
        "{\"PickupLocation\":[47.6,-122.3]}",
    ] {
        match parse_ride_request(bad) {
            Err(RideError::MalformedRequest) => {},
            Err(e) => panic!("wrong error {:?} for {}", e, bad),
            Ok(_) => panic!("should reject {}", bad),
        }
    }
}

#[test]
fn claim_lookup_finds_first_match() {
    let cs = claims(&[("a", "1"), ("cognito:username", "dora"), ("cognito:username", "late")]);
    assert_eq!(claim_value(&cs, "cognito:username").unwrap(), "dora");
    assert_eq!(claim_value(&cs, "a").unwrap(), "1");
    assert!(claim_value(&cs, "missing").is_none());
    assert!(claim_value(&claims(&[]), "cognito:username").is_none());
}

#[test]
fn decode_order_checks_claim_before_body() {
    // Both the claim and the body are bad: the authentication failure wins.
    let ev = IncomingEvent { body: "not json".to_string(), claims: claims(&[]) };
    match decode_request(&ev) {
        Err(RideError::Authentication) => {},
        other => panic!("expected an authentication failure, got {:?}", other.is_ok()),
    }
}

#[test]
fn decode_passes_username_through() {
    let ev = IncomingEvent {
        body: "{\"PickupLocation\":{\"Latitude\":1,\"Longtitude\":2}}".to_string(),
        claims: claims(&[("cognito:username", "erin")]),
    };
    let d = decode_request(&ev).unwrap();
    assert_eq!(d.username, "erin");
    assert_eq!(d.request.pickup.latitude, "1");
    assert_eq!(d.request.pickup.longitude, "2");
}

#[test]
fn escaping_rewrites_specials() {
    assert_eq!(escape_json("plain"), "plain");
    assert_eq!(escape_json("a\"b"), "a\\\"b");
    assert_eq!(escape_json("a\\b"), "a\\\\b");
    assert_eq!(escape_json("a\nb\tc"), "a\\u000ab\\u0009c");
    assert_eq!(escape_json("\u{1}"), "\\u0001");
    assert_eq!(escape_json("\u{1f}"), "\\u001f");
}

#[test]
fn str_eq_compares_content() {
    assert!(str_eq("abc", "abc"));
    assert!(!str_eq("abc", "abd"));
    assert!(!str_eq("abc", "abcd"));
    assert!(str_eq("", ""));
}
