//! The outbound response: status codes, headers, and the JSON rendering of
//! success and failure payloads.

use vstd::prelude::*;

use crate::errors::RideError;
use crate::json::{escape_json, escape_seq};
use crate::ride::{RideRecord, RideResponse};
use crate::vehicle::CarView;

verus! {

/// One response header.
pub struct Header {
    pub name: String,
    pub value: String,
}

/// The response handed back to the gateway.
pub struct Response {
    pub status_code: u16,
    pub body: String,
    pub headers: Vec<Header>,
}

/// The status code each failure maps to: client-caused failures get 4xx,
/// server-caused ones 5xx.
pub open spec fn spec_status_of(e: RideError) -> int {
    match e {
        RideError::Authentication => 401,
        RideError::MalformedRequest => 400,
        RideError::Storage => 500,
        RideError::Configuration => 500,
    }
}

/// The JSON text of a success payload, field by field in the order the
/// response declares them.
pub open spec fn spec_response_body_json(
    ride_id: Seq<char>,
    car: CarView,
    car_name: Seq<char>,
    eta: Seq<char>,
    rider: Seq<char>,
) -> Seq<char> {
    "{\"RideId\":\""@ + escape_seq(ride_id) + "\",\"Car\":{\"Name\":\""@ + escape_seq(car.name)
        + "\",\"Color\":\""@ + escape_seq(car.color) + "\",\"Gender\":\""@ + escape_seq(car.gender)
        + "\"},\"CarName\":\""@ + escape_seq(car_name) + "\",\"Eta\":\""@ + escape_seq(eta)
        + "\",\"Rider\":\""@ + escape_seq(rider) + "\"}"@
}

/// The JSON text of a failure payload.
pub open spec fn spec_error_body_json(e: RideError) -> Seq<char> {
    "{\"Error\":\""@ + e.spec_label() + "\"}"@
}

/// A response carries exactly the one CORS header the gateway expects.
pub open spec fn spec_cors_headers(headers: Seq<Header>) -> bool {
    headers.len() == 1 && headers[0].name@ == "Access-Control-Allow-Origin"@
        && headers[0].value@ == "*"@
}

/// The one header every response carries.
fn cors_headers() -> (h: Vec<Header>)
    ensures
        spec_cors_headers(h@),
{
    let mut h: Vec<Header> = Vec::new();
    h.push(
        Header { name: "Access-Control-Allow-Origin".to_owned(), value: "*".to_owned() },
    );
    h
}

/// Render a success payload as JSON.
pub fn response_body_json(resp: &RideResponse) -> (r: String)
    ensures
        r@ == spec_response_body_json(
            resp.ride_id@,
            resp.car@,
            resp.car_name@,
            resp.eta@,
            resp.rider@,
        ),
{
    let mut out = String::new();
    out.append("{\"RideId\":\"");
    let p0 = escape_json(resp.ride_id.as_str());
    out.append(p0.as_str());
    out.append("\",\"Car\":{\"Name\":\"");
    let p1 = escape_json(resp.car.name.as_str());
    out.append(p1.as_str());
    out.append("\",\"Color\":\"");
    let p2 = escape_json(resp.car.color.as_str());
    out.append(p2.as_str());
    out.append("\",\"Gender\":\"");
    let p3 = escape_json(resp.car.gender.as_str());
    out.append(p3.as_str());
    out.append("\"},\"CarName\":\"");
    let p4 = escape_json(resp.car_name.as_str());
    out.append(p4.as_str());
    out.append("\",\"Eta\":\"");
    let p5 = escape_json(resp.eta.as_str());
    out.append(p5.as_str());
    out.append("\",\"Rider\":\"");
    let p6 = escape_json(resp.rider.as_str());
    out.append(p6.as_str());
    out.append("\"}");
    proof {
        assert(out@ =~= spec_response_body_json(
            resp.ride_id@,
            resp.car@,
            resp.car_name@,
            resp.eta@,
            resp.rider@,
        ));
    }
    out
}

/// The 201 response for a ride that was durably recorded: its body echoes
/// the record's identifier, vehicle, and rider.
pub fn success_response(record: &RideRecord) -> (r: Response)
    ensures
        r.status_code == 201,
        r.body@ == spec_response_body_json(
            record@.ride_id,
            record@.car,
            record@.car.name,
            "30 seconds"@,
            record@.username,
        ),
        spec_cors_headers(r.headers@),
{
    let payload = RideResponse::from_record(record);
    let body = response_body_json(&payload);
    Response { status_code: 201, body, headers: cors_headers() }
}

/// The non-2xx response for a failed invocation.
pub fn error_response(e: RideError) -> (r: Response)
    ensures
        r.status_code == spec_status_of(e),
        400 <= r.status_code < 600,
        r.body@ == spec_error_body_json(e),
        spec_cors_headers(r.headers@),
{
    let status: u16 = match e {
        RideError::Authentication => 401,
        RideError::MalformedRequest => 400,
        RideError::Storage => 500,
        RideError::Configuration => 500,
    };
    let mut body = String::new();
    body.append("{\"Error\":\"");
    body.append(e.label());
    body.append("\"}");
    proof {
        assert(body@ =~= spec_error_body_json(e));
    }
    Response { status_code: status, body, headers: cors_headers() }
}

} // verus!
