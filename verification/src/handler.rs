//! The per-invocation pipeline: decode, select, build the record, and turn
//! the store write's outcome into the response.
//!
//! The durable-store write itself is the caller's step: the handler first
//! says whether a record is to be written (`RideOutcome`), and once the
//! write's outcome is known, `complete_ride` builds the response. No success
//! response exists before a successful write.

use vstd::prelude::*;

use crate::errors::RideError;
use crate::request::{decode_request, spec_decode, IncomingEvent};
use crate::respond::{
    error_response, spec_error_body_json, spec_response_body_json, spec_status_of,
    success_response, spec_cors_headers, Response,
};
use crate::ride::{current_time_label, is_ride_id, new_ride_id, RideRecord};
use crate::vehicle::Roster;

verus! {

/// What an invocation decides before any store interaction: reject with a
/// finished response, or persist the one record of this ride.
pub enum RideOutcome {
    Reject(Response),
    Persist(RideRecord),
}

/// A rejection carries the finished failure response for `e`.
pub open spec fn spec_rejects_with(r: RideOutcome, e: RideError) -> bool {
    &&& r matches RideOutcome::Reject(resp)
    &&& resp.status_code == spec_status_of(e)
    &&& resp.body@ == spec_error_body_json(e)
    &&& spec_cors_headers(resp.headers@)
}

/// Decode the event and, if it is well-formed, assemble the record for this
/// ride from the injected identifier, draw, and request time. On any decode
/// failure the outcome is a rejection and no record exists, so nothing can
/// reach the store.
pub fn plan_ride(
    event: &IncomingEvent,
    roster: &Roster,
    draw: usize,
    ride_id: String,
    timestamp: String,
) -> (r: RideOutcome)
    requires
        roster.wf(),
    ensures
        r is Persist <==> spec_decode(event.claims@, event.body@) is Ok,
        spec_decode(event.claims@, event.body@) matches Err(e) ==> spec_rejects_with(r, e),
        (r matches RideOutcome::Persist(rec) ==> {
            &&& spec_decode(event.claims@, event.body@) matches Ok(d) && rec@.username == d.0
            &&& rec@.ride_id == ride_id@
            &&& rec@.car == roster@[(draw as int) % (roster@.len() as int)]@
            &&& rec@.timestamp == timestamp@
        }),
{
    let decoded = match decode_request(event) {
        Result::Err(e) => {
            return RideOutcome::Reject(error_response(e));
        },
        Result::Ok(d) => d,
    };
    let car = roster.vehicle_at(draw);
    let record = RideRecord::new(ride_id, decoded.username, car, timestamp);
    RideOutcome::Persist(record)
}

/// The full front half of an invocation, drawing the randomness, the fresh
/// ride identifier, and the request time itself.
pub fn handle_ride_request(event: &IncomingEvent, roster: &Roster) -> (r: RideOutcome)
    requires
        roster.wf(),
    ensures
        r is Persist <==> spec_decode(event.claims@, event.body@) is Ok,
        spec_decode(event.claims@, event.body@) matches Err(e) ==> spec_rejects_with(r, e),
        (r matches RideOutcome::Persist(rec) ==> {
            &&& spec_decode(event.claims@, event.body@) matches Ok(d) && rec@.username == d.0
            &&& is_ride_id(rec@.ride_id)
            &&& exists|i: int| 0 <= i < roster@.len() && rec@.car == roster@[i]@
        }),
{
    let ride_id = new_ride_id();
    let timestamp = current_time_label();
    let draw = crate::vehicle::random_below(roster.len());
    let r = plan_ride(event, roster, draw, ride_id, timestamp);
    proof {
        let m = (draw as int) % (roster@.len() as int);
        assert(0 <= m < roster@.len());
    }
    r
}

/// Turn the store write's outcome into the response: 201 echoing the record
/// if and only if the write succeeded, a storage failure otherwise. The
/// record of a failed write is dropped here, never retried.
pub fn complete_ride(record: &RideRecord, write_ok: bool) -> (r: Response)
    ensures
        write_ok <==> r.status_code == 201,
        write_ok ==> r.body@ == spec_response_body_json(
            record@.ride_id,
            record@.car,
            record@.car.name,
            "30 seconds"@,
            record@.username,
        ),
        !write_ok ==> r.status_code == spec_status_of(RideError::Storage) && r.body@
            == spec_error_body_json(RideError::Storage),
        spec_cors_headers(r.headers@),
{
    if write_ok {
        success_response(record)
    } else {
        error_response(RideError::Storage)
    }
}

} // verus!
