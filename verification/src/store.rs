//! An in-memory stand-in for the durable store, and the pipeline run against
//! it from decode to response.
//!
//! The production store is an outside collaborator the hosting process talks
//! to; this one exists so that the whole write-then-respond sequence can be
//! stated and exercised: its `available` switch models a transient storage
//! fault.

use vstd::prelude::*;

use crate::errors::RideError;
use crate::handler::{complete_ride, plan_ride, RideOutcome};
use crate::request::{spec_decode, IncomingEvent};
use crate::respond::{
    spec_cors_headers, spec_error_body_json, spec_response_body_json, spec_status_of, Response,
};
use crate::ride::RideRecord;
use crate::vehicle::Roster;

verus! {

/// A put-record store backed by a vector. While `available` is false every
/// put fails, as a store under a transient fault would, and nothing is
/// written.
pub struct MemoryStore {
    pub records: Vec<RideRecord>,
    pub available: bool,
}

impl MemoryStore {
    /// An empty, available store.
    pub fn new() -> (s: Self)
        ensures
            s.records@ =~= Seq::<RideRecord>::empty(),
            s.available,
    {
        MemoryStore { records: Vec::new(), available: true }
    }

    /// One unconditional put: appends the record, or fails without writing.
    pub fn put_record(&mut self, record: RideRecord) -> (r: Result<(), RideError>)
        ensures
            old(self).available ==> r is Ok && final(self).records@ == old(self).records@.push(
                record,
            ),
            !old(self).available ==> (r matches Err(e) && e == RideError::Storage)
                && final(self).records@ == old(self).records@,
            final(self).available == old(self).available,
    {
        if self.available {
            self.records.push(record);
            Result::Ok(())
        } else {
            Result::Err(RideError::Storage)
        }
    }
}

/// One whole invocation against a store: decode the event, select the
/// vehicle for the draw, write the one record of this ride, and respond.
///
/// The contract carries the pipeline's laws:
/// - a decode or authentication failure leaves the store untouched;
/// - a successful invocation writes exactly one record, and the response
///   echoes that record's identifier, vehicle, and rider;
/// - a store failure writes nothing and yields no 2xx response: the status
///   is 201 exactly when the event decoded and the write succeeded.
pub fn run_ride_request(
    event: &IncomingEvent,
    roster: &Roster,
    draw: usize,
    ride_id: String,
    timestamp: String,
    store: &mut MemoryStore,
) -> (resp: Response)
    requires
        roster.wf(),
    ensures
        spec_decode(event.claims@, event.body@) matches Err(e) ==> resp.status_code
            == spec_status_of(e) && resp.body@ == spec_error_body_json(e) && *final(store)
            == *old(store),
        (spec_decode(event.claims@, event.body@) matches Ok(d) ==> old(store).available ==> {
            let rec = final(store).records@.last();
            &&& final(store).records@ == old(store).records@.push(rec)
            &&& rec@.ride_id == ride_id@
            &&& rec@.username == d.0
            &&& rec@.car == roster@[(draw as int) % (roster@.len() as int)]@
            &&& rec@.timestamp == timestamp@
            &&& resp.status_code == 201
            &&& resp.body@ == spec_response_body_json(
                rec@.ride_id,
                rec@.car,
                rec@.car.name,
                "30 seconds"@,
                rec@.username,
            )
        }),
        spec_decode(event.claims@, event.body@) is Ok && !old(store).available ==> resp.status_code
            == spec_status_of(RideError::Storage) && resp.body@ == spec_error_body_json(
            RideError::Storage,
        ) && final(store).records@ == old(store).records@,
        resp.status_code == 201 <==> (spec_decode(event.claims@, event.body@) is Ok
            && old(store).available),
        final(store).available == old(store).available,
        spec_cors_headers(resp.headers@),
{
    match plan_ride(event, roster, draw, ride_id, timestamp) {
        RideOutcome::Reject(resp) => resp,
        RideOutcome::Persist(record) => {
            let dup = duplicate_record(&record);
            let wrote = store.put_record(record);
            complete_ride(&dup, wrote.is_ok())
        },
    }
}

/// An owned copy of a record with the same content.
fn duplicate_record(r: &RideRecord) -> (d: RideRecord)
    ensures
        d@ == r@,
{
    RideRecord {
        ride_id: r.ride_id.clone(),
        username: r.username.clone(),
        car: r.car.duplicate(),
        timestamp: r.timestamp.clone(),
    }
}

} // verus!
