//! The ride recorder's data: ride-identifier generation, the ride record,
//! and the response view derived from it.

use vstd::prelude::*;

use crate::json::{digit_char, is_hex_lower_char};
use crate::vehicle::{Car, CarView};

verus! {

/// What position `i` of a hyphenated version-4 identifier may hold.
pub open spec fn uuid_char_ok(s: Seq<char>, i: int) -> bool {
    if i == 8 || i == 13 || i == 18 || i == 23 {
        s[i] == '-'
    } else if i == 14 {
        s[i] == '4'
    } else if i == 19 {
        s[i] == '8' || s[i] == '9' || s[i] == 'a' || s[i] == 'b'
    } else {
        is_hex_lower_char(s[i])
    }
}

/// A well-formed ride identifier: the 36-character lower-case hyphenated
/// form of a version-4 UUID.
pub open spec fn is_ride_id(s: Seq<char>) -> bool {
    s.len() == 36 && forall|i: int| 0 <= i < 36 ==> #[trigger] uuid_char_ok(s, i)
}

/// True when `s` is a well-formed ride identifier.
pub fn ride_id_well_formed(s: &str) -> (b: bool)
    ensures
        b == is_ride_id(s@),
{
    let n = s.unicode_len();
    if n != 36 {
        return false;
    }
    let mut k: usize = 0;
    while k < 36
        invariant
            0 <= k <= 36,
            s@.len() == 36,
            forall|i: int| 0 <= i < k ==> #[trigger] uuid_char_ok(s@, i),
        decreases 36 - k,
    {
        let c = s.get_char(k);
        let u = c as u32;
        let ok: bool = if k == 8 || k == 13 || k == 18 || k == 23 {
            c == '-'
        } else if k == 14 {
            c == '4'
        } else if k == 19 {
            c == '8' || c == '9' || c == 'a' || c == 'b'
        } else {
            digit_char(c) || (97 <= u && u <= 102)
        };
        if !ok {
            assert(!uuid_char_ok(s@, k as int));
            return false;
        }
        assert(uuid_char_ok(s@, k as int));
        k = k + 1;
    }
    true
}

/// Relies on `uuid::Uuid::new_v4` and its `Display`: a fresh random UUID,
/// rendered in the 36-character lower-case hyphenated form, with the version
/// nibble `4` and an RFC-4122 variant nibble; `new_v4` fixes those bits and
/// `Display` renders lower-case hexadecimal with hyphens at 8, 13, 18, 23.
#[verifier::external_body]
pub(crate) fn new_ride_id() -> (r: String)
    ensures
        is_ride_id(r@),
{
    uuid::Uuid::new_v4().to_string()
}

/// Relies on `chrono::Utc::now` and `to_rfc3339`: the wall-clock time as
/// text; nothing is assumed of its value.
#[verifier::external_body]
pub(crate) fn current_time_label() -> String {
    chrono::Utc::now().to_rfc3339()
}

/// The record of one ride, written exactly once to the durable store and
/// never updated.
pub struct RideRecord {
    pub ride_id: String,
    pub username: String,
    pub car: Car,
    pub timestamp: String,
}

/// The mathematical content of a ride record.
pub ghost struct RideRecordView {
    pub ride_id: Seq<char>,
    pub username: Seq<char>,
    pub car: CarView,
    pub timestamp: Seq<char>,
}

impl View for RideRecord {
    type V = RideRecordView;

    open spec fn view(&self) -> RideRecordView {
        RideRecordView {
            ride_id: self.ride_id@,
            username: self.username@,
            car: self.car@,
            timestamp: self.timestamp@,
        }
    }
}

impl RideRecord {
    /// Assemble the record for one ride from the identifier generated for
    /// it, the authenticated caller, the selected vehicle, and the request
    /// time.
    pub fn new(ride_id: String, username: String, car: Car, timestamp: String) -> (r: Self)
        ensures
            r@.ride_id == ride_id@,
            r@.username == username@,
            r@.car == car@,
            r@.timestamp == timestamp@,
    {
        RideRecord { ride_id, username, car, timestamp }
    }
}

/// The response payload of a successful ride: a view of the record plus the
/// fixed arrival estimate.
pub struct RideResponse {
    pub ride_id: String,
    pub car: Car,
    pub car_name: String,
    pub eta: String,
    pub rider: String,
}

impl RideResponse {
    /// Build the outbound payload for a recorded ride: the same identifier
    /// and vehicle that were written, the vehicle's name duplicated, the
    /// caller, and a fixed arrival estimate.
    pub fn from_record(record: &RideRecord) -> (r: Self)
        ensures
            r.ride_id@ == record@.ride_id,
            r.car@ == record@.car,
            r.car_name@ == record@.car.name,
            r.eta@ == "30 seconds"@,
            r.rider@ == record@.username,
    {
        RideResponse {
            ride_id: record.ride_id.clone(),
            car: record.car.duplicate(),
            car_name: record.car.name.clone(),
            eta: "30 seconds".to_owned(),
            rider: record.username.clone(),
        }
    }
}

} // verus!
