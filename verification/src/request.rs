//! The request decoder: the inbound event, the identity-claim lookup, and the
//! parser for the ride-request body.
//!
//! The body grammar is one JSON object with a single `PickupLocation` member,
//! itself an object with the number members `Latitude` and `Longtitude` (the
//! member names the service's clients send, spelling and all), in either
//! order, with JSON whitespace allowed between tokens.

use vstd::prelude::*;

use crate::errors::RideError;
use crate::json::{
    has_at, is_number_token, lemma_number_token_sub, lemma_skip_ws_bounds, match_lit, scan_number,
    skip_ws, spec_number_end, spec_skip_ws, str_eq, str_to_chars, copy_range,
};

verus! {

/// One name/value pair of the request context's claim map.
pub struct Claim {
    pub name: String,
    pub value: String,
}

/// The mathematical content of a claim.
pub ghost struct ClaimView {
    pub name: Seq<char>,
    pub value: Seq<char>,
}

impl View for Claim {
    type V = ClaimView;

    open spec fn view(&self) -> ClaimView {
        ClaimView { name: self.name@, value: self.value@ }
    }
}

/// The inbound event: an opaque body and the claim map that the gateway's
/// authorizer filled in.
pub struct IncomingEvent {
    pub body: String,
    pub claims: Vec<Claim>,
}

/// A pickup point, held as the two number tokens the client sent.
pub struct PickupLocation {
    pub latitude: String,
    pub longitude: String,
}

/// The mathematical content of a pickup point.
pub ghost struct PickupView {
    pub latitude: Seq<char>,
    pub longitude: Seq<char>,
}

impl View for PickupLocation {
    type V = PickupView;

    open spec fn view(&self) -> PickupView {
        PickupView { latitude: self.latitude@, longitude: self.longitude@ }
    }
}

/// The decoded form of the request body.
pub struct RideRequest {
    pub pickup: PickupLocation,
}

impl View for RideRequest {
    type V = PickupView;

    open spec fn view(&self) -> PickupView {
        self.pickup@
    }
}

/// The claim under which the authorizer records the caller's username.
pub open spec fn claim_key() -> Seq<char> {
    "cognito:username"@
}

/// The first value in `claims` recorded under `key`, if any.
pub open spec fn spec_claim_lookup(claims: Seq<Claim>, key: Seq<char>) -> Option<Seq<char>>
    decreases claims.len(),
{
    if claims.len() == 0 {
        Option::None
    } else if claims[0]@.name == key {
        Option::Some(claims[0]@.value)
    } else {
        spec_claim_lookup(claims.drop_first(), key)
    }
}

/// One member of the pickup object at index `i`: which of the two member
/// names it carries (`true` for `Latitude`), its number token, and the index
/// just past the token.
pub open spec fn spec_parse_member(s: Seq<char>, i: int) -> Option<(bool, Seq<char>, int)> {
    let lat = has_at(s, i, "\"Latitude\""@);
    let lon = has_at(s, i, "\"Longtitude\""@);
    if !lat && !lon {
        Option::None
    } else {
        let key_len: int = if lat {
            "\"Latitude\""@.len() as int
        } else {
            "\"Longtitude\""@.len() as int
        };
        let k = spec_skip_ws(s, i + key_len);
        if !(k < s.len() && s[k] == ':') {
            Option::None
        } else {
            let m = spec_skip_ws(s, k + 1);
            match spec_number_end(s, m) {
                Option::None => Option::None,
                Option::Some(e) => Option::Some((lat, s.subrange(m, e), e)),
            }
        }
    }
}

/// The pickup object at index `i`: its latitude token, its longitude token,
/// and the index just past its closing brace.
pub open spec fn spec_parse_location(s: Seq<char>, i: int) -> Option<(Seq<char>, Seq<char>, int)> {
    if !(0 <= i && i < s.len() && s[i] == '{') {
        Option::None
    } else {
        let j0 = spec_skip_ws(s, i + 1);
        match spec_parse_member(s, j0) {
            Option::None => Option::None,
            Option::Some((first_lat, tok1, e1)) => {
                let w = spec_skip_ws(s, e1);
                if !(w < s.len() && s[w] == ',') {
                    Option::None
                } else {
                    let w2 = spec_skip_ws(s, w + 1);
                    match spec_parse_member(s, w2) {
                        Option::None => Option::None,
                        Option::Some((second_lat, tok2, e2)) => {
                            if first_lat == second_lat {
                                Option::None
                            } else {
                                let w3 = spec_skip_ws(s, e2);
                                if !(w3 < s.len() && s[w3] == '}') {
                                    Option::None
                                } else if first_lat {
                                    Option::Some((tok1, tok2, w3 + 1))
                                } else {
                                    Option::Some((tok2, tok1, w3 + 1))
                                }
                            }
                        },
                    }
                }
            },
        }
    }
}

/// The whole request body: a single-member object wrapping the pickup
/// object, with nothing but whitespace before or after.
pub open spec fn spec_parse_body(s: Seq<char>) -> Option<PickupView> {
    let i0 = spec_skip_ws(s, 0);
    if !(i0 < s.len() && s[i0] == '{') {
        Option::None
    } else {
        let i1 = spec_skip_ws(s, i0 + 1);
        if !has_at(s, i1, "\"PickupLocation\""@) {
            Option::None
        } else {
            let i2 = spec_skip_ws(s, i1 + "\"PickupLocation\""@.len());
            if !(i2 < s.len() && s[i2] == ':') {
                Option::None
            } else {
                let i3 = spec_skip_ws(s, i2 + 1);
                match spec_parse_location(s, i3) {
                    Option::None => Option::None,
                    Option::Some((lat, lon, j)) => {
                        let i4 = spec_skip_ws(s, j);
                        if !(i4 < s.len() && s[i4] == '}') {
                            Option::None
                        } else {
                            let i5 = spec_skip_ws(s, i4 + 1);
                            if i5 == s.len() {
                                Option::Some(PickupView { latitude: lat, longitude: lon })
                            } else {
                                Option::None
                            }
                        }
                    },
                }
            }
        }
    }
}

/// The number token of an accepted pickup member is a whole JSON number.
pub proof fn lemma_member_token_is_number(s: Seq<char>, i: int)
    requires
        0 <= i <= s.len(),
        spec_parse_member(s, i) is Some,
    ensures
        is_number_token(spec_parse_member(s, i)->Some_0.1),
{
    let lat = has_at(s, i, "\"Latitude\""@);
    let key_len: int = if lat {
        "\"Latitude\""@.len() as int
    } else {
        "\"Longtitude\""@.len() as int
    };
    lemma_skip_ws_bounds(s, i + key_len);
    let k = spec_skip_ws(s, i + key_len);
    lemma_skip_ws_bounds(s, k + 1);
    let m = spec_skip_ws(s, k + 1);
    let e = spec_number_end(s, m)->Some_0;
    lemma_number_token_sub(s, m, e);
}

/// What an accepted pickup object carries as its latitude and longitude are
/// whole JSON numbers.
pub proof fn lemma_location_tokens_are_numbers(s: Seq<char>, i: int)
    requires
        0 <= i <= s.len(),
        spec_parse_location(s, i) is Some,
    ensures
        is_number_token(spec_parse_location(s, i)->Some_0.0),
        is_number_token(spec_parse_location(s, i)->Some_0.1),
{
    lemma_skip_ws_bounds(s, i + 1);
    let j0 = spec_skip_ws(s, i + 1);
    lemma_member_token_is_number(s, j0);
    let e1 = spec_parse_member(s, j0)->Some_0.2;
    lemma_member_end_bounds(s, j0);
    lemma_skip_ws_bounds(s, e1);
    let w = spec_skip_ws(s, e1);
    lemma_skip_ws_bounds(s, w + 1);
    let w2 = spec_skip_ws(s, w + 1);
    lemma_member_token_is_number(s, w2);
}

/// An accepted member ends within the text.
proof fn lemma_member_end_bounds(s: Seq<char>, i: int)
    requires
        0 <= i <= s.len(),
        spec_parse_member(s, i) is Some,
    ensures
        0 <= spec_parse_member(s, i)->Some_0.2 <= s.len(),
{
    let lat = has_at(s, i, "\"Latitude\""@);
    let key_len: int = if lat {
        "\"Latitude\""@.len() as int
    } else {
        "\"Longtitude\""@.len() as int
    };
    lemma_skip_ws_bounds(s, i + key_len);
    let k = spec_skip_ws(s, i + key_len);
    lemma_skip_ws_bounds(s, k + 1);
    let m = spec_skip_ws(s, k + 1);
    let e = spec_number_end(s, m)->Some_0;
    lemma_number_token_sub(s, m, e);
}

/// What a decoded body carries as its latitude and longitude are whole JSON
/// numbers: the decoder validates the coordinates, not just the framing.
pub proof fn lemma_parsed_tokens_are_numbers(s: Seq<char>)
    requires
        spec_parse_body(s) is Some,
    ensures
        is_number_token(spec_parse_body(s)->Some_0.latitude),
        is_number_token(spec_parse_body(s)->Some_0.longitude),
{
    lemma_skip_ws_bounds(s, 0);
    let i0 = spec_skip_ws(s, 0);
    lemma_skip_ws_bounds(s, i0 + 1);
    let i1 = spec_skip_ws(s, i0 + 1);
    lemma_skip_ws_bounds(s, i1 + "\"PickupLocation\""@.len());
    let i2 = spec_skip_ws(s, i1 + "\"PickupLocation\""@.len());
    lemma_skip_ws_bounds(s, i2 + 1);
    let i3 = spec_skip_ws(s, i2 + 1);
    lemma_location_tokens_are_numbers(s, i3);
}

/// What the decoder as a whole yields: the caller's username and the pickup,
/// or the first failure in claim-lookup-then-parse order.
pub open spec fn spec_decode(claims: Seq<Claim>, body: Seq<char>) -> Result<
    (Seq<char>, PickupView),
    RideError,
> {
    match spec_claim_lookup(claims, claim_key()) {
        Option::None => Result::Err(RideError::Authentication),
        Option::Some(u) => match spec_parse_body(body) {
            Option::None => Result::Err(RideError::MalformedRequest),
            Option::Some(p) => Result::Ok((u, p)),
        },
    }
}

/// The first value recorded in `claims` under `key`, if any.
pub fn claim_value(claims: &Vec<Claim>, key: &str) -> (r: Option<String>)
    ensures
        match r {
            Option::Some(v) => spec_claim_lookup(claims@, key@) == Option::Some(v@),
            Option::None => spec_claim_lookup(claims@, key@) is None,
        },
{
    let n = claims.len();
    proof {
        assert(claims@.skip(0) =~= claims@);
    }
    let mut k: usize = 0;
    while k < n
        invariant
            0 <= k <= n,
            n == claims@.len(),
            spec_claim_lookup(claims@, key@) == spec_claim_lookup(claims@.skip(k as int), key@),
        decreases n - k,
    {
        proof {
            assert(claims@.skip(k as int)[0] == claims@[k as int]);
            assert(claims@.skip(k as int).drop_first() =~= claims@.skip(k + 1));
        }
        if str_eq(claims[k].name.as_str(), key) {
            return Option::Some(claims[k].value.clone());
        }
        k = k + 1;
    }
    Option::None
}

/// One member of the pickup object, as `spec_parse_member` reads it.
fn parse_member(v: &Vec<char>, i: usize) -> (r: Option<(bool, String, usize)>)
    requires
        i <= v@.len(),
    ensures
        match r {
            Option::Some(t) => spec_parse_member(v@, i as int) == Option::Some(
                (t.0, t.1@, t.2 as int),
            ) && t.2 <= v@.len(),
            Option::None => spec_parse_member(v@, i as int) is None,
        },
{
    let lat = match_lit(v, i, "\"Latitude\"");
    let lon = match_lit(v, i, "\"Longtitude\"");
    if !lat && !lon {
        return Option::None;
    }
    let key_len: usize = if lat {
        "\"Latitude\"".unicode_len()
    } else {
        "\"Longtitude\"".unicode_len()
    };
    let vlen = v.len();
    assert(i + key_len <= vlen);
    let k = skip_ws(v, i + key_len);
    if !(k < v.len() && v[k] == ':') {
        return Option::None;
    }
    let m = skip_ws(v, k + 1);
    match scan_number(v, m) {
        Option::None => Option::None,
        Option::Some(e) => {
            let tok = copy_range(v, m, e);
            Option::Some((lat, tok, e))
        },
    }
}

/// The pickup object, as `spec_parse_location` reads it.
fn parse_location(v: &Vec<char>, i: usize) -> (r: Option<(String, String, usize)>)
    requires
        i <= v@.len(),
    ensures
        match r {
            Option::Some(t) => spec_parse_location(v@, i as int) == Option::Some(
                (t.0@, t.1@, t.2 as int),
            ) && t.2 <= v@.len(),
            Option::None => spec_parse_location(v@, i as int) is None,
        },
{
    if !(i < v.len() && v[i] == '{') {
        return Option::None;
    }
    let j0 = skip_ws(v, i + 1);
    let first = match parse_member(v, j0) {
        Option::None => {
            return Option::None;
        },
        Option::Some(t) => t,
    };
    let w = skip_ws(v, first.2);
    if !(w < v.len() && v[w] == ',') {
        return Option::None;
    }
    let w2 = skip_ws(v, w + 1);
    let second = match parse_member(v, w2) {
        Option::None => {
            return Option::None;
        },
        Option::Some(t) => t,
    };
    if first.0 == second.0 {
        return Option::None;
    }
    let w3 = skip_ws(v, second.2);
    if !(w3 < v.len() && v[w3] == '}') {
        return Option::None;
    }
    if first.0 {
        Option::Some((first.1, second.1, w3 + 1))
    } else {
        Option::Some((second.1, first.1, w3 + 1))
    }
}

/// Parse the request body; `MalformedRequest` on any input outside the body
/// grammar.
pub fn parse_ride_request(body: &str) -> (r: Result<RideRequest, RideError>)
    ensures
        r is Ok <==> spec_parse_body(body@) is Some,
        r matches Ok(req) ==> spec_parse_body(body@) == Option::Some(req@),
        r matches Ok(req) ==> is_number_token(req@.latitude) && is_number_token(req@.longitude),
        r matches Err(e) ==> e == RideError::MalformedRequest,
{
    let v = str_to_chars(body);
    let i0 = skip_ws(&v, 0);
    if !(i0 < v.len() && v[i0] == '{') {
        return Result::Err(RideError::MalformedRequest);
    }
    let i1 = skip_ws(&v, i0 + 1);
    if !match_lit(&v, i1, "\"PickupLocation\"") {
        return Result::Err(RideError::MalformedRequest);
    }
    let i2 = skip_ws(&v, i1 + "\"PickupLocation\"".unicode_len());
    if !(i2 < v.len() && v[i2] == ':') {
        return Result::Err(RideError::MalformedRequest);
    }
    let i3 = skip_ws(&v, i2 + 1);
    let loc = match parse_location(&v, i3) {
        Option::None => {
            return Result::Err(RideError::MalformedRequest);
        },
        Option::Some(t) => t,
    };
    let i4 = skip_ws(&v, loc.2);
    if !(i4 < v.len() && v[i4] == '}') {
        return Result::Err(RideError::MalformedRequest);
    }
    let i5 = skip_ws(&v, i4 + 1);
    if i5 != v.len() {
        return Result::Err(RideError::MalformedRequest);
    }
    proof {
        lemma_parsed_tokens_are_numbers(body@);
    }
    Result::Ok(RideRequest { pickup: PickupLocation { latitude: loc.0, longitude: loc.1 } })
}

/// The decoded event: the authenticated caller and the parsed request.
pub struct Decoded {
    pub username: String,
    pub request: RideRequest,
}

/// Decode an inbound event: look up the identity claim, then parse the body.
pub fn decode_request(event: &IncomingEvent) -> (r: Result<Decoded, RideError>)
    ensures
        r is Ok <==> spec_decode(event.claims@, event.body@) is Ok,
        r matches Ok(d) ==> spec_decode(event.claims@, event.body@) == Result::<
            (Seq<char>, PickupView),
            RideError,
        >::Ok((d.username@, d.request@)),
        r matches Err(e) ==> spec_decode(event.claims@, event.body@) == Result::<
            (Seq<char>, PickupView),
            RideError,
        >::Err(e),
{
    let username = match claim_value(&event.claims, "cognito:username") {
        Option::None => {
            return Result::Err(RideError::Authentication);
        },
        Option::Some(u) => u,
    };
    match parse_ride_request(event.body.as_str()) {
        Result::Err(e) => Result::Err(e),
        Result::Ok(req) => Result::Ok(Decoded { username, request: req }),
    }
}

} // verus!
