//! A ride-request backend: decode an API-gateway event, authenticate the
//! caller by the identity claim the gateway verified, pick a vehicle from a
//! fixed roster, record the ride in a durable store, and build the response.
//!
//! The pipeline runs decoder ([`request`]), selector ([`vehicle`]), recorder
//! ([`ride`], [`store`]) in strict sequence per event; [`handler`] ties them
//! together and [`respond`] renders the outcome. A failure at any step is a
//! terminal, typed outcome ([`errors`]): nothing is written on a decode or
//! authentication failure, and no success response exists without a
//! successful write.

pub mod errors;
pub mod handler;
pub mod json;
pub mod request;
pub mod respond;
pub mod ride;
pub mod store;
pub mod vehicle;
