//! The error taxonomy of the ride pipeline.

use vstd::prelude::*;

verus! {

/// Why a ride invocation (or the service's startup) failed.
///
/// - `Authentication`: the required identity claim was absent from the
///   request context (client-class).
/// - `MalformedRequest`: the request body was not a well-formed ride request
///   (client-class).
/// - `Storage`: the durable-store write failed (server-class).
/// - `Configuration`: the service was configured with an empty vehicle
///   roster; raised at startup, never per request.
#[derive(Clone, Copy, PartialEq, Eq, Structural, Debug)]
pub enum RideError {
    Authentication,
    MalformedRequest,
    Storage,
    Configuration,
}

impl RideError {
    /// A short descriptive label for the error, used in failure responses.
    pub fn label(&self) -> (r: &'static str)
        ensures
            r@ == self.spec_label(),
    {
        match self {
            RideError::Authentication => "AuthenticationError",
            RideError::MalformedRequest => "MalformedRequestError",
            RideError::Storage => "StorageError",
            RideError::Configuration => "ConfigurationError",
        }
    }

    /// What `label` returns for each variant.
    pub open spec fn spec_label(&self) -> Seq<char> {
        match self {
            RideError::Authentication => "AuthenticationError"@,
            RideError::MalformedRequest => "MalformedRequestError"@,
            RideError::Storage => "StorageError"@,
            RideError::Configuration => "ConfigurationError"@,
        }
    }
}

} // verus!
