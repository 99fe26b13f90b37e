//! The closed set of failure kinds a client call can surface.
//!
//! No failure is recovered or retried inside the library: every remote call
//! either returns its decoded value or one of these kinds, and callers match
//! on the kind to pick their own policy.

use vstd::prelude::*;

verus! {

/// A failure surfaced by a client call.
#[derive(Debug)]
pub enum Error {
    /// The transport failed: the bus connection was lost, the remote side
    /// rejected the call, or the reply was malformed. Carries the transport's
    /// own description.
    Transport(String),
    /// The operation is intentionally not implemented.
    UnsupportedMethod,
    /// The remote device is of a kind this client does not model.
    UnsupportedDevice,
    /// The remote returned a numeric code outside the known enumeration.
    /// Surfacing this (rather than guessing a variant) lets callers detect
    /// protocol drift when the service adds new enumeration members.
    UnsupportedType,
    /// The remote interface declares no default service name and none was
    /// supplied, so no proxy could be resolved. Distinct from a call that
    /// reached the remote object and failed there.
    MissingDestination,
}

impl Clone for Error {
    fn clone(&self) -> (r: Self)
        ensures
            match self {
                Error::Transport(s) => r matches Error::Transport(c) && c@ == s@,
                Error::UnsupportedMethod => r is UnsupportedMethod,
                Error::UnsupportedDevice => r is UnsupportedDevice,
                Error::UnsupportedType => r is UnsupportedType,
                Error::MissingDestination => r is MissingDestination,
            },
    {
        match self {
            Error::Transport(s) => Error::Transport(s.clone()),
            Error::UnsupportedMethod => Error::UnsupportedMethod,
            Error::UnsupportedDevice => Error::UnsupportedDevice,
            Error::UnsupportedType => Error::UnsupportedType,
            Error::MissingDestination => Error::MissingDestination,
        }
    }
}

impl Error {
    /// A short description of the failure kind.
    pub fn message(&self) -> (m: &str)
        ensures
            match self {
                Error::Transport(s) => m@ == s@,
                Error::UnsupportedMethod => m@ == "unsupported method"@,
                Error::UnsupportedDevice => m@ == "unsupported device"@,
                Error::UnsupportedType => m@ == "unsupported type"@,
                Error::MissingDestination => m@ == "missing destination"@,
            },
    {
        match self {
            Error::Transport(s) => s.as_str(),
            Error::UnsupportedMethod => "unsupported method",
            Error::UnsupportedDevice => "unsupported device",
            Error::UnsupportedType => "unsupported type",
            Error::MissingDestination => "missing destination",
        }
    }
}

} // verus!
