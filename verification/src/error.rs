//! The two error kinds used throughout translation.

use vstd::prelude::*;

verus! {

/// An error translating between the proxy event and the local request or
/// response. Both kinds carry a human-readable message; each failure is
/// reported for its own invocation only.
#[derive(Debug, PartialEq)]
pub enum RocketLambError {
    /// The incoming proxy event could not be turned into a local request.
    InvalidRequest(String),
    /// The local response could not be turned into a wire response.
    InvalidResponse(String),
}

impl RocketLambError {
    /// The full display form of the error: the kind's prefix, then the message.
    pub fn describe(&self) -> (r: String)
        ensures
            r@ == match *self {
                RocketLambError::InvalidRequest(ref m) => "could not transform request: "@ + m@,
                RocketLambError::InvalidResponse(ref m) => "could not transform response: "@ + m@,
            },
    {
        match self {
            RocketLambError::InvalidRequest(m) => {
                String::from_str("could not transform request: ").concat(m.as_str())
            },
            RocketLambError::InvalidResponse(m) => {
                String::from_str("could not transform response: ").concat(m.as_str())
            },
        }
    }
}

} // verus!
