use vstd::prelude::*;

verus! {

/// Why an inspect request did not produce a report.
#[derive(Clone, Debug, PartialEq, Eq)]
pub enum InspectError {
    /// The queue held as many unserved requests as it can take.
    Overloaded,
    /// The queue was closed: no worker will serve the request.
    Closed,
    /// The remote service could not be reached for this request.
    ConnectionFailed { message: String },
    /// The remote service was reached, but the call failed.
    CallFailed { message: String },
}

} // verus!
