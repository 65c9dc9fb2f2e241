use vstd::prelude::*;

verus! {

/// How the remote machine finished processing the query.
#[derive(Clone, Copy, Debug, PartialEq, Eq)]
pub enum CompletionStatus {
    Accepted,
    Rejected,
    Exception,
    MachineHalted,
    CycleLimitExceeded,
    TimeLimitExceeded,
    PayloadLengthLimitExceeded,
}

/// One report emitted by the remote machine; its bytes are never interpreted here.
#[derive(Clone, Debug, PartialEq, Eq)]
pub struct Report {
    pub payload: Vec<u8>,
}

/// The reply of the remote service to one inspect call.
#[derive(Clone, Debug, PartialEq, Eq)]
pub struct InspectStateResponse {
    pub status: CompletionStatus,
    pub reports: Vec<Report>,
}

} // verus!
