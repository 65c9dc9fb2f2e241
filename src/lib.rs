//! A serialising mediator for inspect calls: many callers submit query
//! payloads, a bounded FIFO queue holds them, and a single worker serves them
//! one at a time against the remote server manager.
//!
//! The library is free of I/O: it decides, and the caller performs the
//! connection, the remote call and the write into each response slot.

mod error;
mod queue;
mod response;
mod session;

pub use error::InspectError;
pub use queue::{InspectQueue, InspectRequest, Next, Phase};
pub use response::{CompletionStatus, InspectStateResponse, Report};
pub use session::{InspectServerConfig, OutboundCall};
