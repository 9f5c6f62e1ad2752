//! The messages exchanged with callers and between the two services.

use vstd::prelude::*;

verus! {

/// A unit of work as a caller submits it.
#[derive(Clone, Debug, PartialEq)]
pub struct ProcessRequest {
    pub id: String,
    pub payload: String,
}

/// The caller-visible outcome: `status` is `success` or `error`.
#[derive(Clone, Debug, PartialEq)]
pub struct ProcessResponse {
    pub id: String,
    pub status: String,
    pub message: String,
}

/// The unit of work as forwarded to the executor.
#[derive(Clone, Debug, PartialEq)]
pub struct WorkerRequest {
    pub id: String,
    pub payload: String,
}

/// The executor's report.
#[derive(Clone, Debug, PartialEq)]
pub struct WorkerResponse {
    pub success: bool,
    pub message: String,
}

} // verus!
