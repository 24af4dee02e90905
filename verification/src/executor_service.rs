//! The batch-execution service.
//!
//! Every method of this service is unimplemented: each call returns the
//! distinct "not implemented" fault rather than hanging, crashing or
//! silently succeeding.

use crate::hashdb_service::ServiceFault;
use vstd::prelude::*;

verus! {

/// One call into the batch-execution service, one variant per method.
pub enum ExecutorRequest {
    ProcessBatch,
    ProcessBatchV2,
    GetFlushStatus,
}

/// The batch-execution service. It implements nothing.
pub struct SP1ExecutorService {}

impl SP1ExecutorService {
    pub fn new() -> SP1ExecutorService {
        SP1ExecutorService {  }
    }

    /// Answer one service call: every method faults as unimplemented.
    pub fn handle_call(&self, call: ExecutorRequest) -> (r: Result<(), ServiceFault>)
        ensures
            r matches Err(f) && f is Unimplemented,
    {
        match call {
            ExecutorRequest::ProcessBatch => Result::Err(ServiceFault::Unimplemented),
            ExecutorRequest::ProcessBatchV2 => Result::Err(ServiceFault::Unimplemented),
            ExecutorRequest::GetFlushStatus => Result::Err(ServiceFault::Unimplemented),
        }
    }
}

} // verus!
