//! The key-value state service.
//!
//! Nearly every method of this service is unimplemented and faults; the
//! exceptions are the node-write method, which returns one fixed all-zero
//! response whatever the input, and the block-start lifecycle method, which
//! acknowledges unconditionally with no payload.

use vstd::prelude::*;

verus! {

/// A field-element quadruple, the service's word for roots and keys.
#[derive(Clone, Copy, Debug, PartialEq, Eq, Structural)]
pub struct Fea {
    pub fe0: u64,
    pub fe1: u64,
    pub fe2: u64,
    pub fe3: u64,
}

/// The sibling nodes recorded along one tree path.
pub struct SiblingList {
    pub sibling: Vec<u64>,
}

/// Parameters of a node write. The service ignores them all.
pub struct SetRequest {
    pub old_root: Option<Fea>,
    pub key: Option<Fea>,
    pub value: String,
    pub details: bool,
    pub persistent: bool,
    pub get_db_read_log: bool,
}

/// Reply to a node write.
pub struct SetResponse {
    pub old_root: Option<Fea>,
    pub new_root: Option<Fea>,
    pub key: Option<Fea>,
    pub siblings: Vec<(u64, SiblingList)>,
    pub ins_key: Option<Fea>,
    pub ins_value: String,
    pub is_old0: bool,
    pub old_value: String,
    pub new_value: String,
    pub mode: String,
    pub proof_hash_counter: u64,
    pub db_read_log: Vec<(String, Fea)>,
    pub result: Option<u64>,
    pub sibling_left_child: Option<Fea>,
    pub sibling_right_child: Option<Fea>,
}

/// The fault an unimplemented service method returns.
#[derive(Clone, Copy, Debug, PartialEq, Eq, Structural)]
pub enum ServiceFault {
    Unimplemented,
}

/// One call into the state service, one variant per method.
pub enum HashDbRequest {
    GetLatestStateRoot,
    SetNode(SetRequest),
    Get,
    SetProgram,
    GetProgram,
    LoadDb,
    LoadProgramDb,
    FinishTx,
    StartBlock,
    FinishBlock,
    Flush,
    GetFlushStatus,
    GetFlushData,
    ConsolidateState,
    Purge,
    ReadTree,
    CancelBatch,
    ResetDb,
}

/// What a state-service call may answer: the node-write reply, or the
/// empty acknowledgment of a lifecycle method.
pub enum HashDbReply {
    SetNode(SetResponse),
    Empty,
}

/// The one reply the node-write method ever gives: every field zero,
/// empty or absent, except a present all-zero new root.
pub open spec fn set_response_zeroed(r: SetResponse) -> bool {
    &&& r.old_root is None
    &&& r.new_root matches Some(fea) && fea.fe0 == 0 && fea.fe1 == 0 && fea.fe2 == 0 && fea.fe3
        == 0
    &&& r.key is None
    &&& r.siblings@.len() == 0
    &&& r.ins_key is None
    &&& r.ins_value@.len() == 0
    &&& r.is_old0 == false
    &&& r.old_value@.len() == 0
    &&& r.new_value@.len() == 0
    &&& r.mode@.len() == 0
    &&& r.proof_hash_counter == 0
    &&& r.db_read_log@.len() == 0
    &&& r.result is None
    &&& r.sibling_left_child is None
    &&& r.sibling_right_child is None
}

/// Build the fixed node-write reply. The request plays no part: every
/// input earns the identical all-zero response.
pub fn generate_set_response(request: SetRequest) -> (r: SetResponse)
    ensures
        set_response_zeroed(r),
{
    SetResponse {
        old_root: Option::None,
        new_root: Option::Some(Fea { fe0: 0, fe1: 0, fe2: 0, fe3: 0 }),
        key: Option::None,
        siblings: Vec::new(),
        ins_key: Option::None,
        ins_value: String::new(),
        is_old0: false,
        old_value: String::new(),
        new_value: String::new(),
        mode: String::new(),
        proof_hash_counter: 0,
        db_read_log: Vec::new(),
        result: Option::None,
        sibling_left_child: Option::None,
        sibling_right_child: Option::None,
    }
}

/// The state service. It carries no state of its own: every answer is
/// fixed by the method called.
pub struct SP1HashDbService {}

impl SP1HashDbService {
    pub fn new() -> SP1HashDbService {
        SP1HashDbService {  }
    }

    /// Answer one service call: the fixed all-zero reply for a node write,
    /// the empty acknowledgment for a block start, and the unimplemented
    /// fault for every other method.
    pub fn handle_call(&self, call: HashDbRequest) -> (r: Result<HashDbReply, ServiceFault>)
        ensures
            call matches HashDbRequest::SetNode(_) ==> r matches Ok(reply) && (reply matches
                HashDbReply::SetNode(resp) && set_response_zeroed(resp)),
            call is StartBlock ==> (r matches Ok(reply) && reply is Empty),
            !(call matches HashDbRequest::SetNode(_)) && !(call is StartBlock) ==> (r matches Err(
                f,
            ) && f is Unimplemented),
    {
        match call {
            HashDbRequest::SetNode(request) => Result::Ok(
                HashDbReply::SetNode(generate_set_response(request)),
            ),
            HashDbRequest::StartBlock => Result::Ok(HashDbReply::Empty),
            _ => Result::Err(ServiceFault::Unimplemented),
        }
    }
}

} // verus!
