//! The aggregator session: message types, session state and the request
//! dispatcher.
//!
//! The dispatcher consumes one orchestrator request at a time. Job-creation
//! requests mint a fresh correlation id and overwrite the single pending
//! job; a proof lookup answers only when the requested id is the pending
//! one, replaying the fixture artifact for the pending kind; any other
//! lookup, and any unrecognized request, is dropped without a reply.

use crate::fixture::FixtureBundle;
use crate::ids::get_current_time;
use crate::ids::get_uuid;
use crate::ids::is_generated_id;
use vstd::prelude::*;

verus! {

/// The kind of the job currently pending in the session, if any.
#[derive(Clone, Copy, Debug, PartialEq, Eq, Structural)]
pub enum PendingKind {
    NoJob,
    BatchProof,
    AggregatedProof,
    FinalProof,
}

/// The session's only mutable record: the most recently created job.
pub struct SessionState {
    pub pending_kind: PendingKind,
    pub pending_id: String,
}

impl SessionState {
    /// The session invariant: a pending id exists exactly when a job does.
    pub open spec fn wf(self) -> bool {
        self.pending_id@.len() == 0 <==> self.pending_kind is NoJob
    }

    /// A fresh session: no job pending, no id issued.
    pub fn new() -> (s: SessionState)
        ensures
            s.wf(),
            s.pending_kind is NoJob,
            s.pending_id@ == Seq::<char>::empty(),
    {
        SessionState { pending_kind: PendingKind::NoJob, pending_id: String::new() }
    }
}

/// Parameters of a proof lookup: the correlation id to look up.
pub struct GetProofRequest {
    pub id: String,
}

/// One inbound orchestrator request. `Unrecognized` stands for any message
/// whose kind the dispatcher does not know, including an absent payload.
pub enum Request {
    GetStatusRequest,
    GenBatchProofRequest,
    GenAggregatedProofRequest,
    GenFinalProofRequest,
    GetProofRequest(GetProofRequest),
    Unrecognized,
}

/// Result code of a job-creation acknowledgment.
#[derive(Clone, Copy, Debug, PartialEq, Eq, Structural)]
pub enum ResultCode {
    Unspecified,
    Success,
    Error,
    InternalError,
}

/// Result code of a proof lookup reply.
#[derive(Clone, Copy, Debug, PartialEq, Eq, Structural)]
pub enum ProofResultCode {
    Unspecified,
    CompletedOk,
    Error,
    CompletedErr,
    Pending,
    InternalError,
    Cancel,
}

/// Status of the prover as reported to the orchestrator.
#[derive(Clone, Copy, Debug, PartialEq, Eq, Structural)]
pub enum ProverStatus {
    Unspecified,
    Booting,
    Computing,
    Idle,
    Halt,
}

/// The status report: fixed illustrative figures, not live metrics.
pub struct GetStatusResponse {
    pub status: ProverStatus,
    pub last_computed_request_id: String,
    pub last_computed_end_time: u64,
    pub current_computing_request_id: String,
    pub current_computing_start_time: u64,
    pub version_proto: String,
    pub version_server: String,
    pub pending_request_queue_ids: Vec<String>,
    pub prover_name: String,
    pub prover_id: String,
    pub fork_id: u64,
    pub number_of_cores: u64,
    pub total_memory: u64,
    pub free_memory: u64,
}

/// Acknowledgment of a batch-proof job creation.
pub struct GenBatchProofResponse {
    pub id: String,
    pub result: ResultCode,
}

/// Acknowledgment of an aggregated-proof job creation.
pub struct GenAggregatedProofResponse {
    pub id: String,
    pub result: ResultCode,
}

/// Acknowledgment of a final-proof job creation.
pub struct GenFinalProofResponse {
    pub id: String,
    pub result: ResultCode,
}

/// Public inputs of the final proof, populated from the fixture bundle.
pub struct PublicInputs {
    pub old_state_root: Vec<u8>,
    pub old_acc_input_hash: Vec<u8>,
    pub old_batch_num: u64,
    pub chain_id: u64,
    pub fork_id: u64,
    pub batch_l2_data: Vec<u8>,
    pub l1_info_root: Vec<u8>,
    pub timestamp_limit: u64,
    pub sequencer_addr: String,
    pub forced_blockhash_l1: Vec<u8>,
    pub aggregator_addr: String,
}

/// Public inputs extended with the post-state fields.
pub struct PublicInputsExtended {
    pub public_inputs: PublicInputs,
    pub new_state_root: Vec<u8>,
    pub new_acc_input_hash: Vec<u8>,
    pub new_local_exit_root: Vec<u8>,
    pub new_batch_num: u64,
}

/// The final-proof artifact: the fixture proof string and its public inputs.
pub struct FinalProof {
    pub proof: String,
    pub public: PublicInputsExtended,
}

/// A proof artifact carried by a lookup reply.
pub enum Proof {
    RecursiveProof(String),
    FinalProof(FinalProof),
}

/// Reply to a proof lookup.
pub struct GetProofResponse {
    pub id: String,
    pub result_string: String,
    pub result: ProofResultCode,
    pub proof: Option<Proof>,
}

/// One outbound response payload.
pub enum Response {
    GetStatusResponse(GetStatusResponse),
    GenBatchProofResponse(GenBatchProofResponse),
    GenAggregatedProofResponse(GenAggregatedProofResponse),
    GenFinalProofResponse(GenFinalProofResponse),
    GetProofResponse(GetProofResponse),
}

/// One outbound message: the echoed envelope id and the response payload.
pub struct ProverMessage {
    pub id: String,
    pub response: Response,
}

/// Mathematical model of [`PublicInputs`].
pub struct PublicInputsView {
    pub old_state_root: Seq<u8>,
    pub old_acc_input_hash: Seq<u8>,
    pub old_batch_num: int,
    pub chain_id: int,
    pub fork_id: int,
    pub batch_l2_data: Seq<u8>,
    pub l1_info_root: Seq<u8>,
    pub timestamp_limit: int,
    pub sequencer_addr: Seq<char>,
    pub forced_blockhash_l1: Seq<u8>,
    pub aggregator_addr: Seq<char>,
}

impl View for PublicInputs {
    type V = PublicInputsView;

    open spec fn view(&self) -> PublicInputsView {
        PublicInputsView {
            old_state_root: self.old_state_root@,
            old_acc_input_hash: self.old_acc_input_hash@,
            old_batch_num: self.old_batch_num as int,
            chain_id: self.chain_id as int,
            fork_id: self.fork_id as int,
            batch_l2_data: self.batch_l2_data@,
            l1_info_root: self.l1_info_root@,
            timestamp_limit: self.timestamp_limit as int,
            sequencer_addr: self.sequencer_addr@,
            forced_blockhash_l1: self.forced_blockhash_l1@,
            aggregator_addr: self.aggregator_addr@,
        }
    }
}

/// Mathematical model of [`PublicInputsExtended`].
pub struct PublicInputsExtendedView {
    pub public_inputs: PublicInputsView,
    pub new_state_root: Seq<u8>,
    pub new_acc_input_hash: Seq<u8>,
    pub new_local_exit_root: Seq<u8>,
    pub new_batch_num: int,
}

impl View for PublicInputsExtended {
    type V = PublicInputsExtendedView;

    open spec fn view(&self) -> PublicInputsExtendedView {
        PublicInputsExtendedView {
            public_inputs: self.public_inputs@,
            new_state_root: self.new_state_root@,
            new_acc_input_hash: self.new_acc_input_hash@,
            new_local_exit_root: self.new_local_exit_root@,
            new_batch_num: self.new_batch_num as int,
        }
    }
}

/// Mathematical model of [`FinalProof`].
pub struct FinalProofView {
    pub proof: Seq<char>,
    pub public: PublicInputsExtendedView,
}

impl View for FinalProof {
    type V = FinalProofView;

    open spec fn view(&self) -> FinalProofView {
        FinalProofView { proof: self.proof@, public: self.public@ }
    }
}

/// Mathematical model of [`Proof`].
pub enum ProofView {
    Recursive(Seq<char>),
    Final(FinalProofView),
}

impl View for Proof {
    type V = ProofView;

    open spec fn view(&self) -> ProofView {
        match self {
            Proof::RecursiveProof(s) => ProofView::Recursive(s@),
            Proof::FinalProof(fp) => ProofView::Final(fp@),
        }
    }
}

/// The final-proof public inputs owed for a fixture bundle: roots and
/// payloads from the bundle, together with the fixed chain, fork, batch
/// and timestamp figures.
pub open spec fn expected_public_inputs(f: FixtureBundle) -> PublicInputsView {
    PublicInputsView {
        old_state_root: f.root@,
        old_acc_input_hash: f.root@,
        old_batch_num: 1,
        chain_id: 1000,
        fork_id: 9,
        batch_l2_data: f.bytes@,
        l1_info_root: f.bytes@,
        timestamp_limit: 1_000_000,
        sequencer_addr: f.bytes_hex@,
        forced_blockhash_l1: f.bytes@,
        aggregator_addr: f.bytes_hex@,
    }
}

/// The final-proof artifact owed for a fixture bundle.
pub open spec fn expected_final_proof(f: FixtureBundle) -> FinalProofView {
    FinalProofView {
        proof: f.proof@,
        public: PublicInputsExtendedView {
            public_inputs: expected_public_inputs(f),
            new_state_root: f.root@,
            new_acc_input_hash: f.new_acc_input_hash@,
            new_local_exit_root: f.new_local_exit_root@,
            new_batch_num: 2,
        },
    }
}

/// The artifact owed for each pending kind: the first recursive-proof
/// string for a batch job, the second for an aggregated job, the full
/// final proof for a final job, and nothing when no job is pending.
pub open spec fn expected_proof(f: FixtureBundle, kind: PendingKind) -> Option<ProofView> {
    match kind {
        PendingKind::NoJob => Option::None,
        PendingKind::BatchProof => Option::Some(ProofView::Recursive(f.recursive_proof_1@)),
        PendingKind::AggregatedProof => Option::Some(ProofView::Recursive(f.recursive_proof_2@)),
        PendingKind::FinalProof => Option::Some(ProofView::Final(expected_final_proof(f))),
    }
}

/// Build the proof artifact for the pending kind from the fixture bundle;
/// nothing when no job is pending.
pub fn get_proof(fixture: &FixtureBundle, kind: PendingKind) -> (r: Option<Proof>)
    ensures
        r matches Some(p) ==> expected_proof(*fixture, kind) == Option::Some(p@),
        r is Some <==> !(kind is NoJob),
{
    match kind {
        PendingKind::NoJob => Option::None,
        PendingKind::BatchProof => Option::Some(
            Proof::RecursiveProof(fixture.recursive_proof_1.clone()),
        ),
        PendingKind::AggregatedProof => Option::Some(
            Proof::RecursiveProof(fixture.recursive_proof_2.clone()),
        ),
        PendingKind::FinalProof => {
            let public_inputs = PublicInputs {
                old_state_root: clone_bytes(&fixture.root),
                old_acc_input_hash: clone_bytes(&fixture.root),
                old_batch_num: 1,
                chain_id: 1000,
                fork_id: 9,
                batch_l2_data: clone_bytes(&fixture.bytes),
                l1_info_root: clone_bytes(&fixture.bytes),
                timestamp_limit: 1_000_000,
                sequencer_addr: fixture.bytes_hex.clone(),
                forced_blockhash_l1: clone_bytes(&fixture.bytes),
                aggregator_addr: fixture.bytes_hex.clone(),
            };
            let public = PublicInputsExtended {
                public_inputs,
                new_state_root: clone_bytes(&fixture.root),
                new_acc_input_hash: clone_bytes(&fixture.new_acc_input_hash),
                new_local_exit_root: clone_bytes(&fixture.new_local_exit_root),
                new_batch_num: 2,
            };
            Option::Some(Proof::FinalProof(FinalProof { proof: fixture.proof.clone(), public }))
        },
    }
}

/// Copy a byte vector, keeping its contents.
fn clone_bytes(v: &Vec<u8>) -> (r: Vec<u8>)
    ensures
        r@ == v@,
{
    let mut r: Vec<u8> = Vec::new();
    let mut i: usize = 0;
    while i < v.len()
        invariant
            i <= v@.len(),
            r@ == v@.subrange(0, i as int),
        decreases v@.len() - i,
    {
        r.push(v[i]);
        i = i + 1;
    }
    assert(v@.subrange(0, v@.len() as int) =~= v@);
    r
}

/// The well-formed status report: status Idle, empty last/current job ids,
/// the fixed version strings and capacity figures, and exactly three
/// freshly generated pending-queue ids.
pub open spec fn status_response_ok(st: GetStatusResponse) -> bool {
    &&& st.status is Idle
    &&& st.last_computed_request_id@.len() == 0
    &&& st.current_computing_request_id@.len() == 0
    &&& st.version_proto@ == "v0_0_1"@
    &&& st.version_server@ == "0.0.1"@
    &&& st.pending_request_queue_ids@.len() == 3
    &&& forall|i: int|
        0 <= i < st.pending_request_queue_ids@.len() ==> is_generated_id(
            #[trigger] st.pending_request_queue_ids@[i]@,
        )
    &&& st.prover_name@ == "sp1_test_prover"@
    &&& is_generated_id(st.prover_id@)
    &&& st.fork_id == 9
    &&& st.number_of_cores == 10
    &&& st.total_memory == 1_000_000_000u64
    &&& st.free_memory == 1_000_000u64
}

/// Build the status report. Independent of the session state; the queue
/// ids and timestamps are freshly generated each call.
pub fn gen_response() -> (r: GetStatusResponse)
    ensures
        status_response_ok(r),
{
    let mut queue_ids: Vec<String> = Vec::new();
    queue_ids.push(get_uuid());
    queue_ids.push(get_uuid());
    queue_ids.push(get_uuid());
    GetStatusResponse {
        status: ProverStatus::Idle,
        last_computed_request_id: String::new(),
        last_computed_end_time: get_current_time(),
        current_computing_request_id: String::new(),
        current_computing_start_time: get_current_time(),
        version_proto: String::from_str("v0_0_1"),
        version_server: String::from_str("0.0.1"),
        pending_request_queue_ids: queue_ids,
        prover_name: String::from_str("sp1_test_prover"),
        prover_id: get_uuid(),
        fork_id: 9,
        number_of_cores: 10,
        total_memory: 1_000_000_000,
        free_memory: 1_000_000,
    }
}

/// The acknowledgment payload owed to a job creation of `kind`: the right
/// response variant, carrying the new id and a success code.
pub open spec fn creation_response_matches(resp: Response, kind: PendingKind, id: Seq<char>) -> bool {
    match kind {
        PendingKind::BatchProof => resp matches Response::GenBatchProofResponse(a) && a.id@ == id
            && a.result is Success,
        PendingKind::AggregatedProof => resp matches Response::GenAggregatedProofResponse(a)
            && a.id@ == id && a.result is Success,
        PendingKind::FinalProof => resp matches Response::GenFinalProofResponse(a) && a.id@ == id
            && a.result is Success,
        PendingKind::NoJob => false,
    }
}

/// What a job creation of `kind` leaves behind: the session now pends a
/// job of that kind under a freshly generated id, and the reply
/// acknowledges exactly that id.
pub open spec fn creation_ack(r: Option<ProverMessage>, s1: SessionState, kind: PendingKind) -> bool {
    &&& s1.pending_kind == kind
    &&& is_generated_id(s1.pending_id@)
    &&& r matches Option::Some(m) && creation_response_matches(m.response, kind, s1.pending_id@)
}

/// The reply owed to a proof lookup: the artifact for the pending kind when
/// the requested id is the pending one, nothing otherwise — in particular
/// nothing when no job is pending, whatever id is asked for.
pub open spec fn get_proof_reply(f: FixtureBundle, s: SessionState, job_id: Seq<char>) -> Option<
    ProofView,
> {
    if !(s.pending_kind is NoJob) && job_id == s.pending_id@ {
        expected_proof(f, s.pending_kind)
    } else {
        Option::None
    }
}

/// Dispatch one inbound request against the session state.
///
/// Returns the outbound message to send, if the request earns one, with
/// the envelope id echoed verbatim. Job creations overwrite the pending
/// job; lookups and status requests leave the state untouched.
pub fn handle(
    fixture: &FixtureBundle,
    request: Request,
    envelope_id: String,
    state: &mut SessionState,
) -> (r: Option<ProverMessage>)
    requires
        old(state).wf(),
    ensures
        final(state).wf(),
        r matches Some(m) ==> m.id@ == envelope_id@,
        request is GetStatusRequest ==> *final(state) == *old(state) && (r matches Some(m)
            && m.response matches Response::GetStatusResponse(st) && status_response_ok(st)),
        request is GenBatchProofRequest ==> creation_ack(r, *final(state), PendingKind::BatchProof),
        request is GenAggregatedProofRequest ==> creation_ack(
            r,
            *final(state),
            PendingKind::AggregatedProof,
        ),
        request is GenFinalProofRequest ==> creation_ack(r, *final(state), PendingKind::FinalProof),
        request matches Request::GetProofRequest(req) ==> *final(state) == *old(state) && (match
            get_proof_reply(*fixture, *old(state), req.id@) {
            Option::Some(pv) => r matches Some(m) && m.response matches Response::GetProofResponse(
                gp,
            ) && gp.id@ == req.id@ && gp.result_string@ == "completed"@
                && gp.result is CompletedOk && (gp.proof matches Some(p) && p@ == pv),
            Option::None => r is None,
        }),
        request is Unrecognized ==> r is None && *final(state) == *old(state),
{
    match request {
        Request::GetStatusRequest => {
            let msg = ProverMessage {
                id: envelope_id,
                response: Response::GetStatusResponse(gen_response()),
            };
            Option::Some(msg)
        },
        Request::GenBatchProofRequest => {
            let uuid = get_uuid();
            state.pending_kind = PendingKind::BatchProof;
            state.pending_id = uuid.clone();
            let msg = ProverMessage {
                id: envelope_id,
                response: Response::GenBatchProofResponse(
                    GenBatchProofResponse { id: uuid, result: ResultCode::Success },
                ),
            };
            Option::Some(msg)
        },
        Request::GenAggregatedProofRequest => {
            let uuid = get_uuid();
            state.pending_kind = PendingKind::AggregatedProof;
            state.pending_id = uuid.clone();
            let msg = ProverMessage {
                id: envelope_id,
                response: Response::GenAggregatedProofResponse(
                    GenAggregatedProofResponse { id: uuid, result: ResultCode::Success },
                ),
            };
            Option::Some(msg)
        },
        Request::GenFinalProofRequest => {
            let uuid = get_uuid();
            state.pending_kind = PendingKind::FinalProof;
            state.pending_id = uuid.clone();
            let msg = ProverMessage {
                id: envelope_id,
                response: Response::GenFinalProofResponse(
                    GenFinalProofResponse { id: uuid, result: ResultCode::Success },
                ),
            };
            Option::Some(msg)
        },
        Request::GetProofRequest(req) => {
            if req.id == state.pending_id {
                match get_proof(fixture, state.pending_kind) {
                    Option::Some(p) => {
                        let response = GetProofResponse {
                            id: req.id,
                            result_string: String::from_str("completed"),
                            result: ProofResultCode::CompletedOk,
                            proof: Option::Some(p),
                        };
                        let msg = ProverMessage {
                            id: envelope_id,
                            response: Response::GetProofResponse(response),
                        };
                        Option::Some(msg)
                    },
                    Option::None => Option::None,
                }
            } else {
                Option::None
            }
        },
        Request::Unrecognized => Option::None,
    }
}

/// Law: a job creation supersedes the previous job. Once the session pends
/// an id other than `old_id` — as it does after a second creation, whose
/// fresh id differs from the first — a lookup for `old_id` earns no reply.
pub proof fn lemma_superseded_lookup_yields_nothing(
    f: FixtureBundle,
    s: SessionState,
    old_id: Seq<char>,
)
    requires
        s.pending_id@ != old_id,
    ensures
        get_proof_reply(f, s, old_id) is None,
{
}

/// Law: a lookup for the id of a live pending job is always answered, and
/// the reply carries exactly the artifact owed for the pending kind.
pub proof fn lemma_pending_lookup_is_answered(f: FixtureBundle, s: SessionState, job_id: Seq<char>)
    requires
        !(s.pending_kind is NoJob),
        job_id == s.pending_id@,
    ensures
        get_proof_reply(f, s, job_id) == expected_proof(f, s.pending_kind),
        get_proof_reply(f, s, job_id) is Some,
{
}

/// Law: proof lookup is idempotent. A lookup leaves the session state
/// unchanged, and against equal states equal lookups earn equal replies;
/// so asking twice for a still-pending id yields the same artifact twice.
pub proof fn lemma_lookup_idempotent(
    f: FixtureBundle,
    s0: SessionState,
    s1: SessionState,
    job_id: Seq<char>,
    r1: Option<ProofView>,
    r2: Option<ProofView>,
)
    requires
        r1 == get_proof_reply(f, s0, job_id),
        s1 == s0,
        r2 == get_proof_reply(f, s1, job_id),
    ensures
        r1 == r2,
{
}

} // verus!
