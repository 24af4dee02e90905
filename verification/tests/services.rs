use sp1_prover::executor_service::ExecutorRequest;
use sp1_prover::executor_service::SP1ExecutorService;
use sp1_prover::hashdb_service::Fea;
use sp1_prover::hashdb_service::HashDbReply;
use sp1_prover::hashdb_service::HashDbRequest;
use sp1_prover::hashdb_service::SP1HashDbService;
use sp1_prover::hashdb_service::ServiceFault;
use sp1_prover::hashdb_service::SetRequest;
use sp1_prover::hashdb_service::SetResponse;
use sp1_prover::hashdb_service::generate_set_response;

fn assert_zeroed(r: &SetResponse) {
    assert_eq!(r.old_root, None);
    assert_eq!(r.new_root, Some(Fea { fe0: 0, fe1: 0, fe2: 0, fe3: 0 }));
    assert_eq!(r.key, None);
    assert!(r.siblings.is_empty());
    assert_eq!(r.ins_key, None);
    assert_eq!(r.ins_value, "");
    assert!(!r.is_old0);
    assert_eq!(r.old_value, "");
    assert_eq!(r.new_value, "");
    assert_eq!(r.mode, "");
    assert_eq!(r.proof_hash_counter, 0);
    assert!(r.db_read_log.is_empty());
    assert_eq!(r.result, None);
    assert_eq!(r.sibling_left_child, None);
    assert_eq!(r.sibling_right_child, None);
}

fn sample_request(value: &str, persistent: bool) -> SetRequest {
    SetRequest {
        old_root: Some(Fea { fe0: 1, fe1: 2, fe2: 3, fe3: 4 }),
        key: Some(Fea { fe0: 5, fe1: 6, fe2: 7, fe3: 8 }),
        value: value.to_string(),
        details: true,
        persistent,
        get_db_read_log: true,
    }
}

#[test]
fn node_write_always_returns_the_fixed_zero_response() {
    let first = generate_set_response(sample_request("one", true));
    let second = generate_set_response(sample_request("another value", false));
    assert_zeroed(&first);
    assert_zeroed(&second);
}

#[test]
fn hashdb_service_answers_node_write_with_zero_response() {
    let service = SP1HashDbService::new();
    match service.handle_call(HashDbRequest::SetNode(sample_request("v", true))) {
        Ok(HashDbReply::SetNode(resp)) => assert_zeroed(&resp),
        _ => panic!("node write must succeed with the fixed response"),
    }
}

#[test]
fn hashdb_block_start_always_acknowledges() {
    let service = SP1HashDbService::new();
    match service.handle_call(HashDbRequest::StartBlock) {
        Ok(HashDbReply::Empty) => {}
        _ => panic!("block start must acknowledge with no payload"),
    }
}

#[test]
fn hashdb_other_methods_fault_as_unimplemented() {
    let service = SP1HashDbService::new();
    let calls = vec![
        HashDbRequest::GetLatestStateRoot,
        HashDbRequest::Get,
        HashDbRequest::SetProgram,
        HashDbRequest::GetProgram,
        HashDbRequest::LoadDb,
        HashDbRequest::LoadProgramDb,
        HashDbRequest::FinishTx,
        HashDbRequest::FinishBlock,
        HashDbRequest::Flush,
        HashDbRequest::GetFlushStatus,
        HashDbRequest::GetFlushData,
        HashDbRequest::ConsolidateState,
        HashDbRequest::Purge,
        HashDbRequest::ReadTree,
        HashDbRequest::CancelBatch,
        HashDbRequest::ResetDb,
    ];
    for call in calls {
        match service.handle_call(call) {
            Err(ServiceFault::Unimplemented) => {}
            _ => panic!("unimplemented method must fault"),
        }
    }
}

#[test]
fn executor_methods_all_fault_as_unimplemented() {
    let service = SP1ExecutorService::new();
    let calls = vec![
        ExecutorRequest::ProcessBatch,
        ExecutorRequest::ProcessBatchV2,
        ExecutorRequest::GetFlushStatus,
    ];
    for call in calls {
        match service.handle_call(call) {
            Err(ServiceFault::Unimplemented) => {}
            _ => panic!("every executor method must fault"),
        }
    }
}
