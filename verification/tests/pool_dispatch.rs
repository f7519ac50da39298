use ledger_dispatch::config::{form_queries, form_transfers};
use ledger_dispatch::execute::{Confirmation, Request, Response};
use ledger_dispatch::model::{
    ConfirmationId, LedgerError, Operation, OperationError, OperationResult, Outcome,
    ReferenceHandle, StatusReport,
};
use ledger_dispatch::pool::{Completion, DispatchPool};
use solana_sdk::signer::keypair::keypair_from_seed;
use solana_sdk::signer::Signer;

fn public_bytes(seed: u8) -> [u8; 32] {
    keypair_from_seed(&[seed; 32]).unwrap().pubkey().to_bytes()
}

fn transfers(n: u8) -> Vec<Operation> {
    let mut keys = Vec::new();
    let mut recipients = Vec::new();
    for i in 0..n {
        keys.push(keypair_from_seed(&[i + 1; 32]).unwrap().to_bytes().to_vec());
        recipients.push(keypair_from_seed(&[i + 101; 32]).unwrap().pubkey().to_string());
    }
    match form_transfers(&keys, &recipients, 100_000_000) {
        Ok(ops) => ops,
        Err(e) => panic!("rejected: {:?}", e),
    }
}

fn queries(n: u8) -> Vec<Operation> {
    let mut wallets = Vec::new();
    for i in 0..n {
        wallets.push(keypair_from_seed(&[i + 1; 32]).unwrap().pubkey().to_string());
    }
    match form_queries(&wallets) {
        Ok(ops) => ops,
        Err(e) => panic!("rejected: {:?}", e),
    }
}

fn start_all(pool: &mut DispatchPool) {
    for id in 0..pool.total() {
        assert!(pool.respond(id, Response::Started).is_some());
    }
}

fn confirm(pool: &mut DispatchPool, id: usize, tag: u8, status: Option<StatusReport>) {
    let handle = ReferenceHandle { bytes: [tag; 32] };
    assert!(matches!(pool.respond(id, Response::Handle(Ok(handle))), Some(Request::Submit(_))));
    let done = Confirmation { id: ConfirmationId { bytes: [tag; 64] }, elapsed_nanos: 1000 };
    assert_eq!(
        pool.respond(id, Response::Confirmation(Ok(done))),
        Some(Request::QueryStatus(ConfirmationId { bytes: [tag; 64] }))
    );
    assert_eq!(pool.respond(id, Response::Status(status)), None);
}

fn drain_all(pool: &mut DispatchPool) -> Vec<Completion> {
    let mut out = Vec::new();
    while let Some(done) = pool.drain() {
        out.push(done);
    }
    out
}

#[test]
fn empty_batch_is_terminal_at_once() {
    let mut pool = DispatchPool::new(Vec::new());
    assert_eq!(pool.total(), 0);
    assert!(pool.is_terminal());
    assert_eq!(pool.drain(), None);
    assert_eq!(pool.delivered(), 0);
}

#[test]
fn every_operation_yields_one_result_whatever_fails() {
    let mut pool = DispatchPool::new(transfers(4));
    assert_eq!(pool.total(), 4);
    assert_eq!(pool.in_flight(), 4);
    start_all(&mut pool);
    assert_eq!(pool.respond(1, Response::Handle(Err(LedgerError::Unavailable))), None);
    confirm(&mut pool, 3, 7, Some(StatusReport::Succeeded));
    assert_eq!(pool.in_flight(), 2);
    let first = drain_all(&mut pool);
    assert_eq!(first.len(), 2);
    assert!(!pool.is_terminal());
    let handle = ReferenceHandle { bytes: [1u8; 32] };
    assert!(pool.respond(0, Response::Handle(Ok(handle))).is_some());
    let rejected = LedgerError::SubmissionRejected("blockhash expired".to_string());
    assert_eq!(pool.respond(0, Response::Confirmation(Err(rejected))), None);
    confirm(&mut pool, 2, 8, None);
    let second = drain_all(&mut pool);
    assert_eq!(second.len(), 2);
    assert_eq!(pool.delivered(), 4);
    assert_eq!(pool.in_flight(), 0);
    assert!(pool.is_terminal());
    assert_eq!(pool.drain(), None);
    assert_eq!(pool.delivered(), 4);
    let mut ids: Vec<usize> = first.iter().chain(second.iter()).map(|c| c.id).collect();
    ids.sort();
    assert_eq!(ids, vec![0, 1, 2, 3]);
}

#[test]
fn results_come_in_completion_order_not_submission_order() {
    let mut pool = DispatchPool::new(queries(3));
    start_all(&mut pool);
    assert_eq!(pool.respond(2, Response::Balance(Ok(30))), None);
    assert_eq!(pool.respond(0, Response::Balance(Ok(10))), None);
    assert_eq!(pool.respond(1, Response::Balance(Ok(20))), None);
    let order: Vec<usize> = drain_all(&mut pool).iter().map(|c| c.id).collect();
    assert_eq!(order, vec![2, 0, 1]);
}

#[test]
fn earlier_completion_is_observed_no_later_when_draining_between() {
    let mut pool = DispatchPool::new(queries(2));
    start_all(&mut pool);
    assert_eq!(pool.drain(), None);
    assert_eq!(pool.respond(1, Response::Balance(Ok(5))), None);
    let first = pool.drain().unwrap();
    assert_eq!(first.id, 1);
    assert_eq!(pool.drain(), None);
    assert_eq!(pool.respond(0, Response::Balance(Ok(6))), None);
    let second = pool.drain().unwrap();
    assert_eq!(second.id, 0);
    assert!(pool.is_terminal());
}

#[test]
fn failed_handle_fetch_does_not_stop_siblings() {
    let mut pool = DispatchPool::new(transfers(3));
    start_all(&mut pool);
    assert_eq!(pool.respond(0, Response::Handle(Err(LedgerError::Unavailable))), None);
    confirm(&mut pool, 1, 5, Some(StatusReport::Succeeded));
    confirm(&mut pool, 2, 6, Some(StatusReport::Succeeded));
    let done = drain_all(&mut pool);
    assert_eq!(done.len(), 3);
    assert_eq!(
        done[0],
        Completion {
            id: 0,
            outcome: Err(OperationError::HandleUnavailable(LedgerError::Unavailable))
        }
    );
    for c in &done[1..] {
        match &c.outcome {
            Ok(OperationResult::Transfer(result)) => assert_eq!(result.outcome, Outcome::Confirmed),
            other => panic!("expected a confirmed transfer, got {:?}", other),
        }
    }
}

#[test]
fn one_confirmed_and_one_rejected_transfer_give_two_results() {
    let mut pool = DispatchPool::new(transfers(2));
    start_all(&mut pool);
    let handle = ReferenceHandle { bytes: [2u8; 32] };
    assert!(pool.respond(1, Response::Handle(Ok(handle))).is_some());
    let rejected = LedgerError::SubmissionRejected("insufficient funds".to_string());
    assert_eq!(pool.respond(1, Response::Confirmation(Err(rejected))), None);
    confirm(&mut pool, 0, 4, Some(StatusReport::Succeeded));
    let done = drain_all(&mut pool);
    assert_eq!(done.len(), 2);
    assert!(pool.is_terminal());
    let mut confirmed = 0;
    let mut rejections = 0;
    for c in &done {
        match &c.outcome {
            Ok(OperationResult::Transfer(result)) => {
                assert_eq!(c.id, 0);
                assert_eq!(result.outcome, Outcome::Confirmed);
                assert_eq!(result.from.bytes, public_bytes(1));
                assert_eq!(result.to.bytes, public_bytes(101));
                confirmed += 1;
            }
            Err(OperationError::SubmissionFailed(LedgerError::SubmissionRejected(detail))) => {
                assert_eq!(c.id, 1);
                assert_eq!(detail, "insufficient funds");
                rejections += 1;
            }
            other => panic!("unexpected outcome {:?}", other),
        }
    }
    assert_eq!((confirmed, rejections), (1, 1));
}

#[test]
fn ledger_reported_failure_is_recorded_in_the_result() {
    let mut pool = DispatchPool::new(transfers(1));
    start_all(&mut pool);
    confirm(&mut pool, 0, 4, Some(StatusReport::Failed("account in use".to_string())));
    let done = pool.drain().unwrap();
    match done.outcome {
        Ok(OperationResult::Transfer(result)) => {
            assert_eq!(result.outcome, Outcome::ConfirmedWithError("account in use".to_string()))
        }
        other => panic!("unexpected outcome {:?}", other),
    }
}

#[test]
fn answers_for_unknown_or_finished_operations_are_refused() {
    let mut pool = DispatchPool::new(queries(1));
    assert_eq!(pool.respond(1, Response::Started), Some(Request::Refuse));
    assert_eq!(pool.respond(0, Response::Balance(Ok(1))), Some(Request::Refuse));
    start_all(&mut pool);
    assert_eq!(pool.respond(0, Response::Balance(Ok(1))), None);
    assert_eq!(pool.respond(0, Response::Balance(Ok(2))), Some(Request::Refuse));
    assert_eq!(pool.in_flight(), 0);
    assert_eq!(drain_all(&mut pool).len(), 1);
    assert_eq!(pool.delivered(), 1);
}
