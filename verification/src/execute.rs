//! The execution of one operation, answer by answer.

use vstd::prelude::*;
use crate::ledger::{sign_transfer, signed_transfer};
use crate::model::{
    Address, BalanceResult, ConfirmationId, Consistency, LedgerError, Operation, OperationError,
    OperationResult, Outcome, ReferenceHandle, SignedTransfer, StatusReport, TransferResult,
};

verus! {

/// How far the execution of one operation has come.
#[derive(Clone, Copy, Debug, PartialEq, Eq)]
pub enum Execution {
    Ready,
    AwaitingBalance,
    AwaitingHandle,
    AwaitingConfirmation,
    AwaitingStatus { confirmation_id: ConfirmationId, elapsed_nanos: u64 },
    Finished,
}

/// What the ledger returned for a submitted transfer, with the wall-clock time
/// between the start of the submission and the return of the confirmation.
#[derive(Debug, PartialEq, Eq)]
pub struct Confirmation {
    pub id: ConfirmationId,
    pub elapsed_nanos: u64,
}

/// What the ledger client hands back after a request.
#[derive(Debug, PartialEq, Eq)]
pub enum Response {
    Started,
    Balance(Result<u64, LedgerError>),
    Handle(Result<ReferenceHandle, LedgerError>),
    Confirmation(Result<Confirmation, LedgerError>),
    Status(Option<StatusReport>),
}

/// What the ledger client is asked to do next.
#[derive(Debug, PartialEq, Eq)]
pub enum Request {
    QueryBalance { account: Address, consistency: Consistency },
    FetchHandle,
    Submit(SignedTransfer),
    QueryStatus(ConfirmationId),
    Finish(Result<OperationResult, OperationError>),
    Refuse,
}

/// The outcome that a status lookup stands for.
pub open spec fn outcome_of(status: Option<StatusReport>) -> Outcome {
    match status {
        None => Outcome::StatusUnknown,
        Some(StatusReport::Succeeded) => Outcome::Confirmed,
        Some(StatusReport::Failed(detail)) => Outcome::ConfirmedWithError(detail),
    }
}

/// Maps the answer of a status lookup to the three-way outcome of a transfer.
pub fn classify_status(status: Option<StatusReport>) -> (outcome: Outcome)
    ensures
        outcome == outcome_of(status),
{
    match status {
        None => Outcome::StatusUnknown,
        Some(StatusReport::Succeeded) => Outcome::Confirmed,
        Some(StatusReport::Failed(detail)) => Outcome::ConfirmedWithError(detail),
    }
}

/// Whether `event` is the answer that an execution of `op` in `state` waits for.
pub open spec fn expected(op: &Operation, state: Execution, event: Response) -> bool {
    match (op, state, event) {
        (_, Execution::Ready, Response::Started) => true,
        (Operation::BalanceQuery { .. }, Execution::AwaitingBalance, Response::Balance(_)) => true,
        (Operation::Transfer { .. }, Execution::AwaitingHandle, Response::Handle(_)) => true,
        (Operation::Transfer { .. }, Execution::AwaitingConfirmation, Response::Confirmation(_)) => true,
        (Operation::Transfer { .. }, Execution::AwaitingStatus { .. }, Response::Status(_)) => true,
        _ => false,
    }
}

/// The state that follows `state` when `event` arrives.
pub open spec fn next_state(op: &Operation, state: Execution, event: Response) -> Execution {
    if !expected(op, state, event) {
        state
    } else {
        match (state, event) {
            (Execution::Ready, _) => match op {
                Operation::BalanceQuery { .. } => Execution::AwaitingBalance,
                Operation::Transfer { .. } => Execution::AwaitingHandle,
            },
            (_, Response::Handle(Ok(_))) => Execution::AwaitingConfirmation,
            (_, Response::Confirmation(Ok(done))) => Execution::AwaitingStatus {
                confirmation_id: done.id,
                elapsed_nanos: done.elapsed_nanos,
            },
            _ => Execution::Finished,
        }
    }
}

/// Whether `request` is what an execution of `op` in `state` asks for when
/// `event` arrives.
pub open spec fn requests(op: &Operation, state: Execution, event: Response, request: Request) -> bool {
    if !expected(op, state, event) {
        request == Request::Refuse
    } else {
        match (op, state, event) {
            (Operation::BalanceQuery { account }, Execution::Ready, _) => request == (Request::QueryBalance {
                account: *account,
                consistency: Consistency::Recent,
            }),
            (Operation::Transfer { .. }, Execution::Ready, _) => request == Request::FetchHandle,
            (Operation::BalanceQuery { account }, _, Response::Balance(Ok(balance))) => request
                == Request::Finish(
                Ok(OperationResult::Balance(BalanceResult { account: *account, balance })),
            ),
            (_, _, Response::Balance(Err(e))) => request == Request::Finish(
                Err(OperationError::BalanceUnavailable(e)),
            ),
            (Operation::Transfer { amount, source, destination }, _, Response::Handle(Ok(handle))) => {
                &&& request matches Request::Submit(signed)
                &&& (signed.signature@, signed.message@) == signed_transfer(
                    source.secret(),
                    destination@,
                    *amount,
                    handle.bytes@,
                )
            },
            (_, _, Response::Handle(Err(e))) => request == Request::Finish(
                Err(OperationError::HandleUnavailable(e)),
            ),
            (_, _, Response::Confirmation(Ok(done))) => request == Request::QueryStatus(done.id),
            (_, _, Response::Confirmation(Err(e))) => request == Request::Finish(
                Err(OperationError::SubmissionFailed(e)),
            ),
            (
                Operation::Transfer { source, destination, .. },
                Execution::AwaitingStatus { confirmation_id, elapsed_nanos },
                Response::Status(status),
            ) => request == Request::Finish(
                Ok(
                    OperationResult::Transfer(
                        TransferResult {
                            from: source.signer(),
                            to: *destination,
                            confirmation_id,
                            elapsed_nanos,
                            outcome: outcome_of(status),
                        },
                    ),
                ),
            ),
            _ => request == Request::Refuse,
        }
    }
}

/// The most answers that an execution of `op` in `state` still waits for.
pub open spec fn answers_left(op: &Operation, state: Execution) -> nat {
    match state {
        Execution::Ready => match op {
            Operation::BalanceQuery { .. } => 2,
            Operation::Transfer { .. } => 4,
        },
        Execution::AwaitingBalance => 1,
        Execution::AwaitingHandle => 3,
        Execution::AwaitingConfirmation => 2,
        Execution::AwaitingStatus { .. } => 1,
        Execution::Finished => 0,
    }
}

/// Every answer that an execution waits for brings it nearer to its end, and
/// the end comes with exactly one result or error: an operation finishes after
/// at most four answers, whatever they are.
pub proof fn lemma_progress(op: &Operation, state: Execution, event: Response, request: Request)
    requires
        expected(op, state, event),
        requests(op, state, event, request),
    ensures
        answers_left(op, next_state(op, state, event)) < answers_left(op, state),
        answers_left(op, state) <= 4,
        request is Finish <==> next_state(op, state, event) == Execution::Finished,
        !(request is Refuse),
{
}

/// A finished execution stays finished: it refuses every answer, so no
/// operation gives a second result.
pub proof fn lemma_finished_is_final(op: &Operation, event: Response, request: Request)
    requires
        requests(op, Execution::Finished, event, request),
    ensures
        next_state(op, Execution::Finished, event) == Execution::Finished,
        request == Request::Refuse,
{
}

/// Advances the execution of `op` by one answer of the ledger client: gives
/// the state that follows and the request to make next. An answer that the
/// state does not wait for changes nothing and is refused.
pub fn step(op: &Operation, state: Execution, event: Response) -> (result: (Execution, Request))
    ensures
        result.0 == next_state(op, state, event),
        requests(op, state, event, result.1),
{
    match state {
        Execution::Ready => match event {
            Response::Started => match op {
                Operation::BalanceQuery { account } => (
                    Execution::AwaitingBalance,
                    Request::QueryBalance { account: *account, consistency: Consistency::Recent },
                ),
                Operation::Transfer { .. } => (Execution::AwaitingHandle, Request::FetchHandle),
            },
            _ => (Execution::Ready, Request::Refuse),
        },
        Execution::AwaitingBalance => match (op, event) {
            (Operation::BalanceQuery { account }, Response::Balance(Ok(balance))) => (
                Execution::Finished,
                Request::Finish(
                    Ok(OperationResult::Balance(BalanceResult { account: *account, balance })),
                ),
            ),
            (Operation::BalanceQuery { .. }, Response::Balance(Err(e))) => (
                Execution::Finished,
                Request::Finish(Err(OperationError::BalanceUnavailable(e))),
            ),
            _ => (Execution::AwaitingBalance, Request::Refuse),
        },
        Execution::AwaitingHandle => match (op, event) {
            (Operation::Transfer { amount, source, destination }, Response::Handle(Ok(handle))) => {
                let signed = sign_transfer(
                    source.secret_bytes(),
                    &destination.bytes,
                    *amount,
                    &handle.bytes,
                );
                (
                    Execution::AwaitingConfirmation,
                    Request::Submit(SignedTransfer { signature: signed.0, message: signed.1 }),
                )
            },
            (Operation::Transfer { .. }, Response::Handle(Err(e))) => (
                Execution::Finished,
                Request::Finish(Err(OperationError::HandleUnavailable(e))),
            ),
            _ => (Execution::AwaitingHandle, Request::Refuse),
        },
        Execution::AwaitingConfirmation => match (op, event) {
            (Operation::Transfer { .. }, Response::Confirmation(Ok(done))) => (
                Execution::AwaitingStatus {
                    confirmation_id: done.id,
                    elapsed_nanos: done.elapsed_nanos,
                },
                Request::QueryStatus(done.id),
            ),
            (Operation::Transfer { .. }, Response::Confirmation(Err(e))) => (
                Execution::Finished,
                Request::Finish(Err(OperationError::SubmissionFailed(e))),
            ),
            _ => (Execution::AwaitingConfirmation, Request::Refuse),
        },
        Execution::AwaitingStatus { confirmation_id, elapsed_nanos } => match (op, event) {
            (Operation::Transfer { source, destination, .. }, Response::Status(status)) => (
                Execution::Finished,
                Request::Finish(
                    Ok(
                        OperationResult::Transfer(
                            TransferResult {
                                from: source.address(),
                                to: *destination,
                                confirmation_id,
                                elapsed_nanos,
                                outcome: classify_status(status),
                            },
                        ),
                    ),
                ),
            ),
            _ => (Execution::AwaitingStatus { confirmation_id, elapsed_nanos }, Request::Refuse),
        },
        Execution::Finished => (Execution::Finished, Request::Refuse),
    }
}

} // verus!
