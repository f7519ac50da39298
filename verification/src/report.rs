//! The records that are shown of results and errors.

use std::time::Duration;
use vstd::prelude::*;
use vstd::string::StringExecFns;
use crate::ledger::{address_text, confirmation_text, encode_address, encode_confirmation};
use crate::units::{amount_text, display_amount_of, render_amount};
use crate::model::{BalanceResult, LedgerError, OperationError, Outcome, TransferResult};

verus! {

/// The text that `{:?}` gives for the `Duration` of `nanos` nanoseconds.
pub uninterp spec fn elapsed_text(nanos: u64) -> Seq<char>;

/// Formats `Duration::from_nanos(nanos)` with `{:?}`. Trusted: the result is
/// the named text.
#[verifier::external_body]
pub(crate) fn format_elapsed(nanos: u64) -> (text: String)
    ensures
        text@ == elapsed_text(nanos),
{
    format!("{:?}", Duration::from_nanos(nanos))
}

/// The line that closes the record of a transfer.
pub open spec fn separator() -> Seq<char> {
    "--------------------------------------------------------------------------------------\n"@
}

/// The line that tells a transfer's outcome.
pub open spec fn outcome_line(outcome: Outcome) -> Seq<char> {
    match outcome {
        Outcome::Confirmed => "Transaction status is OK"@,
        Outcome::ConfirmedWithError(detail) => "Trasaction status got error: "@ + detail@,
        Outcome::StatusUnknown => "Transaction has None status."@,
    }
}

/// The record of a transfer, line by line.
pub open spec fn transfer_lines(result: TransferResult) -> Seq<Seq<char>> {
    seq![
        address_text(result.from@) + " -> "@ + address_text(result.to@),
        "Signature "@ + confirmation_text(result.confirmation_id.bytes@),
        "Processing time "@ + elapsed_text(result.elapsed_nanos),
        outcome_line(result.outcome),
        separator(),
    ]
}

/// The record of a balance, with the balance in display units.
pub open spec fn balance_line(result: BalanceResult) -> Seq<char> {
    "wallet: "@ + address_text(result.account@) + ", balance "@ + amount_text(
        display_amount_of(result.balance),
    ) + " SOL"@
}

/// What is said of a failed call to the ledger.
pub open spec fn cause_text(cause: LedgerError) -> Seq<char> {
    match cause {
        LedgerError::Unavailable => "ledger unavailable"@,
        LedgerError::InvalidAccount => "invalid account"@,
        LedgerError::SubmissionRejected(detail) => "submission rejected: "@ + detail@,
    }
}

/// The record of an operation that produced no result.
pub open spec fn error_line(error: OperationError) -> Seq<char> {
    match error {
        OperationError::BalanceUnavailable(cause) => "Failed to get balance: "@ + cause_text(cause),
        OperationError::HandleUnavailable(cause) => "Failed to get latest blockhash: "@
            + cause_text(cause),
        OperationError::SubmissionFailed(cause) => "Failed to send transaction: "@ + cause_text(
            cause,
        ),
    }
}

/// Renders the line that tells a transfer's outcome.
pub fn render_outcome(outcome: &Outcome) -> (line: String)
    ensures
        line@ == outcome_line(*outcome),
{
    match outcome {
        Outcome::Confirmed => "Transaction status is OK".to_owned(),
        Outcome::ConfirmedWithError(detail) => {
            let mut line = "Trasaction status got error: ".to_owned();
            line.append(detail.as_str());
            line
        },
        Outcome::StatusUnknown => "Transaction has None status.".to_owned(),
    }
}

/// Renders the record of a transfer: who sent to whom, the confirmation
/// identifier, the time the confirmation took, the outcome, and a closing line.
pub fn render_transfer(result: &TransferResult) -> (lines: Vec<String>)
    ensures
        lines@.len() == transfer_lines(*result).len(),
        forall|k: int| 0 <= k < lines@.len() ==> (#[trigger] lines@[k])@ == transfer_lines(*result)[k],
{
    let mut route = encode_address(&result.from.bytes);
    route.append(" -> ");
    route.append(encode_address(&result.to.bytes).as_str());
    let mut signature = "Signature ".to_owned();
    signature.append(encode_confirmation(&result.confirmation_id.bytes).as_str());
    let mut time = "Processing time ".to_owned();
    time.append(format_elapsed(result.elapsed_nanos).as_str());
    let mut lines: Vec<String> = Vec::new();
    lines.push(route);
    lines.push(signature);
    lines.push(time);
    lines.push(render_outcome(&result.outcome));
    lines.push(
        "--------------------------------------------------------------------------------------\n".to_owned(),
    );
    lines
}

/// Renders the record of a balance: the wallet and its balance in display
/// units, exact to the smallest unit.
pub fn render_balance(result: &BalanceResult) -> (line: String)
    ensures
        line@ == balance_line(*result),
{
    let mut line = "wallet: ".to_owned();
    line.append(encode_address(&result.account.bytes).as_str());
    line.append(", balance ");
    line.append(render_amount(result.balance).as_str());
    line.append(" SOL");
    line
}

/// Renders what is said of a failed call to the ledger.
pub fn render_cause(cause: &LedgerError) -> (text: String)
    ensures
        text@ == cause_text(*cause),
{
    match cause {
        LedgerError::Unavailable => "ledger unavailable".to_owned(),
        LedgerError::InvalidAccount => "invalid account".to_owned(),
        LedgerError::SubmissionRejected(detail) => {
            let mut text = "submission rejected: ".to_owned();
            text.append(detail.as_str());
            text
        },
    }
}

/// Renders the record of an operation that produced no result.
pub fn render_error(error: &OperationError) -> (line: String)
    ensures
        line@ == error_line(*error),
{
    match error {
        OperationError::BalanceUnavailable(cause) => {
            let mut line = "Failed to get balance: ".to_owned();
            line.append(render_cause(cause).as_str());
            line
        },
        OperationError::HandleUnavailable(cause) => {
            let mut line = "Failed to get latest blockhash: ".to_owned();
            line.append(render_cause(cause).as_str());
            line
        },
        OperationError::SubmissionFailed(cause) => {
            let mut line = "Failed to send transaction: ".to_owned();
            line.append(render_cause(cause).as_str());
            line
        },
    }
}

} // verus!
