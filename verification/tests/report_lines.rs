use ledger_dispatch::model::{
    Address, BalanceResult, ConfirmationId, LedgerError, OperationError, Outcome, TransferResult,
};
use ledger_dispatch::report::{
    render_balance, render_cause, render_error, render_outcome, render_transfer,
};
use ledger_dispatch::units::{
    render_amount, render_decimal, to_display_amount, DisplayAmount, UNITS_PER_DISPLAY_UNIT,
};
use solana_sdk::pubkey::Pubkey;
use solana_sdk::signature::Signature;
use std::time::Duration;

fn sample(outcome: Outcome) -> TransferResult {
    TransferResult {
        from: Address { bytes: [1u8; 32] },
        to: Address { bytes: [2u8; 32] },
        confirmation_id: ConfirmationId { bytes: [3u8; 64] },
        elapsed_nanos: 1_500_000_000,
        outcome,
    }
}

#[test]
fn transfer_record_has_route_signature_time_outcome_and_separator() {
    let lines = render_transfer(&sample(Outcome::Confirmed));
    let from = Pubkey::new_from_array([1u8; 32]).to_string();
    let to = Pubkey::new_from_array([2u8; 32]).to_string();
    let signature = Signature::from([3u8; 64]).to_string();
    assert_eq!(lines.len(), 5);
    assert_eq!(lines[0], format!("{} -> {}", from, to));
    assert_eq!(lines[1], format!("Signature {}", signature));
    assert_eq!(lines[2], format!("Processing time {:?}", Duration::from_millis(1500)));
    assert_eq!(lines[2], "Processing time 1.5s");
    assert_eq!(lines[3], "Transaction status is OK");
    assert_eq!(
        lines[4],
        "--------------------------------------------------------------------------------------\n"
    );
}

#[test]
fn transfer_record_shows_known_address_text() {
    let mut result = sample(Outcome::StatusUnknown);
    result.from = Address { bytes: [0u8; 32] };
    let lines = render_transfer(&result);
    assert!(lines[0].starts_with("11111111111111111111111111111111 -> "));
    assert_eq!(lines[3], "Transaction has None status.");
}

#[test]
fn outcome_lines() {
    assert_eq!(render_outcome(&Outcome::Confirmed), "Transaction status is OK");
    assert_eq!(render_outcome(&Outcome::StatusUnknown), "Transaction has None status.");
    assert_eq!(
        render_outcome(&Outcome::ConfirmedWithError("insufficient funds".to_string())),
        "Trasaction status got error: insufficient funds"
    );
}

#[test]
fn balance_record_names_wallet_and_amount() {
    let result = BalanceResult { account: Address { bytes: [0u8; 32] }, balance: 2_500_000_000 };
    assert_eq!(
        render_balance(&result),
        "wallet: 11111111111111111111111111111111, balance 2.5 SOL"
    );
}

#[test]
fn error_records() {
    assert_eq!(render_cause(&LedgerError::Unavailable), "ledger unavailable");
    assert_eq!(render_cause(&LedgerError::InvalidAccount), "invalid account");
    assert_eq!(
        render_error(&OperationError::HandleUnavailable(LedgerError::Unavailable)),
        "Failed to get latest blockhash: ledger unavailable"
    );
    assert_eq!(
        render_error(&OperationError::BalanceUnavailable(LedgerError::InvalidAccount)),
        "Failed to get balance: invalid account"
    );
    assert_eq!(
        render_error(&OperationError::SubmissionFailed(LedgerError::SubmissionRejected(
            "fee too low".to_string()
        ))),
        "Failed to send transaction: submission rejected: fee too low"
    );
}

#[test]
fn balance_of_two_and_a_half_units_is_shown_exactly() {
    let amount = to_display_amount(2_500_000_000);
    assert_eq!(amount, DisplayAmount { whole: 2, fraction: 500_000_000 });
    let shown = amount.whole as f64 + amount.fraction as f64 / UNITS_PER_DISPLAY_UNIT as f64;
    assert_eq!(shown, 2.5);
}

#[test]
fn display_amount_splits_exactly() {
    assert_eq!(to_display_amount(0), DisplayAmount { whole: 0, fraction: 0 });
    assert_eq!(to_display_amount(999_999_999), DisplayAmount { whole: 0, fraction: 999_999_999 });
    assert_eq!(to_display_amount(1_000_000_000), DisplayAmount { whole: 1, fraction: 0 });
    assert_eq!(
        to_display_amount(u64::MAX),
        DisplayAmount { whole: 18_446_744_073, fraction: 709_551_615 }
    );
    for amount in [1u64, 100_000_000, 1_000_000, 123_456_789_012] {
        let split = to_display_amount(amount);
        assert_eq!(split.whole * UNITS_PER_DISPLAY_UNIT + split.fraction, amount);
        assert!(split.fraction < UNITS_PER_DISPLAY_UNIT);
    }
}

#[test]
fn amounts_are_written_exactly_in_display_units() {
    assert_eq!(render_amount(2_500_000_000), "2.5");
    assert_eq!(render_amount(0), "0");
    assert_eq!(render_amount(1), "0.000000001");
    assert_eq!(render_amount(1_000_000_000), "1");
    assert_eq!(render_amount(100_000_000), "0.1");
    assert_eq!(render_amount(1_000_000), "0.001");
    assert_eq!(render_amount(10_000_000_010), "10.00000001");
    assert_eq!(render_amount(123_456_789_012), "123.456789012");
    assert_eq!(render_amount(u64::MAX), "18446744073.709551615");
}

#[test]
fn amounts_agree_with_floating_point_display_where_that_is_exact() {
    for amount in [0u64, 1, 5, 250_000_000, 2_500_000_000, 100_000_000, 42_000_000_000, 999_999_999]
    {
        let shown = amount as f64 / 1_000_000_000.;
        assert_eq!(render_amount(amount), shown.to_string());
    }
}

#[test]
fn decimal_digits_of_integers() {
    assert_eq!(render_decimal(0), "0");
    assert_eq!(render_decimal(7), "7");
    assert_eq!(render_decimal(10), "10");
    assert_eq!(render_decimal(1_234_567_890), "1234567890");
    assert_eq!(render_decimal(u64::MAX), u64::MAX.to_string());
}

#[test]
fn balance_of_account_is_reported_in_display_units() {
    let result = BalanceResult { account: Address { bytes: [7u8; 32] }, balance: 2_500_000_000 };
    let line = render_balance(&result);
    let wallet = Pubkey::new_from_array([7u8; 32]).to_string();
    assert_eq!(line, format!("wallet: {}, balance {} SOL", wallet, 2.5f64));
}
