//! The data model: addresses, signing credentials, operations and their results.

use vstd::prelude::*;
use crate::ledger::{derive_address, keypair_address, parse_address, parsed_address};

verus! {

/// A validated account address: the 32 bytes of the ledger's public key.
#[derive(Clone, Copy, Debug, PartialEq, Eq)]
pub struct Address {
    pub bytes: [u8; 32],
}

impl View for Address {
    type V = Seq<u8>;

    open spec fn view(&self) -> Seq<u8> {
        self.bytes@
    }
}

impl Address {
    /// Decodes a textual address; `None` where the text is no well-formed address.
    pub fn parse(text: &str) -> (result: Option<Address>)
        ensures
            result is Some <==> parsed_address(text@) is Some,
            result is Some ==> result.unwrap()@ == parsed_address(text@).unwrap(),
    {
        match parse_address(text) {
            Some(bytes) => Some(Address { bytes }),
            None => None,
        }
    }
}

/// An opaque signing secret together with the address derived from it.
/// It cannot be copied, printed or compared.
pub struct Credential {
    secret: Vec<u8>,
    address: Address,
}

impl Credential {
    #[verifier::type_invariant]
    spec fn well_formed(&self) -> bool {
        keypair_address(self.secret@) == Some(self.address@)
    }

    /// The bytes of the secret.
    pub closed spec fn secret(&self) -> Seq<u8> {
        self.secret@
    }

    /// The address that belongs to the secret.
    pub closed spec fn signer(&self) -> Address {
        self.address
    }

    /// Takes ownership of a signing secret; `None` where the bytes are no
    /// well-formed signing key.
    pub fn from_bytes(secret: Vec<u8>) -> (result: Option<Credential>)
        ensures
            result is Some <==> keypair_address(secret@) is Some,
            result is Some ==> result.unwrap().secret() == secret@,
            result is Some ==> keypair_address(secret@) == Some(result.unwrap().signer()@),
            result is Some ==> secret@.len() == 64 && result.unwrap().signer()@
                == secret@.subrange(32, 64),
    {
        match derive_address(secret.as_slice()) {
            Some(bytes) => Some(Credential { secret, address: Address { bytes } }),
            None => None,
        }
    }

    /// The address derived from the secret.
    pub fn address(&self) -> (result: Address)
        ensures
            result == self.signer(),
            keypair_address(self.secret()) == Some(result@),
    {
        proof {
            use_type_invariant(self);
        }
        self.address
    }

    /// The secret itself, for signing only.
    pub(crate) fn secret_bytes(&self) -> (result: &[u8])
        ensures
            result@ == self.secret(),
            keypair_address(result@) == Some(self.signer()@),
    {
        proof {
            use_type_invariant(self);
        }
        self.secret.as_slice()
    }
}

/// The short-lived value that a transfer request must carry to be accepted.
#[derive(Clone, Copy, Debug, PartialEq, Eq)]
pub struct ReferenceHandle {
    pub bytes: [u8; 32],
}

/// The identifier under which the ledger confirms a submitted transfer.
#[derive(Clone, Copy, Debug, PartialEq, Eq)]
pub struct ConfirmationId {
    pub bytes: [u8; 64],
}

/// One unit of work, with everything needed to carry it out.
pub enum Operation {
    BalanceQuery { account: Address },
    Transfer { amount: u64, source: Credential, destination: Address },
}

/// How certain an answer of the ledger has to be.
#[derive(Clone, Copy, Debug, PartialEq, Eq)]
pub enum Consistency {
    Recent,
    Confirmed,
    Finalized,
}

/// A failure of one call to the ledger.
#[derive(Debug, PartialEq, Eq)]
pub enum LedgerError {
    Unavailable,
    InvalidAccount,
    SubmissionRejected(String),
}

/// What the ledger says of a confirmed transfer's execution.
#[derive(Debug, PartialEq, Eq)]
pub enum StatusReport {
    Succeeded,
    Failed(String),
}

/// The final determination of a transfer.
#[derive(Debug, PartialEq, Eq)]
pub enum Outcome {
    Confirmed,
    ConfirmedWithError(String),
    StatusUnknown,
}

#[derive(Debug, PartialEq, Eq)]
pub struct BalanceResult {
    pub account: Address,
    pub balance: u64,
}

#[derive(Debug, PartialEq, Eq)]
pub struct TransferResult {
    pub from: Address,
    pub to: Address,
    pub confirmation_id: ConfirmationId,
    pub elapsed_nanos: u64,
    pub outcome: Outcome,
}

/// What a completed operation produced.
#[derive(Debug, PartialEq, Eq)]
pub enum OperationResult {
    Balance(BalanceResult),
    Transfer(TransferResult),
}

/// Why one operation produced no result. Siblings are not affected.
#[derive(Debug, PartialEq, Eq)]
pub enum OperationError {
    BalanceUnavailable(LedgerError),
    HandleUnavailable(LedgerError),
    SubmissionFailed(LedgerError),
}

/// A signed transfer request, ready for submission.
#[derive(Debug, PartialEq, Eq)]
pub struct SignedTransfer {
    pub signature: [u8; 64],
    pub message: Vec<u8>,
}

} // verus!
