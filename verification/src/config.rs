//! Checks of configured keys and addresses, and the batches made of them.

use vstd::prelude::*;
use vstd::slice::slice_to_vec;
use crate::ledger::{keypair_address, parsed_address};
use crate::model::{Address, Credential, Operation};

verus! {

/// The number of bytes of a signing secret.
pub const CREDENTIAL_LEN: usize = 64;

/// Why a configuration was rejected. `index` counts from 0.
#[derive(Clone, Copy, Debug, PartialEq, Eq)]
pub enum ConfigError {
    CredentialLength { index: usize },
    ListLengthMismatch,
    MalformedCredential { index: usize },
    MalformedAddress { index: usize },
}

/// Whether `op` is the transfer of `amount` from the holder of `key` to the
/// account that `recipient` names.
pub open spec fn is_transfer_of(op: Operation, key: Seq<u8>, recipient: Seq<char>, amount: u64) -> bool {
    &&& op matches Operation::Transfer { amount: a, source, destination }
    &&& a == amount
    &&& source.secret() == key
    &&& keypair_address(key) == Some(source.signer()@)
    &&& parsed_address(recipient) == Some(destination@)
}

/// Whether `op` is the balance query for the account that `wallet` names.
pub open spec fn is_query_of(op: Operation, wallet: Seq<char>) -> bool {
    &&& op matches Operation::BalanceQuery { account }
    &&& parsed_address(wallet) == Some(account@)
}

/// Checks the shape of a batch configuration: every signing secret has 64
/// bytes, and there are as many secrets as recipients. The first secret of
/// another length is named; the lists are compared only where every secret
/// has the right length.
pub fn validate_batch(keys: &Vec<Vec<u8>>, recipients: &Vec<String>) -> (result: Result<(), ConfigError>)
    ensures
        match result {
            Ok(_) => {
                &&& forall|k: int| 0 <= k < keys@.len() ==> keys@[k]@.len() == CREDENTIAL_LEN
                &&& keys@.len() == recipients@.len()
            },
            Err(ConfigError::CredentialLength { index }) => {
                &&& index < keys@.len()
                &&& keys@[index as int]@.len() != CREDENTIAL_LEN
                &&& forall|k: int| 0 <= k < index ==> keys@[k]@.len() == CREDENTIAL_LEN
            },
            Err(ConfigError::ListLengthMismatch) => {
                &&& forall|k: int| 0 <= k < keys@.len() ==> keys@[k]@.len() == CREDENTIAL_LEN
                &&& keys@.len() != recipients@.len()
            },
            Err(_) => false,
        },
{
    let n: usize = keys.len();
    let mut i: usize = 0;
    while i < n
        invariant
            i <= n,
            n == keys@.len(),
            forall|k: int| 0 <= k < i ==> keys@[k]@.len() == CREDENTIAL_LEN,
        decreases n - i,
    {
        if keys[i].len() != CREDENTIAL_LEN {
            return Err(ConfigError::CredentialLength { index: i });
        }
        i += 1;
    }
    if n != recipients.len() {
        return Err(ConfigError::ListLengthMismatch);
    }
    Ok(())
}

/// Builds the transfer of `amount` from the holder of `key` to `recipient`.
/// The secret is checked first, then the address; `index` is the place that an
/// error names.
pub fn form_transfer(index: usize, key: &Vec<u8>, recipient: &str, amount: u64) -> (result: Result<
    Operation,
    ConfigError,
>)
    ensures
        match result {
            Ok(op) => is_transfer_of(op, key@, recipient@, amount),
            Err(e) => if keypair_address(key@) is None {
                e == (ConfigError::MalformedCredential { index })
            } else {
                parsed_address(recipient@) is None && e == (ConfigError::MalformedAddress { index })
            },
        },
{
    let source = match Credential::from_bytes(slice_to_vec(key.as_slice())) {
        Some(source) => source,
        None => {
            return Err(ConfigError::MalformedCredential { index });
        },
    };
    let destination = match Address::parse(recipient) {
        Some(destination) => destination,
        None => {
            return Err(ConfigError::MalformedAddress { index });
        },
    };
    Ok(Operation::Transfer { amount, source, destination })
}

/// Builds the batch of transfers: the holder of the secret at each place sends
/// `amount` to the recipient at the same place. Lists of different lengths
/// are rejected; otherwise the first place with a malformed secret or address
/// is named, the secret before the address.
pub fn form_transfers(keys: &Vec<Vec<u8>>, recipients: &Vec<String>, amount: u64) -> (result: Result<
    Vec<Operation>,
    ConfigError,
>)
    ensures
        match result {
            Ok(ops) => {
                &&& keys@.len() == recipients@.len()
                &&& ops@.len() == keys@.len()
                &&& forall|k: int|
                    0 <= k < ops@.len() ==> is_transfer_of(
                        #[trigger] ops@[k],
                        keys@[k]@,
                        recipients@[k]@,
                        amount,
                    )
            },
            Err(ConfigError::ListLengthMismatch) => keys@.len() != recipients@.len(),
            Err(ConfigError::MalformedCredential { index }) => {
                &&& keys@.len() == recipients@.len()
                &&& index < keys@.len()
                &&& keypair_address(keys@[index as int]@) is None
                &&& forall|k: int|
                    0 <= k < index ==> keypair_address(#[trigger] keys@[k]@) is Some
                        && parsed_address(recipients@[k]@) is Some
            },
            Err(ConfigError::MalformedAddress { index }) => {
                &&& keys@.len() == recipients@.len()
                &&& index < keys@.len()
                &&& keypair_address(keys@[index as int]@) is Some
                &&& parsed_address(recipients@[index as int]@) is None
                &&& forall|k: int|
                    0 <= k < index ==> keypair_address(#[trigger] keys@[k]@) is Some
                        && parsed_address(recipients@[k]@) is Some
            },
            Err(ConfigError::CredentialLength { .. }) => false,
        },
{
    let n: usize = keys.len();
    if n != recipients.len() {
        return Err(ConfigError::ListLengthMismatch);
    }
    let mut ops: Vec<Operation> = Vec::new();
    let mut i: usize = 0;
    while i < n
        invariant
            i <= n,
            n == keys@.len(),
            n == recipients@.len(),
            ops@.len() == i,
            forall|k: int|
                0 <= k < i ==> is_transfer_of(#[trigger] ops@[k], keys@[k]@, recipients@[k]@, amount),
            forall|k: int|
                0 <= k < i ==> keypair_address(#[trigger] keys@[k]@) is Some && parsed_address(
                    recipients@[k]@,
                ) is Some,
        decreases n - i,
    {
        match form_transfer(i, &keys[i], recipients[i].as_str(), amount) {
            Ok(op) => {
                ops.push(op);
            },
            Err(e) => {
                return Err(e);
            },
        }
        i += 1;
    }
    Ok(ops)
}

/// Builds the batch of balance queries, one for each wallet, in order. The
/// first wallet that is no well-formed address is named.
pub fn form_queries(wallets: &Vec<String>) -> (result: Result<Vec<Operation>, ConfigError>)
    ensures
        match result {
            Ok(ops) => {
                &&& ops@.len() == wallets@.len()
                &&& forall|k: int|
                    0 <= k < ops@.len() ==> is_query_of(#[trigger] ops@[k], wallets@[k]@)
            },
            Err(ConfigError::MalformedAddress { index }) => {
                &&& index < wallets@.len()
                &&& parsed_address(wallets@[index as int]@) is None
                &&& forall|k: int| 0 <= k < index ==> parsed_address(#[trigger] wallets@[k]@) is Some
            },
            Err(_) => false,
        },
{
    let n: usize = wallets.len();
    let mut ops: Vec<Operation> = Vec::new();
    let mut i: usize = 0;
    while i < n
        invariant
            i <= n,
            n == wallets@.len(),
            ops@.len() == i,
            forall|k: int| 0 <= k < i ==> is_query_of(#[trigger] ops@[k], wallets@[k]@),
            forall|k: int| 0 <= k < i ==> parsed_address(#[trigger] wallets@[k]@) is Some,
        decreases n - i,
    {
        match Address::parse(wallets[i].as_str()) {
            Some(account) => {
                ops.push(Operation::BalanceQuery { account });
            },
            None => {
                return Err(ConfigError::MalformedAddress { index: i });
            },
        }
        i += 1;
    }
    Ok(ops)
}

} // verus!
