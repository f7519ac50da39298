//! The ledger's own key handling, address and signature notation and transfer
//! signing, as `solana_sdk` provides them. Nothing in this module is proved:
//! each function states what is believed of the call it makes.

use std::str::FromStr;
use solana_sdk::pubkey::Pubkey;
use solana_sdk::signature::{Keypair, Signature, Signer};
use solana_sdk::system_transaction;
use vstd::prelude::*;

verus! {

/// The address that `Keypair::from_bytes` derives from a signing secret, or
/// `None` where it rejects the bytes.
pub uninterp spec fn keypair_address(secret: Seq<u8>) -> Option<Seq<u8>>;

/// The bytes that `Pubkey::from_str` decodes from a textual address, or `None`
/// where it rejects the text.
pub uninterp spec fn parsed_address(text: Seq<char>) -> Option<Seq<u8>>;

/// The text that `Pubkey`'s `to_string` gives for the 32 bytes of an address.
pub uninterp spec fn address_text(bytes: Seq<u8>) -> Seq<char>;

/// The text that `Signature`'s `to_string` gives for the 64 bytes of a
/// confirmation identifier.
pub uninterp spec fn confirmation_text(bytes: Seq<u8>) -> Seq<char>;

/// The signature and the serialized message of the transaction that
/// `system_transaction::transfer` builds and signs.
pub uninterp spec fn signed_transfer(
    secret: Seq<u8>,
    destination: Seq<u8>,
    amount: u64,
    handle: Seq<u8>,
) -> (Seq<u8>, Seq<u8>);

/// Calls `Keypair::from_bytes` and, where it accepts the secret, `pubkey` on the
/// key pair. Trusted: the result is the named derivation; only secrets of
/// exactly 64 bytes are accepted (shorter ones are refused at once, longer ones
/// when the public half is read); and the address of an accepted secret is
/// its second half, which is kept as it was read.
#[verifier::external_body]
#[allow(deprecated)]
pub(crate) fn derive_address(secret: &[u8]) -> (result: Option<[u8; 32]>)
    ensures
        result is Some <==> keypair_address(secret@) is Some,
        result is Some ==> result.unwrap()@ == keypair_address(secret@).unwrap(),
        result is Some ==> secret@.len() == 64,
        result is Some ==> result.unwrap()@ == secret@.subrange(32, 64),
{
    match Keypair::from_bytes(secret) {
        Ok(pair) => Some(pair.pubkey().to_bytes()),
        Err(_) => None,
    }
}

/// Calls `Pubkey::from_str`. Trusted: the result is the named decoding.
#[verifier::external_body]
pub(crate) fn parse_address(text: &str) -> (result: Option<[u8; 32]>)
    ensures
        result is Some <==> parsed_address(text@) is Some,
        result is Some ==> result.unwrap()@ == parsed_address(text@).unwrap(),
{
    match Pubkey::from_str(text) {
        Ok(key) => Some(key.to_bytes()),
        Err(_) => None,
    }
}

/// Calls `to_string` on the `Pubkey` made of `bytes`. Trusted: the result is
/// the named text.
#[verifier::external_body]
pub(crate) fn encode_address(bytes: &[u8; 32]) -> (text: String)
    ensures
        text@ == address_text(bytes@),
{
    Pubkey::new_from_array(*bytes).to_string()
}

/// Calls `to_string` on the `Signature` made of `bytes`. Trusted: the result
/// is the named text.
#[verifier::external_body]
pub(crate) fn encode_confirmation(bytes: &[u8; 64]) -> (text: String)
    ensures
        text@ == confirmation_text(bytes@),
{
    Signature::from(*bytes).to_string()
}

/// Calls `system_transaction::transfer` with the key pair that
/// `Keypair::from_bytes` makes of `secret`. Trusted: the first signature and
/// the message data of the transaction are the named pair. The secret must be
/// one that `Keypair::from_bytes` accepts.
#[verifier::external_body]
#[allow(deprecated)]
pub(crate) fn sign_transfer(
    secret: &[u8],
    destination: &[u8; 32],
    amount: u64,
    handle: &[u8; 32],
) -> (signed: ([u8; 64], Vec<u8>))
    requires
        keypair_address(secret@) is Some,
    ensures
        (signed.0@, signed.1@) == signed_transfer(secret@, destination@, amount, handle@),
{
    let pair = Keypair::from_bytes(secret).unwrap();
    let to = Pubkey::new_from_array(*destination);
    let recent = solana_sdk::hash::Hash::new_from_array(*handle);
    let tx = system_transaction::transfer(&pair, &to, amount, recent);
    (tx.signatures[0].into(), tx.message_data())
}

} // verus!
