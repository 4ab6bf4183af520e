//! The ledger's client library, as far as the orchestration computes with it.
//!
//! Addresses and credentials travel through this crate as base58 text, and
//! sequencing tokens as their 32 bytes. Decoding keys, deriving an address and
//! signing a transfer are the work of `solana_sdk`; the functions below call
//! it, and their contracts are taken on trust from its source. What each call
//! returns is a function of its arguments alone, so each result has a name
//! that the rest of the crate states its own contracts over.

use solana_sdk::pubkey::Pubkey;
use solana_sdk::signature::Keypair;
use solana_sdk::signer::Signer;
use solana_sdk::transaction::Transaction;
use std::str::FromStr;
use vstd::prelude::*;

verus! {

/// `solana_sdk::transaction::Transaction`, a signed ledger transaction.
/// Nothing in this crate looks inside one: it is made by [`sign_transfer`] and
/// carried to the node that takes it.
#[verifier::external_type_specification]
#[verifier::external_body]
pub struct ExTransaction(solana_sdk::transaction::Transaction);

/// What `bs58::decode(text).into_vec()` gives: the bytes that `text` stands
/// for in base58, and `None` if it is not base58.
pub uninterp spec fn base58_bytes(text: Seq<char>) -> Option<Seq<u8>>;

/// What `Signer::pubkey` gives for the key pair that `Keypair::try_from`
/// recovers from these bytes, in base58: the address of the account that the
/// key pair signs for. `None` if the bytes are no key pair.
pub uninterp spec fn keypair_address(keypair: Seq<u8>) -> Option<Seq<char>>;

/// Whether `Pubkey::from_str` accepts `text`, that is, whether `text` is the
/// base58 form of an account address.
pub uninterp spec fn well_formed_address(text: Seq<char>) -> bool;

/// What `solana_sdk::system_transaction::transfer` gives: the transaction
/// that moves `amount` from the account of `keypair` to `destination`, bound
/// to the sequencing token `token` and signed by `keypair`. `None` where the
/// key pair or the destination is malformed.
pub uninterp spec fn signed_transfer(
    keypair: Seq<u8>,
    destination: Seq<char>,
    amount: u64,
    token: Seq<u8>,
) -> Option<Transaction>;

/// Decodes base58 text with `bs58::decode(..).into_vec()`, which
/// `solana_sdk` exports. The result is the decoder's: the bytes, or `None`
/// where it reports an error (a character outside the alphabet).
#[verifier::external_body]
pub(crate) fn decode_base58(text: &str) -> (bytes: Option<Vec<u8>>)
    ensures
        bytes is Some <==> base58_bytes(text@) is Some,
        bytes matches Some(decoded) ==> base58_bytes(text@) == Some(decoded@),
{
    solana_sdk::bs58::decode(text).into_vec().ok()
}

/// Calls `Signer::pubkey` on the key pair that `Keypair::try_from(&[u8])`
/// recovers from the bytes, and renders the address in base58. `None` where
/// `try_from` refuses the bytes: fewer or more than 64 of them, or a public
/// half that does not belong to the secret half.
#[verifier::external_body]
pub(crate) fn address_of_keypair(keypair: &[u8]) -> (address: Option<String>)
    ensures
        address is Some <==> keypair_address(keypair@) is Some,
        address matches Some(text) ==> keypair_address(keypair@) == Some(text@),
{
    Some(Keypair::try_from(keypair).ok()?.pubkey().to_string())
}

/// Whether `Pubkey::from_str` accepts `text`: base58 of exactly 32 bytes.
#[verifier::external_body]
pub(crate) fn is_address(text: &str) -> (accepted: bool)
    ensures
        accepted == well_formed_address(text@),
{
    Pubkey::from_str(text).is_ok()
}

/// Builds and signs a transfer with `solana_sdk::system_transaction::transfer`:
/// one system-program transfer instruction of `amount`, paid for and signed by
/// the source, bound to `token` as its recent blockhash. The source is
/// recovered from `keypair` as in [`address_of_keypair`] and the destination
/// parsed as in [`is_address`]; the result is `None` exactly where one of the
/// two is refused. Signing is deterministic, so equal arguments give equal
/// transactions.
#[verifier::external_body]
pub(crate) fn sign_transfer(
    keypair: &[u8],
    destination: &str,
    amount: u64,
    token: &[u8; 32],
) -> (signed: Option<Transaction>)
    ensures
        signed == signed_transfer(keypair@, destination@, amount, token@),
        signed is Some <==> (keypair_address(keypair@) is Some && well_formed_address(
            destination@,
        )),
{
    let source = Keypair::try_from(keypair).ok()?;
    let target = Pubkey::from_str(destination).ok()?;
    let token = solana_sdk::hash::Hash::new_from_array(*token);
    Some(solana_sdk::system_transaction::transfer(&source, &target, amount, token))
}

/// The address of the account that a credential signs for: the credential is
/// the base58 text of a key pair's 64 bytes.
pub open spec fn credential_address(credential: Seq<char>) -> Option<Seq<char>> {
    match base58_bytes(credential) {
        Some(keypair) => keypair_address(keypair),
        None => None,
    }
}

} // verus!
