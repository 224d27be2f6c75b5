//! The ledger SDK's values that the cranker's logic carries (keys, account
//! addresses, transaction signatures) and the SDK calls that build them.
use vstd::prelude::*;
use solana_sdk::pubkey::{ParsePubkeyError, Pubkey};
use solana_sdk::signature::{Keypair, Signature};
use std::str::FromStr;

verus! {

#[verifier::external_type_specification]
#[verifier::external_body]
pub struct ExPubkey(Pubkey);

#[verifier::external_type_specification]
#[verifier::external_body]
pub struct ExParsePubkeyError(ParsePubkeyError);

#[verifier::external_type_specification]
#[verifier::external_body]
pub struct ExKeypair(Keypair);

#[verifier::external_type_specification]
#[verifier::external_body]
pub struct ExSignature(Signature);

/// The error type of `Signature`'s `TryFrom<&[u8]>` impl; declaring
/// `Signature` makes Verus read that impl, which names it.
#[verifier::external_type_specification]
#[verifier::external_body]
pub struct ExTryFromSliceError(core::array::TryFromSliceError);

#[verifier::external_type_specification]
#[verifier::external_body]
pub struct ExBase58Error(bs58::decode::Error);

/// The bytes that a text decodes to in the Bitcoin base58 alphabet, or none
/// where it holds a character outside that alphabet.
pub uninterp spec fn base58_decoding(s: Seq<char>) -> Option<Seq<u8>>;

/// The account address that a text spells, or none where it spells none.
pub uninterp spec fn parsed_pubkey(s: Seq<char>) -> Option<Pubkey>;

/// The signing key that a 32-byte secret seed determines.
pub uninterp spec fn keypair_of_seed(seed: Seq<u8>) -> Keypair;

/// Relies on `bs58::decode(..).into_vec()`: the decoded bytes, or the
/// decoding error, depend on the text alone.
#[verifier::external_body]
pub(crate) fn decode_base58(s: &str) -> (r: Result<Vec<u8>, bs58::decode::Error>)
    ensures
        match r {
            Ok(b) => base58_decoding(s@) == Some(b@),
            Err(_) => base58_decoding(s@) is None,
        },
{
    bs58::decode(s).into_vec()
}

/// Relies on `Pubkey::from_str`: the address, or the failure, depends on the
/// text alone.
#[verifier::external_body]
pub(crate) fn parse_pubkey(s: &str) -> (r: Result<Pubkey, ParsePubkeyError>)
    ensures
        match r {
            Ok(k) => parsed_pubkey(s@) == Some(k),
            Err(_) => parsed_pubkey(s@) is None,
        },
{
    Pubkey::from_str(s)
}

/// Relies on `solana_sdk::signer::keypair::keypair_from_seed`: it fails
/// exactly on a seed shorter than 32 bytes, and otherwise builds the key of
/// the first 32 bytes.
#[verifier::external_body]
pub(crate) fn keypair_from_seed(seed: &[u8]) -> (r: Result<Keypair, String>)
    ensures
        match r {
            Ok(k) => seed@.len() >= 32 && k == keypair_of_seed(seed@.subrange(0, 32)),
            Err(_) => seed@.len() < 32,
        },
{
    solana_sdk::signer::keypair::keypair_from_seed(seed).map_err(|e| e.to_string())
}

} // verus!
