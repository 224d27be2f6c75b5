//! The admin signing key, and the retry policy under which a signed
//! transaction is submitted.
use vstd::prelude::*;
use solana_sdk::signature::Keypair;
use crate::error::CrankerError;
use crate::ledger::{base58_decoding, decode_base58, keypair_from_seed, keypair_of_seed};

verus! {

/// Seconds to wait before submitting a failed transaction again.
pub const RETRY_BACKOFF_SECS: u64 = 2;

/// A secret key is 64 bytes: the 32-byte seed, then the public key.
pub open spec fn secret_key_ok(b: Seq<u8>) -> bool {
    b.len() == 64
}

/// The signing key of a 64-byte secret key, whose seed is its first half.
pub fn keypair_from_secret_bytes(decoded: &Vec<u8>) -> (r: Result<Keypair, CrankerError>)
    ensures
        match r {
            Ok(k) => secret_key_ok(decoded@) && k == keypair_of_seed(decoded@.subrange(0, 32)),
            Err(e) => !secret_key_ok(decoded@) && e is PrivateKey,
        },
{
    if decoded.len() != 64 {
        return Err(
            CrankerError::PrivateKey(String::from_str("Invalid key length: expected 64 bytes")),
        );
    }
    let mut seed: Vec<u8> = Vec::new();
    let mut i: usize = 0;
    while i < 32
        invariant
            i <= 32,
            decoded@.len() == 64,
            seed@ == decoded@.subrange(0, i as int),
        decreases 32 - i,
    {
        seed.push(decoded[i]);
        i = i + 1;
    }
    assert(seed@.subrange(0, 32) =~= seed@);
    match keypair_from_seed(seed.as_slice()) {
        Ok(k) => Ok(k),
        Err(_) => Err(CrankerError::PrivateKey(String::from_str("Failed to create keypair"))),
    }
}

/// The signing key that the base58 text of a 64-byte secret key stands for.
pub fn parse_keypair(private_key: &str) -> (r: Result<Keypair, CrankerError>)
    ensures
        match r {
            Ok(k) => exists|b: Seq<u8>|
                base58_decoding(private_key@) == Some(b) && secret_key_ok(b) && k
                    == keypair_of_seed(b.subrange(0, 32)),
            Err(e) => e is PrivateKey && match base58_decoding(private_key@) {
                Some(b) => !secret_key_ok(b),
                None => true,
            },
        },
{
    match decode_base58(private_key) {
        Ok(decoded) => keypair_from_secret_bytes(&decoded),
        Err(_) => Err(CrankerError::PrivateKey(String::from_str("Failed to decode base58"))),
    }
}

/// What to do after a submission of a transaction failed.
#[derive(Debug, Clone, Copy, PartialEq, Eq, Structural)]
pub enum SubmitDecision {
    /// Wait `wait_secs`, then submit the same signed transaction again; this
    /// is retry number `attempt`.
    Retry { attempt: u32, wait_secs: u64 },
    /// Report the last error.
    GiveUp,
}

/// How many of its allowed retries a transaction has used.
pub struct RetryBudget {
    retries: u32,
    max_retries: u32,
}

impl RetryBudget {
    pub closed spec fn used(&self) -> u32 {
        self.retries
    }

    pub closed spec fn allowed(&self) -> u32 {
        self.max_retries
    }

    pub open spec fn wf(&self) -> bool {
        self.used() <= self.allowed()
    }

    pub fn new(max_retries: u32) -> (r: RetryBudget)
        ensures
            r.used() == 0,
            r.allowed() == max_retries,
            r.wf(),
    {
        RetryBudget { retries: 0, max_retries }
    }

    /// Retries used so far.
    pub fn retries(&self) -> (r: u32)
        ensures
            r == self.used(),
    {
        self.retries
    }

    /// Decides what follows a failed submission: another one after the fixed
    /// backoff while retries are left, else giving up.
    pub fn on_failure(&mut self) -> (r: SubmitDecision)
        requires
            old(self).wf(),
        ensures
            final(self).wf(),
            final(self).allowed() == old(self).allowed(),
            if old(self).used() < old(self).allowed() {
                final(self).used() == old(self).used() + 1 && r == (SubmitDecision::Retry {
                    attempt: final(self).used(),
                    wait_secs: RETRY_BACKOFF_SECS,
                })
            } else {
                final(self).used() == old(self).used() && r == SubmitDecision::GiveUp
            },
    {
        if self.retries < self.max_retries {
            self.retries = self.retries + 1;
            SubmitDecision::Retry { attempt: self.retries, wait_secs: RETRY_BACKOFF_SECS }
        } else {
            SubmitDecision::GiveUp
        }
    }
}

} // verus!
