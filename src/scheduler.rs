//! The epoch-gated crank scheduler: on each tick it compares the ledger's
//! current epoch with the last one cranked, runs at most one crank cycle per
//! epoch, and records an epoch only once its cycle succeeded.
//!
//! The caller owns the poll loop and every remote call: it hands the
//! scheduler the outcome of each and performs the action it is given back.
use vstd::prelude::*;
use solana_sdk::pubkey::Pubkey;
use solana_sdk::signature::Keypair;
use crate::config::{CrankerConfig, EpochStorageType, PoolType};
use crate::epoch_state::{content_view, load_outcome, saved_text, EpochState};
use crate::error::CrankerError;
use crate::ledger::{base58_decoding, keypair_of_seed, parse_pubkey, parsed_pubkey};
use crate::pool::{CrankCycle, CycleStage, PoolHandler};
use crate::text::{parse_u64, trimmed};
use crate::transaction::{parse_keypair, secret_key_ok};

verus! {

/// A crank is due when no epoch was cranked yet, or the current epoch is
/// past the last one cranked.
pub open spec fn crank_due(last: Option<u64>, current: u64) -> bool {
    match last {
        None => true,
        Some(l) => current > l,
    }
}

/// The last cranked epoch after a tick that observed `current` and, where a
/// crank was due, ran a cycle that succeeded or not.
pub open spec fn after_tick(last: Option<u64>, current: u64, succeeded: bool) -> Option<u64> {
    if crank_due(last, current) && succeeded {
        Some(current)
    } else {
        last
    }
}

/// The epoch the scheduler starts from: the loaded one, or none where
/// loading failed.
pub open spec fn restored_epoch(outcome: Option<Option<u64>>) -> Option<u64> {
    match outcome {
        Some(v) => v,
        None => None,
    }
}

/// What a tick leads to.
#[derive(Debug, Clone, Copy, PartialEq, Eq, Structural)]
pub enum TickDecision {
    /// The current epoch could not be had; wait for the next tick.
    QueryFailed,
    /// The epoch was already cranked; wait for the next tick.
    AlreadyCranked(u64),
    /// Run a crank cycle for the epoch.
    Crank(u64),
}

/// The last cranked epoch, and the epoch whose cycle is under way.
pub struct EpochTracker {
    last_cranked_epoch: Option<u64>,
    pending_epoch: Option<u64>,
}

impl EpochTracker {
    pub closed spec fn last(&self) -> Option<u64> {
        self.last_cranked_epoch
    }

    pub closed spec fn pending(&self) -> Option<u64> {
        self.pending_epoch
    }

    /// An epoch under way is always one whose crank is due.
    pub open spec fn wf(&self) -> bool {
        self.pending() is Some ==> crank_due(self.last(), self.pending()->Some_0)
    }

    pub fn new(last_cranked_epoch: Option<u64>) -> (r: EpochTracker)
        ensures
            r.wf(),
            r.last() == last_cranked_epoch,
            r.pending() is None,
    {
        EpochTracker { last_cranked_epoch, pending_epoch: None }
    }

    /// Starts from what loading the stored epoch gave; a failed load counts
    /// as no epoch cranked yet.
    pub fn restore(loaded: &Result<Option<u64>, CrankerError>) -> (r: EpochTracker)
        ensures
            r.wf(),
            r.pending() is None,
            r.last() == match loaded {
                Ok(v) => *v,
                Err(_) => None,
            },
    {
        match loaded {
            Ok(v) => EpochTracker::new(*v),
            Err(_) => EpochTracker::new(None),
        }
    }

    pub fn last_cranked_epoch(&self) -> (r: Option<u64>)
        ensures
            r == self.last(),
    {
        self.last_cranked_epoch
    }

    pub fn should_crank(&self, current_epoch: u64) -> (r: bool)
        ensures
            r == crank_due(self.last(), current_epoch),
    {
        match self.last_cranked_epoch {
            Some(last) => current_epoch > last,
            None => true,
        }
    }

    /// Decides a tick from the current epoch, none where the query failed.
    /// A due epoch becomes the one under way; the last cranked epoch stays.
    pub fn on_tick(&mut self, current_epoch: Option<u64>) -> (r: TickDecision)
        ensures
            final(self).wf(),
            final(self).last() == old(self).last(),
            match current_epoch {
                None => r == TickDecision::QueryFailed && final(self).pending() is None,
                Some(e) => if crank_due(old(self).last(), e) {
                    r == TickDecision::Crank(e) && final(self).pending() == Some(e)
                } else {
                    r == TickDecision::AlreadyCranked(e) && final(self).pending() is None
                },
            },
    {
        match current_epoch {
            None => {
                self.pending_epoch = None;
                TickDecision::QueryFailed
            },
            Some(e) => {
                if self.should_crank(e) {
                    self.pending_epoch = Some(e);
                    TickDecision::Crank(e)
                } else {
                    self.pending_epoch = None;
                    TickDecision::AlreadyCranked(e)
                }
            },
        }
    }

    /// Ends the cycle under way. On success its epoch becomes the last
    /// cranked one and is returned, to be stored; on failure the last
    /// cranked epoch stays, so the next tick in the same epoch tries again.
    pub fn on_cycle_result(&mut self, succeeded: bool) -> (r: Option<u64>)
        requires
            old(self).wf(),
        ensures
            final(self).wf(),
            final(self).pending() is None,
            match old(self).pending() {
                Some(e) => if succeeded {
                    r == Some(e) && final(self).last() == after_tick(old(self).last(), e, true)
                } else {
                    r is None && final(self).last() == old(self).last()
                },
                None => r is None && final(self).last() == old(self).last(),
            },
    {
        let pending = self.pending_epoch;
        self.pending_epoch = None;
        match pending {
            Some(e) => {
                if succeeded {
                    self.last_cranked_epoch = Some(e);
                    Some(e)
                } else {
                    None
                }
            },
            None => None,
        }
    }
}

/// The stored epoch never goes back: a tick leaves it as it was or moves it
/// to a later epoch. After a successful cycle the same epoch is not due
/// again; a failed cycle leaves the stored epoch as it was, so the same
/// epoch is due again on the next tick.
pub proof fn lemma_stored_epoch_monotone(last: Option<u64>, current: u64, succeeded: bool)
    ensures
        last is Some ==> after_tick(last, current, succeeded) is Some && after_tick(
            last,
            current,
            succeeded,
        )->Some_0 >= last->Some_0,
        !crank_due(after_tick(last, current, true), current),
        after_tick(last, current, false) == last,
        crank_due(after_tick(last, current, false), current) == crank_due(last, current),
{
}

/// Once an epoch is cranked, observing it again, or an earlier one, runs no
/// further cycle.
pub proof fn lemma_no_recrank(last: u64, current: u64)
    requires
        current <= last,
    ensures
        !crank_due(Some(last), current),
        after_tick(Some(last), current, true) == Some(last),
{
}

/// At startup a malformed epoch file fails the load, and the scheduler then
/// starts as though no epoch had been cranked.
pub proof fn lemma_malformed_file_starts_fresh(content: Seq<char>)
    requires
        parse_u64(trimmed(content)) is None,
    ensures
        load_outcome(EpochStorageType::File, None, Some(content)) is None,
        restored_epoch(load_outcome(EpochStorageType::File, None, Some(content))) is None,
{
}

/// The scheduler's own state: its settings, the pool family's strategy, the
/// admin key, the epoch store and the epoch tracker.
pub struct CrankScheduler {
    config: CrankerConfig,
    pool_handler: PoolHandler,
    admin_keypair: Keypair,
    epoch_state: EpochState,
    tracker: EpochTracker,
}

impl CrankScheduler {
    pub closed spec fn settings(&self) -> &CrankerConfig {
        &self.config
    }

    pub closed spec fn family(&self) -> PoolType {
        self.pool_handler.family()
    }

    /// The admin key the scheduler signs with.
    pub closed spec fn admin_key(&self) -> Keypair {
        self.admin_keypair
    }

    pub closed spec fn store(&self) -> EpochState {
        self.epoch_state
    }

    pub closed spec fn progress(&self) -> EpochTracker {
        self.tracker
    }

    pub open spec fn wf(&self) -> bool {
        &&& self.progress().wf()
        &&& self.family() == self.settings().pool_type
        &&& self.store().backend() == self.settings().epoch_storage_type
        &&& self.store().path() == self.settings().epoch_state_file@
    }

    /// Builds the scheduler: the strategy of the configured pool family, the
    /// admin key from its base58 secret, and an epoch store on the
    /// configured backend. Fails exactly where the secret is not the base58
    /// text of a 64-byte key.
    pub fn new(config: CrankerConfig) -> (r: Result<CrankScheduler, CrankerError>)
        ensures
            match r {
                Ok(s) => s.wf() && *s.settings() == config && s.progress().last() is None
                    && s.store().cached() is None && exists|b: Seq<u8>|
                    base58_decoding(config.admin_private_key@) == Some(b) && secret_key_ok(b)
                        && s.admin_key() == keypair_of_seed(b.subrange(0, 32)),
                Err(e) => e is PrivateKey && match base58_decoding(config.admin_private_key@) {
                    Some(b) => !secret_key_ok(b),
                    None => true,
                },
            },
    {
        let pool_handler = PoolHandler::for_pool_type(config.pool_type);
        let admin_keypair = parse_keypair(config.admin_private_key.as_str())?;
        let epoch_state = EpochState::new(
            config.epoch_storage_type,
            config.epoch_state_file.clone(),
        );
        Ok(CrankScheduler {
            config,
            pool_handler,
            admin_keypair,
            epoch_state,
            tracker: EpochTracker::new(None),
        })
    }

    pub fn config(&self) -> (r: &CrankerConfig)
        ensures
            *r == *self.settings(),
    {
        &self.config
    }

    pub fn admin_keypair(&self) -> (r: &Keypair)
        ensures
            *r == self.admin_key(),
    {
        &self.admin_keypair
    }

    pub fn pool_handler(&self) -> (r: &PoolHandler)
        ensures
            r.family() == self.family(),
    {
        &self.pool_handler
    }

    pub fn epoch_state(&self) -> (r: &EpochState)
        ensures
            *r == self.store(),
    {
        &self.epoch_state
    }

    pub fn last_cranked_epoch(&self) -> (r: Option<u64>)
        ensures
            r == self.progress().last(),
    {
        self.tracker.last_cranked_epoch()
    }

    /// Loads the last cranked epoch at startup, from the backing file's
    /// text (none where the file does not exist) for the file backend. A
    /// failed load is returned for the log and counts as no epoch cranked.
    pub fn restore(&mut self, file_content: Option<&str>) -> (r: Result<
        Option<u64>,
        CrankerError,
    >)
        requires
            old(self).wf(),
        ensures
            final(self).wf(),
            *final(self).settings() == *old(self).settings(),
            final(self).admin_key() == old(self).admin_key(),
            final(self).progress().pending() is None,
            final(self).progress().last() == restored_epoch(
                load_outcome(
                    old(self).store().backend(),
                    old(self).store().cached(),
                    content_view(file_content),
                ),
            ),
            match r {
                Ok(v) => load_outcome(
                    old(self).store().backend(),
                    old(self).store().cached(),
                    content_view(file_content),
                ) == Some(v),
                Err(_) => load_outcome(
                    old(self).store().backend(),
                    old(self).store().cached(),
                    content_view(file_content),
                ) is None,
            },
    {
        let loaded = self.epoch_state.load(file_content);
        self.tracker = EpochTracker::restore(&loaded);
        loaded
    }

    /// Decides a tick from the current epoch, none where the query failed.
    pub fn on_tick(&mut self, current_epoch: Option<u64>) -> (r: TickDecision)
        requires
            old(self).wf(),
        ensures
            final(self).wf(),
            *final(self).settings() == *old(self).settings(),
            final(self).admin_key() == old(self).admin_key(),
            final(self).store() == old(self).store(),
            final(self).progress().last() == old(self).progress().last(),
            match current_epoch {
                None => r == TickDecision::QueryFailed,
                Some(e) => if crank_due(old(self).progress().last(), e) {
                    r == TickDecision::Crank(e) && final(self).progress().pending() == Some(e)
                } else {
                    r == TickDecision::AlreadyCranked(e)
                },
            },
            !(r is Crank) ==> final(self).progress().pending() is None,
    {
        self.tracker.on_tick(current_epoch)
    }

    /// The reserve account and the pool account a cycle works on; the pool
    /// account is the reserve account where none is configured.
    pub fn crank_targets(&self) -> (r: Result<(Pubkey, Pubkey), CrankerError>)
        ensures
            match r {
                Ok((reserve, pool)) => parsed_pubkey(self.settings().pool_reserve_address@) == Some(
                    reserve,
                ) && match self.settings().pool_address {
                    Some(p) => parsed_pubkey(p@) == Some(pool),
                    None => pool == reserve,
                },
                Err(e) => e is Config && (parsed_pubkey(self.settings().pool_reserve_address@) is None
                    || match self.settings().pool_address {
                    Some(p) => parsed_pubkey(p@) is None,
                    None => false,
                }),
            },
    {
        let reserve = match parse_pubkey(self.config.pool_reserve_address.as_str()) {
            Ok(k) => k,
            Err(_) => {
                return Err(CrankerError::Config(String::from_str("Invalid reserve address")));
            },
        };
        match &self.config.pool_address {
            Some(p) => match parse_pubkey(p.as_str()) {
                Ok(k) => Ok((reserve, k)),
                Err(_) => Err(CrankerError::Config(String::from_str("Invalid pool address"))),
            },
            None => Ok((reserve, reserve)),
        }
    }

    /// A fresh crank cycle of the configured pool family.
    pub fn begin_cycle(&self) -> (r: CrankCycle)
        ensures
            r.wf(),
            r.family() == self.family(),
            r.stage_of() == CycleStage::Deposit,
    {
        let handler = match self.pool_handler {
            PoolHandler::Sanctum(_) => PoolHandler::for_pool_type(PoolType::Sanctum),
            PoolHandler::Native(_) => PoolHandler::for_pool_type(PoolType::Native),
        };
        CrankCycle::start(handler)
    }

    /// Ends the cycle under way. On success its epoch is recorded, in
    /// memory at once; for the file backend the text that the backing file
    /// must now hold is returned, and failing to write it does not undo the
    /// record. On failure nothing changes and nothing is returned.
    pub fn on_cycle_result(&mut self, succeeded: bool) -> (r: Option<String>)
        requires
            old(self).wf(),
        ensures
            final(self).wf(),
            *final(self).settings() == *old(self).settings(),
            final(self).admin_key() == old(self).admin_key(),
            final(self).progress().pending() is None,
            match old(self).progress().pending() {
                Some(e) => if succeeded {
                    final(self).progress().last() == Some(e) && final(self).store().cached()
                        == Some(e) && match old(self).settings().epoch_storage_type {
                        EpochStorageType::Memory => r is None,
                        EpochStorageType::File => r is Some && r->Some_0@ == saved_text(e),
                    }
                } else {
                    final(self).progress().last() == old(self).progress().last() && final(self).store() == old(self).store() && r is None
                },
                None => final(self).progress().last() == old(self).progress().last() && final(self).store() == old(self).store() && r is None,
            },
    {
        match self.tracker.on_cycle_result(succeeded) {
            Some(e) => self.epoch_state.save(e),
            None => None,
        }
    }
}

} // verus!
