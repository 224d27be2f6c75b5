//! The pool families' crank strategies and the two-step crank cycle they
//! share: a deposit to the reserve account, then, where the family needs it,
//! an update of the pool.
use vstd::prelude::*;
use solana_sdk::instruction::Instruction;
use solana_sdk::pubkey::Pubkey;
use solana_sdk::signature::{Keypair, Signature};
use spl_stake_pool::state::StakePool;
use crate::config::PoolType;
use crate::error::CrankerError;

verus! {

/// Strategy of a Sanctum pool: deposits are registered by the receiving
/// program, so the pool needs no update.
pub struct SanctumPoolHandler;

/// Strategy of a native stake pool: each deposit is followed by an update of
/// the pool's balance.
pub struct NativePoolHandler;

impl SanctumPoolHandler {
    pub fn new() -> SanctumPoolHandler {
        SanctumPoolHandler
    }
}

#[verifier::external_type_specification]
#[verifier::external_body]
pub struct ExStakePool(StakePool);

#[verifier::external_type_specification]
#[verifier::external_body]
pub struct ExInstruction(Instruction);

/// The stake pool state that an account's data holds, none where the data
/// does not decode as one.
pub uninterp spec fn decoded_stake_pool(data: Seq<u8>) -> Option<StakePool>;

/// Relies on `solana_program::borsh0_10::try_from_slice_unchecked`: it
/// decodes a `StakePool` from the front of the data, and whether it succeeds
/// and what it gives depend on the bytes alone.
#[verifier::external_body]
fn stake_pool_from_data(data: &[u8]) -> (r: Result<StakePool, String>)
    ensures
        match r {
            Ok(p) => decoded_stake_pool(data@) == Some(p),
            Err(_) => decoded_stake_pool(data@) is None,
        },
{
    solana_program::borsh0_10::try_from_slice_unchecked::<StakePool>(data).map_err(
        |e| e.to_string(),
    )
}

/// The address that signs for a stake pool under the stake pool program,
/// none where no bump seed gives an address off the curve.
pub uninterp spec fn withdraw_authority_of(stake_pool_address: Pubkey) -> Option<Pubkey>;

/// The stake pool program's balance-update instruction for a pool, its
/// withdraw authority and its state.
pub uninterp spec fn balance_update_of(
    stake_pool_address: Pubkey,
    withdraw_authority: Pubkey,
    stake_pool: StakePool,
) -> Instruction;

/// The system program's instruction that moves `lamports` from one account
/// to another.
pub uninterp spec fn transfer_of(from: Pubkey, to: Pubkey, lamports: u64) -> Instruction;

/// The public key of a signing key.
pub uninterp spec fn pubkey_of(keypair: Keypair) -> Pubkey;

/// Relies on `Pubkey::try_find_program_address` over the seeds that
/// `spl_stake_pool::find_withdraw_authority_program_address` uses (the pool
/// address, then `b"withdraw"`, under the stake pool program's id): the
/// withdraw authority, or none where the bump seed search finds none. The
/// search is what that function unwraps; this form does not panic.
#[verifier::external_body]
fn withdraw_authority(stake_pool_address: &Pubkey) -> (r: Option<Pubkey>)
    ensures
        r == withdraw_authority_of(*stake_pool_address),
{
    Pubkey::try_find_program_address(
        &[stake_pool_address.as_ref(), b"withdraw"],
        &spl_stake_pool::id(),
    ).map(|found| found.0)
}

/// Relies on `solana_program::system_instruction::transfer`: the transfer
/// instruction depends on the two accounts and the amount alone.
#[verifier::external_body]
fn transfer_instruction(from: &Pubkey, to: &Pubkey, lamports: u64) -> (r: Instruction)
    ensures
        r == transfer_of(*from, *to, lamports),
{
    solana_sdk::system_instruction::transfer(from, to, lamports)
}

/// Relies on `Signer::pubkey` of `Keypair`: the public half of the key.
#[verifier::external_body]
fn keypair_pubkey(keypair: &Keypair) -> (r: Pubkey)
    ensures
        r == pubkey_of(*keypair),
{
    solana_sdk::signer::Signer::pubkey(keypair)
}

/// The deposit of a crank cycle: a transfer of `amount` lamports from the
/// admin account to the reserve account.
pub fn deposit_instruction(
    admin: &Keypair,
    reserve_address: &Pubkey,
    amount: u64,
) -> (r: Instruction)
    ensures
        r == transfer_of(pubkey_of(*admin), *reserve_address, amount),
{
    let from = keypair_pubkey(admin);
    transfer_instruction(&from, reserve_address, amount)
}

/// Relies on `spl_stake_pool::instruction::update_stake_pool_balance`: the
/// instruction over the pool, its withdraw authority, and the validator
/// list, reserve stake, fee account and mint that the pool state names.
#[verifier::external_body]
fn update_balance_instruction(
    stake_pool_address: &Pubkey,
    withdraw_authority: &Pubkey,
    stake_pool: &StakePool,
) -> (r: Instruction)
    ensures
        r == balance_update_of(*stake_pool_address, *withdraw_authority, *stake_pool),
{
    spl_stake_pool::instruction::update_stake_pool_balance(
        &spl_stake_pool::id(),
        stake_pool_address,
        withdraw_authority,
        &stake_pool.validator_list,
        &stake_pool.reserve_stake,
        &stake_pool.manager_fee_account,
        &stake_pool.pool_mint,
        &spl_token::id(),
    )
}

impl NativePoolHandler {
    pub fn new() -> NativePoolHandler {
        NativePoolHandler
    }

    /// The instruction that updates the pool's balance, built from the pool
    /// state as just read; none where the pool has no withdraw authority.
    pub fn build_update_instruction(
        stake_pool_address: &Pubkey,
        stake_pool: &StakePool,
    ) -> (r: Option<Instruction>)
        ensures
            r == match withdraw_authority_of(*stake_pool_address) {
                Some(w) => Some(balance_update_of(*stake_pool_address, w, *stake_pool)),
                None => None,
            },
    {
        match withdraw_authority(stake_pool_address) {
            Some(authority) => Some(
                update_balance_instruction(stake_pool_address, &authority, stake_pool),
            ),
            None => None,
        }
    }

    /// The update instruction for the pool whose account holds
    /// `account_data`; fails with a pool error exactly where the data does
    /// not decode as a stake pool or the pool has no withdraw authority.
    pub fn update_instruction_from_data(
        stake_pool_address: &Pubkey,
        account_data: &[u8],
    ) -> (r: Result<Instruction, CrankerError>)
        ensures
            r is Ok <==> (decoded_stake_pool(account_data@) is Some && withdraw_authority_of(
                *stake_pool_address,
            ) is Some),
            r matches Err(e) ==> e is Pool,
            r matches Ok(i) ==> i == balance_update_of(
                *stake_pool_address,
                withdraw_authority_of(*stake_pool_address)->Some_0,
                decoded_stake_pool(account_data@)->Some_0,
            ),
    {
        match stake_pool_from_data(account_data) {
            Ok(pool) => match NativePoolHandler::build_update_instruction(
                stake_pool_address,
                &pool,
            ) {
                Some(instruction) => Ok(instruction),
                None => Err(
                    CrankerError::Pool(String::from_str("No withdraw authority for the pool")),
                ),
            },
            Err(msg) => {
                let mut m = String::from_str("Failed to deserialize stake pool: ");
                m.append(msg.as_str());
                Err(CrankerError::Pool(m))
            },
        }
    }
}

/// The strategy of one pool family, chosen once at startup.
pub enum PoolHandler {
    Sanctum(SanctumPoolHandler),
    Native(NativePoolHandler),
}

impl PoolHandler {
    pub open spec fn family(&self) -> PoolType {
        match self {
            PoolHandler::Sanctum(_) => PoolType::Sanctum,
            PoolHandler::Native(_) => PoolType::Native,
        }
    }

    /// Whether the family's crank step submits a transaction.
    pub open spec fn needs_update(&self) -> bool {
        self.family() == PoolType::Native
    }

    pub fn for_pool_type(pool_type: PoolType) -> (r: PoolHandler)
        ensures
            r.family() == pool_type,
    {
        match pool_type {
            PoolType::Sanctum => PoolHandler::Sanctum(SanctumPoolHandler::new()),
            PoolType::Native => PoolHandler::Native(NativePoolHandler::new()),
        }
    }

    pub fn pool_type(&self) -> (r: PoolType)
        ensures
            r == self.family(),
    {
        match self {
            PoolHandler::Sanctum(_) => PoolType::Sanctum,
            PoolHandler::Native(_) => PoolType::Native,
        }
    }

    /// Whether the crank step submits a pool update; where it does not, the
    /// crank step gives no signature.
    pub fn updates_pool(&self) -> (r: bool)
        ensures
            r == self.needs_update(),
    {
        match self {
            PoolHandler::Sanctum(_) => false,
            PoolHandler::Native(_) => true,
        }
    }
}

/// How far a crank cycle has come.
#[derive(Debug, Clone, Copy, PartialEq, Eq, Structural)]
pub enum CycleStage {
    /// The deposit to the reserve account is to be submitted.
    Deposit,
    /// The deposit was accepted; its confirmation is to be awaited.
    Confirm,
    /// The deposit is confirmed; the pool update is to be submitted.
    Update,
    /// Every step succeeded.
    Done,
    /// A step failed; nothing more is submitted.
    Aborted,
}

/// What the caller is to do next for a crank cycle.
#[derive(Debug, Clone, Copy, PartialEq, Eq, Structural)]
pub enum CycleAction {
    SendToReserve,
    ConfirmDeposit,
    CrankPool,
    Finished,
    Aborted,
}

pub open spec fn action_of(stage: CycleStage) -> CycleAction {
    match stage {
        CycleStage::Deposit => CycleAction::SendToReserve,
        CycleStage::Confirm => CycleAction::ConfirmDeposit,
        CycleStage::Update => CycleAction::CrankPool,
        CycleStage::Done => CycleAction::Finished,
        CycleStage::Aborted => CycleAction::Aborted,
    }
}

/// One crank cycle: the deposit, its confirmation, then the pool update
/// where the family needs one. The steps depend on each other in order; a
/// failed step ends the cycle, and a confirmed deposit is never undone.
pub struct CrankCycle {
    handler: PoolHandler,
    stage: CycleStage,
    deposit_sig: Option<Signature>,
    crank_sig: Option<Signature>,
}

impl CrankCycle {
    pub closed spec fn family(&self) -> PoolType {
        self.handler.family()
    }

    pub closed spec fn stage_of(&self) -> CycleStage {
        self.stage
    }

    pub closed spec fn deposit(&self) -> Option<Signature> {
        self.deposit_sig
    }

    pub closed spec fn update(&self) -> Option<Signature> {
        self.crank_sig
    }

    /// The cycle's shape: a deposit signature from confirmation on, and an
    /// update signature only once a native pool's update went through.
    pub closed spec fn wf(&self) -> bool {
        &&& (self.stage == CycleStage::Deposit ==> self.deposit_sig is None)
        &&& (self.stage == CycleStage::Confirm || self.stage == CycleStage::Update
            || self.stage == CycleStage::Done) ==> self.deposit_sig is Some
        &&& self.stage == CycleStage::Update ==> self.handler.needs_update()
        &&& self.crank_sig is Some ==> (self.stage == CycleStage::Done
            && self.handler.needs_update())
        &&& (self.stage == CycleStage::Done && self.handler.needs_update())
            ==> self.crank_sig is Some
    }

    pub fn start(handler: PoolHandler) -> (r: CrankCycle)
        ensures
            r.wf(),
            r.family() == handler.family(),
            r.stage_of() == CycleStage::Deposit,
            r.deposit() is None,
            r.update() is None,
    {
        CrankCycle { handler, stage: CycleStage::Deposit, deposit_sig: None, crank_sig: None }
    }

    pub fn stage(&self) -> (r: CycleStage)
        ensures
            r == self.stage_of(),
    {
        self.stage
    }

    pub fn next_action(&self) -> (r: CycleAction)
        ensures
            r == action_of(self.stage_of()),
    {
        match self.stage {
            CycleStage::Deposit => CycleAction::SendToReserve,
            CycleStage::Confirm => CycleAction::ConfirmDeposit,
            CycleStage::Update => CycleAction::CrankPool,
            CycleStage::Done => CycleAction::Finished,
            CycleStage::Aborted => CycleAction::Aborted,
        }
    }

    /// The deposit's signature, once the deposit was accepted.
    pub fn deposit_signature(&self) -> (r: Option<Signature>)
        ensures
            r == self.deposit(),
    {
        self.deposit_sig
    }

    /// The deposit was accepted with signature `sig`; its confirmation comes
    /// next. Outside the deposit stage nothing changes.
    pub fn deposit_sent(&mut self, sig: Signature)
        requires
            old(self).wf(),
        ensures
            final(self).wf(),
            final(self).family() == old(self).family(),
            final(self).update() == old(self).update(),
            if old(self).stage_of() == CycleStage::Deposit {
                final(self).stage_of() == CycleStage::Confirm && final(self).deposit() == Some(sig)
            } else {
                final(self).stage_of() == old(self).stage_of() && final(self).deposit() == old(self).deposit()
            },
    {
        if self.stage == CycleStage::Deposit {
            self.stage = CycleStage::Confirm;
            self.deposit_sig = Some(sig);
        }
    }

    /// The deposit is confirmed. A native pool's update comes next; a
    /// Sanctum cycle is done, with no update and nothing more submitted.
    /// Outside the confirmation stage nothing changes.
    pub fn deposit_confirmed(&mut self)
        requires
            old(self).wf(),
        ensures
            final(self).wf(),
            final(self).family() == old(self).family(),
            final(self).deposit() == old(self).deposit(),
            final(self).update() == old(self).update(),
            if old(self).stage_of() == CycleStage::Confirm {
                final(self).stage_of() == if old(self).family() == PoolType::Native {
                    CycleStage::Update
                } else {
                    CycleStage::Done
                }
            } else {
                final(self).stage_of() == old(self).stage_of()
            },
    {
        if self.stage == CycleStage::Confirm {
            if self.handler.updates_pool() {
                self.stage = CycleStage::Update;
            } else {
                self.stage = CycleStage::Done;
            }
        }
    }

    /// The pool update went through with signature `sig`; the cycle is
    /// done. Outside the update stage nothing changes.
    pub fn pool_cranked(&mut self, sig: Signature)
        requires
            old(self).wf(),
        ensures
            final(self).wf(),
            final(self).family() == old(self).family(),
            final(self).deposit() == old(self).deposit(),
            if old(self).stage_of() == CycleStage::Update {
                final(self).stage_of() == CycleStage::Done && final(self).update() == Some(sig)
            } else {
                final(self).stage_of() == old(self).stage_of() && final(self).update() == old(self).update()
            },
    {
        if self.stage == CycleStage::Update {
            self.stage = CycleStage::Done;
            self.crank_sig = Some(sig);
        }
    }

    /// A step failed: the cycle ends, and no later step is taken. A cycle
    /// already done stays done.
    pub fn step_failed(&mut self)
        requires
            old(self).wf(),
        ensures
            final(self).wf(),
            final(self).family() == old(self).family(),
            final(self).deposit() == old(self).deposit(),
            final(self).update() == old(self).update(),
            final(self).stage_of() == if old(self).stage_of() == CycleStage::Done {
                CycleStage::Done
            } else {
                CycleStage::Aborted
            },
    {
        if self.stage != CycleStage::Done {
            self.stage = CycleStage::Aborted;
        }
    }

    /// The signatures of a finished cycle: the deposit's, and the update's
    /// where the family submits one; none before the cycle is done.
    pub fn outcome(&self) -> (r: Option<(Signature, Option<Signature>)>)
        requires
            self.wf(),
        ensures
            match r {
                Some((d, u)) => self.stage_of() == CycleStage::Done && self.deposit() == Some(d)
                    && u == self.update() && (u is Some <==> self.family() == PoolType::Native),
                None => self.stage_of() != CycleStage::Done,
            },
    {
        if self.stage == CycleStage::Done {
            match self.deposit_sig {
                Some(d) => Some((d, self.crank_sig)),
                None => None,
            }
        } else {
            None
        }
    }
}

/// A Sanctum cycle never reaches the update stage: from every stage, each
/// event leaves it outside that stage, and once done it carries no update
/// signature.
pub proof fn lemma_sanctum_never_updates(c: CrankCycle)
    requires
        c.wf(),
        c.family() == PoolType::Sanctum,
    ensures
        c.stage_of() != CycleStage::Update,
        c.update() is None,
{
}

} // verus!
