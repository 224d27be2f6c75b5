use pool_cranker::config::{ConfigValues, CrankerConfig, EpochStorageType, PoolType};
use pool_cranker::error::CrankerError;
use pool_cranker::pool::{CycleAction, CycleStage};
use pool_cranker::scheduler::{CrankScheduler, EpochTracker, TickDecision};
use solana_sdk::pubkey::Pubkey;
use solana_sdk::signature::Signature;
use solana_sdk::signer::Signer;
use std::str::FromStr;

const SECRET: &str =
    "2Ana1pUpv2ZbMVkwF5FXapYeBEjdxDatLn7nvJkhgTSXbs59SyZSx866bXirPgj8QQVB57uxHJBG1YFvkRbFj4T";
const RESERVE: &str = "4wBqpZM9xaSheZzJSMawUKKwhdpChKbZ5eu5ky4Vigw";
const POOL: &str = "US517G5965aydkZ46HS38QLi7UQiSojurfbQfKCELFx";

fn config(pool_type: &str, storage: &str, pool: Option<&str>) -> CrankerConfig {
    CrankerConfig::from_values(ConfigValues {
        pool_type: Some(pool_type.to_string()),
        rpc_url: Some("http://localhost:8899".to_string()),
        admin_private_key: Some(SECRET.to_string()),
        pool_reserve_address: Some(RESERVE.to_string()),
        pool_address: pool.map(|p| p.to_string()),
        crank_amount: Some("5".to_string()),
        epoch_poll_interval: None,
        epoch_storage_type: Some(storage.to_string()),
        epoch_state_file: None,
    })
    .unwrap()
}

#[test]
fn repeated_epochs_crank_once_each() {
    let mut t = EpochTracker::new(None);
    let mut cycles = Vec::new();
    for e in [5u64, 5, 6, 6, 7] {
        if let TickDecision::Crank(epoch) = t.on_tick(Some(e)) {
            cycles.push(epoch);
            assert_eq!(t.on_cycle_result(true), Some(epoch));
        }
    }
    assert_eq!(cycles, vec![5, 6, 7]);
    assert_eq!(t.last_cranked_epoch(), Some(7));
}

#[test]
fn failed_cycle_is_retried_next_tick() {
    let mut t = EpochTracker::new(Some(4));
    assert_eq!(t.on_tick(Some(5)), TickDecision::Crank(5));
    assert_eq!(t.on_cycle_result(false), None);
    assert_eq!(t.last_cranked_epoch(), Some(4));
    assert_eq!(t.on_tick(Some(5)), TickDecision::Crank(5));
    assert_eq!(t.on_cycle_result(true), Some(5));
    assert_eq!(t.on_tick(Some(5)), TickDecision::AlreadyCranked(5));
}

#[test]
fn failed_first_cycle_leaves_no_epoch() {
    let mut t = EpochTracker::new(None);
    assert_eq!(t.on_tick(Some(9)), TickDecision::Crank(9));
    assert_eq!(t.on_cycle_result(false), None);
    assert_eq!(t.last_cranked_epoch(), None);
    assert!(t.should_crank(9));
}

#[test]
fn older_epoch_is_not_cranked() {
    let mut t = EpochTracker::new(Some(10));
    assert_eq!(t.on_tick(Some(9)), TickDecision::AlreadyCranked(9));
    assert_eq!(t.on_cycle_result(true), None);
    assert_eq!(t.last_cranked_epoch(), Some(10));
}

#[test]
fn query_failure_changes_nothing() {
    let mut t = EpochTracker::new(Some(3));
    assert_eq!(t.on_tick(None), TickDecision::QueryFailed);
    assert_eq!(t.last_cranked_epoch(), Some(3));
    assert_eq!(t.on_tick(Some(4)), TickDecision::Crank(4));
}

#[test]
fn failed_load_restores_nothing() {
    let t = EpochTracker::restore(&Err(CrankerError::Parse("bad".to_string())));
    assert_eq!(t.last_cranked_epoch(), None);
    let t = EpochTracker::restore(&Ok(Some(12)));
    assert_eq!(t.last_cranked_epoch(), Some(12));
}

#[test]
fn malformed_state_file_starts_fresh() {
    let mut s = CrankScheduler::new(config("native", "file", None)).unwrap();
    assert!(matches!(s.restore(Some("not a number")), Err(CrankerError::Parse(_))));
    assert_eq!(s.last_cranked_epoch(), None);
    assert_eq!(s.on_tick(Some(1)), TickDecision::Crank(1));
}

#[test]
fn scheduler_file_backend_persists_after_success() {
    let mut s = CrankScheduler::new(config("sanctum", "file", None)).unwrap();
    assert_eq!(s.restore(Some("41\n")).unwrap(), Some(41));
    assert_eq!(s.on_tick(Some(41)), TickDecision::AlreadyCranked(41));
    assert_eq!(s.on_tick(Some(42)), TickDecision::Crank(42));
    assert_eq!(s.on_cycle_result(true).as_deref(), Some("42"));
    assert_eq!(s.last_cranked_epoch(), Some(42));
    assert_eq!(s.on_tick(Some(43)), TickDecision::Crank(43));
    assert_eq!(s.on_cycle_result(false), None);
    assert_eq!(s.last_cranked_epoch(), Some(42));
}

#[test]
fn scheduler_memory_backend_returns_no_text() {
    let mut s = CrankScheduler::new(config("native", "memory", None)).unwrap();
    assert_eq!(s.restore(None).unwrap(), None);
    assert_eq!(s.on_tick(Some(2)), TickDecision::Crank(2));
    assert_eq!(s.on_cycle_result(true), None);
    assert_eq!(s.epoch_state().storage_type(), EpochStorageType::Memory);
    assert_eq!(s.last_cranked_epoch(), Some(2));
}

#[test]
fn scheduler_rejects_bad_key() {
    let mut c = config("native", "memory", None);
    c.admin_private_key = "0OIl".to_string();
    assert!(matches!(CrankScheduler::new(c), Err(CrankerError::PrivateKey(_))));
    let mut c = config("native", "memory", None);
    c.admin_private_key = RESERVE.to_string();
    assert!(matches!(CrankScheduler::new(c), Err(CrankerError::PrivateKey(_))));
}

#[test]
fn scheduler_key_is_seed_half() {
    let s = CrankScheduler::new(config("native", "memory", None)).unwrap();
    let seed: Vec<u8> = (1..=32).collect();
    let expected = solana_sdk::signer::keypair::keypair_from_seed(&seed).unwrap();
    assert_eq!(s.admin_keypair().pubkey(), expected.pubkey());
    assert_eq!(s.pool_handler().pool_type(), PoolType::Native);
}

#[test]
fn crank_targets_default_pool_to_reserve() {
    let s = CrankScheduler::new(config("native", "memory", None)).unwrap();
    let (reserve, pool) = s.crank_targets().unwrap();
    assert_eq!(reserve, Pubkey::from_str(RESERVE).unwrap());
    assert_eq!(pool, reserve);
    assert_ne!(reserve, Pubkey::default());
}

#[test]
fn crank_targets_with_pool() {
    let s = CrankScheduler::new(config("native", "memory", Some(POOL))).unwrap();
    let (reserve, pool) = s.crank_targets().unwrap();
    assert_eq!(reserve, Pubkey::from_str(RESERVE).unwrap());
    assert_eq!(pool, Pubkey::from_str(POOL).unwrap());
}

#[test]
fn crank_targets_bad_address() {
    let s = CrankScheduler::new(config("native", "memory", Some("nope0"))).unwrap();
    assert!(matches!(s.crank_targets(), Err(CrankerError::Config(_))));
    let mut c = config("native", "memory", None);
    c.pool_reserve_address = "short".to_string();
    let s = CrankScheduler::new(c).unwrap();
    assert!(matches!(s.crank_targets(), Err(CrankerError::Config(_))));
}

#[test]
fn scheduler_cycle_follows_family() {
    let s = CrankScheduler::new(config("sanctum", "memory", None)).unwrap();
    let mut c = s.begin_cycle();
    assert_eq!(c.next_action(), CycleAction::SendToReserve);
    let d = Signature::from([1u8; 64]);
    c.deposit_sent(d);
    c.deposit_confirmed();
    assert_eq!(c.stage(), CycleStage::Done);
    assert_eq!(c.outcome(), Some((d, None)));
}
