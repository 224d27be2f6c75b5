use pool_cranker::config::{
    parse_duration, parse_duration_secs, ConfigValues, CrankerConfig, EpochStorageType, PoolType,
};
use pool_cranker::error::CrankerError;
use std::time::Duration;

#[test]
fn test_parse_duration() {
    assert_eq!(parse_duration("1s").unwrap(), Duration::from_secs(1));
    assert_eq!(parse_duration("30m").unwrap(), Duration::from_secs(1800));
    assert_eq!(parse_duration("1h").unwrap(), Duration::from_secs(3600));
    assert_eq!(parse_duration("1d").unwrap(), Duration::from_secs(86400));
    assert_eq!(parse_duration("12h").unwrap(), Duration::from_secs(43200));
}

#[test]
fn test_pool_type_from_str() {
    assert_eq!(PoolType::from_str("sanctum").unwrap(), PoolType::Sanctum);
    assert_eq!(PoolType::from_str("Sanctum").unwrap(), PoolType::Sanctum);
    assert_eq!(PoolType::from_str("SANCTUM").unwrap(), PoolType::Sanctum);
    assert_eq!(PoolType::from_str("native").unwrap(), PoolType::Native);
    assert_eq!(PoolType::from_str("Native").unwrap(), PoolType::Native);
    assert!(PoolType::from_str("invalid").is_err());
}

#[test]
fn duration_units_multiply() {
    assert_eq!(parse_duration_secs("7s").unwrap(), 7);
    assert_eq!(parse_duration_secs("5m").unwrap(), 300);
    assert_eq!(parse_duration_secs("2h").unwrap(), 7200);
    assert_eq!(parse_duration_secs("3d").unwrap(), 259200);
    assert_eq!(parse_duration_secs("0s").unwrap(), 0);
}

#[test]
fn duration_trims_and_accepts_plus() {
    assert_eq!(parse_duration_secs("  10m\n").unwrap(), 600);
    assert_eq!(parse_duration_secs("+4h").unwrap(), 14400);
    assert_eq!(parse_duration(" 1d ").unwrap(), Duration::from_secs(86400));
}

#[test]
fn duration_empty_is_parse_error() {
    assert!(matches!(parse_duration(""), Err(CrankerError::Parse(_))));
    assert!(matches!(parse_duration("   "), Err(CrankerError::Parse(_))));
}

#[test]
fn duration_unknown_unit_is_parse_error() {
    assert!(matches!(parse_duration("5x"), Err(CrankerError::Parse(_))));
    assert!(matches!(parse_duration("5"), Err(CrankerError::Parse(_))));
    assert!(matches!(parse_duration("5ms"), Err(CrankerError::Parse(_))));
    assert!(matches!(parse_duration("5é"), Err(CrankerError::Parse(_))));
}

#[test]
fn duration_bad_number_is_parse_error() {
    assert!(matches!(parse_duration("m"), Err(CrankerError::Parse(_))));
    assert!(matches!(parse_duration("-5m"), Err(CrankerError::Parse(_))));
    assert!(matches!(parse_duration("1.5h"), Err(CrankerError::Parse(_))));
    assert!(matches!(parse_duration("+m"), Err(CrankerError::Parse(_))));
}

#[test]
fn duration_largest_values() {
    assert_eq!(parse_duration_secs("18446744073709551615s").unwrap(), u64::MAX);
    assert!(matches!(parse_duration_secs("18446744073709551616s"), Err(CrankerError::Parse(_))));
    assert!(matches!(parse_duration_secs("18446744073709551615m"), Err(CrankerError::Parse(_))));
    assert_eq!(parse_duration_secs("307445734561825860m").unwrap(), 18446744073709551600);
}

#[test]
fn pool_type_mixed_case_and_errors() {
    assert_eq!(PoolType::from_str("nAtIvE").unwrap(), PoolType::Native);
    assert_eq!(PoolType::from_str("SaNcTuM").unwrap(), PoolType::Sanctum);
    assert!(matches!(PoolType::from_str(""), Err(CrankerError::InvalidPoolType(_))));
    assert!(matches!(PoolType::from_str(" native"), Err(CrankerError::InvalidPoolType(_))));
    assert!(matches!(PoolType::from_str("natives"), Err(CrankerError::InvalidPoolType(_))));
}

#[test]
fn storage_type_from_str() {
    assert_eq!(EpochStorageType::from_str("memory").unwrap(), EpochStorageType::Memory);
    assert_eq!(EpochStorageType::from_str("FILE").unwrap(), EpochStorageType::File);
    assert!(matches!(EpochStorageType::from_str("disk"), Err(CrankerError::Config(_))));
}

fn values() -> ConfigValues {
    ConfigValues {
        pool_type: Some("native".to_string()),
        rpc_url: Some("http://localhost:8899".to_string()),
        admin_private_key: Some("key".to_string()),
        pool_reserve_address: Some("reserve".to_string()),
        pool_address: None,
        crank_amount: Some("1000".to_string()),
        epoch_poll_interval: None,
        epoch_storage_type: None,
        epoch_state_file: None,
    }
}

#[test]
fn config_defaults() {
    let c = CrankerConfig::from_values(values()).unwrap();
    assert_eq!(c.pool_type, PoolType::Native);
    assert_eq!(c.rpc_url, "http://localhost:8899");
    assert_eq!(c.crank_amount, 1000);
    assert_eq!(c.epoch_poll_interval, Duration::from_secs(300));
    assert_eq!(c.epoch_storage_type, EpochStorageType::Memory);
    assert_eq!(c.epoch_state_file, ".epoch_state");
    assert!(c.pool_address.is_none());
}

#[test]
fn config_explicit_values() {
    let mut v = values();
    v.pool_address = Some("pool".to_string());
    v.epoch_poll_interval = Some("1h".to_string());
    v.epoch_storage_type = Some("File".to_string());
    v.epoch_state_file = Some("/tmp/epoch".to_string());
    let c = CrankerConfig::from_values(v).unwrap();
    assert_eq!(c.pool_address.as_deref(), Some("pool"));
    assert_eq!(c.epoch_poll_interval, Duration::from_secs(3600));
    assert_eq!(c.epoch_storage_type, EpochStorageType::File);
    assert_eq!(c.epoch_state_file, "/tmp/epoch");
}

#[test]
fn config_errors() {
    let mut v = values();
    v.rpc_url = None;
    assert!(matches!(CrankerConfig::from_values(v), Err(CrankerError::Config(_))));
    let mut v = values();
    v.pool_type = Some("other".to_string());
    assert!(matches!(CrankerConfig::from_values(v), Err(CrankerError::InvalidPoolType(_))));
    let mut v = values();
    v.crank_amount = Some("ten".to_string());
    assert!(matches!(CrankerConfig::from_values(v), Err(CrankerError::Config(_))));
    let mut v = values();
    v.epoch_poll_interval = Some("5y".to_string());
    assert!(matches!(CrankerConfig::from_values(v), Err(CrankerError::Parse(_))));
    let mut v = values();
    v.epoch_storage_type = Some("disk".to_string());
    assert!(matches!(CrankerConfig::from_values(v), Err(CrankerError::Config(_))));
}

#[test]
fn config_zero_amount_is_config_error() {
    let mut v = values();
    v.crank_amount = Some("0".to_string());
    assert!(matches!(CrankerConfig::from_values(v), Err(CrankerError::Config(_))));
}

#[test]
fn config_zero_interval_is_parse_error() {
    let mut v = values();
    v.epoch_poll_interval = Some("0s".to_string());
    assert!(matches!(CrankerConfig::from_values(v), Err(CrankerError::Parse(_))));
    let mut v = values();
    v.epoch_poll_interval = Some("0d".to_string());
    assert!(matches!(CrankerConfig::from_values(v), Err(CrankerError::Parse(_))));
}

#[test]
fn config_smallest_positive_values() {
    let mut v = values();
    v.crank_amount = Some("1".to_string());
    v.epoch_poll_interval = Some("1s".to_string());
    let c = CrankerConfig::from_values(v).unwrap();
    assert_eq!(c.crank_amount, 1);
    assert_eq!(c.epoch_poll_interval, Duration::from_secs(1));
}
