use pool_cranker::config::EpochStorageType;
use pool_cranker::epoch_state::EpochState;
use pool_cranker::error::CrankerError;
use pool_cranker::text::{decimal_string, parse_u64_chars, trim_chars};

#[test]
fn memory_round_trip() {
    let mut s = EpochState::new(EpochStorageType::Memory, ".epoch_state".to_string());
    assert_eq!(s.load(None).unwrap(), None);
    assert!(s.save(42).is_none());
    assert_eq!(s.load(None).unwrap(), Some(42));
    assert_eq!(s.load(Some("7")).unwrap(), Some(42));
}

#[test]
fn file_round_trip() {
    let mut s = EpochState::new(EpochStorageType::File, "state".to_string());
    let text = s.save(123456).unwrap();
    assert_eq!(text, "123456");
    let mut fresh = EpochState::new(EpochStorageType::File, "state".to_string());
    assert_eq!(fresh.load(Some(text.as_str())).unwrap(), Some(123456));
}

#[test]
fn file_round_trip_extremes() {
    let mut s = EpochState::new(EpochStorageType::File, "state".to_string());
    for n in [0u64, 9, 10, 99, 100, u64::MAX] {
        let text = s.save(n).unwrap();
        assert_eq!(text, n.to_string());
        let mut fresh = EpochState::new(EpochStorageType::File, "state".to_string());
        assert_eq!(fresh.load(Some(text.as_str())).unwrap(), Some(n));
    }
}

#[test]
fn file_missing_is_no_epoch() {
    let mut s = EpochState::new(EpochStorageType::File, "state".to_string());
    assert_eq!(s.load(None).unwrap(), None);
}

#[test]
fn file_content_is_trimmed() {
    let mut s = EpochState::new(EpochStorageType::File, "state".to_string());
    assert_eq!(s.load(Some("  88\n")).unwrap(), Some(88));
}

#[test]
fn file_malformed_is_parse_error() {
    let mut s = EpochState::new(EpochStorageType::File, "state".to_string());
    assert!(matches!(s.load(Some("abc")), Err(CrankerError::Parse(_))));
    assert!(matches!(s.load(Some("")), Err(CrankerError::Parse(_))));
    assert!(matches!(s.load(Some("18446744073709551616")), Err(CrankerError::Parse(_))));
}

#[test]
fn file_save_after_load_reflects_in_memory() {
    let mut s = EpochState::new(EpochStorageType::File, "state".to_string());
    assert_eq!(s.load(Some("3")).unwrap(), Some(3));
    assert_eq!(s.save(4).unwrap(), "4");
    assert_eq!(s.file_path(), "state");
    assert_eq!(s.storage_type(), EpochStorageType::File);
}

#[test]
fn text_helpers() {
    assert_eq!(decimal_string(0), "0");
    assert_eq!(decimal_string(1234567890), "1234567890");
    assert_eq!(trim_chars("\t a b \u{3000}"), vec!['a', ' ', 'b']);
    assert_eq!(parse_u64_chars(&vec!['+', '1', '2']), Some(12));
    assert_eq!(parse_u64_chars(&vec!['+']), None);
    assert_eq!(parse_u64_chars(&vec![]), None);
    assert_eq!(parse_u64_chars(&vec!['1', 'a']), None);
}

#[test]
fn file_load_after_save_uses_memory() {
    let mut s = EpochState::new(EpochStorageType::File, "state".to_string());
    assert_eq!(s.save(9).unwrap(), "9");
    assert_eq!(s.load(Some("garbage")).unwrap(), Some(9));
    assert_eq!(s.load(None).unwrap(), Some(9));
}
