//! The chain of the audit log.
use akson::audit::{AuditError, AuditLog, GENESIS};

#[test]
fn appends_and_verifies() {
    let mut log = AuditLog::new();
    assert_eq!(log.head(), GENESIS);
    log.append(100, "pair.created", "peer=abc");
    log.append(101, "contract.decided", "task=1;digest=def");
    assert_eq!(log.verify_chain().unwrap(), 2);
}

#[test]
fn detects_tampered_detail() {
    let mut log = AuditLog::new();
    log.append(100, "pair.created", "peer=abc");
    log.append(101, "key.changed", "peer=abc");
    let mut records = log.records().clone();
    assert_eq!(records[0].seq, 1);
    records[0].detail = "peer=evil".to_owned();
    let edited = AuditLog::from_records(records, log.tip().clone()).unwrap();
    assert!(matches!(
        edited.verify_chain(),
        Err(AuditError::Broken { seq: 1 })
    ));
}

#[test]
fn detects_truncated_tail_reinsert() {
    let mut log = AuditLog::new();
    log.append(100, "a", "x");
    log.append(101, "b", "y");
    let mut records = log.records().clone();
    records[1].event = "c".to_owned();
    let edited = AuditLog::from_records(records, log.tip().clone()).unwrap();
    assert!(matches!(
        edited.verify_chain(),
        Err(AuditError::Broken { seq: 2 })
    ));
}

#[test]
fn records_are_numbered_from_one_and_linked() {
    let mut log = AuditLog::new();
    assert_eq!(log.append(7, "a", "x"), 1);
    assert_eq!(log.append(8, "b", "y"), 2);
    let records = log.records();
    assert_eq!(records[0].prev_hash, GENESIS);
    assert_eq!(records[1].prev_hash, records[0].hash);
    assert_eq!(log.head(), records[1].hash);
    assert_ne!(records[0].hash, GENESIS);
}

#[test]
fn records_out_of_order_are_no_log() {
    let mut log = AuditLog::new();
    log.append(7, "a", "x");
    log.append(8, "b", "y");
    let mut records = log.records().clone();
    records.swap(0, 1);
    assert!(AuditLog::from_records(records, log.tip().clone()).is_none());
}

#[test]
fn a_missing_record_breaks_the_chain() {
    let mut log = AuditLog::new();
    log.append(7, "a", "x");
    log.append(8, "b", "y");
    let mut records = log.records().clone();
    records.remove(0);
    let cut = AuditLog::from_records(records, log.tip().clone()).unwrap();
    assert!(matches!(cut.verify_chain(), Err(AuditError::Broken { seq: 2 })));
}

#[test]
fn a_dropped_tail_is_found_at_the_tip() {
    let mut log = AuditLog::new();
    log.append(100, "a", "x");
    log.append(101, "b", "y");
    let mut records = log.records().clone();
    records.pop();
    let cut = AuditLog::from_records(records, log.tip().clone()).unwrap();
    assert!(matches!(cut.verify_chain(), Err(AuditError::Broken { seq: 2 })));
    let whole = AuditLog::from_records(log.records().clone(), log.tip().clone()).unwrap();
    assert_eq!(whole.verify_chain().unwrap(), 2);
}

#[test]
fn a_dropped_tail_stays_found_after_more_is_appended() {
    let mut log = AuditLog::new();
    log.append(100, "a", "x");
    log.append(101, "b", "y");
    let mut records = log.records().clone();
    records.pop();
    let mut cut = AuditLog::from_records(records, log.tip().clone()).unwrap();
    cut.append(102, "c", "z");
    assert!(matches!(cut.verify_chain(), Err(AuditError::Broken { .. })));
}

#[test]
fn a_log_that_verified_verifies_after_an_append() {
    let mut log = AuditLog::new();
    log.append(100, "a", "x");
    let mut read = AuditLog::from_records(log.records().clone(), log.tip().clone()).unwrap();
    assert_eq!(read.verify_chain().unwrap(), 1);
    read.append(101, "b", "y");
    assert_eq!(read.verify_chain().unwrap(), 2);
}
