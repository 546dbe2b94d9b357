use naia_supervisor::reaper::{
    classify_record, is_pid_alive, role_record_stem, ProcessRole, ReapAction, ReapEvent,
    ReapProtocol, RecordClass,
};

#[test]
fn record_classification() {
    assert_eq!(classify_record(&None), RecordClass::Missing);
    assert_eq!(classify_record(&Some(b"123".to_vec())), RecordClass::Target(123));
    assert_eq!(classify_record(&Some(b" 42\n".to_vec())), RecordClass::Target(42));
    assert_eq!(classify_record(&Some(b"0".to_vec())), RecordClass::Invalid);
    assert_eq!(classify_record(&Some(b"-5".to_vec())), RecordClass::Invalid);
    assert_eq!(classify_record(&Some(b"abc".to_vec())), RecordClass::Invalid);
    // i32::MAX + 1: representable as u32 but not as a signal target
    assert_eq!(classify_record(&Some(b"2147483648".to_vec())), RecordClass::Invalid);
    // beyond u32
    assert_eq!(classify_record(&Some(b"99999999999".to_vec())), RecordClass::Invalid);
    assert_eq!(classify_record(&Some(b"2147483647".to_vec())), RecordClass::Target(2147483647));
}

#[test]
fn dead_process_record_removed_without_signal() {
    let mut m = ReapProtocol::new();
    let a1 = m.step(ReapEvent::RecordContent(Some(b"500".to_vec())));
    assert_eq!(a1, ReapAction::Probe(500));
    let a2 = m.step(ReapEvent::Observed(false));
    assert_eq!(a2, ReapAction::Remove);
    let a3 = m.step(ReapEvent::Removed);
    assert_eq!(a3, ReapAction::Finished);
    assert_eq!(m.term_signals, 0);
    assert_eq!(m.kill_signals, 0);
    assert!(m.had_record);
    assert!(m.removed_record);
}

#[test]
fn invalid_record_discarded_without_probe() {
    for bad in [&b"junk"[..], b"0", b"-3", b"2147483648", b""] {
        let mut m = ReapProtocol::new();
        let a1 = m.step(ReapEvent::RecordContent(Some(bad.to_vec())));
        assert_eq!(a1, ReapAction::Remove);
        let a2 = m.step(ReapEvent::Removed);
        assert_eq!(a2, ReapAction::Finished);
        assert_eq!(m.term_signals, 0);
        assert_eq!(m.kill_signals, 0);
        assert!(m.removed_record);
    }
}

#[test]
fn missing_record_needs_nothing() {
    let mut m = ReapProtocol::new();
    let a1 = m.step(ReapEvent::RecordContent(None));
    assert_eq!(a1, ReapAction::Finished);
    assert!(!m.had_record);
    assert!(!m.removed_record);
    assert_eq!(m.term_signals, 0);
    assert_eq!(m.kill_signals, 0);
}

#[test]
fn live_process_gets_graceful_then_forceful() {
    let mut m = ReapProtocol::new();
    assert_eq!(m.step(ReapEvent::RecordContent(Some(b"77".to_vec()))), ReapAction::Probe(77));
    assert_eq!(m.step(ReapEvent::Observed(true)), ReapAction::TermThenWait(77));
    assert_eq!(m.term_signals, 1);
    assert_eq!(m.kill_signals, 0);
    assert_eq!(m.step(ReapEvent::Observed(true)), ReapAction::KillThenRemove(77));
    assert_eq!(m.kill_signals, 1);
    assert_eq!(m.step(ReapEvent::Removed), ReapAction::Finished);
    assert_eq!(m.term_signals, 1);
    assert_eq!(m.kill_signals, 1);
    assert!(m.removed_record);
}

#[test]
fn live_process_not_escalated_when_it_exits_in_grace() {
    let mut m = ReapProtocol::new();
    assert_eq!(m.step(ReapEvent::RecordContent(Some(b"77".to_vec()))), ReapAction::Probe(77));
    assert_eq!(m.step(ReapEvent::Observed(true)), ReapAction::TermThenWait(77));
    assert_eq!(m.step(ReapEvent::Observed(false)), ReapAction::Remove);
    assert_eq!(m.term_signals, 1);
    assert_eq!(m.kill_signals, 0);
    assert_eq!(m.step(ReapEvent::Removed), ReapAction::Finished);
    assert!(m.removed_record);
}

#[test]
fn role_record_stems() {
    assert_eq!(role_record_stem(ProcessRole::Gateway), "gateway");
    assert_eq!(role_record_stem(ProcessRole::NodeHost), "node-host");
}

#[test]
fn liveness_probe_rejects_impossible_pid() {
    // Linux process ids never reach this value, so no /proc entry exists.
    assert!(!is_pid_alive(u32::MAX));
}
