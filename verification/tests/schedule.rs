use shadertoy_browser::schedule::{entry_count, worker_regime, WorkerRegime};

#[test]
fn worker_regimes() {
    assert_eq!(worker_regime(0), WorkerRegime::Sequential);
    assert_eq!(worker_regime(1), WorkerRegime::Fixed(1));
    assert_eq!(worker_regime(8), WorkerRegime::Fixed(8));
    assert_eq!(worker_regime(-1), WorkerRegime::HostDefault);
    assert_eq!(worker_regime(i64::MIN), WorkerRegime::HostDefault);
    assert_eq!(worker_regime(i64::MAX), WorkerRegime::Fixed(i64::MAX as u64));
}

#[test]
fn limits() {
    assert_eq!(entry_count(10, -1), Some(10));
    assert_eq!(entry_count(10, 0), Some(0));
    assert_eq!(entry_count(10, 3), Some(3));
    assert_eq!(entry_count(10, 10), Some(10));
    assert_eq!(entry_count(10, 11), None);
    assert_eq!(entry_count(10, -2), None);
    assert_eq!(entry_count(0, -1), Some(0));
}
