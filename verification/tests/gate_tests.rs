use scan_engine::gate::AdmissionGate;

#[test]
fn gate_gives_no_more_than_its_permits() {
    let mut g = AdmissionGate::new(2);
    assert_eq!(g.limit(), 2);
    assert_eq!(g.in_use(), 0);
    assert!(g.try_acquire());
    assert!(g.try_acquire());
    assert!(!g.try_acquire());
    assert_eq!(g.in_use(), 2);
    g.release();
    assert_eq!(g.in_use(), 1);
    assert!(g.try_acquire());
    assert!(!g.try_acquire());
}

#[test]
fn releasing_an_idle_gate_changes_nothing() {
    let mut g = AdmissionGate::new(1);
    g.release();
    assert_eq!(g.in_use(), 0);
    assert!(g.try_acquire());
    assert!(!g.try_acquire());
}

#[test]
fn gate_without_permits_gives_none() {
    let mut g = AdmissionGate::new(0);
    assert!(!g.try_acquire());
    assert_eq!(g.in_use(), 0);
}
