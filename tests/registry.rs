use groove::pointer_reference_counter::PointerReferenceCounter;

#[test]
fn new_registry_is_empty() {
    let rc = PointerReferenceCounter::new();
    assert_eq!(rc.count(7), 0);
}

#[test]
fn acquire_counts_up() {
    let mut rc = PointerReferenceCounter::new();
    rc.incr(7);
    assert_eq!(rc.count(7), 1);
    rc.incr(7);
    assert_eq!(rc.count(7), 2);
    assert_eq!(rc.count(8), 0);
}

#[test]
fn release_reports_only_the_last() {
    let mut rc = PointerReferenceCounter::new();
    rc.incr(7);
    rc.incr(7);
    assert!(!rc.decr(7));
    assert_eq!(rc.count(7), 1);
    assert!(rc.decr(7));
    assert_eq!(rc.count(7), 0);
}

#[test]
fn balanced_interleaving_reports_last_once() {
    let mut rc = PointerReferenceCounter::new();
    let mut last = Vec::new();
    rc.incr(1);
    rc.incr(1);
    if rc.decr(1) {
        last.push(1);
    }
    rc.incr(1);
    rc.incr(2);
    if rc.decr(1) {
        last.push(1);
    }
    if rc.decr(2) {
        last.push(2);
    }
    if rc.decr(1) {
        last.push(1);
    }
    assert_eq!(last, vec![2, 1]);
}

#[test]
fn unbalanced_acquires_never_report_last() {
    let mut rc = PointerReferenceCounter::new();
    rc.incr(3);
    rc.incr(3);
    rc.incr(3);
    assert!(!rc.decr(3));
    assert!(!rc.decr(3));
    assert_eq!(rc.count(3), 1);
}

#[test]
fn other_identities_untouched() {
    let mut rc = PointerReferenceCounter::new();
    rc.incr(4);
    rc.incr(5);
    assert!(rc.decr(4));
    assert_eq!(rc.count(4), 0);
    assert_eq!(rc.count(5), 1);
}
