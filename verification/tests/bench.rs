use zmq2::bench::Tally;

#[test]
fn tally_adds_counts_and_counts_down_workers() {
    let mut t = Tally::new(2);
    assert!(!t.is_done());
    t.record("100");
    t.record("+5");
    assert_eq!(t.count(), 105);
    t.record("");
    assert!(!t.is_done());
    t.record("007");
    t.record("");
    assert!(t.is_done());
    assert_eq!(t.count(), 112);
}

#[test]
fn tally_starts_empty() {
    let t = Tally::new(0);
    assert!(t.is_done());
    assert_eq!(t.count(), 0);
}
