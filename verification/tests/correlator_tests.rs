use neovim::correlator::{Correlator, RegisterOutcome};

#[test]
fn correlator_ids_are_pairwise_distinct() {
    let mut c: Correlator<u32> = Correlator::new();
    let mut ids: Vec<u64> = Vec::new();
    for _ in 0..100 {
        ids.push(c.next_id().unwrap());
    }
    for i in 0..ids.len() {
        for j in 0..i {
            assert_ne!(ids[i], ids[j]);
        }
    }
}

#[test]
fn correlator_ids_start_at_zero_and_increase() {
    let mut c: Correlator<u32> = Correlator::new();
    assert_eq!(c.next_id(), Some(0));
    assert_eq!(c.next_id(), Some(1));
    assert_eq!(c.next_id(), Some(2));
}

#[test]
fn correlator_routes_out_of_order_responses_by_id() {
    let mut c: Correlator<&'static str> = Correlator::new();
    let i1 = c.next_id().unwrap();
    let i2 = c.next_id().unwrap();
    let i3 = c.next_id().unwrap();
    assert!(matches!(c.register(i1, "first"), RegisterOutcome::Registered));
    assert!(matches!(c.register(i2, "second"), RegisterOutcome::Registered));
    assert!(matches!(c.register(i3, "third"), RegisterOutcome::Registered));

    // Responses arrive out of order; each reaches its own caller.
    assert_eq!(c.take(i2), Some("second"));
    assert_eq!(c.take(i3), Some("third"));
    assert_eq!(c.take(i1), Some("first"));
    assert_eq!(c.pending_count(), 0);
    assert_eq!(c.anomaly_count(), 0);
}

#[test]
fn correlator_counts_unknown_id_responses() {
    let mut c: Correlator<u32> = Correlator::new();
    let id = c.next_id().unwrap();
    assert!(matches!(c.register(id, 10), RegisterOutcome::Registered));
    assert_eq!(c.take(id + 1), None);
    assert_eq!(c.anomaly_count(), 1);
    // The pending call is untouched.
    assert_eq!(c.pending_count(), 1);
    assert_eq!(c.take(id), Some(10));
}

#[test]
fn correlator_rejects_duplicate_ids() {
    let mut c: Correlator<u32> = Correlator::new();
    let id = c.next_id().unwrap();
    assert!(matches!(c.register(id, 1), RegisterOutcome::Registered));
    match c.register(id, 2) {
        RegisterOutcome::Duplicate(slot) => assert_eq!(slot, 2),
        _ => panic!("expected Duplicate"),
    }
    assert_eq!(c.take(id), Some(1));
}

#[test]
fn correlator_close_fans_out_every_pending_slot() {
    let mut c: Correlator<&'static str> = Correlator::new();
    let i1 = c.next_id().unwrap();
    let i2 = c.next_id().unwrap();
    assert!(matches!(c.register(i1, "a"), RegisterOutcome::Registered));
    assert!(matches!(c.register(i2, "b"), RegisterOutcome::Registered));

    let dropped = c.close();
    assert_eq!(dropped, vec![(i1, "a"), (i2, "b")]);
    assert!(c.is_closed());
    assert_eq!(c.pending_count(), 0);
}

#[test]
fn correlator_rejects_registration_after_close() {
    let mut c: Correlator<u32> = Correlator::new();
    let id = c.next_id().unwrap();
    c.close();
    match c.register(id, 5) {
        RegisterOutcome::Closed(slot) => assert_eq!(slot, 5),
        _ => panic!("expected Closed"),
    }
}
