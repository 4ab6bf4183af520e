use ledger_orchestration::join::OrderedJoin;

#[test]
fn a_fresh_join_has_one_empty_slot_per_unit() {
    let join: OrderedJoin<u64> = OrderedJoin::new(3);
    assert_eq!(join.units(), 3);
    assert_eq!(join.outstanding(), 3);
    assert!(!join.is_complete());
    assert!(!join.has_reported(0));
    assert_eq!(join.into_slots(), vec![None, None, None]);
}

#[test]
fn a_join_over_no_units_is_complete_and_empty() {
    let join: OrderedJoin<u64> = OrderedJoin::new(0);
    assert_eq!(join.units(), 0);
    assert_eq!(join.outstanding(), 0);
    assert!(join.is_complete());
    assert_eq!(join.into_slots(), Vec::<Option<u64>>::new());
}

#[test]
fn outcomes_are_filed_by_unit_not_by_arrival() {
    let mut join: OrderedJoin<&str> = OrderedJoin::new(3);
    assert!(join.complete(2, "third"));
    assert!(join.complete(0, "first"));
    assert_eq!(join.outstanding(), 1);
    assert!(join.has_reported(0));
    assert!(!join.has_reported(1));
    assert!(join.has_reported(2));
    assert!(!join.is_complete());
    assert!(join.complete(1, "second"));
    assert!(join.is_complete());
    assert_eq!(join.outstanding(), 0);
    assert_eq!(join.into_slots(), vec![Some("first"), Some("second"), Some("third")]);
}

#[test]
fn every_completion_order_fills_the_join_alike() {
    let orders: [[usize; 3]; 6] =
        [[0, 1, 2], [0, 2, 1], [1, 0, 2], [1, 2, 0], [2, 0, 1], [2, 1, 0]];
    for order in orders {
        let mut join: OrderedJoin<u64> = OrderedJoin::new(3);
        for unit in order {
            assert!(join.complete(unit, 10 * unit as u64));
        }
        assert_eq!(join.into_slots(), vec![Some(0), Some(10), Some(20)]);
    }
}

#[test]
fn the_first_report_of_a_unit_counts() {
    let mut join: OrderedJoin<u64> = OrderedJoin::new(2);
    assert!(join.complete(1, 7));
    assert!(!join.complete(1, 8));
    assert_eq!(join.outstanding(), 1);
    assert_eq!(join.into_slots(), vec![None, Some(7)]);
}

#[test]
fn a_report_for_a_unit_outside_the_batch_is_dropped() {
    let mut join: OrderedJoin<u64> = OrderedJoin::new(2);
    assert!(!join.complete(2, 7));
    assert!(!join.complete(usize::MAX, 7));
    assert!(!join.has_reported(2));
    assert_eq!(join.outstanding(), 2);
    assert_eq!(join.into_slots(), vec![None, None]);
}

#[test]
fn a_unit_that_never_reports_leaves_its_slot_empty() {
    let mut join: OrderedJoin<u64> = OrderedJoin::new(3);
    assert!(join.complete(0, 1));
    assert!(join.complete(2, 3));
    assert!(!join.is_complete());
    assert_eq!(join.into_slots(), vec![Some(1), None, Some(3)]);
}
