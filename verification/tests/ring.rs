use hazard_monitor::history::History;

#[test]
fn snapshot_after_exactly_n_pushes_is_the_pushed_values() {
    let mut h: History<i32, 3> = History::default_value(0);
    h.push_value(10);
    h.push_value(20);
    h.push_value(30);
    assert_eq!(h.get_values_ordered(), vec![10, 20, 30]);
}

#[test]
fn snapshot_keeps_only_the_n_most_recent_values() {
    let mut h: History<i32, 3> = History::default_value(0);
    for v in [1, 2, 3, 4, 5] {
        h.push_value(v);
    }
    assert_eq!(h.get_values_ordered(), vec![3, 4, 5]);
}

#[test]
fn snapshot_of_single_slot_ring() {
    let mut h: History<u16, 1> = History::default_value(0);
    h.push_value(7);
    assert_eq!(h.get_values_ordered(), vec![7]);
    h.push_value(8);
    assert_eq!(h.get_values_ordered(), vec![8]);
}

#[test]
fn snapshot_preserves_duplicate_values_in_order() {
    let mut h: History<i32, 4> = History::default_value(0);
    for v in [5, 5, 9, 5] {
        h.push_value(v);
    }
    assert_eq!(h.get_values_ordered(), vec![5, 5, 9, 5]);
}

#[test]
fn fresh_ring_holds_the_filler_everywhere() {
    let h: History<bool, 4> = History::default_value(true);
    assert_eq!(h.get_values_ordered(), vec![true, true, true, true]);
}

#[test]
fn current_value_is_the_oldest_resident_not_the_last_write() {
    let mut h: History<i32, 3> = History::default_value(0);
    h.push_value(10);
    h.push_value(20);
    // the cursor addresses the next slot to overwrite, which still
    // holds a filler value: the oldest resident
    assert_eq!(*h.get_current_value(), 0);
    h.push_value(30);
    assert_eq!(*h.get_current_value(), 10);
}

#[test]
fn snapshot_after_partial_fill_keeps_filler_prefix() {
    let mut h: History<i32, 4> = History::default_value(-1);
    h.push_value(100);
    h.push_value(200);
    assert_eq!(h.get_values_ordered(), vec![-1, -1, 100, 200]);
}
