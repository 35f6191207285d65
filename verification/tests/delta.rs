use hazard_monitor::delta::Queue;

#[test]
fn push_returns_fill_value_for_the_first_n_calls() {
    let mut q: Queue<3> = Queue::new(1500);
    assert_eq!(q.push(2000), 1500);
    assert_eq!(q.push(2100), 1500);
    assert_eq!(q.push(2200), 1500);
}

#[test]
fn push_returns_the_value_from_n_calls_ago_afterwards() {
    let mut q: Queue<3> = Queue::new(0);
    let supplied = [11, 22, 33, 44, 55, 66, 77];
    let mut returned = Vec::new();
    for v in supplied {
        returned.push(q.push(v));
    }
    // calls 4..=7 return the values supplied on calls 1..=4
    assert_eq!(returned, vec![0, 0, 0, 11, 22, 33, 44]);
}

#[test]
fn depth_one_window_returns_the_previous_push() {
    let mut q: Queue<1> = Queue::new(2000);
    assert_eq!(q.push(2350), 2000);
    assert_eq!(q.push(2300), 2350);
    assert_eq!(q.push(2100), 2300);
}

#[test]
fn window_filled_with_first_observation_gives_zero_first_delta() {
    let first_reading: i32 = 2537;
    let mut q: Queue<5> = Queue::new(first_reading);
    let evicted = q.push(first_reading);
    assert_eq!(evicted - first_reading, 0);
}

#[test]
fn negative_temperatures_flow_through_the_window() {
    let mut q: Queue<2> = Queue::new(-500);
    assert_eq!(q.push(-450), -500);
    assert_eq!(q.push(-400), -500);
    assert_eq!(q.push(-350), -450);
}
