use hazard_monitor::samples::{SensorValues, ValueHistory};

fn sample(temp: i32, gas: u16, flame: bool) -> SensorValues {
    SensorValues { temp, gas, flame }
}

#[test]
fn change_flag_reads_true_exactly_once_per_push() {
    let mut vh: ValueHistory<10> = ValueHistory::new();
    // the flag starts raised so a first reader sees the initial state
    assert!(vh.new_change());
    assert!(!vh.new_change());
    assert!(!vh.new_change());
    vh.push_values(sample(2000, 300, false));
    assert!(vh.new_change());
    assert!(!vh.new_change());
    vh.push_values(sample(2100, 310, false));
    vh.push_values(sample(2200, 320, false));
    assert!(vh.new_change());
    assert!(!vh.new_change());
}

#[test]
fn current_values_returns_the_oldest_resident_sample() {
    let mut vh: ValueHistory<3> = ValueHistory::new();
    vh.push_values(sample(2000, 300, false));
    vh.push_values(sample(2100, 310, true));
    // two pushes into a three-deep history: the cursor still addresses
    // a default-filled slot
    assert_eq!(vh.current_values(), sample(0, 0, false));
    vh.push_values(sample(2200, 320, false));
    assert_eq!(vh.current_values(), sample(2000, 300, false));
}

#[test]
fn ordered_history_zips_the_three_channels_index_aligned() {
    let mut vh: ValueHistory<3> = ValueHistory::new();
    let samples = [sample(2000, 300, false), sample(2100, 310, true), sample(2200, 320, false)];
    for s in samples {
        vh.push_values(s);
    }
    assert_eq!(vh.get_current_values_history().0, samples.to_vec());
}

#[test]
fn ordered_history_drops_the_oldest_sample_past_capacity() {
    let mut vh: ValueHistory<2> = ValueHistory::new();
    vh.push_values(sample(1, 1, false));
    vh.push_values(sample(2, 2, true));
    vh.push_values(sample(3, 3, false));
    assert_eq!(vh.get_current_values_history().0, vec![sample(2, 2, true), sample(3, 3, false)]);
}

#[test]
fn fresh_history_is_default_filled() {
    let vh: ValueHistory<4> = ValueHistory::new();
    assert_eq!(vh.get_current_values_history().0, vec![sample(0, 0, false); 4]);
}

#[test]
fn reading_current_values_does_not_consume_the_change_flag() {
    let mut vh: ValueHistory<10> = ValueHistory::new();
    vh.push_values(sample(2000, 300, false));
    let _ = vh.current_values();
    let _ = vh.get_current_values_history();
    assert!(vh.new_change());
}
