use hazard_monitor::config::Config;
use hazard_monitor::evaluator::EvaluatorState;
use hazard_monitor::loadgen::{LoadDirection, LoadGenerator};
use hazard_monitor::mailbox::Mailbox;
use hazard_monitor::risk::Risk;
use hazard_monitor::samples::{SensorValues, ValueHistory};

fn sample(temp: i32, gas: u16, flame: bool) -> SensorValues {
    SensorValues { temp, gas, flame }
}

#[test]
fn mailbox_keeps_only_the_latest_of_two_publishes() {
    let mut m: Mailbox<SensorValues> = Mailbox::new();
    m.publish(sample(2000, 300, false));
    m.publish(sample(2100, 310, true));
    assert_eq!(m.try_take(), Some(sample(2100, 310, true)));
}

#[test]
fn mailbox_is_empty_before_the_first_publish_and_after_a_take() {
    let mut m: Mailbox<u8> = Mailbox::new();
    // a consumer arriving early finds nothing and must wait for the
    // first publish at its suspension point
    assert_eq!(m.try_take(), None);
    m.publish(9);
    assert_eq!(m.try_take(), Some(9));
    assert_eq!(m.try_take(), None);
}

#[test]
fn evaluator_publishes_the_classified_risk() {
    let cfg = Config { temp_threshold: 200, gas_threshold: 500, alarms_enabled: true, data_point_interval: 3 };
    let mut state = EvaluatorState::new();
    let mut history: ValueHistory<10> = ValueHistory::new();
    // first cycle: the delta window is seeded with the first reading,
    // so only gas matters
    let r1 = state.step(sample(2000, 600, false), &cfg, &mut history);
    assert_eq!(r1, Risk::Moderate);
    // second cycle: a 3.5-degree jump against the seeded window arms
    // the alarm while gas is high
    let r2 = state.step(sample(2350, 600, false), &cfg, &mut history);
    assert_eq!(r2, Risk::High);
}

#[test]
fn evaluator_with_alarms_disabled_publishes_low() {
    let cfg = Config { temp_threshold: 200, gas_threshold: 500, alarms_enabled: false, data_point_interval: 3 };
    let mut state = EvaluatorState::new();
    let mut history: ValueHistory<10> = ValueHistory::new();
    let r = state.step(sample(2000, 9000, true), &cfg, &mut history);
    assert_eq!(r, Risk::Low);
}

#[test]
fn evaluator_decimates_samples_into_the_history() {
    let cfg = Config { temp_threshold: 200, gas_threshold: 500, alarms_enabled: true, data_point_interval: 1 };
    let mut state = EvaluatorState::new();
    let mut history: ValueHistory<10> = ValueHistory::new();
    let _ = history.new_change();
    // counter runs 0, 1, 2; the push happens once the counter passes
    // the interval, then the counter restarts at 1
    let _ = state.step(sample(1, 0, false), &cfg, &mut history);
    assert!(!history.new_change());
    let _ = state.step(sample(2, 0, false), &cfg, &mut history);
    assert!(!history.new_change());
    let _ = state.step(sample(3, 0, false), &cfg, &mut history);
    assert!(history.new_change());
    let _ = state.step(sample(4, 0, false), &cfg, &mut history);
    assert!(!history.new_change());
    let _ = state.step(sample(5, 0, false), &cfg, &mut history);
    assert!(history.new_change());
    assert_eq!(history.current_values(), sample(0, 0, false));
}

#[test]
fn evaluator_delta_reaches_five_cycles_back() {
    let cfg = Config { temp_threshold: 200, gas_threshold: 500, alarms_enabled: true, data_point_interval: 255 };
    let mut state = EvaluatorState::new();
    let mut history: ValueHistory<10> = ValueHistory::new();
    // five quiet cycles at 20.00 degrees fill the window
    for _ in 0..5 {
        let r = state.step(sample(2000, 0, false), &cfg, &mut history);
        assert_eq!(r, Risk::Low);
    }
    // a jump of 2.5 degrees against the reading five cycles back
    let r = state.step(sample(2250, 0, false), &cfg, &mut history);
    assert_eq!(r, Risk::Moderate);
}

#[test]
fn load_generator_ramps_up_and_toggles_flame() {
    let cfg = Config { temp_threshold: 200, gas_threshold: 500, alarms_enabled: true, data_point_interval: 255 };
    let mut generator = LoadGenerator::new();
    let mut history: ValueHistory<10> = ValueHistory::new();
    let (v1, r1) = generator.step(&cfg, &mut history);
    assert_eq!(v1, sample(1, 1, true));
    assert_eq!(r1, Risk::Moderate);
    let (v2, r2) = generator.step(&cfg, &mut history);
    assert_eq!(v2, sample(2, 2, false));
    assert_eq!(r2, Risk::High);
    let (_v3, r3) = generator.step(&cfg, &mut history);
    assert_eq!(r3, Risk::Low);
}

#[test]
fn load_generator_turns_around_at_the_bounds() {
    let cfg = Config { temp_threshold: 200, gas_threshold: 500, alarms_enabled: true, data_point_interval: 255 };
    let mut generator = LoadGenerator::new();
    let mut history: ValueHistory<10> = ValueHistory::new();
    let mut previous_temp: i32 = 0;
    let mut seen_decrease = false;
    for _ in 0..20000 {
        let (v, _) = generator.step(&cfg, &mut history);
        assert!(v.temp <= 9001 && v.gas <= 9001);
        if v.temp < previous_temp {
            seen_decrease = true;
        }
        previous_temp = v.temp;
    }
    assert!(seen_decrease);
}

#[test]
fn load_generator_decimates_like_the_evaluator() {
    let cfg = Config { temp_threshold: 200, gas_threshold: 500, alarms_enabled: true, data_point_interval: 2 };
    let mut generator = LoadGenerator::new();
    let mut history: ValueHistory<10> = ValueHistory::new();
    let _ = history.new_change();
    // the counter increments before the check, so the third cycle is
    // the first one stored
    let _ = generator.step(&cfg, &mut history);
    assert!(!history.new_change());
    let _ = generator.step(&cfg, &mut history);
    assert!(!history.new_change());
    let _ = generator.step(&cfg, &mut history);
    assert!(history.new_change());
}
