//! Risk classification with thermal-excursion hysteresis.
//!
//! `get_risk` combines one sample, the configured thresholds, the
//! temperature from `DELTA_DEPTH` cycles ago and the hysteresis state
//! into a `Risk` level. The hysteresis machine latches near the peak of
//! a thermal excursion so noise around the delta threshold cannot make
//! the alarm chatter.

use vstd::prelude::*;

use crate::samples::SensorValues;

verus! {

/// Risk level of one evaluation cycle, ordered by severity.
#[derive(Clone, Copy, Debug, PartialEq, Eq, Structural)]
pub enum Risk {
    Low,
    Moderate,
    High,
}

impl Risk {
    /// Severity rank: `Low` is 0, `Moderate` is 1, `High` is 2.
    pub open spec fn severity(self) -> int {
        match self {
            Risk::Low => 0,
            Risk::Moderate => 1,
            Risk::High => 2,
        }
    }

    /// One-byte wire encoding of the risk level: its severity rank.
    pub fn to_byte(&self) -> (r: u8)
        ensures
            r == self.severity(),
    {
        match self {
            Risk::Low => 0,
            Risk::Moderate => 1,
            Risk::High => 2,
        }
    }
}

/// Hysteresis state of the thermal-excursion alarm: disarmed, or armed
/// with the centidegree temperature at which it armed.
#[derive(Clone, Copy, Debug, PartialEq, Eq, Structural)]
pub enum TempAlarm {
    Disabled,
    Enabled { temp: i32 },
}

/// How far (in centidegrees) the temperature may fall below the armed
/// peak before the excursion counts as over.
pub const ALARM_RELEASE_MARGIN: i32 = 100;

/// One step of the hysteresis machine: whether the alarm reports armed,
/// and the state it leaves behind.
///
/// While armed, a temperature still within `ALARM_RELEASE_MARGIN` of the
/// armed peak keeps it armed without a fresh delta check; otherwise it
/// disarms and a fresh qualifying delta may re-arm it in the same step.
pub open spec fn spec_alarm_step(
    alarm: TempAlarm,
    temp_delta_threshold: i32,
    current_temp: i32,
    prev_temp: i32,
) -> (bool, TempAlarm) {
    if alarm matches TempAlarm::Enabled { temp } && current_temp >= temp - ALARM_RELEASE_MARGIN {
        (true, alarm)
    } else if current_temp - prev_temp > temp_delta_threshold {
        (true, TempAlarm::Enabled { temp: current_temp })
    } else {
        (false, TempAlarm::Disabled)
    }
}

/// Advances the hysteresis state for one classification cycle and
/// reports whether the thermal alarm is armed.
pub fn is_temp_alarm(
    temp_alarm: &mut TempAlarm,
    temp_delta_threshold: i32,
    current_temp: i32,
    prev_temp: i32,
) -> (armed: bool)
    ensures
        ({
            let (a, st) = spec_alarm_step(
                *old(temp_alarm),
                temp_delta_threshold,
                current_temp,
                prev_temp,
            );
            armed == a && *final(temp_alarm) == st
        }),
{
    if let TempAlarm::Enabled { temp } = *temp_alarm {
        if current_temp as i64 >= temp as i64 - ALARM_RELEASE_MARGIN as i64 {
            return true;
        } else {
            *temp_alarm = TempAlarm::Disabled;
        }
    }
    let delta: i64 = current_temp as i64 - prev_temp as i64;
    let risk_delta = delta > temp_delta_threshold as i64;
    if risk_delta {
        *temp_alarm = TempAlarm::Enabled { temp: current_temp };
    }
    risk_delta
}

/// The risk of one sample, and the hysteresis state left behind.
///
/// Flame always forces `High`. Otherwise, gas above threshold together
/// with an armed thermal alarm is `High`; gas above threshold alone, or
/// a fresh delta above threshold, is `Moderate`; everything else is
/// `Low`. The hysteresis state only advances when it is consulted, that
/// is when no flame is present and gas is above threshold.
pub open spec fn spec_classify(
    v: SensorValues,
    gas_threshold: u16,
    temp_delta_threshold: i32,
    alarm: TempAlarm,
    prev_temp: i32,
) -> (Risk, TempAlarm) {
    if v.flame {
        (Risk::High, alarm)
    } else if v.gas > gas_threshold {
        let (armed, alarm2) = spec_alarm_step(alarm, temp_delta_threshold, v.temp, prev_temp);
        if armed {
            (Risk::High, alarm2)
        } else {
            (Risk::Moderate, alarm2)
        }
    } else if v.temp - prev_temp > temp_delta_threshold {
        (Risk::Moderate, alarm)
    } else {
        (Risk::Low, alarm)
    }
}

/// Classifies one sample against the live thresholds, advancing the
/// hysteresis state exactly as `spec_classify` says.
pub fn get_risk(
    sensor_values: &SensorValues,
    gas_threshold: u16,
    temp_delta_threshold: i32,
    temp_alarm: &mut TempAlarm,
    prev_temp: i32,
) -> (risk: Risk)
    ensures
        ({
            let (r, st) = spec_classify(
                *sensor_values,
                gas_threshold,
                temp_delta_threshold,
                *old(temp_alarm),
                prev_temp,
            );
            risk == r && *final(temp_alarm) == st
        }),
{
    if sensor_values.flame {
        return Risk::High;
    }
    if sensor_values.gas > gas_threshold {
        if is_temp_alarm(temp_alarm, temp_delta_threshold, sensor_values.temp, prev_temp) {
            return Risk::High;
        }
    }
    let delta: i64 = sensor_values.temp as i64 - prev_temp as i64;
    if sensor_values.gas > gas_threshold || delta > temp_delta_threshold as i64 {
        return Risk::Moderate;
    }
    Risk::Low
}

/// Law: a flame reading always classifies as `High`, whatever the
/// temperature, gas level, thresholds or hysteresis state.
pub proof fn lemma_flame_forces_high(
    v: SensorValues,
    gas_threshold: u16,
    temp_delta_threshold: i32,
    alarm: TempAlarm,
    prev_temp: i32,
)
    requires
        v.flame,
    ensures
        spec_classify(v, gas_threshold, temp_delta_threshold, alarm, prev_temp).0 == Risk::High,
{
}

/// The risk sequence produced by classifying a stream of inputs, each a
/// sample with its gas threshold, delta threshold and previous
/// temperature, threading the hysteresis state from step to step.
pub open spec fn classify_run(
    inputs: Seq<(SensorValues, u16, i32, i32)>,
    alarm: TempAlarm,
) -> Seq<Risk>
    decreases inputs.len(),
{
    if inputs.len() == 0 {
        Seq::empty()
    } else {
        let step = spec_classify(
            inputs.first().0,
            inputs.first().1,
            inputs.first().2,
            alarm,
            inputs.first().3,
        );
        seq![step.0] + classify_run(inputs.drop_first(), step.1)
    }
}

/// Law: classification is a pure function of its inputs and the
/// hysteresis state; replaying the same input stream from the same
/// initial state yields the identical risk sequence.
pub proof fn lemma_classify_replay(
    inputs_a: Seq<(SensorValues, u16, i32, i32)>,
    inputs_b: Seq<(SensorValues, u16, i32, i32)>,
    alarm_a: TempAlarm,
    alarm_b: TempAlarm,
)
    requires
        inputs_a == inputs_b,
        alarm_a == alarm_b,
    ensures
        classify_run(inputs_a, alarm_a) == classify_run(inputs_b, alarm_b),
{
}

/// Discrete indicator outputs driven by the actuator task: three LED
/// channels and the buzzer.
#[derive(Clone, Copy, Debug, PartialEq, Eq, Structural)]
pub struct AlarmOutputs {
    pub red: bool,
    pub green: bool,
    pub blue: bool,
    pub buzzer: bool,
}

/// The static indicator table: safe indication for `Low`, caution for
/// `Moderate`, hazard plus audible alert for `High`.
pub fn alarm_outputs(risk: &Risk) -> (r: AlarmOutputs)
    ensures
        *risk == Risk::Low ==> r == (AlarmOutputs {
            red: false,
            green: true,
            blue: false,
            buzzer: false,
        }),
        *risk == Risk::Moderate ==> r == (AlarmOutputs {
            red: false,
            green: false,
            blue: true,
            buzzer: false,
        }),
        *risk == Risk::High ==> r == (AlarmOutputs {
            red: true,
            green: false,
            blue: false,
            buzzer: true,
        }),
{
    match risk {
        Risk::Low => AlarmOutputs { red: false, green: true, blue: false, buzzer: false },
        Risk::Moderate => AlarmOutputs { red: false, green: false, blue: true, buzzer: false },
        Risk::High => AlarmOutputs { red: true, green: false, blue: false, buzzer: true },
    }
}

} // verus!
