//! The evaluator task's per-cycle decisions.
//!
//! Each cycle the evaluator receives one sample, snapshots the live
//! configuration, advances its delta window, classifies the sample, and
//! decimates samples into the shared history. Everything that suspends —
//! waiting on the sample mailbox, locking the shared state, driving the
//! display — happens in the surrounding task loop, outside this crate;
//! this module is the pure step it runs between those points.

use vstd::prelude::*;

use crate::config::Config;
use crate::delta::DELTA_DEPTH;
use crate::delta::Queue;
use crate::history::pushed;
use crate::risk::Risk;
use crate::risk::TempAlarm;
use crate::risk::get_risk;
use crate::risk::spec_classify;
use crate::samples::SensorValues;
use crate::samples::ValueHistory;

verus! {

/// The reading a cycle's delta compares against: the temperature from
/// `DELTA_DEPTH` cycles ago, or the current reading itself on the very
/// first cycle, so the first delta is zero.
pub open spec fn spec_prev_temp(window: Option<Seq<i32>>, temp: i32) -> i32 {
    match window {
        Some(w) => w[0],
        None => temp,
    }
}

/// State the evaluator task carries from cycle to cycle.
pub struct EvaluatorState {
    delta_window: Option<Queue<DELTA_DEPTH>>,
    save_counter: u16,
    temp_alarm: TempAlarm,
}

impl EvaluatorState {
    pub closed spec fn wf(&self) -> bool {
        &&& self.save_counter <= 256
        &&& (self.delta_window matches Some(q) ==> q.wf())
    }

    /// The hysteresis state of the thermal alarm.
    pub closed spec fn alarm(&self) -> TempAlarm {
        self.temp_alarm
    }

    /// The decimation counter.
    pub closed spec fn counter(&self) -> int {
        self.save_counter as int
    }

    /// The delta window's contents, oldest first; `None` before the
    /// first cycle.
    pub closed spec fn window(&self) -> Option<Seq<i32>> {
        match self.delta_window {
            Some(q) => Some(q.window()),
            None => None,
        }
    }

    /// A fresh evaluator: no window yet, counter at zero, alarm
    /// disarmed.
    pub fn new() -> (r: Self)
        ensures
            r.wf(),
            r.window() == None::<Seq<i32>>,
            r.counter() == 0,
            r.alarm() == TempAlarm::Disabled,
    {
        EvaluatorState { delta_window: None, save_counter: 0, temp_alarm: TempAlarm::Disabled }
    }

    /// One evaluator cycle: advances the delta window, classifies the
    /// sample against the live configuration, stores every
    /// `data_point_interval`-th sample into the shared history, and
    /// returns the risk to publish — the computed risk, or `Low` when
    /// alarms are disabled.
    pub fn step<const N: usize>(
        &mut self,
        values: SensorValues,
        config: &Config,
        history: &mut ValueHistory<N>,
    ) -> (risk: Risk)
        requires
            old(self).wf(),
            old(history).wf(),
        ensures
            final(self).wf(),
            final(history).wf(),
            ({
                let prev = spec_prev_temp(old(self).window(), values.temp);
                let step = spec_classify(
                    values,
                    config.gas_threshold,
                    config.temp_threshold as i32,
                    old(self).alarm(),
                    prev,
                );
                &&& final(self).alarm() == step.1
                &&& risk == (if config.alarms_enabled {
                    step.0
                } else {
                    Risk::Low
                })
            }),
            final(self).window() == Some(
                match old(self).window() {
                    Some(w) => pushed(w, values.temp),
                    None => Seq::new(DELTA_DEPTH as nat, |i: int| values.temp),
                },
            ),
            old(self).counter() > config.data_point_interval ==> {
                &&& final(history).history() == pushed(old(history).history(), values)
                &&& final(history).changed()
                &&& final(self).counter() == 1
            },
            old(self).counter() <= config.data_point_interval ==> {
                &&& *final(history) == *old(history)
                &&& final(self).counter() == old(self).counter() + 1
            },
    {
        let prev_temp: i32 = match &mut self.delta_window {
            Some(queue) => queue.push(values.temp),
            None => {
                self.delta_window = Some(Queue::new(values.temp));
                values.temp
            },
        };
        let risk = get_risk(
            &values,
            config.gas_threshold,
            config.temp_threshold as i32,
            &mut self.temp_alarm,
            prev_temp,
        );
        if self.save_counter > config.data_point_interval as u16 {
            history.push_values(values);
            self.save_counter = 0;
        }
        self.save_counter += 1;
        if config.alarms_enabled {
            risk
        } else {
            Risk::Low
        }
    }
}

} // verus!
