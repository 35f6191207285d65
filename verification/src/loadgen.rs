//! Simulated sampler for exercising the pipeline without sensors.
//!
//! The generator ramps temperature and gas up and down between fixed
//! bounds, toggles the flame bit every cycle, decimates samples into the
//! shared history like the evaluator does, and cycles through the risk
//! levels so every downstream consumer sees every value.

use vstd::prelude::*;

use crate::config::Config;
use crate::history::pushed;
use crate::risk::Risk;
use crate::samples::SensorValues;
use crate::samples::ValueHistory;

verus! {

/// Which way the simulated readings are ramping.
#[derive(Clone, Copy, Debug, PartialEq, Eq, Structural)]
pub enum LoadDirection {
    Decrease,
    Increase,
}

/// The next simulated reading: temperature moves by one centidegree and
/// gas by one ppm in the current direction, and the flame bit toggles.
pub open spec fn spec_next_values(last: SensorValues, dir: LoadDirection) -> SensorValues {
    match dir {
        LoadDirection::Decrease => SensorValues {
            temp: (last.temp - 1) as i32,
            gas: (last.gas - 1) as u16,
            flame: !last.flame,
        },
        LoadDirection::Increase => SensorValues {
            temp: (last.temp + 1) as i32,
            gas: (last.gas + 1) as u16,
            flame: !last.flame,
        },
    }
}

/// The ramp turns around at the bounds: above 90 °C or 9000 ppm it
/// starts decreasing, below 5 °C or 50 ppm it starts increasing.
pub open spec fn spec_next_direction(v: SensorValues, dir: LoadDirection) -> LoadDirection {
    if v.temp < 500 || v.gas < 50 {
        LoadDirection::Increase
    } else if v.temp > 9000 || v.gas > 9000 {
        LoadDirection::Decrease
    } else {
        dir
    }
}

/// The simulated risk cycles through the three levels in severity
/// order.
pub open spec fn spec_next_risk(r: Risk) -> Risk {
    match r {
        Risk::Low => Risk::Moderate,
        Risk::Moderate => Risk::High,
        Risk::High => Risk::Low,
    }
}

/// State of the simulated sampler.
pub struct LoadGenerator {
    last_values: SensorValues,
    save_counter: u16,
    direction: LoadDirection,
    risk: Risk,
}

impl LoadGenerator {
    pub closed spec fn wf(&self) -> bool {
        self.save_counter <= 256
    }

    pub closed spec fn last(&self) -> SensorValues {
        self.last_values
    }

    pub closed spec fn dir(&self) -> LoadDirection {
        self.direction
    }

    pub closed spec fn counter(&self) -> int {
        self.save_counter as int
    }

    pub closed spec fn risk(&self) -> Risk {
        self.risk
    }

    /// A generator at the all-zero reading, ramping upward.
    pub fn new() -> (r: Self)
        ensures
            r.wf(),
            r.last() == (SensorValues { temp: 0, gas: 0, flame: false }),
            r.dir() == LoadDirection::Increase,
            r.counter() == 0,
            r.risk() == Risk::Low,
    {
        LoadGenerator {
            last_values: SensorValues { temp: 0, gas: 0, flame: false },
            save_counter: 0,
            direction: LoadDirection::Increase,
            risk: Risk::Low,
        }
    }

    /// The most recently produced reading.
    pub fn last_values(&self) -> (r: SensorValues)
        ensures
            r == self.last(),
    {
        self.last_values
    }

    /// Which way the ramp is currently heading.
    pub fn direction(&self) -> (r: LoadDirection)
        ensures
            r == self.dir(),
    {
        self.direction
    }

    /// One simulated cycle: produces the sample and the risk to
    /// publish, and decimates the sample into the shared history. The
    /// bounds in `requires` keep the ramp arithmetic inside the machine
    /// range; the ramp's turnaround keeps an ordinary run well within
    /// them.
    pub fn step<const N: usize>(
        &mut self,
        config: &Config,
        history: &mut ValueHistory<N>,
    ) -> (r: (SensorValues, Risk))
        requires
            old(self).wf(),
            old(history).wf(),
            old(self).dir() == LoadDirection::Increase ==> old(self).last().gas < 0xffff
                && old(self).last().temp < i32::MAX,
            old(self).dir() == LoadDirection::Decrease ==> old(self).last().gas > 0
                && old(self).last().temp > i32::MIN,
        ensures
            final(self).wf(),
            final(history).wf(),
            ({
                let v = spec_next_values(old(self).last(), old(self).dir());
                &&& r.0 == v
                &&& final(self).last() == v
                &&& final(self).dir() == spec_next_direction(v, old(self).dir())
                &&& r.1 == spec_next_risk(old(self).risk())
                &&& final(self).risk() == r.1
                &&& (old(self).counter() + 1 > config.data_point_interval ==> {
                    &&& final(history).history() == pushed(old(history).history(), v)
                    &&& final(history).changed()
                    &&& final(self).counter() == 0
                })
                &&& (old(self).counter() + 1 <= config.data_point_interval ==> {
                    &&& *final(history) == *old(history)
                    &&& final(self).counter() == old(self).counter() + 1
                })
            }),
    {
        let mut sensor_values = SensorValues {
            temp: self.last_values.temp,
            gas: self.last_values.gas,
            flame: !self.last_values.flame,
        };
        match self.direction {
            LoadDirection::Decrease => {
                sensor_values.temp = sensor_values.temp - 1;
                sensor_values.gas = sensor_values.gas - 1;
            },
            LoadDirection::Increase => {
                sensor_values.temp = sensor_values.temp + 1;
                sensor_values.gas = sensor_values.gas + 1;
            },
        }
        if sensor_values.temp > 9000 || sensor_values.gas > 9000 {
            self.direction = LoadDirection::Decrease;
        }
        if sensor_values.temp < 500 || sensor_values.gas < 50 {
            self.direction = LoadDirection::Increase;
        }
        self.last_values = sensor_values;
        self.save_counter += 1;
        if self.save_counter > config.data_point_interval as u16 {
            history.push_values(sensor_values);
            self.save_counter = 0;
        }
        self.risk = match self.risk {
            Risk::Low => Risk::Moderate,
            Risk::Moderate => Risk::High,
            Risk::High => Risk::Low,
        };
        (sensor_values, self.risk)
    }
}

} // verus!
