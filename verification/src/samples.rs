//! Sensor samples and the canonical record of recent readings.
//!
//! A `SensorValues` is one sampling cycle's reading: temperature in
//! centidegrees Celsius, gas concentration in ppm, and flame presence.
//! `ValueHistory` keeps three index-aligned rings, one per channel, plus
//! a one-shot change flag for the remote query layer.

use vstd::prelude::*;

use crate::history::History;
use crate::history::pushed;

verus! {

/// One cycle's combined sensor reading.
#[derive(Clone, Copy, Debug, PartialEq, Eq, Structural)]
pub struct SensorValues {
    /// Temperature in centidegrees Celsius (hundredths of a degree).
    pub temp: i32,
    /// Combustible-gas concentration in ppm.
    pub gas: u16,
    /// Flame presence.
    pub flame: bool,
}

impl Default for SensorValues {
    fn default() -> (r: Self)
        ensures
            r == (SensorValues { temp: 0, gas: 0, flame: false }),
    {
        SensorValues { temp: 0, gas: 0, flame: false }
    }
}

impl SensorValues {
    /// The temperature as the wire carries it: clamped into the 16-bit
    /// unsigned range of centidegrees.
    pub open spec fn wire_temp(self) -> u16 {
        if self.temp < 0 {
            0u16
        } else if self.temp > 0xffff {
            0xffffu16
        } else {
            self.temp as u16
        }
    }

    /// The five-byte little-endian wire frame of this sample.
    pub open spec fn spec_to_bytes(self) -> Seq<u8> {
        seq![
            (self.wire_temp() % 256) as u8,
            (self.wire_temp() / 256) as u8,
            (self.gas % 256) as u8,
            (self.gas / 256) as u8,
            if self.flame {
                1u8
            } else {
                0u8
            },
        ]
    }

    /// Encodes the sample for the telemetry channel: temperature×100 and
    /// gas as little-endian 16-bit values, then one flame byte.
    pub fn to_bytes(&self) -> (r: [u8; 5])
        ensures
            r@ == self.spec_to_bytes(),
    {
        let temp_scaled: u16 = if self.temp < 0 {
            0
        } else if self.temp > 0xffff {
            0xffff
        } else {
            self.temp as u16
        };
        let r = [
            (temp_scaled % 256) as u8,
            (temp_scaled / 256) as u8,
            (self.gas % 256) as u8,
            (self.gas / 256) as u8,
            if self.flame {
                1u8
            } else {
                0u8
            },
        ];
        proof {
            assert(r@ =~= self.spec_to_bytes());
        }
        r
    }
}

/// Three index-aligned channel rings plus the one-shot change flag.
pub struct ValueHistory<const N: usize> {
    temp: History<i32, N>,
    ppm: History<u16, N>,
    flame: History<bool, N>,
    new_change: bool,
}

/// A bulk copy of the resident history, oldest sample first.
pub struct ValueHistoryArray(pub Vec<SensorValues>);

impl<const N: usize> ValueHistory<N> {
    pub closed spec fn wf(&self) -> bool {
        &&& self.temp.wf()
        &&& self.ppm.wf()
        &&& self.flame.wf()
    }

    /// The resident samples, oldest first: the three channel rings
    /// zipped index by index.
    pub closed spec fn history(&self) -> Seq<SensorValues> {
        Seq::new(
            N as nat,
            |i: int|
                (SensorValues {
                    temp: self.temp.ordered()[i],
                    gas: self.ppm.ordered()[i],
                    flame: self.flame.ordered()[i],
                }),
        )
    }

    /// Whether a push has happened since the flag was last taken.
    pub closed spec fn changed(&self) -> bool {
        self.new_change
    }

    /// A history filled with default readings; the change flag starts
    /// raised so a first reader sees the initial state.
    pub fn new() -> (r: Self)
        requires
            N >= 1,
        ensures
            r.wf(),
            r.changed(),
            r.history() == Seq::new(N as nat, |i: int| (SensorValues { temp: 0, gas: 0, flame: false })),
    {
        let r = ValueHistory {
            temp: History::default_value(0),
            ppm: History::default_value(0),
            flame: History::default_value(false),
            new_change: true,
        };
        proof {
            assert(r.history() =~= Seq::new(
                N as nat,
                |i: int| (SensorValues { temp: 0, gas: 0, flame: false }),
            ));
        }
        r
    }

    /// Under one lock acquisition the caller pushes one reading into
    /// every channel, keeping the rings index-aligned, and raises the
    /// change flag.
    pub fn push_values(&mut self, sensor_values: SensorValues)
        requires
            old(self).wf(),
        ensures
            final(self).wf(),
            final(self).changed(),
            final(self).history() == pushed(old(self).history(), sensor_values),
    {
        self.new_change = true;
        self.flame.push_value(sensor_values.flame);
        self.ppm.push_value(sensor_values.gas);
        self.temp.push_value(sensor_values.temp);
        proof {
            assert(self.history() =~= pushed(old(self).history(), sensor_values));
        }
    }

    /// The cursor-addressed reading of each channel: the oldest resident
    /// sample, not the most recent write.
    pub fn current_values(&self) -> (r: SensorValues)
        requires
            self.wf(),
        ensures
            r == self.history()[0],
    {
        let r = SensorValues {
            flame: *self.flame.get_current_value(),
            gas: *self.ppm.get_current_value(),
            temp: *self.temp.get_current_value(),
        };
        proof {
            assert(r == self.history()[0]);
        }
        r
    }

    /// Takes the change flag: `true` on the first call after a push and
    /// `false` until the next push; a single reader observes each push
    /// exactly once.
    pub fn new_change(&mut self) -> (r: bool)
        ensures
            r == old(self).changed(),
            !final(self).changed(),
            final(self).history() == old(self).history(),
            final(self).wf() == old(self).wf(),
    {
        if self.new_change {
            self.new_change = false;
            true
        } else {
            false
        }
    }

    /// An O(N) bulk copy for the remote history endpoint; not for the
    /// hot evaluation path.
    pub fn get_current_values_history(&self) -> (r: ValueHistoryArray)
        requires
            self.wf(),
        ensures
            r.0@ == self.history(),
    {
        let temp_values = self.temp.get_values_ordered();
        let ppm_values = self.ppm.get_values_ordered();
        let flame_values = self.flame.get_values_ordered();
        let mut arr: Vec<SensorValues> = Vec::new();
        let mut i: usize = 0;
        while i < N
            invariant
                i <= N,
                self.wf(),
                temp_values@ == self.temp.ordered(),
                ppm_values@ == self.ppm.ordered(),
                flame_values@ == self.flame.ordered(),
                temp_values@.len() == N,
                ppm_values@.len() == N,
                flame_values@.len() == N,
                arr@.len() == i,
                forall|j: int| 0 <= j < i ==> arr@[j] == self.history()[j],
            decreases N - i,
        {
            arr.push(
                SensorValues { temp: temp_values[i], gas: ppm_values[i], flame: flame_values[i] },
            );
            i += 1;
        }
        proof {
            assert(arr@ =~= self.history());
        }
        ValueHistoryArray(arr)
    }
}

} // verus!
