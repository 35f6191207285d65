//! Live configuration: thresholds and reporting knobs shared across
//! tasks, plus its six-byte wire codec.
//!
//! The temperature-delta threshold is carried in centidegrees Celsius,
//! the unit the wire format uses, so encoding and decoding are exact.

use vstd::prelude::*;

verus! {

/// Thresholds and reporting knobs read by the evaluator each cycle and
/// replaced wholesale on a remote update.
#[derive(Clone, Debug, PartialEq, Eq, Structural)]
pub struct Config {
    /// Temperature-delta threshold in centidegrees Celsius.
    pub temp_threshold: u16,
    /// Gas threshold in ppm.
    pub gas_threshold: u16,
    /// Whether computed risk is published; with alarms disabled the
    /// evaluator publishes `Low` instead.
    pub alarms_enabled: bool,
    /// Decimation interval: how many cycles pass between samples stored
    /// into the long-term history.
    pub data_point_interval: u8,
}

impl Default for Config {
    /// The compiled-in defaults the process starts with: a 5 °C delta
    /// threshold, 1500 ppm gas threshold, alarms on, every third point
    /// stored.
    fn default() -> (r: Self)
        ensures
            r == (Config {
                temp_threshold: 500,
                gas_threshold: 1500,
                alarms_enabled: true,
                data_point_interval: 3,
            }),
    {
        Config { temp_threshold: 500, gas_threshold: 1500, alarms_enabled: true, data_point_interval: 3 }
    }
}

impl Config {
    /// The six-byte little-endian wire frame of this configuration.
    pub open spec fn spec_to_bytes(self) -> Seq<u8> {
        seq![
            (self.temp_threshold % 256) as u8,
            (self.temp_threshold / 256) as u8,
            (self.gas_threshold % 256) as u8,
            (self.gas_threshold / 256) as u8,
            if self.alarms_enabled {
                1u8
            } else {
                0u8
            },
            self.data_point_interval,
        ]
    }

    /// The configuration a six-byte wire frame decodes to.
    pub open spec fn spec_from_bytes(bytes: Seq<u8>) -> Config {
        Config {
            temp_threshold: (bytes[0] + 256 * bytes[1]) as u16,
            gas_threshold: (bytes[2] + 256 * bytes[3]) as u16,
            alarms_enabled: bytes[4] != 0,
            data_point_interval: bytes[5],
        }
    }

    /// Encodes the configuration for the telemetry channel: the two
    /// thresholds as little-endian 16-bit values, an alarms byte, and
    /// the interval byte.
    pub fn to_bytes(&self) -> (r: [u8; 6])
        ensures
            r@ == self.spec_to_bytes(),
    {
        let r = [
            (self.temp_threshold % 256) as u8,
            (self.temp_threshold / 256) as u8,
            (self.gas_threshold % 256) as u8,
            (self.gas_threshold / 256) as u8,
            if self.alarms_enabled {
                1u8
            } else {
                0u8
            },
            self.data_point_interval,
        ];
        proof {
            assert(r@ =~= self.spec_to_bytes());
        }
        r
    }

    /// Decodes a six-byte remote configuration frame.
    pub fn from_bytes(bytes: [u8; 6]) -> (r: Config)
        ensures
            r == Config::spec_from_bytes(bytes@),
    {
        let temp_threshold: u16 = bytes[0] as u16 + 256 * (bytes[1] as u16);
        let gas_threshold: u16 = bytes[2] as u16 + 256 * (bytes[3] as u16);
        Config {
            temp_threshold,
            gas_threshold,
            alarms_enabled: bytes[4] != 0,
            data_point_interval: bytes[5],
        }
    }
}

/// Law: decoding an encoded configuration gives it back unchanged, for
/// every representable configuration.
pub proof fn lemma_config_round_trip(c: Config)
    ensures
        Config::spec_from_bytes(c.spec_to_bytes()) == c,
{
    vstd::arithmetic::div_mod::lemma_fundamental_div_mod(c.temp_threshold as int, 256);
    vstd::arithmetic::div_mod::lemma_fundamental_div_mod(c.gas_threshold as int, 256);
}

/// Screens a remote configuration payload: exactly six bytes decode to
/// the new configuration; any other length is rejected, so the caller
/// keeps the prior configuration and no partial update happens.
pub fn handle_config_payload(payload: &Vec<u8>) -> (r: Option<Config>)
    ensures
        payload@.len() == 6 ==> r == Some(Config::spec_from_bytes(payload@)),
        payload@.len() != 6 ==> r == None::<Config>,
{
    if payload.len() == 6 {
        let bytes = [payload[0], payload[1], payload[2], payload[3], payload[4], payload[5]];
        proof {
            assert(bytes@ =~= payload@);
        }
        Some(Config::from_bytes(bytes))
    } else {
        None
    }
}

} // verus!
