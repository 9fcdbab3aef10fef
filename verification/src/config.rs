//! Configuration of the streamer, already parsed into plain values, and its
//! validation. Malformed configuration is a deploy-time fault: validation
//! failures are final, the system refuses to start.

use vstd::prelude::*;

use crate::SENSOR_COUNT;

verus! {

/// Identifies one inertial device: the number of the I2C bus it sits on and
/// its address on that bus.
#[derive(Clone, Copy, Debug, PartialEq, Eq, Structural)]
pub struct Device {
    pub bus: u8,
    pub addr: u8,
}

/// Why a configuration was rejected.
#[derive(Clone, Copy, Debug, PartialEq, Eq, Structural)]
pub enum ConfigError {
    /// A transport address is missing, so there is nothing to connect to.
    NoValidSocketAddrs,
    /// More devices are listed than the array drives.
    TooManyDevices,
    /// Fewer devices are listed than the array drives.
    NotEnoughDevices,
    /// The streaming period is zero.
    FrequencyIsZero,
}

impl ConfigError {
    /// The operator-facing description of the failure.
    pub fn message(&self) -> (r: &'static str)
        ensures
            r@ == match self {
                ConfigError::NoValidSocketAddrs => "config invalid: config contains no address that the streamer can connect to"@,
                ConfigError::TooManyDevices => "config invalid: config contains too many devices"@,
                ConfigError::NotEnoughDevices => "config invalid: config does not contain enough devices"@,
                ConfigError::FrequencyIsZero => "config invalid: frequency cannot be zero"@,
            },
    {
        match self {
            ConfigError::NoValidSocketAddrs => {
                "config invalid: config contains no address that the streamer can connect to"
            },
            ConfigError::TooManyDevices => "config invalid: config contains too many devices",
            ConfigError::NotEnoughDevices => "config invalid: config does not contain enough devices",
            ConfigError::FrequencyIsZero => "config invalid: frequency cannot be zero",
        }
    }
}

/// Runtime configuration as the library sees it: the streaming period in
/// nanoseconds per tick, the addresses of the data and control transports,
/// and the list of devices to drive.
pub struct Config {
    pub frequency_nanos: u64,
    pub server_data: String,
    pub server_ctrl: String,
    pub devices: Vec<Device>,
}

/// A configuration the streamer can start from: exactly one device per
/// sensor, both transport addresses present, a nonzero period.
pub open spec fn config_ok(c: &Config) -> bool {
    &&& c.devices@.len() == SENSOR_COUNT
    &&& c.server_data@.len() > 0
    &&& c.server_ctrl@.len() > 0
    &&& c.frequency_nanos > 0
}

/// Accepts exactly the configurations that `config_ok` admits, and names
/// the first fault found in the order: device count, addresses, period.
pub fn validate_config(config: &Config) -> (r: Result<(), ConfigError>)
    ensures
        r is Ok <==> config_ok(config),
        r matches Err(e) ==> match e {
            ConfigError::TooManyDevices => config.devices@.len() > SENSOR_COUNT,
            ConfigError::NotEnoughDevices => config.devices@.len() < SENSOR_COUNT,
            ConfigError::NoValidSocketAddrs => {
                &&& config.devices@.len() == SENSOR_COUNT
                &&& (config.server_data@.len() == 0 || config.server_ctrl@.len() == 0)
            },
            ConfigError::FrequencyIsZero => {
                &&& config.devices@.len() == SENSOR_COUNT
                &&& config.server_data@.len() > 0
                &&& config.server_ctrl@.len() > 0
                &&& config.frequency_nanos == 0
            },
        },
{
    if config.devices.len() > SENSOR_COUNT {
        return Err(ConfigError::TooManyDevices);
    } else if config.devices.len() < SENSOR_COUNT {
        return Err(ConfigError::NotEnoughDevices);
    }

    if config.server_data.as_str().is_empty() || config.server_ctrl.as_str().is_empty() {
        return Err(ConfigError::NoValidSocketAddrs);
    }

    if config.frequency_nanos == 0 {
        return Err(ConfigError::FrequencyIsZero);
    }

    Ok(())
}

} // verus!
