//! The last known good readings of the device.

use crate::error::DeviceError;
use vstd::prelude::*;

verus! {

/// What the device last reported, field by field. A field is `None` until its
/// first successful read and keeps its last good value through failed reads.
#[derive(Clone, Copy, Debug, PartialEq, Eq)]
pub struct Telemetry {
    /// Main battery voltage, in tenths of a volt.
    pub main_voltage: Option<u16>,
    /// Logic battery voltage, in tenths of a volt.
    pub logic_voltage: Option<u16>,
    /// Encoder count of the first channel.
    pub encoder_m1: Option<u32>,
    /// Encoder count of the second channel.
    pub encoder_m2: Option<u32>,
    /// The fault register, as read.
    pub fault_flags: Option<u16>,
    /// The configuration register, as read.
    pub config_flags: Option<u16>,
    /// Occupancy of the command buffer of each channel, as read.
    pub buffer_occupancy: Option<(u8, u8)>,
}

/// One read of a polling pass.
#[derive(Clone, Copy, Debug, PartialEq, Eq)]
pub enum Register {
    MainVoltage,
    LogicVoltage,
    /// Both encoder counts, in one read.
    Encoders,
    FaultFlags,
    ConfigFlags,
    /// Both buffer occupancies, in one read.
    BufferOccupancy,
}

/// The reads of a polling pass in the order in which they are issued. Each
/// is issued whether or not the ones before it succeeded.
pub open spec fn pass_sequence() -> Seq<Register> {
    seq![
        Register::MainVoltage,
        Register::LogicVoltage,
        Register::Encoders,
        Register::FaultFlags,
        Register::ConfigFlags,
        Register::BufferOccupancy,
    ]
}

/// The outcome of one polling pass: every read of the fixed sequence, each
/// with its own success or failure.
#[derive(Debug)]
pub struct Readings {
    pub main_voltage: Result<u16, DeviceError>,
    pub logic_voltage: Result<u16, DeviceError>,
    /// Both encoder counts, read together.
    pub encoders: Result<(u32, u32), DeviceError>,
    pub fault_flags: Result<u16, DeviceError>,
    pub config_flags: Result<u16, DeviceError>,
    /// Both buffer occupancies, read together.
    pub buffer_occupancy: Result<(u8, u8), DeviceError>,
}

/// A field after one read: the new value if the read succeeded, else what
/// the field held before.
pub open spec fn refreshed<T>(held: Option<T>, read: Result<T, DeviceError>) -> Option<T> {
    match read {
        Ok(value) => Some(value),
        Err(_) => held,
    }
}

/// The snapshot after one polling pass.
pub open spec fn merged(held: Telemetry, readings: Readings) -> Telemetry {
    Telemetry {
        main_voltage: refreshed(held.main_voltage, readings.main_voltage),
        logic_voltage: refreshed(held.logic_voltage, readings.logic_voltage),
        encoder_m1: match readings.encoders {
            Ok(pair) => Some(pair.0),
            Err(_) => held.encoder_m1,
        },
        encoder_m2: match readings.encoders {
            Ok(pair) => Some(pair.1),
            Err(_) => held.encoder_m2,
        },
        fault_flags: refreshed(held.fault_flags, readings.fault_flags),
        config_flags: refreshed(held.config_flags, readings.config_flags),
        buffer_occupancy: refreshed(held.buffer_occupancy, readings.buffer_occupancy),
    }
}

impl Telemetry {
    /// The snapshot before anything was read.
    pub open spec fn blank() -> Telemetry {
        Telemetry {
            main_voltage: None,
            logic_voltage: None,
            encoder_m1: None,
            encoder_m2: None,
            fault_flags: None,
            config_flags: None,
            buffer_occupancy: None,
        }
    }

    /// A snapshot with every field absent.
    pub fn new() -> (telemetry: Telemetry)
        ensures
            telemetry == Telemetry::blank(),
    {
        Telemetry {
            main_voltage: None,
            logic_voltage: None,
            encoder_m1: None,
            encoder_m2: None,
            fault_flags: None,
            config_flags: None,
            buffer_occupancy: None,
        }
    }

    /// Takes over every reading that succeeded and keeps the rest.
    pub fn absorb(&mut self, readings: &Readings)
        ensures
            *final(self) == merged(*old(self), *readings),
    {
        if let Ok(tenths) = &readings.main_voltage {
            self.main_voltage = Some(*tenths);
        }
        if let Ok(tenths) = &readings.logic_voltage {
            self.logic_voltage = Some(*tenths);
        }
        if let Ok(pair) = &readings.encoders {
            self.encoder_m1 = Some(pair.0);
            self.encoder_m2 = Some(pair.1);
        }
        if let Ok(flags) = &readings.fault_flags {
            self.fault_flags = Some(*flags);
        }
        if let Ok(flags) = &readings.config_flags {
            self.config_flags = Some(*flags);
        }
        if let Ok(pair) = &readings.buffer_occupancy {
            self.buffer_occupancy = Some(*pair);
        }
    }
}

} // verus!
