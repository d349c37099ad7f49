//! The smart motor: its configuration kinds and command computations.
//!
//! The motor itself lives on the other side of a smart port; this module
//! holds the values written to it and the computations behind them, such
//! as the clamping of a voltage command.  Issuing the commands on the
//! physical line is the caller's part.

use vstd::prelude::*;
use crate::devices::{SmartDevice, SmartPort};

verus! {

/// The faults a motor can report.
#[derive(Copy, Clone, Debug, PartialEq, Eq, Structural)]
pub enum MotorFaults {
    /// No fault.
    NoFault,
    /// The motor is over temperature.
    OverTemp,
    /// The h-bridge is faulting.
    HBridgeFault,
    /// The motor is over current.
    OverCurrent,
    /// The h-bridge is over current.
    HBridgeOverCurrent,
}

/// The units an encoder tick is reported in.
#[derive(Copy, Clone, Debug, PartialEq, Eq, Structural)]
pub enum MotorEncoderUnits {
    /// Degrees of rotation.
    Degrees,
    /// Full rotations.
    Rotations,
    /// Raw encoder ticks.
    Ticks,
}

impl Default for MotorEncoderUnits {
    /// Degrees, the unit a motor starts in.
    fn default() -> (r: MotorEncoderUnits)
        ensures
            r == MotorEncoderUnits::Degrees,
    {
        MotorEncoderUnits::Degrees
    }
}

impl MotorEncoderUnits {
    /// The numeric code of the unit, as written to the motor.
    pub fn as_u32(&self) -> (r: u32)
        ensures
            r == match *self {
                MotorEncoderUnits::Degrees => 0u32,
                MotorEncoderUnits::Rotations => 1u32,
                MotorEncoderUnits::Ticks => 2u32,
            },
    {
        match *self {
            MotorEncoderUnits::Degrees => 0,
            MotorEncoderUnits::Rotations => 1,
            MotorEncoderUnits::Ticks => 2,
        }
    }
}

/// How a motor comes to a stop.
#[derive(Copy, Clone, Debug, PartialEq, Eq, Structural)]
pub enum MotorBrakeMode {
    /// The motor coasts to a stop.
    Coast,
    /// The motor brakes to a stop.
    Brake,
    /// The motor holds its position against outside forces.
    Hold,
}

impl Default for MotorBrakeMode {
    /// Coasting, the mode a motor starts in.
    fn default() -> (r: MotorBrakeMode)
        ensures
            r == MotorBrakeMode::Coast,
    {
        MotorBrakeMode::Coast
    }
}

impl MotorBrakeMode {
    /// The numeric code of the mode, as written to the motor.
    pub fn as_u32(&self) -> (r: u32)
        ensures
            r == match *self {
                MotorBrakeMode::Coast => 0u32,
                MotorBrakeMode::Brake => 1u32,
                MotorBrakeMode::Hold => 2u32,
            },
    {
        match *self {
            MotorBrakeMode::Coast => 0,
            MotorBrakeMode::Brake => 1,
            MotorBrakeMode::Hold => 2,
        }
    }
}

/// A voltage command clamped to the range the motor accepts.
pub open spec fn clamped_voltage(voltage: int) -> int {
    if voltage > 127 {
        127
    } else if voltage < -127 {
        -127
    } else {
        voltage
    }
}

/// A basic smart motor.
#[derive(Clone, Debug)]
pub struct SmartMotor {
    /// The smart port the motor is connected to.
    port: u32,
}

impl SmartMotor {
    /// The smart port the motor is connected to.
    pub closed spec fn port_spec(self) -> u32 {
        self.port
    }

    /// The voltage command a move request issues: the requested voltage
    /// clamped to the range the motor accepts.
    pub fn move_voltage(&self, voltage: i32) -> (r: i32)
        ensures
            r == clamped_voltage(voltage as int),
            -127 <= r <= 127,
    {
        if voltage > 127 {
            127
        } else if voltage < -127 {
            -127
        } else {
            voltage
        }
    }

    /// The velocity command a stop request issues.
    pub fn stop(&self) -> (r: i32)
        ensures
            r == 0,
    {
        0
    }
}

impl SmartDevice for SmartMotor {
    open spec fn port_kind() -> SmartPort {
        SmartPort::Motor
    }

    open spec fn port_of(&self) -> u32 {
        self.port_spec()
    }

    fn new_smart(port: u32) -> (r: SmartMotor) {
        SmartMotor { port }
    }

    fn get_smart_port(&self) -> (r: u32) {
        self.port
    }

    fn get_smart_port_type(&self) -> (r: SmartPort) {
        SmartPort::Motor
    }
}

} // verus!
