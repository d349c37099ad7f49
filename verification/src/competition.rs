//! Decoding of the competition status word of the controller.

use vstd::prelude::*;

verus! {

/// The competition state of the robot.
#[derive(Copy, Clone, Debug, PartialEq, Eq, Structural)]
pub enum CompetitionStatus {
    /// No field controller is connected.
    Disconnected,
    /// Connected, with the robot disabled.
    Disabled,
    /// The driver-control period is running.
    DriverControl,
    /// The autonomous period is running.
    Autonomous,
}

/// The state the status word denotes: bit two reports the connection,
/// bit zero a disabled robot, bit one the autonomous period; with none
/// of those set the robot is in driver control.
pub open spec fn decode_status(status: u32) -> CompetitionStatus {
    if status & 4 == 0 {
        CompetitionStatus::Disconnected
    } else if status & 1 != 0 {
        CompetitionStatus::Disabled
    } else if status & 2 != 0 {
        CompetitionStatus::Autonomous
    } else {
        CompetitionStatus::DriverControl
    }
}

impl CompetitionStatus {
    /// Decodes the competition status word as read from the hardware.
    pub fn get_competition_status(status: u32) -> (r: CompetitionStatus)
        ensures
            r == decode_status(status),
    {
        if status & 4 == 0 {
            CompetitionStatus::Disconnected
        } else if status & 1 != 0 {
            CompetitionStatus::Disabled
        } else if status & 2 != 0 {
            CompetitionStatus::Autonomous
        } else {
            CompetitionStatus::DriverControl
        }
    }
}

} // verus!
