//! Wheel-level commands. The motor actuator is binary on/off per wheel
//! (speed is fixed at initialization); the drive controller only issues
//! fire-and-forget command pairs and never queries actuator state.

use vstd::prelude::*;

use crate::drive::Heading;
use crate::drive::TurnDirection;

verus! {

/// A command to a single wheel.
#[derive(Clone, Copy, Debug, PartialEq, Eq, Structural)]
pub enum WheelCommand {
    Forward,
    Reverse,
    Stop,
}

/// One fire-and-forget command pair, left wheel and right wheel.
#[derive(Clone, Copy, Debug, PartialEq, Eq, Structural)]
pub struct MotorCommand {
    pub left: WheelCommand,
    pub right: WheelCommand,
}

/// Both wheels driving in heading `h`: forward/forward or reverse/reverse.
pub open spec fn spec_drive(h: Heading) -> MotorCommand {
    match h {
        Heading::Forward => MotorCommand {
            left: WheelCommand::Forward,
            right: WheelCommand::Forward,
        },
        Heading::Reverse => MotorCommand {
            left: WheelCommand::Reverse,
            right: WheelCommand::Reverse,
        },
    }
}

/// Both wheels stopped.
pub open spec fn spec_stop() -> MotorCommand {
    MotorCommand { left: WheelCommand::Stop, right: WheelCommand::Stop }
}

/// An in-place pivot: turning left drives the left wheel forward against the
/// right wheel in reverse; turning right the opposite way.
pub open spec fn spec_pivot(d: TurnDirection) -> MotorCommand {
    match d {
        TurnDirection::Left => MotorCommand {
            left: WheelCommand::Forward,
            right: WheelCommand::Reverse,
        },
        TurnDirection::Right => MotorCommand {
            left: WheelCommand::Reverse,
            right: WheelCommand::Forward,
        },
    }
}

impl MotorCommand {
    /// The "drive in heading `h`" command pair.
    pub fn drive(h: Heading) -> (r: MotorCommand)
        ensures
            r == spec_drive(h),
    {
        match h {
            Heading::Forward => MotorCommand {
                left: WheelCommand::Forward,
                right: WheelCommand::Forward,
            },
            Heading::Reverse => MotorCommand {
                left: WheelCommand::Reverse,
                right: WheelCommand::Reverse,
            },
        }
    }

    /// The "stop both wheels" command pair.
    pub fn stop() -> (r: MotorCommand)
        ensures
            r == spec_stop(),
    {
        MotorCommand { left: WheelCommand::Stop, right: WheelCommand::Stop }
    }

    /// The "pivot in place toward `d`" command pair.
    pub fn pivot(d: TurnDirection) -> (r: MotorCommand)
        ensures
            r == spec_pivot(d),
    {
        match d {
            TurnDirection::Left => MotorCommand {
                left: WheelCommand::Forward,
                right: WheelCommand::Reverse,
            },
            TurnDirection::Right => MotorCommand {
                left: WheelCommand::Reverse,
                right: WheelCommand::Forward,
            },
        }
    }
}

} // verus!
