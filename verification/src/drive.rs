//! The drive controller: a navigation state machine stepped once per
//! background-loop iteration. Each iteration evaluates the cliff aggregate
//! under the joint lock (step A), advances the phase counter of the current
//! phase (step B), and crosses a phase threshold when one is reached
//! (step C); at most one motor command is issued per iteration.

use vstd::prelude::*;

use crate::cliff::CliffFlags;
use crate::motor::MotorCommand;
use crate::motor::spec_drive;
use crate::motor::spec_pivot;
use crate::motor::spec_stop;
use crate::PRE_TURN_COUNT_THRESHOLD;
use crate::TURN_COUNT_THRESHOLD;

verus! {

/// The rover's current direction of straight travel. It toggles exactly when
/// an escape episode begins and is never toggled back by the episode's end.
#[derive(Clone, Copy, Debug, PartialEq, Eq, Structural)]
pub enum Heading {
    Forward,
    Reverse,
}

impl Heading {
    /// The opposite direction of travel.
    pub open spec fn spec_toggled(self) -> Heading {
        match self {
            Heading::Forward => Heading::Reverse,
            Heading::Reverse => Heading::Forward,
        }
    }

    /// The opposite direction of travel.
    pub fn toggled(self) -> (r: Heading)
        ensures
            r == self.spec_toggled(),
    {
        match self {
            Heading::Forward => Heading::Reverse,
            Heading::Reverse => Heading::Forward,
        }
    }
}

/// The pivot direction chosen once per escape episode.
#[derive(Clone, Copy, Debug, PartialEq, Eq, Structural)]
pub enum TurnDirection {
    Left,
    Right,
}

/// The navigation phase.
#[derive(Clone, Copy, Debug, PartialEq, Eq, Structural)]
pub enum Command {
    Standby,
    Advance,
    PreTurn,
    Turn,
}

/// The diagonal-corner heuristic: a front-right or back-left cliff means the
/// escape pivots to the right; any other pattern pivots to the left.
pub open spec fn spec_escape_direction(f: CliffFlags) -> TurnDirection {
    if f.front_right || f.back_left {
        TurnDirection::Right
    } else {
        TurnDirection::Left
    }
}

/// The diagonal-corner heuristic, as run at an escape start.
pub fn escape_direction(f: &CliffFlags) -> (r: TurnDirection)
    ensures
        r == spec_escape_direction(*f),
{
    if f.front_right || f.back_left {
        TurnDirection::Right
    } else {
        TurnDirection::Left
    }
}

/// The drive controller's sole owned mutable state.
#[derive(Clone, Copy, Debug, PartialEq, Eq, Structural)]
pub struct DriveState {
    pub command: Command,
    pub heading: Heading,
    pub turn_direction: TurnDirection,
    pub pre_turn_count: u32,
    pub turn_count: u32,
}

/// Whether an iteration over aggregate `f` starts an escape episode: the
/// rover is advancing and at least one corner, but not every corner, flags a
/// cliff.
pub open spec fn spec_escape_starts(s: DriveState, f: CliffFlags) -> bool {
    s.command == Command::Advance && !f.spec_all_clear() && !f.spec_all_blocked()
}

/// Step A, the locked evaluation of the aggregate. With every corner clear,
/// only a standby rover starts advancing; with every corner blocked, a rover
/// not already standing by stops; with a partial pattern, an advancing rover
/// begins an escape: heading toggles, the pivot direction is chosen from the
/// pattern, both phase counters reset, and the new heading is commanded.
pub open spec fn spec_evaluate(s: DriveState, f: CliffFlags) -> (DriveState, Option<
    MotorCommand,
>) {
    if f.spec_all_clear() {
        if s.command == Command::Standby {
            (DriveState { command: Command::Advance, ..s }, Some(spec_drive(s.heading)))
        } else {
            (s, None)
        }
    } else if f.spec_all_blocked() {
        if s.command != Command::Standby {
            (DriveState { command: Command::Standby, ..s }, Some(spec_stop()))
        } else {
            (s, None)
        }
    } else if s.command == Command::Advance {
        let h = s.heading.spec_toggled();
        (
            DriveState {
                command: Command::PreTurn,
                heading: h,
                turn_direction: spec_escape_direction(f),
                pre_turn_count: 0,
                turn_count: 0,
            },
            Some(spec_drive(h)),
        )
    } else {
        (s, None)
    }
}

/// Step B, the phase timing, on the state step A left. A counter advances
/// once per iteration while its phase's command holds after the locked
/// evaluation — the iteration that enters the phase included, so an entering
/// iteration ends with its counter at one.
pub open spec fn spec_tick(s: DriveState) -> DriveState {
    if s.command == Command::PreTurn {
        DriveState { pre_turn_count: (s.pre_turn_count + 1) as u32, ..s }
    } else if s.command == Command::Turn {
        DriveState { turn_count: (s.turn_count + 1) as u32, ..s }
    } else {
        s
    }
}

/// Step C, the phase advancement. When the back-away counter reaches its
/// threshold the pivot begins; when the pivot counter reaches its threshold
/// straight travel resumes in the heading the escape chose.
pub open spec fn spec_phase_advance(s: DriveState) -> (DriveState, Option<MotorCommand>) {
    if s.pre_turn_count == PRE_TURN_COUNT_THRESHOLD {
        (
            DriveState { command: Command::Turn, pre_turn_count: 0, ..s },
            Some(spec_pivot(s.turn_direction)),
        )
    } else if s.turn_count == TURN_COUNT_THRESHOLD {
        (
            DriveState { command: Command::Advance, turn_count: 0, ..s },
            Some(spec_drive(s.heading)),
        )
    } else {
        (s, None)
    }
}

/// One whole background iteration over aggregate `f`: step A, then B, then
/// C. On a well-formed state at most one of A and C issues a command, and
/// that command is the iteration's.
pub open spec fn spec_step(s: DriveState, f: CliffFlags) -> (DriveState, Option<MotorCommand>) {
    let (s1, cmd_eval) = spec_evaluate(s, f);
    let s2 = spec_tick(s1);
    let (s3, cmd_phase) = spec_phase_advance(s2);
    (s3, if cmd_eval is Some { cmd_eval } else { cmd_phase })
}

impl DriveState {
    /// Well-formedness between iterations: each phase counter is strictly
    /// below its threshold, and a counter is zero while the other phase of
    /// the episode holds (it was reset on the last entry).
    pub open spec fn wf(self) -> bool {
        &&& self.pre_turn_count < PRE_TURN_COUNT_THRESHOLD
        &&& self.turn_count < TURN_COUNT_THRESHOLD
        &&& self.command == Command::PreTurn ==> self.turn_count == 0
        &&& self.command == Command::Turn ==> self.pre_turn_count == 0
    }

    /// The cold-start value: standing by, heading forward, pivot direction
    /// left, both counters zero.
    pub open spec fn spec_startup() -> DriveState {
        DriveState {
            command: Command::Standby,
            heading: Heading::Forward,
            turn_direction: TurnDirection::Left,
            pre_turn_count: 0,
            turn_count: 0,
        }
    }

    /// The cold-start value, as created once at process start.
    pub fn startup() -> (r: DriveState)
        ensures
            r == DriveState::spec_startup(),
            r.wf(),
    {
        DriveState {
            command: Command::Standby,
            heading: Heading::Forward,
            turn_direction: TurnDirection::Left,
            pre_turn_count: 0,
            turn_count: 0,
        }
    }

    /// Whether the state is well formed, for an unverified caller to test
    /// before stepping.
    pub fn is_well_formed(&self) -> (r: bool)
        ensures
            r == self.wf(),
    {
        self.pre_turn_count < PRE_TURN_COUNT_THRESHOLD && self.turn_count < TURN_COUNT_THRESHOLD
            && (self.command != Command::PreTurn || self.turn_count == 0) && (self.command
            != Command::Turn || self.pre_turn_count == 0)
    }

    /// Step A on this state. Issues the command pair the transition calls
    /// for, if the aggregate forces a transition.
    fn evaluate(&mut self, f: &CliffFlags) -> (r: Option<MotorCommand>)
        ensures
            (*final(self), r) == spec_evaluate(*old(self), *f),
    {
        if f.all_clear() {
            if self.command == Command::Standby {
                self.command = Command::Advance;
                Some(MotorCommand::drive(self.heading))
            } else {
                None
            }
        } else if f.all_blocked() {
            if self.command != Command::Standby {
                self.command = Command::Standby;
                Some(MotorCommand::stop())
            } else {
                None
            }
        } else if self.command == Command::Advance {
            self.heading = self.heading.toggled();
            self.command = Command::PreTurn;
            self.turn_direction = escape_direction(f);
            self.pre_turn_count = 0;
            self.turn_count = 0;
            Some(MotorCommand::drive(self.heading))
        } else {
            None
        }
    }

    /// Step B on this state, run after step A's evaluation.
    fn tick(&mut self)
        requires
            old(self).pre_turn_count < PRE_TURN_COUNT_THRESHOLD,
            old(self).turn_count < TURN_COUNT_THRESHOLD,
        ensures
            *final(self) == spec_tick(*old(self)),
    {
        if self.command == Command::PreTurn {
            self.pre_turn_count = self.pre_turn_count + 1;
        } else if self.command == Command::Turn {
            self.turn_count = self.turn_count + 1;
        }
    }

    /// Step C on this state. Issues the pivot or resume command pair when a
    /// counter stands exactly at its threshold.
    fn phase_advance(&mut self) -> (r: Option<MotorCommand>)
        ensures
            (*final(self), r) == spec_phase_advance(*old(self)),
    {
        if self.pre_turn_count == PRE_TURN_COUNT_THRESHOLD {
            self.command = Command::Turn;
            self.pre_turn_count = 0;
            Some(MotorCommand::pivot(self.turn_direction))
        } else if self.turn_count == TURN_COUNT_THRESHOLD {
            self.command = Command::Advance;
            self.turn_count = 0;
            Some(MotorCommand::drive(self.heading))
        } else {
            None
        }
    }

    /// One iteration of the background loop over the current aggregate:
    /// steps A, B and C in order. Returns the motor command this iteration
    /// issues, if any; well-formedness is preserved.
    pub fn step(&mut self, f: &CliffFlags) -> (r: Option<MotorCommand>)
        requires
            old(self).wf(),
        ensures
            final(self).wf(),
            (*final(self), r) == spec_step(*old(self), *f),
    {
        let cmd_eval = self.evaluate(f);
        self.tick();
        let cmd_phase = self.phase_advance();
        if cmd_eval.is_some() {
            cmd_eval
        } else {
            cmd_phase
        }
    }
}

} // verus!
