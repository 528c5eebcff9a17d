//! The navigation laws the drive controller obeys, stated over the step
//! specification and proved once for all states and aggregates.

use vstd::prelude::*;

use crate::cliff::CliffFlags;
use crate::drive::Command;
use crate::drive::DriveState;
use crate::drive::TurnDirection;
use crate::drive::spec_escape_direction;
use crate::drive::spec_escape_starts;
use crate::drive::spec_evaluate;
use crate::drive::spec_phase_advance;
use crate::drive::spec_step;
use crate::drive::spec_tick;
use crate::motor::MotorCommand;
use crate::motor::spec_stop;

verus! {

/// Standby quiescence: while the controller stands by and any corner still
/// flags a cliff, an iteration changes nothing and issues no motor command.
/// Since the cold-start state stands by with every corner flagged, the rover
/// issues no command until a cycle observes all four flags clear.
pub proof fn lemma_standby_quiescent(s: DriveState, f: CliffFlags)
    requires
        s.wf(),
        s.command == Command::Standby,
        !f.spec_all_clear(),
    ensures
        spec_step(s, f) == (s, Option::<MotorCommand>::None),
{
}

/// All-blocked stop: out of standby, an aggregate with every corner flagged
/// forces the very next evaluation into standby and commands both wheels to
/// stop.
pub proof fn lemma_all_blocked_stops(s: DriveState, f: CliffFlags)
    requires
        s.wf(),
        s.command != Command::Standby,
        f.spec_all_blocked(),
    ensures
        spec_step(s, f).0.command == Command::Standby,
        spec_step(s, f).1 == Some(spec_stop()),
{
}

/// Single toggle: the heading changes exactly on the iterations that start
/// an escape episode (advancing, a partial cliff pattern), and there it
/// becomes the opposite direction; every other iteration — the pre-turn to
/// turn and turn to advance transitions included — leaves it unchanged.
pub proof fn lemma_heading_single_toggle(s: DriveState, f: CliffFlags)
    requires
        s.wf(),
    ensures
        spec_step(s, f).0.heading == s.heading <==> !spec_escape_starts(s, f),
        spec_escape_starts(s, f) ==> spec_step(s, f).0.heading == s.heading.spec_toggled(),
{
}

/// Turn-direction determinism: an iteration that starts an escape episode
/// sets the pivot direction to right exactly when the front-right or
/// back-left corner is flagged at that instant, else to left; every other
/// iteration leaves the pivot direction unchanged.
pub proof fn lemma_turn_direction(s: DriveState, f: CliffFlags)
    requires
        s.wf(),
    ensures
        spec_escape_starts(s, f) ==> spec_step(s, f).0.turn_direction == spec_escape_direction(f),
        spec_escape_direction(f) == TurnDirection::Right <==> (f.front_right || f.back_left),
        !spec_escape_starts(s, f) ==> spec_step(s, f).0.turn_direction == s.turn_direction,
{
}

/// Counter discipline: a phase counter is reset to zero at the instant its
/// phase is entered and advances by exactly one on every iteration that ends
/// in the phase — the entering iteration included, which therefore ends with
/// the counter at one; the counter of a phase left through its threshold is
/// zero right after that crossing.
pub proof fn lemma_counter_discipline(s: DriveState, f: CliffFlags)
    requires
        s.wf(),
    ensures
        (s.command == Command::PreTurn && spec_step(s, f).0.command == Command::PreTurn)
            ==> spec_step(s, f).0.pre_turn_count == s.pre_turn_count + 1,
        (s.command == Command::Turn && spec_step(s, f).0.command == Command::Turn) ==> spec_step(
            s,
            f,
        ).0.turn_count == s.turn_count + 1,
        spec_escape_starts(s, f) ==> spec_evaluate(s, f).0.pre_turn_count == 0 && spec_evaluate(
            s,
            f,
        ).0.turn_count == 0,
        spec_escape_starts(s, f) ==> spec_step(s, f).0.pre_turn_count == 1 && spec_step(
            s,
            f,
        ).0.turn_count == 0,
        (s.command != Command::Turn && spec_step(s, f).0.command == Command::Turn) ==> spec_step(
            s,
            f,
        ).0.pre_turn_count == 0 && spec_step(s, f).0.turn_count == 0,
        (s.command == Command::PreTurn && spec_step(s, f).0.command == Command::Turn)
            ==> spec_step(s, f).0.pre_turn_count == 0,
        (s.command == Command::Turn && spec_step(s, f).0.command == Command::Advance)
            ==> spec_step(s, f).0.turn_count == 0,
{
}

/// The drive state left after one iteration per observed aggregate, oldest
/// observation first.
pub open spec fn spec_run(s: DriveState, obs: Seq<CliffFlags>) -> DriveState
    decreases obs.len(),
{
    if obs.len() == 0 {
        s
    } else {
        spec_run(spec_step(s, obs.first()).0, obs.drop_first())
    }
}

/// Cold start, trace form: from the cold-start state, as long as every
/// observed aggregate still has a corner flagged, the state stays the
/// cold-start state — so no iteration of the run issues a motor command.
pub proof fn lemma_cold_start_trace(obs: Seq<CliffFlags>)
    requires
        forall|i: int| 0 <= i < obs.len() ==> !(#[trigger] obs[i]).spec_all_clear(),
    ensures
        spec_run(DriveState::spec_startup(), obs) == DriveState::spec_startup(),
        forall|i: int|
            0 <= i < obs.len() ==> spec_step(
                spec_run(DriveState::spec_startup(), #[trigger] obs.take(i)),
                obs[i],
            ).1 is None,
    decreases obs.len(),
{
    let start = DriveState::spec_startup();
    if obs.len() > 0 {
        lemma_standby_quiescent(start, obs.first());
        lemma_cold_start_trace(obs.drop_first());
        assert forall|i: int| 0 <= i < obs.len() implies spec_step(
            spec_run(start, #[trigger] obs.take(i)),
            obs[i],
        ).1 is None by {
            lemma_cold_start_trace(obs.take(i));
            lemma_standby_quiescent(spec_run(start, obs.take(i)), obs[i]);
        }
    }
}

/// One command per iteration: on a well-formed state, an iteration whose
/// locked evaluation (step A) issued a command never crosses a phase
/// threshold (step C) as well, so the step's single optional command loses
/// nothing.
pub proof fn lemma_single_command(s: DriveState, f: CliffFlags)
    requires
        s.wf(),
    ensures
        spec_evaluate(s, f).1 is Some ==> spec_phase_advance(
            spec_tick(spec_evaluate(s, f).0),
        ).1 is None,
{
}

/// No redundant commands while advancing: an iteration that leaves an
/// advancing controller advancing changes nothing and issues no motor
/// command — commands fire only on transitions and threshold crossings.
pub proof fn lemma_no_redundant_advance(s: DriveState, f: CliffFlags)
    requires
        s.wf(),
        s.command == Command::Advance,
        spec_step(s, f).0.command == Command::Advance,
    ensures
        spec_step(s, f) == (s, Option::<MotorCommand>::None),
{
}

} // verus!
