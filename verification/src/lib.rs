//! Reactive core of a four-corner cliff-avoidance rover.
//!
//! Four corner distance sensors each maintain one boolean flag of a shared
//! aggregate (`cliff`); a cooperative background loop (`drive`) turns the
//! aggregate into a bounded escape maneuver — back away, pivot in place,
//! resume — and issues fire-and-forget wheel commands (`motor`). The
//! navigation laws the controller obeys are stated and proved in `laws`.
//!
//! Everything hardware-specific (sensor bus reads, interrupt acknowledgement,
//! wheel actuation) stays outside this crate; the controller works on plain
//! values handed in at its boundary.

pub mod cliff;
pub mod drive;
pub mod laws;
pub mod motor;

use vstd::prelude::*;

verus! {

/// Range threshold in millimeters: a successful reading strictly above it
/// means no reflecting floor is in range at that corner, i.e. a cliff.
pub const CLIFF_THRESHOLD: u16 = 20;

/// Background-loop iterations spent backing away before the pivot begins.
pub const PRE_TURN_COUNT_THRESHOLD: u32 = 40000;

/// Background-loop iterations spent pivoting before straight travel resumes.
pub const TURN_COUNT_THRESHOLD: u32 = 60000;

} // verus!
