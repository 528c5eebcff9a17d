//! The shared cliff aggregate: one flag per corner, written by that corner's
//! sensor monitor and read by the drive controller.

use vstd::prelude::*;

use crate::CLIFF_THRESHOLD;

verus! {

/// One of the four sensed corners of the rover.
#[derive(Clone, Copy, Debug, PartialEq, Eq, Structural)]
pub enum Corner {
    BackRight,
    FrontRight,
    FrontLeft,
    BackLeft,
}

/// The four cliff flags. `true` at a corner means "no floor detected there"
/// (unsafe); `false` means the sensor saw floor within the threshold range.
#[derive(Clone, Copy, Debug, PartialEq, Eq, Structural)]
pub struct CliffFlags {
    pub back_right: bool,
    pub front_right: bool,
    pub front_left: bool,
    pub back_left: bool,
}

impl CliffFlags {
    /// The flag of one corner.
    pub open spec fn spec_flag(self, c: Corner) -> bool {
        match c {
            Corner::BackRight => self.back_right,
            Corner::FrontRight => self.front_right,
            Corner::FrontLeft => self.front_left,
            Corner::BackLeft => self.back_left,
        }
    }

    /// Every corner reports floor: it is safe to advance.
    pub open spec fn spec_all_clear(self) -> bool {
        !self.back_right && !self.front_right && !self.front_left && !self.back_left
    }

    /// Every corner reports a cliff: the rover is boxed in.
    pub open spec fn spec_all_blocked(self) -> bool {
        self.back_right && self.front_right && self.front_left && self.back_left
    }

    /// The aggregate with one corner's flag replaced and the rest kept.
    pub open spec fn spec_with_flag(self, c: Corner, v: bool) -> CliffFlags {
        match c {
            Corner::BackRight => CliffFlags { back_right: v, ..self },
            Corner::FrontRight => CliffFlags { front_right: v, ..self },
            Corner::FrontLeft => CliffFlags { front_left: v, ..self },
            Corner::BackLeft => CliffFlags { back_left: v, ..self },
        }
    }

    /// The aggregate after one sensor-monitor invocation for corner `c`:
    /// a successful read (`Some`) decides the flag by the range threshold,
    /// a failed read (`None`) leaves every flag as it was.
    pub open spec fn spec_after_reading(self, c: Corner, reading: Option<u16>) -> CliffFlags {
        match reading {
            Some(r) => self.spec_with_flag(c, r > CLIFF_THRESHOLD),
            None => self,
        }
    }

    /// Fail-safe startup value: every corner is assumed unsafe until its
    /// sensor proves otherwise.
    pub fn startup() -> (r: CliffFlags)
        ensures
            r == (CliffFlags {
                back_right: true,
                front_right: true,
                front_left: true,
                back_left: true,
            }),
            r.spec_all_blocked(),
    {
        CliffFlags { back_right: true, front_right: true, front_left: true, back_left: true }
    }

    /// The flag of one corner.
    pub fn flag(&self, c: Corner) -> (r: bool)
        ensures
            r == self.spec_flag(c),
    {
        match c {
            Corner::BackRight => self.back_right,
            Corner::FrontRight => self.front_right,
            Corner::FrontLeft => self.front_left,
            Corner::BackLeft => self.back_left,
        }
    }

    /// Whether every corner reports floor.
    pub fn all_clear(&self) -> (r: bool)
        ensures
            r == self.spec_all_clear(),
    {
        !self.back_right && !self.front_right && !self.front_left && !self.back_left
    }

    /// Whether every corner reports a cliff.
    pub fn all_blocked(&self) -> (r: bool)
        ensures
            r == self.spec_all_blocked(),
    {
        self.back_right && self.front_right && self.front_left && self.back_left
    }

    /// The sensor monitor's whole flag logic, one invocation per rising edge
    /// on corner `c`'s "sample ready" line. A successful read of `r`
    /// millimeters sets the corner's flag to `r > CLIFF_THRESHOLD`; a failed
    /// read changes nothing. No other corner is touched either way.
    pub fn record_reading(&mut self, c: Corner, reading: Option<u16>)
        ensures
            *final(self) == old(self).spec_after_reading(c, reading),
    {
        match reading {
            Some(r) => {
                let no_floor = r > CLIFF_THRESHOLD;
                match c {
                    Corner::BackRight => self.back_right = no_floor,
                    Corner::FrontRight => self.front_right = no_floor,
                    Corner::FrontLeft => self.front_left = no_floor,
                    Corner::BackLeft => self.back_left = no_floor,
                }
            },
            None => {},
        }
    }
}

} // verus!
