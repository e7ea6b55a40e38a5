//! Where the head looks while the robot finds its bearings.

use vstd::prelude::*;

verus! {

/// A side of the robot.
#[derive(Debug, Clone, Copy, PartialEq, Eq, Structural)]
pub enum Side {
    Left,
    Right,
}

#[derive(Debug, Clone, Copy, PartialEq, Eq, Structural)]
pub enum Mode {
    Center { moving_towards: Side },
    Left,
    Right,
}

impl Default for Mode {
    /// The head starts in the middle and turns left first.
    fn default() -> (mode: Mode)
        ensures
            mode == (Mode::Center { moving_towards: Side::Left }),
    {
        Mode::Center { moving_towards: Side::Left }
    }
}

} // verus!
