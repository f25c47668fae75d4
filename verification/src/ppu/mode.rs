//! The four phases of the pixel-processing unit.

use vstd::prelude::*;

verus! {

#[derive(Clone, Copy, Debug, PartialEq, Eq, Structural)]
pub enum Mode {
    HorizontalBlank,
    VerticalBlank,
    /// Object attribute memory is out of the CPU's reach.
    OAMScan,
    /// Object attribute memory and video RAM are out of the CPU's reach.
    Drawing,
}

impl Mode {
    /// The two mode bits of the status register.
    pub open spec fn code(self) -> u8 {
        match self {
            Mode::HorizontalBlank => 0,
            Mode::VerticalBlank => 1,
            Mode::OAMScan => 2,
            Mode::Drawing => 3,
        }
    }

    /// How many master ticks the phase lasts before the next one begins.
    pub open spec fn duration(self) -> nat {
        match self {
            Mode::HorizontalBlank => 204,
            Mode::VerticalBlank => 456,
            Mode::OAMScan => 80,
            Mode::Drawing => 172,
        }
    }

    /// The two mode bits of the status register.
    pub fn bits(&self) -> (b: u8)
        ensures
            b == self.code(),
    {
        match self {
            Mode::HorizontalBlank => 0,
            Mode::VerticalBlank => 1,
            Mode::OAMScan => 2,
            Mode::Drawing => 3,
        }
    }

    /// How many master ticks the phase lasts.
    pub fn ticks(&self) -> (t: u64)
        ensures
            t == self.duration(),
    {
        match self {
            Mode::HorizontalBlank => 204,
            Mode::VerticalBlank => 456,
            Mode::OAMScan => 80,
            Mode::Drawing => 172,
        }
    }
}

} // verus!
