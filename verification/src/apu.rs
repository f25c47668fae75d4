//! The audio unit, as a stub: it takes every write and answers every read
//! with `FF`.

use vstd::prelude::*;

verus! {

#[derive(Clone, Copy, Debug, PartialEq, Eq, Structural)]
pub struct APU {}

impl APU {
    /// The stub has no state.
    pub fn new() -> (apu: Self)
        ensures
            apu == (APU {  }),
    {
        Self {  }
    }

    /// Time passes and nothing happens.
    pub fn cycle(&mut self, t_cycles: u32)
        ensures
            *final(self) == *old(self),
    {
    }

    /// Every sound register reads as `FF`.
    pub fn read_byte(&self, address: u8) -> (value: u8)
        ensures
            value == 0xff,
    {
        0xff
    }

    /// What is written to a sound register is dropped.
    pub fn write_byte(&mut self, address: u8, value: u8)
        ensures
            *final(self) == *old(self),
    {
    }

    /// Every byte of the wave pattern reads as `FF`.
    pub fn read_wave_byte(&self, address: u8) -> (value: u8)
        ensures
            value == 0xff,
    {
        0xff
    }

    /// What is written to the wave pattern is dropped.
    pub fn write_wave_byte(&mut self, address: u8, value: u8)
        ensures
            *final(self) == *old(self),
    {
    }
}

} // verus!
