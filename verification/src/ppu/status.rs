//! The interrupt selects of the LCD status register.

use vstd::prelude::*;
use crate::bits::has_bit;
use crate::bits::lemma_byte_bits;

verus! {

/// Bits 6..3 of the status register. The compare bit and the mode bits are
/// not stored: a read computes them.
#[derive(Clone, Copy, Debug, PartialEq, Eq, Structural)]
pub struct Status {
    pub bits: u8,
}

impl Status {
    /// Bit 6: `LY == LYC` raises the status interrupt.
    pub open spec fn lyc_select(self) -> bool {
        has_bit(self.bits, 64)
    }

    /// Bit 5: the start of a frame raises the status interrupt.
    pub open spec fn mode_2_int_select(self) -> bool {
        has_bit(self.bits, 32)
    }

    /// Bit 4: the start of the vertical blank raises the status interrupt.
    pub open spec fn mode_1_int_select(self) -> bool {
        has_bit(self.bits, 16)
    }

    /// Bit 3: the start of a horizontal blank raises the status interrupt.
    pub open spec fn mode_0_int_select(self) -> bool {
        has_bit(self.bits, 8)
    }

    /// Keeps the four select bits of `bits` and drops the rest.
    pub fn from_bits_truncate(bits: u8) -> (s: Self)
        ensures
            s.bits == bits & 0x78,
            s.bits == bits % 128 - bits % 8,
    {
        proof {
            lemma_byte_bits();
        }
        Status { bits: bits & 0x78 }
    }

    /// The selects as a byte.
    pub fn bits(&self) -> (b: u8)
        ensures
            b == self.bits,
    {
        self.bits
    }

    /// Whether `LY == LYC` raises the status interrupt.
    pub fn selects_lyc(&self) -> (on: bool)
        ensures
            on == self.lyc_select(),
    {
        proof {
            lemma_byte_bits();
        }
        self.bits & 0x40 != 0
    }

    /// Whether the start of a frame raises the status interrupt.
    pub fn selects_mode_2(&self) -> (on: bool)
        ensures
            on == self.mode_2_int_select(),
    {
        proof {
            lemma_byte_bits();
        }
        self.bits & 0x20 != 0
    }

    /// Whether the start of the vertical blank raises the status interrupt.
    pub fn selects_mode_1(&self) -> (on: bool)
        ensures
            on == self.mode_1_int_select(),
    {
        proof {
            lemma_byte_bits();
        }
        self.bits & 0x10 != 0
    }

    /// Whether the start of a horizontal blank raises the status interrupt.
    pub fn selects_mode_0(&self) -> (on: bool)
        ensures
            on == self.mode_0_int_select(),
    {
        proof {
            lemma_byte_bits();
        }
        self.bits & 0x08 != 0
    }
}

} // verus!
