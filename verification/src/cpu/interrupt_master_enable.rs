//! The interrupt-master-enable latch and its delayed switches.

use vstd::prelude::*;

verus! {

/// The latch `IME` with one countdown for a pending enable and one for a
/// pending disable. A countdown at 2 was set by the instruction that just
/// ran; at 1 it fires at the next tick.
#[derive(Clone, Copy, Debug, PartialEq, Eq, Structural)]
pub struct InterruptMasterEnable {
    pub value: bool,
    pub enable_counter: u8,
    pub disable_counter: u8,
}

impl InterruptMasterEnable {
    /// The latch after one tick: each countdown moves one step, a countdown
    /// at 1 switches the latch, and of two that fire together the disable
    /// wins.
    pub open spec fn ticked(self) -> InterruptMasterEnable {
        let enabled = if self.enable_counter == 1 {
            true
        } else {
            self.value
        };
        InterruptMasterEnable {
            value: if self.disable_counter == 1 {
                false
            } else {
                enabled
            },
            enable_counter: if self.enable_counter == 2 {
                1
            } else {
                0
            },
            disable_counter: if self.disable_counter == 2 {
                1
            } else {
                0
            },
        }
    }

    /// Interrupts are enabled at power-on.
    pub fn new() -> (ime: Self)
        ensures
            ime == (InterruptMasterEnable { value: true, enable_counter: 0, disable_counter: 0 }),
    {
        Self { value: true, enable_counter: 0, disable_counter: 0 }
    }

    /// Ticks the countdowns, once per instruction, and reads the latch.
    pub fn read(&mut self) -> (value: bool)
        ensures
            *final(self) == old(self).ticked(),
            value == final(self).value,
    {
        self.enable_counter = match self.enable_counter {
            2 => 1,
            1 => {
                self.value = true;
                0
            },
            _ => 0,
        };
        self.disable_counter = match self.disable_counter {
            2 => 1,
            1 => {
                self.value = false;
                0
            },
            _ => 0,
        };
        self.value
    }

    /// `EI`: the latch is set after the instruction that follows.
    pub fn ei(&mut self)
        ensures
            *final(self) == (InterruptMasterEnable { enable_counter: 2, ..*old(self) }),
    {
        self.enable_counter = 2;
    }

    /// `DI`: the latch is cleared after the instruction that follows.
    pub fn di(&mut self)
        ensures
            *final(self) == (InterruptMasterEnable { disable_counter: 2, ..*old(self) }),
    {
        self.disable_counter = 2;
    }

    /// `RETI`: the latch is set at the next tick.
    pub fn reti(&mut self)
        ensures
            *final(self) == (InterruptMasterEnable { enable_counter: 1, ..*old(self) }),
    {
        self.enable_counter = 1;
    }

    /// Clears the latch at once, as the dispatch of an interrupt does.
    pub fn clear(&mut self)
        ensures
            *final(self) == (InterruptMasterEnable { value: false, ..*old(self) }),
    {
        self.value = false;
    }
}

/// After `EI` the latch keeps its value through one tick and is set by the
/// second: one more instruction runs before interrupts are taken.
pub proof fn lemma_ei_delay(ime: InterruptMasterEnable)
    requires
        ime.disable_counter == 0,
    ensures
        (InterruptMasterEnable { enable_counter: 2, ..ime }).ticked().value == ime.value,
        (InterruptMasterEnable { enable_counter: 2, ..ime }).ticked().ticked().value,
{
}

/// After `DI` the latch keeps its value through one tick and is cleared by
/// the second.
pub proof fn lemma_di_delay(ime: InterruptMasterEnable)
    requires
        ime.enable_counter == 0,
    ensures
        (InterruptMasterEnable { disable_counter: 2, ..ime }).ticked().value == ime.value,
        !(InterruptMasterEnable { disable_counter: 2, ..ime }).ticked().ticked().value,
{
}

} // verus!
