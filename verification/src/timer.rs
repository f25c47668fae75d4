//! The divider and the programmable counter.

use vstd::prelude::*;
use crate::bits::lemma_byte_bits;
use crate::registers::wrap8;

verus! {

/// Bit of the timer interrupt in the interrupt registers.
pub const TIMER_INTERRUPT: u8 = 0x04;

#[derive(Clone, Copy, Debug, PartialEq, Eq, Structural)]
pub struct Timer {
    /// `DIV`.
    pub divider: u8,
    /// Master ticks counted towards the next step of `DIV`.
    pub internal_divider: u32,
    /// `TIMA`.
    pub timer: u8,
    /// Master ticks counted towards the next step of `TIMA`.
    pub internal_counter: u32,
    /// `TMA`.
    pub timer_modulo: u8,
    pub enable: bool,
    /// Master ticks per step of `TIMA`.
    pub step: u32,
    /// Interrupt bits raised and not yet collected.
    pub interrupt: u8,
}

/// Master ticks per step of `TIMA` for the two clock-select bits of `TAC`.
pub open spec fn period(select: int) -> u32 {
    if select == 0 {
        1024
    } else if select == 1 {
        16
    } else if select == 2 {
        64
    } else {
        256
    }
}

impl Timer {
    /// The period is one of the four that the clock select offers.
    pub open spec fn wf(self) -> bool {
        self.step == 1024 || self.step == 16 || self.step == 64 || self.step == 256
    }

    /// The clock-select bits that give the current period.
    pub open spec fn select(self) -> u8 {
        if self.step == 1024 {
            0
        } else if self.step == 16 {
            1
        } else if self.step == 64 {
            2
        } else {
            3
        }
    }

    /// `TAC` as read: the enable bit and the clock select.
    pub open spec fn tac(self) -> u8 {
        ((if self.enable { 4int } else { 0 }) + self.select()) as u8
    }

    /// One step of `TIMA`: past 255 it is reloaded from `TMA` and the timer
    /// interrupt is raised.
    pub open spec fn ticked(self) -> Timer {
        if self.timer == 255 {
            Timer { timer: self.timer_modulo, interrupt: self.interrupt | TIMER_INTERRUPT, ..self }
        } else {
            Timer { timer: (self.timer + 1) as u8, ..self }
        }
    }

    /// `steps` steps of `TIMA`.
    pub open spec fn counted(self, steps: nat) -> Timer
        decreases steps,
    {
        if steps == 0 {
            self
        } else {
            self.ticked().counted((steps - 1) as nat)
        }
    }

    /// The timer `t_cycles` master ticks later: `DIV` has stepped once for
    /// every 256 ticks accumulated, and `TIMA`, if enabled, once for every
    /// period accumulated.
    pub open spec fn advanced(self, t_cycles: u32) -> Timer {
        let divided = self.internal_divider + t_cycles;
        let after = Timer {
            divider: wrap8(self.divider + divided / 256),
            internal_divider: (divided % 256) as u32,
            ..self
        };
        if self.enable {
            let counted = self.internal_counter + t_cycles;
            Timer {
                internal_counter: (counted % (self.step as int)) as u32,
                ..after.counted((counted / (self.step as int)) as nat)
            }
        } else {
            after
        }
    }

    /// A read of the register at `FF00 + address`, `address` in `04..=07`.
    pub open spec fn read_register(self, address: u8) -> u8 {
        if address == 0x04 {
            self.divider
        } else if address == 0x05 {
            self.timer
        } else if address == 0x06 {
            self.timer_modulo
        } else {
            self.tac()
        }
    }

    /// A write to the register at `FF00 + address`. Any write to `DIV`
    /// resets it.
    pub open spec fn write_register(self, address: u8, value: u8) -> Timer {
        if address == 0x04 {
            Timer { divider: 0, ..self }
        } else if address == 0x05 {
            Timer { timer: value, ..self }
        } else if address == 0x06 {
            Timer { timer_modulo: value, ..self }
        } else {
            Timer { enable: value / 4 % 2 == 1, step: period(value as int % 4), ..self }
        }
    }

    /// The timer at power-on: stopped, at the slowest period.
    pub open spec fn initial() -> Timer {
        Timer {
            divider: 0,
            internal_divider: 0,
            timer: 0,
            internal_counter: 0,
            timer_modulo: 0,
            enable: false,
            step: 1024,
            interrupt: 0,
        }
    }

    /// The timer at power-on.
    pub fn new() -> (timer: Self)
        ensures
            timer == Timer::initial(),
            timer.wf(),
    {
        Self {
            divider: 0,
            internal_divider: 0,
            timer: 0,
            internal_counter: 0,
            timer_modulo: 0,
            enable: false,
            step: 4 * 256,
            interrupt: 0,
        }
    }

    /// Advances both accumulators by `t_cycles` master ticks.
    pub fn cycle(&mut self, t_cycles: u32)
        requires
            old(self).wf(),
        ensures
            *final(self) == old(self).advanced(t_cycles),
            final(self).wf(),
    {
        let divided: u64 = self.internal_divider as u64 + t_cycles as u64;
        let mut pending: u64 = divided;
        let ghost mut steps: nat = 0;
        while pending >= 256
            invariant
                divided == pending + 256 * steps,
                self.divider == wrap8(old(self).divider + steps),
                *self == (Timer { divider: self.divider, ..*old(self) }),
            decreases pending,
        {
            self.divider = self.divider.wrapping_add(1);
            pending -= 256;
            proof {
                steps = steps + 1;
            }
        }
        self.internal_divider = pending as u32;
        if self.enable {
            let step = self.step as u64;
            let counted: u64 = self.internal_counter as u64 + t_cycles as u64;
            let mut pending: u64 = counted;
            let ghost mut steps: nat = 0;
            let ghost after = *self;
            while pending >= step
                invariant
                    step == old(self).step,
                    old(self).wf(),
                    counted == pending + step * steps,
                    *self == after.counted(steps),
                decreases pending,
            {
                let ghost before = *self;
                self.timer = self.timer.wrapping_add(1);
                if self.timer == 0 {
                    self.timer = self.timer_modulo;
                    self.interrupt |= TIMER_INTERRUPT;
                }
                pending -= step;
                proof {
                    assert(*self == before.ticked());
                    lemma_counted_then_ticked(after, steps);
                    assert(step * (steps + 1) == step * steps + step) by (nonlinear_arith);
                    steps = steps + 1;
                }
            }
            proof {
                lemma_counted_keeps(after, steps);
                assert(steps == counted as int / (step as int) && pending == counted as int % (step as int)) by {
                    if step == 16 {
                    } else if step == 64 {
                    } else if step == 256 {
                    } else {
                    }
                }
            }
            self.internal_counter = pending as u32;
        }
    }

    /// Reads the register at `FF00 + address`.
    pub fn read_byte(&self, address: u8) -> (value: u8)
        requires
            0x04 <= address <= 0x07,
        ensures
            value == self.read_register(address),
    {
        match address {
            0x04 => self.divider,
            0x05 => self.timer,
            0x06 => self.timer_modulo,
            _ => self.read_tac(),
        }
    }

    fn read_tac(&self) -> (value: u8)
        ensures
            value == self.tac(),
    {
        let enable: u8 = if self.enable { 0x4 } else { 0 };
        let select: u8 = if self.step == 1024 {
            0x0
        } else if self.step == 16 {
            0x1
        } else if self.step == 64 {
            0x2
        } else {
            0x3
        };
        enable + select
    }

    /// Writes to the register at `FF00 + address`.
    pub fn write_byte(&mut self, address: u8, value: u8)
        requires
            0x04 <= address <= 0x07,
        ensures
            *final(self) == old(self).write_register(address, value),
            old(self).wf() ==> final(self).wf(),
    {
        match address {
            0x04 => {
                self.divider = 0
            },
            0x05 => {
                self.timer = value
            },
            0x06 => {
                self.timer_modulo = value
            },
            _ => self.write_tac(value),
        }
    }

    fn write_tac(&mut self, value: u8)
        ensures
            *final(self) == (Timer { enable: value / 4 % 2 == 1, step: period(value as int % 4), ..*old(self) }),
            final(self).wf(),
    {
        proof {
            lemma_byte_bits();
        }
        self.enable = value & 0x04 != 0;
        let select = value & 0x03;
        self.step = if select == 0 {
            1024
        } else if select == 1 {
            16
        } else if select == 2 {
            64
        } else {
            256
        };
    }
}

/// A running counter at 255 overflows with the ticks of one period: it is
/// reloaded from the modulo and the timer interrupt is raised.
pub proof fn lemma_overflow(timer: Timer)
    requires
        timer.wf(),
        timer.enable,
        timer.timer == 255,
        timer.internal_counter == 0,
    ensures
        timer.advanced(timer.step).timer == timer.timer_modulo,
        timer.advanced(timer.step).interrupt == timer.interrupt | TIMER_INTERRUPT,
        timer.advanced(timer.step).interrupt & TIMER_INTERRUPT == TIMER_INTERRUPT,
{
    let i = timer.interrupt;
    assert((i | 0x04) & 0x04 == 0x04) by (bit_vector);
    let divided = timer.internal_divider + timer.step;
    let after = Timer {
        divider: wrap8(timer.divider + divided / 256),
        internal_divider: (divided % 256) as u32,
        ..timer
    };
    let step = timer.step as int;
    assert(step / step == 1 && step % step == 0) by {
        if step == 16 {
        } else if step == 64 {
        } else if step == 256 {
        } else {
        }
    }
    assert(after.counted(1) == after.ticked().counted(0));
}

/// Counting touches `TIMA` and the interrupt bits only.
pub proof fn lemma_counted_keeps(timer: Timer, steps: nat)
    ensures
        timer.counted(steps) == (Timer {
            timer: timer.counted(steps).timer,
            interrupt: timer.counted(steps).interrupt,
            ..timer
        }),
    decreases steps,
{
    if steps > 0 {
        lemma_counted_keeps(timer.ticked(), (steps - 1) as nat);
    }
}

/// One more step after `steps` steps is `steps + 1` steps.
pub proof fn lemma_counted_then_ticked(timer: Timer, steps: nat)
    ensures
        timer.counted(steps).ticked() == timer.counted(steps + 1),
    decreases steps,
{
    if steps > 0 {
        lemma_counted_then_ticked(timer.ticked(), (steps - 1) as nat);
        assert(timer.counted(steps + 1) == timer.ticked().counted(steps));
    } else {
        assert(timer.counted(1) == timer.ticked().counted(0));
    }
}

} // verus!
