//! The conditions of the conditional jumps, calls and returns.

use vstd::prelude::*;
use crate::cpu::CPU;
use crate::registers::FlagsRegister;

verus! {

#[derive(Clone, Copy, Debug, PartialEq, Eq, Structural)]
pub enum Condition {
    Zero,
    NotZero,
    Carry,
    NotCarry,
    True,
}

impl Condition {
    /// Whether the condition holds of the flags.
    pub open spec fn holds(self, flags: FlagsRegister) -> bool {
        match self {
            Condition::Zero => flags.zero,
            Condition::NotZero => !flags.zero,
            Condition::Carry => flags.carry,
            Condition::NotCarry => !flags.carry,
            Condition::True => true,
        }
    }
}

impl CPU {
    /// Whether the condition holds of the flags as they stand.
    pub fn check_condition(&self, condition: Condition) -> (holds: bool)
        ensures
            holds == condition.holds(self.registers.f),
    {
        match condition {
            Condition::Zero => self.registers.f.zero,
            Condition::NotZero => !self.registers.f.zero,
            Condition::Carry => self.registers.f.carry,
            Condition::NotCarry => !self.registers.f.carry,
            Condition::True => true,
        }
    }
}

} // verus!
