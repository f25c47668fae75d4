//! The 8-bit operands of the instructions and how the CPU reads and writes
//! them.

use vstd::prelude::*;
use crate::cpu::CpuModel;
use crate::cpu::CPU;
use crate::registers::Reg16;
use crate::registers::Reg8;

verus! {

/// Where an instruction finds or puts a byte.
#[derive(Clone, Copy, Debug, PartialEq, Eq, Structural)]
pub enum Operand {
    RegA,
    RegB,
    RegC,
    RegD,
    RegE,
    RegH,
    RegL,
    /// The byte at the address in `BC`.
    AddressBC,
    /// The byte at the address in `DE`.
    AddressDE,
    /// The byte at the address in `HL`.
    AddressHL,
    /// The byte at the address in `HL`, which is then incremented.
    AddressHLI,
    /// The byte at the address in `HL`, which is then decremented.
    AddressHLD,
    /// The byte that follows the opcode.
    Immediate8,
    /// The byte at `FF00` plus the byte that follows the opcode.
    AddressHighImmediate8,
    /// The byte at `FF00` plus `C`.
    AddressHighC,
    /// The byte at the address that follows the opcode.
    AddressImmediate16,
}

impl Operand {
    /// The register that the operand names, if it names one.
    pub open spec fn register(self) -> Option<Reg8> {
        match self {
            Operand::RegA => Some(Reg8::A),
            Operand::RegB => Some(Reg8::B),
            Operand::RegC => Some(Reg8::C),
            Operand::RegD => Some(Reg8::D),
            Operand::RegE => Some(Reg8::E),
            Operand::RegH => Some(Reg8::H),
            Operand::RegL => Some(Reg8::L),
            _ => None,
        }
    }

    /// Whether a byte can be written to the operand: to all but the
    /// immediate byte.
    pub open spec fn writable(self) -> bool {
        self != Operand::Immediate8
    }

    /// The machine cycles that one access of the operand adds to its
    /// instruction: one for each byte fetched or moved over the bus.
    pub open spec fn cost(self) -> u32 {
        match self {
            Operand::AddressBC | Operand::AddressDE | Operand::AddressHL | Operand::AddressHLI
            | Operand::AddressHLD | Operand::AddressHighC | Operand::Immediate8 => 1,
            Operand::AddressHighImmediate8 => 2,
            Operand::AddressImmediate16 => 3,
            _ => 0,
        }
    }

    /// The machine cycles that one access of the operand adds; see `cost`.
    pub fn access_cost(&self) -> (cost: u32)
        ensures
            cost == self.cost(),
    {
        match self {
            Operand::AddressBC | Operand::AddressDE | Operand::AddressHL | Operand::AddressHLI
            | Operand::AddressHLD | Operand::AddressHighC | Operand::Immediate8 => 1,
            Operand::AddressHighImmediate8 => 2,
            Operand::AddressImmediate16 => 3,
            _ => 0,
        }
    }
}

impl CPU {
    /// The address of an operand in memory.
    fn locate(&mut self, operand: Operand) -> (address: u16)
        requires
            old(self)@.wf(),
            operand.register() is None,
        ensures
            (final(self)@, address) == old(self)@.locate(operand),
            final(self)@.wf(),
    {
        reveal(CpuModel::locate);
        match operand {
            Operand::AddressBC => self.registers.read_16(Reg16::BC),
            Operand::AddressDE => self.registers.read_16(Reg16::DE),
            Operand::AddressHL => self.registers.read_16(Reg16::HL),
            Operand::AddressHLI => self.registers.hli(),
            Operand::AddressHLD => self.registers.hld(),
            Operand::Immediate8 => {
                let address = self.registers.pc;
                self.registers.pc = address.wrapping_add(1);
                address
            },
            Operand::AddressHighImmediate8 => {
                let offset = self.fetch_byte();
                0xff00 + offset as u16
            },
            Operand::AddressHighC => 0xff00 + self.registers.c as u16,
            Operand::AddressImmediate16 => self.fetch_word(),
            _ => 0,
        }
    }

    /// Reads the operand. Reading through `HL+`, `HL-` or an immediate
    /// moves `HL` or `PC` along.
    pub fn read(&mut self, operand: Operand) -> (value: u8)
        requires
            old(self)@.wf(),
        ensures
            (final(self)@, value) == old(self)@.read(operand),
            final(self)@.wf(),
    {
        reveal(CpuModel::read);
        match operand {
            Operand::RegA => self.registers.read_8(Reg8::A),
            Operand::RegB => self.registers.read_8(Reg8::B),
            Operand::RegC => self.registers.read_8(Reg8::C),
            Operand::RegD => self.registers.read_8(Reg8::D),
            Operand::RegE => self.registers.read_8(Reg8::E),
            Operand::RegH => self.registers.read_8(Reg8::H),
            Operand::RegL => self.registers.read_8(Reg8::L),
            _ => {
                let address = self.locate(operand);
                self.bus.read_byte(address)
            },
        }
    }

    /// Writes to the operand, which must not be the immediate byte.
    pub fn write(&mut self, operand: Operand, value: u8)
        requires
            old(self)@.wf(),
            operand.writable(),
        ensures
            final(self)@ == old(self)@.write(operand, value),
            final(self)@.wf(),
    {
        reveal(CpuModel::write);
        match operand {
            Operand::RegA => self.registers.write_8(Reg8::A, value),
            Operand::RegB => self.registers.write_8(Reg8::B, value),
            Operand::RegC => self.registers.write_8(Reg8::C, value),
            Operand::RegD => self.registers.write_8(Reg8::D, value),
            Operand::RegE => self.registers.write_8(Reg8::E, value),
            Operand::RegH => self.registers.write_8(Reg8::H, value),
            Operand::RegL => self.registers.write_8(Reg8::L, value),
            _ => {
                let address = self.locate(operand);
                self.bus.write_byte(address, value)
            },
        }
    }
}

} // verus!
