//! The instructions of the CPU and how opcodes name them.

use vstd::prelude::*;
use crate::cpu::alu::AluOp;
use crate::cpu::alu::ShiftOp;
use crate::cpu::condition::Condition;
use crate::cpu::read_write::Operand;
use crate::registers::Reg16;

verus! {

#[derive(Clone, Copy, Debug, PartialEq, Eq, Structural)]
pub enum Instruction {
    Nop,
    Halt,
    Di,
    Ei,
    /// `LD`: moves a byte from the second operand to the first.
    Load(Operand, Operand),
    /// `LD rr, nn`.
    LoadWord(Reg16),
    /// `LD (nn), SP`.
    StoreStackPointer,
    /// `LD SP, HL`.
    LoadStackPointer,
    /// `LD HL, SP+s8`.
    LoadStackOffset,
    Push(Reg16),
    Pop(Reg16),
    /// An operation of the accumulator against an 8-bit operand.
    Alu(AluOp, Operand),
    Inc(Operand),
    Dec(Operand),
    /// `INC rr`.
    IncWord(Reg16),
    /// `DEC rr`.
    DecWord(Reg16),
    /// `ADD HL, rr`.
    AddWord(Reg16),
    /// `ADD SP, s8`.
    AddStackOffset,
    Rlca,
    Rrca,
    Rla,
    Rra,
    Daa,
    Cpl,
    Scf,
    Ccf,
    /// `JR`, with `Condition::True` where it is unconditional.
    JumpRelative(Condition),
    /// `JP nn`.
    Jump(Condition),
    /// `JP HL`.
    JumpHl,
    Call(Condition),
    /// `RET`.
    Return(Condition),
    Reti,
    /// `RST` to the given address.
    Restart(u8),
    /// A rotation or shift of the prefixed opcodes.
    Shift(ShiftOp, Operand),
    /// `BIT n`.
    TestBit(u8, Operand),
    /// `RES n`.
    ResetBit(u8, Operand),
    /// `SET n`.
    SetBit(u8, Operand),
}

/// The families of instructions.
#[derive(Clone, Copy, Debug, PartialEq, Eq, Structural)]
pub enum Family {
    /// `NOP`, `HALT`, `DI`, `EI`.
    Control,
    /// Loads of bytes and words, pushes and pops.
    Load,
    /// Arithmetic and logic.
    Arithmetic,
    /// Jumps, calls and returns.
    Jump,
    /// Rotations, shifts and single bits of the prefixed opcodes.
    BitOperation,
}

/// The operand that a 3-bit register field names.
pub open spec fn register_operand(field: int) -> Operand {
    if field == 0 {
        Operand::RegB
    } else if field == 1 {
        Operand::RegC
    } else if field == 2 {
        Operand::RegD
    } else if field == 3 {
        Operand::RegE
    } else if field == 4 {
        Operand::RegH
    } else if field == 5 {
        Operand::RegL
    } else if field == 6 {
        Operand::AddressHL
    } else {
        Operand::RegA
    }
}

/// The pair that a 2-bit field names; the fourth is `last`: `SP` in
/// arithmetic and loads, `AF` on the stack.
pub open spec fn register_pair(field: int, last: Reg16) -> Reg16 {
    if field == 0 {
        Reg16::BC
    } else if field == 1 {
        Reg16::DE
    } else if field == 2 {
        Reg16::HL
    } else {
        last
    }
}

/// The address operand that a 2-bit field names in the loads between the
/// accumulator and memory.
pub open spec fn indirect_operand(field: int) -> Operand {
    if field == 0 {
        Operand::AddressBC
    } else if field == 1 {
        Operand::AddressDE
    } else if field == 2 {
        Operand::AddressHLI
    } else {
        Operand::AddressHLD
    }
}

/// The condition that a 2-bit field names.
pub open spec fn condition(field: int) -> Condition {
    if field == 0 {
        Condition::NotZero
    } else if field == 1 {
        Condition::Zero
    } else if field == 2 {
        Condition::NotCarry
    } else {
        Condition::Carry
    }
}

/// The operation of the accumulator that a 3-bit field names.
pub open spec fn alu_op(field: int) -> AluOp {
    if field == 0 {
        AluOp::Add
    } else if field == 1 {
        AluOp::Adc
    } else if field == 2 {
        AluOp::Sub
    } else if field == 3 {
        AluOp::Sbc
    } else if field == 4 {
        AluOp::And
    } else if field == 5 {
        AluOp::Xor
    } else if field == 6 {
        AluOp::Or
    } else {
        AluOp::Cp
    }
}

/// The rotation or shift that a 3-bit field names.
pub open spec fn shift_op(field: int) -> ShiftOp {
    if field == 0 {
        ShiftOp::Rlc
    } else if field == 1 {
        ShiftOp::Rrc
    } else if field == 2 {
        ShiftOp::Rl
    } else if field == 3 {
        ShiftOp::Rr
    } else if field == 4 {
        ShiftOp::Sla
    } else if field == 5 {
        ShiftOp::Sra
    } else if field == 6 {
        ShiftOp::Swap
    } else {
        ShiftOp::Srl
    }
}

/// The instruction of an opcode in the first quarter of the table, from
/// its fields `y` (bits 5..3) and `z` (bits 2..0).
pub open spec fn decoded_block_0(y: int, z: int) -> Option<Instruction> {
    if z == 0 {
        if y == 0 {
            Some(Instruction::Nop)
        } else if y == 1 {
            Some(Instruction::StoreStackPointer)
        } else if y == 2 {
            None
        } else if y == 3 {
            Some(Instruction::JumpRelative(Condition::True))
        } else {
            Some(Instruction::JumpRelative(condition(y - 4)))
        }
    } else if z == 1 {
        if y % 2 == 0 {
            Some(Instruction::LoadWord(register_pair(y / 2, Reg16::SP)))
        } else {
            Some(Instruction::AddWord(register_pair(y / 2, Reg16::SP)))
        }
    } else if z == 2 {
        if y % 2 == 0 {
            Some(Instruction::Load(indirect_operand(y / 2), Operand::RegA))
        } else {
            Some(Instruction::Load(Operand::RegA, indirect_operand(y / 2)))
        }
    } else if z == 3 {
        if y % 2 == 0 {
            Some(Instruction::IncWord(register_pair(y / 2, Reg16::SP)))
        } else {
            Some(Instruction::DecWord(register_pair(y / 2, Reg16::SP)))
        }
    } else if z == 4 {
        Some(Instruction::Inc(register_operand(y)))
    } else if z == 5 {
        Some(Instruction::Dec(register_operand(y)))
    } else if z == 6 {
        Some(Instruction::Load(register_operand(y), Operand::Immediate8))
    } else if y == 0 {
        Some(Instruction::Rlca)
    } else if y == 1 {
        Some(Instruction::Rrca)
    } else if y == 2 {
        Some(Instruction::Rla)
    } else if y == 3 {
        Some(Instruction::Rra)
    } else if y == 4 {
        Some(Instruction::Daa)
    } else if y == 5 {
        Some(Instruction::Cpl)
    } else if y == 6 {
        Some(Instruction::Scf)
    } else {
        Some(Instruction::Ccf)
    }
}

/// The instruction of an opcode in the last quarter of the table.
pub open spec fn decoded_block_3(y: int, z: int) -> Option<Instruction> {
    if z == 0 {
        if y < 4 {
            Some(Instruction::Return(condition(y)))
        } else if y == 4 {
            Some(Instruction::Load(Operand::AddressHighImmediate8, Operand::RegA))
        } else if y == 5 {
            Some(Instruction::AddStackOffset)
        } else if y == 6 {
            Some(Instruction::Load(Operand::RegA, Operand::AddressHighImmediate8))
        } else {
            Some(Instruction::LoadStackOffset)
        }
    } else if z == 1 {
        if y % 2 == 0 {
            Some(Instruction::Pop(register_pair(y / 2, Reg16::AF)))
        } else if y == 1 {
            Some(Instruction::Return(Condition::True))
        } else if y == 3 {
            Some(Instruction::Reti)
        } else if y == 5 {
            Some(Instruction::JumpHl)
        } else {
            Some(Instruction::LoadStackPointer)
        }
    } else if z == 2 {
        if y < 4 {
            Some(Instruction::Jump(condition(y)))
        } else if y == 4 {
            Some(Instruction::Load(Operand::AddressHighC, Operand::RegA))
        } else if y == 5 {
            Some(Instruction::Load(Operand::AddressImmediate16, Operand::RegA))
        } else if y == 6 {
            Some(Instruction::Load(Operand::RegA, Operand::AddressHighC))
        } else {
            Some(Instruction::Load(Operand::RegA, Operand::AddressImmediate16))
        }
    } else if z == 3 {
        if y == 0 {
            Some(Instruction::Jump(Condition::True))
        } else if y == 6 {
            Some(Instruction::Di)
        } else if y == 7 {
            Some(Instruction::Ei)
        } else {
            None
        }
    } else if z == 4 {
        if y < 4 {
            Some(Instruction::Call(condition(y)))
        } else {
            None
        }
    } else if z == 5 {
        if y % 2 == 0 {
            Some(Instruction::Push(register_pair(y / 2, Reg16::AF)))
        } else if y == 1 {
            Some(Instruction::Call(Condition::True))
        } else {
            None
        }
    } else if z == 6 {
        Some(Instruction::Alu(alu_op(y), Operand::Immediate8))
    } else {
        Some(Instruction::Restart((y * 8) as u8))
    }
}

impl Instruction {
    /// The family that the instruction belongs to.
    pub open spec fn family(self) -> Family {
        match self {
            Instruction::Nop | Instruction::Halt | Instruction::Di | Instruction::Ei => Family::Control,
            Instruction::Load(..) | Instruction::LoadWord(_) | Instruction::StoreStackPointer
            | Instruction::LoadStackPointer | Instruction::LoadStackOffset | Instruction::Push(_)
            | Instruction::Pop(_) => Family::Load,
            Instruction::JumpRelative(_) | Instruction::Jump(_) | Instruction::JumpHl | Instruction::Call(
                _,
            ) | Instruction::Return(_) | Instruction::Reti | Instruction::Restart(_) => Family::Jump,
            Instruction::Shift(..) | Instruction::TestBit(..) | Instruction::ResetBit(..)
            | Instruction::SetBit(..) => Family::BitOperation,
            _ => Family::Arithmetic,
        }
    }

    /// Whether the instruction is a load, a push or a pop.
    pub fn is_load(&self) -> (yes: bool)
        ensures
            yes == (self.family() == Family::Load),
    {
        match self {
            Instruction::Load(..) | Instruction::LoadWord(_) | Instruction::StoreStackPointer
            | Instruction::LoadStackPointer | Instruction::LoadStackOffset | Instruction::Push(_)
            | Instruction::Pop(_) => true,
            _ => false,
        }
    }

    /// Whether the instruction is a jump, a call or a return.
    pub fn is_jump(&self) -> (yes: bool)
        ensures
            yes == (self.family() == Family::Jump),
    {
        match self {
            Instruction::JumpRelative(_) | Instruction::Jump(_) | Instruction::JumpHl | Instruction::Call(
                _,
            ) | Instruction::Return(_) | Instruction::Reti | Instruction::Restart(_) => true,
            _ => false,
        }
    }

    /// Whether the instruction is one of the prefixed opcodes.
    pub fn is_bit_operation(&self) -> (yes: bool)
        ensures
            yes == (self.family() == Family::BitOperation),
    {
        match self {
            Instruction::Shift(..) | Instruction::TestBit(..) | Instruction::ResetBit(..)
            | Instruction::SetBit(..) => true,
            _ => false,
        }
    }

    /// Whether the instruction is arithmetic or logic.
    pub fn is_arithmetic(&self) -> (yes: bool)
        ensures
            yes == (self.family() == Family::Arithmetic),
    {
        match self {
            Instruction::Nop | Instruction::Halt | Instruction::Di | Instruction::Ei => false,
            _ => !self.is_load() && !self.is_jump() && !self.is_bit_operation(),
        }
    }

    /// Whether the instruction can run: it writes to no immediate byte
    /// and names a bit that a byte has.
    pub open spec fn valid(self) -> bool {
        match self {
            Instruction::Load(destination, _) => destination.writable(),
            Instruction::Inc(operand) | Instruction::Dec(operand) => operand.writable(),
            Instruction::Shift(_, operand) => operand.writable(),
            Instruction::TestBit(bit, _) => bit < 8,
            Instruction::ResetBit(bit, operand) | Instruction::SetBit(bit, operand) => bit < 8
                && operand.writable(),
            _ => true,
        }
    }

    /// The instruction that an opcode names, by the fields of the opcode:
    /// `x` (bits 7..6), `y` (bits 5..3) and `z` (bits 2..0). After the
    /// prefix `CB` every opcode names one; without it, eleven opcodes name
    /// none, and neither do `STOP`, which is not emulated, and the prefix
    /// itself.
    pub open spec fn decoded(byte: u8, prefixed: bool) -> Option<Instruction> {
        let x = byte as int / 64;
        let y = byte as int / 8 % 8;
        let z = byte as int % 8;
        if prefixed {
            if x == 0 {
                Some(Instruction::Shift(shift_op(y), register_operand(z)))
            } else if x == 1 {
                Some(Instruction::TestBit(y as u8, register_operand(z)))
            } else if x == 2 {
                Some(Instruction::ResetBit(y as u8, register_operand(z)))
            } else {
                Some(Instruction::SetBit(y as u8, register_operand(z)))
            }
        } else if x == 0 {
            decoded_block_0(y, z)
        } else if x == 1 {
            if byte == 0x76 {
                Some(Instruction::Halt)
            } else {
                Some(Instruction::Load(register_operand(y), register_operand(z)))
            }
        } else if x == 2 {
            Some(Instruction::Alu(alu_op(y), register_operand(z)))
        } else {
            decoded_block_3(y, z)
        }
    }

    /// The machine cycles that the instruction takes: one for each byte of
    /// the instruction and each byte moved over the bus, and more where
    /// the CPU works internally. `taken` says whether a conditional branch
    /// was taken, which costs extra.
    pub open spec fn cycles(self, taken: bool) -> u32 {
        match self {
            Instruction::Nop | Instruction::Halt | Instruction::Di | Instruction::Ei => 1,
            Instruction::Load(destination, source) => (1 + destination.cost() + source.cost()) as u32,
            Instruction::LoadWord(_) => 3,
            Instruction::StoreStackPointer => 5,
            Instruction::LoadStackPointer => 2,
            Instruction::LoadStackOffset => 3,
            Instruction::Push(_) => 4,
            Instruction::Pop(_) => 3,
            Instruction::Alu(_, operand) => (1 + operand.cost()) as u32,
            Instruction::Inc(operand) | Instruction::Dec(operand) => (1 + 2 * operand.cost()) as u32,
            Instruction::IncWord(_) | Instruction::DecWord(_) | Instruction::AddWord(_) => 2,
            Instruction::AddStackOffset => 4,
            Instruction::Rlca | Instruction::Rrca | Instruction::Rla | Instruction::Rra
            | Instruction::Daa | Instruction::Cpl | Instruction::Scf | Instruction::Ccf => 1,
            Instruction::JumpRelative(_) => if taken {
                3
            } else {
                2
            },
            Instruction::Jump(_) => if taken {
                4
            } else {
                3
            },
            Instruction::JumpHl => 1,
            Instruction::Call(_) => if taken {
                6
            } else {
                3
            },
            Instruction::Return(condition) => if condition == Condition::True {
                4
            } else if taken {
                5
            } else {
                2
            },
            Instruction::Reti => 4,
            Instruction::Restart(_) => 4,
            Instruction::Shift(_, operand) | Instruction::ResetBit(_, operand) | Instruction::SetBit(_, operand) => (
            2 + 2 * operand.cost()) as u32,
            Instruction::TestBit(_, operand) => (2 + operand.cost()) as u32,
        }
    }

    /// The instruction that `byte` names, after the prefix `CB` if
    /// `prefixed`. `None` where it names none.
    pub fn from_byte(byte: u8, prefixed: bool) -> (instruction: Option<Instruction>)
        ensures
            instruction == Instruction::decoded(byte, prefixed),
            instruction matches Some(i) ==> i.valid(),
    {
        if prefixed {
            Self::from_byte_prefixed(byte)
        } else {
            Self::from_byte_not_prefixed(byte)
        }
    }

    fn operand_from_field(field: u8) -> (operand: Operand)
        requires
            field < 8,
        ensures
            operand == register_operand(field as int),
            operand.writable(),
    {
        match field {
            0 => Operand::RegB,
            1 => Operand::RegC,
            2 => Operand::RegD,
            3 => Operand::RegE,
            4 => Operand::RegH,
            5 => Operand::RegL,
            6 => Operand::AddressHL,
            _ => Operand::RegA,
        }
    }

    fn from_byte_prefixed(byte: u8) -> (instruction: Option<Instruction>)
        ensures
            instruction == Instruction::decoded(byte, true),
            instruction matches Some(i) ==> i.valid(),
    {
        let operand = Self::operand_from_field(byte % 8);
        let y = byte / 8 % 8;
        match byte / 64 {
            0 => {
                let op = match y {
                    0 => ShiftOp::Rlc,
                    1 => ShiftOp::Rrc,
                    2 => ShiftOp::Rl,
                    3 => ShiftOp::Rr,
                    4 => ShiftOp::Sla,
                    5 => ShiftOp::Sra,
                    6 => ShiftOp::Swap,
                    _ => ShiftOp::Srl,
                };
                Some(Instruction::Shift(op, operand))
            },
            1 => Some(Instruction::TestBit(y, operand)),
            2 => Some(Instruction::ResetBit(y, operand)),
            _ => Some(Instruction::SetBit(y, operand)),
        }
    }

    fn from_byte_not_prefixed(byte: u8) -> (instruction: Option<Instruction>)
        ensures
            instruction == Instruction::decoded(byte, false),
            instruction matches Some(i) ==> i.valid(),
    {
        match byte {
            0x00 => Some(Instruction::Nop),
            0x01 => Some(Instruction::LoadWord(Reg16::BC)),
            0x02 => Some(Instruction::Load(Operand::AddressBC, Operand::RegA)),
            0x03 => Some(Instruction::IncWord(Reg16::BC)),
            0x04 => Some(Instruction::Inc(Operand::RegB)),
            0x05 => Some(Instruction::Dec(Operand::RegB)),
            0x06 => Some(Instruction::Load(Operand::RegB, Operand::Immediate8)),
            0x07 => Some(Instruction::Rlca),
            0x08 => Some(Instruction::StoreStackPointer),
            0x09 => Some(Instruction::AddWord(Reg16::BC)),
            0x0a => Some(Instruction::Load(Operand::RegA, Operand::AddressBC)),
            0x0b => Some(Instruction::DecWord(Reg16::BC)),
            0x0c => Some(Instruction::Inc(Operand::RegC)),
            0x0d => Some(Instruction::Dec(Operand::RegC)),
            0x0e => Some(Instruction::Load(Operand::RegC, Operand::Immediate8)),
            0x0f => Some(Instruction::Rrca),
            0x11 => Some(Instruction::LoadWord(Reg16::DE)),
            0x12 => Some(Instruction::Load(Operand::AddressDE, Operand::RegA)),
            0x13 => Some(Instruction::IncWord(Reg16::DE)),
            0x14 => Some(Instruction::Inc(Operand::RegD)),
            0x15 => Some(Instruction::Dec(Operand::RegD)),
            0x16 => Some(Instruction::Load(Operand::RegD, Operand::Immediate8)),
            0x17 => Some(Instruction::Rla),
            0x18 => Some(Instruction::JumpRelative(Condition::True)),
            0x19 => Some(Instruction::AddWord(Reg16::DE)),
            0x1a => Some(Instruction::Load(Operand::RegA, Operand::AddressDE)),
            0x1b => Some(Instruction::DecWord(Reg16::DE)),
            0x1c => Some(Instruction::Inc(Operand::RegE)),
            0x1d => Some(Instruction::Dec(Operand::RegE)),
            0x1e => Some(Instruction::Load(Operand::RegE, Operand::Immediate8)),
            0x1f => Some(Instruction::Rra),
            0x20 => Some(Instruction::JumpRelative(Condition::NotZero)),
            0x21 => Some(Instruction::LoadWord(Reg16::HL)),
            0x22 => Some(Instruction::Load(Operand::AddressHLI, Operand::RegA)),
            0x23 => Some(Instruction::IncWord(Reg16::HL)),
            0x24 => Some(Instruction::Inc(Operand::RegH)),
            0x25 => Some(Instruction::Dec(Operand::RegH)),
            0x26 => Some(Instruction::Load(Operand::RegH, Operand::Immediate8)),
            0x27 => Some(Instruction::Daa),
            0x28 => Some(Instruction::JumpRelative(Condition::Zero)),
            0x29 => Some(Instruction::AddWord(Reg16::HL)),
            0x2a => Some(Instruction::Load(Operand::RegA, Operand::AddressHLI)),
            0x2b => Some(Instruction::DecWord(Reg16::HL)),
            0x2c => Some(Instruction::Inc(Operand::RegL)),
            0x2d => Some(Instruction::Dec(Operand::RegL)),
            0x2e => Some(Instruction::Load(Operand::RegL, Operand::Immediate8)),
            0x2f => Some(Instruction::Cpl),
            0x30 => Some(Instruction::JumpRelative(Condition::NotCarry)),
            0x31 => Some(Instruction::LoadWord(Reg16::SP)),
            0x32 => Some(Instruction::Load(Operand::AddressHLD, Operand::RegA)),
            0x33 => Some(Instruction::IncWord(Reg16::SP)),
            0x34 => Some(Instruction::Inc(Operand::AddressHL)),
            0x35 => Some(Instruction::Dec(Operand::AddressHL)),
            0x36 => Some(Instruction::Load(Operand::AddressHL, Operand::Immediate8)),
            0x37 => Some(Instruction::Scf),
            0x38 => Some(Instruction::JumpRelative(Condition::Carry)),
            0x39 => Some(Instruction::AddWord(Reg16::SP)),
            0x3a => Some(Instruction::Load(Operand::RegA, Operand::AddressHLD)),
            0x3b => Some(Instruction::DecWord(Reg16::SP)),
            0x3c => Some(Instruction::Inc(Operand::RegA)),
            0x3d => Some(Instruction::Dec(Operand::RegA)),
            0x3e => Some(Instruction::Load(Operand::RegA, Operand::Immediate8)),
            0x3f => Some(Instruction::Ccf),
            0x40 => Some(Instruction::Load(Operand::RegB, Operand::RegB)),
            0x41 => Some(Instruction::Load(Operand::RegB, Operand::RegC)),
            0x42 => Some(Instruction::Load(Operand::RegB, Operand::RegD)),
            0x43 => Some(Instruction::Load(Operand::RegB, Operand::RegE)),
            0x44 => Some(Instruction::Load(Operand::RegB, Operand::RegH)),
            0x45 => Some(Instruction::Load(Operand::RegB, Operand::RegL)),
            0x46 => Some(Instruction::Load(Operand::RegB, Operand::AddressHL)),
            0x47 => Some(Instruction::Load(Operand::RegB, Operand::RegA)),
            0x48 => Some(Instruction::Load(Operand::RegC, Operand::RegB)),
            0x49 => Some(Instruction::Load(Operand::RegC, Operand::RegC)),
            0x4a => Some(Instruction::Load(Operand::RegC, Operand::RegD)),
            0x4b => Some(Instruction::Load(Operand::RegC, Operand::RegE)),
            0x4c => Some(Instruction::Load(Operand::RegC, Operand::RegH)),
            0x4d => Some(Instruction::Load(Operand::RegC, Operand::RegL)),
            0x4e => Some(Instruction::Load(Operand::RegC, Operand::AddressHL)),
            0x4f => Some(Instruction::Load(Operand::RegC, Operand::RegA)),
            0x50 => Some(Instruction::Load(Operand::RegD, Operand::RegB)),
            0x51 => Some(Instruction::Load(Operand::RegD, Operand::RegC)),
            0x52 => Some(Instruction::Load(Operand::RegD, Operand::RegD)),
            0x53 => Some(Instruction::Load(Operand::RegD, Operand::RegE)),
            0x54 => Some(Instruction::Load(Operand::RegD, Operand::RegH)),
            0x55 => Some(Instruction::Load(Operand::RegD, Operand::RegL)),
            0x56 => Some(Instruction::Load(Operand::RegD, Operand::AddressHL)),
            0x57 => Some(Instruction::Load(Operand::RegD, Operand::RegA)),
            0x58 => Some(Instruction::Load(Operand::RegE, Operand::RegB)),
            0x59 => Some(Instruction::Load(Operand::RegE, Operand::RegC)),
            0x5a => Some(Instruction::Load(Operand::RegE, Operand::RegD)),
            0x5b => Some(Instruction::Load(Operand::RegE, Operand::RegE)),
            0x5c => Some(Instruction::Load(Operand::RegE, Operand::RegH)),
            0x5d => Some(Instruction::Load(Operand::RegE, Operand::RegL)),
            0x5e => Some(Instruction::Load(Operand::RegE, Operand::AddressHL)),
            0x5f => Some(Instruction::Load(Operand::RegE, Operand::RegA)),
            0x60 => Some(Instruction::Load(Operand::RegH, Operand::RegB)),
            0x61 => Some(Instruction::Load(Operand::RegH, Operand::RegC)),
            0x62 => Some(Instruction::Load(Operand::RegH, Operand::RegD)),
            0x63 => Some(Instruction::Load(Operand::RegH, Operand::RegE)),
            0x64 => Some(Instruction::Load(Operand::RegH, Operand::RegH)),
            0x65 => Some(Instruction::Load(Operand::RegH, Operand::RegL)),
            0x66 => Some(Instruction::Load(Operand::RegH, Operand::AddressHL)),
            0x67 => Some(Instruction::Load(Operand::RegH, Operand::RegA)),
            0x68 => Some(Instruction::Load(Operand::RegL, Operand::RegB)),
            0x69 => Some(Instruction::Load(Operand::RegL, Operand::RegC)),
            0x6a => Some(Instruction::Load(Operand::RegL, Operand::RegD)),
            0x6b => Some(Instruction::Load(Operand::RegL, Operand::RegE)),
            0x6c => Some(Instruction::Load(Operand::RegL, Operand::RegH)),
            0x6d => Some(Instruction::Load(Operand::RegL, Operand::RegL)),
            0x6e => Some(Instruction::Load(Operand::RegL, Operand::AddressHL)),
            0x6f => Some(Instruction::Load(Operand::RegL, Operand::RegA)),
            0x70 => Some(Instruction::Load(Operand::AddressHL, Operand::RegB)),
            0x71 => Some(Instruction::Load(Operand::AddressHL, Operand::RegC)),
            0x72 => Some(Instruction::Load(Operand::AddressHL, Operand::RegD)),
            0x73 => Some(Instruction::Load(Operand::AddressHL, Operand::RegE)),
            0x74 => Some(Instruction::Load(Operand::AddressHL, Operand::RegH)),
            0x75 => Some(Instruction::Load(Operand::AddressHL, Operand::RegL)),
            0x76 => Some(Instruction::Halt),
            0x77 => Some(Instruction::Load(Operand::AddressHL, Operand::RegA)),
            0x78 => Some(Instruction::Load(Operand::RegA, Operand::RegB)),
            0x79 => Some(Instruction::Load(Operand::RegA, Operand::RegC)),
            0x7a => Some(Instruction::Load(Operand::RegA, Operand::RegD)),
            0x7b => Some(Instruction::Load(Operand::RegA, Operand::RegE)),
            0x7c => Some(Instruction::Load(Operand::RegA, Operand::RegH)),
            0x7d => Some(Instruction::Load(Operand::RegA, Operand::RegL)),
            0x7e => Some(Instruction::Load(Operand::RegA, Operand::AddressHL)),
            0x7f => Some(Instruction::Load(Operand::RegA, Operand::RegA)),
            0x80 => Some(Instruction::Alu(AluOp::Add, Operand::RegB)),
            0x81 => Some(Instruction::Alu(AluOp::Add, Operand::RegC)),
            0x82 => Some(Instruction::Alu(AluOp::Add, Operand::RegD)),
            0x83 => Some(Instruction::Alu(AluOp::Add, Operand::RegE)),
            0x84 => Some(Instruction::Alu(AluOp::Add, Operand::RegH)),
            0x85 => Some(Instruction::Alu(AluOp::Add, Operand::RegL)),
            0x86 => Some(Instruction::Alu(AluOp::Add, Operand::AddressHL)),
            0x87 => Some(Instruction::Alu(AluOp::Add, Operand::RegA)),
            0x88 => Some(Instruction::Alu(AluOp::Adc, Operand::RegB)),
            0x89 => Some(Instruction::Alu(AluOp::Adc, Operand::RegC)),
            0x8a => Some(Instruction::Alu(AluOp::Adc, Operand::RegD)),
            0x8b => Some(Instruction::Alu(AluOp::Adc, Operand::RegE)),
            0x8c => Some(Instruction::Alu(AluOp::Adc, Operand::RegH)),
            0x8d => Some(Instruction::Alu(AluOp::Adc, Operand::RegL)),
            0x8e => Some(Instruction::Alu(AluOp::Adc, Operand::AddressHL)),
            0x8f => Some(Instruction::Alu(AluOp::Adc, Operand::RegA)),
            0x90 => Some(Instruction::Alu(AluOp::Sub, Operand::RegB)),
            0x91 => Some(Instruction::Alu(AluOp::Sub, Operand::RegC)),
            0x92 => Some(Instruction::Alu(AluOp::Sub, Operand::RegD)),
            0x93 => Some(Instruction::Alu(AluOp::Sub, Operand::RegE)),
            0x94 => Some(Instruction::Alu(AluOp::Sub, Operand::RegH)),
            0x95 => Some(Instruction::Alu(AluOp::Sub, Operand::RegL)),
            0x96 => Some(Instruction::Alu(AluOp::Sub, Operand::AddressHL)),
            0x97 => Some(Instruction::Alu(AluOp::Sub, Operand::RegA)),
            0x98 => Some(Instruction::Alu(AluOp::Sbc, Operand::RegB)),
            0x99 => Some(Instruction::Alu(AluOp::Sbc, Operand::RegC)),
            0x9a => Some(Instruction::Alu(AluOp::Sbc, Operand::RegD)),
            0x9b => Some(Instruction::Alu(AluOp::Sbc, Operand::RegE)),
            0x9c => Some(Instruction::Alu(AluOp::Sbc, Operand::RegH)),
            0x9d => Some(Instruction::Alu(AluOp::Sbc, Operand::RegL)),
            0x9e => Some(Instruction::Alu(AluOp::Sbc, Operand::AddressHL)),
            0x9f => Some(Instruction::Alu(AluOp::Sbc, Operand::RegA)),
            0xa0 => Some(Instruction::Alu(AluOp::And, Operand::RegB)),
            0xa1 => Some(Instruction::Alu(AluOp::And, Operand::RegC)),
            0xa2 => Some(Instruction::Alu(AluOp::And, Operand::RegD)),
            0xa3 => Some(Instruction::Alu(AluOp::And, Operand::RegE)),
            0xa4 => Some(Instruction::Alu(AluOp::And, Operand::RegH)),
            0xa5 => Some(Instruction::Alu(AluOp::And, Operand::RegL)),
            0xa6 => Some(Instruction::Alu(AluOp::And, Operand::AddressHL)),
            0xa7 => Some(Instruction::Alu(AluOp::And, Operand::RegA)),
            0xa8 => Some(Instruction::Alu(AluOp::Xor, Operand::RegB)),
            0xa9 => Some(Instruction::Alu(AluOp::Xor, Operand::RegC)),
            0xaa => Some(Instruction::Alu(AluOp::Xor, Operand::RegD)),
            0xab => Some(Instruction::Alu(AluOp::Xor, Operand::RegE)),
            0xac => Some(Instruction::Alu(AluOp::Xor, Operand::RegH)),
            0xad => Some(Instruction::Alu(AluOp::Xor, Operand::RegL)),
            0xae => Some(Instruction::Alu(AluOp::Xor, Operand::AddressHL)),
            0xaf => Some(Instruction::Alu(AluOp::Xor, Operand::RegA)),
            0xb0 => Some(Instruction::Alu(AluOp::Or, Operand::RegB)),
            0xb1 => Some(Instruction::Alu(AluOp::Or, Operand::RegC)),
            0xb2 => Some(Instruction::Alu(AluOp::Or, Operand::RegD)),
            0xb3 => Some(Instruction::Alu(AluOp::Or, Operand::RegE)),
            0xb4 => Some(Instruction::Alu(AluOp::Or, Operand::RegH)),
            0xb5 => Some(Instruction::Alu(AluOp::Or, Operand::RegL)),
            0xb6 => Some(Instruction::Alu(AluOp::Or, Operand::AddressHL)),
            0xb7 => Some(Instruction::Alu(AluOp::Or, Operand::RegA)),
            0xb8 => Some(Instruction::Alu(AluOp::Cp, Operand::RegB)),
            0xb9 => Some(Instruction::Alu(AluOp::Cp, Operand::RegC)),
            0xba => Some(Instruction::Alu(AluOp::Cp, Operand::RegD)),
            0xbb => Some(Instruction::Alu(AluOp::Cp, Operand::RegE)),
            0xbc => Some(Instruction::Alu(AluOp::Cp, Operand::RegH)),
            0xbd => Some(Instruction::Alu(AluOp::Cp, Operand::RegL)),
            0xbe => Some(Instruction::Alu(AluOp::Cp, Operand::AddressHL)),
            0xbf => Some(Instruction::Alu(AluOp::Cp, Operand::RegA)),
            0xc0 => Some(Instruction::Return(Condition::NotZero)),
            0xc1 => Some(Instruction::Pop(Reg16::BC)),
            0xc2 => Some(Instruction::Jump(Condition::NotZero)),
            0xc3 => Some(Instruction::Jump(Condition::True)),
            0xc4 => Some(Instruction::Call(Condition::NotZero)),
            0xc5 => Some(Instruction::Push(Reg16::BC)),
            0xc6 => Some(Instruction::Alu(AluOp::Add, Operand::Immediate8)),
            0xc7 => Some(Instruction::Restart(0x00)),
            0xc8 => Some(Instruction::Return(Condition::Zero)),
            0xc9 => Some(Instruction::Return(Condition::True)),
            0xca => Some(Instruction::Jump(Condition::Zero)),
            0xcc => Some(Instruction::Call(Condition::Zero)),
            0xcd => Some(Instruction::Call(Condition::True)),
            0xce => Some(Instruction::Alu(AluOp::Adc, Operand::Immediate8)),
            0xcf => Some(Instruction::Restart(0x08)),
            0xd0 => Some(Instruction::Return(Condition::NotCarry)),
            0xd1 => Some(Instruction::Pop(Reg16::DE)),
            0xd2 => Some(Instruction::Jump(Condition::NotCarry)),
            0xd4 => Some(Instruction::Call(Condition::NotCarry)),
            0xd5 => Some(Instruction::Push(Reg16::DE)),
            0xd6 => Some(Instruction::Alu(AluOp::Sub, Operand::Immediate8)),
            0xd7 => Some(Instruction::Restart(0x10)),
            0xd8 => Some(Instruction::Return(Condition::Carry)),
            0xd9 => Some(Instruction::Reti),
            0xda => Some(Instruction::Jump(Condition::Carry)),
            0xdc => Some(Instruction::Call(Condition::Carry)),
            0xde => Some(Instruction::Alu(AluOp::Sbc, Operand::Immediate8)),
            0xdf => Some(Instruction::Restart(0x18)),
            0xe0 => Some(Instruction::Load(Operand::AddressHighImmediate8, Operand::RegA)),
            0xe1 => Some(Instruction::Pop(Reg16::HL)),
            0xe2 => Some(Instruction::Load(Operand::AddressHighC, Operand::RegA)),
            0xe5 => Some(Instruction::Push(Reg16::HL)),
            0xe6 => Some(Instruction::Alu(AluOp::And, Operand::Immediate8)),
            0xe7 => Some(Instruction::Restart(0x20)),
            0xe8 => Some(Instruction::AddStackOffset),
            0xe9 => Some(Instruction::JumpHl),
            0xea => Some(Instruction::Load(Operand::AddressImmediate16, Operand::RegA)),
            0xee => Some(Instruction::Alu(AluOp::Xor, Operand::Immediate8)),
            0xef => Some(Instruction::Restart(0x28)),
            0xf0 => Some(Instruction::Load(Operand::RegA, Operand::AddressHighImmediate8)),
            0xf1 => Some(Instruction::Pop(Reg16::AF)),
            0xf2 => Some(Instruction::Load(Operand::RegA, Operand::AddressHighC)),
            0xf3 => Some(Instruction::Di),
            0xf5 => Some(Instruction::Push(Reg16::AF)),
            0xf6 => Some(Instruction::Alu(AluOp::Or, Operand::Immediate8)),
            0xf7 => Some(Instruction::Restart(0x30)),
            0xf8 => Some(Instruction::LoadStackOffset),
            0xf9 => Some(Instruction::LoadStackPointer),
            0xfa => Some(Instruction::Load(Operand::RegA, Operand::AddressImmediate16)),
            0xfb => Some(Instruction::Ei),
            0xfe => Some(Instruction::Alu(AluOp::Cp, Operand::Immediate8)),
            0xff => Some(Instruction::Restart(0x38)),
            _ => None,
        }
    }

    /// The machine cycles that the instruction takes; see `cycles`.
    pub fn cycle_count(&self, taken: bool) -> (count: u32)
        ensures
            count == self.cycles(taken),
    {
        match self {
            Instruction::Nop | Instruction::Halt | Instruction::Di | Instruction::Ei => 1,
            Instruction::Load(destination, source) => 1 + destination.access_cost() + source.access_cost(),
            Instruction::LoadWord(_) => 3,
            Instruction::StoreStackPointer => 5,
            Instruction::LoadStackPointer => 2,
            Instruction::LoadStackOffset => 3,
            Instruction::Push(_) => 4,
            Instruction::Pop(_) => 3,
            Instruction::Alu(_, operand) => 1 + operand.access_cost(),
            Instruction::Inc(operand) | Instruction::Dec(operand) => 1 + 2 * operand.access_cost(),
            Instruction::IncWord(_) | Instruction::DecWord(_) | Instruction::AddWord(_) => 2,
            Instruction::AddStackOffset => 4,
            Instruction::Rlca | Instruction::Rrca | Instruction::Rla | Instruction::Rra
            | Instruction::Daa | Instruction::Cpl | Instruction::Scf | Instruction::Ccf => 1,
            Instruction::JumpRelative(_) => if taken {
                3
            } else {
                2
            },
            Instruction::Jump(_) => if taken {
                4
            } else {
                3
            },
            Instruction::JumpHl => 1,
            Instruction::Call(_) => if taken {
                6
            } else {
                3
            },
            Instruction::Return(condition) => match condition {
                Condition::True => 4,
                _ => if taken {
                    5
                } else {
                    2
                },
            },
            Instruction::Reti => 4,
            Instruction::Restart(_) => 4,
            Instruction::Shift(_, operand) | Instruction::ResetBit(_, operand) | Instruction::SetBit(_, operand) => 2
                + 2 * operand.access_cost(),
            Instruction::TestBit(_, operand) => 2 + operand.access_cost(),
        }
    }
}

/// Every instruction that an opcode names takes at least one machine cycle
/// and at most six.
pub proof fn lemma_decoded_cycles(byte: u8, prefixed: bool, taken: bool)
    ensures
        Instruction::decoded(byte, prefixed) matches Some(instruction) ==> 1 <= instruction.cycles(taken)
            <= 6,
{
}

} // verus!
