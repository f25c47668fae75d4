//! The register file: eight 8-bit cells, the flag byte, `PC` and `SP`, and
//! the paired 16-bit views `AF`, `BC`, `DE`, `HL`.

use vstd::prelude::*;
use crate::bits::lemma_byte_bits;
use crate::bits::lemma_word_bits;

verus! {

/// The four condition flags. They occupy bits 7..4 of the flag byte; the low
/// nibble of that byte does not exist and always reads as zero.
#[derive(Clone, Copy, Debug, PartialEq, Eq, Structural)]
pub struct FlagsRegister {
    pub zero: bool,
    pub subtract: bool,
    pub half_carry: bool,
    pub carry: bool,
}

impl FlagsRegister {
    /// The flag byte `F`: Z, N, H, C weigh 128, 64, 32, 16.
    pub open spec fn byte(self) -> u8 {
        ((if self.zero { 128int } else { 0 }) + (if self.subtract { 64int } else { 0 }) + (if self.half_carry { 32int } else { 0 })
            + (if self.carry { 16int } else { 0 })) as u8
    }

    /// The flags held by a byte; its low nibble is dropped.
    pub open spec fn of_byte(byte: u8) -> FlagsRegister {
        FlagsRegister {
            zero: byte / 128 % 2 == 1,
            subtract: byte / 64 % 2 == 1,
            half_carry: byte / 32 % 2 == 1,
            carry: byte / 16 % 2 == 1,
        }
    }

    /// The flag byte.
    pub fn to_byte(self) -> (b: u8)
        ensures
            b == self.byte(),
    {
        let z: u8 = if self.zero { 0x80 } else { 0 };
        let n: u8 = if self.subtract { 0x40 } else { 0 };
        let h: u8 = if self.half_carry { 0x20 } else { 0 };
        let c: u8 = if self.carry { 0x10 } else { 0 };
        z + n + h + c
    }

    /// The flags held by a byte.
    pub fn from_byte(byte: u8) -> (f: Self)
        ensures
            f == Self::of_byte(byte),
    {
        proof {
            lemma_byte_bits();
        }
        FlagsRegister {
            zero: byte & 0x80 != 0,
            subtract: byte & 0x40 != 0,
            half_carry: byte & 0x20 != 0,
            carry: byte & 0x10 != 0,
        }
    }

    /// `SCF`: sets the carry, clears N and H, keeps Z.
    pub fn scf(&mut self)
        ensures
            *final(self) == (FlagsRegister { zero: old(self).zero, subtract: false, half_carry: false, carry: true }),
    {
        self.subtract = false;
        self.half_carry = false;
        self.carry = true;
    }
}

impl From<FlagsRegister> for u8 {
    fn from(flags: FlagsRegister) -> (byte: u8) {
        flags.to_byte()
    }
}

impl vstd::std_specs::convert::FromSpecImpl<FlagsRegister> for u8 {
    open spec fn obeys_from_spec() -> bool {
        true
    }

    open spec fn from_spec(flags: FlagsRegister) -> u8 {
        flags.byte()
    }
}

impl From<u8> for FlagsRegister {
    fn from(byte: u8) -> (flags: FlagsRegister) {
        FlagsRegister::from_byte(byte)
    }
}

impl vstd::std_specs::convert::FromSpecImpl<u8> for FlagsRegister {
    open spec fn obeys_from_spec() -> bool {
        true
    }

    open spec fn from_spec(byte: u8) -> FlagsRegister {
        FlagsRegister::of_byte(byte)
    }
}

/// A byte survives the trip through the flags with its high nibble only.
pub proof fn lemma_flags_round_trip(byte: u8)
    ensures
        FlagsRegister::of_byte(byte).byte() == byte & 0xf0,
        FlagsRegister::of_byte(byte).byte() % 16 == 0,
{
    lemma_byte_bits();
}

/// Flags survive the trip through the flag byte unchanged.
pub proof fn lemma_byte_round_trip(f: FlagsRegister)
    ensures
        FlagsRegister::of_byte(f.byte()) == f,
        f.byte() % 16 == 0,
{
}

#[derive(Clone, Copy, Debug, PartialEq, Eq, Structural)]
pub enum Reg8 {
    A,
    B,
    C,
    D,
    E,
    F,
    H,
    L,
}

#[derive(Clone, Copy, Debug, PartialEq, Eq, Structural)]
pub enum Reg16 {
    AF,
    BC,
    DE,
    HL,
    SP,
}

#[derive(Clone, Copy, Debug, PartialEq, Eq, Structural)]
pub struct Registers {
    pub a: u8,
    pub b: u8,
    pub c: u8,
    pub d: u8,
    pub e: u8,
    pub f: FlagsRegister,
    pub h: u8,
    pub l: u8,
    pub pc: u16,
    pub sp: u16,
}

/// The word whose high byte is `high` and whose low byte is `low`.
pub open spec fn word(high: u8, low: u8) -> u16 {
    (high * 256 + low) as u16
}

/// The high byte of a word.
pub open spec fn high_byte(value: u16) -> u8 {
    (value / 256) as u8
}

/// The low byte of a word.
pub open spec fn low_byte(value: u16) -> u8 {
    (value % 256) as u8
}

/// `value + delta` on the 16-bit circle.
pub open spec fn wrap16(value: int) -> u16 {
    (value % 0x10000) as u16
}

/// `value` on the 8-bit circle.
pub open spec fn wrap8(value: int) -> u8 {
    (value % 0x100) as u8
}

impl Registers {
    /// The register values that the boot program leaves behind.
    pub open spec fn after_boot() -> Registers {
        Registers {
            a: 0x01,
            b: 0x00,
            c: 0x13,
            d: 0x00,
            e: 0xd8,
            f: FlagsRegister { zero: true, subtract: false, half_carry: true, carry: true },
            h: 0x01,
            l: 0x4d,
            pc: 0x0100,
            sp: 0xfffe,
        }
    }

    /// What an 8-bit register holds.
    pub open spec fn reg8(self, reg: Reg8) -> u8 {
        match reg {
            Reg8::A => self.a,
            Reg8::B => self.b,
            Reg8::C => self.c,
            Reg8::D => self.d,
            Reg8::E => self.e,
            Reg8::F => self.f.byte(),
            Reg8::H => self.h,
            Reg8::L => self.l,
        }
    }

    /// The registers after a write to an 8-bit register; of a write to `F`
    /// the low nibble is dropped.
    pub open spec fn with_reg8(self, reg: Reg8, value: u8) -> Registers {
        match reg {
            Reg8::A => Registers { a: value, ..self },
            Reg8::B => Registers { b: value, ..self },
            Reg8::C => Registers { c: value, ..self },
            Reg8::D => Registers { d: value, ..self },
            Reg8::E => Registers { e: value, ..self },
            Reg8::F => Registers { f: FlagsRegister::of_byte(value), ..self },
            Reg8::H => Registers { h: value, ..self },
            Reg8::L => Registers { l: value, ..self },
        }
    }

    /// What a pair holds: the first register is the high byte.
    pub open spec fn reg16(self, reg: Reg16) -> u16 {
        match reg {
            Reg16::AF => word(self.a, self.f.byte()),
            Reg16::BC => word(self.b, self.c),
            Reg16::DE => word(self.d, self.e),
            Reg16::HL => word(self.h, self.l),
            Reg16::SP => self.sp,
        }
    }

    /// The registers after a write to a pair; of a write to `AF` the low
    /// nibble is dropped.
    pub open spec fn with_reg16(self, reg: Reg16, value: u16) -> Registers {
        match reg {
            Reg16::AF => Registers { a: high_byte(value), f: FlagsRegister::of_byte(low_byte(value)), ..self },
            Reg16::BC => Registers { b: high_byte(value), c: low_byte(value), ..self },
            Reg16::DE => Registers { d: high_byte(value), e: low_byte(value), ..self },
            Reg16::HL => Registers { h: high_byte(value), l: low_byte(value), ..self },
            Reg16::SP => Registers { sp: value, ..self },
        }
    }

    /// The state at power-on, before the boot program has run: the general
    /// registers already hold their post-boot values, `PC` is zero.
    pub fn new() -> (r: Self)
        ensures
            r == (Registers { pc: 0, ..Registers::after_boot() }),
    {
        Registers {
            a: 0x01,
            b: 0x00,
            c: 0x13,
            d: 0x00,
            e: 0xd8,
            f: FlagsRegister { zero: true, subtract: false, half_carry: true, carry: true },
            h: 0x01,
            l: 0x4d,
            pc: 0,
            sp: 0xfffe,
        }
    }

    /// Installs the values that the boot program leaves behind.
    pub fn set_state_after_boot_rom(&mut self)
        ensures
            *final(self) == Registers::after_boot(),
    {
        self.a = 0x01;
        self.b = 0x00;
        self.c = 0x13;
        self.d = 0x00;
        self.e = 0xd8;
        self.f = FlagsRegister { zero: true, subtract: false, half_carry: true, carry: true };
        self.h = 0x01;
        self.l = 0x4d;
        self.pc = 0x0100;
        self.sp = 0xfffe;
    }

    /// Reads an 8-bit register.
    pub fn read_8(&self, reg: Reg8) -> (value: u8)
        ensures
            value == self.reg8(reg),
    {
        match reg {
            Reg8::A => self.a,
            Reg8::B => self.b,
            Reg8::C => self.c,
            Reg8::D => self.d,
            Reg8::E => self.e,
            Reg8::F => u8::from(self.f),
            Reg8::H => self.h,
            Reg8::L => self.l,
        }
    }

    /// Writes an 8-bit register.
    pub fn write_8(&mut self, reg: Reg8, value: u8)
        ensures
            *final(self) == old(self).with_reg8(reg, value),
    {
        match reg {
            Reg8::A => self.a = value,
            Reg8::B => self.b = value,
            Reg8::C => self.c = value,
            Reg8::D => self.d = value,
            Reg8::E => self.e = value,
            Reg8::F => self.f = FlagsRegister::from(value),
            Reg8::H => self.h = value,
            Reg8::L => self.l = value,
        }
    }

    /// Reads a pair.
    pub fn read_16(&self, reg: Reg16) -> (value: u16)
        ensures
            value == self.reg16(reg),
    {
        proof {
            lemma_word_bits();
        }
        match reg {
            Reg16::AF => ((self.a as u16) << 8) | (u8::from(self.f) as u16),
            Reg16::BC => ((self.b as u16) << 8) | (self.c as u16),
            Reg16::DE => ((self.d as u16) << 8) | (self.e as u16),
            Reg16::HL => ((self.h as u16) << 8) | (self.l as u16),
            Reg16::SP => self.sp,
        }
    }

    /// Writes a pair.
    pub fn write_16(&mut self, reg: Reg16, value: u16)
        ensures
            *final(self) == old(self).with_reg16(reg, value),
    {
        proof {
            lemma_word_bits();
        }
        let high = (value >> 8) as u8;
        let low = (value & 0xff) as u8;
        match reg {
            Reg16::AF => {
                self.a = high;
                self.f = FlagsRegister::from(low);
            },
            Reg16::BC => {
                self.b = high;
                self.c = low;
            },
            Reg16::DE => {
                self.d = high;
                self.e = low;
            },
            Reg16::HL => {
                self.h = high;
                self.l = low;
            },
            Reg16::SP => {
                self.sp = value;
            },
        }
    }

    /// `HL+`: hands out `HL` and then increments it on the 16-bit circle.
    pub fn hli(&mut self) -> (address: u16)
        ensures
            address == old(self).reg16(Reg16::HL),
            *final(self) == old(self).with_reg16(Reg16::HL, wrap16(address + 1)),
    {
        let address = self.read_16(Reg16::HL);
        self.write_16(Reg16::HL, address.wrapping_add(1));
        address
    }

    /// `HL-`: hands out `HL` and then decrements it on the 16-bit circle.
    pub fn hld(&mut self) -> (address: u16)
        ensures
            address == old(self).reg16(Reg16::HL),
            *final(self) == old(self).with_reg16(Reg16::HL, wrap16(address - 1)),
    {
        let address = self.read_16(Reg16::HL);
        self.write_16(Reg16::HL, address.wrapping_sub(1));
        address
    }
}

/// Whatever the registers hold, the low nibble of `F` reads as zero, alone
/// and as the low byte of `AF`.
pub proof fn lemma_f_low_nibble(r: Registers)
    ensures
        r.reg8(Reg8::F) % 16 == 0,
        r.reg16(Reg16::AF) % 16 == 0,
{
}

/// Writing `AF` and reading it back yields the value with the low nibble
/// cleared: the flag byte has no bits 3..0.
pub proof fn lemma_af_round_trip(r: Registers, value: u16)
    ensures
        r.with_reg16(Reg16::AF, value).reg16(Reg16::AF) == value & 0xfff0,
{
    lemma_word_bits();
    lemma_flags_round_trip(low_byte(value));
    lemma_byte_bits();
}

/// Writing any pair but `AF` and reading it back yields the value written.
pub proof fn lemma_pair_round_trip(r: Registers, reg: Reg16, value: u16)
    requires
        reg != Reg16::AF,
    ensures
        r.with_reg16(reg, value).reg16(reg) == value,
{
}

} // verus!
