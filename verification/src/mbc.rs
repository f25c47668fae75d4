//! Memory-bank controllers: the cartridge hardware that shows a large ROM
//! and RAM through the windows `0000..=7FFF` and `A000..=BFFF`.

pub mod mbc_0;
pub mod mbc_1;
pub mod mbc_3;

use vstd::prelude::*;

verus! {

pub const ROM_BANK_SIZE: usize = 0x4000;

pub const RAM_BANK_SIZE: usize = 0x2000;

#[derive(Clone, Copy, Debug, PartialEq, Eq, Structural)]
pub enum MbcKind {
    /// 32 KiB of ROM, no banking, no RAM.
    Mbc0,
    Mbc1,
    Mbc3,
}

/// A controller as mathematics. The three kinds share the fields; a kind
/// ignores those it has no use for.
#[verifier::ext_equal]
pub struct MbcModel {
    pub kind: MbcKind,
    pub rom: Seq<u8>,
    pub ram: Seq<u8>,
    pub ram_enable: bool,
    /// The primary bank register.
    pub rom_bank_number: u8,
    /// The secondary bank register.
    pub ram_bank_number: u8,
    /// The banking mode of an MBC1: whether the secondary register reaches
    /// the RAM and the lower ROM window.
    pub advanced: bool,
    pub has_battery: bool,
}

/// The byte at `offset` of a memory image. Past its end the image repeats,
/// as it does where a controller leaves address lines unconnected; where
/// there is no image the bus reads `FF`.
pub open spec fn byte_at(memory: Seq<u8>, offset: int) -> u8 {
    if memory.len() > 0 {
        memory[offset % (memory.len() as int)]
    } else {
        0xff
    }
}

/// The bytes of cartridge RAM that the header of an image declares, in
/// the byte at `0149`.
pub open spec fn declared_ram_size(data: Seq<u8>) -> nat {
    if data.len() <= 0x149 {
        0
    } else if data[0x149] == 0x01 {
        0x800
    } else if data[0x149] == 0x02 {
        0x2000
    } else if data[0x149] == 0x03 {
        0x8000
    } else if data[0x149] == 0x04 {
        0x20000
    } else if data[0x149] == 0x05 {
        0x10000
    } else {
        0
    }
}

/// The bytes of cartridge RAM that the header of an image declares.
pub fn ram_size_from_header(data: &Vec<u8>) -> (size: usize)
    ensures
        size == declared_ram_size(data@),
{
    if data.len() <= 0x149 {
        0
    } else {
        match data[0x149] {
            0x01 => 0x800,
            0x02 => 0x2000,
            0x03 => 0x8000,
            0x04 => 0x20000,
            0x05 => 0x10000,
            _ => 0,
        }
    }
}

/// Reads the byte at `offset` of a memory image; see `byte_at`.
pub fn read_image(memory: &Vec<u8>, offset: usize) -> (value: u8)
    ensures
        value == byte_at(memory@, offset as int),
{
    if memory.len() > 0 {
        memory[offset % memory.len()]
    } else {
        0xff
    }
}

/// `size` zero bytes.
pub open spec fn zeroed(size: nat) -> Seq<u8> {
    Seq::new(size, |i: int| 0u8)
}

/// The RAM that a controller starts with: `size` bytes, from the saved
/// image where the cartridge has a battery and the image is long enough,
/// else zeroes.
pub open spec fn initial_ram(has_battery: bool, saved: Option<Seq<u8>>, size: nat) -> Seq<u8> {
    match saved {
        Some(image) if has_battery && image.len() >= size => image.subrange(0, size as int),
        _ => zeroed(size),
    }
}

impl MbcModel {
    /// The offset into the ROM image that `address` in `0000..=7FFF` shows.
    pub open spec fn rom_offset(self, address: u16) -> int {
        match self.kind {
            MbcKind::Mbc0 => address as int,
            MbcKind::Mbc1 => if address < 0x4000 {
                if self.advanced {
                    self.ram_bank_number * 32 * 0x4000 + address
                } else {
                    address as int
                }
            } else {
                (self.ram_bank_number * 32 + self.rom_bank_number) * 0x4000 + address % 0x4000
            },
            MbcKind::Mbc3 => if address < 0x4000 {
                address as int
            } else {
                self.rom_bank_number * 0x4000 + (address - 0x4000)
            },
        }
    }

    /// The offset into the RAM image that `address` in `A000..=BFFF` shows.
    pub open spec fn ram_offset(self, address: u16) -> int {
        match self.kind {
            MbcKind::Mbc0 => 0,
            MbcKind::Mbc1 => (if self.advanced {
                self.ram_bank_number as int
            } else {
                0
            }) * 0x2000 + address % 0x2000,
            MbcKind::Mbc3 => self.ram_bank_number * 0x2000 + (address - 0xa000),
        }
    }

    /// What a read of `address` in the ROM window returns.
    pub open spec fn read_rom(self, address: u16) -> u8 {
        byte_at(self.rom, self.rom_offset(address))
    }

    /// What a read of `address` in the RAM window returns: `FF` while the
    /// RAM is disabled, 0 where there is none.
    pub open spec fn read_ram(self, address: u16) -> u8 {
        if self.kind == MbcKind::Mbc0 {
            0
        } else if self.ram_enable {
            byte_at(self.ram, self.ram_offset(address))
        } else {
            0xff
        }
    }

    /// A write into the ROM window: it never changes the ROM, it sets a
    /// register of the controller.
    pub open spec fn write_rom(self, address: u16, value: u8) -> MbcModel {
        match self.kind {
            MbcKind::Mbc0 => self,
            MbcKind::Mbc1 => if address < 0x2000 {
                MbcModel { ram_enable: value % 16 == 0x0a, ..self }
            } else if address < 0x4000 {
                MbcModel {
                    rom_bank_number: if value == 0 {
                        1
                    } else {
                        value % 32
                    },
                    ..self
                }
            } else if address < 0x6000 {
                MbcModel { ram_bank_number: value % 4, ..self }
            } else {
                MbcModel { advanced: value % 2 == 1, ..self }
            },
            MbcKind::Mbc3 => if address < 0x2000 {
                MbcModel { ram_enable: value / 8 % 2 == 1 && value / 2 % 2 == 1, ..self }
            } else if address < 0x4000 {
                MbcModel {
                    rom_bank_number: if value % 64 == 0 {
                        1
                    } else {
                        value % 64
                    },
                    ..self
                }
            } else if address < 0x6000 && value <= 0x03 {
                MbcModel { ram_bank_number: value, ..self }
            } else {
                self
            },
        }
    }

    /// A write into the RAM window, which is dropped while the RAM is
    /// disabled.
    pub open spec fn write_ram(self, address: u16, value: u8) -> MbcModel {
        let offset = self.ram_offset(address);
        if self.kind != MbcKind::Mbc0 && self.ram_enable && self.ram.len() > 0 {
            MbcModel { ram: self.ram.update(offset % (self.ram.len() as int), value), ..self }
        } else {
            self
        }
    }
}

/// What every controller offers to the address bus.
pub trait MBC {
    spec fn model(&self) -> MbcModel;

    fn read_rom(&self, address: u16) -> (value: u8)
        requires
            address <= 0x7fff,
        ensures
            value == self.model().read_rom(address),
    ;

    fn read_ram(&self, address: u16) -> (value: u8)
        requires
            0xa000 <= address <= 0xbfff,
        ensures
            value == self.model().read_ram(address),
    ;

    fn write_rom(&mut self, address: u16, value: u8)
        requires
            address <= 0x7fff,
        ensures
            final(self).model() == old(self).model().write_rom(address, value),
    ;

    fn write_ram(&mut self, address: u16, value: u8)
        requires
            0xa000 <= address <= 0xbfff,
        ensures
            final(self).model() == old(self).model().write_ram(address, value),
    ;
}

/// A byte written to enabled cartridge RAM is the byte read back, where
/// the cartridge has RAM.
pub proof fn lemma_ram_write_read(m: MbcModel, address: u16, value: u8)
    requires
        0xa000 <= address <= 0xbfff,
        m.kind != MbcKind::Mbc0,
        m.ram_enable,
        m.ram.len() > 0,
    ensures
        m.write_ram(address, value).read_ram(address) == value,
{
}

/// A write into the ROM window leaves every byte of the ROM as it was.
pub proof fn lemma_rom_is_read_only(m: MbcModel, address: u16, value: u8)
    ensures
        m.write_rom(address, value).rom == m.rom,
        m.write_rom(address, value).ram == m.ram,
        m.write_rom(address, value).kind == m.kind,
{
}

} // verus!
