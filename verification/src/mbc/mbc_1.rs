//! The MBC1 controller: a 5-bit primary and a 2-bit secondary bank
//! register, a banking mode, and RAM behind an enable latch.

use vstd::prelude::*;
use crate::bits::lemma_byte_bits;
use crate::bits::lemma_word_bits;
use crate::mbc::declared_ram_size;
use crate::mbc::initial_ram;
use crate::mbc::ram_size_from_header;
use crate::mbc::read_image;
use crate::mbc::MbcKind;
use crate::mbc::MbcModel;
use crate::mbc::MBC;
use crate::mbc::RAM_BANK_SIZE;
use crate::mbc::ROM_BANK_SIZE;

verus! {

#[derive(Clone, Copy, Debug, PartialEq, Eq, Structural)]
pub enum BankingMode {
    Simple,
    Advanced,
}

pub struct MBC1 {
    pub rom: Vec<u8>,
    pub ram: Vec<u8>,
    pub ram_enable: bool,
    pub rom_bank_number: u8,
    pub ram_bank_number: u8,
    pub banking_mode_select: BankingMode,
    pub has_battery: bool,
}

/// Whether a cartridge image declares an MBC1 with RAM and battery.
pub open spec fn declares_battery(data: Seq<u8>) -> bool {
    data.len() > 0x147 && data[0x147] == 0x03
}

impl MBC1 {
    /// The controller at power-on. `saved_ram` is what the battery kept, if
    /// anything was kept.
    pub fn new(data: Vec<u8>, saved_ram: Option<Vec<u8>>) -> (mbc: Self)
        ensures
            mbc.model() == (MbcModel {
                kind: MbcKind::Mbc1,
                rom: data@,
                ram: initial_ram(
                    declares_battery(data@),
                    match saved_ram {
                        Some(image) => Some(image@),
                        None => None,
                    },
                    declared_ram_size(data@),
                ),
                ram_enable: false,
                rom_bank_number: 1,
                ram_bank_number: 0,
                advanced: false,
                has_battery: declares_battery(data@),
            }),
    {
        let has_battery = data.len() > 0x147 && data[0x147] == 0x03;
        let ram_size = ram_size_from_header(&data);
        let ram = match saved_ram {
            Some(mut image) => {
                if has_battery && image.len() >= ram_size {
                    image.truncate(ram_size);
                    image
                } else {
                    vec![0u8; ram_size]
                }
            },
            None => vec![0u8; ram_size],
        };
        let mbc = Self {
            rom: data,
            ram,
            ram_enable: false,
            rom_bank_number: 1,
            ram_bank_number: 0,
            banking_mode_select: BankingMode::Simple,
            has_battery,
        };
        assert(mbc.model().ram =~= initial_ram(
            declares_battery(data@),
            match saved_ram {
                Some(image) => Some(image@),
                None => None,
            },
            declared_ram_size(data@),
        ));
        mbc
    }

    /// The bank of RAM in use.
    fn ram_bank(&self) -> (bank: usize)
        ensures
            bank == if self.model().advanced {
                self.ram_bank_number as int
            } else {
                0
            },
    {
        match self.banking_mode_select {
            BankingMode::Simple => 0,
            BankingMode::Advanced => self.ram_bank_number as usize,
        }
    }
}

impl MBC for MBC1 {
    open spec fn model(&self) -> MbcModel {
        MbcModel {
            kind: MbcKind::Mbc1,
            rom: self.rom@,
            ram: self.ram@,
            ram_enable: self.ram_enable,
            rom_bank_number: self.rom_bank_number,
            ram_bank_number: self.ram_bank_number,
            advanced: self.banking_mode_select == BankingMode::Advanced,
            has_battery: self.has_battery,
        }
    }

    fn read_rom(&self, address: u16) -> (value: u8) {
        proof {
            lemma_word_bits();
        }
        let upper = self.ram_bank_number as usize * 32;
        let offset = if address < 0x4000 {
            match self.banking_mode_select {
                BankingMode::Simple => address as usize,
                BankingMode::Advanced => upper * ROM_BANK_SIZE + address as usize,
            }
        } else {
            (upper + self.rom_bank_number as usize) * ROM_BANK_SIZE + (address & 0x3fff) as usize
        };
        read_image(&self.rom, offset)
    }

    fn read_ram(&self, address: u16) -> (value: u8) {
        if !self.ram_enable {
            return 0xff;
        }
        proof {
            lemma_word_bits();
        }
        let offset = self.ram_bank() * RAM_BANK_SIZE + (address & 0x1fff) as usize;
        read_image(&self.ram, offset)
    }

    fn write_rom(&mut self, address: u16, value: u8) {
        proof {
            lemma_byte_bits();
        }
        if address < 0x2000 {
            self.ram_enable = value & 0x0f == 0x0a;
        } else if address < 0x4000 {
            self.rom_bank_number = if value == 0x00 {
                0x01
            } else {
                value & 0x1f
            };
        } else if address < 0x6000 {
            self.ram_bank_number = value & 0x03;
        } else {
            self.banking_mode_select = if value & 0x01 == 0 {
                BankingMode::Simple
            } else {
                BankingMode::Advanced
            };
        }
    }

    fn write_ram(&mut self, address: u16, value: u8) {
        if !self.ram_enable {
            return ;
        }
        proof {
            lemma_word_bits();
        }
        let offset = self.ram_bank() * RAM_BANK_SIZE + (address & 0x1fff) as usize;
        let size = self.ram.len();
        if size > 0 {
            self.ram[offset % size] = value;
        }
    }
}

} // verus!
