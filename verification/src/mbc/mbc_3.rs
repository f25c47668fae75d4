//! The MBC3 controller, without its clock: a 6-bit ROM bank register and
//! four banks of RAM behind an enable latch.

use vstd::prelude::*;
use crate::bits::lemma_byte_bits;
use crate::mbc::declared_ram_size;
use crate::mbc::initial_ram;
use crate::mbc::ram_size_from_header;
use crate::mbc::read_image;
use crate::mbc::MbcKind;
use crate::mbc::MbcModel;
use crate::mbc::MBC;
use crate::mbc::RAM_BANK_SIZE;
use crate::mbc::ROM_BANK_SIZE;

verus! {

pub struct MBC3 {
    pub rom: Vec<u8>,
    pub ram: Vec<u8>,
    pub ram_enable: bool,
    pub rom_bank_number: u8,
    pub ram_bank_number: u8,
    pub has_battery: bool,
}

/// Whether a cartridge image declares an MBC3 with a battery.
pub open spec fn declares_battery(data: Seq<u8>) -> bool {
    data.len() > 0x147 && (data[0x147] == 0x10 || data[0x147] == 0x13)
}

impl MBC3 {
    /// The controller at power-on. `saved_ram` is what the battery kept, if
    /// anything was kept.
    pub fn new(data: Vec<u8>, saved_ram: Option<Vec<u8>>) -> (mbc: Self)
        ensures
            mbc.model() == (MbcModel {
                kind: MbcKind::Mbc3,
                rom: data@,
                ram: initial_ram(
                    declares_battery(data@),
                    match saved_ram {
                        Some(image) => Some(image@),
                        None => None,
                    },
                    declared_ram_size(data@),
                ),
                ram_enable: false,
                rom_bank_number: 1,
                ram_bank_number: 0,
                advanced: false,
                has_battery: declares_battery(data@),
            }),
    {
        let has_battery = data.len() > 0x147 && (data[0x147] == 0x10 || data[0x147] == 0x13);
        let ram_size = ram_size_from_header(&data);
        let ram = match saved_ram {
            Some(mut image) => {
                if has_battery && image.len() >= ram_size {
                    image.truncate(ram_size);
                    image
                } else {
                    vec![0u8; ram_size]
                }
            },
            None => vec![0u8; ram_size],
        };
        let mbc = Self {
            rom: data,
            ram,
            ram_enable: false,
            rom_bank_number: 1,
            ram_bank_number: 0,
            has_battery,
        };
        assert(mbc.model().ram =~= initial_ram(
            declares_battery(data@),
            match saved_ram {
                Some(image) => Some(image@),
                None => None,
            },
            declared_ram_size(data@),
        ));
        mbc
    }
}

impl MBC for MBC3 {
    open spec fn model(&self) -> MbcModel {
        MbcModel {
            kind: MbcKind::Mbc3,
            rom: self.rom@,
            ram: self.ram@,
            ram_enable: self.ram_enable,
            rom_bank_number: self.rom_bank_number,
            ram_bank_number: self.ram_bank_number,
            advanced: false,
            has_battery: self.has_battery,
        }
    }

    fn read_rom(&self, address: u16) -> (value: u8) {
        let offset = if address < 0x4000 {
            address as usize
        } else {
            ROM_BANK_SIZE * self.rom_bank_number as usize + (address as usize - 0x4000)
        };
        read_image(&self.rom, offset)
    }

    fn read_ram(&self, address: u16) -> (value: u8) {
        if !self.ram_enable {
            return 0xff;
        }
        let offset = RAM_BANK_SIZE * self.ram_bank_number as usize + (address as usize - 0xa000);
        read_image(&self.ram, offset)
    }

    fn write_rom(&mut self, address: u16, value: u8) {
        proof {
            lemma_byte_bits();
        }
        if address < 0x2000 {
            self.ram_enable = value & 0x0a == 0x0a;
        } else if address < 0x4000 {
            let bank_number = value & 0x3f;
            if bank_number == 0 {
                self.rom_bank_number = 1;
            } else {
                self.rom_bank_number = bank_number;
            }
        } else if address < 0x6000 {
            if value <= 0x03 {
                self.ram_bank_number = value;
            }
        }
    }

    fn write_ram(&mut self, address: u16, value: u8) {
        if !self.ram_enable {
            return ;
        }
        let offset = RAM_BANK_SIZE * self.ram_bank_number as usize + (address as usize - 0xa000);
        let size = self.ram.len();
        if size > 0 {
            self.ram[offset % size] = value;
        }
    }
}

} // verus!
