//! The cartridge without a controller: 32 KiB of ROM in a straight line.

use vstd::prelude::*;
use crate::mbc::read_image;
use crate::mbc::MbcKind;
use crate::mbc::MbcModel;
use crate::mbc::MBC;

verus! {

pub struct MBC0 {
    pub rom: Vec<u8>,
}

impl MBC0 {
    /// A cartridge whose ROM is `data`.
    pub fn new(data: Vec<u8>) -> (mbc: Self)
        ensures
            mbc.rom == data,
    {
        Self { rom: data }
    }
}

impl MBC for MBC0 {
    open spec fn model(&self) -> MbcModel {
        MbcModel {
            kind: MbcKind::Mbc0,
            rom: self.rom@,
            ram: Seq::empty(),
            ram_enable: false,
            rom_bank_number: 0,
            ram_bank_number: 0,
            advanced: false,
            has_battery: false,
        }
    }

    fn read_rom(&self, address: u16) -> (value: u8) {
        read_image(&self.rom, address as usize)
    }

    fn read_ram(&self, address: u16) -> (value: u8) {
        0
    }

    fn write_rom(&mut self, address: u16, value: u8) {
    }

    fn write_ram(&mut self, address: u16, value: u8) {
    }
}

} // verus!
