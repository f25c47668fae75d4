//! A cartridge: its header and the controller that its header asks for.

use vstd::prelude::*;
use crate::mbc::declared_ram_size;
use crate::mbc::initial_ram;
use crate::mbc::mbc_0::MBC0;
use crate::mbc::mbc_1::MBC1;
use crate::mbc::mbc_3::MBC3;
use crate::mbc::MbcKind;
use crate::mbc::MbcModel;
use crate::mbc::MBC;

verus! {

/// First byte of the header within the cartridge image.
pub const HEADER_START: usize = 0x0100;

/// Bytes of the header: it ends at `014F`.
pub const HEADER_SIZE: usize = 0x50;

/// Offset of the title within the header, and its length.
pub const TITLE_START: usize = 0x34;

pub const TITLE_SIZE: usize = 16;

/// The controller of a cartridge, one of the kinds supported.
pub enum Controller {
    Mbc0(MBC0),
    Mbc1(MBC1),
    Mbc3(MBC3),
}

impl MBC for Controller {
    open spec fn model(&self) -> MbcModel {
        match self {
            Controller::Mbc0(mbc) => mbc.model(),
            Controller::Mbc1(mbc) => mbc.model(),
            Controller::Mbc3(mbc) => mbc.model(),
        }
    }

    fn read_rom(&self, address: u16) -> (value: u8) {
        match self {
            Controller::Mbc0(mbc) => mbc.read_rom(address),
            Controller::Mbc1(mbc) => mbc.read_rom(address),
            Controller::Mbc3(mbc) => mbc.read_rom(address),
        }
    }

    fn read_ram(&self, address: u16) -> (value: u8) {
        match self {
            Controller::Mbc0(mbc) => mbc.read_ram(address),
            Controller::Mbc1(mbc) => mbc.read_ram(address),
            Controller::Mbc3(mbc) => mbc.read_ram(address),
        }
    }

    fn write_rom(&mut self, address: u16, value: u8) {
        match self {
            Controller::Mbc0(mbc) => mbc.write_rom(address, value),
            Controller::Mbc1(mbc) => mbc.write_rom(address, value),
            Controller::Mbc3(mbc) => mbc.write_rom(address, value),
        }
    }

    fn write_ram(&mut self, address: u16, value: u8) {
        match self {
            Controller::Mbc0(mbc) => mbc.write_ram(address, value),
            Controller::Mbc1(mbc) => mbc.write_ram(address, value),
            Controller::Mbc3(mbc) => mbc.write_ram(address, value),
        }
    }
}

pub struct Cartridge {
    pub header: Vec<u8>,
    pub mbc: Controller,
}

#[verifier::ext_equal]
pub struct CartridgeModel {
    /// The 80 bytes at `0100..=014F` of the image.
    pub header: Seq<u8>,
    pub mbc: MbcModel,
}

impl View for Cartridge {
    type V = CartridgeModel;

    open spec fn view(&self) -> CartridgeModel {
        CartridgeModel { header: self.header@, mbc: self.mbc.model() }
    }
}

/// Why an image is no cartridge that this machine can run.
#[derive(Clone, Copy, Debug, PartialEq, Eq, Structural)]
pub enum CartridgeError {
    /// The image ends before its header does.
    TooShort,
    /// The header asks for a controller that is not supported.
    UnsupportedMbc { mbc: u8, rom_size: u8, ram_size: u8 },
}

/// The controller kind that the type byte at `0147` asks for.
pub open spec fn kind_of(mbc_type: u8) -> Option<MbcKind> {
    if mbc_type == 0x00 {
        Some(MbcKind::Mbc0)
    } else if mbc_type == 0x03 {
        Some(MbcKind::Mbc1)
    } else if mbc_type == 0x10 || mbc_type == 0x13 {
        Some(MbcKind::Mbc3)
    } else {
        None
    }
}

/// The controller of kind `kind` at power-on.
pub open spec fn initial_mbc(kind: MbcKind, data: Seq<u8>, saved: Option<Seq<u8>>) -> MbcModel {
    match kind {
        MbcKind::Mbc0 => MbcModel {
            kind,
            rom: data,
            ram: Seq::empty(),
            ram_enable: false,
            rom_bank_number: 0,
            ram_bank_number: 0,
            advanced: false,
            has_battery: false,
        },
        MbcKind::Mbc1 => MbcModel {
            kind,
            rom: data,
            ram: initial_ram(true, saved, declared_ram_size(data)),
            ram_enable: false,
            rom_bank_number: 1,
            ram_bank_number: 0,
            advanced: false,
            has_battery: true,
        },
        MbcKind::Mbc3 => MbcModel {
            kind,
            rom: data,
            ram: initial_ram(true, saved, declared_ram_size(data)),
            ram_enable: false,
            rom_bank_number: 1,
            ram_bank_number: 0,
            advanced: false,
            has_battery: true,
        },
    }
}

/// The cartridge that an image and a saved RAM image make, or the reason
/// why they make none.
pub open spec fn loaded(data: Seq<u8>, saved: Option<Seq<u8>>) -> Result<
    CartridgeModel,
    CartridgeError,
> {
    if data.len() < HEADER_START + HEADER_SIZE {
        Err(CartridgeError::TooShort)
    } else {
        match kind_of(data[0x147]) {
            Some(kind) => Ok(
                CartridgeModel {
                    header: data.subrange(HEADER_START as int, HEADER_START + HEADER_SIZE),
                    mbc: initial_mbc(kind, data, saved),
                },
            ),
            None => Err(
                CartridgeError::UnsupportedMbc {
                    mbc: data[0x147],
                    rom_size: data[0x148],
                    ram_size: data[0x149],
                },
            ),
        }
    }
}

/// The character that a byte of the title stands for: itself where it is
/// ASCII, else a question mark.
pub open spec fn title_char(byte: u8) -> char {
    if byte < 128 {
        byte as char
    } else {
        '?'
    }
}

/// The byte that stands in the title for `byte`: itself where it is ASCII,
/// else that of a question mark.
pub open spec fn title_byte(byte: u8) -> u8 {
    if byte < 128 {
        byte
    } else {
        0x3f
    }
}

/// The sixteen characters at `0134..=0143` of the image.
pub open spec fn title_of(header: Seq<u8>) -> Seq<char> {
    Seq::new(TITLE_SIZE as nat, |i: int| title_char(header[TITLE_START + i]))
}

/// Whether every byte is below 128.
pub open spec fn all_ascii(bytes: Seq<u8>) -> bool {
    forall|i: int| 0 <= i < bytes.len() ==> bytes[i] < 128
}

/// The characters that ASCII bytes stand for, one for one.
pub open spec fn ascii_text(bytes: Seq<u8>) -> Seq<char> {
    bytes.map_values(|b: u8| b as char)
}

/// `String::from_utf8`, for ASCII: where every byte is below 128 the text
/// exists and its characters are the bytes, one for one. Of other input
/// nothing is claimed.
#[verifier::external_body]
fn string_from_ascii(bytes: Vec<u8>) -> (text: Option<String>)
    ensures
        text is Some || !all_ascii(bytes@),
        text matches Some(t) ==> (all_ascii(bytes@) ==> t@ == ascii_text(bytes@)),
{
    String::from_utf8(bytes).ok()
}

impl CartridgeModel {
    /// The header has its 80 bytes.
    pub open spec fn wf(self) -> bool {
        self.header.len() == HEADER_SIZE
    }
}

impl Cartridge {
    /// Reads the header of `data` and builds the controller it asks for.
    /// `saved_ram` is what the cartridge's battery kept, if anything.
    pub fn from_bytes(data: Vec<u8>, saved_ram: Option<Vec<u8>>) -> (result: Result<
        Self,
        CartridgeError,
    >)
        ensures
            match result {
                Ok(cartridge) => loaded(
                    data@,
                    match saved_ram {
                        Some(image) => Some(image@),
                        None => None,
                    },
                ) == Ok::<CartridgeModel, CartridgeError>(cartridge@) && cartridge@.wf(),
                Err(error) => loaded(
                    data@,
                    match saved_ram {
                        Some(image) => Some(image@),
                        None => None,
                    },
                ) == Err::<CartridgeModel, CartridgeError>(error),
            },
    {
        if data.len() < HEADER_START + HEADER_SIZE {
            return Err(CartridgeError::TooShort);
        }
        let mut header: Vec<u8> = Vec::new();
        let mut i: usize = 0;
        while i < HEADER_SIZE
            invariant
                i <= HEADER_SIZE,
                data.len() >= HEADER_START + HEADER_SIZE,
                header@ == data@.subrange(HEADER_START as int, HEADER_START + i),
            decreases HEADER_SIZE - i,
        {
            header.push(data[HEADER_START + i]);
            assert(header@ =~= data@.subrange(HEADER_START as int, HEADER_START + i + 1));
            i += 1;
        }
        let mbc_type = data[0x147];
        let rom_size = data[0x148];
        let ram_size = data[0x149];
        let mbc = if mbc_type == 0x00 {
            Controller::Mbc0(MBC0::new(data))
        } else if mbc_type == 0x03 {
            Controller::Mbc1(MBC1::new(data, saved_ram))
        } else if mbc_type == 0x10 || mbc_type == 0x13 {
            Controller::Mbc3(MBC3::new(data, saved_ram))
        } else {
            return Err(CartridgeError::UnsupportedMbc { mbc: mbc_type, rom_size, ram_size });
        };
        Ok(Self { header, mbc })
    }

    /// The title in the header, sixteen characters with any padding.
    pub fn title(&self) -> (title: String)
        requires
            self@.wf(),
        ensures
            title@ == title_of(self@.header),
    {
        let mut bytes: Vec<u8> = Vec::new();
        let mut i: usize = 0;
        while i < TITLE_SIZE
            invariant
                i <= TITLE_SIZE,
                self@.wf(),
                bytes@ == Seq::new(i as nat, |k: int| title_byte(self@.header[TITLE_START + k])),
            decreases TITLE_SIZE - i,
        {
            let byte = self.header[TITLE_START + i];
            bytes.push(if byte < 128 { byte } else { 0x3f });
            assert(bytes@ =~= Seq::new((i + 1) as nat, |k: int| title_byte(self@.header[TITLE_START + k])));
            i += 1;
        }
        assert(ascii_text(bytes@) =~= title_of(self@.header));
        match string_from_ascii(bytes) {
            Some(title) => title,
            None => String::new(),
        }
    }

    /// The RAM that the cartridge's battery keeps alive: what has to be
    /// saved when the machine is switched off. `None` without a battery.
    pub fn battery_ram(&self) -> (ram: Option<&Vec<u8>>)
        ensures
            match ram {
                Some(image) => self@.mbc.has_battery && image@ == self@.mbc.ram,
                None => !self@.mbc.has_battery,
            },
    {
        match &self.mbc {
            Controller::Mbc0(_) => None,
            Controller::Mbc1(mbc) => if mbc.has_battery {
                Some(&mbc.ram)
            } else {
                None
            },
            Controller::Mbc3(mbc) => if mbc.has_battery {
                Some(&mbc.ram)
            } else {
                None
            },
        }
    }
}

} // verus!
