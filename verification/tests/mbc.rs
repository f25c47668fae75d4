use gameboy::cartridge::Cartridge;
use gameboy::cartridge::CartridgeError;
use gameboy::cartridge::Controller;
use gameboy::mbc::mbc_0::MBC0;
use gameboy::mbc::mbc_1::MBC1;
use gameboy::mbc::mbc_3::MBC3;
use gameboy::mbc::MBC;

fn rom_byte(offset: usize) -> u8 {
    ((offset >> 14) as u8).wrapping_mul(31).wrapping_add((offset & 0xff) as u8).wrapping_add((offset >> 8) as u8)
}

/// An image that declares the controller `mbc_type` and 32 KiB of RAM.
fn patterned_rom(size: usize, mbc_type: u8) -> Vec<u8> {
    let mut rom: Vec<u8> = (0..size).map(rom_byte).collect();
    rom[0x147] = mbc_type;
    rom[0x149] = 0x03;
    rom
}

#[test]
fn mbc0_reads_rom_in_a_straight_line() {
    let rom = patterned_rom(0x8000, 0x00);
    let mbc = MBC0::new(rom.clone());
    for address in [0x0000u16, 0x0100, 0x3fff, 0x4000, 0x7fff] {
        assert_eq!(mbc.read_rom(address), rom[address as usize]);
    }
}

#[test]
fn mbc0_ignores_writes_and_has_no_ram() {
    let rom = patterned_rom(0x8000, 0x00);
    let mut mbc = MBC0::new(rom.clone());
    mbc.write_rom(0x2000, 0x03);
    mbc.write_rom(0x0150, 0xaa);
    mbc.write_ram(0xa000, 0x55);
    assert_eq!(mbc.read_rom(0x4000), rom[0x4000]);
    assert_eq!(mbc.read_rom(0x0150), rom[0x0150]);
    assert_eq!(mbc.read_ram(0xa000), 0);
}

#[test]
fn mbc0_short_image_repeats() {
    let image: Vec<u8> = (0..0x100usize).map(|i| i as u8 ^ 0x5a).collect();
    let mbc = MBC0::new(image.clone());
    assert_eq!(mbc.read_rom(0x00ff), image[0xff]);
    assert_eq!(mbc.read_rom(0x0100), image[0x00]);
    assert_eq!(mbc.read_rom(0x7fff), image[0xff]);
    assert_eq!(mbc.read_rom(0x1234), image[0x34]);
}

#[test]
fn mbc0_without_an_image_reads_ff() {
    let mbc = MBC0::new(vec![]);
    assert_eq!(mbc.read_rom(0x0000), 0xff);
    assert_eq!(mbc.read_rom(0x7fff), 0xff);
}

#[test]
fn mbc1_bank_switch() {
    let rom = patterned_rom(0x20000, 0x03);
    let mut mbc = MBC1::new(rom.clone(), None);
    // bank 1 is in the window at power-on
    assert_eq!(mbc.read_rom(0x4000), rom[0x04000]);
    mbc.write_rom(0x2000, 0x03);
    assert_eq!(mbc.read_rom(0x4000), rom[0x0c000]);
    assert_eq!(mbc.read_rom(0x7fff), rom[0x0ffff]);
    assert_eq!(mbc.read_rom(0x0000), rom[0x00000]);
    assert_eq!(mbc.read_rom(0x3fff), rom[0x03fff]);
}

#[test]
fn mbc1_mode_1_banks_the_lower_window() {
    let rom = patterned_rom(0x200000, 0x03);
    let mut mbc = MBC1::new(rom.clone(), None);
    mbc.write_rom(0x4000, 0x01);
    // in mode 0 the secondary register does not reach the lower window
    assert_eq!(mbc.read_rom(0x0000), rom[0x00000]);
    assert_eq!(mbc.read_rom(0x0123), rom[0x00123]);
    // but it does reach the upper window: bank 0x21
    assert_eq!(mbc.read_rom(0x4000), rom[0x84000]);
    mbc.write_rom(0x6000, 0x01);
    assert_eq!(mbc.read_rom(0x0000), rom[0x80000]);
    assert_eq!(mbc.read_rom(0x0123), rom[0x80123]);
    mbc.write_rom(0x4000, 0x03);
    assert_eq!(mbc.read_rom(0x3fff), rom[0x183fff]);
    mbc.write_rom(0x2000, 0x1f);
    assert_eq!(mbc.read_rom(0x7fff), rom[0x1fffff]);
}

#[test]
fn mbc1_banks_past_the_end_of_the_image_repeat_it() {
    let rom = patterned_rom(0x20000, 0x03);
    let mut mbc = MBC1::new(rom.clone(), None);
    mbc.write_rom(0x6000, 0x01);
    mbc.write_rom(0x4000, 0x01);
    // bank 0x20 of an image of eight banks is bank 0, bank 0x21 is bank 1
    assert_eq!(mbc.read_rom(0x0000), rom[0x00000]);
    assert_eq!(mbc.read_rom(0x0123), rom[0x00123]);
    assert_eq!(mbc.read_rom(0x4000), rom[0x04000]);
    mbc.write_rom(0x2000, 0x0b);
    assert_eq!(mbc.read_rom(0x4000), rom[0x0c000]);
}

#[test]
fn mbc1_primary_register_turns_zero_into_one() {
    let rom = patterned_rom(0x20000, 0x03);
    let mut mbc = MBC1::new(rom.clone(), None);
    mbc.write_rom(0x2000, 0x02);
    assert_eq!(mbc.read_rom(0x4000), rom[0x08000]);
    mbc.write_rom(0x3fff, 0x00);
    assert_eq!(mbc.read_rom(0x4000), rom[0x04000]);
    // only the low five bits are kept
    mbc.write_rom(0x2000, 0xe5);
    assert_eq!(mbc.read_rom(0x4000), rom[0x14000]);
}

#[test]
fn mbc1_ram_needs_enabling() {
    let rom = patterned_rom(0x20000, 0x03);
    let mut mbc = MBC1::new(rom, None);
    assert_eq!(mbc.read_ram(0xa000), 0xff);
    mbc.write_ram(0xa000, 0x12);
    mbc.write_rom(0x0000, 0x0a);
    assert_eq!(mbc.read_ram(0xa000), 0x00);
    mbc.write_ram(0xa000, 0x34);
    mbc.write_ram(0xbfff, 0x56);
    assert_eq!(mbc.read_ram(0xa000), 0x34);
    assert_eq!(mbc.read_ram(0xbfff), 0x56);
    // any low nibble but A disables
    mbc.write_rom(0x1fff, 0x0b);
    assert_eq!(mbc.read_ram(0xa000), 0xff);
    mbc.write_rom(0x0000, 0xfa);
    assert_eq!(mbc.read_ram(0xa000), 0x34);
}

#[test]
fn mbc1_ram_banks_follow_the_mode() {
    let rom = patterned_rom(0x20000, 0x03);
    let mut mbc = MBC1::new(rom, None);
    mbc.write_rom(0x0000, 0x0a);
    mbc.write_ram(0xa010, 0x11);
    mbc.write_rom(0x4000, 0x02);
    // mode 0: still bank 0
    assert_eq!(mbc.read_ram(0xa010), 0x11);
    mbc.write_rom(0x6000, 0x01);
    assert_eq!(mbc.read_ram(0xa010), 0x00);
    mbc.write_ram(0xa010, 0x22);
    assert_eq!(mbc.read_ram(0xa010), 0x22);
    mbc.write_rom(0x6000, 0x00);
    assert_eq!(mbc.read_ram(0xa010), 0x11);
    assert_eq!(mbc.ram[0x4010], 0x22);
}

#[test]
fn mbc1_battery_ram_is_loaded_when_declared() {
    let mut saved = vec![0u8; 0x8000];
    saved[0] = 0x99;
    saved[0x7fff] = 0x77;
    let mut with_battery = MBC1::new(patterned_rom(0x20000, 0x03), Some(saved.clone()));
    assert!(with_battery.has_battery);
    with_battery.write_rom(0x0000, 0x0a);
    assert_eq!(with_battery.read_ram(0xa000), 0x99);
    assert_eq!(with_battery.ram.len(), 0x8000);
    assert_eq!(with_battery.ram[0x7fff], 0x77);
    let mut without_battery = MBC1::new(patterned_rom(0x20000, 0x01), Some(saved));
    assert!(!without_battery.has_battery);
    without_battery.write_rom(0x0000, 0x0a);
    assert_eq!(without_battery.read_ram(0xa000), 0x00);
}

#[test]
fn mbc1_short_save_leaves_ram_zeroed() {
    let mut mbc = MBC1::new(patterned_rom(0x20000, 0x03), Some(vec![0x55; 0x1000]));
    mbc.write_rom(0x0000, 0x0a);
    assert_eq!(mbc.read_ram(0xa000), 0x00);
    assert_eq!(mbc.ram.len(), 0x8000);
    let mut longer = MBC1::new(patterned_rom(0x20000, 0x03), Some(vec![0x55; 0x8001]));
    longer.write_rom(0x0000, 0x0a);
    assert_eq!(longer.read_ram(0xa000), 0x55);
    assert_eq!(longer.ram.len(), 0x8000);
}

#[test]
fn mbc3_banks() {
    let rom = patterned_rom(0x100000, 0x13);
    let mut mbc = MBC3::new(rom.clone(), None);
    assert!(mbc.has_battery);
    assert_eq!(mbc.read_rom(0x0000), rom[0x00000]);
    assert_eq!(mbc.read_rom(0x4000), rom[0x04000]);
    mbc.write_rom(0x2000, 0x3f);
    assert_eq!(mbc.read_rom(0x4000), rom[0xfc000]);
    assert_eq!(mbc.read_rom(0x7fff), rom[0xfffff]);
    mbc.write_rom(0x2000, 0x40);
    assert_eq!(mbc.read_rom(0x4000), rom[0x04000]);
    mbc.write_rom(0x2000, 0x00);
    assert_eq!(mbc.read_rom(0x4000), rom[0x04000]);
}

#[test]
fn mbc3_ram() {
    let mut mbc = MBC3::new(patterned_rom(0x8000, 0x10), None);
    assert_eq!(mbc.read_ram(0xa000), 0xff);
    mbc.write_rom(0x0000, 0x0a);
    mbc.write_ram(0xa000, 0x01);
    mbc.write_rom(0x4000, 0x03);
    assert_eq!(mbc.read_ram(0xa000), 0x00);
    mbc.write_ram(0xbfff, 0x04);
    assert_eq!(mbc.ram[0x7fff], 0x04);
    // values past 3 select no bank of RAM
    mbc.write_rom(0x4000, 0x05);
    mbc.write_rom(0x4000, 0x08);
    mbc.write_rom(0x4000, 0xff);
    assert_eq!(mbc.read_ram(0xbfff), 0x04);
    mbc.write_rom(0x4000, 0x00);
    assert_eq!(mbc.read_ram(0xa000), 0x01);
    mbc.write_rom(0x6000, 0x01);
    assert_eq!(mbc.read_ram(0xa000), 0x01);
}

#[test]
fn cartridge_picks_the_controller_from_the_header() {
    for (mbc_type, kind) in [(0x00u8, 0), (0x03, 1), (0x10, 3), (0x13, 3)] {
        match Cartridge::from_bytes(patterned_rom(0x8000, mbc_type), None) {
            Ok(cartridge) => match cartridge.mbc {
                Controller::Mbc0(_) => assert_eq!(kind, 0),
                Controller::Mbc1(_) => assert_eq!(kind, 1),
                Controller::Mbc3(_) => assert_eq!(kind, 3),
            },
            Err(_) => panic!("type {:#04x} is supported", mbc_type),
        }
    }
}

#[test]
fn cartridge_rejects_unsupported_controllers() {
    for mbc_type in [0x01u8, 0x02, 0x05, 0x06, 0x0f, 0x11, 0x12, 0x19, 0xff] {
        let mut rom = patterned_rom(0x8000, mbc_type);
        rom[0x148] = 0x04;
        rom[0x149] = 0x02;
        match Cartridge::from_bytes(rom, None) {
            Ok(_) => panic!("type {:#04x} is not supported", mbc_type),
            Err(error) => assert_eq!(
                error,
                CartridgeError::UnsupportedMbc { mbc: mbc_type, rom_size: 0x04, ram_size: 0x02 }
            ),
        }
    }
}

#[test]
fn cartridge_rejects_images_without_a_whole_header() {
    assert!(matches!(Cartridge::from_bytes(vec![], None), Err(CartridgeError::TooShort)));
    assert!(matches!(Cartridge::from_bytes(vec![0; 0x14f], None), Err(CartridgeError::TooShort)));
    assert!(matches!(Cartridge::from_bytes(vec![0; 0x150], None), Ok(_)));
}

#[test]
fn cartridge_title_is_read_from_the_header() {
    let mut rom = patterned_rom(0x8000, 0x00);
    for i in 0..16 {
        rom[0x134 + i] = 0;
    }
    for (i, byte) in "TETRIS".bytes().enumerate() {
        rom[0x134 + i] = byte;
    }
    match Cartridge::from_bytes(rom, None) {
        Ok(cartridge) => {
            assert_eq!(cartridge.header.len(), 0x50);
            assert_eq!(cartridge.title(), "TETRIS\0\0\0\0\0\0\0\0\0\0");
        },
        Err(_) => panic!("a plain cartridge"),
    }
}

#[test]
fn cartridge_title_shows_bytes_that_are_no_ascii_as_question_marks() {
    let mut rom = patterned_rom(0x8000, 0x00);
    for (i, byte) in "POKEMON RED     ".bytes().enumerate() {
        rom[0x134 + i] = byte;
    }
    rom[0x134 + 3] = 0x80;
    rom[0x134 + 15] = 0xff;
    match Cartridge::from_bytes(rom, None) {
        Ok(cartridge) => assert_eq!(cartridge.title(), "POK?MON RED    ?"),
        Err(_) => panic!("a plain cartridge"),
    }
}

#[test]
fn cartridge_hands_out_battery_ram() {
    match Cartridge::from_bytes(patterned_rom(0x8000, 0x00), None) {
        Ok(cartridge) => assert!(cartridge.battery_ram().is_none()),
        Err(_) => panic!("a plain cartridge"),
    }
    match Cartridge::from_bytes(patterned_rom(0x8000, 0x03), Some(vec![0x42; 0x8000])) {
        Ok(mut cartridge) => {
            cartridge.mbc.write_rom(0x0000, 0x0a);
            cartridge.mbc.write_ram(0xa001, 0x43);
            match cartridge.battery_ram() {
                Some(ram) => {
                    assert_eq!(ram.len(), 0x8000);
                    assert_eq!(ram[0], 0x42);
                    assert_eq!(ram[1], 0x43);
                },
                None => panic!("a cartridge with battery"),
            }
        },
        Err(_) => panic!("an MBC1 cartridge"),
    }
    match Cartridge::from_bytes(patterned_rom(0x8000, 0x13), None) {
        Ok(cartridge) => match cartridge.battery_ram() {
            Some(ram) => assert_eq!(ram.len(), 0x8000),
            None => panic!("a cartridge with battery"),
        },
        Err(_) => panic!("an MBC3 cartridge"),
    }
}

#[test]
fn ram_has_the_size_that_the_header_declares() {
    for (code, size) in [(0x00u8, 0usize), (0x01, 0x800), (0x02, 0x2000), (0x03, 0x8000), (0x04, 0x20000), (0x05, 0x10000), (0x06, 0), (0xff, 0)] {
        let mut rom = patterned_rom(0x8000, 0x03);
        rom[0x149] = code;
        assert_eq!(MBC1::new(rom.clone(), None).ram.len(), size);
        rom[0x147] = 0x13;
        assert_eq!(MBC3::new(rom.clone(), None).ram.len(), size);
        match Cartridge::from_bytes(rom, Some(vec![1; 0x20000])) {
            Ok(cartridge) => match cartridge.battery_ram() {
                Some(ram) => {
                    assert_eq!(ram.len(), size);
                    assert!(ram.iter().all(|byte| *byte == 1));
                },
                None => panic!("a cartridge with battery"),
            },
            Err(_) => panic!("an MBC3 cartridge"),
        }
    }
    assert_eq!(MBC1::new(vec![0x03; 0x149], None).ram.len(), 0);
}

#[test]
fn small_ram_repeats_in_every_bank() {
    let mut rom = patterned_rom(0x8000, 0x03);
    rom[0x149] = 0x02;
    let mut mbc = MBC1::new(rom, None);
    mbc.write_rom(0x0000, 0x0a);
    mbc.write_rom(0x6000, 0x01);
    mbc.write_rom(0x4000, 0x03);
    mbc.write_ram(0xa123, 0x45);
    assert_eq!(mbc.read_ram(0xa123), 0x45);
    assert_eq!(mbc.ram[0x0123], 0x45);
    mbc.write_rom(0x4000, 0x00);
    assert_eq!(mbc.read_ram(0xa123), 0x45);
}

#[test]
fn a_cartridge_without_ram_reads_ff_there() {
    let mut rom = patterned_rom(0x8000, 0x03);
    rom[0x149] = 0x00;
    let mut mbc = MBC1::new(rom.clone(), None);
    mbc.write_rom(0x0000, 0x0a);
    mbc.write_ram(0xa000, 0x12);
    assert_eq!(mbc.read_ram(0xa000), 0xff);
    rom[0x147] = 0x10;
    let mut mbc = MBC3::new(rom, None);
    mbc.write_rom(0x0000, 0x0a);
    mbc.write_ram(0xa000, 0x12);
    assert_eq!(mbc.read_ram(0xa000), 0xff);
}
