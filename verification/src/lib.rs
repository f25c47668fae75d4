//! A cycle-timed emulator core for the monochrome 8-bit handheld console:
//! CPU, address bus, pixel-processing unit, timer, joypad and memory-bank
//! controllers, each with a mathematical model and verified against it.

pub mod address_bus;
pub mod apu;
pub mod bits;
pub mod bootrom;
pub mod cartridge;
pub mod cpu;
pub mod frame_buffer;
pub mod game_boy;
pub mod instruction;
pub mod joypad;
pub mod mbc;
pub mod ppu;
pub mod registers;
pub mod timer;
