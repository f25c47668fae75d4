//! The address bus: it routes every read and write of the CPU to the unit
//! that owns the address, runs the OAM DMA, and moves the units forward in
//! time.

use vstd::prelude::*;
use crate::apu::APU;
use crate::bits::lemma_word_bits;
use crate::bootrom::Bootrom;
use crate::cartridge::Cartridge;
use crate::cartridge::CartridgeModel;
use crate::joypad::Joypad;
use crate::mbc::MbcKind;
use crate::mbc::MBC;
use crate::ppu::timing::lemma_clock_unique;
use crate::ppu::timing::lemma_cycle_position;
use crate::ppu::timing::lemma_round_twice;
use crate::ppu::timing::total;
use crate::ppu::timing::vblank_starts;
use crate::ppu::timing::vblanks_in_cycle;
use crate::ppu::PpuModel;
use crate::ppu::FRAME_TICKS;
use crate::ppu::OAM_SIZE;
use crate::ppu::PPU;
use crate::registers::high_byte;
use crate::registers::low_byte;
use crate::registers::word;
use crate::registers::wrap16;
use crate::registers::wrap8;
use crate::timer::lemma_counted_keeps;
use crate::timer::Timer;

verus! {

pub const WORK_RAM_SIZE: usize = 0x2000;

pub const HIGH_RAM_SIZE: usize = 0x7f;

pub struct AddressBus {
    pub cartridge: Cartridge,
    pub ppu: PPU,
    pub apu: APU,
    pub work_ram: [u8; WORK_RAM_SIZE],
    pub high_ram: [u8; HIGH_RAM_SIZE],
    pub interrupt_enable_register: u8,
    pub interrupt_flag: u8,
    pub joypad: Joypad,
    pub bootrom: Bootrom,
    pub timer: Timer,
}

/// Everything behind the bus as mathematics.
#[verifier::ext_equal]
pub struct BusModel {
    pub cartridge: CartridgeModel,
    pub ppu: PpuModel,
    pub work_ram: Seq<u8>,
    pub high_ram: Seq<u8>,
    /// `IE`.
    pub interrupt_enable: u8,
    /// `IF`.
    pub interrupt_flag: u8,
    pub joypad: Joypad,
    pub bootrom: Seq<u8>,
    pub bootrom_active: bool,
    pub timer: Timer,
}

impl View for AddressBus {
    type V = BusModel;

    open spec fn view(&self) -> BusModel {
        BusModel {
            cartridge: self.cartridge@,
            ppu: self.ppu@,
            work_ram: self.work_ram@,
            high_ram: self.high_ram@,
            interrupt_enable: self.interrupt_enable_register,
            interrupt_flag: self.interrupt_flag,
            joypad: self.joypad,
            bootrom: self.bootrom.data@,
            bootrom_active: self.bootrom.active,
            timer: self.timer,
        }
    }
}

impl BusModel {
    /// Every unit is well-formed and every memory has its size.
    pub open spec fn wf(self) -> bool {
        &&& self.cartridge.wf()
        &&& self.ppu.wf()
        &&& self.timer.wf()
        &&& self.work_ram.len() == WORK_RAM_SIZE
        &&& self.high_ram.len() == HIGH_RAM_SIZE
        &&& self.bootrom.len() == 0x100
    }

    /// What a read of `address` returns.
    #[verifier::opaque]
    pub open spec fn read_byte(self, address: u16) -> u8 {
        if address <= 0x00ff && self.bootrom_active {
            self.bootrom[address as int]
        } else if address <= 0x7fff {
            self.cartridge.mbc.read_rom(address)
        } else if address <= 0x9fff {
            self.ppu.read_video_ram(address)
        } else if address <= 0xbfff {
            self.cartridge.mbc.read_ram(address)
        } else if address <= 0xfdff {
            self.work_ram[address as int % 0x2000]
        } else if address <= 0xfe9f {
            self.ppu.read_oam(address)
        } else if address <= 0xfeff {
            0xff
        } else if address <= 0xff7f {
            self.io_read_byte(low_byte(address))
        } else if address <= 0xfffe {
            self.high_ram[address as int % 128]
        } else {
            self.interrupt_enable
        }
    }

    /// What a read of the I/O register at `FF00 + address` returns:
    /// registers that do not exist, or that cannot be read, give `FF`.
    #[verifier::opaque]
    pub open spec fn io_read_byte(self, address: u8) -> u8 {
        if address == 0x00 {
            self.joypad.data
        } else if 0x04 <= address <= 0x07 {
            self.timer.read_register(address)
        } else if address == 0x0f {
            self.interrupt_flag
        } else if 0x40 <= address <= 0x4b {
            self.ppu.read_register(address)
        } else {
            0xff
        }
    }

    /// The little-endian word at `address`.
    pub open spec fn read_word(self, address: u16) -> u16 {
        word(self.read_byte(wrap16(address + 1)), self.read_byte(address))
    }

    /// The state after a write of `byte` to `address`.
    #[verifier::opaque]
    pub open spec fn write_byte(self, address: u16, byte: u8) -> BusModel {
        if address <= 0x00ff && self.bootrom_active {
            self
        } else if address <= 0x7fff {
            BusModel {
                cartridge: CartridgeModel { mbc: self.cartridge.mbc.write_rom(address, byte), ..self.cartridge },
                ..self
            }
        } else if address <= 0x9fff {
            BusModel { ppu: self.ppu.write_video_ram(address, byte), ..self }
        } else if address <= 0xbfff {
            BusModel {
                cartridge: CartridgeModel { mbc: self.cartridge.mbc.write_ram(address, byte), ..self.cartridge },
                ..self
            }
        } else if address <= 0xfdff {
            BusModel { work_ram: self.work_ram.update(address as int % 0x2000, byte), ..self }
        } else if address <= 0xfe9f {
            BusModel { ppu: self.ppu.write_oam(address, byte), ..self }
        } else if address <= 0xfeff {
            self
        } else if address <= 0xff7f {
            self.io_write_byte(low_byte(address), byte)
        } else if address <= 0xfffe {
            BusModel { high_ram: self.high_ram.update(address as int % 128, byte), ..self }
        } else {
            BusModel { interrupt_enable: byte, ..self }
        }
    }

    /// The state after a write to the I/O register at `FF00 + address`.
    /// Writes to registers that do not exist are dropped.
    #[verifier::opaque]
    pub open spec fn io_write_byte(self, address: u8, byte: u8) -> BusModel {
        if address == 0x00 {
            BusModel { joypad: self.joypad.written(byte), ..self }
        } else if 0x04 <= address <= 0x07 {
            BusModel { timer: self.timer.write_register(address, byte), ..self }
        } else if address == 0x0f {
            BusModel { interrupt_flag: byte, ..self }
        } else if address == 0x46 {
            self.oam_dma(byte)
        } else if 0x40 <= address <= 0x4b {
            BusModel { ppu: self.ppu.write_register(address, byte), ..self }
        } else if address == 0x50 {
            BusModel { bootrom_active: false, ..self }
        } else {
            self
        }
    }

    /// The state after a little-endian write of `word` to `address`.
    pub open spec fn write_word(self, address: u16, word: u16) -> BusModel {
        self.write_byte(address, low_byte(word)).write_byte(wrap16(address + 1), high_byte(word))
    }

    /// The state after the DMA started by a write of `value` to `FF46`:
    /// object attribute memory holds the 160 bytes read from `value << 8`
    /// on.
    pub open spec fn oam_dma(self, value: u8) -> BusModel {
        BusModel {
            ppu: PpuModel {
                oam: Seq::new(OAM_SIZE as nat, |i: int| self.read_byte((value * 256 + i) as u16)),
                ..self.ppu
            },
            ..self
        }
    }

    /// The state after `m_cycles` machine cycles: the timer has moved
    /// `m_cycles` ticks and the pixel-processing unit four times as many,
    /// and the interrupts that timer, joypad and pixel-processing unit
    /// raised have been collected in `IF`.
    pub open spec fn cycle(self, m_cycles: u32) -> BusModel {
        let timer = self.timer.advanced(m_cycles);
        let ppu = self.ppu.cycle((4 * m_cycles) as u32);
        BusModel {
            timer: Timer { interrupt: 0, ..timer },
            joypad: Joypad { interrupt: 0, ..self.joypad },
            ppu: PpuModel { interrupt: 0, ..ppu },
            interrupt_flag: ((self.interrupt_flag | timer.interrupt) | self.joypad.interrupt) | ppu.interrupt,
            ..self
        }
    }

    /// The I/O registers as the startup program leaves them, with that
    /// program unmapped.
    pub open spec fn after_boot(self) -> BusModel {
        self.write_byte(0xff05, 0).write_byte(0xff06, 0).write_byte(0xff07, 0).write_byte(
            0xff40,
            0x91,
        ).write_byte(0xff42, 0).write_byte(0xff43, 0).write_byte(0xff45, 0).write_byte(
            0xff47,
            0xfc,
        ).write_byte(0xff48, 0xff).write_byte(0xff49, 0xff).write_byte(0xff4a, 0).write_byte(
            0xff4b,
            0,
        ).write_byte(0xff50, 1)
    }
}

impl AddressBus {
    /// The bus at power-on: all RAM zero, no interrupt enabled or
    /// requested, every unit in its initial state.
    pub open spec fn new_model(cartridge: CartridgeModel, bootrom: Bootrom) -> BusModel {
        Self::model_at_power_on(cartridge, bootrom.data@, bootrom.active)
    }

    /// The bus at power-on around the given startup program.
    pub open spec fn model_at_power_on(cartridge: CartridgeModel, bootrom: Seq<u8>, active: bool) -> BusModel {
        BusModel {
            cartridge,
            ppu: PPU::new_model(),
            work_ram: Seq::new(WORK_RAM_SIZE as nat, |i: int| 0u8),
            high_ram: Seq::new(HIGH_RAM_SIZE as nat, |i: int| 0u8),
            interrupt_enable: 0,
            interrupt_flag: 0,
            joypad: Joypad { data: 0xff, action_row: 0x0f, d_pad_row: 0x0f, interrupt: 0 },
            bootrom,
            bootrom_active: active,
            timer: Timer::initial(),
        }
    }

    /// The bus at power-on.
    pub fn new(cart: Cartridge, bootrom: Bootrom) -> (bus: Self)
        requires
            cart@.wf(),
        ensures
            bus@.wf(),
            bus@ == AddressBus::new_model(cart@, bootrom),
    {
        let bus = Self {
            cartridge: cart,
            ppu: PPU::new(),
            apu: APU::new(),
            work_ram: [0; WORK_RAM_SIZE],
            high_ram: [0; HIGH_RAM_SIZE],
            interrupt_enable_register: 0,
            interrupt_flag: 0,
            joypad: Joypad::new(),
            bootrom,
            timer: Timer::new(),
        };
        assert(bus@ =~= AddressBus::new_model(cart@, bootrom));
        bus
    }

    /// Moves timer and pixel-processing unit forward and collects their
    /// interrupts. Returns the master ticks that passed, four per machine
    /// cycle.
    pub fn cycle(&mut self, m_cycles: u32) -> (t_cycles: u32)
        requires
            old(self)@.wf(),
            4 * m_cycles <= u32::MAX,
        ensures
            final(self)@ == old(self)@.cycle(m_cycles),
            final(self)@.wf(),
            t_cycles == 4 * m_cycles,
    {
        self.timer.cycle(m_cycles);
        self.interrupt_flag |= self.timer.interrupt;
        self.timer.interrupt = 0;

        self.interrupt_flag |= self.joypad.interrupt;
        self.joypad.interrupt = 0;

        let t_cycles = 4 * m_cycles;
        self.ppu.cycle(t_cycles);
        self.interrupt_flag |= self.ppu.interrupt;
        self.ppu.interrupt = 0;
        t_cycles
    }

    /// Reads the byte at `address`.
    pub fn read_byte(&self, address: u16) -> (value: u8)
        requires
            self@.wf(),
        ensures
            value == self@.read_byte(address),
    {
        reveal(BusModel::read_byte);
        assert(address & 0x1fff == address % 0x2000 && address & 0x00ff == address % 256 && address & 0x007f
            == address % 128) by {
            lemma_word_bits();
        }
        match address {
            0x0000..=0x00ff if self.bootrom.is_active() => self.bootrom.index(address),
            0x0000..=0x7fff => self.cartridge.mbc.read_rom(address),
            0x8000..=0x9fff => self.ppu.read_video_ram(address),
            0xa000..=0xbfff => self.cartridge.mbc.read_ram(address),
            0xc000..=0xfdff => self.work_ram[(address & 0x1fff) as usize],
            0xfe00..=0xfe9f => self.ppu.read_oam(address),
            0xfea0..=0xfeff => 0xff,
            0xff00..=0xff7f => self.io_read_byte((address & 0x00ff) as u8),
            0xff80..=0xfffe => self.high_ram[(address & 0x007f) as usize],
            0xffff => self.interrupt_enable_register,
        }
    }

    /// Reads the I/O register at `FF00 + address`.
    pub fn io_read_byte(&self, address: u8) -> (value: u8)
        requires
            self@.wf(),
        ensures
            value == self@.io_read_byte(address),
    {
        reveal(BusModel::io_read_byte);
        match address {
            0x00 => self.joypad.read_byte(),
            0x04..=0x07 => self.timer.read_byte(address),
            0x0f => self.interrupt_flag,
            0x10..=0x26 => self.apu.read_byte(address),
            0x30..=0x3f => self.apu.read_wave_byte(address),
            0x40..=0x4b => self.ppu.read_byte(address),
            _ => 0xff,
        }
    }

    /// Writes `byte` to `address`.
    pub fn write_byte(&mut self, address: u16, byte: u8)
        requires
            old(self)@.wf(),
        ensures
            final(self)@ == old(self)@.write_byte(address, byte),
            final(self)@.wf(),
    {
        reveal(BusModel::write_byte);
        assert(address & 0x1fff == address % 0x2000 && address & 0x00ff == address % 256 && address & 0x007f
            == address % 128) by {
            lemma_word_bits();
        }
        match address {
            0x0000..=0x00ff if self.bootrom.is_active() => (),
            0x0000..=0x7fff => self.cartridge.mbc.write_rom(address, byte),
            0x8000..=0x9fff => self.ppu.write_video_ram(address, byte),
            0xa000..=0xbfff => self.cartridge.mbc.write_ram(address, byte),
            0xc000..=0xfdff => {
                self.work_ram[(address & 0x1fff) as usize] = byte;
            },
            0xfe00..=0xfe9f => self.ppu.write_oam(address, byte),
            0xfea0..=0xfeff => (),
            0xff00..=0xff7f => self.io_write_byte((address & 0x00ff) as u8, byte),
            0xff80..=0xfffe => {
                self.high_ram[(address & 0x007f) as usize] = byte;
            },
            0xffff => {
                self.interrupt_enable_register = byte;
            },
        }
    }

    /// Writes `byte` to the I/O register at `FF00 + address`.
    pub fn io_write_byte(&mut self, address: u8, byte: u8)
        requires
            old(self)@.wf(),
        ensures
            final(self)@ == old(self)@.io_write_byte(address, byte),
            final(self)@.wf(),
    {
        reveal(BusModel::io_write_byte);
        match address {
            0x00 => self.joypad.write_byte(byte),
            0x01..=0x02 => self.write_serial(byte),
            0x04..=0x07 => self.timer.write_byte(address, byte),
            0x0f => {
                self.interrupt_flag = byte;
            },
            0x10..=0x26 => self.apu.write_byte(address, byte),
            0x30..=0x3f => self.apu.write_wave_byte(address, byte),
            0x40..=0x45 | 0x47..=0x4b => self.ppu.write_byte(address, byte),
            0x46 => self.oam_dma(byte),
            0x50 => self.bootrom.deactivate(),
            _ => (),
        }
    }

    /// Reads the little-endian word at `address`.
    pub fn read_word(&self, address: u16) -> (value: u16)
        requires
            self@.wf(),
        ensures
            value == self@.read_word(address),
    {
        let low = self.read_byte(address);
        let next = address.wrapping_add(1);
        assert(next == wrap16(address + 1));
        let high = self.read_byte(next);
        assert((((high as u16) << 8) | (low as u16)) == word(high, low)) by {
            lemma_word_bits();
        }
        ((high as u16) << 8) | (low as u16)
    }

    /// Writes `word` to `address`, low byte first.
    pub fn write_word(&mut self, address: u16, word: u16)
        requires
            old(self)@.wf(),
        ensures
            final(self)@ == old(self)@.write_word(address, word),
            final(self)@.wf(),
    {
        let low = (word & 0xff) as u8;
        let high = (word >> 8) as u8;
        let next = address.wrapping_add(1);
        assert(low == low_byte(word) && high == high_byte(word)) by {
            lemma_word_bits();
        }
        assert(next == wrap16(address + 1));
        self.write_byte(address, low);
        self.write_byte(next, high);
    }

    /// The serial port is not emulated: what is sent is dropped.
    fn write_serial(&self, byte: u8) {
    }

    /// Copies the 160 bytes from `value << 8` on into object attribute memory.
    pub fn oam_dma(&mut self, value: u8)
        requires
            old(self)@.wf(),
        ensures
            final(self)@ == old(self)@.oam_dma(value),
            final(self)@.wf(),
    {
        reveal(BusModel::read_byte);
        let base = (value as u16) * 256;
        let mut i: u16 = 0;
        while i < 0xa0
            invariant
                i <= 0xa0,
                base == value * 256,
                old(self)@.wf(),
                self@.wf(),
                self@ == (BusModel { ppu: PpuModel { oam: self@.ppu.oam, ..old(self)@.ppu }, ..old(self)@ }),
                forall|j: int| 0 <= j < i ==> self@.ppu.oam[j] == old(self)@.read_byte((base + j) as u16),
                forall|j: int| i <= j < OAM_SIZE ==> self@.ppu.oam[j] == old(self)@.ppu.oam[j],
            decreases 0xa0 - i,
        {
            proof {
                reveal(BusModel::read_byte);
                reveal(BusModel::io_read_byte);
            }
            let sprite = self.read_byte(base + i);
            assert(sprite == old(self)@.read_byte((base + i) as u16));
            self.ppu.dma_write_oam(i, sprite);
            i += 1;
        }
        assert(self@.ppu.oam =~= old(self)@.oam_dma(value).ppu.oam);
    }

    /// Installs the values that the startup program leaves in the I/O
    /// registers and unmaps that program.
    pub fn set_initial(&mut self)
        requires
            old(self)@.wf(),
        ensures
            final(self)@ == old(self)@.after_boot(),
            final(self)@.wf(),
    {
        reveal(BusModel::write_byte);
        reveal(BusModel::io_write_byte);
        self.write_byte(0xff05, 0);
        self.write_byte(0xff06, 0);
        self.write_byte(0xff07, 0);
        self.write_byte(0xff10, 0x80);
        self.write_byte(0xff11, 0xbf);
        self.write_byte(0xff12, 0xf3);
        self.write_byte(0xff14, 0xbf);
        self.write_byte(0xff16, 0x3f);
        self.write_byte(0xff17, 0);
        self.write_byte(0xff19, 0xbf);
        self.write_byte(0xff1a, 0x7f);
        self.write_byte(0xff1b, 0xff);
        self.write_byte(0xff1c, 0x9f);
        self.write_byte(0xff1e, 0xff);
        self.write_byte(0xff20, 0xff);
        self.write_byte(0xff21, 0);
        self.write_byte(0xff22, 0);
        self.write_byte(0xff23, 0xbf);
        self.write_byte(0xff24, 0x77);
        self.write_byte(0xff25, 0xf3);
        self.write_byte(0xff26, 0xf1);
        self.write_byte(0xff40, 0x91);
        self.write_byte(0xff42, 0);
        self.write_byte(0xff43, 0);
        self.write_byte(0xff45, 0);
        self.write_byte(0xff47, 0xfc);
        self.write_byte(0xff48, 0xff);
        self.write_byte(0xff49, 0xff);
        self.write_byte(0xff4a, 0);
        self.write_byte(0xff4b, 0);
        self.write_byte(0xff50, 1);
    }
}

/// Whether `address` is a cell of work RAM, reached directly or through
/// its echo, or of high RAM.
pub open spec fn is_plain_ram(address: u16) -> bool {
    0xc000 <= address <= 0xfdff || 0xff80 <= address <= 0xfffe
}

impl BusModel {
    /// Whether `address` is a cell of memory that the CPU can reach right
    /// now: work RAM and its echo, high RAM, cartridge RAM where the
    /// cartridge has any and it is enabled, video RAM outside drawing,
    /// object attribute memory outside its scan and drawing.
    pub open spec fn is_open_memory(self, address: u16) -> bool {
        ||| is_plain_ram(address)
        ||| (0xa000 <= address <= 0xbfff && self.cartridge.mbc.kind != MbcKind::Mbc0
            && self.cartridge.mbc.ram.len() > 0 && self.cartridge.mbc.ram_enable)
        ||| (0x8000 <= address <= 0x9fff && self.ppu.video_ram_open())
        ||| (0xfe00 <= address <= 0xfe9f && self.ppu.oam_open())
    }
}

/// The unusable region `FEA0..=FEFF` reads as `FF` and drops what is
/// written to it.
pub proof fn lemma_unusable_region(m: BusModel, address: u16, byte: u8)
    requires
        0xfea0 <= address <= 0xfeff,
    ensures
        m.read_byte(address) == 0xff,
        m.write_byte(address, byte) == m,
{
    reveal(BusModel::read_byte);
    reveal(BusModel::write_byte);
}

/// The startup program is a latch: a write to `FF50` unmaps it, and no
/// write maps it in again. While it is mapped, reads below `0100` come
/// from it; afterwards they come from the cartridge.
pub proof fn lemma_bootrom_latch(m: BusModel, address: u16, byte: u8, low: u16)
    requires
        m.wf(),
        low <= 0x00ff,
    ensures
        !m.write_byte(0xff50, byte).bootrom_active,
        !m.bootrom_active ==> !m.write_byte(address, byte).bootrom_active,
        m.bootrom_active ==> m.read_byte(low) == m.bootrom[low as int],
        !m.bootrom_active ==> m.read_byte(low) == m.cartridge.mbc.read_rom(low),
{
    reveal(BusModel::read_byte);
    reveal(BusModel::write_byte);
    reveal(BusModel::io_write_byte);
}

/// A byte written to memory that the CPU can reach is the byte read back
/// from the same address.
pub proof fn lemma_write_read(m: BusModel, address: u16, byte: u8)
    requires
        m.wf(),
        m.is_open_memory(address),
    ensures
        m.write_byte(address, byte).read_byte(address) == byte,
{
    reveal(BusModel::read_byte);
    reveal(BusModel::write_byte);
}

/// A write to plain RAM changes what no other cell of plain RAM reads as,
/// nor anything outside the two RAMs.
pub proof fn lemma_write_elsewhere(m: BusModel, address: u16, byte: u8, other: u16)
    requires
        m.wf(),
        is_plain_ram(address),
        is_plain_ram(other),
        other as int % 0x2000 != address as int % 0x2000 || (address >= 0xff80) != (other >= 0xff80),
    ensures
        m.write_byte(address, byte).read_byte(other) == m.read_byte(other),
        m.write_byte(address, byte) == (BusModel {
            work_ram: m.write_byte(address, byte).work_ram,
            high_ram: m.write_byte(address, byte).high_ram,
            ..m
        }),
{
    reveal(BusModel::read_byte);
    reveal(BusModel::write_byte);
}

/// A word written to plain RAM is the word read back from the same
/// address.
pub proof fn lemma_write_read_word(m: BusModel, address: u16, value: u16)
    requires
        m.wf(),
        is_plain_ram(address),
        is_plain_ram(wrap16(address + 1)),
    ensures
        m.write_word(address, value).read_word(address) == value,
{
    reveal(BusModel::read_byte);
    reveal(BusModel::write_byte);
    let next = wrap16(address + 1);
    let first = m.write_byte(address, low_byte(value));
    let second = first.write_byte(next, high_byte(value));
    assert(second.read_byte(next) == high_byte(value));
    assert(second.read_byte(address) == low_byte(value));
    assert(word(high_byte(value), low_byte(value)) == value);
}

/// The bus after one `cycle` for each entry of `m_cycles`, the machine
/// cycles of a sequence of instructions.
pub open spec fn cycled(m: BusModel, m_cycles: Seq<u32>) -> BusModel
    decreases m_cycles.len(),
{
    if m_cycles.len() == 0 {
        m
    } else {
        cycled(m.cycle(m_cycles[0]), m_cycles.drop_first())
    }
}

/// How often the vertical blank begins during the cycles of `cycled`.
pub open spec fn vblanks_raised(m: BusModel, m_cycles: Seq<u32>) -> nat
    decreases m_cycles.len(),
{
    if m_cycles.len() == 0 {
        0
    } else {
        vblanks_in_cycle(m.ppu, (4 * m_cycles[0]) as u32) + vblanks_raised(
            m.cycle(m_cycles[0]),
            m_cycles.drop_first(),
        )
    }
}

/// A cycle of the bus keeps it well-formed, and the vertical-blank
/// interrupt is requested afterwards where it was requested before or the
/// vertical blank began, provided that nothing but the pixel-processing
/// unit raises it.
pub proof fn lemma_cycle(m: BusModel, m_cycles: u32)
    requires
        m.wf(),
        4 * m_cycles <= u32::MAX,
    ensures
        m.cycle(m_cycles).wf(),
        m.cycle(m_cycles).ppu == (PpuModel { interrupt: 0, ..m.ppu.cycle((4 * m_cycles) as u32) }),
        (m.timer.interrupt & 0x01 == 0 && m.joypad.interrupt & 0x01 == 0 && m.ppu.interrupt & 0x01 == 0
            && m.ppu.settled() && m.ppu.control.lcd_enable()) ==> (m.cycle(m_cycles).interrupt_flag & 0x01
            == 0x01 <==> (m.interrupt_flag & 0x01 == 0x01 || vblanks_in_cycle(
            m.ppu,
            (4 * m_cycles) as u32,
        ) > 0)),
{
    let timer = m.timer.advanced(m_cycles);
    let ppu = m.ppu.cycle((4 * m_cycles) as u32);
    crate::ppu::timing::lemma_cycle(m.ppu, (4 * m_cycles) as u32);
    if m.timer.enable {
        let divided = m.timer.internal_divider + m_cycles;
        let after = Timer {
            divider: wrap8(m.timer.divider + divided / 256),
            internal_divider: (divided % 256) as u32,
            ..m.timer
        };
        lemma_counted_keeps(after, ((m.timer.internal_counter + m_cycles) / (m.timer.step as int)) as nat);
    }
    assert(timer.step == m.timer.step);
    if m.ppu.settled() && m.ppu.control.lcd_enable() {
        lemma_cycle_position(m.ppu, (4 * m_cycles) as u32);
    }
    if m.timer.interrupt & 0x01 == 0 {
        lemma_timer_interrupt(m.timer, m_cycles);
    }
    let f = m.interrupt_flag;
    let t = timer.interrupt;
    let j = m.joypad.interrupt;
    let p = ppu.interrupt;
    assert((t & 0x01 == 0 && j & 0x01 == 0) ==> ((((f | t) | j) | p) & 0x01 == 0x01 <==> (f & 0x01 == 0x01
        || p & 0x01 == 0x01))) by (bit_vector);
}

/// The timer raises no interrupt but its own.
pub proof fn lemma_timer_interrupt(timer: Timer, t_cycles: u32)
    requires
        timer.interrupt & 0x01 == 0,
    ensures
        timer.advanced(t_cycles).interrupt & 0x01 == 0,
{
    let divided = timer.internal_divider + t_cycles;
    let after = Timer {
        divider: wrap8(timer.divider + divided / 256),
        internal_divider: (divided % 256) as u32,
        ..timer
    };
    if timer.enable {
        lemma_counted_interrupt(after, ((timer.internal_counter + t_cycles) / (timer.step as int)) as nat);
    }
}

proof fn lemma_counted_interrupt(timer: Timer, steps: nat)
    requires
        timer.interrupt & 0x01 == 0,
    ensures
        timer.counted(steps).interrupt & 0x01 == 0,
    decreases steps,
{
    if steps > 0 {
        let i = timer.interrupt;
        assert(i & 0x01 == 0 ==> (i | 0x04) & 0x01 == 0) by (bit_vector);
        lemma_counted_interrupt(timer.ticked(), (steps - 1) as nat);
    }
}

/// Cycle by cycle the pixel-processing unit moves round the frame by four
/// ticks to the machine cycle.
pub proof fn lemma_cycled(m: BusModel, m_cycles: Seq<u32>)
    requires
        m.wf(),
        m.ppu.settled(),
        m.ppu.control.lcd_enable(),
        4 * total(m_cycles) <= u32::MAX,
    ensures
        cycled(m, m_cycles).wf(),
        cycled(m, m_cycles).ppu.settled(),
        cycled(m, m_cycles).ppu.control == m.ppu.control,
        cycled(m, m_cycles).ppu.position() == (m.ppu.position() + 4 * total(m_cycles)) % (FRAME_TICKS as int),
        vblanks_raised(m, m_cycles) == vblank_starts(m.ppu.position(), 4 * total(m_cycles) as int),
    decreases m_cycles.len(),
{
    lemma_cycle_position(m.ppu, 0);
    if m_cycles.len() > 0 {
        let first = m_cycles[0];
        let rest = m_cycles.drop_first();
        lemma_cycle(m, first);
        lemma_cycle_position(m.ppu, (4 * first) as u32);
        lemma_cycled(m.cycle(first), rest);
        lemma_round_twice(m.ppu.position(), 4 * first as int, 4 * total(rest) as int);
    }
}

/// The frame-cycle budget. With the LCD on, a sequence of instructions
/// whose machine cycles sum to 17556 takes the pixel-processing unit once
/// round the frame: after the cycle of the bus that follows each of them
/// it stands on the scanline, in the mode and at the tick from which it
/// set out, and the vertical blank has begun exactly once.
pub proof fn lemma_frame_budget(m: BusModel, m_cycles: Seq<u32>)
    requires
        m.wf(),
        m.ppu.settled(),
        m.ppu.control.lcd_enable(),
        total(m_cycles) == 17556,
    ensures
        cycled(m, m_cycles).ppu.ly == m.ppu.ly,
        cycled(m, m_cycles).ppu.mode == m.ppu.mode,
        cycled(m, m_cycles).ppu.t_cycles == m.ppu.t_cycles,
        vblanks_raised(m, m_cycles) == 1,
{
    lemma_cycled(m, m_cycles);
    lemma_cycle_position(m.ppu, 0);
    let end = cycled(m, m_cycles).ppu;
    assert(end.position() == m.ppu.position());
    lemma_clock_unique(end.clock(), end.t_cycles, m.ppu.clock(), m.ppu.t_cycles);
    assert(vblank_starts(m.ppu.position(), 4 * 17556int) == 1);
}

} // verus!
