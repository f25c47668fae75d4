//! The whole console: one step runs the CPU for an instruction and lets
//! the rest of the machine catch up.

use vstd::prelude::*;
use vstd::slice::slice_to_vec;
use crate::address_bus::AddressBus;
use crate::address_bus::BusModel;
use crate::bootrom::Bootrom;
use crate::bootrom::BOOTROM_SIZE;
use crate::cartridge::loaded;
use crate::cartridge::title_of;
use crate::cartridge::Cartridge;
use crate::cartridge::CartridgeError;
use crate::cartridge::CartridgeModel;
use crate::cpu::interrupt_master_enable::InterruptMasterEnable;
use crate::cpu::CpuError;
use crate::cpu::CpuModel;
use crate::cpu::CPU;
use crate::instruction::lemma_decoded_cycles;
use crate::joypad::JoypadKey;
use crate::ppu::PpuModel;
use crate::ppu::FRAME_SIZE;
use crate::registers::Registers;

verus! {

/// Machine cycles of one frame: 70224 master ticks, four to the cycle.
pub const CYCLES_PER_FRAME: u32 = 17556;

pub struct GameBoy {
    pub cpu: CPU,
}

impl View for GameBoy {
    type V = CpuModel;

    open spec fn view(&self) -> CpuModel {
        self.cpu@
    }
}

/// Every cycle of the CPU that succeeds takes one to six machine cycles.
pub proof fn lemma_cycle_length(m: CpuModel)
    ensures
        m.cycle().1 matches Ok(cycles) ==> 1 <= cycles <= 6,
{
    let (handled, spent) = m.handle_interrupts();
    if spent == 0 && !handled.is_halted {
        let (fetched, opcode) = handled.fetch_byte();
        if opcode == 0xcb {
            let second = fetched.fetch_byte().1;
            lemma_decoded_cycles(second, true, false);
            lemma_decoded_cycles(second, true, true);
        } else {
            lemma_decoded_cycles(opcode, false, false);
            lemma_decoded_cycles(opcode, false, true);
        }
    }
}

/// The machine after one instruction or interrupt, with timer and
/// pixel-processing unit moved forward by the machine cycles it took, and
/// those cycles. After an opcode that names no instruction the rest of the
/// machine stands still.
#[verifier::opaque]
pub open spec fn emulated(m: CpuModel) -> (CpuModel, Result<u32, CpuError>) {
    let (stepped, result) = m.cycle();
    match result {
        Ok(cycles) => (CpuModel { bus: stepped.bus.cycle(cycles), ..stepped }, result),
        Err(_) => (stepped, result),
    }
}

/// Every step of the machine that succeeds takes one to six machine
/// cycles.
pub proof fn lemma_emulated_length(m: CpuModel)
    ensures
        emulated(m).1 matches Ok(cycles) ==> 1 <= cycles <= 6,
{
    reveal(emulated);
    lemma_cycle_length(m);
}

/// The machine after it has run until `cycles`, the machine cycles spent
/// in the current frame, reach the length of a frame, and the cycles by
/// which it overshot: they count towards the next frame.
pub open spec fn frame_run(m: CpuModel, cycles: u32) -> (CpuModel, Result<u32, CpuError>)
    decreases CYCLES_PER_FRAME + 6 - cycles,
{
    if cycles >= CYCLES_PER_FRAME {
        (m, Ok((cycles - CYCLES_PER_FRAME) as u32))
    } else {
        let (next, result) = emulated(m);
        match result {
            Ok(spent) => {
                proof {
                    lemma_emulated_length(m);
                    assert(1 <= spent <= 6);
                }
                frame_run(next, (cycles + spent) as u32)
            },
            Err(_) => (next, result),
        }
    }
}

/// The machine that a cartridge image makes. With a startup program it is
/// at power-on, about to run that program; without one it is in the state
/// that the program leaves behind.
pub open spec fn started(cartridge: CartridgeModel, bootrom: Option<Seq<u8>>) -> CpuModel {
    match bootrom {
        Some(data) => CpuModel {
            registers: Registers { pc: 0, ..Registers::after_boot() },
            bus: AddressBus::model_at_power_on(cartridge, data, true),
            is_halted: false,
            ime: InterruptMasterEnable { value: true, enable_counter: 0, disable_counter: 0 },
        },
        None => CpuModel {
            registers: Registers::after_boot(),
            bus: AddressBus::model_at_power_on(
                cartridge,
                Seq::new(BOOTROM_SIZE as nat, |i: int| 0u8),
                true,
            ).after_boot(),
            is_halted: false,
            ime: InterruptMasterEnable { value: true, enable_counter: 0, disable_counter: 0 },
        },
    }
}

impl GameBoy {
    /// Builds the console around a cartridge image. `saved_ram` is what
    /// the cartridge's battery kept; `bootrom` the startup program, or
    /// `None` to start where that program ends.
    pub fn new(rom: Vec<u8>, saved_ram: Option<Vec<u8>>, bootrom: Option<[u8; BOOTROM_SIZE]>) -> (result:
        Result<Box<Self>, CartridgeError>)
        ensures
            match result {
                Ok(game_boy) => {
                    &&& game_boy@.wf()
                    &&& loaded(
                        rom@,
                        match saved_ram {
                            Some(image) => Some(image@),
                            None => None,
                        },
                    ) is Ok
                    &&& game_boy@ == started(
                        loaded(
                            rom@,
                            match saved_ram {
                                Some(image) => Some(image@),
                                None => None,
                            },
                        )->Ok_0,
                        match bootrom {
                            Some(data) => Some(data@),
                            None => None,
                        },
                    )
                },
                Err(error) => loaded(
                    rom@,
                    match saved_ram {
                        Some(image) => Some(image@),
                        None => None,
                    },
                ) == Err::<CartridgeModel, CartridgeError>(error),
            },
    {
        let cartridge = match Cartridge::from_bytes(rom, saved_ram) {
            Ok(cartridge) => cartridge,
            Err(error) => {
                return Err(error);
            },
        };
        let cpu = match bootrom {
            Some(data) => CPU::new(cartridge, Bootrom::new(data)),
            None => {
                let empty = Bootrom::new([0; BOOTROM_SIZE]);
                assert(empty.data@ =~= Seq::new(BOOTROM_SIZE as nat, |i: int| 0u8));
                CPU::new_after_boot(cartridge, empty)
            },
        };
        Ok(Box::new(Self { cpu }))
    }

    /// Runs one instruction, or takes one interrupt, and moves the rest of
    /// the machine forward by the machine cycles spent, which it returns.
    pub fn emulate(&mut self) -> (result: Result<u32, CpuError>)
        requires
            old(self)@.wf(),
        ensures
            (final(self)@, result) == emulated(old(self)@),
            final(self)@.wf(),
            result matches Ok(cycles) ==> 1 <= cycles <= 6,
    {
        reveal(emulated);
        match self.cpu.cycle() {
            Ok(m_cycles) => {
                self.cpu.bus.cycle(m_cycles);
                Ok(m_cycles)
            },
            Err(error) => Err(error),
        }
    }

    /// Runs the machine to the end of the current frame. `cycles` are the
    /// machine cycles by which the last frame overshot; returned are those
    /// by which this one did.
    pub fn run_frame(&mut self, cycles: u32) -> (result: Result<u32, CpuError>)
        requires
            old(self)@.wf(),
        ensures
            (final(self)@, result) == frame_run(old(self)@, cycles),
            final(self)@.wf(),
    {
        let mut cpu_cycles = cycles;
        while cpu_cycles < CYCLES_PER_FRAME
            invariant
                self@.wf(),
                frame_run(self@, cpu_cycles) == frame_run(old(self)@, cycles),
            decreases CYCLES_PER_FRAME + 6 - cpu_cycles,
        {
            match self.emulate() {
                Ok(spent) => {
                    cpu_cycles += spent;
                },
                Err(error) => {
                    return Err(error);
                },
            }
        }
        Ok(cpu_cycles - CYCLES_PER_FRAME)
    }

    /// The picture, if anything was drawn since the last call: 160 by 144
    /// shades from 0, the lightest, to 3, row by row.
    pub fn updated_frame_buffer(&mut self) -> (frame: Option<Vec<u8>>)
        ensures
            final(self)@ == (CpuModel {
                bus: BusModel {
                    ppu: PpuModel { updated: false, ..old(self)@.bus.ppu },
                    ..old(self)@.bus
                },
                ..old(self)@
            }),
            match frame {
                Some(shades) => old(self)@.bus.ppu.updated && shades@ == old(self)@.bus.ppu.frame_buffer,
                None => !old(self)@.bus.ppu.updated,
            },
            frame matches Some(shades) ==> shades@.len() == FRAME_SIZE,
            frame matches Some(shades) ==> (old(self)@.wf() ==> forall|i: int|
                0 <= i < FRAME_SIZE ==> #[trigger] shades@[i] <= 3),
    {
        if self.cpu.bus.ppu.check_and_reset_updated() {
            Some(slice_to_vec(self.cpu.bus.ppu.read_frame_buffer().as_slice()))
        } else {
            None
        }
    }

    /// The title of the cartridge.
    pub fn title(&self) -> (title: String)
        requires
            self@.wf(),
        ensures
            title@ == title_of(self@.bus.cartridge.header),
    {
        self.cpu.bus.cartridge.title()
    }

    /// Presses a key of the joypad.
    pub fn key_down(&mut self, key: JoypadKey)
        ensures
            final(self)@ == (CpuModel {
                bus: BusModel {
                    joypad: old(self)@.bus.joypad.pressed(key),
                    ..old(self)@.bus
                },
                ..old(self)@
            }),
    {
        self.cpu.bus.joypad.key_down(key)
    }

    /// Releases a key of the joypad.
    pub fn key_up(&mut self, key: JoypadKey)
        ensures
            final(self)@ == (CpuModel {
                bus: BusModel {
                    joypad: old(self)@.bus.joypad.released(key),
                    ..old(self)@.bus
                },
                ..old(self)@
            }),
    {
        self.cpu.bus.joypad.key_up(key)
    }
}

/// Microseconds that a frame is given on the wall clock: 16 ms.
pub const FRAME_MICROS: u64 = 16_000;

/// What reaches the emulation from outside between two frames.
#[derive(Clone, Copy, Debug, PartialEq, Eq, Structural)]
pub enum GameBoyEvent {
    KeyUp(JoypadKey),
    KeyDown(JoypadKey),
    FastForward,
    NormalSpeed,
}

/// A console together with what its loop keeps from frame to frame.
pub struct Emulation {
    pub game_boy: Box<GameBoy>,
    /// Machine cycles by which the last frame overshot.
    pub cpu_cycles: u32,
    /// While set, frames follow one another without a pause.
    pub fast_forward_active: bool,
}

/// The console after an event.
pub open spec fn after_event(m: CpuModel, event: GameBoyEvent) -> CpuModel {
    match event {
        GameBoyEvent::KeyDown(key) => CpuModel {
            bus: BusModel { joypad: m.bus.joypad.pressed(key), ..m.bus },
            ..m
        },
        GameBoyEvent::KeyUp(key) => CpuModel {
            bus: BusModel { joypad: m.bus.joypad.released(key), ..m.bus },
            ..m
        },
        _ => m,
    }
}

/// The microseconds to wait after a frame that took `elapsed_micros`:
/// what is left of the time of a frame, and nothing while fast forward is
/// on.
pub open spec fn pause_after(fast_forward_active: bool, elapsed_micros: u64) -> u64 {
    if fast_forward_active || elapsed_micros >= FRAME_MICROS {
        0
    } else {
        (FRAME_MICROS - elapsed_micros) as u64
    }
}

impl Emulation {
    /// The console is well-formed.
    pub open spec fn wf(&self) -> bool {
        self.game_boy@.wf()
    }

    /// An emulation that has run nothing yet, at normal speed.
    pub fn new(game_boy: Box<GameBoy>) -> (emulation: Self)
        ensures
            emulation.game_boy == game_boy,
            emulation.cpu_cycles == 0,
            !emulation.fast_forward_active,
    {
        Self { game_boy, cpu_cycles: 0, fast_forward_active: false }
    }

    /// Runs the console for one frame and hands out the picture if one
    /// was drawn. An opcode that names no instruction ends the emulation.
    pub fn frame(&mut self) -> (result: Result<Option<Vec<u8>>, CpuError>)
        requires
            old(self).wf(),
        ensures
            final(self).wf(),
            final(self).fast_forward_active == old(self).fast_forward_active,
            match result {
                Ok(frame) => {
                    let (run, carried) = frame_run(old(self).game_boy@, old(self).cpu_cycles);
                    &&& carried == Ok::<u32, CpuError>(final(self).cpu_cycles)
                    &&& final(self).game_boy@ == (CpuModel {
                        bus: BusModel { ppu: PpuModel { updated: false, ..run.bus.ppu }, ..run.bus },
                        ..run
                    })
                    &&& match frame {
                        Some(shades) => {
                            &&& run.bus.ppu.updated
                            &&& shades@ == run.bus.ppu.frame_buffer
                            &&& shades@.len() == FRAME_SIZE
                            &&& forall|i: int| 0 <= i < FRAME_SIZE ==> #[trigger] shades@[i] <= 3
                        },
                        None => !run.bus.ppu.updated,
                    }
                },
                Err(error) => {
                    &&& frame_run(old(self).game_boy@, old(self).cpu_cycles) == (
                        final(self).game_boy@,
                        Err::<u32, CpuError>(error),
                    )
                    &&& final(self).cpu_cycles == old(self).cpu_cycles
                },
            },
    {
        match self.game_boy.run_frame(self.cpu_cycles) {
            Ok(carried) => {
                self.cpu_cycles = carried;
                Ok(self.game_boy.updated_frame_buffer())
            },
            Err(error) => Err(error),
        }
    }

    /// Takes an event: keys go to the joypad, the rest sets the pace.
    pub fn handle_event(&mut self, event: GameBoyEvent)
        ensures
            final(self).game_boy@ == after_event(old(self).game_boy@, event),
            final(self).cpu_cycles == old(self).cpu_cycles,
            final(self).fast_forward_active == match event {
                GameBoyEvent::FastForward => true,
                GameBoyEvent::NormalSpeed => false,
                _ => old(self).fast_forward_active,
            },
            old(self).wf() ==> final(self).wf(),
    {
        match event {
            GameBoyEvent::KeyDown(key) => self.game_boy.key_down(key),
            GameBoyEvent::KeyUp(key) => self.game_boy.key_up(key),
            GameBoyEvent::FastForward => {
                self.fast_forward_active = true;
            },
            GameBoyEvent::NormalSpeed => {
                self.fast_forward_active = false;
            },
        }
    }

    /// The microseconds to wait before the next frame, `elapsed_micros`
    /// after the last one began.
    pub fn pause(&self, elapsed_micros: u64) -> (micros: u64)
        ensures
            micros == pause_after(self.fast_forward_active, elapsed_micros),
    {
        if self.fast_forward_active || elapsed_micros >= FRAME_MICROS {
            0
        } else {
            FRAME_MICROS - elapsed_micros
        }
    }
}

} // verus!
