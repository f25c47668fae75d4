//! The CPU: registers, the bus behind it, and the cycle that takes one
//! interrupt or runs one instruction.

pub mod alu;
pub mod condition;
pub mod decode;
pub mod execute;
pub mod interrupt_master_enable;
pub mod read_write;

use vstd::prelude::*;
use crate::address_bus::AddressBus;
use crate::address_bus::is_plain_ram;
use crate::address_bus::lemma_write_read_word;
use crate::address_bus::BusModel;
use crate::bootrom::Bootrom;
use crate::cartridge::Cartridge;
use crate::cpu::alu::add16_result;
use crate::cpu::alu::add_offset_result;
use crate::cpu::alu::alu_result;
use crate::cpu::alu::bit_result;
use crate::cpu::alu::ccf_result;
use crate::cpu::alu::cpl_result;
use crate::cpu::alu::daa_result;
use crate::cpu::alu::dec8_result;
use crate::cpu::alu::inc8_result;
use crate::cpu::alu::res_result;
use crate::cpu::alu::rotate_a_result;
use crate::cpu::alu::scf_result;
use crate::cpu::alu::set_result;
use crate::cpu::alu::shift_result;
use crate::cpu::alu::signed;
use crate::cpu::alu::AluOp;
use crate::cpu::alu::ShiftOp;
use crate::cpu::condition::Condition;
use crate::cpu::interrupt_master_enable::InterruptMasterEnable;
use crate::cpu::read_write::Operand;
use crate::instruction::Instruction;
use crate::registers::word;
use crate::registers::wrap16;
use crate::registers::FlagsRegister;
use crate::registers::Reg16;
use crate::registers::Registers;

verus! {

pub struct CPU {
    pub registers: Registers,
    pub bus: AddressBus,
    pub is_halted: bool,
    pub interrupt_master_enable: InterruptMasterEnable,
}

/// The whole machine as mathematics.
pub struct CpuModel {
    pub registers: Registers,
    pub bus: BusModel,
    pub is_halted: bool,
    pub ime: InterruptMasterEnable,
}

impl View for CPU {
    type V = CpuModel;

    open spec fn view(&self) -> CpuModel {
        CpuModel {
            registers: self.registers,
            bus: self.bus@,
            is_halted: self.is_halted,
            ime: self.interrupt_master_enable,
        }
    }
}

/// Why the CPU cannot go on.
#[derive(Clone, Copy, Debug, PartialEq, Eq, Structural)]
pub enum CpuError {
    /// The byte `opcode` at `address` names no instruction.
    UnsupportedInstruction { opcode: u8, address: u16 },
}

/// Machine cycles that the dispatch of an interrupt takes.
pub const INTERRUPT_CYCLES: u32 = 5;

/// The number 0..4 of the lowest interrupt bit set in `pending`, which is
/// the interrupt served first.
pub open spec fn first_interrupt(pending: u8) -> u8 {
    if pending & 0x01 != 0 {
        0
    } else if pending & 0x02 != 0 {
        1
    } else if pending & 0x04 != 0 {
        2
    } else if pending & 0x08 != 0 {
        3
    } else {
        4
    }
}

/// The bit of interrupt `number` in the interrupt registers.
pub open spec fn interrupt_mask(number: u8) -> u8 {
    if number == 0 {
        0x01
    } else if number == 1 {
        0x02
    } else if number == 2 {
        0x04
    } else if number == 3 {
        0x08
    } else {
        0x10
    }
}

/// The address that the CPU jumps to for interrupt `number`.
pub open spec fn interrupt_vector(number: u8) -> u16 {
    (0x0040 + 8 * number) as u16
}

impl CpuModel {
    /// The bus is well-formed.
    pub open spec fn wf(self) -> bool {
        self.bus.wf()
    }

    /// The CPU with the register file replaced.
    pub open spec fn with_registers(self, registers: Registers) -> CpuModel {
        CpuModel { registers, ..self }
    }

    /// The CPU with `PC` replaced.
    pub open spec fn with_pc(self, pc: u16) -> CpuModel {
        CpuModel { registers: Registers { pc, ..self.registers }, ..self }
    }

    /// The byte at `PC`, with `PC` moved past it.
    pub open spec fn fetch_byte(self) -> (CpuModel, u8) {
        (self.with_pc(wrap16(self.registers.pc + 1)), self.bus.read_byte(self.registers.pc))
    }

    /// The little-endian word at `PC`, with `PC` moved past it.
    pub open spec fn fetch_word(self) -> (CpuModel, u16) {
        (self.with_pc(wrap16(self.registers.pc + 2)), self.bus.read_word(self.registers.pc))
    }

    /// `SP` drops by two and the word is written there, low byte first.
    pub open spec fn push_stack(self, value: u16) -> CpuModel {
        let sp = wrap16(self.registers.sp - 2);
        CpuModel {
            registers: Registers { sp, ..self.registers },
            bus: self.bus.write_word(sp, value),
            ..self
        }
    }

    /// The word at `SP`, with `SP` raised by two.
    pub open spec fn pop_stack(self) -> (CpuModel, u16) {
        (
            self.with_registers(Registers { sp: wrap16(self.registers.sp + 2), ..self.registers }),
            self.bus.read_word(self.registers.sp),
        )
    }

    /// For an operand in memory: its address, and the CPU after what
    /// finding the address does to `HL` or `PC`.
    #[verifier::opaque]
    pub open spec fn locate(self, operand: Operand) -> (CpuModel, u16) {
        let r = self.registers;
        match operand {
            Operand::AddressBC => (self, r.reg16(Reg16::BC)),
            Operand::AddressDE => (self, r.reg16(Reg16::DE)),
            Operand::AddressHL => (self, r.reg16(Reg16::HL)),
            Operand::AddressHLI => (
                self.with_registers(r.with_reg16(Reg16::HL, wrap16(r.reg16(Reg16::HL) + 1))),
                r.reg16(Reg16::HL),
            ),
            Operand::AddressHLD => (
                self.with_registers(r.with_reg16(Reg16::HL, wrap16(r.reg16(Reg16::HL) - 1))),
                r.reg16(Reg16::HL),
            ),
            Operand::Immediate8 => (self.with_pc(wrap16(r.pc + 1)), r.pc),
            Operand::AddressHighImmediate8 => (self.fetch_byte().0, word(0xff, self.fetch_byte().1)),
            Operand::AddressHighC => (self, word(0xff, r.c)),
            Operand::AddressImmediate16 => self.fetch_word(),
            _ => (self, 0),
        }
    }

    /// The byte that the operand holds, and the CPU after the read.
    #[verifier::opaque]
    pub open spec fn read(self, operand: Operand) -> (CpuModel, u8) {
        match operand.register() {
            Some(register) => (self, self.registers.reg8(register)),
            None => {
                let (located, address) = self.locate(operand);
                (located, located.bus.read_byte(address))
            },
        }
    }

    /// The CPU after `value` is written to the operand. The immediate byte
    /// takes no write.
    #[verifier::opaque]
    pub open spec fn write(self, operand: Operand, value: u8) -> CpuModel {
        match operand.register() {
            Some(register) => self.with_registers(self.registers.with_reg8(register, value)),
            None => if operand.writable() {
                let (located, address) = self.locate(operand);
                CpuModel { bus: located.bus.write_byte(address, value), ..located }
            } else {
                self
            },
        }
    }

    /// The CPU with the flags replaced.
    pub open spec fn with_flags(self, f: FlagsRegister) -> CpuModel {
        self.with_registers(Registers { f, ..self.registers })
    }

    /// `HALT`: the CPU sleeps until an interrupt is pending.
    #[verifier::opaque]
    pub open spec fn halt(self) -> CpuModel {
        CpuModel { is_halted: true, ..self }
    }

    /// `DI`: the master enable is cleared after the next instruction.
    #[verifier::opaque]
    pub open spec fn di(self) -> CpuModel {
        CpuModel { ime: InterruptMasterEnable { disable_counter: 2, ..self.ime }, ..self }
    }

    /// `EI`: the master enable is set after the next instruction.
    #[verifier::opaque]
    pub open spec fn ei(self) -> CpuModel {
        CpuModel { ime: InterruptMasterEnable { enable_counter: 2, ..self.ime }, ..self }
    }

    /// `LD`: the byte read from `source` is written to `destination`.
    #[verifier::opaque]
    pub open spec fn load(self, destination: Operand, source: Operand) -> CpuModel {
        self.read(source).0.write(destination, self.read(source).1)
    }

    /// `LD rr, nn`.
    #[verifier::opaque]
    pub open spec fn load_word(self, pair: Reg16) -> CpuModel {
        let (fetched, value) = self.fetch_word();
        fetched.with_registers(fetched.registers.with_reg16(pair, value))
    }

    /// `LD (nn), SP`.
    #[verifier::opaque]
    pub open spec fn store_stack_pointer(self) -> CpuModel {
        let (fetched, address) = self.fetch_word();
        CpuModel { bus: fetched.bus.write_word(address, self.registers.sp), ..fetched }
    }

    /// `LD SP, HL`.
    #[verifier::opaque]
    pub open spec fn load_stack_pointer(self) -> CpuModel {
        self.with_registers(Registers { sp: self.registers.reg16(Reg16::HL), ..self.registers })
    }

    /// `LD HL, SP+s8`.
    #[verifier::opaque]
    pub open spec fn load_stack_offset(self) -> CpuModel {
        let (fetched, offset) = self.fetch_byte();
        let (sum, f) = add_offset_result(self.registers.sp, offset);
        fetched.with_registers(Registers { f, ..fetched.registers }.with_reg16(Reg16::HL, sum))
    }

    /// `PUSH rr`.
    #[verifier::opaque]
    pub open spec fn push(self, pair: Reg16) -> CpuModel {
        self.push_stack(self.registers.reg16(pair))
    }

    /// `POP rr`; into `AF` the low nibble of `F` is dropped.
    #[verifier::opaque]
    pub open spec fn pop(self, pair: Reg16) -> CpuModel {
        let (popped, value) = self.pop_stack();
        popped.with_registers(popped.registers.with_reg16(pair, value))
    }

    /// An operation of the accumulator against the operand.
    #[verifier::opaque]
    pub open spec fn alu(self, op: AluOp, operand: Operand) -> CpuModel {
        let (read, value) = self.read(operand);
        let (a, f) = alu_result(op, read.registers.a, value, read.registers.f);
        read.with_registers(Registers { a, f, ..read.registers })
    }

    /// `INC` of an 8-bit operand.
    #[verifier::opaque]
    pub open spec fn inc(self, operand: Operand) -> CpuModel {
        let (read, value) = self.read(operand);
        let (result, f) = inc8_result(value, read.registers.f);
        read.write(operand, result).with_flags(f)
    }

    /// `DEC` of an 8-bit operand.
    #[verifier::opaque]
    pub open spec fn dec(self, operand: Operand) -> CpuModel {
        let (read, value) = self.read(operand);
        let (result, f) = dec8_result(value, read.registers.f);
        read.write(operand, result).with_flags(f)
    }

    /// `INC rr`: no flag changes.
    #[verifier::opaque]
    pub open spec fn inc_word(self, pair: Reg16) -> CpuModel {
        self.with_registers(self.registers.with_reg16(pair, wrap16(self.registers.reg16(pair) + 1)))
    }

    /// `DEC rr`: no flag changes.
    #[verifier::opaque]
    pub open spec fn dec_word(self, pair: Reg16) -> CpuModel {
        self.with_registers(self.registers.with_reg16(pair, wrap16(self.registers.reg16(pair) - 1)))
    }

    /// `ADD HL, rr`.
    #[verifier::opaque]
    pub open spec fn add_word(self, pair: Reg16) -> CpuModel {
        let r = self.registers;
        let (sum, f) = add16_result(r.reg16(Reg16::HL), r.reg16(pair), r.f);
        self.with_registers(Registers { f, ..r.with_reg16(Reg16::HL, sum) })
    }

    /// `ADD SP, s8`.
    #[verifier::opaque]
    pub open spec fn add_stack_offset(self) -> CpuModel {
        let (fetched, offset) = self.fetch_byte();
        let (sp, f) = add_offset_result(self.registers.sp, offset);
        fetched.with_registers(Registers { sp, f, ..fetched.registers })
    }

    /// `RLCA`, `RRCA`, `RLA`, `RRA`.
    #[verifier::opaque]
    pub open spec fn rotate_a(self, op: ShiftOp) -> CpuModel {
        let (a, f) = rotate_a_result(op, self.registers.a, self.registers.f);
        self.with_registers(Registers { a, f, ..self.registers })
    }

    /// `DAA`.
    #[verifier::opaque]
    pub open spec fn daa(self) -> CpuModel {
        let (a, f) = daa_result(self.registers.a, self.registers.f);
        self.with_registers(Registers { a, f, ..self.registers })
    }

    /// `CPL`.
    #[verifier::opaque]
    pub open spec fn cpl(self) -> CpuModel {
        let (a, f) = cpl_result(self.registers.a, self.registers.f);
        self.with_registers(Registers { a, f, ..self.registers })
    }

    /// `SCF`.
    #[verifier::opaque]
    pub open spec fn scf(self) -> CpuModel {
        self.with_flags(scf_result(self.registers.f))
    }

    /// `CCF`.
    #[verifier::opaque]
    pub open spec fn ccf(self) -> CpuModel {
        self.with_flags(ccf_result(self.registers.f))
    }

    /// `JR`: the offset is fetched in any case.
    #[verifier::opaque]
    pub open spec fn jump_relative(self, condition: Condition) -> CpuModel {
        let (fetched, offset) = self.fetch_byte();
        if condition.holds(self.registers.f) {
            fetched.with_pc(wrap16(fetched.registers.pc + signed(offset)))
        } else {
            fetched
        }
    }

    /// `JP nn`: the address is fetched in any case.
    #[verifier::opaque]
    pub open spec fn jump(self, condition: Condition) -> CpuModel {
        let (fetched, address) = self.fetch_word();
        if condition.holds(self.registers.f) {
            fetched.with_pc(address)
        } else {
            fetched
        }
    }

    /// `JP HL`.
    #[verifier::opaque]
    pub open spec fn jump_hl(self) -> CpuModel {
        self.with_pc(self.registers.reg16(Reg16::HL))
    }

    /// `CALL`: the address of the next instruction goes to the stack.
    #[verifier::opaque]
    pub open spec fn call_subroutine(self, condition: Condition) -> CpuModel {
        let (fetched, address) = self.fetch_word();
        if condition.holds(self.registers.f) {
            fetched.push_stack(fetched.registers.pc).with_pc(address)
        } else {
            fetched
        }
    }

    /// `RET`.
    #[verifier::opaque]
    pub open spec fn ret(self, condition: Condition) -> CpuModel {
        if condition.holds(self.registers.f) {
            self.pop_stack().0.with_pc(self.pop_stack().1)
        } else {
            self
        }
    }

    /// `RETI`: a return that sets the master enable at its next tick.
    #[verifier::opaque]
    pub open spec fn reti(self) -> CpuModel {
        CpuModel {
            ime: InterruptMasterEnable { enable_counter: 1, ..self.ime },
            ..self.pop_stack().0.with_pc(self.pop_stack().1)
        }
    }

    /// `RST`.
    #[verifier::opaque]
    pub open spec fn restart(self, vector: u8) -> CpuModel {
        self.push_stack(self.registers.pc).with_pc(vector as u16)
    }

    /// A rotation or shift of the prefixed opcodes.
    #[verifier::opaque]
    pub open spec fn shift(self, op: ShiftOp, operand: Operand) -> CpuModel {
        let (read, value) = self.read(operand);
        let (result, f) = shift_result(op, value, read.registers.f);
        read.write(operand, result).with_flags(f)
    }

    /// `BIT`: only the flags change.
    #[verifier::opaque]
    pub open spec fn test_bit(self, bit: u8, operand: Operand) -> CpuModel {
        let (read, value) = self.read(operand);
        read.with_flags(bit_result(bit, value, read.registers.f))
    }

    /// `RES`: no flag changes.
    #[verifier::opaque]
    pub open spec fn reset_bit(self, bit: u8, operand: Operand) -> CpuModel {
        let (read, value) = self.read(operand);
        read.write(operand, res_result(bit, value))
    }

    /// `SET`: no flag changes.
    #[verifier::opaque]
    pub open spec fn set_bit(self, bit: u8, operand: Operand) -> CpuModel {
        let (read, value) = self.read(operand);
        read.write(operand, set_result(bit, value))
    }

    /// Whether the instruction is a conditional branch that the flags let
    /// through.
    pub open spec fn takes(self, instruction: Instruction) -> bool {
        match instruction {
            Instruction::JumpRelative(condition) | Instruction::Jump(condition) | Instruction::Call(
                condition,
            ) | Instruction::Return(condition) => condition.holds(self.registers.f),
            _ => false,
        }
    }

    /// The CPU after the instruction.
    #[verifier::opaque]
    pub open spec fn after(self, instruction: Instruction) -> CpuModel {
        match instruction {
            Instruction::Nop => self,
            Instruction::Halt => self.halt(),
            Instruction::Di => self.di(),
            Instruction::Ei => self.ei(),
            Instruction::Load(destination, source) => self.load(destination, source),
            Instruction::LoadWord(pair) => self.load_word(pair),
            Instruction::StoreStackPointer => self.store_stack_pointer(),
            Instruction::LoadStackPointer => self.load_stack_pointer(),
            Instruction::LoadStackOffset => self.load_stack_offset(),
            Instruction::Push(pair) => self.push(pair),
            Instruction::Pop(pair) => self.pop(pair),
            Instruction::Alu(op, operand) => self.alu(op, operand),
            Instruction::Inc(operand) => self.inc(operand),
            Instruction::Dec(operand) => self.dec(operand),
            Instruction::IncWord(pair) => self.inc_word(pair),
            Instruction::DecWord(pair) => self.dec_word(pair),
            Instruction::AddWord(pair) => self.add_word(pair),
            Instruction::AddStackOffset => self.add_stack_offset(),
            Instruction::Rlca => self.rotate_a(ShiftOp::Rlc),
            Instruction::Rrca => self.rotate_a(ShiftOp::Rrc),
            Instruction::Rla => self.rotate_a(ShiftOp::Rl),
            Instruction::Rra => self.rotate_a(ShiftOp::Rr),
            Instruction::Daa => self.daa(),
            Instruction::Cpl => self.cpl(),
            Instruction::Scf => self.scf(),
            Instruction::Ccf => self.ccf(),
            Instruction::JumpRelative(condition) => self.jump_relative(condition),
            Instruction::Jump(condition) => self.jump(condition),
            Instruction::JumpHl => self.jump_hl(),
            Instruction::Call(condition) => self.call_subroutine(condition),
            Instruction::Return(condition) => self.ret(condition),
            Instruction::Reti => self.reti(),
            Instruction::Restart(vector) => self.restart(vector),
            Instruction::Shift(op, operand) => self.shift(op, operand),
            Instruction::TestBit(bit, operand) => self.test_bit(bit, operand),
            Instruction::ResetBit(bit, operand) => self.reset_bit(bit, operand),
            Instruction::SetBit(bit, operand) => self.set_bit(bit, operand),
        }
    }

    /// The CPU after the instruction, and the machine cycles it took.
    pub open spec fn execute(self, instruction: Instruction) -> (CpuModel, u32) {
        (self.after(instruction), instruction.cycles(self.takes(instruction)))
    }

    /// The interrupts that are both enabled and requested.
    pub open spec fn pending(self) -> u8 {
        (self.bus.interrupt_enable & self.bus.interrupt_flag) & 0x1f
    }

    /// What the CPU does about interrupts before it fetches: the master
    /// enable ticks; a pending interrupt ends a halt; and with the master
    /// enable set, the first pending interrupt is taken, which clears its
    /// request and the master enable, pushes `PC` and jumps to the
    /// interrupt's vector in 5 machine cycles. Else 0 cycles pass.
    pub open spec fn handle_interrupts(self) -> (CpuModel, u32) {
        let ticked = CpuModel { ime: self.ime.ticked(), ..self };
        if (!ticked.ime.value && !self.is_halted) || ticked.pending() == 0 {
            (ticked, 0)
        } else if !ticked.ime.value {
            (CpuModel { is_halted: false, ..ticked }, 0)
        } else {
            let number = first_interrupt(ticked.pending());
            let taken = CpuModel {
                is_halted: false,
                ime: InterruptMasterEnable { value: false, ..ticked.ime },
                bus: BusModel {
                    interrupt_flag: ticked.bus.interrupt_flag & !interrupt_mask(number),
                    ..ticked.bus
                },
                ..ticked
            };
            (taken.push_stack(self.registers.pc).with_pc(interrupt_vector(number)), INTERRUPT_CYCLES)
        }
    }

    /// Fetch, decode, execute: the opcode at `PC` is read, after the
    /// prefix `CB` a second one, and the instruction it names is run. An
    /// opcode that names none stops the CPU with `PC` behind it.
    pub open spec fn call(self) -> (CpuModel, Result<u32, CpuError>) {
        let (fetched, opcode) = self.fetch_byte();
        if opcode == 0xcb {
            let (prefixed, second) = fetched.fetch_byte();
            let (after, cycles) = prefixed.execute(Instruction::decoded(second, true)->0);
            (after, Ok(cycles))
        } else {
            match Instruction::decoded(opcode, false) {
                Some(instruction) => {
                    let (after, cycles) = fetched.execute(instruction);
                    (after, Ok(cycles))
                },
                None => (
                    fetched,
                    Err(CpuError::UnsupportedInstruction { opcode, address: self.registers.pc }),
                ),
            }
        }
    }

    /// One cycle of the CPU: an interrupt is taken, or a halted CPU idles
    /// for one machine cycle, or one instruction runs.
    pub open spec fn cycle(self) -> (CpuModel, Result<u32, CpuError>) {
        let (handled, spent) = self.handle_interrupts();
        if spent > 0 {
            (handled, Ok(spent))
        } else if handled.is_halted {
            (handled, Ok(1))
        } else {
            handled.call()
        }
    }
}

impl CPU {
    /// The CPU at power-on, about to run the startup program.
    pub fn new(cartridge: Cartridge, bootrom: Bootrom) -> (cpu: Self)
        requires
            cartridge@.wf(),
        ensures
            cpu@.wf(),
            cpu@.registers == (Registers { pc: 0, ..Registers::after_boot() }),
            cpu@.bus == AddressBus::new_model(cartridge@, bootrom),
            !cpu@.is_halted,
            cpu@.ime == (InterruptMasterEnable { value: true, enable_counter: 0, disable_counter: 0 }),
    {
        Self {
            registers: Registers::new(),
            bus: AddressBus::new(cartridge, bootrom),
            is_halted: false,
            interrupt_master_enable: InterruptMasterEnable::new(),
        }
    }

    /// The CPU as the startup program leaves it: registers and I/O hold
    /// their values from after that program, which is unmapped, and `PC`
    /// is at the cartridge's entry point `0100`.
    pub fn new_after_boot(cartridge: Cartridge, bootrom: Bootrom) -> (cpu: Self)
        requires
            cartridge@.wf(),
        ensures
            cpu@.wf(),
            cpu@.registers == Registers::after_boot(),
            cpu@.bus == AddressBus::new_model(cartridge@, bootrom).after_boot(),
            !cpu@.is_halted,
            cpu@.ime == (InterruptMasterEnable { value: true, enable_counter: 0, disable_counter: 0 }),
    {
        let mut cpu = Self::new(cartridge, bootrom);
        cpu.registers.set_state_after_boot_rom();
        cpu.bus.set_initial();
        cpu
    }

    /// One cycle of the CPU. Returns the machine cycles spent.
    pub fn cycle(&mut self) -> (result: Result<u32, CpuError>)
        requires
            old(self)@.wf(),
        ensures
            (final(self)@, result) == old(self)@.cycle(),
            final(self)@.wf(),
            result matches Ok(cycles) ==> 1 <= cycles <= 6,
    {
        let interrupts_handle_time = self.handle_interrupts();
        if interrupts_handle_time > 0 {
            return Ok(interrupts_handle_time);
        }
        if self.is_halted {
            return Ok(1);
        }
        self.call()
    }

    fn handle_interrupts(&mut self) -> (spent: u32)
        requires
            old(self)@.wf(),
        ensures
            (final(self)@, spent) == old(self)@.handle_interrupts(),
            final(self)@.wf(),
            spent == 0 || spent == INTERRUPT_CYCLES,
    {
        let interrupt_master_enable = self.interrupt_master_enable.read();
        if !interrupt_master_enable && !self.is_halted {
            return 0;
        }
        let interrupts = (self.bus.interrupt_enable_register & self.bus.interrupt_flag) & 0x1f;
        if interrupts == 0 {
            return 0;
        }
        self.is_halted = false;
        if !interrupt_master_enable {
            return 0;
        }
        let (mask, vector): (u8, u16) = if interrupts & 0x01 != 0 {
            (0x01, 0x0040)
        } else if interrupts & 0x02 != 0 {
            (0x02, 0x0048)
        } else if interrupts & 0x04 != 0 {
            (0x04, 0x0050)
        } else if interrupts & 0x08 != 0 {
            (0x08, 0x0058)
        } else {
            (0x10, 0x0060)
        };
        self.bus.interrupt_flag &= !mask;
        self.interrupt_master_enable.clear();
        self.push_stack(self.registers.pc);
        self.registers.pc = vector;
        INTERRUPT_CYCLES
    }

    /// Reads the byte at `PC` and moves `PC` past it.
    pub fn fetch_byte(&mut self) -> (byte: u8)
        requires
            old(self)@.wf(),
        ensures
            (final(self)@, byte) == old(self)@.fetch_byte(),
            final(self)@.wf(),
    {
        let byte = self.bus.read_byte(self.registers.pc);
        self.registers.pc = self.registers.pc.wrapping_add(1);
        byte
    }

    /// Reads the little-endian word at `PC` and moves `PC` past it.
    pub fn fetch_word(&mut self) -> (word: u16)
        requires
            old(self)@.wf(),
        ensures
            (final(self)@, word) == old(self)@.fetch_word(),
            final(self)@.wf(),
    {
        let word = self.bus.read_word(self.registers.pc);
        self.registers.pc = self.registers.pc.wrapping_add(2);
        word
    }

    /// Reads the word at `SP` and raises `SP` by two.
    pub fn pop_stack(&mut self) -> (value: u16)
        requires
            old(self)@.wf(),
        ensures
            (final(self)@, value) == old(self)@.pop_stack(),
            final(self)@.wf(),
    {
        let value = self.bus.read_word(self.registers.sp);
        self.registers.sp = self.registers.sp.wrapping_add(2);
        value
    }

    /// Lowers `SP` by two and writes `value` there.
    pub fn push_stack(&mut self, value: u16)
        requires
            old(self)@.wf(),
        ensures
            final(self)@ == old(self)@.push_stack(value),
            final(self)@.wf(),
    {
        self.registers.sp = self.registers.sp.wrapping_sub(2);
        self.bus.write_word(self.registers.sp, value);
    }
}

/// A word pushed while the stack lies in work RAM or high RAM is the word
/// popped, and the pop leaves `SP` where it was before the push.
pub proof fn lemma_push_pop(m: CpuModel, value: u16)
    requires
        m.wf(),
        is_plain_ram(wrap16(m.registers.sp - 1)),
        is_plain_ram(wrap16(m.registers.sp - 2)),
    ensures
        m.push_stack(value).pop_stack().1 == value,
        m.push_stack(value).pop_stack().0.registers.sp == m.registers.sp,
        m.push_stack(value).pop_stack().0.registers == m.registers,
{
    let sp = wrap16(m.registers.sp - 2);
    assert(wrap16(sp + 1) == wrap16(m.registers.sp - 1));
    assert(wrap16(sp + 2) == m.registers.sp);
    lemma_write_read_word(m.bus, sp, value);
}

} // verus!
