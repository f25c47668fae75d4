//! Fetch, decode, execute.

use vstd::prelude::*;
use crate::cpu::alu::ShiftOp;
use crate::cpu::CpuError;
use crate::cpu::CpuModel;
use crate::cpu::CPU;
use crate::instruction::lemma_decoded_cycles;
use crate::instruction::Family;
use crate::instruction::Instruction;

verus! {

impl CPU {
    /// Reads the opcode at `PC` and runs the instruction it names. Returns
    /// the machine cycles spent, or the opcode that names no instruction.
    pub fn call(&mut self) -> (result: Result<u32, CpuError>)
        requires
            old(self)@.wf(),
        ensures
            (final(self)@, result) == old(self)@.call(),
            final(self)@.wf(),
            result matches Ok(cycles) ==> 1 <= cycles <= 6,
    {
        let address = self.registers.pc;
        let opcode = self.fetch_byte();
        if opcode == 0xcb {
            self.call_cb()
        } else {
            match Instruction::from_byte(opcode, false) {
                Some(instruction) => {
                    proof {
                        lemma_decoded_cycles(opcode, false, true);
                        lemma_decoded_cycles(opcode, false, false);
                    }
                    Ok(self.execute(instruction))
                },
                None => Err(CpuError::UnsupportedInstruction { opcode, address }),
            }
        }
    }

    fn call_cb(&mut self) -> (result: Result<u32, CpuError>)
        requires
            old(self)@.wf(),
        ensures
            final(self)@ == old(self)@.fetch_byte().0.execute(
                Instruction::decoded(old(self)@.fetch_byte().1, true)->0,
            ).0,
            result == Ok::<u32, CpuError>(
                old(self)@.fetch_byte().0.execute(
                    Instruction::decoded(old(self)@.fetch_byte().1, true)->0,
                ).1,
            ),
            final(self)@.wf(),
            result matches Ok(cycles) && 1 <= cycles <= 6,
    {
        let opcode = self.fetch_byte();
        match Instruction::from_byte(opcode, true) {
            Some(instruction) => {
                proof {
                    lemma_decoded_cycles(opcode, true, false);
                }
                Ok(self.execute(instruction))
            },
            None => Err(CpuError::UnsupportedInstruction { opcode, address: self.registers.pc }),
        }
    }

    /// Runs one instruction. Returns the machine cycles it took.
    pub fn execute(&mut self, instruction: Instruction) -> (cycles: u32)
        requires
            old(self)@.wf(),
            instruction.valid(),
        ensures
            (final(self)@, cycles) == old(self)@.execute(instruction),
            final(self)@.wf(),
            cycles == instruction.cycles(true) || cycles == instruction.cycles(false),
    {
        let taken = if instruction.is_load() {
            self.execute_load(instruction);
            false
        } else if instruction.is_arithmetic() {
            self.execute_arithmetic(instruction);
            false
        } else if instruction.is_jump() {
            self.execute_jump(instruction)
        } else if instruction.is_bit_operation() {
            self.execute_bit_operation(instruction);
            false
        } else {
            self.execute_control(instruction);
            false
        };
        instruction.cycle_count(taken)
    }

    /// `NOP`, `HALT`, `DI`, `EI`.
    fn execute_control(&mut self, instruction: Instruction)
        requires
            old(self)@.wf(),
            instruction.family() == Family::Control,
        ensures
            final(self)@ == old(self)@.after(instruction),
            final(self)@.wf(),
    {
        proof {
            lemma_after(self@, instruction);
        }
        match instruction {
            Instruction::Halt => self.halt(),
            Instruction::Di => self.di(),
            Instruction::Ei => self.ei(),
            _ => {},
        }
    }

    /// The 8-bit and 16-bit loads and the stack.
    fn execute_load(&mut self, instruction: Instruction)
        requires
            old(self)@.wf(),
            instruction.valid(),
            instruction.family() == Family::Load,
        ensures
            final(self)@ == old(self)@.after(instruction),
            final(self)@.wf(),
    {
        proof {
            lemma_after(self@, instruction);
        }
        match instruction {
            Instruction::Load(destination, source) => self.load(destination, source),
            Instruction::LoadWord(pair) => self.load_word(pair),
            Instruction::StoreStackPointer => self.store_stack_pointer(),
            Instruction::LoadStackPointer => self.load_stack_pointer(),
            Instruction::LoadStackOffset => self.load_stack_offset(),
            Instruction::Push(pair) => self.push(pair),
            Instruction::Pop(pair) => self.pop(pair),
            _ => {},
        }
    }

    /// Arithmetic and logic on the accumulator, on operands and on pairs.
    fn execute_arithmetic(&mut self, instruction: Instruction)
        requires
            old(self)@.wf(),
            instruction.valid(),
            instruction.family() == Family::Arithmetic,
        ensures
            final(self)@ == old(self)@.after(instruction),
            final(self)@.wf(),
    {
        proof {
            lemma_after(self@, instruction);
        }
        match instruction {
            Instruction::Alu(op, operand) => self.alu(op, operand),
            Instruction::Inc(operand) => self.alu_inc(operand),
            Instruction::Dec(operand) => self.alu_dec(operand),
            Instruction::IncWord(pair) => self.inc_16(pair),
            Instruction::DecWord(pair) => self.dec_16(pair),
            Instruction::AddWord(pair) => self.add_16(pair),
            Instruction::AddStackOffset => self.add_stack_offset(),
            Instruction::Rlca => self.rlca(),
            Instruction::Rrca => self.rrca(),
            Instruction::Rla => self.rla(),
            Instruction::Rra => self.rra(),
            Instruction::Daa => self.daa(),
            Instruction::Cpl => self.cpl(),
            Instruction::Scf => self.scf(),
            Instruction::Ccf => self.ccf(),
            _ => {},
        }
    }

    /// Jumps, calls and returns. Returns whether a conditional one was
    /// taken.
    fn execute_jump(&mut self, instruction: Instruction) -> (taken: bool)
        requires
            old(self)@.wf(),
            instruction.family() == Family::Jump,
        ensures
            final(self)@ == old(self)@.after(instruction),
            taken == old(self)@.takes(instruction),
            final(self)@.wf(),
    {
        proof {
            lemma_after(self@, instruction);
        }
        match instruction {
            Instruction::JumpRelative(condition) => self.jr(condition),
            Instruction::Jump(condition) => self.jp(condition),
            Instruction::JumpHl => {
                self.jump_hl();
                false
            },
            Instruction::Call(condition) => self.call_subroutine(condition),
            Instruction::Return(condition) => self.ret(condition),
            Instruction::Reti => {
                self.reti();
                false
            },
            Instruction::Restart(vector) => {
                self.rst(vector);
                false
            },
            _ => false,
        }
    }

    /// The prefixed opcodes: rotations, shifts and single bits.
    fn execute_bit_operation(&mut self, instruction: Instruction)
        requires
            old(self)@.wf(),
            instruction.valid(),
            instruction.family() == Family::BitOperation,
        ensures
            final(self)@ == old(self)@.after(instruction),
            final(self)@.wf(),
    {
        proof {
            lemma_after(self@, instruction);
        }
        match instruction {
            Instruction::Shift(op, operand) => {
                self.shift(op, operand);
            },
            Instruction::TestBit(bit, operand) => self.bit(operand, bit),
            Instruction::ResetBit(bit, operand) => self.res(operand, bit),
            Instruction::SetBit(bit, operand) => self.set(operand, bit),
            _ => {},
        }
    }
}

/// What `after` says of each instruction.
pub proof fn lemma_after(m: CpuModel, instruction: Instruction)
    ensures
        instruction == Instruction::Nop ==> m.after(instruction) == m,
        instruction == Instruction::Halt ==> m.after(instruction) == m.halt(),
        instruction == Instruction::Di ==> m.after(instruction) == m.di(),
        instruction == Instruction::Ei ==> m.after(instruction) == m.ei(),
        instruction matches Instruction::Load(destination, source) ==> m.after(instruction) == m.load(destination, source),
        instruction matches Instruction::LoadWord(pair) ==> m.after(instruction) == m.load_word(pair),
        instruction == Instruction::StoreStackPointer ==> m.after(instruction) == m.store_stack_pointer(),
        instruction == Instruction::LoadStackPointer ==> m.after(instruction) == m.load_stack_pointer(),
        instruction == Instruction::LoadStackOffset ==> m.after(instruction) == m.load_stack_offset(),
        instruction matches Instruction::Push(pair) ==> m.after(instruction) == m.push(pair),
        instruction matches Instruction::Pop(pair) ==> m.after(instruction) == m.pop(pair),
        instruction matches Instruction::Alu(op, operand) ==> m.after(instruction) == m.alu(op, operand),
        instruction matches Instruction::Inc(operand) ==> m.after(instruction) == m.inc(operand),
        instruction matches Instruction::Dec(operand) ==> m.after(instruction) == m.dec(operand),
        instruction matches Instruction::IncWord(pair) ==> m.after(instruction) == m.inc_word(pair),
        instruction matches Instruction::DecWord(pair) ==> m.after(instruction) == m.dec_word(pair),
        instruction matches Instruction::AddWord(pair) ==> m.after(instruction) == m.add_word(pair),
        instruction == Instruction::AddStackOffset ==> m.after(instruction) == m.add_stack_offset(),
        instruction == Instruction::Rlca ==> m.after(instruction) == m.rotate_a(ShiftOp::Rlc),
        instruction == Instruction::Rrca ==> m.after(instruction) == m.rotate_a(ShiftOp::Rrc),
        instruction == Instruction::Rla ==> m.after(instruction) == m.rotate_a(ShiftOp::Rl),
        instruction == Instruction::Rra ==> m.after(instruction) == m.rotate_a(ShiftOp::Rr),
        instruction == Instruction::Daa ==> m.after(instruction) == m.daa(),
        instruction == Instruction::Cpl ==> m.after(instruction) == m.cpl(),
        instruction == Instruction::Scf ==> m.after(instruction) == m.scf(),
        instruction == Instruction::Ccf ==> m.after(instruction) == m.ccf(),
        instruction matches Instruction::JumpRelative(condition) ==> m.after(instruction) == m.jump_relative(condition),
        instruction matches Instruction::Jump(condition) ==> m.after(instruction) == m.jump(condition),
        instruction == Instruction::JumpHl ==> m.after(instruction) == m.jump_hl(),
        instruction matches Instruction::Call(condition) ==> m.after(instruction) == m.call_subroutine(condition),
        instruction matches Instruction::Return(condition) ==> m.after(instruction) == m.ret(condition),
        instruction == Instruction::Reti ==> m.after(instruction) == m.reti(),
        instruction matches Instruction::Restart(vector) ==> m.after(instruction) == m.restart(vector),
        instruction matches Instruction::Shift(op, operand) ==> m.after(instruction) == m.shift(op, operand),
        instruction matches Instruction::TestBit(bit, operand) ==> m.after(instruction) == m.test_bit(bit, operand),
        instruction matches Instruction::ResetBit(bit, operand) ==> m.after(instruction) == m.reset_bit(bit, operand),
        instruction matches Instruction::SetBit(bit, operand) ==> m.after(instruction) == m.set_bit(bit, operand),
{
    reveal(CpuModel::after);
}

} // verus!
