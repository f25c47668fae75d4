//! The instructions, one method each.

use vstd::prelude::*;
use crate::cpu::alu::add16;
use crate::cpu::alu::add_offset;
use crate::cpu::alu::add_offset_result;
use crate::cpu::alu::alu;
use crate::cpu::alu::daa;
use crate::cpu::alu::dec8;
use crate::cpu::alu::inc8;
use crate::cpu::alu::shift;
use crate::cpu::alu::signed;
use crate::cpu::alu::AluOp;
use crate::cpu::alu::ShiftOp;
use crate::cpu::condition::Condition;
use crate::cpu::read_write::Operand;
use crate::cpu::CpuModel;
use crate::cpu::CPU;
use crate::registers::wrap16;
use crate::registers::FlagsRegister;
use crate::registers::Reg16;

verus! {

impl CPU {
    /// `INC rr`.
    pub fn inc_16(&mut self, reg: Reg16)
        ensures
            final(self)@.bus == old(self)@.bus,
            final(self)@ == old(self)@.inc_word(reg),
    {
        reveal(CpuModel::inc_word);
        let before = self.registers.read_16(reg);
        let value = before.wrapping_add(1);
        assert(value == wrap16(before + 1));
        self.registers.write_16(reg, value);
    }

    /// `DEC rr`.
    pub fn dec_16(&mut self, reg: Reg16)
        ensures
            final(self)@.bus == old(self)@.bus,
            final(self)@ == old(self)@.dec_word(reg),
    {
        reveal(CpuModel::dec_word);
        let before = self.registers.read_16(reg);
        let value = before.wrapping_sub(1);
        assert(value == wrap16(before - 1));
        self.registers.write_16(reg, value);
    }

    /// A rotation or shift of the prefixed opcodes on any operand.
    pub fn shift(&mut self, op: ShiftOp, operand: Operand) -> (result: u8)
        requires
            old(self)@.wf(),
            operand.writable(),
        ensures
            final(self)@ == old(self)@.shift(op, operand),
            final(self)@.wf(),
    {
        reveal(CpuModel::shift);
        let value = self.read(operand);
        let (result, carry) = shift(op, value, self.registers.f.carry);
        self.write(operand, result);
        self.registers.f = FlagsRegister { zero: result == 0, subtract: false, half_carry: false, carry };
        result
    }

    /// A rotation of the accumulator by one of the short opcodes.
    fn rotate_a(&mut self, op: ShiftOp)
        ensures
            final(self)@.bus == old(self)@.bus,
            final(self)@ == old(self)@.rotate_a(op),
    {
        reveal(CpuModel::rotate_a);
        let (result, carry) = shift(op, self.registers.a, self.registers.f.carry);
        self.registers.a = result;
        self.registers.f = FlagsRegister { zero: false, subtract: false, half_carry: false, carry };
    }

    /// `RL`: rotates left through the carry.
    pub fn rl(&mut self, operand: Operand)
        requires
            old(self)@.wf(),
            operand.writable(),
        ensures
            final(self)@ == old(self)@.shift(ShiftOp::Rl, operand),
            final(self)@.wf(),
    {
        reveal(CpuModel::shift);
        self.shift(ShiftOp::Rl, operand);
    }

    /// `RLCA`.
    pub fn rlca(&mut self)
        ensures
            final(self)@.bus == old(self)@.bus,
            final(self)@ == old(self)@.rotate_a(ShiftOp::Rlc),
    {
        reveal(CpuModel::rotate_a);
        self.rotate_a(ShiftOp::Rlc);
    }

    /// `RLC`: rotates left. Returns the result.
    pub fn rlc(&mut self, operand: Operand) -> (result: u8)
        requires
            old(self)@.wf(),
            operand.writable(),
        ensures
            final(self)@ == old(self)@.shift(ShiftOp::Rlc, operand),
            final(self)@.wf(),
    {
        reveal(CpuModel::shift);
        self.shift(ShiftOp::Rlc, operand)
    }

    /// `RRCA`.
    pub fn rrca(&mut self)
        ensures
            final(self)@.bus == old(self)@.bus,
            final(self)@ == old(self)@.rotate_a(ShiftOp::Rrc),
    {
        reveal(CpuModel::rotate_a);
        self.rotate_a(ShiftOp::Rrc);
    }

    /// `RRC`: rotates right.
    pub fn rrc(&mut self, operand: Operand)
        requires
            old(self)@.wf(),
            operand.writable(),
        ensures
            final(self)@ == old(self)@.shift(ShiftOp::Rrc, operand),
            final(self)@.wf(),
    {
        reveal(CpuModel::shift);
        self.shift(ShiftOp::Rrc, operand);
    }

    /// `ADD HL, rr`.
    pub fn add_16(&mut self, reg: Reg16)
        ensures
            final(self)@.bus == old(self)@.bus,
            final(self)@ == old(self)@.add_word(reg),
    {
        reveal(CpuModel::add_word);
        let value = self.registers.read_16(reg);
        let hl = self.registers.read_16(Reg16::HL);
        let (sum, flags) = add16(hl, value, self.registers.f);
        self.registers.write_16(Reg16::HL, sum);
        self.registers.f = flags;
    }

    /// `RLA`.
    pub fn rla(&mut self)
        ensures
            final(self)@.bus == old(self)@.bus,
            final(self)@ == old(self)@.rotate_a(ShiftOp::Rl),
    {
        reveal(CpuModel::rotate_a);
        self.rotate_a(ShiftOp::Rl);
    }

    /// `RRA`.
    pub fn rra(&mut self)
        ensures
            final(self)@.bus == old(self)@.bus,
            final(self)@ == old(self)@.rotate_a(ShiftOp::Rr),
    {
        reveal(CpuModel::rotate_a);
        self.rotate_a(ShiftOp::Rr);
    }

    /// `RR`: rotates right through the carry.
    pub fn rr(&mut self, operand: Operand)
        requires
            old(self)@.wf(),
            operand.writable(),
        ensures
            final(self)@ == old(self)@.shift(ShiftOp::Rr, operand),
            final(self)@.wf(),
    {
        reveal(CpuModel::shift);
        self.shift(ShiftOp::Rr, operand);
    }

    /// `JR`: returns whether the jump was taken.
    pub fn jr(&mut self, condition: Condition) -> (should_jump: bool)
        requires
            old(self)@.wf(),
        ensures
            final(self)@ == old(self)@.jump_relative(condition),
            should_jump == condition.holds(old(self)@.registers.f),
            final(self)@.wf(),
    {
        reveal(CpuModel::jump_relative);
        let offset = self.fetch_byte();
        let should_jump = self.check_condition(condition);
        if should_jump {
            let pc = self.registers.pc;
            self.registers.pc = if offset < 128 {
                pc.wrapping_add(offset as u16)
            } else {
                pc.wrapping_sub(256 - offset as u16)
            };
            assert(self.registers.pc == wrap16(pc + signed(offset)));
        }
        should_jump
    }

    /// `JP nn`: returns whether the jump was taken.
    pub fn jp(&mut self, condition: Condition) -> (should_jump: bool)
        requires
            old(self)@.wf(),
        ensures
            final(self)@ == old(self)@.jump(condition),
            should_jump == condition.holds(old(self)@.registers.f),
            final(self)@.wf(),
    {
        reveal(CpuModel::jump);
        let address = self.fetch_word();
        let should_jump = self.check_condition(condition);
        if should_jump {
            self.registers.pc = address;
        }
        should_jump
    }

    /// `DAA`.
    pub fn daa(&mut self)
        ensures
            final(self)@.bus == old(self)@.bus,
            final(self)@ == old(self)@.daa(),
    {
        reveal(CpuModel::daa);
        let (a, flags) = daa(self.registers.a, self.registers.f);
        self.registers.a = a;
        self.registers.f = flags;
    }

    /// `CPL`.
    pub fn cpl(&mut self)
        ensures
            final(self)@.bus == old(self)@.bus,
            final(self)@ == old(self)@.cpl(),
    {
        reveal(CpuModel::cpl);
        self.registers.a = !self.registers.a;
        self.registers.f.subtract = true;
        self.registers.f.half_carry = true;
    }

    /// `CCF`.
    pub fn ccf(&mut self)
        ensures
            final(self)@.bus == old(self)@.bus,
            final(self)@ == old(self)@.ccf(),
    {
        reveal(CpuModel::ccf);
        self.registers.f.subtract = false;
        self.registers.f.half_carry = false;
        self.registers.f.carry = !self.registers.f.carry;
    }

    /// `LD`: moves a byte from `source` to `destination`.
    pub fn load(&mut self, destination: Operand, source: Operand)
        requires
            old(self)@.wf(),
            destination.writable(),
        ensures
            final(self)@ == old(self)@.load(destination, source),
            final(self)@.wf(),
    {
        reveal(CpuModel::load);
        let value = self.read(source);
        self.write(destination, value);
    }

    /// `CALL`: returns whether the call was made.
    pub fn call_subroutine(&mut self, condition: Condition) -> (called: bool)
        requires
            old(self)@.wf(),
        ensures
            final(self)@ == old(self)@.call_subroutine(condition),
            called == condition.holds(old(self)@.registers.f),
            final(self)@.wf(),
    {
        reveal(CpuModel::call_subroutine);
        let address = self.fetch_word();
        if self.check_condition(condition) {
            self.push_stack(self.registers.pc);
            self.registers.pc = address;
            true
        } else {
            false
        }
    }

    /// `RET`: returns whether the return was made.
    pub fn ret(&mut self, condition: Condition) -> (returned: bool)
        requires
            old(self)@.wf(),
        ensures
            final(self)@ == old(self)@.ret(condition),
            returned == condition.holds(old(self)@.registers.f),
            final(self)@.wf(),
    {
        reveal(CpuModel::ret);
        if self.check_condition(condition) {
            self.registers.pc = self.pop_stack();
            true
        } else {
            false
        }
    }

    /// `RETI`.
    pub fn reti(&mut self)
        requires
            old(self)@.wf(),
        ensures
            final(self)@ == old(self)@.reti(),
            final(self)@.wf(),
    {
        reveal(CpuModel::reti);
        self.interrupt_master_enable.reti();
        self.registers.pc = self.pop_stack();
    }

    /// `RST`: calls the routine at `vector`.
    pub fn rst(&mut self, vector: u8)
        requires
            old(self)@.wf(),
        ensures
            final(self)@ == old(self)@.restart(vector),
            final(self)@.wf(),
    {
        reveal(CpuModel::restart);
        self.push_stack(self.registers.pc);
        self.registers.pc = vector as u16;
    }

    /// `INC` of an 8-bit operand.
    pub fn alu_inc(&mut self, operand: Operand)
        requires
            old(self)@.wf(),
            operand.writable(),
        ensures
            final(self)@ == old(self)@.inc(operand),
            final(self)@.wf(),
    {
        reveal(CpuModel::inc);
        let value = self.read(operand);
        let (incremented_value, flags) = inc8(value, self.registers.f);
        self.write(operand, incremented_value);
        self.registers.f = flags;
    }

    /// `DEC` of an 8-bit operand.
    pub fn alu_dec(&mut self, operand: Operand)
        requires
            old(self)@.wf(),
            operand.writable(),
        ensures
            final(self)@ == old(self)@.dec(operand),
            final(self)@.wf(),
    {
        reveal(CpuModel::dec);
        let value = self.read(operand);
        let (decremented_value, flags) = dec8(value, self.registers.f);
        self.write(operand, decremented_value);
        self.registers.f = flags;
    }

    /// An operation of the accumulator against the operand.
    pub fn alu(&mut self, op: AluOp, operand: Operand)
        requires
            old(self)@.wf(),
        ensures
            final(self)@ == old(self)@.alu(op, operand),
            final(self)@.wf(),
    {
        reveal(CpuModel::alu);
        let value = self.read(operand);
        let (a, flags) = alu(op, self.registers.a, value, self.registers.f);
        self.registers.a = a;
        self.registers.f = flags;
    }

    /// `XOR`.
    pub fn alu_xor(&mut self, operand: Operand)
        requires
            old(self)@.wf(),
        ensures
            final(self)@ == old(self)@.alu(AluOp::Xor, operand),
            final(self)@.wf(),
    {
        reveal(CpuModel::alu);
        self.alu(AluOp::Xor, operand)
    }

    /// `BIT`: tests bit `bit` of the operand.
    pub fn bit(&mut self, operand: Operand, bit: u8)
        requires
            old(self)@.wf(),
            bit < 8,
        ensures
            final(self)@ == old(self)@.test_bit(bit, operand),
            final(self)@.wf(),
    {
        reveal(CpuModel::test_bit);
        let value = self.read(operand);
        self.registers.f.zero = value & (1u8 << bit) == 0;
        self.registers.f.subtract = false;
        self.registers.f.half_carry = true;
    }

    /// `OR`.
    pub fn alu_or(&mut self, operand: Operand)
        requires
            old(self)@.wf(),
        ensures
            final(self)@ == old(self)@.alu(AluOp::Or, operand),
            final(self)@.wf(),
    {
        reveal(CpuModel::alu);
        self.alu(AluOp::Or, operand)
    }

    /// `AND`.
    pub fn alu_and(&mut self, operand: Operand)
        requires
            old(self)@.wf(),
        ensures
            final(self)@ == old(self)@.alu(AluOp::And, operand),
            final(self)@.wf(),
    {
        reveal(CpuModel::alu);
        self.alu(AluOp::And, operand)
    }

    /// `CP`.
    pub fn alu_cp(&mut self, operand: Operand)
        requires
            old(self)@.wf(),
        ensures
            final(self)@ == old(self)@.alu(AluOp::Cp, operand),
            final(self)@.wf(),
    {
        reveal(CpuModel::alu);
        self.alu(AluOp::Cp, operand)
    }

    /// `ADC`.
    pub fn alu_adc(&mut self, operand: Operand)
        requires
            old(self)@.wf(),
        ensures
            final(self)@ == old(self)@.alu(AluOp::Adc, operand),
            final(self)@.wf(),
    {
        reveal(CpuModel::alu);
        self.alu(AluOp::Adc, operand)
    }

    /// `ADD`.
    pub fn alu_add(&mut self, operand: Operand)
        requires
            old(self)@.wf(),
        ensures
            final(self)@ == old(self)@.alu(AluOp::Add, operand),
            final(self)@.wf(),
    {
        reveal(CpuModel::alu);
        self.alu(AluOp::Add, operand)
    }

    /// `SUB`.
    pub fn alu_sub(&mut self, operand: Operand)
        requires
            old(self)@.wf(),
        ensures
            final(self)@ == old(self)@.alu(AluOp::Sub, operand),
            final(self)@.wf(),
    {
        reveal(CpuModel::alu);
        self.alu(AluOp::Sub, operand)
    }

    /// `SBC`.
    pub fn alu_sbc(&mut self, operand: Operand)
        requires
            old(self)@.wf(),
        ensures
            final(self)@ == old(self)@.alu(AluOp::Sbc, operand),
            final(self)@.wf(),
    {
        reveal(CpuModel::alu);
        self.alu(AluOp::Sbc, operand)
    }

    /// `SRL`: shifts right, bit 7 becomes 0.
    pub fn srl(&mut self, operand: Operand)
        requires
            old(self)@.wf(),
            operand.writable(),
        ensures
            final(self)@ == old(self)@.shift(ShiftOp::Srl, operand),
            final(self)@.wf(),
    {
        reveal(CpuModel::shift);
        self.shift(ShiftOp::Srl, operand);
    }

    /// `SWAP`: exchanges the nibbles.
    pub fn swap(&mut self, operand: Operand)
        requires
            old(self)@.wf(),
            operand.writable(),
        ensures
            final(self)@ == old(self)@.shift(ShiftOp::Swap, operand),
            final(self)@.wf(),
    {
        reveal(CpuModel::shift);
        self.shift(ShiftOp::Swap, operand);
    }

    /// Fetches a signed offset and adds it to `value`; the flags are set
    /// as `ADD SP, s8` sets them.
    pub fn alu_add_s8(&mut self, value: u16) -> (sum: u16)
        requires
            old(self)@.wf(),
        ensures
            sum == add_offset_result(value, old(self)@.fetch_byte().1).0,
            final(self)@ == old(self)@.fetch_byte().0.with_flags(
                add_offset_result(value, old(self)@.fetch_byte().1).1,
            ),
            final(self)@.wf(),
    {
        let byte = self.fetch_byte();
        let (sum, flags) = add_offset(value, byte);
        self.registers.f = flags;
        sum
    }

    /// `SLA`: shifts left, bit 0 becomes 0.
    pub fn sla(&mut self, operand: Operand)
        requires
            old(self)@.wf(),
            operand.writable(),
        ensures
            final(self)@ == old(self)@.shift(ShiftOp::Sla, operand),
            final(self)@.wf(),
    {
        reveal(CpuModel::shift);
        self.shift(ShiftOp::Sla, operand);
    }

    /// `SRA`: shifts right, bit 7 stays.
    pub fn sra(&mut self, operand: Operand)
        requires
            old(self)@.wf(),
            operand.writable(),
        ensures
            final(self)@ == old(self)@.shift(ShiftOp::Sra, operand),
            final(self)@.wf(),
    {
        reveal(CpuModel::shift);
        self.shift(ShiftOp::Sra, operand);
    }

    /// `RES`: clears bit `bit` of the operand.
    pub fn res(&mut self, operand: Operand, bit: u8)
        requires
            old(self)@.wf(),
            operand.writable(),
            bit < 8,
        ensures
            final(self)@ == old(self)@.reset_bit(bit, operand),
            final(self)@.wf(),
    {
        reveal(CpuModel::reset_bit);
        let value = self.read(operand);
        let result = value & !(1u8 << bit);
        self.write(operand, result);
    }

    /// `SET`: sets bit `bit` of the operand.
    pub fn set(&mut self, operand: Operand, bit: u8)
        requires
            old(self)@.wf(),
            operand.writable(),
            bit < 8,
        ensures
            final(self)@ == old(self)@.set_bit(bit, operand),
            final(self)@.wf(),
    {
        reveal(CpuModel::set_bit);
        let value = self.read(operand);
        let result = value | (1u8 << bit);
        self.write(operand, result);
    }

    /// `HALT`.
    pub fn halt(&mut self)
        ensures
            final(self)@.bus == old(self)@.bus,
            final(self)@ == old(self)@.halt(),
    {
        reveal(CpuModel::halt);
        self.is_halted = true;
    }

    /// `DI`.
    pub fn di(&mut self)
        ensures
            final(self)@.bus == old(self)@.bus,
            final(self)@ == old(self)@.di(),
    {
        reveal(CpuModel::di);
        self.interrupt_master_enable.di();
    }

    /// `EI`.
    pub fn ei(&mut self)
        ensures
            final(self)@.bus == old(self)@.bus,
            final(self)@ == old(self)@.ei(),
    {
        reveal(CpuModel::ei);
        self.interrupt_master_enable.ei();
    }

    /// `SCF`.
    pub fn scf(&mut self)
        ensures
            final(self)@.bus == old(self)@.bus,
            final(self)@ == old(self)@.scf(),
    {
        reveal(CpuModel::scf);
        self.registers.f.scf();
    }

    /// `LD rr, nn`.
    pub fn load_word(&mut self, pair: Reg16)
        requires
            old(self)@.wf(),
        ensures
            final(self)@ == old(self)@.load_word(pair),
            final(self)@.wf(),
    {
        reveal(CpuModel::load_word);
        let word = self.fetch_word();
        self.registers.write_16(pair, word);
    }

    /// `LD (nn), SP`.
    pub fn store_stack_pointer(&mut self)
        requires
            old(self)@.wf(),
        ensures
            final(self)@ == old(self)@.store_stack_pointer(),
            final(self)@.wf(),
    {
        reveal(CpuModel::store_stack_pointer);
        let address = self.fetch_word();
        self.bus.write_word(address, self.registers.sp);
    }

    /// `LD SP, HL`.
    pub fn load_stack_pointer(&mut self)
        ensures
            final(self)@.bus == old(self)@.bus,
            final(self)@ == old(self)@.load_stack_pointer(),
    {
        reveal(CpuModel::load_stack_pointer);
        self.registers.sp = self.registers.read_16(Reg16::HL);
    }

    /// `LD HL, SP+s8`.
    pub fn load_stack_offset(&mut self)
        requires
            old(self)@.wf(),
        ensures
            final(self)@ == old(self)@.load_stack_offset(),
            final(self)@.wf(),
    {
        reveal(CpuModel::load_stack_offset);
        let sum = self.alu_add_s8(self.registers.sp);
        self.registers.write_16(Reg16::HL, sum);
    }

    /// `ADD SP, s8`.
    pub fn add_stack_offset(&mut self)
        requires
            old(self)@.wf(),
        ensures
            final(self)@ == old(self)@.add_stack_offset(),
            final(self)@.wf(),
    {
        reveal(CpuModel::add_stack_offset);
        self.registers.sp = self.alu_add_s8(self.registers.sp);
    }

    /// `PUSH rr`.
    pub fn push(&mut self, pair: Reg16)
        requires
            old(self)@.wf(),
        ensures
            final(self)@ == old(self)@.push(pair),
            final(self)@.wf(),
    {
        reveal(CpuModel::push);
        self.push_stack(self.registers.read_16(pair));
    }

    /// `POP rr`.
    pub fn pop(&mut self, pair: Reg16)
        requires
            old(self)@.wf(),
        ensures
            final(self)@ == old(self)@.pop(pair),
            final(self)@.wf(),
    {
        reveal(CpuModel::pop);
        let value = self.pop_stack();
        self.registers.write_16(pair, value);
    }

    /// `JP HL`.
    pub fn jump_hl(&mut self)
        ensures
            final(self)@.bus == old(self)@.bus,
            final(self)@ == old(self)@.jump_hl(),
    {
        reveal(CpuModel::jump_hl);
        self.registers.pc = self.registers.read_16(Reg16::HL);
    }
}

} // verus!
