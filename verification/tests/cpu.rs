use gameboy::bootrom::Bootrom;
use gameboy::cartridge::Cartridge;
use gameboy::cpu::alu::AluOp;
use gameboy::cpu::alu::ShiftOp;
use gameboy::cpu::condition::Condition;
use gameboy::cpu::read_write::Operand;
use gameboy::cpu::CpuError;
use gameboy::cpu::CPU;
use gameboy::instruction::Instruction;
use gameboy::registers::FlagsRegister;
use gameboy::registers::Reg16;

fn cpu_with(program: &[u8]) -> CPU {
    let mut rom = vec![0u8; 0x8000];
    for (i, byte) in program.iter().enumerate() {
        rom[0x100 + i] = *byte;
    }
    match Cartridge::from_bytes(rom, None) {
        Ok(cartridge) => CPU::new_after_boot(cartridge, Bootrom::new([0; 0x100])),
        Err(_) => panic!("the test image is a cartridge"),
    }
}

fn cpu_flags(zero: bool, subtract: bool, half_carry: bool, carry: bool) -> FlagsRegister {
    FlagsRegister { zero, subtract, half_carry, carry }
}

fn cpu_run(cpu: &mut CPU, steps: usize) -> u32 {
    let mut cycles = 0;
    for _ in 0..steps {
        match cpu.cycle() {
            Ok(spent) => cycles += spent,
            Err(_) => panic!("the program holds instructions only"),
        }
    }
    cycles
}

#[test]
fn sub_b_from_zero() {
    let mut cpu = cpu_with(&[0x90]);
    cpu.registers.a = 0x00;
    cpu.registers.b = 0x01;
    assert_eq!(cpu.cycle(), Ok(1));
    assert_eq!(cpu.registers.a, 0xff);
    assert_eq!(cpu.registers.f, cpu_flags(false, true, true, true));
}

#[test]
fn add_b_to_ff() {
    let mut cpu = cpu_with(&[0x80]);
    cpu.registers.a = 0xff;
    cpu.registers.b = 0x01;
    assert_eq!(cpu.cycle(), Ok(1));
    assert_eq!(cpu.registers.a, 0x00);
    assert_eq!(cpu.registers.f, cpu_flags(true, false, true, true));
}

#[test]
fn swap_a() {
    let mut cpu = cpu_with(&[0xcb, 0x37]);
    cpu.registers.a = 0xa5;
    cpu.registers.f = cpu_flags(true, true, true, true);
    assert_eq!(cpu.cycle(), Ok(2));
    assert_eq!(cpu.registers.a, 0x5a);
    assert_eq!(cpu.registers.f, cpu_flags(false, false, false, false));
}

#[test]
fn bit_7_of_a() {
    let mut cpu = cpu_with(&[0xcb, 0x7f, 0xcb, 0x7f]);
    cpu.registers.f = cpu_flags(true, true, false, true);
    cpu.registers.a = 0x80;
    assert_eq!(cpu.cycle(), Ok(2));
    assert_eq!(cpu.registers.f, cpu_flags(false, false, true, true));
    cpu.registers.a = 0x7f;
    assert_eq!(cpu.cycle(), Ok(2));
    assert_eq!(cpu.registers.f, cpu_flags(true, false, true, true));
    assert_eq!(cpu.registers.a, 0x7f);
}

#[test]
fn instruction_methods_agree_with_the_opcodes() {
    let mut cpu = cpu_with(&[]);
    cpu.registers.a = 0x00;
    cpu.registers.b = 0x01;
    cpu.alu_sub(Operand::RegB);
    assert_eq!(cpu.registers.a, 0xff);
    assert_eq!(cpu.registers.f, cpu_flags(false, true, true, true));
    cpu.alu_add(Operand::RegB);
    assert_eq!(cpu.registers.a, 0x00);
    assert_eq!(cpu.registers.f, cpu_flags(true, false, true, true));
    cpu.registers.a = 0xa5;
    cpu.swap(Operand::RegA);
    assert_eq!(cpu.registers.a, 0x5a);
    cpu.bit(Operand::RegA, 7);
    assert!(cpu.registers.f.zero);
    cpu.set(Operand::RegA, 7);
    assert_eq!(cpu.registers.a, 0xda);
    cpu.bit(Operand::RegA, 7);
    assert!(!cpu.registers.f.zero);
    cpu.res(Operand::RegA, 1);
    assert_eq!(cpu.registers.a, 0xd8);
    cpu.alu(AluOp::Xor, Operand::RegA);
    assert_eq!(cpu.registers.a, 0x00);
    assert_eq!(cpu.shift(ShiftOp::Rl, Operand::RegB), 0x02);
    assert_eq!(cpu.rlc(Operand::RegB), 0x04);
    assert_eq!(cpu.registers.pc, 0x0100);
}

#[test]
fn loads_between_registers_and_memory() {
    // LD A, 12; LD B, A; LD HL, c000; LD (HL), B; LD C, (HL); LD (HL+), A; LD (HL-), A; LD A, (HL+)
    let mut cpu = cpu_with(&[0x3e, 0x12, 0x47, 0x21, 0x00, 0xc0, 0x70, 0x4e, 0x22, 0x32, 0x2a]);
    assert_eq!(cpu_run(&mut cpu, 5), 2 + 1 + 3 + 2 + 2);
    assert_eq!(cpu.registers.b, 0x12);
    assert_eq!(cpu.registers.c, 0x12);
    assert_eq!(cpu.bus.read_byte(0xc000), 0x12);
    assert_eq!(cpu.cycle(), Ok(2));
    assert_eq!(cpu.registers.read_16(Reg16::HL), 0xc001);
    assert_eq!(cpu.cycle(), Ok(2));
    assert_eq!(cpu.bus.read_byte(0xc001), 0x12);
    assert_eq!(cpu.registers.read_16(Reg16::HL), 0xc000);
    cpu.registers.a = 0;
    assert_eq!(cpu.cycle(), Ok(2));
    assert_eq!(cpu.registers.a, 0x12);
    assert_eq!(cpu.registers.read_16(Reg16::HL), 0xc001);
}

#[test]
fn loads_through_bc_and_de() {
    // LD BC, c010; LD DE, c020; LD A, 77; LD (BC), A; LD (DE), A; LD A, 00; LD A, (BC); LD A, (DE)
    let mut cpu = cpu_with(&[0x01, 0x10, 0xc0, 0x11, 0x20, 0xc0, 0x3e, 0x77, 0x02, 0x12, 0x3e, 0x00, 0x0a, 0x1a]);
    assert_eq!(cpu_run(&mut cpu, 5), 3 + 3 + 2 + 2 + 2);
    assert_eq!(cpu.bus.read_byte(0xc010), 0x77);
    assert_eq!(cpu.bus.read_byte(0xc020), 0x77);
    cpu.bus.write_byte(0xc010, 0x11);
    cpu.bus.write_byte(0xc020, 0x22);
    assert_eq!(cpu_run(&mut cpu, 2), 2 + 2);
    assert_eq!(cpu.registers.a, 0x11);
    assert_eq!(cpu.cycle(), Ok(2));
    assert_eq!(cpu.registers.a, 0x22);
}

#[test]
fn high_page_and_absolute_loads() {
    // LD A, 5a; LDH (80), A; LD C, 81; LD (C), A; LD (c123), A; LD A, 00; LDH A, (80); LD A, (C); LD A, (c123)
    let mut cpu = cpu_with(&[
        0x3e, 0x5a, 0xe0, 0x80, 0x0e, 0x81, 0xe2, 0xea, 0x23, 0xc1, 0x3e, 0x00, 0xf0, 0x80, 0xf2, 0xfa, 0x23, 0xc1,
    ]);
    assert_eq!(cpu_run(&mut cpu, 5), 2 + 3 + 2 + 2 + 4);
    assert_eq!(cpu.bus.read_byte(0xff80), 0x5a);
    assert_eq!(cpu.bus.read_byte(0xff81), 0x5a);
    assert_eq!(cpu.bus.read_byte(0xc123), 0x5a);
    cpu.bus.write_byte(0xff80, 0x01);
    cpu.bus.write_byte(0xff81, 0x02);
    cpu.bus.write_byte(0xc123, 0x03);
    assert_eq!(cpu_run(&mut cpu, 2), 2 + 3);
    assert_eq!(cpu.registers.a, 0x01);
    assert_eq!(cpu.cycle(), Ok(2));
    assert_eq!(cpu.registers.a, 0x02);
    assert_eq!(cpu.cycle(), Ok(4));
    assert_eq!(cpu.registers.a, 0x03);
    assert_eq!(cpu.registers.pc, 0x0112);
}

#[test]
fn sixteen_bit_loads() {
    // LD SP, d000; LD (c000), SP; LD HL, c0de; LD SP, HL; LD HL, SP+02; ADD SP, fe
    let mut cpu = cpu_with(&[0x31, 0x00, 0xd0, 0x08, 0x00, 0xc0, 0x21, 0xde, 0xc0, 0xf9, 0xf8, 0x02, 0xe8, 0xfe]);
    assert_eq!(cpu_run(&mut cpu, 2), 3 + 5);
    assert_eq!(cpu.bus.read_word(0xc000), 0xd000);
    assert_eq!(cpu_run(&mut cpu, 2), 3 + 2);
    assert_eq!(cpu.registers.sp, 0xc0de);
    assert_eq!(cpu.cycle(), Ok(3));
    assert_eq!(cpu.registers.read_16(Reg16::HL), 0xc0e0);
    assert_eq!(cpu.registers.f, cpu_flags(false, false, true, false));
    assert_eq!(cpu.cycle(), Ok(4));
    assert_eq!(cpu.registers.sp, 0xc0dc);
    assert_eq!(cpu.registers.f, cpu_flags(false, false, true, true));
}

#[test]
fn push_then_pop_returns_the_word_and_the_stack_pointer() {
    let mut cpu = cpu_with(&[]);
    for sp in [0xfffeu16, 0xe000, 0xd000, 0xc002, 0xff82] {
        for value in [0x0000u16, 0x1234, 0xffff, 0xa55a] {
            cpu.registers.sp = sp;
            cpu.push_stack(value);
            assert_eq!(cpu.registers.sp, sp.wrapping_sub(2));
            assert_eq!(cpu.bus.read_byte(sp.wrapping_sub(2)), (value & 0xff) as u8);
            assert_eq!(cpu.bus.read_byte(sp.wrapping_sub(1)), (value >> 8) as u8);
            assert_eq!(cpu.pop_stack(), value);
            assert_eq!(cpu.registers.sp, sp);
        }
    }
}

#[test]
fn push_and_pop_pairs() {
    // LD BC, 1234; PUSH BC; POP DE; PUSH AF; POP HL
    let mut cpu = cpu_with(&[0x01, 0x34, 0x12, 0xc5, 0xd1, 0xf5, 0xe1]);
    assert_eq!(cpu_run(&mut cpu, 3), 3 + 4 + 3);
    assert_eq!(cpu.registers.read_16(Reg16::DE), 0x1234);
    assert_eq!(cpu.registers.sp, 0xfffe);
    cpu.registers.a = 0x9c;
    cpu.registers.f = cpu_flags(true, false, true, false);
    assert_eq!(cpu_run(&mut cpu, 2), 4 + 3);
    assert_eq!(cpu.registers.read_16(Reg16::HL), 0x9ca0);
}

#[test]
fn pop_af_drops_the_low_nibble() {
    // LD BC, 12ff; PUSH BC; POP AF; PUSH AF
    let mut cpu = cpu_with(&[0x01, 0xff, 0x12, 0xc5, 0xf1, 0xf5]);
    assert_eq!(cpu_run(&mut cpu, 3), 3 + 4 + 3);
    assert_eq!(cpu.registers.a, 0x12);
    assert_eq!(cpu.registers.f, cpu_flags(true, true, true, true));
    assert_eq!(cpu.registers.read_16(Reg16::AF), 0x12f0);
    assert_eq!(cpu.cycle(), Ok(4));
    assert_eq!(cpu.bus.read_word(cpu.registers.sp), 0x12f0);
}

#[test]
fn jumps() {
    // JP 0110 ... at 0110: JR +02; (skipped) ; at 0114: JR -02 (to itself)
    let mut program = vec![0xc3, 0x10, 0x01];
    program.resize(0x10, 0x00);
    program.extend_from_slice(&[0x18, 0x02, 0x00, 0x00, 0x18, 0xfe]);
    let mut cpu = cpu_with(&program);
    assert_eq!(cpu.cycle(), Ok(4));
    assert_eq!(cpu.registers.pc, 0x0110);
    assert_eq!(cpu.cycle(), Ok(3));
    assert_eq!(cpu.registers.pc, 0x0114);
    assert_eq!(cpu.cycle(), Ok(3));
    assert_eq!(cpu.registers.pc, 0x0114);
}

#[test]
fn conditional_jumps_follow_the_flags() {
    // JR NZ, +10; JR Z, +10
    let mut cpu = cpu_with(&[0x20, 0x10, 0x28, 0x10]);
    cpu.registers.f = cpu_flags(true, false, false, false);
    assert_eq!(cpu.cycle(), Ok(2));
    assert_eq!(cpu.registers.pc, 0x0102);
    assert_eq!(cpu.cycle(), Ok(3));
    assert_eq!(cpu.registers.pc, 0x0114);
    // JP C, 0200; JP NC, 0200
    let mut cpu = cpu_with(&[0xda, 0x00, 0x02, 0xd2, 0x00, 0x02]);
    cpu.registers.f = cpu_flags(false, false, false, false);
    assert_eq!(cpu.cycle(), Ok(3));
    assert_eq!(cpu.registers.pc, 0x0103);
    assert_eq!(cpu.cycle(), Ok(4));
    assert_eq!(cpu.registers.pc, 0x0200);
}

#[test]
fn jump_to_hl() {
    let mut cpu = cpu_with(&[0xe9]);
    cpu.registers.write_16(Reg16::HL, 0x4321);
    assert_eq!(cpu.cycle(), Ok(1));
    assert_eq!(cpu.registers.pc, 0x4321);
}

#[test]
fn call_and_return() {
    // CALL 0110; INC B ... at 0110: INC C; RET
    let mut program = vec![0xcd, 0x10, 0x01, 0x04];
    program.resize(0x10, 0x00);
    program.extend_from_slice(&[0x0c, 0xc9]);
    let mut cpu = cpu_with(&program);
    cpu.registers.write_16(Reg16::BC, 0x0000);
    assert_eq!(cpu.cycle(), Ok(6));
    assert_eq!(cpu.registers.pc, 0x0110);
    assert_eq!(cpu.registers.sp, 0xfffc);
    assert_eq!(cpu.bus.read_word(0xfffc), 0x0103);
    assert_eq!(cpu_run(&mut cpu, 2), 1 + 4);
    assert_eq!(cpu.registers.pc, 0x0103);
    assert_eq!(cpu.registers.sp, 0xfffe);
    assert_eq!(cpu.cycle(), Ok(1));
    assert_eq!(cpu.registers.read_16(Reg16::BC), 0x0101);
}

#[test]
fn conditional_call_and_return() {
    // CALL Z, 0110; CALL NZ, 0110 ... at 0110: RET Z; RET NZ
    let mut program = vec![0xcc, 0x10, 0x01, 0xc4, 0x10, 0x01];
    program.resize(0x10, 0x00);
    program.extend_from_slice(&[0xc8, 0xc0]);
    let mut cpu = cpu_with(&program);
    cpu.registers.f = cpu_flags(false, false, false, false);
    assert_eq!(cpu.cycle(), Ok(3));
    assert_eq!(cpu.registers.pc, 0x0103);
    assert_eq!(cpu.registers.sp, 0xfffe);
    assert_eq!(cpu.cycle(), Ok(6));
    assert_eq!(cpu.registers.pc, 0x0110);
    assert_eq!(cpu.bus.read_word(0xfffc), 0x0106);
    assert_eq!(cpu.cycle(), Ok(2));
    assert_eq!(cpu.registers.pc, 0x0111);
    assert_eq!(cpu.cycle(), Ok(5));
    assert_eq!(cpu.registers.pc, 0x0106);
}

#[test]
fn restarts() {
    for (opcode, vector) in [(0xc7u8, 0x00u16), (0xcf, 0x08), (0xd7, 0x10), (0xdf, 0x18), (0xe7, 0x20), (0xef, 0x28), (0xf7, 0x30), (0xff, 0x38)] {
        let mut cpu = cpu_with(&[opcode]);
        assert_eq!(cpu.cycle(), Ok(4));
        assert_eq!(cpu.registers.pc, vector);
        assert_eq!(cpu.bus.read_word(cpu.registers.sp), 0x0101);
        assert_eq!(cpu.registers.sp, 0xfffc);
    }
}

#[test]
fn inc_and_dec_in_memory() {
    // LD HL, c000; LD (HL), ff; INC (HL); DEC (HL); DEC (HL)
    let mut cpu = cpu_with(&[0x21, 0x00, 0xc0, 0x36, 0xff, 0x34, 0x35, 0x35]);
    cpu.registers.f = cpu_flags(false, false, false, true);
    assert_eq!(cpu_run(&mut cpu, 3), 3 + 3 + 3);
    assert_eq!(cpu.bus.read_byte(0xc000), 0x00);
    assert_eq!(cpu.registers.f, cpu_flags(true, false, true, true));
    assert_eq!(cpu.cycle(), Ok(3));
    assert_eq!(cpu.bus.read_byte(0xc000), 0xff);
    assert_eq!(cpu.registers.f, cpu_flags(false, true, true, true));
    assert_eq!(cpu.cycle(), Ok(3));
    assert_eq!(cpu.bus.read_byte(0xc000), 0xfe);
    assert_eq!(cpu.registers.f, cpu_flags(false, true, false, true));
}

#[test]
fn sixteen_bit_arithmetic() {
    // LD BC, ffff; INC BC; DEC BC; LD HL, 0fff; ADD HL, BC; ADD HL, HL
    let mut cpu = cpu_with(&[0x01, 0xff, 0xff, 0x03, 0x0b, 0x21, 0xff, 0x0f, 0x09, 0x29]);
    let flags = cpu_flags(true, true, false, false);
    cpu.registers.f = flags;
    assert_eq!(cpu_run(&mut cpu, 2), 3 + 2);
    assert_eq!(cpu.registers.read_16(Reg16::BC), 0x0000);
    assert_eq!(cpu.registers.f, flags);
    assert_eq!(cpu.cycle(), Ok(2));
    assert_eq!(cpu.registers.read_16(Reg16::BC), 0xffff);
    assert_eq!(cpu.registers.f, flags);
    assert_eq!(cpu_run(&mut cpu, 2), 3 + 2);
    assert_eq!(cpu.registers.read_16(Reg16::HL), 0x0ffe);
    assert_eq!(cpu.registers.f, cpu_flags(true, false, true, true));
    assert_eq!(cpu.cycle(), Ok(2));
    assert_eq!(cpu.registers.read_16(Reg16::HL), 0x1ffc);
    assert_eq!(cpu.registers.f, cpu_flags(true, false, true, false));
}

#[test]
fn accumulator_rotations_clear_z() {
    // RLCA; RLA; RRCA; RRA
    let mut cpu = cpu_with(&[0x07, 0x17, 0x0f, 0x1f]);
    cpu.registers.a = 0x80;
    cpu.registers.f = cpu_flags(true, true, true, false);
    assert_eq!(cpu.cycle(), Ok(1));
    assert_eq!(cpu.registers.a, 0x01);
    assert_eq!(cpu.registers.f, cpu_flags(false, false, false, true));
    cpu.registers.a = 0x80;
    cpu.registers.f = cpu_flags(true, false, false, false);
    assert_eq!(cpu.cycle(), Ok(1));
    assert_eq!(cpu.registers.a, 0x00);
    assert_eq!(cpu.registers.f, cpu_flags(false, false, false, true));
    cpu.registers.a = 0x01;
    assert_eq!(cpu.cycle(), Ok(1));
    assert_eq!(cpu.registers.a, 0x80);
    assert_eq!(cpu.registers.f, cpu_flags(false, false, false, true));
    cpu.registers.a = 0x02;
    assert_eq!(cpu.cycle(), Ok(1));
    assert_eq!(cpu.registers.a, 0x81);
    assert_eq!(cpu.registers.f, cpu_flags(false, false, false, false));
}

#[test]
fn prefixed_rotations_set_z_from_the_result() {
    // RLC B; SLA B; SRL A; SRA (HL)
    let mut cpu = cpu_with(&[0xcb, 0x00, 0xcb, 0x20, 0xcb, 0x3f, 0xcb, 0x2e]);
    cpu.registers.b = 0x00;
    cpu.registers.f = cpu_flags(false, true, true, true);
    assert_eq!(cpu.cycle(), Ok(2));
    assert_eq!(cpu.registers.f, cpu_flags(true, false, false, false));
    cpu.registers.b = 0x80;
    assert_eq!(cpu.cycle(), Ok(2));
    assert_eq!(cpu.registers.b, 0x00);
    assert_eq!(cpu.registers.f, cpu_flags(true, false, false, true));
    cpu.registers.a = 0x01;
    assert_eq!(cpu.cycle(), Ok(2));
    assert_eq!(cpu.registers.a, 0x00);
    assert_eq!(cpu.registers.f, cpu_flags(true, false, false, true));
    cpu.registers.write_16(Reg16::HL, 0xc000);
    cpu.bus.write_byte(0xc000, 0x82);
    assert_eq!(cpu.cycle(), Ok(4));
    assert_eq!(cpu.bus.read_byte(0xc000), 0xc1);
    assert_eq!(cpu.registers.f, cpu_flags(false, false, false, false));
}

#[test]
fn res_and_set_leave_the_flags_alone() {
    // SET 3, (HL); RES 0, (HL); SET 7, A; RES 7, A
    let mut cpu = cpu_with(&[0xcb, 0xde, 0xcb, 0x86, 0xcb, 0xff, 0xcb, 0xbf]);
    let flags = cpu_flags(true, false, true, false);
    cpu.registers.f = flags;
    cpu.registers.write_16(Reg16::HL, 0xc000);
    cpu.bus.write_byte(0xc000, 0x01);
    cpu.registers.a = 0x00;
    assert_eq!(cpu.cycle(), Ok(4));
    assert_eq!(cpu.bus.read_byte(0xc000), 0x09);
    assert_eq!(cpu.cycle(), Ok(4));
    assert_eq!(cpu.bus.read_byte(0xc000), 0x08);
    assert_eq!(cpu.cycle(), Ok(2));
    assert_eq!(cpu.registers.a, 0x80);
    assert_eq!(cpu.cycle(), Ok(2));
    assert_eq!(cpu.registers.a, 0x00);
    assert_eq!(cpu.registers.f, flags);
}

#[test]
fn bit_tests_each_bit() {
    for bit in 0..8u8 {
        let mut cpu = cpu_with(&[0xcb, 0x40 + 8 * bit, 0xcb, 0x40 + 8 * bit]);
        cpu.registers.b = 1 << bit;
        assert_eq!(cpu.cycle(), Ok(2));
        assert!(!cpu.registers.f.zero);
        cpu.registers.b = !(1 << bit);
        assert_eq!(cpu.cycle(), Ok(2));
        assert!(cpu.registers.f.zero);
    }
}

#[test]
fn cpl_scf_ccf() {
    let mut cpu = cpu_with(&[0x2f, 0x37, 0x3f, 0x3f]);
    cpu.registers.a = 0x35;
    cpu.registers.f = cpu_flags(true, false, false, false);
    assert_eq!(cpu.cycle(), Ok(1));
    assert_eq!(cpu.registers.a, 0xca);
    assert_eq!(cpu.registers.f, cpu_flags(true, true, true, false));
    assert_eq!(cpu.cycle(), Ok(1));
    assert_eq!(cpu.registers.f, cpu_flags(true, false, false, true));
    assert_eq!(cpu.cycle(), Ok(1));
    assert_eq!(cpu.registers.f, cpu_flags(true, false, false, false));
    assert_eq!(cpu.cycle(), Ok(1));
    assert_eq!(cpu.registers.f, cpu_flags(true, false, false, true));
}

#[test]
fn daa_keeps_n() {
    // LD A, 15; ADD A, 27; DAA; SUB 13; DAA
    let mut cpu = cpu_with(&[0x3e, 0x15, 0xc6, 0x27, 0x27, 0xd6, 0x13, 0x27]);
    assert_eq!(cpu_run(&mut cpu, 3), 2 + 2 + 1);
    assert_eq!(cpu.registers.a, 0x42);
    assert_eq!(cpu.registers.f, cpu_flags(false, false, false, false));
    assert_eq!(cpu_run(&mut cpu, 2), 2 + 1);
    assert_eq!(cpu.registers.a, 0x29);
    assert_eq!(cpu.registers.f, cpu_flags(false, true, false, false));
}

#[test]
fn an_interrupt_is_taken_before_the_fetch() {
    let mut cpu = cpu_with(&[0x04]);
    cpu.bus.interrupt_enable_register = 0x05;
    cpu.bus.interrupt_flag = 0x05;
    assert_eq!(cpu.cycle(), Ok(5));
    assert_eq!(cpu.registers.pc, 0x0040);
    assert_eq!(cpu.bus.interrupt_flag, 0x04);
    assert_eq!(cpu.bus.read_word(cpu.registers.sp), 0x0100);
    assert_eq!(cpu.registers.sp, 0xfffc);
    assert!(!cpu.interrupt_master_enable.value);
    // the master enable is off: the timer interrupt waits
    assert_eq!(cpu.cycle(), Ok(1));
    assert_eq!(cpu.registers.pc, 0x0041);
    assert_eq!(cpu.bus.interrupt_flag, 0x04);
}

#[test]
fn interrupts_are_served_lowest_bit_first() {
    for (flags, rest, vector) in [(0x1fu8, 0x1eu8, 0x0040u16), (0x1e, 0x1c, 0x0048), (0x1c, 0x18, 0x0050), (0x18, 0x10, 0x0058), (0x10, 0x00, 0x0060)] {
        let mut cpu = cpu_with(&[]);
        cpu.bus.interrupt_enable_register = 0xff;
        cpu.bus.interrupt_flag = flags;
        assert_eq!(cpu.cycle(), Ok(5));
        assert_eq!(cpu.registers.pc, vector);
        assert_eq!(cpu.bus.interrupt_flag, rest);
    }
}

#[test]
fn only_enabled_interrupts_are_taken() {
    let mut cpu = cpu_with(&[0x00, 0x00]);
    cpu.bus.interrupt_enable_register = 0x02;
    cpu.bus.interrupt_flag = 0x05;
    assert_eq!(cpu.cycle(), Ok(1));
    assert_eq!(cpu.registers.pc, 0x0101);
    // bits 5 to 7 of the two registers stand for no interrupt
    cpu.bus.interrupt_enable_register = 0xe0;
    cpu.bus.interrupt_flag = 0xe0;
    assert_eq!(cpu.cycle(), Ok(1));
    assert_eq!(cpu.registers.pc, 0x0102);
    assert_eq!(cpu.bus.interrupt_flag, 0xe0);
}

#[test]
fn ei_takes_effect_after_one_more_instruction() {
    // EI; INC B; INC B
    let mut cpu = cpu_with(&[0xfb, 0x04, 0x04]);
    cpu.interrupt_master_enable.value = false;
    cpu.bus.interrupt_enable_register = 0x01;
    cpu.bus.interrupt_flag = 0x01;
    cpu.registers.b = 0;
    assert_eq!(cpu.cycle(), Ok(1));
    assert_eq!(cpu.cycle(), Ok(1));
    assert_eq!(cpu.registers.b, 1);
    assert_eq!(cpu.cycle(), Ok(5));
    assert_eq!(cpu.registers.b, 1);
    assert_eq!(cpu.registers.pc, 0x0040);
    assert_eq!(cpu.bus.read_word(cpu.registers.sp), 0x0102);
}

#[test]
fn di_takes_effect_after_one_more_instruction() {
    // DI; INC B; INC B
    let mut cpu = cpu_with(&[0xf3, 0x04, 0x04, 0x04]);
    cpu.registers.b = 0;
    assert_eq!(cpu.cycle(), Ok(1));
    assert_eq!(cpu.cycle(), Ok(1));
    assert!(cpu.interrupt_master_enable.value);
    cpu.bus.interrupt_enable_register = 0x01;
    cpu.bus.interrupt_flag = 0x01;
    // the disable fires at this tick: the interrupt comes too late
    assert_eq!(cpu.cycle(), Ok(1));
    assert_eq!(cpu.registers.b, 2);
    assert!(!cpu.interrupt_master_enable.value);
    assert_eq!(cpu.cycle(), Ok(1));
    assert_eq!(cpu.registers.b, 3);
}

#[test]
fn reti_returns_and_enables_interrupts_for_the_next_instruction() {
    // at 0040: RETI
    let mut rom_program = vec![0x04, 0x04];
    rom_program.resize(0x10, 0);
    let mut cpu = cpu_with(&rom_program);
    cpu.registers.b = 0;
    cpu.registers.pc = 0xc000;
    cpu.bus.write_byte(0xc000, 0xd9);
    cpu.registers.sp = 0xdffe;
    cpu.bus.write_word(0xdffe, 0x0100);
    cpu.interrupt_master_enable.value = false;
    cpu.bus.interrupt_enable_register = 0x04;
    cpu.bus.interrupt_flag = 0x04;
    assert_eq!(cpu.cycle(), Ok(4));
    assert_eq!(cpu.registers.pc, 0x0100);
    assert_eq!(cpu.registers.sp, 0xe000);
    assert_eq!(cpu.cycle(), Ok(5));
    assert_eq!(cpu.registers.pc, 0x0050);
    assert_eq!(cpu.registers.b, 0);
}

#[test]
fn halt_idles_until_an_interrupt_is_pending() {
    // HALT; INC B
    let mut cpu = cpu_with(&[0x76, 0x04]);
    cpu.registers.b = 0;
    assert_eq!(cpu.cycle(), Ok(1));
    assert!(cpu.is_halted);
    for _ in 0..5 {
        assert_eq!(cpu.cycle(), Ok(1));
        assert_eq!(cpu.registers.pc, 0x0101);
    }
    // requested but not enabled: still asleep
    cpu.bus.interrupt_flag = 0x04;
    assert_eq!(cpu.cycle(), Ok(1));
    assert!(cpu.is_halted);
    cpu.bus.interrupt_enable_register = 0x04;
    assert_eq!(cpu.cycle(), Ok(5));
    assert!(!cpu.is_halted);
    assert_eq!(cpu.registers.pc, 0x0050);
}

#[test]
fn halt_wakes_without_a_jump_while_the_master_enable_is_off() {
    // HALT; INC B
    let mut cpu = cpu_with(&[0x76, 0x04]);
    cpu.registers.b = 0;
    cpu.interrupt_master_enable.value = false;
    assert_eq!(cpu.cycle(), Ok(1));
    assert_eq!(cpu.cycle(), Ok(1));
    assert!(cpu.is_halted);
    cpu.bus.interrupt_enable_register = 0x01;
    cpu.bus.interrupt_flag = 0x01;
    assert_eq!(cpu.cycle(), Ok(1));
    assert!(!cpu.is_halted);
    assert_eq!(cpu.registers.b, 1);
    assert_eq!(cpu.registers.pc, 0x0102);
    assert_eq!(cpu.bus.interrupt_flag, 0x01);
    assert_eq!(cpu.registers.sp, 0xfffe);
}

#[test]
fn opcodes_that_name_no_instruction_stop_the_cpu() {
    for opcode in [0x10u8, 0xd3, 0xdb, 0xdd, 0xe3, 0xe4, 0xeb, 0xec, 0xed, 0xf4, 0xfc, 0xfd] {
        let mut cpu = cpu_with(&[0x00, opcode]);
        assert_eq!(cpu.cycle(), Ok(1));
        assert_eq!(cpu.cycle(), Err(CpuError::UnsupportedInstruction { opcode, address: 0x0101 }));
        assert_eq!(cpu.registers.pc, 0x0102);
        assert_eq!(cpu.call(), Ok(1));
    }
}

#[test]
fn decoding_names_the_instruction() {
    assert_eq!(Instruction::from_byte(0x00, false), Some(Instruction::Nop));
    assert_eq!(Instruction::from_byte(0x76, false), Some(Instruction::Halt));
    assert_eq!(Instruction::from_byte(0x41, false), Some(Instruction::Load(Operand::RegB, Operand::RegC)));
    assert_eq!(Instruction::from_byte(0x7e, false), Some(Instruction::Load(Operand::RegA, Operand::AddressHL)));
    assert_eq!(Instruction::from_byte(0x36, false), Some(Instruction::Load(Operand::AddressHL, Operand::Immediate8)));
    assert_eq!(Instruction::from_byte(0x22, false), Some(Instruction::Load(Operand::AddressHLI, Operand::RegA)));
    assert_eq!(Instruction::from_byte(0x3a, false), Some(Instruction::Load(Operand::RegA, Operand::AddressHLD)));
    assert_eq!(Instruction::from_byte(0x9e, false), Some(Instruction::Alu(AluOp::Sbc, Operand::AddressHL)));
    assert_eq!(Instruction::from_byte(0xfe, false), Some(Instruction::Alu(AluOp::Cp, Operand::Immediate8)));
    assert_eq!(Instruction::from_byte(0x31, false), Some(Instruction::LoadWord(Reg16::SP)));
    assert_eq!(Instruction::from_byte(0xf1, false), Some(Instruction::Pop(Reg16::AF)));
    assert_eq!(Instruction::from_byte(0x39, false), Some(Instruction::AddWord(Reg16::SP)));
    assert_eq!(Instruction::from_byte(0x38, false), Some(Instruction::JumpRelative(Condition::Carry)));
    assert_eq!(Instruction::from_byte(0xc9, false), Some(Instruction::Return(Condition::True)));
    assert_eq!(Instruction::from_byte(0xd0, false), Some(Instruction::Return(Condition::NotCarry)));
    assert_eq!(Instruction::from_byte(0xef, false), Some(Instruction::Restart(0x28)));
    assert_eq!(Instruction::from_byte(0xcb, false), None);
    assert_eq!(Instruction::from_byte(0x10, false), None);
    assert_eq!(Instruction::from_byte(0x10, true), Some(Instruction::Shift(ShiftOp::Rl, Operand::RegB)));
    assert_eq!(Instruction::from_byte(0x36, true), Some(Instruction::Shift(ShiftOp::Swap, Operand::AddressHL)));
    assert_eq!(Instruction::from_byte(0x7f, true), Some(Instruction::TestBit(7, Operand::RegA)));
    assert_eq!(Instruction::from_byte(0x86, true), Some(Instruction::ResetBit(0, Operand::AddressHL)));
    assert_eq!(Instruction::from_byte(0xff, true), Some(Instruction::SetBit(7, Operand::RegA)));
}

#[test]
fn execute_runs_a_decoded_instruction() {
    let mut cpu = cpu_with(&[0x99]);
    cpu.registers.a = 0x10;
    assert_eq!(cpu.execute(Instruction::Alu(AluOp::Add, Operand::Immediate8)), 2);
    assert_eq!(cpu.registers.a, 0xa9);
    assert_eq!(cpu.registers.pc, 0x0101);
    assert_eq!(cpu.execute(Instruction::JumpHl), 1);
    assert_eq!(cpu.registers.pc, cpu.registers.read_16(Reg16::HL));
}

#[test]
fn power_on_state_has_interrupts_enabled() {
    let rom = vec![0u8; 0x8000];
    let cpu = match Cartridge::from_bytes(rom, None) {
        Ok(cartridge) => CPU::new(cartridge, Bootrom::new([0x76; 0x100])),
        Err(_) => panic!("the test image is a cartridge"),
    };
    assert_eq!(cpu.registers.pc, 0x0000);
    assert!(cpu.interrupt_master_enable.value);
    assert!(!cpu.is_halted);
    assert_eq!(cpu.bus.read_byte(0x0000), 0x76);
    assert_eq!(cpu.bus.read_byte(0xff40), 0x00);
}
