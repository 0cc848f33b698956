use lameboy::lameboy::cart::Cart;
use lameboy::lameboy::cpu::instructions::alu::alu_add_8bit;
use lameboy::lameboy::cpu::registers::{Flags, Reg16, Reg8, Registers};
use lameboy::lameboy::cpu::Cpu;
use lameboy::lameboy::mmu::Mmu;
use lameboy::lameboy::ppu::Ppu;
use lameboy::joypad::Joypad;

fn cpu_with_program(program: &[u8]) -> Cpu {
    let mut rom = vec![0x00u8; 0x8000];
    rom[..program.len()].copy_from_slice(program);
    let cart = Cart::new(rom);
    Cpu::new(Mmu::new(cart, Ppu::new(), Joypad::new()))
}

fn run(cpu: &mut Cpu, instructions: usize) -> u32 {
    let mut cycles = 0u32;
    for _ in 0..instructions {
        assert!(cpu.can_execute(), "{}", cpu.blocked_message());
        cycles += u32::from(cpu.cycle());
    }
    cycles
}

#[test]
fn registers_read_back_what_was_written() {
    let mut registers = Registers::new();
    registers.write8(&Reg8::B, 0x12);
    registers.write8(&Reg8::C, 0x34);
    assert_eq!(0x1234, registers.read16(&Reg16::BC));
    registers.write16(&Reg16::HL, 0xBEEF);
    assert_eq!(0xBE, registers.read8(&Reg8::H));
    assert_eq!(0xEF, registers.read8(&Reg8::L));
    assert_eq!(0x12, registers.read8(&Reg8::B));
    registers.write16(&Reg16::AF, 0x12FF);
    assert_eq!(0x12F0, registers.read16(&Reg16::AF));
    assert_eq!(0xF0, registers.f.bits());
    registers.write16(&Reg16::SP, 0xFFFE);
    assert_eq!(0xFFFE, registers.read16(&Reg16::SP));
}

#[test]
fn registers_after_reset() {
    let mut registers = Registers::new();
    registers.reset();
    assert_eq!(0x01B0, registers.read16(&Reg16::AF));
    assert_eq!(0x0013, registers.read16(&Reg16::BC));
    assert_eq!(0x00D8, registers.read16(&Reg16::DE));
    assert_eq!(0x014D, registers.read16(&Reg16::HL));
    assert_eq!(0xFFFE, registers.sp);
    assert_eq!(0x0100, registers.pc);
}

#[test]
fn flags_set_and_toggle() {
    let mut flags = Flags::empty();
    flags.set(Flags::ZERO, true);
    flags.insert(Flags::CARRY);
    assert!(flags.contains(Flags::ZERO) && flags.contains(Flags::CARRY));
    flags.toggle(Flags::CARRY);
    assert!(!flags.contains(Flags::CARRY));
    flags.remove(Flags::ZERO);
    assert_eq!(Flags::empty(), flags);
    assert_eq!(0xF0, Flags::from_bits_truncate(0xFF).bits());
}

#[test]
fn loads_and_arithmetic() {
    // LD A,$42; LD B,A; ADD A,B; LD C,$01; SUB C; XOR A
    let mut cpu = cpu_with_program(&[0x3E, 0x42, 0x47, 0x80, 0x0E, 0x01, 0x91, 0xAF]);
    let cycles = run(&mut cpu, 4);
    assert_eq!(8 + 4 + 4 + 8, cycles);
    assert_eq!(0x84, cpu.registers.a);
    assert_eq!(0x42, cpu.registers.b);
    run(&mut cpu, 1);
    assert_eq!(0x83, cpu.registers.a);
    assert!(cpu.registers.f.contains(Flags::SUBTRACT));
    run(&mut cpu, 1);
    assert_eq!(0x00, cpu.registers.a);
    assert!(cpu.registers.f.contains(Flags::ZERO));
    assert_eq!(0x0008, cpu.registers.pc);
}

#[test]
fn push_then_pop_gives_the_word_back() {
    // LD SP,$FFFE; LD BC,$1234; PUSH BC; POP DE
    let mut cpu = cpu_with_program(&[0x31, 0xFE, 0xFF, 0x01, 0x34, 0x12, 0xC5, 0xD1]);
    run(&mut cpu, 4);
    assert_eq!(0x1234, cpu.registers.read16(&Reg16::DE));
    assert_eq!(0xFFFE, cpu.registers.sp);
}

#[test]
fn call_then_ret_comes_back() {
    // LD SP,$FFFE; CALL $0010; ... at $0010: RET
    let mut program = vec![0x31, 0xFE, 0xFF, 0xCD, 0x10, 0x00];
    program.resize(0x10, 0x00);
    program.push(0xC9);
    let mut cpu = cpu_with_program(&program);
    run(&mut cpu, 2);
    assert_eq!(0x0010, cpu.registers.pc);
    assert_eq!(0xFFFC, cpu.registers.sp);
    let cycles = run(&mut cpu, 1);
    assert_eq!(16, cycles);
    assert_eq!(0x0006, cpu.registers.pc);
    assert_eq!(0xFFFE, cpu.registers.sp);
}

#[test]
fn jumps_and_restarts() {
    // JR +2; (skipped) LD A,$FF; JP $0040 ... at $0040: RST $08
    let mut program = vec![0x18, 0x02, 0x3E, 0xFF, 0xC3, 0x40, 0x00];
    program.resize(0x40, 0x00);
    program.push(0xCF);
    let mut cpu = cpu_with_program(&program);
    assert_eq!(12, run(&mut cpu, 1));
    assert_eq!(0x0004, cpu.registers.pc);
    assert_eq!(16, run(&mut cpu, 1));
    assert_eq!(0x0040, cpu.registers.pc);
    assert_eq!(16, run(&mut cpu, 1));
    assert_eq!(0x0008, cpu.registers.pc);
}

#[test]
fn conditional_jump_taken_and_not_taken() {
    // XOR A (Z set); JR NZ,+5 (not taken); JR Z,-4 (taken, back to 0x0001)
    let mut cpu = cpu_with_program(&[0xAF, 0x20, 0x05, 0x28, 0xFC]);
    run(&mut cpu, 1);
    assert_eq!(8, run(&mut cpu, 1));
    assert_eq!(0x0003, cpu.registers.pc);
    assert_eq!(12, run(&mut cpu, 1));
    assert_eq!(0x0001, cpu.registers.pc);
}

#[test]
fn decimal_adjust_after_bcd_addition() {
    // LD A,$19; ADD A,$28; DAA; LD B,$95; ADD A,B; DAA
    let mut cpu = cpu_with_program(&[0x3E, 0x19, 0xC6, 0x28, 0x27, 0x06, 0x95, 0x80, 0x27]);
    run(&mut cpu, 3);
    assert_eq!(0x47, cpu.registers.a);
    assert!(!cpu.registers.f.contains(Flags::CARRY));
    run(&mut cpu, 3);
    assert_eq!(0x42, cpu.registers.a);
    assert!(cpu.registers.f.contains(Flags::CARRY));
}

#[test]
fn decimal_adjust_after_bcd_subtraction() {
    // LD A,$42; SUB $15; DAA
    let mut cpu = cpu_with_program(&[0x3E, 0x42, 0xD6, 0x15, 0x27]);
    run(&mut cpu, 3);
    assert_eq!(0x27, cpu.registers.a);
    assert!(!cpu.registers.f.contains(Flags::CARRY));
    assert!(cpu.registers.f.contains(Flags::SUBTRACT));
}

#[test]
fn cb_prefixed_instructions() {
    // LD B,$81; RLC B; SWAP B; SET 7,C; BIT 7,C; RES 7,C; BIT 7,C
    let mut cpu = cpu_with_program(&[
        0x06, 0x81, 0xCB, 0x00, 0xCB, 0x30, 0xCB, 0xF9, 0xCB, 0x79, 0xCB, 0xB9, 0xCB, 0x79,
    ]);
    run(&mut cpu, 2);
    assert_eq!(0x03, cpu.registers.b);
    assert!(cpu.registers.f.contains(Flags::CARRY));
    assert_eq!(12, run(&mut cpu, 1));
    assert_eq!(0x30, cpu.registers.b);
    run(&mut cpu, 2);
    assert_eq!(0x80, cpu.registers.c);
    assert!(!cpu.registers.f.contains(Flags::ZERO));
    assert!(cpu.registers.f.contains(Flags::HALF_CARRY));
    run(&mut cpu, 2);
    assert_eq!(0x00, cpu.registers.c);
    assert!(cpu.registers.f.contains(Flags::ZERO));
}

#[test]
fn rotating_a_resets_zero() {
    // XOR A; RLCA (zero result, zero flag still reset); RLC A (zero flag set)
    let mut cpu = cpu_with_program(&[0xAF, 0x07, 0xCB, 0x07]);
    run(&mut cpu, 1);
    assert_eq!(4, run(&mut cpu, 1));
    assert!(!cpu.registers.f.contains(Flags::ZERO));
    assert_eq!(12, run(&mut cpu, 1));
    assert!(cpu.registers.f.contains(Flags::ZERO));
}

#[test]
fn memory_through_hl() {
    // LD HL,$C000; LD (HL),$5A; INC (HL); LD A,(HL+); LD (HL-),A; LD B,(HL)
    let mut cpu = cpu_with_program(&[0x21, 0x00, 0xC0, 0x36, 0x5A, 0x34, 0x2A, 0x32, 0x46]);
    run(&mut cpu, 4);
    assert_eq!(0x5B, cpu.registers.a);
    assert_eq!(0xC001, cpu.registers.read16(&Reg16::HL));
    run(&mut cpu, 2);
    assert_eq!(0xC000, cpu.registers.read16(&Reg16::HL));
    assert_eq!(0x5B, cpu.registers.b);
    assert_eq!(0x5B, cpu.mmu.read8_safe(0xC001));
    assert_eq!(0x5B, cpu.mmu.read8_safe(0xE001));
}

#[test]
fn sixteen_bit_arithmetic() {
    // LD HL,$0FFF; LD BC,$0001; ADD HL,BC; LD SP,$FFF8; ADD SP,-8; LD HL,SP+2
    let mut cpu = cpu_with_program(&[
        0x21, 0xFF, 0x0F, 0x01, 0x01, 0x00, 0x09, 0x31, 0xF8, 0xFF, 0xE8, 0xF8, 0xF8, 0x02,
    ]);
    run(&mut cpu, 3);
    assert_eq!(0x1000, cpu.registers.read16(&Reg16::HL));
    assert!(cpu.registers.f.contains(Flags::HALF_CARRY));
    run(&mut cpu, 2);
    assert_eq!(0xFFF0, cpu.registers.sp);
    run(&mut cpu, 1);
    assert_eq!(0xFFF2, cpu.registers.read16(&Reg16::HL));
}

#[test]
fn interrupt_is_serviced_when_enabled_and_flagged() {
    // LD SP,$FFFE; LD A,$01; LDH ($FF),A; LDH ($0F),A
    let mut cpu = cpu_with_program(&[0x31, 0xFE, 0xFF, 0x3E, 0x01, 0xE0, 0xFF, 0xE0, 0x0F]);
    run(&mut cpu, 3);
    assert_eq!(0x0007, cpu.registers.pc);
    let cycles = run(&mut cpu, 1);
    assert_eq!(12 + 12, cycles);
    assert_eq!(0x0040, cpu.registers.pc);
    assert!(!cpu.ime);
    assert_eq!(0x00, cpu.mmu.read8_safe(0xFF0F));
    assert_eq!(0x0009, cpu.mmu.read16_safe(0xFFFC));
}

#[test]
fn two_pending_interrupts_are_not_serviced() {
    // LD A,$03; LDH ($FF),A; LDH ($0F),A
    let mut cpu = cpu_with_program(&[0x3E, 0x03, 0xE0, 0xFF, 0xE0, 0x0F]);
    run(&mut cpu, 3);
    assert_eq!(0x0006, cpu.registers.pc);
    assert!(cpu.ime);
    assert_eq!(0x03, cpu.mmu.read8_safe(0xFF0F));
}

#[test]
fn di_and_ei_take_effect_one_instruction_late() {
    // DI; NOP; NOP; EI; NOP; NOP
    let mut cpu = cpu_with_program(&[0xF3, 0x00, 0x00, 0xFB, 0x00, 0x00]);
    assert!(cpu.ime);
    run(&mut cpu, 2);
    assert!(cpu.ime);
    run(&mut cpu, 1);
    assert!(!cpu.ime);
    run(&mut cpu, 2);
    assert!(!cpu.ime);
    run(&mut cpu, 1);
    assert!(cpu.ime);
}

#[test]
fn halt_and_stop() {
    // HALT; STOP 0
    let mut cpu = cpu_with_program(&[0x76, 0x10, 0x00]);
    run(&mut cpu, 1);
    assert!(cpu.halt);
    run(&mut cpu, 1);
    assert_eq!(0x0003, cpu.registers.pc);
}

#[test]
fn blocked_instructions_are_reported() {
    let cpu = cpu_with_program(&[0xD3]);
    assert!(!cpu.can_execute());
    assert_eq!("Undefined opcode 0xD3 at pc=0x0001", cpu.blocked_message());

    let cpu = cpu_with_program(&[0x10, 0x01]);
    assert!(!cpu.can_execute());
    assert_eq!(
        "Stop instruction should be followed by a zero but found: 0x01 at pc=0x0002",
        cpu.blocked_message()
    );

    let cpu = cpu_with_program(&[0x08, 0xFF, 0xFF]);
    assert!(!cpu.can_execute());
    assert_eq!("attempt to add with overflow", cpu.blocked_message());

    let cpu = cpu_with_program(&[0x08, 0x00, 0xC0]);
    assert!(cpu.can_execute());
}

#[test]
fn program_counter_history() {
    let mut cpu = cpu_with_program(&[0x00, 0x00, 0x00]);
    run(&mut cpu, 3);
    assert_eq!(3, cpu.pc_history_pointer);
    assert_eq!(vec![0x0000, 0x0001, 0x0002], cpu.pc_history[0..3].to_vec());
    run(&mut cpu, 197);
    assert_eq!(0, cpu.pc_history_pointer);
}

#[test]
fn cpu_reset_loads_boot_values() {
    let mut cpu = cpu_with_program(&[0x76]);
    run(&mut cpu, 1);
    cpu.reset();
    assert!(!cpu.halt);
    assert_eq!(0x0100, cpu.registers.pc);
    assert_eq!(0xFFFE, cpu.registers.sp);
}

#[test]
fn fetching_moves_the_program_counter() {
    let mut cpu = cpu_with_program(&[0x34, 0x12, 0x78]);
    assert_eq!(0x1234, cpu.fetch16());
    assert_eq!(0x78, cpu.fetch8());
    assert_eq!(0x0003, cpu.registers.pc);
}

#[test]
fn half_carry_formula() {
    assert_eq!(alu_add_8bit(0x08, Flags::empty(), 0x08, false).0, 0x10);
    assert!(alu_add_8bit(0x08, Flags::empty(), 0x08, false).1.contains(Flags::HALF_CARRY));
    assert!(!alu_add_8bit(0x07, Flags::empty(), 0x08, false).1.contains(Flags::HALF_CARRY));
}

#[test]
fn no_interrupt_while_interrupts_are_disabled() {
    // DI; NOP; LD A,$01; LDH ($FF),A; LDH ($0F),A; NOP
    let mut cpu = cpu_with_program(&[0xF3, 0x00, 0x3E, 0x01, 0xE0, 0xFF, 0xE0, 0x0F, 0x00]);
    run(&mut cpu, 5);
    assert!(!cpu.ime);
    assert_eq!(0x0008, cpu.registers.pc);
    assert_eq!(0x01, cpu.mmu.read8_safe(0xFF0F));
    assert_eq!(4, run(&mut cpu, 1));
    assert_eq!(0x0009, cpu.registers.pc);
}

#[test]
fn flags_register_keeps_lower_nibble_clear() {
    let mut registers = Registers::new();
    registers.write16(&Reg16::AF, 0x12FF);
    assert_eq!(0x12F0, registers.read16(&Reg16::AF));
    registers.f.toggle(Flags::CARRY);
    assert_eq!(0xE0, registers.f.bits());
    registers.f.set(Flags::ZERO, false);
    assert_eq!(0x1260, registers.read16(&Reg16::AF));
    assert_eq!(0, registers.read16(&Reg16::AF) & 0x000F);
}
