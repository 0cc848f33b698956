use lameboy::cpu::registers::{Reg16, Registers};
use lameboy::dis::{Instruction, InstructionArg};
use lameboy::joypad::Joypad;
use lameboy::lameboy::cart::Cart;
use lameboy::lameboy::mmu::debug::disassembly::{
    get_instruction_debug_string, get_raw_instruction_debug_string,
};
use lameboy::lameboy::mmu::Mmu;
use lameboy::lameboy::ppu::Ppu;
use lameboy::text::replace_all_str;
use lameboy::lameboy::mmu::debug::hexdump::hexdump_start;
use lameboy::lameboy::cpu::debug::stack::stack_entry_addresses;

fn mmu_with_rom(program: &[u8]) -> Mmu {
    let mut rom = vec![0x00u8; 0x8000];
    rom[..program.len()].copy_from_slice(program);
    Mmu::new(Cart::new(rom), Ppu::new(), Joypad::new())
}

#[test]
fn instruction_lengths() {
    assert_eq!(1, Instruction::new("NOP", None).get_length());
    assert_eq!(2, Instruction::new("LD A,d8", Some(InstructionArg::Data8)).get_length());
    assert_eq!(3, Instruction::new("JP a16", Some(InstructionArg::Data16)).get_length());
    assert_eq!("LD A,d8", Instruction::new("LD A,d8", Some(InstructionArg::Data8)).to_string());
}

#[test]
fn raw_instruction_bytes() {
    let mmu = mmu_with_rom(&[0x3E, 0x42, 0xC3, 0x50, 0x01, 0x00]);
    let ld = Instruction::new("LD A,d8", Some(InstructionArg::Data8));
    assert_eq!("0x3E 0x42", get_raw_instruction_debug_string(&ld, &mmu, 0));
    let jp = Instruction::new("JP a16", Some(InstructionArg::Data16));
    assert_eq!("0xC3 0x50 0x01", get_raw_instruction_debug_string(&jp, &mmu, 2));
    let nop = Instruction::new("NOP", None);
    assert_eq!("0x00", get_raw_instruction_debug_string(&nop, &mmu, 5));
}

#[test]
fn instruction_text_with_arguments() {
    let mmu = mmu_with_rom(&[0x3E, 0x42, 0xC3, 0x50, 0x01, 0xE0, 0x47]);
    let ld = Instruction::new("LD A,d8", Some(InstructionArg::Data8));
    assert_eq!("LD A,0x42", get_instruction_debug_string(&ld, true, &mmu, 0));
    assert_eq!("LD A,d8", get_instruction_debug_string(&ld, false, &mmu, 0));
    let jp = Instruction::new("JP a16", Some(InstructionArg::Data16));
    assert_eq!("JP 0x0150", get_instruction_debug_string(&jp, true, &mmu, 2));
    let ldh = Instruction::new("LDH (a8),A", Some(InstructionArg::Data8));
    assert_eq!("LDH (0xFF00 + 0x47),A", get_instruction_debug_string(&ldh, true, &mmu, 5));
    let nop = Instruction::new("NOP", None);
    assert_eq!("NOP", get_instruction_debug_string(&nop, true, &mmu, 0));
}

#[test]
fn replacing_text() {
    assert_eq!("a-b-c", replace_all_str("a+b+c", "+", "-"));
    assert_eq!("xx", replace_all_str("aaaa", "aa", "x"));
    assert_eq!("abc", replace_all_str("abc", "", "z"));
    assert_eq!("JR 0x05", replace_all_str("JR r8", "r8", "0x05"));
}

#[test]
fn register_pairs_of_the_first_core() {
    let mut registers = Registers::new();
    registers.write16(&Reg16::DE, 0xABCD);
    assert_eq!(0xAB, registers.d);
    assert_eq!(0xCD, registers.e);
    assert_eq!(0xABCD, registers.read16(&Reg16::DE));
    registers.write16(&Reg16::AF, 0xABCD);
    assert_eq!(0xABC0, registers.read16(&Reg16::AF));
    registers.write16(&Reg16::SP, 0x1234);
    assert_eq!(0x1234, registers.read16(&Reg16::SP));
}

#[test]
fn memory_dump_window_rows() {
    assert_eq!(0xC0B0, hexdump_start(0xC105));
    assert_eq!(0x0000, hexdump_start(0x0012));
    assert_eq!(0x0000, hexdump_start(0xFFF5));
    assert_eq!(0xFF50, hexdump_start(0xFFA0));
}

#[test]
fn stack_window_addresses() {
    let addrs = stack_entry_addresses(0xC000);
    assert_eq!(50, addrs.len());
    assert_eq!(0xC062, addrs[0]);
    assert_eq!(0xC000, addrs[49]);
    assert!(stack_entry_addresses(0xFFFE).is_empty());
}
