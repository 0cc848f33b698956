use lameboy::gui::imguidebug::ImguiDebug;
use lameboy::lameboy::Lameboy;

fn rom_with_program(program: &[u8]) -> Vec<u8> {
    let mut rom = vec![0x00u8; 0x8000];
    rom[..program.len()].copy_from_slice(program);
    rom
}

#[test]
fn new_emulator_state() {
    let lameboy = Lameboy::new(rom_with_program(&[]));
    assert!(lameboy.active);
    assert!(!lameboy.is_running());
    assert_eq!(0x0000, lameboy.cpu.registers.pc);
    assert!(lameboy.debug.show_emulator);
    assert_eq!(4, lameboy.debug.ppu_mod);
}

#[test]
fn step_runs_one_instruction() {
    let mut lameboy = Lameboy::new(rom_with_program(&[0x3E, 0x42]));
    lameboy.trace_count = 2;
    assert_eq!(8, lameboy.step());
    assert_eq!(0x42, lameboy.cpu.registers.a);
    assert_eq!(0x0002, lameboy.debug.program_counter);
    assert_eq!(1, lameboy.trace_count);
}

#[test]
fn frame_runs_its_cycles() {
    let mut lameboy = Lameboy::new(rom_with_program(&[]));
    lameboy.running = true;
    lameboy.run_frame();
    assert!(lameboy.is_running());
    assert_eq!(0x4494, lameboy.cpu.registers.pc);
}

#[test]
fn frame_stops_at_a_breakpoint() {
    let mut lameboy = Lameboy::new(rom_with_program(&[]));
    lameboy.running = true;
    lameboy.debug.add_breakpoint(0x0010);
    lameboy.run_frame();
    assert!(!lameboy.is_running());
    assert_eq!(0x0010, lameboy.cpu.registers.pc);
}

#[test]
fn frame_stops_at_a_memory_breakpoint() {
    // LD A,($C000); NOP ...
    let mut lameboy = Lameboy::new(rom_with_program(&[0xFA, 0x00, 0xC0]));
    lameboy.running = true;
    lameboy.debug.add_memory_breakpoint(0xC000);
    lameboy.run_frame();
    assert!(!lameboy.is_running());
    assert_eq!(0x0003, lameboy.cpu.registers.pc);
    assert_eq!(0x0000, lameboy.cpu.mmu.breakpoint_hit);
    assert_eq!(vec![0xC000], lameboy.cpu.mmu.memory_breakpoints);
}

#[test]
fn frame_reports_an_instruction_that_cannot_run() {
    let mut lameboy = Lameboy::new(rom_with_program(&[0x00, 0x00, 0xD3]));
    assert_eq!(
        Err(String::from("Undefined opcode 0xD3 at pc=0x0003")),
        lameboy.try_run_frame()
    );
    assert_eq!(0x0002, lameboy.cpu.registers.pc);

    let mut lameboy = Lameboy::new(rom_with_program(&[]));
    assert_eq!(Ok(()), lameboy.try_run_frame());
}

#[test]
fn reset_loads_the_boot_state() {
    let mut lameboy = Lameboy::new(rom_with_program(&[0x76]));
    lameboy.step();
    lameboy.reset();
    assert!(!lameboy.cpu.halt);
    assert_eq!(0x0100, lameboy.cpu.registers.pc);
    assert_eq!(0xFFFE, lameboy.cpu.registers.sp);
    assert_eq!(0x91, lameboy.cpu.mmu.read8_safe(0xFF40));
}

#[test]
fn breakpoints_are_kept_once() {
    let mut debug = ImguiDebug::new();
    debug.add_breakpoint(0x0150);
    debug.add_breakpoint(0x0200);
    debug.add_breakpoint(0x0150);
    assert_eq!(vec![0x0150, 0x0200], debug.breakpoints);
    debug.add_memory_breakpoint(0xC000);
    debug.add_memory_breakpoint(0xC000);
    assert_eq!(vec![0xC000], debug.memory_breakpoints);
    assert!(debug.dump_memory_pc_lock);
}

#[test]
fn selecting_an_address_toggles_its_breakpoint() {
    let mut debug = ImguiDebug::new();
    debug.toggle_breakpoint(0x0150);
    debug.toggle_breakpoint(0x0100);
    assert_eq!(vec![0x0150, 0x0100], debug.breakpoints);
    debug.toggle_breakpoint(0x0150);
    assert_eq!(vec![0x0100], debug.breakpoints);
    debug.toggle_memory_breakpoint(0xFF40);
    debug.toggle_memory_breakpoint(0xFF40);
    assert!(debug.memory_breakpoints.is_empty());
}

#[test]
fn program_counter_history_oldest_first() {
    let mut lameboy = Lameboy::new(rom_with_program(&[]));
    for _ in 0..205 {
        lameboy.step();
    }
    let history = lameboy.cpu.pc_history_in_order();
    assert_eq!(200, history.len());
    assert_eq!(0x0005, history[0]);
    assert_eq!(0x00CC, history[199]);
}

#[test]
fn getters_reach_the_parts() {
    let mut lameboy = Lameboy::new(rom_with_program(&[0x00]));
    lameboy.get_cpu().registers.a = 0x12;
    assert_eq!(0x12, lameboy.cpu.registers.a);
    lameboy.get_mmu().write8(0xC000, 0x34);
    assert_eq!(0x34, lameboy.cpu.mmu.read8_safe(0xC000));
    lameboy.get_joypad().a = true;
    assert!(lameboy.cpu.mmu.joypad.a);
    assert_eq!(0x00, lameboy.get_cart().cart_type);
    assert!(lameboy.get_ppu().is_vram_accessible());
}

#[test]
fn breakpoints_window_removes_and_clears() {
    let mut debug = ImguiDebug::new();
    debug.add_breakpoint(0x0100);
    debug.add_breakpoint(0x0200);
    debug.add_breakpoint(0x0300);
    debug.remove_breakpoint(1);
    assert_eq!(vec![0x0100, 0x0300], debug.breakpoints);
    debug.clear_breakpoints();
    assert!(debug.breakpoints.is_empty());
    debug.add_memory_breakpoint(0xC000);
    debug.add_memory_breakpoint(0xC001);
    debug.remove_memory_breakpoint(0);
    assert_eq!(vec![0xC001], debug.memory_breakpoints);
    debug.clear_memory_breakpoints();
    assert!(debug.memory_breakpoints.is_empty());
}
