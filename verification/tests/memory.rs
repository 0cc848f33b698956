use lameboy::joypad::Joypad;
use lameboy::lameboy::cart::Cart;
use lameboy::lameboy::mmu::mmuobject::MmuObject;
use lameboy::lameboy::mmu::Mmu;
use lameboy::lameboy::ppu::Ppu;

fn mmu_with_rom(rom: Vec<u8>) -> Mmu {
    Mmu::new(Cart::new(rom), Ppu::new(), Joypad::new())
}

fn blank_mmu() -> Mmu {
    mmu_with_rom(vec![0x00u8; 0x8000])
}

#[test]
fn ram_reads_back_what_was_written() {
    let mut mmu = blank_mmu();
    for addr in [0x8000u16, 0x9FFF, 0xC000, 0xCFFF, 0xD000, 0xDFFF, 0xFE00, 0xFF01, 0xFF40, 0xFF80, 0xFFFE, 0xFFFF] {
        mmu.write8(addr, 0xA5);
        assert_eq!(0xA5, mmu.read8(addr), "address {:#06X}", addr);
    }
}

#[test]
fn writes_leave_other_bytes_alone() {
    let mut mmu = blank_mmu();
    mmu.write8(0xC123, 0x11);
    mmu.write8(0xC124, 0x22);
    assert_eq!(0x11, mmu.read8_safe(0xC123));
    assert_eq!(0x22, mmu.read8_safe(0xC124));
    assert_eq!(0x00, mmu.read8_safe(0xC125));
}

#[test]
fn echo_ram_mirrors_work_ram() {
    let mut mmu = blank_mmu();
    mmu.write8(0xC010, 0x42);
    assert_eq!(0x42, mmu.read8_safe(0xE010));
    mmu.write8(0xF123, 0x24);
    assert_eq!(0x24, mmu.read8_safe(0xD123));
}

#[test]
fn rom_and_unusable_memory_ignore_writes() {
    let mut rom = vec![0x00u8; 0x8000];
    rom[0x1234] = 0x77;
    let mut mmu = mmu_with_rom(rom);
    mmu.write8(0x1234, 0x00);
    assert_eq!(0x77, mmu.read8_safe(0x1234));
    assert_eq!(0xFF, mmu.read8_safe(0xFEA0));
    mmu.write8(0xFEA0, 0x00);
    assert_eq!(0xFF, mmu.read8_safe(0xFEA0));
    assert_eq!(0xFF, mmu.read8_safe(0xA000));
}

#[test]
fn words_are_little_endian() {
    let mut mmu = blank_mmu();
    mmu.write8(0xC000, 0x34);
    mmu.write8(0xC001, 0x12);
    assert_eq!(0x1234, mmu.read16(0xC000));
    assert_eq!(0x1234, mmu.read16_safe(0xC000));
}

#[test]
fn dma_copies_a_page_into_oam() {
    let mut mmu = blank_mmu();
    for i in 0..0xA0u16 {
        mmu.write8(0xC100 + i, (i as u8) ^ 0x5A);
    }
    mmu.write8(0xFF46, 0xC1);
    for i in 0..0xA0u16 {
        assert_eq!((i as u8) ^ 0x5A, mmu.read8_safe(0xFE00 + i));
    }
    assert_eq!(0x00, mmu.read8_safe(0xC0FF));
}

#[test]
fn memory_breakpoints_record_accesses() {
    let mut mmu = blank_mmu();
    mmu.memory_breakpoints.push(0xC000);
    mmu.read8_safe(0xC000);
    assert_eq!(0x0000, mmu.breakpoint_hit);
    mmu.read8(0xC001);
    assert_eq!(0x0000, mmu.breakpoint_hit);
    mmu.write8(0xC000, 0x01);
    assert_eq!(0xC000, mmu.breakpoint_hit);
}

#[test]
fn joypad_register_reads_the_selected_buttons() {
    let mut mmu = blank_mmu();
    mmu.joypad.a = true;
    mmu.joypad.down = true;
    assert_eq!(0x0F, mmu.read8_safe(0xFF00));
    mmu.write8(0xFF00, 0x10);
    assert_eq!(0b1110, mmu.read8_safe(0xFF00));
    mmu.write8(0xFF00, 0x20);
    assert_eq!(0b0111, mmu.read8_safe(0xFF00));
    mmu.write8(0xFF00, 0x30);
    assert_eq!(0x0F, mmu.read8_safe(0xFF00));
}

#[test]
fn joypad_bytes() {
    let mut joypad = Joypad::new();
    assert_eq!(0x0F, joypad.joypad_to_byte());
    joypad.start = true;
    joypad.left = true;
    assert_eq!(0b0111, joypad.action_byte());
    assert_eq!(0b1101, joypad.direction_byte());
    joypad.write8(0xFF00, 0x10);
    assert_eq!(0b0111, joypad.read8(0xFF00));
}

#[test]
fn reset_sets_the_boot_io_registers() {
    let mut mmu = blank_mmu();
    mmu.reset();
    assert_eq!(0x80, mmu.read8_safe(0xFF10));
    assert_eq!(0x91, mmu.read8_safe(0xFF40));
    assert_eq!(0xFC, mmu.read8_safe(0xFF47));
    assert_eq!(0x00, mmu.read8_safe(0xFFFF));
}

#[test]
fn ppu_memory() {
    let mut ppu = Ppu::new();
    ppu.write8(0x8000, 0x12);
    ppu.write8(0xFE9F, 0x34);
    ppu.write8(0xFF4B, 0x56);
    assert_eq!(0x12, ppu.read8(0x8000));
    assert_eq!(0x34, ppu.read8(0xFE9F));
    assert_eq!(0x56, ppu.read8(0xFF4B));
    assert!(ppu.is_vram_accessible());
    assert!(ppu.is_oam_accessible());
    assert_eq!(0, ppu.cycle(24));
    ppu.reset();
    assert_eq!(0x00, ppu.read8(0x8000));
}
