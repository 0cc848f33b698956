use crate::lameboy::mmu::mmuobject::MmuObject;
use crate::bits::{zeroed, zeros};
use vstd::prelude::*;

verus! {

/// Whether the picture processing unit serves `addr`: video RAM, sprite attribute memory
/// (OAM) or one of the LCD registers.
pub open spec fn ppu_address(addr: u16) -> bool {
    (0x8000 <= addr <= 0x9FFF) || (0xFE00 <= addr <= 0xFE9F) || (0xFF40 <= addr <= 0xFF4B)
}

/// The memory of the picture processing unit: video RAM [0x8000 - 0x9FFF], sprite attribute
/// memory [0xFE00 - 0xFE9F] and the LCD registers [0xFF40 - 0xFF4B].
pub struct Ppu {
    vram: Vec<u8>,
    oam: Vec<u8>,
    registers: Vec<u8>,
}

/// The memory of the picture processing unit as plain values.
pub struct PpuView {
    pub vram: Seq<u8>,
    pub oam: Seq<u8>,
    pub registers: Seq<u8>,
}

impl PpuView {
    pub open spec fn wf(self) -> bool {
        &&& self.vram.len() == 0x2000
        &&& self.oam.len() == 0xA0
        &&& self.registers.len() == 0x0C
    }

    /// All memory zero.
    pub open spec fn cleared() -> PpuView {
        PpuView {
            vram: zeros(0x2000),
            oam: zeros(0xA0),
            registers: zeros(0x0C),
        }
    }

    pub open spec fn read(self, addr: u16) -> u8 {
        if 0x8000 <= addr <= 0x9FFF {
            self.vram[addr - 0x8000]
        } else if 0xFE00 <= addr <= 0xFE9F {
            self.oam[addr - 0xFE00]
        } else {
            self.registers[addr - 0xFF40]
        }
    }

    pub open spec fn write(self, addr: u16, data: u8) -> PpuView {
        if 0x8000 <= addr <= 0x9FFF {
            PpuView { vram: self.vram.update(addr - 0x8000, data), ..self }
        } else if 0xFE00 <= addr <= 0xFE9F {
            PpuView { oam: self.oam.update(addr - 0xFE00, data), ..self }
        } else {
            PpuView { registers: self.registers.update(addr - 0xFF40, data), ..self }
        }
    }
}

impl View for Ppu {
    type V = PpuView;

    closed spec fn view(&self) -> PpuView {
        PpuView { vram: self.vram@, oam: self.oam@, registers: self.registers@ }
    }
}

impl Ppu {
    pub fn new() -> (p: Ppu)
        ensures
            p@ == PpuView::cleared(),
    {
        Ppu { vram: zeroed(0x2000), oam: zeroed(0xA0), registers: zeroed(0x0C) }
    }

    /// Clear the memory of the picture processing unit.
    pub fn reset(&mut self)
        ensures
            final(self)@ == PpuView::cleared(),
    {
        self.vram = zeroed(0x2000);
        self.oam = zeroed(0xA0);
        self.registers = zeroed(0x0C);
    }

    /// Video RAM can be read and written by the CPU.
    pub fn is_vram_accessible(&self) -> (b: bool)
        ensures
            b,
    {
        true
    }

    /// Sprite attribute memory can be read and written by the CPU.
    pub fn is_oam_accessible(&self) -> (b: bool)
        ensures
            b,
    {
        true
    }

    /// Advance the picture processing unit by `duration` clock cycles and return the interrupt
    /// flags it raises: none, as this unit does no rendering.
    pub fn cycle(&mut self, duration: u8) -> (int_flags: u8)
        ensures
            int_flags == 0,
            final(self)@ == old(self)@,
    {
        0
    }
}

impl MmuObject for Ppu {
    open spec fn serves(&self, addr: u16) -> bool {
        self@.wf() && ppu_address(addr)
    }

    open spec fn value_at(&self, addr: u16) -> u8 {
        self@.read(addr)
    }

    open spec fn written_from(&self, before: &Self, addr: u16, data: u8) -> bool {
        self@ == before@.write(addr, data)
    }

    fn read8(&self, addr: u16) -> (r: u8) {
        if 0x8000 <= addr && addr <= 0x9FFF {
            self.vram[(addr - 0x8000) as usize]
        } else if 0xFE00 <= addr && addr <= 0xFE9F {
            self.oam[(addr - 0xFE00) as usize]
        } else {
            self.registers[(addr - 0xFF40) as usize]
        }
    }

    fn write8(&mut self, addr: u16, data: u8) {
        if 0x8000 <= addr && addr <= 0x9FFF {
            self.vram.set((addr - 0x8000) as usize, data);
        } else if 0xFE00 <= addr && addr <= 0xFE9F {
            self.oam.set((addr - 0xFE00) as usize, data);
        } else {
            self.registers.set((addr - 0xFF40) as usize, data);
        }
    }
}

} // verus!
