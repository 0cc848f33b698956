pub mod debug;
pub mod mmuobject;

use crate::bits::{zeroed, zeros};
use crate::joypad::{Joypad, JoypadView};
use crate::lameboy::cart::{Cart, CartView};
use crate::lameboy::mmu::mmuobject::MmuObject;
use crate::lameboy::ppu::{Ppu, PpuView};
use vstd::prelude::*;

verus! {

pub const CART_ROM_BANK_0_START: u16 = 0x0000;

pub const CART_ROM_BANK_0_END: u16 = 0x3FFF;

pub const CART_ROM_BANK_X_START: u16 = 0x4000;

pub const CART_ROM_BANK_X_END: u16 = 0x7FFF;

pub const VRAM_START: u16 = 0x8000;

pub const VRAM_END: u16 = 0x9FFF;

pub const CART_RAM_BANK_X_START: u16 = 0xA000;

pub const CART_RAM_BANK_X_END: u16 = 0xBFFF;

pub const RAM_BANK_0_START: u16 = 0xC000;

pub const RAM_BANK_0_END: u16 = 0xCFFF;

pub const RAM_BANK_X_START: u16 = 0xD000;

pub const RAM_BANK_X_END: u16 = 0xDFFF;

pub const RAM_ECHO_BANK_0_START: u16 = 0xE000;

pub const RAM_ECHO_BANK_0_END: u16 = 0xEFFF;

pub const RAM_ECHO_BANK_X_START: u16 = 0xF000;

pub const RAM_ECHO_BANK_X_END: u16 = 0xFDFF;

pub const OAM_START: u16 = 0xFE00;

pub const OAM_END: u16 = 0xFE9F;

pub const UNUSABLE_START: u16 = 0xFEA0;

pub const UNUSABLE_END: u16 = 0xFEFF;

pub const IO_PORTS_START: u16 = 0xFF00;

pub const IO_PORTS_END: u16 = 0xFF7F;

pub const HIGH_RAM_START: u16 = 0xFF80;

pub const HIGH_RAM_END: u16 = 0xFFFE;

pub const INTERRUPT_ENABLE_REGISTER: u16 = 0xFFFF;

/// The memory bus: routes every address to the cart, the picture processing unit, the joypad
/// or its own RAM and registers.
pub struct Mmu {
    pub cart: Cart,
    pub ppu: Ppu,
    pub joypad: Joypad,
    /// Work RAM 0 [0xC000 - 0xCFFF]
    wram0: Vec<u8>,
    /// Work RAM 1 [0xD000 - 0xDFFF] (Bank 1-7 in CGB Mode)
    wram1: Vec<u8>,
    /// Unusable region [0xFEA0 - 0xFEFF]
    unusable: u8,
    /// I/O Ports [FF00 - 0xFF7F]
    io: Vec<u8>,
    /// High RAM [0xFF80 - 0xFFFE]
    hram: Vec<u8>,
    /// Interrupt Enable Register [0xFFFF]
    ier: u8,
    pub memory_breakpoints: Vec<u16>,
    pub breakpoint_hit: u16,
}

/// The memory bus as plain values.
pub struct MmuView {
    pub cart: CartView,
    pub ppu: PpuView,
    pub joypad: JoypadView,
    pub wram0: Seq<u8>,
    pub wram1: Seq<u8>,
    pub unusable: u8,
    pub io: Seq<u8>,
    pub hram: Seq<u8>,
    pub ier: u8,
    pub memory_breakpoints: Seq<u16>,
    pub breakpoint_hit: u16,
}

impl View for Mmu {
    type V = MmuView;

    closed spec fn view(&self) -> MmuView {
        MmuView {
            cart: self.cart@,
            ppu: self.ppu@,
            joypad: self.joypad@,
            wram0: self.wram0@,
            wram1: self.wram1@,
            unusable: self.unusable,
            io: self.io@,
            hram: self.hram@,
            ier: self.ier,
            memory_breakpoints: self.memory_breakpoints@,
            breakpoint_hit: self.breakpoint_hit,
        }
    }
}

/// Work RAM bank 0 and its echo.
pub open spec fn wram0_address(addr: u16) -> bool {
    (RAM_BANK_0_START <= addr <= RAM_BANK_0_END) || (RAM_ECHO_BANK_0_START <= addr
        <= RAM_ECHO_BANK_0_END)
}

/// Work RAM bank 1 and its echo.
pub open spec fn wram1_address(addr: u16) -> bool {
    (RAM_BANK_X_START <= addr <= RAM_BANK_X_END) || (RAM_ECHO_BANK_X_START <= addr
        <= RAM_ECHO_BANK_X_END)
}

/// The I/O ports kept by the memory bus itself.
pub open spec fn io_address(addr: u16) -> bool {
    (0xFF01 <= addr <= 0xFF3F) || (0xFF4C <= addr <= 0xFF7F)
}

/// The addresses that read back what was last written there: work RAM, video RAM, OAM, the
/// LCD registers other than the DMA register, the I/O ports the bus keeps, high RAM and the
/// interrupt enable register.
pub open spec fn ram_address(addr: u16) -> bool {
    ||| wram0_address(addr)
    ||| wram1_address(addr)
    ||| (VRAM_START <= addr <= VRAM_END)
    ||| (OAM_START <= addr <= OAM_END)
    ||| (0xFF40 <= addr <= 0xFF4B && addr != 0xFF46)
    ||| io_address(addr)
    ||| (HIGH_RAM_START <= addr <= HIGH_RAM_END)
    ||| addr == INTERRUPT_ENABLE_REGISTER
}

/// The addresses two names of which reach the same byte: a work RAM address and its echo.
pub open spec fn same_cell(a: u16, b: u16) -> bool {
    a == b || ((wram0_address(a) && wram0_address(b) || wram1_address(a) && wram1_address(b))
        && a % 0x1000 == b % 0x1000)
}

impl MmuView {
    /// The memory bus as `Mmu::new` makes it: all RAM zero, no memory breakpoint set.
    pub open spec fn initial(cart: CartView, ppu: PpuView, joypad: JoypadView) -> MmuView {
        MmuView {
            cart,
            ppu,
            joypad,
            wram0: zeros(0x1000),
            wram1: zeros(0x1000),
            unusable: 0xFF,
            io: zeros(0x80),
            hram: zeros(0x7F),
            ier: 0x00,
            memory_breakpoints: Seq::empty(),
            breakpoint_hit: 0x0000,
        }
    }

    pub open spec fn wf(self) -> bool {
        &&& self.wram0.len() == 0x1000
        &&& self.wram1.len() == 0x1000
        &&& self.io.len() == 0x80
        &&& self.hram.len() == 0x7F
        &&& self.unusable == 0xFF
        &&& self.ppu.wf()
    }

    /// What a read of `addr` gives.
    pub open spec fn read(self, addr: u16) -> u8 {
        if addr <= CART_ROM_BANK_X_END || (CART_RAM_BANK_X_START <= addr <= CART_RAM_BANK_X_END) {
            self.cart.read(addr)
        } else if VRAM_START <= addr <= VRAM_END {
            self.ppu.read(addr)
        } else if wram0_address(addr) {
            self.wram0[(addr % 0x1000) as int]
        } else if wram1_address(addr) {
            self.wram1[(addr % 0x1000) as int]
        } else if OAM_START <= addr <= OAM_END {
            self.ppu.read(addr)
        } else if UNUSABLE_START <= addr <= UNUSABLE_END {
            self.unusable
        } else if addr == 0xFF00 {
            self.joypad.byte()
        } else if 0xFF40 <= addr <= 0xFF4B {
            self.ppu.read(addr)
        } else if io_address(addr) {
            self.io[(addr % 0x100) as int]
        } else if HIGH_RAM_START <= addr <= HIGH_RAM_END {
            self.hram[(addr % 0x100) - 0x80]
        } else {
            self.ier
        }
    }

    /// A 16-bit little-endian read of `addr` and the address after it.
    pub open spec fn read16(self, addr: u16) -> u16 {
        crate::lameboy::cpu::registers::word(
            self.read(((addr + 1) % 0x10000) as u16),
            self.read(addr),
        )
    }

    /// An access of `addr` records it as the breakpoint hit when it is a memory breakpoint.
    pub open spec fn touch(self, addr: u16) -> MmuView {
        if self.memory_breakpoints.contains(addr) {
            MmuView { breakpoint_hit: addr, ..self }
        } else {
            self
        }
    }

    /// What storing `data` at `addr` does, breakpoints and DMA aside.
    pub open spec fn store(self, addr: u16, data: u8) -> MmuView {
        if addr <= CART_ROM_BANK_X_END || (CART_RAM_BANK_X_START <= addr <= CART_RAM_BANK_X_END) {
            self
        } else if VRAM_START <= addr <= VRAM_END {
            MmuView { ppu: self.ppu.write(addr, data), ..self }
        } else if wram0_address(addr) {
            MmuView { wram0: self.wram0.update((addr % 0x1000) as int, data), ..self }
        } else if wram1_address(addr) {
            MmuView { wram1: self.wram1.update((addr % 0x1000) as int, data), ..self }
        } else if OAM_START <= addr <= OAM_END {
            MmuView { ppu: self.ppu.write(addr, data), ..self }
        } else if UNUSABLE_START <= addr <= UNUSABLE_END {
            self
        } else if addr == 0xFF00 {
            MmuView { joypad: self.joypad.write(data), ..self }
        } else if 0xFF40 <= addr <= 0xFF4B {
            MmuView { ppu: self.ppu.write(addr, data), ..self }
        } else if io_address(addr) {
            MmuView { io: self.io.update((addr % 0x100) as int, data), ..self }
        } else if HIGH_RAM_START <= addr <= HIGH_RAM_END {
            MmuView { hram: self.hram.update((addr % 0x100) - 0x80, data), ..self }
        } else {
            MmuView { ier: data, ..self }
        }
    }

    /// The first `n` steps of a DMA transfer from `source`: each step reads the source byte and
    /// writes it to the OAM byte of the same offset.
    pub open spec fn dma(self, source: u16, n: nat) -> MmuView
        decreases n,
    {
        if n == 0 {
            self
        } else {
            let before = self.dma(source, (n - 1) as nat);
            let from = (source + n - 1) as u16;
            let to = (OAM_START + n - 1) as u16;
            before.touch(from).touch(to).store(to, before.read(from))
        }
    }

    /// The I/O registers as the DMG boot rom leaves them: the writes `Mmu::reset` makes, in order.
    #[verifier::opaque]
    pub open spec fn post_boot(self) -> MmuView {
        self
            .write(0xFF05, 0x00)
            .write(0xFF06, 0x00)
            .write(0xFF07, 0x00)
            .write(0xFF10, 0x80)
            .write(0xFF11, 0xBF)
            .write(0xFF12, 0xF3)
            .write(0xFF14, 0xBF)
            .write(0xFF16, 0x3F)
            .write(0xFF17, 0x00)
            .write(0xFF19, 0xBF)
            .write(0xFF1A, 0x7F)
            .write(0xFF1B, 0xFF)
            .write(0xFF1C, 0x9F)
            .write(0xFF1E, 0xBF)
            .write(0xFF20, 0xFF)
            .write(0xFF21, 0x00)
            .write(0xFF22, 0x00)
            .write(0xFF23, 0xBF)
            .write(0xFF24, 0x77)
            .write(0xFF25, 0xF3)
            .write(0xFF26, 0xF1)
            .write(0xFF40, 0x91)
            .write(0xFF42, 0x00)
            .write(0xFF43, 0x00)
            .write(0xFF45, 0x00)
            .write(0xFF47, 0xFC)
            .write(0xFF48, 0xFF)
            .write(0xFF49, 0xFF)
            .write(0xFF4A, 0x00)
            .write(0xFF4B, 0x00)
            .write(0xFFFF, 0x00)
    }

    /// What a write of `data` to `addr` does: a write to the DMA register copies the 160 bytes
    /// from `data * 0x100` into OAM.
    pub open spec fn write(self, addr: u16, data: u8) -> MmuView {
        let touched = self.touch(addr);
        if addr == 0xFF46 {
            touched.dma((data as u16 * 256) as u16, 160)
        } else {
            touched.store(addr, data)
        }
    }
}

/// Accessing an address changes nothing but the breakpoint hit: every address reads as
/// before, and the bus stays well formed.
pub proof fn lemma_touch_keeps_memory(m: MmuView, addr: u16, other: u16)
    ensures
        m.touch(addr).read(other) == m.read(other),
        m.touch(addr) == (MmuView { breakpoint_hit: m.touch(addr).breakpoint_hit, ..m }),
        m.wf() ==> m.touch(addr).wf(),
        m.memory_breakpoints.contains(addr) ==> m.touch(addr).breakpoint_hit == addr,
{
}

/// A write to memory that reads back, read back, gives what was written.
pub proof fn lemma_write_then_read(m: MmuView, addr: u16, data: u8)
    requires
        m.wf(),
        ram_address(addr),
    ensures
        m.write(addr, data).read(addr) == data,
        m.write(addr, data).wf(),
{
}

/// A write to memory that reads back leaves every other byte as it was: only the address and,
/// for work RAM, its echo change.
pub proof fn lemma_write_keeps_others(m: MmuView, addr: u16, other: u16, data: u8)
    requires
        m.wf(),
        ram_address(addr),
        !same_cell(addr, other),
    ensures
        m.write(addr, data).read(other) == m.read(other),
{
}

/// Work RAM and its echo are one memory: an address and its echo read the same byte, and a
/// write through one reads back through the other.
pub proof fn lemma_echo_ram(m: MmuView, addr: u16, echo: u16, data: u8)
    requires
        m.wf(),
        0xC000 <= addr <= 0xDDFF,
        echo == addr + 0x2000,
    ensures
        m.read(addr) == m.read(echo),
        m.write(addr, data).read(echo) == data,
        m.write(echo, data).read(addr) == data,
{
}

/// Writes to the cart's ROM, and to the unusable area, change no byte that can be read.
pub proof fn lemma_rom_write_ignored(m: MmuView, addr: u16, other: u16, data: u8)
    requires
        m.wf(),
        addr <= 0x7FFF || (0xFEA0 <= addr <= 0xFEFF),
    ensures
        m.write(addr, data).read(other) == m.read(other),
{
}

/// The first `n` steps of a DMA transfer from a source outside OAM put the source bytes into
/// the first `n` bytes of OAM and leave every other byte as it was.
pub proof fn lemma_dma_steps(m: MmuView, source: u16, n: nat)
    requires
        m.wf(),
        n <= 160,
        source as int + 160 <= OAM_START || (source >= 0xFEA0 && source as int + 160 <= 0x10000),
    ensures
        m.dma(source, n).wf(),
        forall|i: int| 0 <= i < n ==> #[trigger] m.dma(source, n).read((OAM_START + i) as u16) == m.read(
            (source + i) as u16,
        ),
        forall|b: u16| !(OAM_START <= b < OAM_START + n) ==> #[trigger] m.dma(source, n).read(b)
            == m.read(b),
    decreases n,
{
    if n > 0 {
        lemma_dma_steps(m, source, (n - 1) as nat);
        let before = m.dma(source, (n - 1) as nat);
        let from = (source + n - 1) as u16;
        let to = (OAM_START + n - 1) as u16;
        assert(before.read(from) == m.read(from));
        let touched = before.touch(from).touch(to);
        lemma_touch_keeps_memory(before, from, to);
        lemma_touch_keeps_memory(before.touch(from), to, to);
        assert forall|b: u16| b != to implies #[trigger] touched.store(to, before.read(from)).read(b)
            == touched.read(b) by {
            lemma_touch_keeps_memory(before, from, b);
            lemma_touch_keeps_memory(before.touch(from), to, b);
        }
        assert forall|b: u16| true implies touched.read(b) == before.read(b) by {
            lemma_touch_keeps_memory(before, from, b);
            lemma_touch_keeps_memory(before.touch(from), to, b);
        }
    }
}

/// Writing a page number to the DMA register (0xFF46) copies the 160 bytes from that page
/// into OAM, when the page is not OAM's own; no other byte changes.
pub proof fn lemma_dma_copies_page(m: MmuView, page: u8)
    requires
        m.wf(),
        page != 0xFE,
    ensures
        forall|i: int| 0 <= i < 160 ==> #[trigger] m.write(0xFF46, page).read((OAM_START + i) as u16)
            == m.read((page as int * 256 + i) as u16),
        forall|b: u16| !(OAM_START <= b <= OAM_END) ==> #[trigger] m.write(0xFF46, page).read(b)
            == m.read(b),
        m.write(0xFF46, page).wf(),
{
    let source = (page as u16 * 256) as u16;
    assert(source == page as int * 256);
    let touched = m.touch(0xFF46);
    lemma_touch_keeps_memory(m, 0xFF46, 0);
    assert forall|b: u16| true implies touched.read(b) == m.read(b) by {
        lemma_touch_keeps_memory(m, 0xFF46, b);
    }
    lemma_dma_steps(touched, source, 160);
}

/// Whether `addr` is one of the breakpoints.
pub(crate) fn contains_addr(breakpoints: &Vec<u16>, addr: u16) -> (found: bool)
    ensures
        found == breakpoints@.contains(addr),
{
    let mut i: usize = 0;
    while i < breakpoints.len()
        invariant
            i <= breakpoints@.len(),
            forall|j: int| 0 <= j < i ==> breakpoints@[j] != addr,
        decreases breakpoints@.len() - i,
    {
        if breakpoints[i] == addr {
            return true;
        }
        i = i + 1;
    }
    false
}

impl Mmu {
    pub fn new(cart: Cart, ppu: Ppu, joypad: Joypad) -> (mmu: Mmu)
        requires
            ppu@.wf(),
        ensures
            mmu@ == MmuView::initial(cart@, ppu@, joypad@),
            mmu@.wf(),
    {
        Mmu {
            cart,
            ppu,
            joypad,
            wram0: zeroed(0x1000),
            wram1: zeroed(0x1000),
            unusable: 0xFF,
            io: zeroed(0x0080),
            hram: zeroed(0x007F),
            ier: 0x00,
            memory_breakpoints: Vec::new(),
            breakpoint_hit: 0x0000,
        }
    }

    /// Set the I/O registers as the DMG boot rom leaves them.
    pub fn reset(&mut self)
        requires
            old(self)@.wf(),
        ensures
            final(self)@ == old(self)@.post_boot(),
            final(self)@.wf(),
    {
        proof {
            reveal(MmuView::post_boot);
        }
        self.write8(0xFF05, 0x00);
        self.write8(0xFF06, 0x00);
        self.write8(0xFF07, 0x00);
        self.write8(0xFF10, 0x80);
        self.write8(0xFF11, 0xBF);
        self.write8(0xFF12, 0xF3);
        self.write8(0xFF14, 0xBF);
        self.write8(0xFF16, 0x3F);
        self.write8(0xFF17, 0x00);
        self.write8(0xFF19, 0xBF);
        self.write8(0xFF1A, 0x7F);
        self.write8(0xFF1B, 0xFF);
        self.write8(0xFF1C, 0x9F);
        self.write8(0xFF1E, 0xBF);
        self.write8(0xFF20, 0xFF);
        self.write8(0xFF21, 0x00);
        self.write8(0xFF22, 0x00);
        self.write8(0xFF23, 0xBF);
        self.write8(0xFF24, 0x77);
        self.write8(0xFF25, 0xF3);
        self.write8(0xFF26, 0xF1);
        self.write8(0xFF40, 0x91);
        self.write8(0xFF42, 0x00);
        self.write8(0xFF43, 0x00);
        self.write8(0xFF45, 0x00);
        self.write8(0xFF47, 0xFC);
        self.write8(0xFF48, 0xFF);
        self.write8(0xFF49, 0xFF);
        self.write8(0xFF4A, 0x00);
        self.write8(0xFF4B, 0x00);
        self.write8(0xFFFF, 0x00);
    }

    /// The address of the memory breakpoint last hit, zero when none was.
    pub fn hit_breakpoint(&self) -> (addr: u16)
        ensures
            addr == self@.breakpoint_hit,
    {
        self.breakpoint_hit
    }

    /// Forget the memory breakpoint last hit.
    pub fn clear_breakpoint_hit(&mut self)
        ensures
            final(self)@ == (MmuView { breakpoint_hit: 0, ..old(self)@ }),
    {
        self.breakpoint_hit = 0x0000;
    }

    /// Watch the addresses of `breakpoints` in place of those watched so far.
    pub fn set_memory_breakpoints(&mut self, breakpoints: Vec<u16>)
        ensures
            final(self)@ == (MmuView { memory_breakpoints: breakpoints@, ..old(self)@ }),
    {
        self.memory_breakpoints = breakpoints;
    }

    /// Run the picture processing unit for `duration` cycles; it returns the interrupt flags it
    /// raises.
    pub fn cycle_ppu(&mut self, duration: u8) -> (int_flags: u8)
        ensures
            int_flags == 0,
            final(self)@ == old(self)@,
    {
        self.ppu.cycle(duration)
    }

    /// Clear the picture processing unit.
    pub fn reset_ppu(&mut self)
        ensures
            final(self)@ == (MmuView { ppu: PpuView::cleared(), ..old(self)@ }),
    {
        self.ppu.reset();
    }

    /// The cart, to read or change in place.
    pub fn cart_mut(&mut self) -> (cart: &mut Cart)
        ensures
            cart@ == old(self)@.cart,
            final(self)@ == (MmuView { cart: final(cart)@, ..old(self)@ }),
    {
        &mut self.cart
    }

    /// The picture processing unit, to read or change in place.
    pub fn ppu_mut(&mut self) -> (ppu: &mut Ppu)
        ensures
            ppu@ == old(self)@.ppu,
            final(self)@ == (MmuView { ppu: final(ppu)@, ..old(self)@ }),
    {
        &mut self.ppu
    }

    /// The joypad, to read or change in place.
    pub fn joypad_mut(&mut self) -> (joypad: &mut Joypad)
        ensures
            joypad@ == old(self)@.joypad,
            final(self)@ == (MmuView { joypad: final(joypad)@, ..old(self)@ }),
    {
        &mut self.joypad
    }

    pub fn read8(&mut self, addr: u16) -> (r: u8)
        requires
            old(self)@.wf(),
        ensures
            r == old(self)@.read(addr),
            UNUSABLE_START <= addr <= UNUSABLE_END ==> r == 0xFF,
            final(self)@ == old(self)@.touch(addr),
    {
        if contains_addr(&self.memory_breakpoints, addr) {
            self.breakpoint_hit = addr;
        }

        self.read8_safe(addr)
    }

    pub fn read8_safe(&self, addr: u16) -> (r: u8)
        requires
            self@.wf(),
        ensures
            r == self@.read(addr),
            UNUSABLE_START <= addr <= UNUSABLE_END ==> r == 0xFF,
    {
        proof {
            crate::bits::lemma_u16_arith(addr);
        }
        if addr <= CART_ROM_BANK_X_END || (CART_RAM_BANK_X_START <= addr && addr
            <= CART_RAM_BANK_X_END) {
            self.cart.read8(addr)
        } else if VRAM_START <= addr && addr <= VRAM_END {
            // Return undefined data if accessing VRAM
            if self.ppu.is_vram_accessible() {
                self.ppu.read8(addr)
            } else {
                0xFF
            }
        } else if (RAM_BANK_0_START <= addr && addr <= RAM_BANK_0_END) || (RAM_ECHO_BANK_0_START
            <= addr && addr <= RAM_ECHO_BANK_0_END) {
            self.wram0[(addr & 0x0FFF) as usize]
        } else if (RAM_BANK_X_START <= addr && addr <= RAM_BANK_X_END) || (RAM_ECHO_BANK_X_START
            <= addr && addr <= RAM_ECHO_BANK_X_END) {
            self.wram1[(addr & 0x0FFF) as usize]
        } else if OAM_START <= addr && addr <= OAM_END {
            // Return undefined data if accessing VRAM or OAM
            if self.ppu.is_oam_accessible() {
                self.ppu.read8(addr)
            } else {
                0xFF
            }
        } else if UNUSABLE_START <= addr && addr <= UNUSABLE_END {
            self.unusable
        } else if addr == 0xFF00 {
            self.joypad.read8(addr)
        } else if 0xFF40 <= addr && addr <= 0xFF4B {
            self.ppu.read8(addr)
        } else if (0xFF01 <= addr && addr <= 0xFF3F) || (0xFF4C <= addr && addr <= 0xFF7F) {
            self.io[(addr & 0x00FF) as usize]
        } else if HIGH_RAM_START <= addr && addr <= HIGH_RAM_END {
            self.hram[((addr & 0x00FF) - 0x0080) as usize]
        } else {
            self.ier
        }
    }

    pub fn write8(&mut self, addr: u16, data: u8)
        requires
            old(self)@.wf(),
        ensures
            final(self)@ == old(self)@.write(addr, data),
            final(self)@.wf(),
        decreases
            if addr == 0xFF46 {
                1int
            } else {
                0int
            },
    {
        proof {
            crate::bits::lemma_u16_arith(addr);
        }
        if contains_addr(&self.memory_breakpoints, addr) {
            self.breakpoint_hit = addr;
        }
        if addr <= CART_ROM_BANK_X_END || (CART_RAM_BANK_X_START <= addr && addr
            <= CART_RAM_BANK_X_END) {
            self.cart.write8(addr, data)
        } else if VRAM_START <= addr && addr <= VRAM_END {
            // Ignore update if PPU is accessing VRAM
            if self.ppu.is_vram_accessible() {
                self.ppu.write8(addr, data)
            }
        } else if (RAM_BANK_0_START <= addr && addr <= RAM_BANK_0_END) || (RAM_ECHO_BANK_0_START
            <= addr && addr <= RAM_ECHO_BANK_0_END) {
            self.wram0.set((addr & 0x0FFF) as usize, data)
        } else if (RAM_BANK_X_START <= addr && addr <= RAM_BANK_X_END) || (RAM_ECHO_BANK_X_START
            <= addr && addr <= RAM_ECHO_BANK_X_END) {
            self.wram1.set((addr & 0x0FFF) as usize, data)
        } else if OAM_START <= addr && addr <= OAM_END {
            // Ignore update if PPU is accessing VRAM or OAM
            if self.ppu.is_oam_accessible() {
                self.ppu.write8(addr, data)
            }
        } else if UNUSABLE_START <= addr && addr <= UNUSABLE_END {
        } else if addr == 0xFF00 {
            self.joypad.write8(addr, data)
        } else if addr == 0xFF46 {
            // DMA
            let source_addr = (u16::from(data)) << 8;
            proof {
                assert(source_addr == (data as u16 * 256) as u16) by (bit_vector)
                    requires
                        source_addr == (data as u16) << 8,
                ;
            }
            let ghost start = self@;
            let mut i: u16 = 0;
            while i < 160
                invariant
                    0 <= i <= 160,
                    addr == 0xFF46,
                    source_addr == (data as u16 * 256) as u16,
                    source_addr <= 0xFF00,
                    self@ == start.dma(source_addr, i as nat),
                    self@.wf(),
                decreases 160 - i,
            {
                let val = self.read8(source_addr + i);
                self.write8(0xFE00 + i, val);
                i = i + 1;
            }
        } else if 0xFF40 <= addr && addr <= 0xFF4B {
            self.ppu.write8(addr, data)
        } else if (0xFF01 <= addr && addr <= 0xFF3F) || (0xFF4C <= addr && addr <= 0xFF7F) {
            self.io.set((addr & 0x00FF) as usize, data)
        } else if HIGH_RAM_START <= addr && addr <= HIGH_RAM_END {
            self.hram.set(((addr & 0x00FF) - 0x0080) as usize, data)
        } else {
            self.ier = data
        }
    }

    pub fn read16(&mut self, addr: u16) -> (r: u16)
        requires
            old(self)@.wf(),
        ensures
            r == old(self)@.read16(addr),
            final(self)@ == old(self)@.touch(addr).touch(addr.wrapping_add(1)),
    {
        let low = self.read8(addr);
        let high = self.read8(addr.wrapping_add(1));
        proof {
            crate::lameboy::cpu::registers::lemma_word_join(high, low);
        }
        ((u16::from(high)) << 8) | (u16::from(low))
    }

    pub fn read16_safe(&self, addr: u16) -> (r: u16)
        requires
            self@.wf(),
        ensures
            r == self@.read16(addr),
    {
        let low = self.read8_safe(addr);
        let high = self.read8_safe(addr.wrapping_add(1));
        proof {
            crate::lameboy::cpu::registers::lemma_word_join(high, low);
        }
        ((u16::from(high)) << 8) | (u16::from(low))
    }
}

} // verus!
