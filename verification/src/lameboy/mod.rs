pub mod cart;
pub mod cpu;
pub mod interrupts;
pub mod mmu;
pub mod ppu;

use crate::gui::imguidebug::{ImguiDebug, ImguiDebugView};
use crate::joypad::{Joypad, JoypadView};
use crate::lameboy::cart::{loadable_rom, Cart, CartView};
use crate::lameboy::cpu::execute::{blocked_message, instruction_ok};
use crate::lameboy::cpu::registers::RegistersView;
use crate::lameboy::cpu::{cycle_step, Cpu, CpuView};
use crate::lameboy::mmu::{contains_addr, Mmu, MmuView};
use crate::lameboy::ppu::{Ppu, PpuView};
use vstd::prelude::*;

verus! {

/// The number of clock cycles the Game Boy runs for one frame of the display.
pub const FRAME_CYCLES: u32 = 70224;

/// The emulator: a CPU on its memory bus, whether it runs, how many more instructions to trace,
/// and the state of the debug windows.
pub struct Lameboy {
    pub active: bool,
    pub cpu: Cpu,
    pub running: bool,
    pub trace_count: i32,
    pub debug: ImguiDebug,
}

/// The emulator as plain values.
pub struct LameboyView {
    pub active: bool,
    pub cpu: CpuView,
    pub running: bool,
    pub trace_count: i32,
    pub debug: ImguiDebugView,
}

impl View for Lameboy {
    type V = LameboyView;

    open spec fn view(&self) -> LameboyView {
        LameboyView {
            active: self.active,
            cpu: self.cpu@,
            running: self.running,
            trace_count: self.trace_count,
            debug: self.debug@,
        }
    }
}

impl LameboyView {
    pub open spec fn wf(self) -> bool {
        self.cpu.wf()
    }

    /// The emulator as `Lameboy::new` makes it from a ROM image.
    pub open spec fn initial(rom: Seq<u8>) -> LameboyView {
        LameboyView {
            active: true,
            cpu: CpuView::initial(
                MmuView::initial(CartView::from_rom(rom), PpuView::cleared(), JoypadView::released()),
            ),
            running: false,
            trace_count: 0,
            debug: ImguiDebugView::initial(),
        }
    }

    /// The state after and the cycles of `step`: the CPU runs one instruction, then the
    /// interrupt flags register is read and written back with the flags the picture processing
    /// unit raises, which are none; the debug windows learn the new program counter.
    pub open spec fn step(self) -> (LameboyView, u8) {
        let (cpu1, duration) = cycle_step(self.cpu);
        let (cpu2, int_flags) = cpu1.read8(0xFF0F);
        let cpu3 = cpu2.write8(0xFF0F, int_flags);
        (
            LameboyView {
                cpu: cpu3,
                trace_count: if self.trace_count > 0 {
                    (self.trace_count - 1) as i32
                } else {
                    self.trace_count
                },
                debug: ImguiDebugView { program_counter: cpu3.regs.pc, ..self.debug },
                ..self
            },
            duration,
        )
    }

    /// The state the rest of a frame leaves, `t_clk` cycles into it, and whether every
    /// instruction on the way could run. The frame ends after 70224 cycles, or early when the
    /// program counter is a breakpoint or a memory breakpoint was hit (which is then cleared),
    /// stopping the emulator; before each instruction the memory bus gets the debug windows'
    /// memory breakpoints. At an instruction that cannot run the frame stops, unfinished.
    pub open spec fn frame_outcome(self, t_clk: nat) -> (LameboyView, bool)
        decreases
            if t_clk < FRAME_CYCLES {
                FRAME_CYCLES - t_clk
            } else {
                0
            },
    {
        if t_clk >= FRAME_CYCLES {
            (self, true)
        } else if self.debug.breakpoints.contains(self.cpu.regs.pc) {
            (LameboyView { running: false, ..self }, true)
        } else if self.cpu.mmu.breakpoint_hit != 0 {
            (
                LameboyView {
                    running: false,
                    cpu: self.cpu.with_mmu(MmuView { breakpoint_hit: 0, ..self.cpu.mmu }),
                    ..self
                },
                true,
            )
        } else {
            let armed = LameboyView {
                cpu: self.cpu.with_mmu(
                    MmuView { memory_breakpoints: self.debug.memory_breakpoints, ..self.cpu.mmu },
                ),
                ..self
            };
            if !instruction_ok(armed.cpu) {
                (armed, false)
            } else {
                let (next, duration) = armed.step();
                if duration == 0 {
                    (next, true)
                } else {
                    next.frame_outcome(t_clk + duration as nat)
                }
            }
        }
    }

    /// The registers, memory and halt flag after `reset`.
    pub open spec fn after_reset(self) -> LameboyView {
        LameboyView {
            cpu: CpuView {
                regs: RegistersView::post_boot(),
                halt: false,
                mmu: MmuView { ppu: PpuView::cleared(), ..self.cpu.mmu }.post_boot(),
                ..self.cpu
            },
            ..self
        }
    }
}

/// A frame that starts on a breakpoint stops at once: the emulator stops running and nothing
/// else changes.
pub proof fn lemma_frame_stops_at_breakpoint(s: LameboyView, t_clk: nat)
    requires
        t_clk < FRAME_CYCLES,
        s.debug.breakpoints.contains(s.cpu.regs.pc),
    ensures
        s.frame_outcome(t_clk) == (LameboyView { running: false, ..s }, true),
{
}

impl Lameboy {
    /// Build the emulator around a ROM image.
    pub fn new(data: Vec<u8>) -> (lameboy: Lameboy)
        requires
            loadable_rom(data@),
        ensures
            lameboy@ == LameboyView::initial(data@),
            lameboy@.wf(),
    {
        let joypad = Joypad::new();
        let cart = Cart::new(data);
        let ppu = Ppu::new();
        let mmu = Mmu::new(cart, ppu, joypad);
        let cpu = Cpu::new(mmu);

        Lameboy {
            active: true,
            cpu,
            running: false,
            trace_count: 0,
            debug: ImguiDebug::new(),
        }
    }

    pub fn is_running(&self) -> (running: bool)
        ensures
            running == self.running,
    {
        self.running
    }

    /// Run the emulator for one frame of the display, stopping early at a breakpoint.
    pub fn run_frame(&mut self)
        requires
            old(self)@.wf(),
            old(self)@.frame_outcome(0).1,
        ensures
            final(self)@ == old(self)@.frame_outcome(0).0,
            final(self)@.wf(),
    {
        let ghost start = self@;
        let mut t_clk: u32 = 0;
        while t_clk < FRAME_CYCLES
            invariant
                self@.wf(),
                t_clk <= FRAME_CYCLES + 36,
                start == old(self)@,
                self@.frame_outcome(t_clk as nat) == start.frame_outcome(0),
                start.frame_outcome(0).1,
            decreases FRAME_CYCLES + 36 - t_clk,
        {
            // Stop emulator running if the current PC is a breakpoint
            let current_pc = self.cpu.registers.pc;
            if contains_addr(&self.debug.breakpoints, current_pc) {
                self.running = false;
                return;
            }
            let breakpoint_hit = self.cpu.mmu.hit_breakpoint();
            if breakpoint_hit != 0x0000 {
                self.running = false;
                self.cpu.mmu.clear_breakpoint_hit();
                return;
            }
            self.cpu.mmu.set_memory_breakpoints(self.debug.memory_breakpoints.clone());

            // Step the emulator through a single opcode
            t_clk += u32::from(self.step());
        }
    }

    /// Run the emulator for one frame of the display, as `run_frame` does, and stop with the
    /// message of an instruction that cannot run when the frame reaches one.
    pub fn try_run_frame(&mut self) -> (r: Result<(), String>)
        requires
            old(self)@.wf(),
        ensures
            final(self)@ == old(self)@.frame_outcome(0).0,
            final(self)@.wf(),
            r is Ok <==> old(self)@.frame_outcome(0).1,
            r matches Err(msg) ==> msg@ == blocked_message(final(self)@.cpu),
    {
        let ghost start = self@;
        let mut t_clk: u32 = 0;
        while t_clk < FRAME_CYCLES
            invariant
                self@.wf(),
                t_clk <= FRAME_CYCLES + 36,
                start == old(self)@,
                self@.frame_outcome(t_clk as nat) == start.frame_outcome(0),
            decreases FRAME_CYCLES + 36 - t_clk,
        {
            let current_pc = self.cpu.registers.pc;
            if contains_addr(&self.debug.breakpoints, current_pc) {
                self.running = false;
                return Ok(());
            }
            let breakpoint_hit = self.cpu.mmu.hit_breakpoint();
            if breakpoint_hit != 0x0000 {
                self.running = false;
                self.cpu.mmu.clear_breakpoint_hit();
                return Ok(());
            }
            self.cpu.mmu.set_memory_breakpoints(self.debug.memory_breakpoints.clone());

            if !self.cpu.can_execute() {
                return Err(self.cpu.blocked_message());
            }
            t_clk += u32::from(self.step());
        }
        Ok(())
    }

    /// Let the CPU fetch, decode, and execute an opcode and update the PPU
    #[verifier::rlimit(100)]
    pub fn step(&mut self) -> (cycles: u8)
        requires
            old(self)@.wf(),
            instruction_ok(old(self)@.cpu),
        ensures
            (final(self)@, cycles) == old(self)@.step(),
            final(self)@.wf(),
            4 <= cycles <= 36,
    {
        let ghost s = self@;
        if self.trace_count > 0 {
            self.trace_count -= 1;
        }

        // Run the CPU for one opcode and get its cycle duration for the PPU
        let cpu_duration = self.cpu.cycle();
        let ghost cpu1 = self.cpu@;
        assert(cpu1 == cycle_step(s.cpu).0);

        // Run the PPU for one cycle getting any updated interrupt flags back
        let int_flags = self.cpu.mmu.read8(0xFF0F);
        let ppu_int_flags = self.cpu.mmu.cycle_ppu(cpu_duration);
        let ghost cpu2 = self.cpu@;
        assert(cpu2 == cpu1.read8(0xFF0F).0);
        proof {
            crate::bits::lemma_u8_or_zero(int_flags, ppu_int_flags);
        }
        self.cpu.mmu.write8(0xFF0F, int_flags | ppu_int_flags);
        assert(self.cpu@ == cpu2.write8(0xFF0F, int_flags));

        self.debug.program_counter = self.cpu.registers.pc;

        cpu_duration
    }

    /// Clear the picture processing unit and set the CPU and the I/O registers up as the DMG
    /// boot rom leaves them.
    pub fn reset(&mut self)
        requires
            old(self)@.wf(),
        ensures
            final(self)@ == old(self)@.after_reset(),
            final(self)@.wf(),
    {
        self.cpu.mmu.reset_ppu();
        self.cpu.reset();
        self.cpu.mmu.reset();
    }

    pub fn get_cpu(&mut self) -> (cpu: &mut Cpu)
        ensures
            *cpu == old(self).cpu,
            final(self)@ == (LameboyView { cpu: final(cpu)@, ..old(self)@ }),
    {
        &mut self.cpu
    }

    pub fn get_mmu(&mut self) -> (mmu: &mut Mmu)
        ensures
            *mmu == old(self).cpu.mmu,
            final(self)@ == (LameboyView { cpu: old(self)@.cpu.with_mmu(final(mmu)@), ..old(self)@ }),
    {
        &mut self.cpu.mmu
    }

    pub fn get_cart(&mut self) -> (cart: &mut Cart)
        ensures
            cart@ == old(self)@.cpu.mmu.cart,
            final(self)@ == (LameboyView {
                cpu: old(self)@.cpu.with_mmu(MmuView { cart: final(cart)@, ..old(self)@.cpu.mmu }),
                ..old(self)@
            }),
    {
        self.cpu.mmu.cart_mut()
    }

    pub fn get_ppu(&mut self) -> (ppu: &mut Ppu)
        ensures
            ppu@ == old(self)@.cpu.mmu.ppu,
            final(self)@ == (LameboyView {
                cpu: old(self)@.cpu.with_mmu(MmuView { ppu: final(ppu)@, ..old(self)@.cpu.mmu }),
                ..old(self)@
            }),
    {
        self.cpu.mmu.ppu_mut()
    }

    pub fn get_joypad(&mut self) -> (joypad: &mut Joypad)
        ensures
            joypad@ == old(self)@.cpu.mmu.joypad,
            final(self)@ == (LameboyView {
                cpu: old(self)@.cpu.with_mmu(
                    MmuView { joypad: final(joypad)@, ..old(self)@.cpu.mmu },
                ),
                ..old(self)@
            }),
    {
        self.cpu.mmu.joypad_mut()
    }
}

} // verus!
