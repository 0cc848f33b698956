pub mod debug;
pub mod execute;
pub mod instructions;
pub mod registers;

use crate::lameboy::cpu::execute::{execute, instruction_ok, lemma_execute_keeps_history};
use crate::lameboy::cpu::instructions::calls::{call_interrupt, call_interrupt_step};
use crate::lameboy::cpu::instructions::stack::{lemma_push_pop, stack_cells_hold};
use crate::lameboy::cpu::registers::{word, Registers, RegistersView};
use crate::lameboy::interrupts::{INT_JOYPAD, INT_LCD_STAT, INT_SERIAL, INT_TIME, INT_VBLANK};
use crate::lameboy::mmu::{
    lemma_touch_keeps_memory, lemma_write_keeps_others, lemma_write_then_read, Mmu, MmuView,
};
use vstd::prelude::*;

verus! {

/// Where a scheduled change of the interrupt master enable flag is: EI and DI take effect one
/// instruction late.
#[derive(PartialEq, Eq, Structural)]
pub enum InterruptFlagDelayStatus {
    Waiting,
    ChangeScheduled,
    FinishedDelay,
}

/// The number of program counter values the CPU remembers.
pub const PC_HISTORY_LENGTH: usize = 200;

/// The CPU core: its registers, the memory bus it runs on, its interrupt state and the
/// program counters of the instructions it last ran.
pub struct Cpu {
    pub registers: Registers,
    pub mmu: Mmu,
    pub ie_delay_state: InterruptFlagDelayStatus,
    pub de_delay_state: InterruptFlagDelayStatus,
    pub ime: bool,
    pub halt: bool,
    pub pc_history: Vec<u16>,
    pub pc_history_pointer: usize,
}

/// The CPU as plain values.
pub struct CpuView {
    pub regs: RegistersView,
    pub mmu: MmuView,
    pub ie_delay: InterruptFlagDelayStatus,
    pub de_delay: InterruptFlagDelayStatus,
    pub ime: bool,
    pub halt: bool,
    pub pc_history: Seq<u16>,
    pub pc_history_pointer: usize,
}

impl View for Cpu {
    type V = CpuView;

    open spec fn view(&self) -> CpuView {
        CpuView {
            regs: self.registers@,
            mmu: self.mmu@,
            ie_delay: self.ie_delay_state,
            de_delay: self.de_delay_state,
            ime: self.ime,
            halt: self.halt,
            pc_history: self.pc_history@,
            pc_history_pointer: self.pc_history_pointer,
        }
    }
}

/// A byte as a signed offset, extended to 16 bits in two's complement.
pub open spec fn sign_extend(d8: u8) -> u16 {
    if d8 >= 128 {
        (d8 + 0xFF00) as u16
    } else {
        d8 as u16
    }
}

pub proof fn lemma_sign_extend(d8: u8)
    by (bit_vector)
    ensures
        ((d8 as i8) as u16) == (if d8 >= 128 {
            (d8 as u16 + 0xFF00u16) as u16
        } else {
            d8 as u16
        }),
{
}

impl CpuView {
    pub open spec fn wf(self) -> bool {
        &&& self.mmu.wf()
        &&& self.pc_history.len() == PC_HISTORY_LENGTH
        &&& self.pc_history_pointer < PC_HISTORY_LENGTH
    }

    pub open spec fn with_regs(self, regs: RegistersView) -> CpuView {
        CpuView { regs, ..self }
    }

    pub open spec fn with_mmu(self, mmu: MmuView) -> CpuView {
        CpuView { mmu, ..self }
    }

    /// Set the accumulator and the flags register.
    pub open spec fn with_af(self, af: (u8, u8)) -> CpuView {
        self.with_regs(RegistersView { a: af.0, f: af.1, ..self.regs })
    }

    /// Set the flags register.
    pub open spec fn with_f(self, f: u8) -> CpuView {
        self.with_regs(RegistersView { f, ..self.regs })
    }

    /// Set the program counter.
    pub open spec fn with_pc(self, pc: u16) -> CpuView {
        self.with_regs(RegistersView { pc, ..self.regs })
    }

    /// Read the byte at `addr`, recording the access for the memory breakpoints.
    pub open spec fn read8(self, addr: u16) -> (CpuView, u8) {
        (self.with_mmu(self.mmu.touch(addr)), self.mmu.read(addr))
    }

    /// Write `data` to `addr`.
    pub open spec fn write8(self, addr: u16, data: u8) -> CpuView {
        self.with_mmu(self.mmu.write(addr, data))
    }

    /// Read the byte at the program counter and move the program counter on by one.
    pub open spec fn fetch8(self) -> (CpuView, u8) {
        let (s, value) = self.read8(self.regs.pc);
        (s.with_regs(RegistersView { pc: self.regs.pc.wrapping_add(1), ..self.regs }), value)
    }

    /// Read the little-endian word at the program counter and move the program counter on by
    /// two.
    pub open spec fn fetch16(self) -> (CpuView, u16) {
        let (s1, low) = self.fetch8();
        let (s2, high) = s1.fetch8();
        (s2, word(high, low))
    }

    /// Decrement the stack pointer and write a byte where it then points.
    pub open spec fn push8(self, d8: u8) -> CpuView {
        let sp = self.regs.sp.wrapping_sub(1);
        self.with_regs(RegistersView { sp, ..self.regs }).write8(sp, d8)
    }

    /// Push the high byte of a word, then its low byte.
    pub open spec fn push16(self, d16: u16) -> CpuView {
        self.push8(registers::high_byte(d16)).push8(registers::low_byte(d16))
    }

    /// Read the byte the stack pointer points at and increment the stack pointer.
    pub open spec fn pop8(self) -> (CpuView, u8) {
        let (s, value) = self.read8(self.regs.sp);
        (s.with_regs(RegistersView { sp: self.regs.sp.wrapping_add(1), ..self.regs }), value)
    }

    /// Pop the low byte of a word, then its high byte.
    pub open spec fn pop16(self) -> (CpuView, u16) {
        let (s1, low) = self.pop8();
        let (s2, high) = s1.pop8();
        (s2, word(high, low))
    }

    /// The CPU as `Cpu::new` makes it on a memory bus.
    pub open spec fn initial(mmu: MmuView) -> CpuView {
        CpuView {
            regs: RegistersView::zeroed(),
            mmu,
            ie_delay: InterruptFlagDelayStatus::Waiting,
            de_delay: InterruptFlagDelayStatus::Waiting,
            ime: true,
            halt: false,
            pc_history: Seq::new(PC_HISTORY_LENGTH as nat, |i: int| 0u16),
            pc_history_pointer: 0,
        }
    }
}

/// Store the program counter in the history and move the history pointer on, round the ring.
pub open spec fn record_pc(s: CpuView) -> CpuView {
    CpuView {
        pc_history: s.pc_history.update(s.pc_history_pointer as int, s.regs.pc),
        pc_history_pointer: ((s.pc_history_pointer + 1) % (PC_HISTORY_LENGTH as int)) as usize,
        ..s
    }
}

/// One step of a scheduled change of the interrupt master enable flag: a change scheduled by
/// EI or DI finishes its delay, and a finished delay sets (EI) or clears (DI) the flag.
pub open spec fn delay_step(status: InterruptFlagDelayStatus, ime: bool, value: bool) -> (
    InterruptFlagDelayStatus,
    bool,
) {
    match status {
        InterruptFlagDelayStatus::Waiting => (InterruptFlagDelayStatus::Waiting, ime),
        InterruptFlagDelayStatus::ChangeScheduled => (InterruptFlagDelayStatus::FinishedDelay, ime),
        InterruptFlagDelayStatus::FinishedDelay => (InterruptFlagDelayStatus::Waiting, value),
    }
}

/// What `handle_ime_delay` does: first the EI delay, then the DI delay.
pub open spec fn ime_delay_step(s: CpuView) -> CpuView {
    let (ie_delay, ime) = delay_step(s.ie_delay, s.ime, true);
    let (de_delay, ime) = delay_step(s.de_delay, ime, false);
    CpuView { ie_delay, de_delay, ime, ..s }
}

/// Whether an interrupt enable and flags mask has exactly one interrupt in it.
pub open spec fn single_interrupt(pending: u8) -> bool {
    pending == INT_VBLANK || pending == INT_LCD_STAT || pending == INT_TIME || pending
        == INT_SERIAL || pending == INT_JOYPAD
}

/// The handler address of a single interrupt.
pub open spec fn interrupt_vector(pending: u8) -> u16 {
    if pending == INT_VBLANK {
        0x0040
    } else if pending == INT_LCD_STAT {
        0x0048
    } else if pending == INT_TIME {
        0x0050
    } else if pending == INT_SERIAL {
        0x0058
    } else {
        0x0060
    }
}

/// The state after and the cycles of `handle_interrupt`. With the master enable flag set and
/// both the enable register (0xFFFF) and the flags register (0xFF0F) non-zero, the CPU leaves
/// halt and clears the master enable flag; when exactly one interrupt is both enabled and
/// flagged its flag is cleared and its handler called, else the master enable flag is set
/// again and nothing is called.
pub open spec fn interrupt_step(s: CpuView) -> (CpuView, u8) {
    let (s1, enable_mask) = s.read8(0xFFFF);
    let (s2, flags) = s1.read8(0xFF0F);
    if s2.ime && enable_mask > 0 && flags > 0 {
        let t = CpuView { halt: false, ime: false, ..s2 };
        let pending = enable_mask & flags;
        if single_interrupt(pending) {
            let (u, cycles) = call_interrupt_step(t, interrupt_vector(pending));
            (u.write8(0xFF0F, flags & !pending), cycles)
        } else {
            (CpuView { ime: true, ..t }.write8(0xFF0F, flags), 0)
        }
    } else {
        (s2, 0)
    }
}

/// The state after and the cycles of `cycle`.
#[verifier::opaque]
pub open spec fn cycle_step(s: CpuView) -> (CpuView, u8) {
    let (t, instruction_cycles) = execute(ime_delay_step(record_pc(s)));
    let (u, interrupt_cycles) = interrupt_step(t);
    (u, (instruction_cycles + interrupt_cycles) as u8)
}

/// The program counter history is a ring of the program counters at which the last cycles
/// started: a cycle stores its starting program counter at the history pointer, leaves every
/// other slot as it was, and moves the pointer on by one, round the ring.
pub proof fn lemma_cycle_records_pc(s: CpuView)
    ensures
        cycle_step(s).0.pc_history == s.pc_history.update(
            s.pc_history_pointer as int,
            s.regs.pc,
        ),
        cycle_step(s).0.pc_history_pointer == ((s.pc_history_pointer + 1) % (
        PC_HISTORY_LENGTH as int)) as usize,
{
    reveal(cycle_step);
    lemma_execute_keeps_history(ime_delay_step(record_pc(s)));
}

/// Whether an instruction can run depends only on the registers and the memory.
pub proof fn lemma_instruction_ok_frame(s: CpuView, t: CpuView)
    requires
        s.regs == t.regs,
        s.mmu == t.mmu,
    ensures
        instruction_ok(s) == instruction_ok(t),
{
    let (s1, op) = s.fetch8();
    let (t1, op1) = t.fetch8();
    assert(op == op1);
    assert(s1.regs == t1.regs && s1.mmu == t1.mmu);
    assert(s1.fetch8().1 == t1.fetch8().1);
    assert(s1.fetch16().1 == t1.fetch16().1);
}

/// EI takes effect after the instruction that follows it: the first delay step after EI
/// leaves the master enable flag alone, the second sets it.
pub proof fn lemma_enable_interrupts_delay(s: CpuView)
    requires
        s.ie_delay == InterruptFlagDelayStatus::ChangeScheduled,
        s.de_delay == InterruptFlagDelayStatus::Waiting,
    ensures
        ime_delay_step(s).ime == s.ime,
        ime_delay_step(ime_delay_step(s)).ime,
        ime_delay_step(ime_delay_step(s)).ie_delay == InterruptFlagDelayStatus::Waiting,
{
}

/// DI takes effect after the instruction that follows it: the first delay step after DI
/// leaves the master enable flag alone, the second clears it.
pub proof fn lemma_disable_interrupts_delay(s: CpuView)
    requires
        s.de_delay == InterruptFlagDelayStatus::ChangeScheduled,
        s.ie_delay == InterruptFlagDelayStatus::Waiting,
    ensures
        ime_delay_step(s).ime == s.ime,
        !ime_delay_step(ime_delay_step(s)).ime,
        ime_delay_step(ime_delay_step(s)).de_delay == InterruptFlagDelayStatus::Waiting,
{
}

/// With the master enable flag clear no interrupt is serviced: the registers and every byte of
/// memory stay as they were, and no cycles are spent.
pub proof fn lemma_no_interrupt_without_ime(s: CpuView, addr: u16)
    requires
        !s.ime,
    ensures
        interrupt_step(s).1 == 0,
        interrupt_step(s).0.regs == s.regs,
        interrupt_step(s).0.mmu.read(addr) == s.mmu.read(addr),
{
    lemma_touch_keeps_memory(s.mmu, 0xFFFF, addr);
    lemma_touch_keeps_memory(s.mmu.touch(0xFFFF), 0xFF0F, addr);
}

/// Servicing the one interrupt that is both enabled and flagged: its handler is called in 12
/// cycles, with the master enable flag cleared and the CPU out of halt; its flag is cleared
/// from the flags register, and the stack gives back the interrupted program counter (when the
/// two stack cells are memory that reads back, other than the flags register).
pub proof fn lemma_interrupt_service(s: CpuView)
    requires
        s.wf(),
        s.ime,
        single_interrupt(s.mmu.read(0xFFFF) & s.mmu.read(0xFF0F)),
        stack_cells_hold(s),
        s.regs.sp.wrapping_sub(1) != 0xFF0F,
        s.regs.sp.wrapping_sub(2) != 0xFF0F,
    ensures
        ({
            let pending = s.mmu.read(0xFFFF) & s.mmu.read(0xFF0F);
            let (t, cycles) = interrupt_step(s);
            &&& cycles == 12
            &&& t.regs.pc == interrupt_vector(pending)
            &&& !t.ime
            &&& !t.halt
            &&& t.mmu.read(0xFF0F) == s.mmu.read(0xFF0F) & !pending
            &&& t.pop16().1 == s.regs.pc
            &&& t.pop16().0.regs.sp == s.regs.sp
        }),
{
    let enable_mask = s.mmu.read(0xFFFF);
    let flags = s.mmu.read(0xFF0F);
    let pending = enable_mask & flags;
    crate::bits::lemma_u8_and_nonzero(enable_mask, flags);
    let (s1, e) = s.read8(0xFFFF);
    lemma_touch_keeps_memory(s.mmu, 0xFFFF, 0xFF0F);
    let (s2, f) = s1.read8(0xFF0F);
    assert(e == enable_mask && f == flags);
    let u = CpuView { halt: false, ime: false, ..s2 };
    assert(u.wf() && u.regs == s.regs);
    lemma_push_pop(u, u.regs.pc);
    let pushed = u.push16(u.regs.pc);
    let called = pushed.with_pc(interrupt_vector(pending));
    let t = called.write8(0xFF0F, flags & !pending);
    lemma_write_then_read(called.mmu, 0xFF0F, flags & !pending);
    let low_addr = s.regs.sp.wrapping_sub(2);
    let high_addr = s.regs.sp.wrapping_sub(1);
    lemma_write_keeps_others(called.mmu, 0xFF0F, low_addr, flags & !pending);
    lemma_write_keeps_others(called.mmu, 0xFF0F, high_addr, flags & !pending);
    lemma_touch_keeps_memory(t.mmu, low_addr, high_addr);
    lemma_touch_keeps_memory(called.mmu, low_addr, high_addr);
    assert(t.pop16().1 == pushed.pop16().1);
}

/// The handler of an interrupt is fixed by its bit: with the master enable flag set and bit
/// `i` (0 VBLANK, 1 LCD STAT, 2 TIMER, 3 SERIAL, 4 JOYPAD) the one bit both enabled (0xFFFF)
/// and flagged (0xFF0F), servicing jumps to 0x0040 + 8 * i in 12 cycles, out of halt and with
/// the master enable flag cleared.
pub proof fn lemma_interrupt_vector(s: CpuView, i: u8)
    requires
        s.ime,
        i < 5,
        s.mmu.read(0xFFFF) & s.mmu.read(0xFF0F) == 1u8 << i,
    ensures
        interrupt_step(s).0.regs.pc == 0x0040 + 8 * i,
        interrupt_step(s).1 == 12,
        !interrupt_step(s).0.ime,
        !interrupt_step(s).0.halt,
{
    let enable_mask = s.mmu.read(0xFFFF);
    let flags = s.mmu.read(0xFF0F);
    let pending = enable_mask & flags;
    assert((i == 0 && 1u8 << i == 0x01u8) || (i == 1 && 1u8 << i == 0x02u8) || (i == 2 && 1u8
        << i == 0x04u8) || (i == 3 && 1u8 << i == 0x08u8) || (i == 4 && 1u8 << i == 0x10u8))
        by (bit_vector)
        requires
            i < 5,
    ;
    crate::bits::lemma_u8_and_nonzero(enable_mask, flags);
    lemma_touch_keeps_memory(s.mmu, 0xFFFF, 0xFF0F);
    assert(single_interrupt(pending));
    assert(interrupt_vector(pending) == 0x0040 + 8 * i);
}

impl Cpu {
    pub fn new(mmu: Mmu) -> (cpu: Cpu)
        requires
            mmu@.wf(),
        ensures
            cpu@ == CpuView::initial(mmu@),
            cpu@.wf(),
    {
        let pc_history = vec![0x00; PC_HISTORY_LENGTH];
        assert(pc_history@ =~= Seq::new(PC_HISTORY_LENGTH as nat, |i: int| 0u16));

        Cpu {
            registers: Registers::new(),
            mmu,
            ie_delay_state: InterruptFlagDelayStatus::Waiting,
            de_delay_state: InterruptFlagDelayStatus::Waiting,
            ime: true,
            halt: false,
            pc_history,
            pc_history_pointer: 0,
        }
    }

    /// Set the registers up as if the DMG boot rom had just finished loading and handed
    /// execution to the game.
    pub fn reset(&mut self)
        ensures
            final(self)@ == (CpuView {
                regs: RegistersView::post_boot(),
                halt: false,
                ..old(self)@
            }),
    {
        self.registers.reset();
        self.halt = false;
    }

    /// Read an 8-bit value using the PC register as the address, then move the PC register forward
    /// by one.
    pub fn fetch8(&mut self) -> (value: u8)
        requires
            old(self)@.wf(),
        ensures
            (final(self)@, value) == old(self)@.fetch8(),
            final(self)@.wf(),
    {
        let value: u8 = self.mmu.read8(self.registers.pc);

        self.registers.pc = self.registers.pc.wrapping_add(1);

        value
    }

    /// Read a 16-bit value using the PC register as the address, then move the PC register forward
    /// by two.
    pub fn fetch16(&mut self) -> (value: u16)
        requires
            old(self)@.wf(),
        ensures
            (final(self)@, value) == old(self)@.fetch16(),
            final(self)@.wf(),
    {
        let low = self.fetch8();
        let high = self.fetch8();
        proof {
            registers::lemma_word_join(high, low);
        }
        u16::from(high) << 8 | u16::from(low)
    }
    /// The remembered program counters, oldest first: the history ring read from the history
    /// pointer round.
    pub fn pc_history_in_order(&self) -> (history: Vec<u16>)
        requires
            self@.wf(),
        ensures
            history@.len() == PC_HISTORY_LENGTH,
            forall|i: int|
                0 <= i < PC_HISTORY_LENGTH ==> #[trigger] history@[i] == self.pc_history@[(
                self.pc_history_pointer + i) % (PC_HISTORY_LENGTH as int)],
    {
        let len = self.pc_history.len();
        let mut history: Vec<u16> = Vec::new();
        let mut i: usize = 0;
        while i < len
            invariant
                len == PC_HISTORY_LENGTH,
                self@.wf(),
                i <= len,
                history@.len() == i,
                forall|j: int|
                    0 <= j < i ==> #[trigger] history@[j] == self.pc_history@[(
                    self.pc_history_pointer + j) % (PC_HISTORY_LENGTH as int)],
            decreases len - i,
        {
            let hp = self.pc_history_pointer.wrapping_add(i) % len;
            history.push(self.pc_history[hp]);
            i = i + 1;
        }
        history
    }

    /// Run a fetch, decode, and execute cycle on the CPU
    pub fn cycle(&mut self) -> (cycles: u8)
        requires
            old(self)@.wf(),
            instruction_ok(old(self)@),
        ensures
            (final(self)@, cycles) == cycle_step(old(self)@),
            final(self)@.wf(),
            4 <= cycles <= 36,
    {
        proof {
            reveal(cycle_step);
        }
        let ghost s0 = self@;
        self.pc_history.set(self.pc_history_pointer, self.registers.pc);
        self.pc_history_pointer = self.pc_history_pointer.wrapping_add(1) % self.pc_history.len();

        self.handle_ime_delay();
        proof {
            lemma_instruction_ok_frame(s0, self@);
        }

        let mut duration = self.handle_instruction();
        duration += self.handle_interrupt();

        duration
    }

    /// EI/DI toggles IME the cycle after
    fn handle_ime_delay(&mut self)
        ensures
            final(self)@ == ime_delay_step(old(self)@),
    {
        match self.ie_delay_state {
            InterruptFlagDelayStatus::Waiting => {},
            InterruptFlagDelayStatus::ChangeScheduled => {
                self.ie_delay_state = InterruptFlagDelayStatus::FinishedDelay
            },
            InterruptFlagDelayStatus::FinishedDelay => {
                self.ime = true;
                self.ie_delay_state = InterruptFlagDelayStatus::Waiting;
            },
        }
        match self.de_delay_state {
            InterruptFlagDelayStatus::Waiting => {},
            InterruptFlagDelayStatus::ChangeScheduled => {
                self.de_delay_state = InterruptFlagDelayStatus::FinishedDelay
            },
            InterruptFlagDelayStatus::FinishedDelay => {
                self.ime = false;
                self.de_delay_state = InterruptFlagDelayStatus::Waiting;
            },
        }
    }

    /// Service an interrupt that is both enabled and flagged, when the master enable flag is
    /// set.
    pub fn handle_interrupt(&mut self) -> (cycles: u8)
        requires
            old(self)@.wf(),
        ensures
            (final(self)@, cycles) == interrupt_step(old(self)@),
            final(self)@.wf(),
            cycles <= 12,
    {
        let int_enable_mask = self.mmu.read8(0xFFFF);
        let mut int_flags = self.mmu.read8(0xFF0F);
        if self.ime && int_enable_mask > 0 && int_flags > 0 {
            self.halt = false;
            self.ime = false;

            let pending = int_enable_mask & int_flags;
            let duration = if pending == INT_VBLANK {
                int_flags &= !INT_VBLANK;
                call_interrupt(self, 0x0040)
            } else if pending == INT_LCD_STAT {
                int_flags &= !INT_LCD_STAT;
                call_interrupt(self, 0x0048)
            } else if pending == INT_TIME {
                int_flags &= !INT_TIME;
                call_interrupt(self, 0x0050)
            } else if pending == INT_SERIAL {
                int_flags &= !INT_SERIAL;
                call_interrupt(self, 0x0058)
            } else if pending == INT_JOYPAD {
                int_flags &= !INT_JOYPAD;
                call_interrupt(self, 0x0060)
            } else {
                self.ime = true;
                0
            };

            self.mmu.write8(0xFF0F, int_flags);
            return duration;
        }

        0
    }
}

} // verus!
