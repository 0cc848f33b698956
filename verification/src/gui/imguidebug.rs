use vstd::prelude::*;

verus! {

/// The state of the debug windows: which are shown, what their inputs hold, and the
/// breakpoints set through them.
pub struct ImguiDebug {
    pub program_counter: u16,
    pub show_imgui_metrics: bool,
    pub show_menu: bool,
    pub show_emulator: bool,
    pub show_cart: bool,
    pub show_memory: bool,
    pub show_cpu: bool,
    pub show_ppu: bool,
    pub show_joypad: bool,
    pub ppu_mod: i32,
    pub ppu_sprite_index: i32,
    pub show_about: bool,
    pub input_breakpoint_addr: i32,
    pub input_memory_addr: i32,
    pub input_memory_value: i32,
    pub dump_memory_addr: i32,
    pub dump_memory_pc_lock: bool,
    pub disassemble_memory_addr: i32,
    pub disassemble_memory_pc_lock: bool,
    pub disassemble_read_args: bool,
    pub breakpoints: Vec<u16>,
    pub memory_breakpoints: Vec<u16>,
}

/// The debug window state as plain values.
pub struct ImguiDebugView {
    pub program_counter: u16,
    pub show_imgui_metrics: bool,
    pub show_menu: bool,
    pub show_emulator: bool,
    pub show_cart: bool,
    pub show_memory: bool,
    pub show_cpu: bool,
    pub show_ppu: bool,
    pub show_joypad: bool,
    pub ppu_mod: i32,
    pub ppu_sprite_index: i32,
    pub show_about: bool,
    pub input_breakpoint_addr: i32,
    pub input_memory_addr: i32,
    pub input_memory_value: i32,
    pub dump_memory_addr: i32,
    pub dump_memory_pc_lock: bool,
    pub disassemble_memory_addr: i32,
    pub disassemble_memory_pc_lock: bool,
    pub disassemble_read_args: bool,
    pub breakpoints: Seq<u16>,
    pub memory_breakpoints: Seq<u16>,
}

impl View for ImguiDebug {
    type V = ImguiDebugView;

    open spec fn view(&self) -> ImguiDebugView {
        ImguiDebugView {
            program_counter: self.program_counter,
            show_imgui_metrics: self.show_imgui_metrics,
            show_menu: self.show_menu,
            show_emulator: self.show_emulator,
            show_cart: self.show_cart,
            show_memory: self.show_memory,
            show_cpu: self.show_cpu,
            show_ppu: self.show_ppu,
            show_joypad: self.show_joypad,
            ppu_mod: self.ppu_mod,
            ppu_sprite_index: self.ppu_sprite_index,
            show_about: self.show_about,
            input_breakpoint_addr: self.input_breakpoint_addr,
            input_memory_addr: self.input_memory_addr,
            input_memory_value: self.input_memory_value,
            dump_memory_addr: self.dump_memory_addr,
            dump_memory_pc_lock: self.dump_memory_pc_lock,
            disassemble_memory_addr: self.disassemble_memory_addr,
            disassemble_memory_pc_lock: self.disassemble_memory_pc_lock,
            disassemble_read_args: self.disassemble_read_args,
            breakpoints: self.breakpoints@,
            memory_breakpoints: self.memory_breakpoints@,
        }
    }
}

impl ImguiDebugView {
    /// The state of the debug windows when the emulator starts: only the emulator window is
    /// shown, the memory views follow the program counter, and no breakpoint is set.
    pub open spec fn initial() -> ImguiDebugView {
        ImguiDebugView {
            program_counter: 0,
            show_imgui_metrics: false,
            show_menu: false,
            show_emulator: true,
            show_cart: false,
            show_memory: false,
            show_cpu: false,
            show_ppu: false,
            show_joypad: false,
            ppu_mod: 4,
            ppu_sprite_index: 0,
            show_about: false,
            input_breakpoint_addr: 0,
            input_memory_addr: 0,
            input_memory_value: 0,
            dump_memory_addr: 0,
            dump_memory_pc_lock: true,
            disassemble_memory_addr: 0,
            disassemble_memory_pc_lock: true,
            disassemble_read_args: false,
            breakpoints: Seq::empty(),
            memory_breakpoints: Seq::empty(),
        }
    }
}

/// A breakpoint list with `addr` added at the end, unless it is in it already.
pub open spec fn with_breakpoint(breakpoints: Seq<u16>, addr: u16) -> Seq<u16> {
    if breakpoints.contains(addr) {
        breakpoints
    } else {
        breakpoints.push(addr)
    }
}

/// A breakpoint list built with `with_breakpoint` holds each address once: adding keeps a list
/// without duplicates so, and the address added is then in it.
pub proof fn lemma_breakpoints_unique(breakpoints: Seq<u16>, addr: u16)
    requires
        breakpoints.no_duplicates(),
    ensures
        with_breakpoint(breakpoints, addr).no_duplicates(),
        with_breakpoint(breakpoints, addr).contains(addr),
        with_breakpoint(with_breakpoint(breakpoints, addr), addr) == with_breakpoint(
            breakpoints,
            addr,
        ),
{
    if !breakpoints.contains(addr) {
        assert(breakpoints.push(addr)[breakpoints.len() as int] == addr);
    }
}

/// A breakpoint list with `addr` taken out where it is in it, else added at the end.
pub open spec fn toggled_breakpoint(breakpoints: Seq<u16>, addr: u16) -> Seq<u16> {
    if breakpoints.contains(addr) {
        breakpoints.remove(breakpoints.index_of_first(addr).unwrap())
    } else {
        breakpoints.push(addr)
    }
}

/// Where `addr` first stands in a breakpoint list, if it is in it.
fn position_of(breakpoints: &Vec<u16>, addr: u16) -> (r: Option<usize>)
    ensures
        match r {
            Some(i) => i < breakpoints@.len() && breakpoints@.contains(addr)
                && breakpoints@.index_of_first(addr) == Some(i as int),
            None => !breakpoints@.contains(addr),
        },
{
    let mut i: usize = 0;
    while i < breakpoints.len()
        invariant
            i <= breakpoints@.len(),
            forall|j: int| 0 <= j < i ==> breakpoints@[j] != addr,
        decreases breakpoints@.len() - i,
    {
        if breakpoints[i] == addr {
            proof {
                breakpoints@.index_of_first_ensures(addr);
                assert(breakpoints@[i as int] == addr);
                let k = breakpoints@.index_of_first(addr).unwrap();
                if k > i {
                    assert(breakpoints@[i as int] == addr);
                }
            }
            return Some(i);
        }
        i = i + 1;
    }
    proof {
        breakpoints@.index_of_first_ensures(addr);
    }
    None
}

/// Take `addr` out of a breakpoint list where it is in it, else add it at the end.
fn toggle(breakpoints: &mut Vec<u16>, addr: u16)
    ensures
        final(breakpoints)@ == toggled_breakpoint(old(breakpoints)@, addr),
{
    match position_of(breakpoints, addr) {
        None => {
            breakpoints.push(addr);
        },
        Some(idx) => {
            breakpoints.remove(idx);
        },
    }
}

/// Add `addr` to the end of a breakpoint list, unless it is in it already.
fn add_unique(breakpoints: &mut Vec<u16>, addr: u16)
    ensures
        final(breakpoints)@ == with_breakpoint(old(breakpoints)@, addr),
{
    let mut i: usize = 0;
    while i < breakpoints.len()
        invariant
            i <= breakpoints@.len(),
            forall|j: int| 0 <= j < i ==> breakpoints@[j] != addr,
        decreases breakpoints@.len() - i,
    {
        if breakpoints[i] == addr {
            return;
        }
        i = i + 1;
    }
    breakpoints.push(addr);
}

impl ImguiDebug {
    pub fn new() -> (debug: ImguiDebug)
        ensures
            debug@ == ImguiDebugView::initial(),
    {
        ImguiDebug {
            program_counter: 0,
            show_imgui_metrics: false,
            show_menu: false,
            show_emulator: true,
            show_cart: false,
            show_memory: false,
            show_cpu: false,
            show_ppu: false,
            show_joypad: false,
            ppu_mod: 4,
            ppu_sprite_index: 0,
            show_about: false,
            input_breakpoint_addr: 0,
            input_memory_addr: 0,
            input_memory_value: 0,
            dump_memory_addr: 0,
            dump_memory_pc_lock: true,
            disassemble_memory_addr: 0,
            disassemble_memory_pc_lock: true,
            disassemble_read_args: false,
            breakpoints: Vec::new(),
            memory_breakpoints: Vec::new(),
        }
    }

    /// Set a breakpoint on the program counter value `addr`; setting one twice keeps one.
    pub fn add_breakpoint(&mut self, addr: u16)
        ensures
            final(self)@ == (ImguiDebugView {
                breakpoints: with_breakpoint(old(self)@.breakpoints, addr),
                ..old(self)@
            }),
    {
        add_unique(&mut self.breakpoints, addr);
    }

    /// Set a breakpoint on accesses of the memory address `addr`; setting one twice keeps one.
    pub fn add_memory_breakpoint(&mut self, addr: u16)
        ensures
            final(self)@ == (ImguiDebugView {
                memory_breakpoints: with_breakpoint(old(self)@.memory_breakpoints, addr),
                ..old(self)@
            }),
    {
        add_unique(&mut self.memory_breakpoints, addr);
    }

    /// Set a breakpoint on `addr`, or clear it when it is set, as selecting an address in the
    /// disassembly window does.
    pub fn toggle_breakpoint(&mut self, addr: u16)
        ensures
            final(self)@ == (ImguiDebugView {
                breakpoints: toggled_breakpoint(old(self)@.breakpoints, addr),
                ..old(self)@
            }),
    {
        toggle(&mut self.breakpoints, addr);
    }

    /// Set a memory breakpoint on `addr`, or clear it when it is set, as selecting a byte in the
    /// memory dump window does.
    pub fn toggle_memory_breakpoint(&mut self, addr: u16)
        ensures
            final(self)@ == (ImguiDebugView {
                memory_breakpoints: toggled_breakpoint(old(self)@.memory_breakpoints, addr),
                ..old(self)@
            }),
    {
        toggle(&mut self.memory_breakpoints, addr);
    }

    /// Remove the breakpoint at `index` of the list, as selecting it in the breakpoints window
    /// does.
    pub fn remove_breakpoint(&mut self, index: usize)
        requires
            index < old(self)@.breakpoints.len(),
        ensures
            final(self)@ == (ImguiDebugView {
                breakpoints: old(self)@.breakpoints.remove(index as int),
                ..old(self)@
            }),
    {
        self.breakpoints.remove(index);
    }

    /// Remove the memory breakpoint at `index` of the list, as selecting it in the memory
    /// breakpoints window does.
    pub fn remove_memory_breakpoint(&mut self, index: usize)
        requires
            index < old(self)@.memory_breakpoints.len(),
        ensures
            final(self)@ == (ImguiDebugView {
                memory_breakpoints: old(self)@.memory_breakpoints.remove(index as int),
                ..old(self)@
            }),
    {
        self.memory_breakpoints.remove(index);
    }

    /// Clear every breakpoint.
    pub fn clear_breakpoints(&mut self)
        ensures
            final(self)@ == (ImguiDebugView { breakpoints: Seq::empty(), ..old(self)@ }),
    {
        self.breakpoints.clear();
    }

    /// Clear every memory breakpoint.
    pub fn clear_memory_breakpoints(&mut self)
        ensures
            final(self)@ == (ImguiDebugView { memory_breakpoints: Seq::empty(), ..old(self)@ }),
    {
        self.memory_breakpoints.clear();
    }
}

} // verus!
