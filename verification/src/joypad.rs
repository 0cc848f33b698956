use crate::lameboy::mmu::mmuobject::MmuObject;
use vstd::prelude::*;

verus! {

/// The state of the joypad: its buttons and which group of them the game selected.
pub struct Joypad {
    /// The button group selected by the last write: 0x10 for the buttons, 0x20 for the
    /// directions.
    pub selected_column: u8,
    pub a: bool,
    pub b: bool,
    pub start: bool,
    pub select: bool,
    pub right: bool,
    pub left: bool,
    pub up: bool,
    pub down: bool,
}

/// The joypad as plain values.
pub struct JoypadView {
    pub selected_column: u8,
    pub a: bool,
    pub b: bool,
    pub start: bool,
    pub select: bool,
    pub right: bool,
    pub left: bool,
    pub up: bool,
    pub down: bool,
}

/// The low nibble of the joypad register for four buttons: a pressed button reads as a zero
/// bit, from bit 3 down to bit 0.
pub open spec fn button_nibble(bit3: bool, bit2: bool, bit1: bool, bit0: bool) -> u8 {
    (15 - (if bit3 {
        8int
    } else {
        0
    }) - (if bit2 {
        4int
    } else {
        0
    }) - (if bit1 {
        2int
    } else {
        0
    }) - (if bit0 {
        1int
    } else {
        0
    })) as u8
}

proof fn lemma_button_nibble(bit3: bool, bit2: bool, bit1: bool, bit0: bool)
    by (bit_vector)
    ensures
        (((((0x0Fu8 & (if bit3 {
            0b0111u8
        } else {
            0xFFu8
        })) & (if bit2 {
            0b1011u8
        } else {
            0xFFu8
        })) & (if bit1 {
            0b1101u8
        } else {
            0xFFu8
        })) & (if bit0 {
            0b1110u8
        } else {
            0xFFu8
        })) as int) == 15 - (if bit3 {
            8int
        } else {
            0
        }) - (if bit2 {
            4int
        } else {
            0
        }) - (if bit1 {
            2int
        } else {
            0
        }) - (if bit0 {
            1int
        } else {
            0
        }),
{
}

/// Writing 0x10 to the joypad register selects the action buttons and 0x20 the direction
/// buttons; selecting both or neither reads as nothing pressed. A pressed button reads as a
/// zero bit: A (or right) is bit 0, B (or left) bit 1, select (or up) bit 2, start (or down)
/// bit 3.
pub proof fn lemma_joypad_groups(j: JoypadView)
    ensures
        j.write(0x10).byte() == j.action_byte(),
        j.write(0x20).byte() == j.direction_byte(),
        j.write(0x30).byte() == 0x0F,
        j.write(0x00).byte() == 0x0F,
        j.action_byte() % 2 == 0 <==> j.a,
        (j.action_byte() / 2) % 2 == 0 <==> j.b,
        (j.action_byte() / 4) % 2 == 0 <==> j.select,
        (j.action_byte() / 8) % 2 == 0 <==> j.start,
        j.direction_byte() % 2 == 0 <==> j.right,
        (j.direction_byte() / 2) % 2 == 0 <==> j.left,
        (j.direction_byte() / 4) % 2 == 0 <==> j.up,
        (j.direction_byte() / 8) % 2 == 0 <==> j.down,
{
    lemma_group_select_bits();
}

/// The group select bits of the values that select one group, both or none.
proof fn lemma_group_select_bits()
    by (bit_vector)
    ensures
        0x10u8 & 0x30u8 == 0x10u8,
        0x20u8 & 0x30u8 == 0x20u8,
        0x30u8 & 0x30u8 == 0x30u8,
        0x00u8 & 0x30u8 == 0x00u8,
{
}

impl JoypadView {
    /// The direction buttons as read from the joypad register.
    pub open spec fn direction_byte(self) -> u8 {
        button_nibble(self.down, self.up, self.left, self.right)
    }

    /// The action buttons as read from the joypad register.
    pub open spec fn action_byte(self) -> u8 {
        button_nibble(self.start, self.select, self.b, self.a)
    }

    /// What a read of the joypad register gives: the selected group of buttons, or all
    /// released when neither group alone is selected.
    pub open spec fn byte(self) -> u8 {
        if self.selected_column == 0x10 {
            self.action_byte()
        } else if self.selected_column == 0x20 {
            self.direction_byte()
        } else {
            0x0F
        }
    }

    /// What a write of `data` to the joypad register makes of the joypad.
    pub open spec fn write(self, data: u8) -> JoypadView {
        JoypadView { selected_column: data & 0x30, ..self }
    }

    /// A joypad with no button pressed and no group selected.
    pub open spec fn released() -> JoypadView {
        JoypadView {
            selected_column: 0,
            a: false,
            b: false,
            start: false,
            select: false,
            right: false,
            left: false,
            up: false,
            down: false,
        }
    }
}

impl View for Joypad {
    type V = JoypadView;

    open spec fn view(&self) -> JoypadView {
        JoypadView {
            selected_column: self.selected_column,
            a: self.a,
            b: self.b,
            start: self.start,
            select: self.select,
            right: self.right,
            left: self.left,
            up: self.up,
            down: self.down,
        }
    }
}

impl Joypad {
    pub fn new() -> (j: Joypad)
        ensures
            j@ == JoypadView::released(),
    {
        Joypad {
            selected_column: 0,
            a: false,
            b: false,
            start: false,
            select: false,
            right: false,
            left: false,
            up: false,
            down: false,
        }
    }

    pub fn joypad_to_byte(&self) -> (r: u8)
        ensures
            r == self@.byte(),
    {
        match self.selected_column {
            0x10 => self.action_byte(),
            0x20 => self.direction_byte(),
            _ => 0x0F,
        }
    }

    pub fn direction_byte(&self) -> (r: u8)
        ensures
            r == self@.direction_byte(),
    {
        let mut joyp: u8 = 0x0F;

        if self.down {
            joyp &= 0b0111
        }
        if self.up {
            joyp &= 0b1011
        }
        if self.left {
            joyp &= 0b1101
        }
        if self.right {
            joyp &= 0b1110
        }
        proof {
            lemma_nibble_steps(self.down, self.up, self.left, self.right);
        }
        joyp
    }

    pub fn action_byte(&self) -> (r: u8)
        ensures
            r == self@.action_byte(),
    {
        let mut joyp: u8 = 0x0F;

        if self.start {
            joyp &= 0b0111
        }
        if self.select {
            joyp &= 0b1011
        }
        if self.b {
            joyp &= 0b1101
        }
        if self.a {
            joyp &= 0b1110
        }
        proof {
            lemma_nibble_steps(self.start, self.select, self.b, self.a);
        }
        joyp
    }
}

/// Clearing the bits of the pressed buttons one after another gives `button_nibble`.
proof fn lemma_nibble_steps(bit3: bool, bit2: bool, bit1: bool, bit0: bool)
    ensures
        ({
            let j0 = 0x0Fu8;
            let j1 = if bit3 {
                j0 & 0b0111u8
            } else {
                j0
            };
            let j2 = if bit2 {
                j1 & 0b1011u8
            } else {
                j1
            };
            let j3 = if bit1 {
                j2 & 0b1101u8
            } else {
                j2
            };
            let j4 = if bit0 {
                j3 & 0b1110u8
            } else {
                j3
            };
            j4 == button_nibble(bit3, bit2, bit1, bit0)
        }),
{
    lemma_button_nibble(bit3, bit2, bit1, bit0);
    assert forall|x: u8| #[trigger] (x & 0xFFu8) == x by {
        assert(x & 0xFFu8 == x) by (bit_vector);
    }
}

impl MmuObject for Joypad {
    open spec fn serves(&self, addr: u16) -> bool {
        addr == 0xFF00
    }

    open spec fn value_at(&self, addr: u16) -> u8 {
        self@.byte()
    }

    open spec fn written_from(&self, before: &Self, addr: u16, data: u8) -> bool {
        self@ == before@.write(data)
    }

    fn read8(&self, addr: u16) -> (r: u8) {
        self.joypad_to_byte()
    }

    fn write8(&mut self, addr: u16, data: u8) {
        self.selected_column = data & 0x30;
    }
}

} // verus!
