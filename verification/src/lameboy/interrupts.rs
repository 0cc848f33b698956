use vstd::prelude::*;

verus! {

/// Interrupt flag bit of the vertical blank interrupt.
pub const INT_VBLANK: u8 = 0x01;

/// Interrupt flag bit of the LCD status interrupt.
pub const INT_LCD_STAT: u8 = 0x02;

/// Interrupt flag bit of the timer interrupt.
pub const INT_TIME: u8 = 0x04;

/// Interrupt flag bit of the serial interrupt.
pub const INT_SERIAL: u8 = 0x08;

/// Interrupt flag bit of the joypad interrupt.
pub const INT_JOYPAD: u8 = 0x10;

} // verus!
