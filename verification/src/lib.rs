pub mod bits;
pub mod cart;
pub mod cpu;
pub mod dis;
pub mod gui;
pub mod joypad;
pub mod lameboy;
pub mod text;
