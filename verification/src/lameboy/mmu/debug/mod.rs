pub mod disassembly;
pub mod hexdump;
