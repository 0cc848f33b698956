use crate::lameboy::cart::mbc::{cart_address, DebuggableMBC, Mbc};
use crate::lameboy::cart::{parse_rom_size, rom_size_bytes, unknown_rom_size_message};
use crate::text::{decimal, push_decimal};
use vstd::prelude::*;

verus! {

/// The message when a cart without a memory bank controller is not of the size its header
/// declares.
pub open spec fn nombc_size_message(file_size: nat) -> Seq<char> {
    "ROM defined no MBC: expected file size 32KB but got "@ + decimal(file_size) + " bytes"@
}

/// A cart without a memory bank controller: its ROM is mapped directly.
#[derive(Debug)]
pub struct NoMBC {
    rom_data: Vec<u8>,
}

impl NoMBC {
    #[verifier::type_invariant]
    spec fn holds_both_banks(self) -> bool {
        self.rom_data.len() >= 0x8000
    }
}

impl View for NoMBC {
    type V = Seq<u8>;

    closed spec fn view(&self) -> Seq<u8> {
        self.rom_data@
    }
}

impl NoMBC {
    /// Map a ROM with no memory bank controller. The ROM must be exactly as large as the ROM
    /// size value of its header says.
    pub fn new(rom_data: Vec<u8>, rom_size: u8) -> (r: Result<NoMBC, String>)
        ensures
            match r {
                Ok(mbc) => rom_size_bytes(rom_size) == Some(rom_data@.len()) && mbc@ == rom_data@,
                Err(msg) => match rom_size_bytes(rom_size) {
                    None => msg@ == unknown_rom_size_message(rom_size),
                    Some(n) => n != rom_data@.len() && msg@ == nombc_size_message(
                        rom_data@.len(),
                    ),
                },
            },
    {
        let file_size = rom_data.len();
        let expected = match parse_rom_size(rom_size) {
            Ok(n) => n,
            Err(msg) => {
                return Err(msg);
            },
        };
        if file_size == expected {
            Ok(NoMBC { rom_data })
        } else {
            let mut msg = String::from_str("ROM defined no MBC: expected file size 32KB but got ");
            push_decimal(&mut msg, file_size);
            msg.append(" bytes");
            Err(msg)
        }
    }
}

impl Mbc for NoMBC {
    fn read(&self, addr: u16) -> (r: u8)
        ensures
            r == if addr <= 0x7FFF {
                self@[addr as int]
            } else {
                0xFFu8
            },
    {
        proof {
            use_type_invariant(self);
        }
        if addr <= 0x7FFF {
            self.rom_data[addr as usize]
        } else {
            0xFF
        }
    }

    /// Writes to a cart without a memory bank controller change nothing.
    fn write(&self, addr: u16, data: u8) {
    }
}

impl DebuggableMBC for NoMBC {

}

} // verus!
