use crate::lameboy::cart::{header_checksum_valid, header_title, is_ascii_bytes, trim_nuls};
use crate::lameboy::mmu::mmuobject::MmuObject;
use vstd::prelude::*;

verus! {

pub const CARTRIDGE_TYPE_OFFSET: usize = 0x0147;

pub const ROM_SIZE_OFFSET: usize = 0x0148;

pub const RAM_SIZE_OFFSET: usize = 0x0149;

/// A cart as its raw ROM image, whose header fields are read on demand.
pub struct Cart {
    data: Vec<u8>,
}

impl View for Cart {
    type V = Seq<u8>;

    closed spec fn view(&self) -> Seq<u8> {
        self.data@
    }
}

impl Cart {
    pub fn new(data: Vec<u8>) -> (cart: Self)
        ensures
            cart@ == data@,
    {
        Cart { data: data }
    }

    pub fn get_size(&self) -> (size: usize)
        ensures
            size == self@.len(),
    {
        self.data.len()
    }

    /// The title of the cart header, without its NUL padding.
    pub fn get_title(&self) -> (title: String)
        requires
            self@.len() >= 0x143,
        ensures
            title@ == header_title(self@),
            is_ascii_bytes(self@.subrange(0x134, 0x143)) ==> title@ == trim_nuls(
                self@.subrange(0x134, 0x143).map_values(|b: u8| b as char),
            ),
    {
        crate::lameboy::cart::Cart::parse_title(self.data.as_slice())
    }

    pub fn get_cart_type(&self) -> (cart_type: u8)
        requires
            self@.len() > CARTRIDGE_TYPE_OFFSET,
        ensures
            cart_type == self@[CARTRIDGE_TYPE_OFFSET as int],
    {
        self.data[CARTRIDGE_TYPE_OFFSET]
    }

    pub fn get_rom_size(&self) -> (rom_size: u8)
        requires
            self@.len() > ROM_SIZE_OFFSET,
        ensures
            rom_size == self@[ROM_SIZE_OFFSET as int],
    {
        self.data[ROM_SIZE_OFFSET]
    }

    pub fn get_ram_size(&self) -> (ram_size: u8)
        requires
            self@.len() > RAM_SIZE_OFFSET,
        ensures
            ram_size == self@[RAM_SIZE_OFFSET as int],
    {
        self.data[RAM_SIZE_OFFSET]
    }

    /// Whether the header checksum byte matches the header.
    pub fn validate_checksum(&self) -> (valid: bool)
        requires
            self@.len() > 0x14D,
        ensures
            valid == header_checksum_valid(self@),
    {
        crate::lameboy::cart::Cart::validate_checksum(self.data.as_slice())
    }
}

impl MmuObject for Cart {
    /// The ROM bytes the image holds in [0x0000 - 0x7FFF], and the cart RAM [0xA000 - 0xC000].
    open spec fn serves(&self, addr: u16) -> bool {
        (addr <= 0x7FFF && addr < self@.len()) || (0xA000 <= addr <= 0xC000)
    }

    /// A ROM byte, or 0xFF for the cart RAM, which is not there.
    open spec fn value_at(&self, addr: u16) -> u8 {
        if addr <= 0x7FFF {
            self@[addr as int]
        } else {
            0xFF
        }
    }

    /// Writes to the cart change nothing.
    open spec fn written_from(&self, before: &Self, addr: u16, data: u8) -> bool {
        self@ == before@
    }

    fn read8(&self, addr: u16) -> (r: u8) {
        if addr <= 0x7FFF {
            self.data[addr as usize]
        } else {
            0xFF
        }
    }

    fn write8(&mut self, addr: u16, data: u8) {
    }
}

} // verus!
