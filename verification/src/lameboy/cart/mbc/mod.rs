pub mod nombc;

use crate::lameboy::cart::mbc::nombc::{nombc_size_message, NoMBC};
use crate::text::{hex2, push_hex2};
use crate::lameboy::cart::{rom_size_bytes, unknown_rom_size_message};
use vstd::prelude::*;

verus! {

/// The addresses a cart serves: the two ROM banks [0x0000 - 0x7FFF] and the cart RAM bank
/// [0xA000 - 0xBFFF].
pub open spec fn cart_address(addr: u16) -> bool {
    addr <= 0x7FFF || (0xA000 <= addr <= 0xBFFF)
}

/// A memory bank controller: resolves the cart addresses to ROM and RAM.
pub trait Mbc {
    fn read(&self, addr: u16) -> u8
        requires
            cart_address(addr),
    ;

    fn write(&self, addr: u16, data: u8)
        requires
            cart_address(addr),
    ;
}

pub trait DebuggableMBC: Mbc {

}

/// The message for a cart type that no memory bank controller handles.
pub open spec fn unsupported_mbc_message(cart_type: u8) -> Seq<char> {
    "Unsupported MBC type: 0x"@ + hex2(cart_type)
}

/// Map cart type value from cart header into an Memory Bank Controller object
/// which can be used to resolve an address.
///
/// 00h  ROM ONLY
/// 01h  MBC1
/// 02h  MBC1+RAM
/// 03h  MBC1+RAM+BATTERY
/// 05h  MBC2
/// 06h  MBC2+BATTERY
/// 08h  ROM+RAM
/// 09h  ROM+RAM+BATTERY
/// 0Bh  MMM01
/// 0Ch  MMM01+RAM
/// 0Dh  MMM01+RAM+BATTERY
/// 0Fh  MBC3+TIMER+BATTERY
/// 10h  MBC3+TIMER+RAM+BATTERY
/// 11h  MBC3
/// 12h  MBC3+RAM
/// 13h  MBC3+RAM+BATTERY
/// 19h  MBC5
/// 1Ah  MBC5+RAM
/// 1Bh  MBC5+RAM+BATTERY
/// 1Ch  MBC5+RUMBLE
/// 1Dh  MBC5+RUMBLE+RAM
/// 1Eh  MBC5+RUMBLE+RAM+BATTERY
/// 20h  MBC6
/// 22h  MBC7+SENSOR+RUMBLE+RAM+BATTERY
/// FCh  POCKET CAMERA
/// FDh  BANDAI TAMA5
/// FEh  HuC3
/// FFh  HuC1+RAM+BATTERY
///
/// Only ROM ONLY carts are handled, by `NoMBC`.
pub fn get_mbc(rom_data: Vec<u8>, cart_type: u8, rom_size: u8, _ram_size: u8) -> (r: Result<
    NoMBC,
    String,
>)
    ensures
        cart_type != 0 ==> (r matches Err(msg) && msg@ == unsupported_mbc_message(cart_type)),
        cart_type == 0 ==> (r is Ok <==> rom_size_bytes(rom_size) == Some(rom_data@.len())),
        r matches Ok(mbc) ==> mbc@ == rom_data@,
        cart_type == 0 ==> match r {
            Ok(_) => true,
            Err(msg) => match rom_size_bytes(rom_size) {
                None => msg@ == unknown_rom_size_message(rom_size),
                Some(n) => msg@ == nombc_size_message(rom_data@.len()),
            },
        },
{
    match cart_type {
        0x00 => NoMBC::new(rom_data, rom_size),
        _ => {
            let mut msg = String::from_str("Unsupported MBC type: 0x");
            push_hex2(&mut msg, cart_type);
            Err(msg)
        },
    }
}

} // verus!
