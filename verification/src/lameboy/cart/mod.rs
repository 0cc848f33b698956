pub mod mbc;

use crate::lameboy::cart::mbc::nombc::NoMBC;
use crate::lameboy::cart::mbc::{cart_address, get_mbc, Mbc};
use crate::lameboy::mmu::mmuobject::MmuObject;
use crate::text::{hex2, push_hex2};
use vstd::prelude::*;

verus! {

pub const TITLE_OFFSET: usize = 0x0134;

pub const TITLE_LENGTH_DMG: usize = 0x0F;

pub const CARTRIDGE_TYPE_OFFSET: usize = 0x0147;

pub const ROM_SIZE_OFFSET: usize = 0x0148;

pub const RAM_SIZE_OFFSET: usize = 0x0149;

pub const HEADER_CHECKSUM_OFFSET: usize = 0x014D;

/// What `String::from_utf8_lossy` makes of a byte sequence: its UTF-8 text, each invalid
/// sequence replaced by U+FFFD.
pub uninterp spec fn utf8_lossy(bytes: Seq<u8>) -> Seq<char>;

/// Every byte is below 0x80.
pub open spec fn is_ascii_bytes(bytes: Seq<u8>) -> bool {
    forall|i: int| 0 <= i < bytes.len() ==> bytes[i] < 0x80
}

/// Calls `String::from_utf8_lossy` on the bytes and takes the text as an owned `String`.
/// Claimed: the text is `utf8_lossy` of the bytes, and bytes that are all ASCII are valid UTF-8
/// and give one char per byte.
#[verifier::external_body]
fn utf8_lossy_string(bytes: &[u8]) -> (s: String)
    ensures
        s@ == utf8_lossy(bytes@),
        is_ascii_bytes(bytes@) ==> s@ == bytes@.map_values(|b: u8| b as char),
{
    String::from_utf8_lossy(bytes).into_owned()
}

/// The index of the first char at or after `i` that is not NUL (or the length).
pub open spec fn skip_nuls(s: Seq<char>, i: int) -> int
    decreases s.len() - i,
{
    if 0 <= i < s.len() && s[i] == '\0' {
        skip_nuls(s, i + 1)
    } else {
        i
    }
}

/// The index after the last char before `j`, and not before `lo`, that is not NUL.
pub open spec fn skip_nuls_back(s: Seq<char>, lo: int, j: int) -> int
    decreases j,
{
    if 0 <= lo < j <= s.len() && s[j - 1] == '\0' {
        skip_nuls_back(s, lo, j - 1)
    } else {
        j
    }
}

/// The text with the NUL chars at its start and at its end removed.
pub open spec fn trim_nuls(s: Seq<char>) -> Seq<char> {
    let lo = skip_nuls(s, 0);
    s.subrange(lo, skip_nuls_back(s, lo, s.len() as int))
}

/// The title field of a cart header, as text without the NUL padding.
pub open spec fn header_title(rom: Seq<u8>) -> Seq<char> {
    trim_nuls(utf8_lossy(rom.subrange(0x134, 0x143)))
}

/// The sum of each header byte plus one, over the header bytes from the title up to (not
/// including) `end`.
pub open spec fn header_sum(rom: Seq<u8>, end: int) -> int
    decreases end - 0x134,
{
    if end <= 0x134 {
        0
    } else {
        header_sum(rom, end - 1) + rom[end - 1] + 1
    }
}

/// The header checksum is valid when the checksum byte plus the sum of each header byte plus
/// one, from the title to the byte before the checksum, is a multiple of 256.
pub open spec fn header_checksum_valid(rom: Seq<u8>) -> bool {
    (header_sum(rom, 0x14D) + rom[0x14D]) % 256 == 0
}

/// The size in bytes that a ROM size value of a cart header declares.
pub open spec fn rom_size_bytes(rom_size: u8) -> Option<nat> {
    if rom_size == 0x00 {
        Some(0x0000_8000)
    } else if rom_size == 0x01 {
        Some(0x0001_0000)
    } else if rom_size == 0x02 {
        Some(0x0002_0000)
    } else if rom_size == 0x03 {
        Some(0x0004_0000)
    } else if rom_size == 0x04 {
        Some(0x0008_0000)
    } else if rom_size == 0x05 {
        Some(0x0010_0000)
    } else if rom_size == 0x06 {
        Some(0x0020_0000)
    } else if rom_size == 0x07 {
        Some(0x0040_0000)
    } else if rom_size == 0x08 {
        Some(0x0080_0000)
    } else if rom_size == 0x52 {
        Some(0x0012_0000)
    } else if rom_size == 0x53 {
        Some(0x0014_0000)
    } else if rom_size == 0x54 {
        Some(0x0018_0000)
    } else {
        None
    }
}

/// The size in bytes that a RAM size value of a cart header declares.
pub open spec fn ram_size_bytes(ram_size: u8) -> Option<nat> {
    if ram_size == 0x00 {
        Some(0)
    } else if ram_size == 0x01 {
        Some(0x800)
    } else if ram_size == 0x02 {
        Some(0x2000)
    } else if ram_size == 0x03 {
        Some(0x8000)
    } else if ram_size == 0x04 {
        Some(0x20000)
    } else if ram_size == 0x05 {
        Some(0x10000)
    } else {
        None
    }
}

/// The message for an unknown ROM size value.
pub open spec fn unknown_rom_size_message(rom_size: u8) -> Seq<char> {
    "Unknown rom size value found in the cart header: 0x"@ + hex2(rom_size)
}

/// The message for an unknown RAM size value.
pub open spec fn unknown_ram_size_message(ram_size: u8) -> Seq<char> {
    "Unknown ram size value found in the cart header: 0x"@ + hex2(ram_size)
}

/// Whether a cart can be made of a ROM image: it holds the whole header, its cart type is ROM
/// ONLY, and its size is the one its header declares.
pub open spec fn loadable_rom(rom: Seq<u8>) -> bool {
    &&& rom.len() > 0x14D
    &&& rom[0x147] == 0x00
    &&& rom_size_bytes(rom[0x148]) == Some(rom.len())
}

/// A cart: the fields of its header and the ROM behind its memory bank controller.
pub struct Cart {
    pub title: String,
    pub cart_type: u8,
    pub rom_size: u8,
    pub ram_size: u8,
    pub valid_checksum: bool,
    /// The memory bank controller that holds the ROM image.
    pub mbc: NoMBC,
}

/// A cart as plain values.
pub struct CartView {
    pub title: Seq<char>,
    pub cart_type: u8,
    pub rom_size: u8,
    pub ram_size: u8,
    pub valid_checksum: bool,
    pub rom: Seq<u8>,
}

impl CartView {
    /// What a read of a cart address gives: the ROM byte in the ROM banks, 0xFF in the RAM bank.
    pub open spec fn read(self, addr: u16) -> u8 {
        if addr <= 0x7FFF {
            self.rom[addr as int]
        } else {
            0xFF
        }
    }

    /// The cart made of a ROM image.
    pub open spec fn from_rom(rom: Seq<u8>) -> CartView {
        CartView {
            title: header_title(rom),
            cart_type: rom[0x147],
            rom_size: rom[0x148],
            ram_size: rom[0x149],
            valid_checksum: header_checksum_valid(rom),
            rom,
        }
    }
}

impl View for Cart {
    type V = CartView;

    open spec fn view(&self) -> CartView {
        CartView {
            title: self.title@,
            cart_type: self.cart_type,
            rom_size: self.rom_size,
            ram_size: self.ram_size,
            valid_checksum: self.valid_checksum,
            rom: self.mbc@,
        }
    }
}

/// Drop the NUL chars at the start and at the end of a text.
pub fn trim_nul_chars(s: &str) -> (r: String)
    ensures
        r@ == trim_nuls(s@),
{
    let len = s.unicode_len();
    let mut lo: usize = 0;
    while lo < len && s.get_char(lo) == '\0'
        invariant
            len == s@.len(),
            lo <= len,
            skip_nuls(s@, lo as int) == skip_nuls(s@, 0),
        decreases len - lo,
    {
        lo = lo + 1;
    }
    let mut hi: usize = len;
    while lo < hi && s.get_char(hi - 1) == '\0'
        invariant
            len == s@.len(),
            lo <= hi <= len,
            lo == skip_nuls(s@, 0),
            skip_nuls_back(s@, lo as int, hi as int) == skip_nuls_back(s@, lo as int, len as int),
        decreases hi,
    {
        hi = hi - 1;
    }
    String::from_str(s.substring_char(lo, hi))
}

impl Cart {
    /// Make a cart of a ROM image, reading its header.
    pub fn new(rom_data: Vec<u8>) -> (cart: Self)
        requires
            loadable_rom(rom_data@),
        ensures
            cart@ == CartView::from_rom(rom_data@),
    {
        let title = Cart::parse_title(rom_data.as_slice());

        let cart_type = rom_data[CARTRIDGE_TYPE_OFFSET];
        let rom_size = rom_data[ROM_SIZE_OFFSET];
        let ram_size = rom_data[RAM_SIZE_OFFSET];
        let valid_checksum = Cart::validate_checksum(rom_data.as_slice());

        let mbc = get_mbc(rom_data, cart_type, rom_size, ram_size).unwrap();

        Cart { title, cart_type, rom_size, ram_size, mbc, valid_checksum }
    }

    /// The title of the cart header, without its NUL padding.
    pub fn parse_title(rom_data: &[u8]) -> (title: String)
        requires
            rom_data@.len() >= 0x143,
        ensures
            title@ == header_title(rom_data@),
            is_ascii_bytes(rom_data@.subrange(0x134, 0x143)) ==> title@ == trim_nuls(
                rom_data@.subrange(0x134, 0x143).map_values(|b: u8| b as char),
            ),
    {
        let text = utf8_lossy_string(&rom_data[TITLE_OFFSET..TITLE_OFFSET + TITLE_LENGTH_DMG]);
        trim_nul_chars(text.as_str())
    }

    /// Whether the header checksum byte matches the header.
    pub fn validate_checksum(rom_data: &[u8]) -> (valid: bool)
        requires
            rom_data@.len() > 0x14D,
        ensures
            valid == header_checksum_valid(rom_data@),
    {
        let mut chksum: u8 = 0;
        let mut i: usize = TITLE_OFFSET;
        while i < HEADER_CHECKSUM_OFFSET
            invariant
                TITLE_OFFSET <= i <= HEADER_CHECKSUM_OFFSET,
                rom_data@.len() > 0x14D,
                (chksum as int + header_sum(rom_data@, i as int)) % 256 == 0,
            decreases HEADER_CHECKSUM_OFFSET - i,
        {
            let byte = rom_data[i];
            proof {
                let s = header_sum(rom_data@, i as int);
                let c = chksum as int;
                let next = (c - byte - 1) % 256;
                assert((next + s + byte + 1) % 256 == 0) by (nonlinear_arith)
                    requires
                        (c + s) % 256 == 0,
                        next == (c - byte - 1) % 256,
                ;
            }
            chksum = chksum.wrapping_sub(byte).wrapping_sub(1);
            i = i + 1;
        }
        proof {
            let s = header_sum(rom_data@, 0x14D);
            let c = chksum as int;
            let b = rom_data@[0x14D] as int;
            assert((c == b) == ((s + b) % 256 == 0)) by (nonlinear_arith)
                requires
                    (c + s) % 256 == 0,
                    0 <= c < 256,
                    0 <= b < 256,
            ;
        }
        chksum == rom_data[HEADER_CHECKSUM_OFFSET]
    }
}

impl MmuObject for Cart {
    open spec fn serves(&self, addr: u16) -> bool {
        cart_address(addr)
    }

    open spec fn value_at(&self, addr: u16) -> u8 {
        self@.read(addr)
    }

    open spec fn written_from(&self, before: &Self, addr: u16, data: u8) -> bool {
        self@ == before@
    }

    fn read8(&self, addr: u16) -> (r: u8) {
        self.mbc.read(addr)
    }

    fn write8(&mut self, addr: u16, data: u8) {
        self.mbc.write(addr, data)
    }
}

/// Map ROM size value from cart header into size in bytes
///
/// 00h -  32KByte (no ROM banking)
/// 01h -  64KByte (4 banks)
/// 02h - 128KByte (8 banks)
/// 03h - 256KByte (16 banks)
/// 04h - 512KByte (32 banks)
/// 05h -   1MByte (64 banks)  - only 63 banks used by MBC1
/// 06h -   2MByte (128 banks) - only 125 banks used by MBC1
/// 07h -   4MByte (256 banks)
/// 08h -   8MByte (512 banks)
/// 52h - 1.1MByte (72 banks)
/// 53h - 1.2MByte (80 banks)
/// 54h - 1.5MByte (96 banks)
pub fn parse_rom_size(rom_size: u8) -> (r: Result<usize, String>)
    ensures
        match r {
            Ok(n) => rom_size_bytes(rom_size) == Some(n as nat),
            Err(msg) => rom_size_bytes(rom_size) is None && msg@ == unknown_rom_size_message(
                rom_size,
            ),
        },
{
    match rom_size {
        0x00 => Ok(0x0000_8000),
        0x01 => Ok(0x0001_0000),
        0x02 => Ok(0x0002_0000),
        0x03 => Ok(0x0004_0000),
        0x04 => Ok(0x0008_0000),
        0x05 => Ok(0x0010_0000),
        0x06 => Ok(0x0020_0000),
        0x07 => Ok(0x0040_0000),
        0x08 => Ok(0x0080_0000),
        0x52 => Ok(0x0012_0000),
        0x53 => Ok(0x0014_0000),
        0x54 => Ok(0x0018_0000),
        _ => {
            let mut msg = String::from_str("Unknown rom size value found in the cart header: 0x");
            push_hex2(&mut msg, rom_size);
            Err(msg)
        },
    }
}

/// Map RAM size value from cart header into size in bytes
///
/// 00h - None
/// 01h - 2 KBytes
/// 02h - 8 Kbytes
/// 03h - 32 KBytes (4 banks of 8KBytes each)
/// 04h - 128 KBytes (16 banks of 8KBytes each)
/// 05h - 64 KBytes (8 banks of 8KBytes each)
pub fn parse_ram_size(ram_size: u8) -> (r: Result<usize, String>)
    ensures
        match r {
            Ok(n) => ram_size_bytes(ram_size) == Some(n as nat),
            Err(msg) => ram_size_bytes(ram_size) is None && msg@ == unknown_ram_size_message(
                ram_size,
            ),
        },
{
    match ram_size {
        0x00 => Ok(0),
        0x01 => Ok(0x800),
        0x02 => Ok(0x2000),
        0x03 => Ok(0x8000),
        0x04 => Ok(0x20000),
        0x05 => Ok(0x10000),
        _ => {
            let mut msg = String::from_str("Unknown ram size value found in the cart header: 0x");
            push_hex2(&mut msg, ram_size);
            Err(msg)
        },
    }
}

} // verus!
