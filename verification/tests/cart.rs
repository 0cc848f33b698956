use lameboy::cart::Cart as RomImage;
use lameboy::lameboy::cart::mbc::get_mbc;
use lameboy::lameboy::cart::{parse_ram_size, parse_rom_size, Cart};
use lameboy::lameboy::mmu::mmuobject::MmuObject;

const TITLE_OFFSET: usize = 0x0134;
const CARTRIDGE_TYPE_OFFSET: usize = 0x0147;
const ROM_SIZE_OFFSET: usize = 0x0148;
const RAM_SIZE_OFFSET: usize = 0x0149;
const HEADER_CHECKSUM_OFFSET: usize = 0x014D;

fn checksum_header() -> Vec<u8> {
    vec![
        0x43, 0x41, 0x52, 0x54, 0x20, 0x74, 0x69, 0x74, 0x6c, 0x65, 0x00, 0x00, 0x00, 0x00, 0x00,
        0x00, 0x00, 0x00, 0x00, 0x00, 0x00, 0x00, 0x00, 0x01, 0x00,
    ]
}

#[test]
fn get_size() {
    let expected_size = 0x1234;

    let data = vec![0x00 as u8; expected_size];
    let cart = RomImage::new(data);
    assert_eq!(expected_size, cart.get_size());
}

#[test]
fn mod_get_title() {
    let expected_title = "CART title";

    let mut data = vec![0x00 as u8; 0xFFFF];
    data.splice(TITLE_OFFSET..0x0143, expected_title.as_bytes().to_vec());
    let cart = RomImage::new(data);
    assert_eq!(expected_title, cart.get_title());

    let mut data = vec![0x00 as u8; 0xFFFF];
    data.splice(TITLE_OFFSET..0x0143, expected_title.as_bytes().to_vec());
    assert_eq!(expected_title, Cart::parse_title(&data));
}

#[test]
fn get_cart_type() {
    let expected_cart_type = 0x19;

    let mut data = vec![0x00 as u8; 0xFFFF];
    data[CARTRIDGE_TYPE_OFFSET] = expected_cart_type;
    let cart = RomImage::new(data);
    assert_eq!(expected_cart_type, cart.get_cart_type());
}

#[test]
fn get_rom_size() {
    let expected_rom_size = 0x05;

    let mut data = vec![0x00 as u8; 0xFFFF];
    data[ROM_SIZE_OFFSET] = expected_rom_size;
    let cart = RomImage::new(data);
    assert_eq!(expected_rom_size, cart.get_rom_size());
}

#[test]
fn get_ram_size() {
    let expected_ram_size = 0x02;

    let mut data = vec![0x00 as u8; 0xFFFF];
    data[RAM_SIZE_OFFSET] = expected_ram_size;
    let cart = RomImage::new(data);
    assert_eq!(expected_ram_size, cart.get_ram_size());
}

#[test]
fn mod_validate_checksum() {
    let invalid_data = vec![0x00 as u8; 0xFFFF];
    let invalid_cart = RomImage::new(invalid_data);
    assert_eq!(false, invalid_cart.validate_checksum());

    let mut valid_data = vec![0x00 as u8; 0xFFFF];
    valid_data.splice(TITLE_OFFSET..HEADER_CHECKSUM_OFFSET, checksum_header());
    valid_data[HEADER_CHECKSUM_OFFSET] = 0x7A;
    let valid_cart = RomImage::new(valid_data);
    assert_eq!(true, valid_cart.validate_checksum());

    let invalid_data = vec![0x00 as u8; 0xFFFF];
    assert_eq!(false, Cart::validate_checksum(&invalid_data));

    let mut valid_data = vec![0x00 as u8; 0xFFFF];
    valid_data.splice(TITLE_OFFSET..HEADER_CHECKSUM_OFFSET, checksum_header());
    valid_data[HEADER_CHECKSUM_OFFSET] = 0x7A;
    assert_eq!(true, Cart::validate_checksum(&valid_data));
}

#[test]
fn error_on_unsupported_cart_type() -> Result<(), String> {
    match get_mbc(vec![0; 1], 0xFF, 0x00, 0x00) {
        Ok(mbc) => Err(format!("Did not expect to get a valid MBC back: {:?}", mbc)),
        Err(msg) => {
            let expected_msg = "Unsupported MBC type: 0xFF";
            if msg == expected_msg {
                Ok(())
            } else {
                Err(format!("Expected: '{expected_msg}' Got: '{msg}'"))
            }
        }
    }
}

#[test]
fn error_on_invalid_nombc_rom_size() -> Result<(), String> {
    match get_mbc(vec![0; 1], 0x00, 0x00, 0x00) {
        Ok(mbc) => Err(format!("Did not expect to get a valid MBC back: {:?}", mbc)),
        Err(msg) => {
            let expected_msg = "ROM defined no MBC: expected file size 32KB but got 1 bytes";
            if msg == expected_msg {
                Ok(())
            } else {
                Err(format!("Expected: '{expected_msg}' Got: '{msg}'"))
            }
        }
    }
}

#[test]
fn nombc_for_cart_type_zero() -> Result<(), String> {
    match get_mbc(vec![0; 0x8000], 0x00, 0x00, 0x00) {
        Ok(_) => Ok(()),
        Err(msg) => Err(format!("Expected valid nombc Got: '{msg}'")),
    }
}

#[test]
fn unknown_rom_size_in_header_is_an_error() {
    match get_mbc(vec![0; 0x8000], 0x00, 0x09, 0x00) {
        Ok(_) => panic!("an unknown ROM size must not give a memory bank controller"),
        Err(msg) => assert_eq!("Unknown rom size value found in the cart header: 0x09", msg),
    }
}

#[test]
fn rom_sizes_from_header() {
    assert_eq!(Ok(0x8000), parse_rom_size(0x00));
    assert_eq!(Ok(0x10000), parse_rom_size(0x01));
    assert_eq!(Ok(0x800000), parse_rom_size(0x08));
    assert_eq!(Ok(0x120000), parse_rom_size(0x52));
    assert_eq!(Ok(0x180000), parse_rom_size(0x54));
    assert_eq!(
        Err(String::from("Unknown rom size value found in the cart header: 0x55")),
        parse_rom_size(0x55)
    );
}

#[test]
fn ram_sizes_from_header() {
    assert_eq!(Ok(0), parse_ram_size(0x00));
    assert_eq!(Ok(0x800), parse_ram_size(0x01));
    assert_eq!(Ok(0x2000), parse_ram_size(0x02));
    assert_eq!(Ok(0x8000), parse_ram_size(0x03));
    assert_eq!(Ok(0x20000), parse_ram_size(0x04));
    assert_eq!(Ok(0x10000), parse_ram_size(0x05));
    assert_eq!(
        Err(String::from("Unknown ram size value found in the cart header: 0x06")),
        parse_ram_size(0x06)
    );
}

#[test]
fn title_padding_and_invalid_utf8() {
    let mut data = vec![0x00 as u8; 0x8000];
    data.splice(0x0136..0x0139, b"ABC".to_vec());
    assert_eq!("ABC", Cart::parse_title(&data));

    let mut data = vec![0x00 as u8; 0x8000];
    data.splice(0x0134..0x0137, vec![0x41, 0xFF, 0x42]);
    assert_eq!("A\u{FFFD}B", Cart::parse_title(&data));
}

#[test]
fn cart_reads_header_fields_and_rom() {
    let mut data = vec![0x00 as u8; 0x8000];
    data.splice(TITLE_OFFSET..HEADER_CHECKSUM_OFFSET, checksum_header());
    data[HEADER_CHECKSUM_OFFSET] = 0x7A;
    data[0x0100] = 0xC3;
    data[0x7FFF] = 0x99;
    let cart = Cart::new(data);
    assert_eq!("CART title", cart.title);
    assert_eq!(0x00, cart.cart_type);
    assert_eq!(true, cart.valid_checksum);
    assert_eq!(0xC3, cart.read8(0x0100));
    assert_eq!(0x99, cart.read8(0x7FFF));
    assert_eq!(0xFF, cart.read8(0xA000));
}

#[test]
fn rom_image_as_memory() {
    let mut data = vec![0x00 as u8; 0x100];
    data[0x42] = 0x24;
    let mut cart = RomImage::new(data);
    assert_eq!(0x24, cart.read8(0x0042));
    assert_eq!(0xFF, cart.read8(0xB000));
    cart.write8(0x0042, 0x11);
    assert_eq!(0x24, cart.read8(0x0042));
}

#[test]
fn nul_padding_is_trimmed_from_both_ends() {
    use_trim("\0\0CART\0title\0\0\0", "CART\0title");
    use_trim("\0\0\0", "");
    use_trim("plain", "plain");
}

fn use_trim(text: &str, expected: &str) {
    assert_eq!(expected, lameboy::lameboy::cart::trim_nul_chars(text));
}
