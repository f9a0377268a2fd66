use nes_core::cartridge::Cartridge;
use nes_core::error::NesError;
use nes_core::header::{Header, Mirroring};

/// An image whose program ROM page `n` is filled with `0x10 + n` and whose
/// character ROM page `n` is filled with `0x80 + n`.
fn image(mapper: u8, prg_pages: u8, chr_pages: u8, flags6_low: u8) -> Vec<u8> {
    let mut v = vec![
        0x4E,
        0x45,
        0x53,
        0x1A,
        prg_pages,
        chr_pages,
        (mapper << 4) | flags6_low,
        mapper & 0xF0,
        0,
        0,
        0,
        0,
        0,
        0,
        0,
        0,
    ];
    for n in 0..prg_pages {
        v.extend(std::iter::repeat(0x10 + n).take(0x4000));
    }
    for n in 0..chr_pages {
        v.extend(std::iter::repeat(0x80 + n).take(0x2000));
    }
    v
}

#[test]
fn header_fields() {
    let mut img = image(0x00, 2, 1, 1);
    img[6] = 0x31;
    img[7] = 0x40;
    img[8] = 3;
    let h = Header::new(&img).unwrap();
    assert_eq!(h.mapper_number, 0x43);
    assert_eq!(h.mirroring, Mirroring::Vertical);
    assert_eq!(h.prg_rom_pages, 2);
    assert_eq!(h.chr_rom_pages, 1);
    assert_eq!(h.prg_ram_pages, 3);
    assert_eq!(h.prg_rom_range(), 16..16 + 0x8000);
    assert_eq!(h.chr_rom_range(), 16 + 0x8000..16 + 0xA000);
    assert_eq!(h.prg_ram_bytes(), 0x6000);
    assert_eq!(h.chr_ram_bytes(), 0);
}

#[test]
fn zero_program_ram_count_means_one_page() {
    let h = Header::new(&image(0, 1, 0, 0)).unwrap();
    assert_eq!(h.prg_ram_pages, 1);
    assert_eq!(h.chr_ram_bytes(), 0x2000);
    assert_eq!(h.mirroring, Mirroring::Horizontal);
}

#[test]
fn malformed_images_are_refused() {
    let mut bad_magic = image(0, 1, 0, 0);
    bad_magic[3] = 0;
    assert_eq!(Header::new(&bad_magic), Err(NesError::MalformedCartridgeHeader));
    assert!(matches!(Cartridge::new(&[0x4E, 0x45]), Err(NesError::MalformedCartridgeHeader)));
    assert!(matches!(
        Cartridge::new(&image(0, 0, 0, 0)),
        Err(NesError::MalformedCartridgeHeader)
    ));
    let mut short = image(0, 2, 0, 0);
    short.truncate(0x5000);
    assert!(matches!(Cartridge::new(&short), Err(NesError::MalformedCartridgeHeader)));
}

#[test]
fn unsupported_mapper_is_refused() {
    assert!(matches!(
        Cartridge::new(&image(1, 1, 0, 0)),
        Err(NesError::UnsupportedMapper(1))
    ));
}

#[test]
fn nrom_rom_is_read_only() {
    let mut c = Cartridge::new(&image(0, 2, 0, 0)).unwrap();
    assert_eq!(c.read_prg_byte(0x8000), Ok(0x10));
    assert_eq!(c.write_prg_byte(0x8000, 0x99), Ok(()));
    assert_eq!(c.write_prg_byte(0xFFFF, 0x99), Ok(()));
    assert_eq!(c.read_prg_byte(0x8000), Ok(0x10));
    assert_eq!(c.read_prg_byte(0xFFFF), Ok(0x11));
}

#[test]
fn nrom_high_window_is_last_page() {
    let one = Cartridge::new(&image(0, 1, 0, 0)).unwrap();
    assert_eq!(one.read_prg_byte(0xC000), Ok(0x10));
    assert_eq!(one.read_prg_byte(0x8000), Ok(0x10));
    let two = Cartridge::new(&image(0, 2, 0, 0)).unwrap();
    assert_eq!(two.read_prg_byte(0xC000), Ok(0x11));
}

#[test]
fn nrom_program_ram_round_trip() {
    let mut c = Cartridge::new(&image(0, 1, 0, 0)).unwrap();
    assert_eq!(c.read_prg_byte(0x6000), Ok(0));
    c.write_prg_byte(0x7FFF, 0x5C).unwrap();
    assert_eq!(c.read_prg_byte(0x7FFF), Ok(0x5C));
}

#[test]
fn nrom_unmapped_addresses() {
    let mut c = Cartridge::new(&image(0, 1, 0, 0)).unwrap();
    assert_eq!(c.read_prg_byte(0x5FFF), Err(NesError::UnmappedAddress(0x5FFF)));
    assert_eq!(c.write_prg_byte(0x4020, 1), Err(NesError::UnmappedAddress(0x4020)));
    assert_eq!(c.read_chr_byte(0x2000), Err(NesError::UnmappedAddress(0x2000)));
}

#[test]
fn uxrom_bank_switch() {
    let mut c = Cartridge::new(&image(2, 8, 0, 0)).unwrap();
    assert_eq!(c.read_prg_byte(0x8000), Ok(0x10));
    assert_eq!(c.read_prg_byte(0xC000), Ok(0x17));
    c.write_prg_byte(0x8000, 0x05).unwrap();
    assert_eq!(c.read_prg_byte(0x8000), Ok(0x15));
    assert_eq!(c.read_prg_byte(0xC000), Ok(0x17));
    // Only the low four bits select the page.
    c.write_prg_byte(0xFFFF, 0xF3).unwrap();
    assert_eq!(c.read_prg_byte(0xBFFF), Ok(0x13));
    // A page past the end reads as an addressing error.
    c.write_prg_byte(0x8000, 0x09).unwrap();
    assert_eq!(c.read_prg_byte(0x8000), Err(NesError::AddressOutOfRange));
    assert_eq!(c.write_prg_byte(0x6000, 1), Err(NesError::UnmappedAddress(0x6000)));
}

#[test]
fn cnrom_character_bank_switch() {
    let mut c = Cartridge::new(&image(3, 2, 4, 1)).unwrap();
    assert_eq!(c.mirroring(), Mirroring::Vertical);
    assert_eq!(c.read_chr_byte(0x0000), Ok(0x80));
    c.write_prg_byte(0x8000, 2).unwrap();
    assert_eq!(c.read_chr_byte(0x1FFF), Ok(0x82));
    assert_eq!(c.read_prg_byte(0x8000), Ok(0x10));
    assert_eq!(c.read_prg_byte(0xC000), Ok(0x11));
    assert_eq!(c.write_chr_byte(0x0000, 0x00), Ok(()));
    assert_eq!(c.read_chr_byte(0x0000), Ok(0x82));
}

#[test]
fn chr_ram_round_trip() {
    let mut c = Cartridge::new(&image(0, 1, 0, 0)).unwrap();
    assert_eq!(c.read_chr_byte(0x1234), Ok(0));
    c.write_chr_byte(0x1234, 0xC3).unwrap();
    assert_eq!(c.read_chr_byte(0x1234), Ok(0xC3));
    let mut u = Cartridge::new(&image(2, 1, 0, 0)).unwrap();
    u.write_chr_byte(0x0001, 0x3C).unwrap();
    assert_eq!(u.read_chr_byte(0x0001), Ok(0x3C));
}

#[test]
fn chr_rom_ignores_writes() {
    let mut c = Cartridge::new(&image(0, 1, 1, 0)).unwrap();
    assert_eq!(c.write_chr_byte(0x0100, 0x00), Ok(()));
    assert_eq!(c.read_chr_byte(0x0100), Ok(0x80));
}

#[test]
fn no_interrupts_from_these_boards() {
    let mut c = Cartridge::new(&image(2, 1, 0, 0)).unwrap();
    c.signal_scanline();
    assert!(!c.irq_flag());
}
