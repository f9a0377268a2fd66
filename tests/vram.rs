use nes_core::cartridge::Cartridge;
use nes_core::error::NesError;
use nes_core::header::Mirroring;
use nes_core::vram::{mirror_nametable, mirror_palette, Vram};

#[test]
fn test_mirror_nametable_horizontally() {
    // Nametable 1 - starting at 0x2000
    assert_eq!(mirror_nametable(Mirroring::Horizontal, 0x2801), 0x401);
    assert_eq!(mirror_nametable(Mirroring::Horizontal, 0x2A01), 0x601);
    assert_eq!(mirror_nametable(Mirroring::Horizontal, 0x2C01), 0x401);
    assert_eq!(mirror_nametable(Mirroring::Horizontal, 0x2E01), 0x601);
}

#[test]
fn horizontal_first_two_tables_share_first_physical_table() {
    assert_eq!(mirror_nametable(Mirroring::Horizontal, 0x2001), 0x001);
    assert_eq!(mirror_nametable(Mirroring::Horizontal, 0x2401), 0x001);
    assert_eq!(mirror_nametable(Mirroring::Horizontal, 0x27FF), 0x3FF);
}

#[test]
fn vertical_mirroring_folds_modulo_two_tables() {
    assert_eq!(mirror_nametable(Mirroring::Vertical, 0x2001), 0x001);
    assert_eq!(mirror_nametable(Mirroring::Vertical, 0x2401), 0x401);
    assert_eq!(mirror_nametable(Mirroring::Vertical, 0x2801), 0x001);
    assert_eq!(mirror_nametable(Mirroring::Vertical, 0x2C01), 0x401);
}

#[test]
fn four_screen_maps_straight_on() {
    assert_eq!(mirror_nametable(Mirroring::FourScreen, 0x2000), 0);
    assert_eq!(mirror_nametable(Mirroring::FourScreen, 0x2C05), 0xC05);
}

#[test]
fn palette_mirrors_background_entries() {
    assert_eq!(mirror_palette(0x3F10), 0x00);
    assert_eq!(mirror_palette(0x3F14), 0x04);
    assert_eq!(mirror_palette(0x3F18), 0x08);
    assert_eq!(mirror_palette(0x3F1C), 0x0C);
    assert_eq!(mirror_palette(0x3F11), 0x11);
    assert_eq!(mirror_palette(0x3F25), 0x05);
    assert_eq!(mirror_palette(0x3F30), 0x10 - 0x10);
}

fn horizontal_cartridge() -> Cartridge {
    let mut image = vec![0x4E, 0x45, 0x53, 0x1A, 1, 0, 0, 0, 0, 0, 0, 0, 0, 0, 0, 0];
    image.extend(std::iter::repeat(0u8).take(0x4000));
    Cartridge::new(&image).unwrap()
}

#[test]
fn nametable_write_is_seen_through_its_mirror() {
    let mut vram = Vram::new();
    vram.set_cartridge(horizontal_cartridge());
    assert_eq!(vram.mirroring(), Mirroring::Horizontal);
    vram.write_byte(0x2805, 0x77).unwrap();
    assert_eq!(vram.read_byte(0x2C05), Ok(0x77));
    assert_eq!(vram.nametables[0x405], 0x77);
}

#[test]
fn palette_write_is_seen_through_its_alias() {
    let mut vram = Vram::new();
    vram.write_byte(0x3F10, 0x2A).unwrap();
    assert_eq!(vram.read_byte(0x3F00), Ok(0x2A));
    assert_eq!(vram.palette[0], 0x2A);
}

#[test]
fn buffered_read_returns_previous_byte() {
    let mut vram = Vram::new();
    vram.set_cartridge(horizontal_cartridge());
    vram.write_byte(0x2000, 0x11).unwrap();
    vram.write_byte(0x2001, 0x22).unwrap();
    assert_eq!(vram.buffered_read_byte(0x2000), Ok(0));
    assert_eq!(vram.buffered_read_byte(0x2001), Ok(0x11));
    assert_eq!(vram.buffered_read_byte(0x2001), Ok(0x22));
}

#[test]
fn buffered_palette_read_is_immediate_and_refills_from_nametable() {
    let mut vram = Vram::new();
    vram.set_cartridge(horizontal_cartridge());
    vram.write_byte(0x3F01, 0x0F).unwrap();
    // 0x3F01 lies over nametable offset 0x701 under horizontal wiring.
    vram.write_byte(0x2F01, 0x5A).unwrap();
    assert_eq!(vram.buffered_read_byte(0x3F01), Ok(0x0F));
    assert_eq!(vram.read_buffer, 0x5A);
    assert_eq!(vram.buffered_read_byte(0x2000), Ok(0x5A));
}

#[test]
fn pattern_read_without_cartridge_fails() {
    let vram = Vram::new();
    assert_eq!(vram.read_byte(0x0010), Err(NesError::NoCartridge));
}

#[test]
fn reset_fills_nametables() {
    let mut vram = Vram::new();
    vram.reset();
    assert!(vram.nametables.iter().all(|&b| b == 0xFF));
    assert_eq!(vram.nametables.len(), 0x800);
    assert!(vram.cartridge.is_none());
}
