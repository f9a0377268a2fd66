use nes_core::bus::SystemBus;
use nes_core::controller::Button;
use nes_core::error::NesError;

#[test]
fn ram_is_mirrored() {
    let mut bus = SystemBus::new();
    bus.write(0x0001, 0xAB).unwrap();
    assert_eq!(bus.read(0x0801), Ok(0xAB));
    assert_eq!(bus.read(0x1801), Ok(0xAB));
    bus.write(0x1FFF, 0x01).unwrap();
    assert_eq!(bus.ram[0x07FF], 0x01);
}

#[test]
fn controller_ports() {
    let mut bus = SystemBus::new();
    bus.controller_0.set_button(Button::B, true);
    bus.controller_1.set_button(Button::A, true);
    bus.write(0x4016, 1).unwrap();
    bus.write(0x4016, 0).unwrap();
    assert_eq!(bus.read(0x4016), Ok(0x40));
    assert_eq!(bus.read(0x4016), Ok(0x41));
    assert_eq!(bus.read(0x4017), Ok(0x41));
}

#[test]
fn cartridge_space_without_cartridge() {
    let mut bus = SystemBus::new();
    assert_eq!(bus.read(0x8000), Err(NesError::NoCartridge));
    assert_eq!(bus.write(0x6000, 1), Err(NesError::NoCartridge));
    assert_eq!(bus.read(0x2002), Ok(0));
}

#[test]
fn tick_counts_cycles() {
    let mut bus = SystemBus::new();
    bus.tick();
    bus.tick();
    assert_eq!(bus.cycles, 2);
    bus.cycles = u64::MAX;
    bus.tick();
    assert_eq!(bus.cycles, 0);
    assert!(!bus.irq());
}
