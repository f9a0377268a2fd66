use nes_core::controller::{Button, Controller};

#[test]
fn reports_buttons_in_order_then_ones() {
    let mut c = Controller::new();
    c.set_button(Button::A, true);
    c.set_button(Button::Start, true);
    c.set_button(Button::Right, true);
    c.write_register(1);
    c.write_register(0);
    let reads: Vec<u8> = (0..10).map(|_| c.read_register()).collect();
    assert_eq!(reads, vec![0x41, 0x40, 0x40, 0x41, 0x40, 0x40, 0x40, 0x41, 0x41, 0x41]);
}

#[test]
fn strobe_held_keeps_reporting_a() {
    let mut c = Controller::new();
    c.set_button(Button::A, true);
    c.write_register(1);
    assert_eq!(c.read_register(), 0x41);
    assert_eq!(c.read_register(), 0x41);
    assert_eq!(c.index, 0);
}

#[test]
fn release_clears_the_button() {
    let mut c = Controller::new();
    c.set_button(Button::B, true);
    c.set_button(Button::Down, true);
    assert_eq!(c.buttons, 0b0010_0010);
    c.set_button(Button::B, false);
    assert_eq!(c.buttons, 0b0010_0000);
    assert_eq!(Button::Left.mask(), 0b0100_0000);
}
