use gbemu_rs::io::IO;
use gbemu_rs::keys::{Button, Keys};
use gbemu_rs::memory_bus::MemoryBus;

#[test]
fn no_row_selected_reads_zero() {
    let keys = Keys::new();
    assert_eq!(keys.read_byte(), 0);
}

#[test]
fn rows_are_selected_by_bits_four_and_five() {
    let mut keys = Keys::new();
    keys.write_byte(0x10);
    assert_eq!(keys.read_byte(), 0x0F);
    keys.write_byte(0x20);
    assert_eq!(keys.read_byte(), 0x0F);
    keys.write_byte(0x30);
    assert_eq!(keys.read_byte(), 0);
    keys.write_byte(0xDF);
    assert_eq!(keys.column, 0x10);
}

#[test]
fn keys_are_active_low() {
    let mut keys = Keys::new();
    keys.key_down(Button::Up);
    keys.key_down(Button::A);
    keys.write_byte(0x20);
    assert_eq!(keys.read_byte(), 0x0B);
    keys.write_byte(0x10);
    assert_eq!(keys.read_byte(), 0x0E);
    keys.key_up(Button::Up);
    keys.write_byte(0x20);
    assert_eq!(keys.read_byte(), 0x0F);
}

#[test]
fn every_key_has_its_own_bit() {
    let directions = [(Button::Right, 0x0E), (Button::Left, 0x0D), (Button::Up, 0x0B), (Button::Down, 0x07)];
    for (button, expected) in directions {
        let mut keys = Keys::new();
        keys.key_down(button);
        assert_eq!(keys.directions, expected);
        assert_eq!(keys.actions, 0x0F);
        keys.key_up(button);
        assert_eq!(keys.directions, 0x0F);
    }
    let actions = [(Button::A, 0x0E), (Button::B, 0x0D), (Button::Select, 0x0B), (Button::Start, 0x07)];
    for (button, expected) in actions {
        let mut keys = Keys::new();
        keys.key_down(button);
        assert_eq!(keys.actions, expected);
        assert_eq!(keys.directions, 0x0F);
        keys.key_up(button);
        assert_eq!(keys.actions, 0x0F);
    }
}

#[test]
fn joypad_through_the_bus() {
    let mut bus = MemoryBus::new();
    bus.joypad.key_down(Button::Start);
    bus.write_byte(0xFF00, 0x10);
    assert_eq!(bus.read_byte(0xFF00), 0x07);
    bus.write_byte(0xFF00, 0x20);
    assert_eq!(bus.read_byte(0xFF00), 0x0F);
}

#[test]
fn io_registers_store_and_read_back() {
    let mut io = IO::new();
    assert_eq!(io.write_byte(0xFF01, 0x41), None);
    assert_eq!(io.read_byte(0xFF01), 0x41);
    assert_eq!(io.write_byte(0xFF02, 0x81), Some(0x41));
    assert_eq!(io.read_byte(0xFF02), 0);
    io.write_byte(0xFF04, 1);
    io.write_byte(0xFF05, 2);
    io.write_byte(0xFF06, 3);
    io.write_byte(0xFF07, 4);
    assert_eq!(io.read_byte(0xFF04), 1);
    assert_eq!(io.read_byte(0xFF05), 2);
    assert_eq!(io.read_byte(0xFF06), 3);
    assert_eq!(io.read_byte(0xFF07), 4);
    assert_eq!(io.read_byte(0xFF10), 0);
    assert_eq!(io.read_byte(0xFF27), 0xFF);
    assert_eq!(io.read_byte(0xFF2F), 0xFF);
    assert_eq!(io.read_byte(0xFF30), 0);
    io.write_byte(0xFF00, 0x10);
    assert_eq!(io.read_byte(0xFF00), 0x0F);
    assert_eq!(io.write_byte(0xFF10, 0x55), None);
    assert_eq!(io.read_byte(0xFF10), 0);
}

#[test]
fn a_key_going_down_requests_the_joypad_interrupt() {
    let mut bus = MemoryBus::new();
    assert!(!bus.joypad.held(Button::A));
    bus.key_down(Button::A);
    assert!(bus.joypad.held(Button::A));
    assert!(!bus.joypad.held(Button::B));
    assert_eq!(bus.read_byte(0xFF0F), 0x10);
    bus.write_byte(0xFF0F, 0x00);
    bus.key_down(Button::A);
    assert_eq!(bus.read_byte(0xFF0F), 0x00);
    bus.key_up(Button::A);
    assert_eq!(bus.read_byte(0xFF0F), 0x00);
    assert!(!bus.joypad.held(Button::A));
    bus.key_down(Button::Down);
    assert_eq!(bus.read_byte(0xFF0F), 0x10);
    bus.write_byte(0xFF00, 0x20);
    assert_eq!(bus.read_byte(0xFF00), 0x07);
}
