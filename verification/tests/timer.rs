use gbemu_rs::memory_bus::{Clock, ClockSelect, Interrupts, MemoryBus, Tac};

fn running_clock(select: u8) -> Clock {
    let mut clock = Clock::new();
    clock.tac = Tac::from(0x04 | select);
    clock
}

#[test]
fn tac_round_trips() {
    let t = Tac::from(0x05);
    assert!(t.enable);
    assert_eq!(t.clock_select, ClockSelect::Freq256k);
    assert_eq!(u8::from(t), 0x05);
    let t = Tac::from(0xFB);
    assert!(!t.enable);
    assert_eq!(t.clock_select, ClockSelect::Freq16k);
    assert_eq!(u8::from(t), 0x03);
    assert_eq!(u8::from(Tac::new()), 0);
}

#[test]
fn periods_of_the_four_rates() {
    assert_eq!(ClockSelect::Freq4k.period(), 1024);
    assert_eq!(ClockSelect::Freq256k.period(), 16);
    assert_eq!(ClockSelect::Freq64k.period(), 64);
    assert_eq!(ClockSelect::Freq16k.period(), 256);
}

#[test]
fn div_counts_every_256_cycles() {
    let mut clock = Clock::new();
    assert!(!clock.inc(255));
    assert_eq!(clock.div, 0);
    assert!(!clock.inc(1));
    assert_eq!(clock.div, 1);
    clock.inc(256 * 3 + 10);
    assert_eq!(clock.div, 4);
    clock.inc(246);
    assert_eq!(clock.div, 5);
    clock.inc(256 * 251);
    assert_eq!(clock.div, 0);
    assert_eq!(clock.tima, 0);
}

#[test]
fn tima_counts_at_the_selected_rate() {
    let mut clock = running_clock(1);
    assert!(!clock.inc(15));
    assert_eq!(clock.tima, 0);
    assert!(!clock.inc(1));
    assert_eq!(clock.tima, 1);
    assert!(!clock.inc(16 * 10));
    assert_eq!(clock.tima, 11);

    let mut clock = running_clock(0);
    clock.inc(1023);
    assert_eq!(clock.tima, 0);
    clock.inc(1);
    assert_eq!(clock.tima, 1);

    let mut clock = running_clock(2);
    clock.inc(64);
    assert_eq!(clock.tima, 1);

    let mut clock = running_clock(3);
    clock.inc(255);
    assert_eq!(clock.tima, 0);
    clock.inc(1);
    assert_eq!(clock.tima, 1);
}

#[test]
fn stopped_timer_does_not_count() {
    let mut clock = Clock::new();
    assert!(!clock.inc(100_000));
    assert_eq!(clock.tima, 0);
}

#[test]
fn tima_overflow_reloads_from_tma_and_reports_once() {
    let mut clock = running_clock(1);
    clock.tima = 0xFE;
    clock.tma = 0x42;
    assert!(!clock.inc(16));
    assert_eq!(clock.tima, 0xFF);
    assert!(clock.inc(16));
    assert_eq!(clock.tima, 0x42);
    assert!(!clock.inc(16));
    assert_eq!(clock.tima, 0x43);
}

#[test]
fn many_increments_in_one_call() {
    let mut clock = running_clock(1);
    clock.tima = 0xF0;
    clock.tma = 0xFE;
    assert!(clock.inc(16 * 0x10));
    assert_eq!(clock.tima, 0xFE);
    assert!(clock.inc(16 * 5));
    assert_eq!(clock.tima, 0xFF);
}

#[test]
fn step_is_one_increment() {
    let mut clock = Clock::new();
    clock.tima = 0xFF;
    clock.tma = 0x10;
    clock.internal.main = 7;
    assert!(clock.step());
    assert_eq!(clock.tima, 0x10);
    assert_eq!(clock.internal.main, 0);
    assert!(!clock.step());
    assert_eq!(clock.tima, 0x11);
}

#[test]
fn check_spends_what_has_accumulated() {
    let mut clock = running_clock(0);
    clock.inc(1000);
    assert_eq!(clock.tima, 0);
    clock.tac = Tac::from(0x05);
    assert!(!clock.check());
    assert_eq!(clock.tima, 62);
    assert_eq!(clock.internal.main, 8);
}

#[test]
fn bus_raises_the_timer_flag_on_overflow() {
    let mut bus = MemoryBus::new();
    bus.write_byte(0xFF07, 0x05);
    bus.write_byte(0xFF06, 0xAB);
    bus.write_byte(0xFF05, 0xFF);
    assert_eq!(bus.read_byte(0xFF07), 0x05);
    bus.tick(15);
    assert_eq!(bus.read_byte(0xFF0F), 0x00);
    bus.tick(1);
    assert_eq!(bus.read_byte(0xFF05), 0xAB);
    assert_eq!(bus.read_byte(0xFF0F), 0x04);
    bus.write_byte(0xFF0F, 0x00);
    bus.tick(16);
    assert_eq!(bus.read_byte(0xFF05), 0xAC);
    assert_eq!(bus.read_byte(0xFF0F), 0x00);
}

#[test]
fn writing_div_resets_it() {
    let mut bus = MemoryBus::new();
    bus.tick(300);
    assert_eq!(bus.read_byte(0xFF04), 1);
    bus.write_byte(0xFF04, 0x77);
    assert_eq!(bus.read_byte(0xFF04), 0);
    bus.tick(255);
    assert_eq!(bus.read_byte(0xFF04), 0);
    bus.tick(1);
    assert_eq!(bus.read_byte(0xFF04), 1);
}

#[test]
fn interrupt_registers_hold_five_bits() {
    let i = Interrupts::from(0xFF);
    assert!(i.vblank && i.lcd_stat && i.timer && i.serial && i.joypad);
    assert_eq!(u8::from(i), 0x1F);
    let i = Interrupts::from(0x04);
    assert!(i.timer);
    assert!(!i.vblank);
    assert_eq!(u8::from(i), 0x04);
    let i = Interrupts::from(0x10);
    assert!(i.joypad);
    assert_eq!(u8::from(i), 0x10);
    assert_eq!(u8::from(Interrupts::new()), 0);
    assert!(Interrupts::new().is_empty());
}
