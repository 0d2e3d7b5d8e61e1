use gbemu_rs::memory::{MBCMode, Memory};
use gbemu_rs::memory_bus::MemoryBus;

fn rom_of(banks: usize, cartridge_type: u8) -> Vec<u8> {
    let mut rom = vec![0u8; banks * 0x4000];
    let mut bank = 0;
    while bank < banks {
        rom[bank * 0x4000] = bank as u8;
        rom[bank * 0x4000 + 0x3FFF] = 0xB0 + bank as u8;
        bank += 1;
    }
    rom[0x0147] = cartridge_type;
    rom
}

#[test]
fn a_rom_needs_its_header() {
    let mut m = Memory::new();
    assert!(m.read_rom(vec![0u8; 0x147]).is_err());
    assert_eq!(m.cartridge_type(), 0);
    assert!(m.read_rom(vec![3u8; 0x148]).is_ok());
    assert_eq!(m.cartridge_type(), 3);
}

#[test]
fn fixed_and_switchable_rom_windows() {
    let mut m = Memory::new();
    m.read_rom(rom_of(4, 0x01)).unwrap();
    assert_eq!(m.read_byte(0x0000), 0);
    assert_eq!(m.read_byte(0x3FFF), 0xB0);
    assert_eq!(m.read_byte(0x4000), 1);
    assert_eq!(m.read_byte(0x7FFF), 0xB1);
    m.write_byte(0x2000, 3);
    assert_eq!(m.mbc().rom_bank, 3);
    assert_eq!(m.read_byte(0x4000), 3);
    assert_eq!(m.read_byte(0x7FFF), 0xB3);
    assert_eq!(m.read_byte(0x0000), 0);
}

#[test]
fn bank_select_zero_means_bank_one() {
    let mut m = Memory::new();
    m.read_rom(rom_of(4, 0x01)).unwrap();
    m.write_byte(0x2000, 2);
    assert_eq!(m.read_byte(0x4000), 2);
    m.write_byte(0x2000, 0);
    assert_eq!(m.mbc().rom_bank, 1);
    assert_eq!(m.read_byte(0x4000), 1);
    m.write_byte(0x3FFF, 0x20);
    assert_eq!(m.mbc().rom_bank, 1);
    m.write_byte(0x2100, 0xE0);
    assert_eq!(m.mbc().rom_bank, 1);
}

#[test]
fn high_bank_bits_follow_the_banking_mode() {
    let mut m = Memory::new();
    m.read_rom(rom_of(2, 0x03)).unwrap();
    m.write_byte(0x2000, 0x05);
    m.write_byte(0x4000, 0x02);
    assert_eq!(m.mbc().rom_bank, 0x45);
    assert_eq!(m.mbc().ram_bank, 0);
    m.write_byte(0x2000, 0x00);
    assert_eq!(m.mbc().rom_bank, 0x41);
    m.write_byte(0x6000, 0x01);
    assert_eq!(m.mbc().mode, MBCMode::RAM);
    m.write_byte(0x4000, 0x07);
    assert_eq!(m.mbc().ram_bank, 3);
    assert_eq!(m.mbc().rom_bank, 0x41);
    m.write_byte(0x6000, 0x00);
    assert_eq!(m.mbc().mode, MBCMode::ROM);
}

#[test]
fn reading_past_the_end_of_the_rom_gives_open_bus() {
    let mut m = Memory::new();
    m.read_rom(rom_of(2, 0x01)).unwrap();
    m.write_byte(0x2000, 5);
    assert_eq!(m.read_byte(0x4000), 0xFF);
    let empty = Memory::new();
    assert_eq!(empty.read_byte(0x0000), 0xFF);
    assert_eq!(empty.read_byte(0x4000), 0xFF);
}

#[test]
fn unbanked_cartridge_ignores_control_writes() {
    let mut m = Memory::new();
    m.read_rom(rom_of(2, 0x00)).unwrap();
    m.write_byte(0x2000, 3);
    m.write_byte(0x0000, 0x0A);
    m.write_byte(0x4000, 1);
    m.write_byte(0x6000, 1);
    assert_eq!(m.mbc().rom_bank, 1);
    assert_eq!(m.mbc().ram_bank, 0);
    assert!(!m.mbc().enable_ext_ram);
    assert_eq!(m.mbc().mode, MBCMode::ROM);
    assert_eq!(m.read_byte(0x4000), 1);
    m.write_byte(0xA000, 0x5A);
    assert_eq!(m.read_byte(0xA000), 0x5A);
}

#[test]
fn external_ram_is_gated_by_the_enable_latch() {
    let mut m = Memory::new();
    m.read_rom(rom_of(2, 0x03)).unwrap();
    m.write_byte(0xA000, 0x11);
    assert_eq!(m.read_byte(0xA000), 0xFF);
    m.write_byte(0x0000, 0x0A);
    assert!(m.mbc().enable_ext_ram);
    assert_eq!(m.read_byte(0xA000), 0x00);
    m.write_byte(0xA000, 0x11);
    assert_eq!(m.read_byte(0xA000), 0x11);
    m.write_byte(0x1FFF, 0x3A);
    assert!(m.mbc().enable_ext_ram);
    m.write_byte(0x0000, 0x0B);
    assert!(!m.mbc().enable_ext_ram);
    assert_eq!(m.read_byte(0xA000), 0xFF);
}

#[test]
fn external_ram_banks_are_separate() {
    let mut m = Memory::new();
    m.read_rom(rom_of(2, 0x03)).unwrap();
    m.write_byte(0x0000, 0x0A);
    m.write_byte(0x6000, 0x01);
    m.write_byte(0xA123, 0x10);
    m.write_byte(0x4000, 0x02);
    assert_eq!(m.read_byte(0xA123), 0x00);
    m.write_byte(0xA123, 0x12);
    m.write_byte(0xBFFF, 0x13);
    m.write_byte(0x4000, 0x00);
    assert_eq!(m.read_byte(0xA123), 0x10);
    m.write_byte(0x4000, 0x02);
    assert_eq!(m.read_byte(0xA123), 0x12);
    assert_eq!(m.read_byte(0xBFFF), 0x13);
}

#[test]
fn work_ram_and_high_ram() {
    let mut m = Memory::new();
    m.write_byte(0xC000, 1);
    m.write_byte(0xCFFF, 2);
    m.write_byte(0xD000, 3);
    m.write_byte(0xDFFF, 4);
    m.write_byte(0xFF80, 5);
    m.write_byte(0xFFFE, 6);
    assert_eq!(m.read_byte(0xC000), 1);
    assert_eq!(m.read_byte(0xCFFF), 2);
    assert_eq!(m.read_byte(0xD000), 3);
    assert_eq!(m.read_byte(0xDFFF), 4);
    assert_eq!(m.read_byte(0xFF80), 5);
    assert_eq!(m.read_byte(0xFFFE), 6);
    assert_eq!(m.hram[0], 5);
    assert_eq!(m.hram[0x7E], 6);
}

#[test]
fn addresses_without_memory_read_open_bus() {
    let mut m = Memory::new();
    m.write_byte(0x8000, 1);
    m.write_byte(0xE000, 1);
    m.write_byte(0xFF00, 1);
    m.write_byte(0xFFFF, 1);
    assert_eq!(m.read_byte(0x8000), 0xFF);
    assert_eq!(m.read_byte(0xE000), 0xFF);
    assert_eq!(m.read_byte(0xFF00), 0xFF);
    assert_eq!(m.read_byte(0xFFFF), 0xFF);
}

#[test]
fn boot_rom_overlays_the_first_page() {
    let mut m = Memory::new();
    m.read_rom(rom_of(2, 0x00)).unwrap();
    let mut image = vec![0xAAu8; 0x100];
    image[0] = 0x31;
    image[0xFF] = 0x50;
    assert!(m.read_boot_rom(&vec![0u8; 0xFF]).is_err());
    assert!(!m.boot_rom_mapped());
    assert!(m.read_boot_rom(&image).is_ok());
    assert!(m.boot_rom_mapped());
    assert_eq!(m.read_byte(0x0000), 0x31);
    assert_eq!(m.read_byte(0x00FF), 0x50);
    assert_eq!(m.read_byte(0x0100), 0x00);
    assert_eq!(m.read_byte(0x0147), 0x00);
    m.hide_boot_rom();
    assert_eq!(m.read_byte(0x0000), 0x00);
    assert_eq!(m.read_byte(0x00FF), 0x00);
}

#[test]
fn boot_rom_is_unmapped_through_the_bus_for_good() {
    let mut bus = MemoryBus::new();
    bus.read_rom(rom_of(2, 0x00)).unwrap();
    bus.read_boot_rom(&vec![0x77u8; 0x100]).unwrap();
    assert_eq!(bus.read_byte(0x0000), 0x77);
    assert_eq!(bus.read_byte(0xFF50), 0);
    bus.write_byte(0xFF50, 0);
    assert_eq!(bus.read_byte(0x0000), 0x77);
    bus.write_byte(0xFF50, 1);
    assert_eq!(bus.read_byte(0x0000), 0x00);
    assert_eq!(bus.read_byte(0xFF50), 1);
    bus.write_byte(0xFF50, 0);
    assert_eq!(bus.read_byte(0x0000), 0x00);
}

#[test]
fn echo_ram_mirrors_work_ram() {
    let mut bus = MemoryBus::new();
    bus.write_byte(0xC123, 0x42);
    assert_eq!(bus.read_byte(0xE123), 0x42);
    bus.write_byte(0xFDFF, 0x24);
    assert_eq!(bus.read_byte(0xDDFF), 0x24);
    assert_eq!(bus.read_byte(0xFDFF), 0x24);
}

#[test]
fn unimplemented_ranges_answer_with_fixed_values() {
    let mut bus = MemoryBus::new();
    bus.write_byte(0xFEA0, 0x12);
    bus.write_byte(0xFF10, 0x12);
    bus.write_byte(0xFF27, 0x12);
    bus.write_byte(0xFF7F, 0x12);
    assert_eq!(bus.read_byte(0xFEA0), 0);
    assert_eq!(bus.read_byte(0xFEFF), 0);
    assert_eq!(bus.read_byte(0xFF03), 0);
    assert_eq!(bus.read_byte(0xFF10), 0);
    assert_eq!(bus.read_byte(0xFF26), 0);
    assert_eq!(bus.read_byte(0xFF27), 0xFF);
    assert_eq!(bus.read_byte(0xFF2F), 0xFF);
    assert_eq!(bus.read_byte(0xFF30), 0);
    assert_eq!(bus.read_byte(0xFF4C), 0);
    assert_eq!(bus.read_byte(0xFF7F), 0);
}

#[test]
fn interrupt_registers_on_the_bus() {
    let mut bus = MemoryBus::new();
    bus.write_byte(0xFFFF, 0x1F);
    bus.write_byte(0xFF0F, 0xE5);
    assert_eq!(bus.read_byte(0xFFFF), 0x1F);
    assert_eq!(bus.read_byte(0xFF0F), 0x05);
    assert!(bus.interrupt_flag.vblank);
    assert!(bus.interrupt_flag.timer);
    assert!(!bus.interrupt_flag.lcd_stat);
}

#[test]
fn serial_bytes_are_queued_for_the_caller() {
    let mut bus = MemoryBus::new();
    bus.write_byte(0xFF01, b'O');
    assert_eq!(bus.read_byte(0xFF01), b'O');
    bus.write_byte(0xFF02, 0x81);
    assert_eq!(bus.read_byte(0xFF02), 0);
    bus.write_byte(0xFF01, b'K');
    bus.write_byte(0xFF02, 0x81);
    assert_eq!(bus.take_serial_output(), vec![b'O', b'K']);
    assert_eq!(bus.take_serial_output(), Vec::<u8>::new());
}

#[test]
fn dma_copies_160_bytes_into_object_memory() {
    let mut bus = MemoryBus::new();
    let mut i: u16 = 0;
    while i < 0x100 {
        bus.write_byte(0xC100 + i, i as u8 ^ 0x5A);
        i += 1;
    }
    bus.write_byte(0xFF46, 0xC1);
    assert_eq!(bus.read_byte(0xFF46), 0xC1);
    let mut i: u16 = 0;
    while i < 0xA0 {
        assert_eq!(bus.read_byte(0xFE00 + i), i as u8 ^ 0x5A);
        i += 1;
    }
    let obj = bus.gpu.object(1);
    assert_eq!(obj.y, (4 ^ 0x5A) as i16 - 16);
    assert_eq!(obj.x, (5 ^ 0x5A) as i16 - 8);
    assert_eq!(obj.tile, 6 ^ 0x5A);
    let last = bus.gpu.object(39);
    assert_eq!(last.tile, 158 ^ 0x5A);
}
