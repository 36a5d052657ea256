use ironboy::bus::Bus;
use ironboy::cartridge::header::Header;
use ironboy::cartridge::{header_checksum, Cartridge};
use ironboy::memory::MemoryInterface;
use ironboy::mmu::{Memory, Mmu};
use ironboy::system_bus::SystemBus;
use ironboy::GbMode;

#[test]
fn mmu_test_mem_read_write() {
    let mut bus = Mmu::new();
    bus.mem_write(0x01, 0x55);
    assert_eq!(bus.mem_read(0x01), 0x55);
}

#[test]
fn bus_test_mem_read_write() {
    // let mut bus = Bus::new(Cartridge::default());
    // bus.mem_write(0x01, 0x55);
    // assert_eq!(bus.mem_read(0x01), 0x55);
}

#[test]
fn mmu_interrupt_registers_and_words() {
    let mut mmu = Mmu::new();
    mmu.mem_write(0xFF0F, 0x1F);
    mmu.mem_write(0xFFFF, 0x05);
    assert_eq!(mmu.mem_read(0xFF0F), 0x1F);
    assert_eq!(mmu.mem_read(0xFFFF), 0x05);
    assert_eq!(mmu.interrupt_flag, 0x1F);
    assert_eq!(mmu.interrupt_enable, 0x05);
    mmu.mem_write_16(0xC000, 0xBEEF);
    assert_eq!(mmu.mem_read(0xC000), 0xEF);
    assert_eq!(mmu.mem_read(0xC001), 0xBE);
    assert_eq!(mmu.mem_read_16(0xC000), 0xBEEF);
    assert_eq!(mmu.mem_read(0xC002), 0x00);
}

#[test]
fn bus_echo_ram_mirrors_work_ram() {
    let mut bus = Bus::new(Cartridge::default());
    bus.mem_write(0xC123, 0x42);
    assert_eq!(bus.mem_read(0xE123), 0x42);
    bus.mem_write(0xF010, 0x77);
    assert_eq!(bus.mem_read(0xD010), 0x77);
    bus.mem_write(0xFF80, 0x99);
    assert_eq!(bus.mem_read(0xFF80), 0x99);
    // The cartridge ignores writes.
    bus.mem_write(0x0100, 0x12);
    assert_eq!(bus.mem_read(0x0100), 0x00);
}

#[test]
fn bus_change_speed_only_when_requested() {
    let mut bus = Bus::new(Cartridge::default());
    bus.change_speed();
    assert!(matches!(bus.speed, ironboy::GbSpeed::Normal));
    bus.speed_change_requested = true;
    bus.change_speed();
    assert!(matches!(bus.speed, ironboy::GbSpeed::Double));
    assert!(!bus.speed_change_requested);
}

fn rom_with_header() -> Vec<u8> {
    let mut rom = vec![0u8; 0x8000];
    let title = b"TETRIS";
    for (i, b) in title.iter().enumerate() {
        rom[0x0134 + i] = *b;
    }
    rom[0x0143] = 0x00;
    rom[0x0147] = 0x03;
    rom[0x0148] = 0x01;
    rom[0x0149] = 0x03;
    rom[0x014E] = 0x12;
    rom[0x014F] = 0x34;
    rom
}

#[test]
fn header_load_reads_fields() {
    let rom = rom_with_header();
    let header = Header::load(&rom);
    assert_eq!(header.title(), "TETRIS\0\0\0\0\0\0\0\0\0\0");
    assert_eq!(header.cartridge_type, 0x03);
    assert_eq!(header.global_checksum, 0x1234);
    assert_eq!(header.rom_banks(), 4);
    assert_eq!(header.ram_banks(), 4);
    assert!(header.has_ram());
    assert!(header.has_battery());
    assert!(!header.has_real_time_clock());
    assert!(matches!(header.mode(), GbMode::Monochrome));
}

#[test]
fn header_invalid_title_is_no_name() {
    let mut rom = rom_with_header();
    rom[0x0134] = 0xFF;
    let header = Header::load(&rom);
    assert_eq!(header.title(), "NO NAME");
}

#[test]
fn header_color_mode_and_bank_counts() {
    let mut rom = rom_with_header();
    rom[0x0143] = 0xC0;
    rom[0x0148] = 0x08;
    rom[0x0149] = 0x05;
    rom[0x0147] = 0x10;
    let header = Header::load(&rom);
    assert!(matches!(header.mode(), GbMode::Color));
    assert_eq!(header.rom_banks(), 512);
    assert_eq!(header.ram_banks(), 8);
    assert!(header.has_real_time_clock());
    rom[0x0148] = 0x09;
    rom[0x0149] = 0x00;
    let header = Header::load(&rom);
    assert_eq!(header.rom_banks(), 0);
    assert_eq!(header.ram_banks(), 0);
    assert!(!Header::default().has_ram());
}

#[test]
fn cartridge_checksum() {
    let mut rom = vec![0u8; 0x0150];
    // 25 zero bytes: each step subtracts 1.
    assert_eq!(header_checksum(&rom), (256 - 25) as u8);
    rom[0x0134] = 0x10;
    assert_eq!(header_checksum(&rom), (256 - 25 - 0x10) as u8);
    rom[0x014D] = (256 - 25 - 0x10) as u8;
    let cartridge = Cartridge::load("game.gb", rom);
    assert!(cartridge.checksum_passed());
    assert_eq!(cartridge.rom_size, 0x0150);
    assert_eq!(cartridge.mem_read(0x0134), 0x10);
    assert_eq!(cartridge.filename, "game.gb");
}

#[test]
fn system_bus_registers_ram_and_cycles() {
    let mut bus = SystemBus::new(Bus::new(Cartridge::default()));
    bus.store_8(0xFF0F, 0x05, false);
    bus.store_8(0xFFFF, 0x04, true);
    assert_eq!(bus.load_8(0xFF0F, false), 0x05);
    assert_eq!(bus.pending_interrupt(), 0x04);
    bus.clear_interrupt(2);
    assert_eq!(bus.load_8(0xFF0F, false), 0x01);
    bus.store_8(0xC010, 0x42, true);
    assert_eq!(bus.load_8(0xE010, true), 0x42);
    // The cartridge ignores writes, and nothing serves video RAM here.
    bus.store_8(0x0100, 0x12, false);
    assert_eq!(bus.load_8(0x0100, false), 0x00);
    assert_eq!(bus.load_8(0x8000, false), 0xFF);
    bus.m_cycle();
    assert_eq!(bus.total_m_cycles(), 4);
    bus.change_speed();
    assert!(matches!(bus.speed(), ironboy::GbSpeed::Double));
}
