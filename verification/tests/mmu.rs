use gameboy::mmu::{LoadError, Memory};

fn make_rom(ctrl: u8, rom_code: u8, ram_code: u8, len: usize) -> Vec<u8> {
    let mut rom = vec![0u8; len];
    rom[0x0147] = ctrl;
    rom[0x0148] = rom_code;
    rom[0x0149] = ram_code;
    rom
}

#[test]
fn load_rejects_short_image() {
    assert_eq!(Memory::new(vec![0u8; 0x100]).err(), Some(LoadError::ImageTooShort));
}

#[test]
fn load_rejects_unknown_controller() {
    let rom = make_rom(0x20, 0, 0, 0x8000);
    assert_eq!(Memory::new(rom).err(), Some(LoadError::UnsupportedController(0x20)));
}

#[test]
fn load_rejects_bad_size_codes() {
    let rom = make_rom(0x01, 9, 0, 0x8000);
    assert_eq!(Memory::new(rom).err(), Some(LoadError::UnsupportedRomSize(9)));
    let rom = make_rom(0x01, 2, 6, 0x8000);
    assert_eq!(Memory::new(rom).err(), Some(LoadError::UnsupportedRamSize(6)));
}

#[test]
fn load_accepts_plain_and_banked_controllers() {
    assert!(Memory::new(make_rom(0x00, 0, 0, 0x8000)).is_ok());
    assert!(Memory::new(make_rom(0x03, 1, 2, 0x8000)).is_ok());
    assert!(Memory::new(make_rom(0x10, 1, 2, 0x8000)).is_ok());
    assert!(Memory::new(make_rom(0x1B, 1, 2, 0x8000)).is_ok());
}

#[test]
fn ram_enable_round_trip_mbc1() {
    let mut m = Memory::new(make_rom(0x01, 0, 2, 0x8000)).unwrap();
    // Disabled: the sentinel comes back and writes are swallowed.
    assert_eq!(m.rb(0xA000), 0xFF);
    m.wb(0xA000, 0x42);
    assert_eq!(m.rb(0xA000), 0xFF);
    // Write the enable value into the enable range, then write and read.
    m.wb(0x0000, 0x0A);
    m.wb(0xA000, 0x42);
    assert_eq!(m.rb(0xA000), 0x42);
    // Disabling again hides the contents behind the sentinel.
    m.wb(0x0000, 0x00);
    assert_eq!(m.rb(0xA000), 0xFF);
}

#[test]
fn ram_enable_round_trip_mbc3_and_mbc5() {
    let mut m = Memory::new(make_rom(0x13, 0, 2, 0x8000)).unwrap();
    m.wb(0xA123, 0x55);
    assert_eq!(m.rb(0xA123), 0xFF);
    m.wb(0x1FFF, 0x0A);
    m.wb(0xA123, 0x55);
    assert_eq!(m.rb(0xA123), 0x55);

    let mut m = Memory::new(make_rom(0x19, 0, 2, 0x8000)).unwrap();
    m.wb(0x0000, 0x0A);
    m.wb(0xBFFF, 0x77);
    assert_eq!(m.rb(0xBFFF), 0x77);
}

#[test]
fn rom_banking_switches_the_upper_window() {
    // Four banks of 16 KiB, a marker at the start of each.
    let mut rom = make_rom(0x01, 2, 0, 0x10000);
    rom[0x0000] = 0xA0;
    rom[0x4000] = 0xA1;
    rom[0x8000] = 0xA2;
    rom[0xC000] = 0xA3;
    let mut m = Memory::new(rom).unwrap();
    assert_eq!(m.rb(0x0000), 0xA0);
    assert_eq!(m.rb(0x4000), 0xA1); // bank 1 after power-on
    m.wb(0x2000, 2);
    assert_eq!(m.rb(0x4000), 0xA2);
    m.wb(0x2000, 3);
    assert_eq!(m.rb(0x4000), 0xA3);
    // A zero selection means bank one.
    m.wb(0x2000, 0);
    assert_eq!(m.rb(0x4000), 0xA1);
    // ROM contents never move: the writes above changed no byte.
    assert_eq!(m.rb(0x0000), 0xA0);
}

#[test]
fn echo_region_aliases_working_ram() {
    let mut m = Memory::new(make_rom(0x00, 0, 0, 0x8000)).unwrap();
    m.wb(0xC123, 0x5A);
    assert_eq!(m.rb(0xE123), 0x5A);
    m.wb(0xE200, 0x77);
    assert_eq!(m.rb(0xC200), 0x77);
}

#[test]
fn unmapped_addresses_read_the_sentinel() {
    let m = Memory::new(make_rom(0x00, 0, 0, 0x8000)).unwrap();
    assert_eq!(m.rb(0xFEA5), 0xFF);
    assert_eq!(m.rb(0xFF7F), 0xFF);
}

#[test]
fn video_and_high_ram_round_trip() {
    let mut m = Memory::new(make_rom(0x00, 0, 0, 0x8000)).unwrap();
    m.wb(0x8000, 0x11);
    assert_eq!(m.rb(0x8000), 0x11);
    m.wb(0x9FFF, 0x22);
    assert_eq!(m.rb(0x9FFF), 0x22);
    m.wb(0xFE00, 0x33);
    assert_eq!(m.rb(0xFE00), 0x33);
    m.wb(0xFF80, 0x44);
    assert_eq!(m.rb(0xFF80), 0x44);
    m.wb(0xFFFE, 0x55);
    assert_eq!(m.rb(0xFFFE), 0x55);
    m.wb(0xFFFF, 0x1F);
    assert_eq!(m.rb(0xFFFF), 0x1F);
    m.wb(0xFF0F, 0x04);
    assert_eq!(m.rb(0xFF0F), 0x04);
}

#[test]
fn sixteen_bit_access_is_little_endian() {
    let mut m = Memory::new(make_rom(0x00, 0, 0, 0x8000)).unwrap();
    m.ww(0xC000, 0xBEEF);
    assert_eq!(m.rb(0xC000), 0xEF);
    assert_eq!(m.rb(0xC001), 0xBE);
    assert_eq!(m.rw(0xC000), 0xBEEF);
}

#[test]
fn dma_copies_a_block_into_object_memory() {
    let mut m = Memory::new(make_rom(0x00, 0, 0, 0x8000)).unwrap();
    for i in 0..0xA0u16 {
        m.wb(0xC000 + i, i as u8);
    }
    m.wb(0xFF46, 0xC0);
    for i in 0..0xA0u16 {
        assert_eq!(m.rb(0xFE00 + i), i as u8);
    }
    assert_eq!(m.rb(0xFF46), 0xC0);
}

#[test]
fn timer_registers_live_on_the_bus() {
    let mut m = Memory::new(make_rom(0x00, 0, 0, 0x8000)).unwrap();
    m.wb(0xFF07, 0x05);
    m.wb(0xFF05, 0xFF);
    m.wb(0xFF06, 0x21);
    m.advance(16);
    // The counter overflowed: the timer request bit is up.
    assert_eq!(m.rb(0xFF05), 0);
    assert!(m.rb(0xFF0F) & 0x04 != 0);
    m.advance(1);
    assert_eq!(m.rb(0xFF05), 0x21);
    // Writing the divider resets it.
    m.wb(0xFF04, 0x55);
    assert_eq!(m.rb(0xFF04), 0);
}

#[test]
fn vblank_request_reaches_the_request_mask() {
    let mut m = Memory::new(make_rom(0x00, 0, 0, 0x8000)).unwrap();
    m.advance(144 * 456);
    assert!(m.rb(0xFF0F) & 0x01 != 0);
    assert_eq!(m.rb(0xFF44), 144);
}

#[test]
fn mbc1_advanced_mode_switches_ram_banks() {
    // 32 KiB of cartridge RAM: four banks.
    let mut m = Memory::new(make_rom(0x03, 0, 3, 0x8000)).unwrap();
    m.wb(0x0000, 0x0A); // enable RAM
    m.wb(0x6000, 0x01); // advanced banking mode
    m.wb(0x4000, 0x01); // RAM bank one
    m.wb(0xA000, 0x66);
    assert_eq!(m.rb(0xA000), 0x66);
    // Back in simple mode the window shows bank zero, which is untouched.
    m.wb(0x6000, 0x00);
    assert_eq!(m.rb(0xA000), 0x00);
    m.wb(0x6000, 0x01);
    assert_eq!(m.rb(0xA000), 0x66);
}
