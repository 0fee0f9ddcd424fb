use nestadia::cartridge::mapper_001::Mapper001;
use nestadia::cartridge::mapper_004::Mapper004;
use nestadia::bus::{CpuBus, PpuBus};
use nestadia::cartridge::{Cartridge, CartridgeReadTarget, Mirroring, RomParserError};
use nestadia::Emulator;

fn nrom(vertical: bool) -> Vec<u8> {
    let mut rom = vec![0u8; 16 + 16384 + 8192];
    rom[0..4].copy_from_slice(&[0x4E, 0x45, 0x53, 0x1A]);
    rom[4] = 1;
    rom[5] = 1;
    rom[6] = if vertical { 1 } else { 0 };
    rom
}

#[test]
fn ram_is_mirrored_every_2k() {
    let mut bus = CpuBus::new(Cartridge::load(&nrom(false), None).unwrap());
    bus.write(0x0123, 0x42);
    assert_eq!(bus.read(0x0923), 0x42);
    assert_eq!(bus.read(0x1123), 0x42);
    assert_eq!(bus.read(0x1923), 0x42);
}

#[test]
fn controller_reads_bit_0_then_zeros() {
    let mut bus = CpuBus::new(Cartridge::load(&nrom(false), None).unwrap());
    bus.set_controller1(0b1010_0001);
    bus.write(0x4016, 1);
    let bits: Vec<u8> = (0..8).map(|_| bus.read(0x4016)).collect();
    assert_eq!(bits, vec![1, 0, 0, 0, 0, 0, 0, 0]);
    bus.set_controller1(0b1010_0000);
    bus.write(0x4016, 1);
    assert_eq!(bus.read(0x4016), 0);
}

#[test]
fn oam_dma_copies_a_page() {
    let mut bus = CpuBus::new(Cartridge::load(&nrom(false), None).unwrap());
    for i in 0..256u16 {
        bus.write(0x0200 + i, i as u8);
    }
    bus.write(0x2003, 0x00);
    bus.write(0x4014, 0x02);
    bus.write(0x2003, 0x05);
    assert_eq!(bus.read(0x2004), 5);
}

#[test]
fn four_screen_and_vertical_name_tables() {
    let mut rom = nrom(false);
    rom[6] = 0x08;
    let cart = Cartridge::load(&rom, None).unwrap();
    assert!(matches!(cart.mirroring(), Mirroring::FourScreen));
    let mut bus = PpuBus::new(cart);
    bus.write_name_tables(0x2C05, 7);
    assert_eq!(bus.read_name_tables(0x2C05), 7);
    assert_eq!(bus.read_name_tables(0x2405), 0);

    let mut bus = PpuBus::new(Cartridge::load(&nrom(true), None).unwrap());
    bus.write_name_tables(0x2405, 9);
    assert_eq!(bus.read_name_tables(0x2C05), 9);
    assert_eq!(bus.read_name_tables(0x2005), 0);
}

#[test]
fn loading_errors() {
    let mut bad = nrom(false);
    bad[0] = 0x00;
    assert_eq!(Cartridge::load(&bad, None).err(), Some(RomParserError::InvalidMagicBytes));
    assert_eq!(Cartridge::load(&[0x4E, 0x45], None).err(), Some(RomParserError::TooShort));
    let mut short = nrom(false);
    short.truncate(16 + 100);
    assert_eq!(Cartridge::load(&short, None).err(), Some(RomParserError::TooShort));
    let mut unknown = nrom(false);
    unknown[6] = 0x50;
    assert_eq!(
        Cartridge::load(&unknown, None).err(),
        Some(RomParserError::MapperNotImplemented)
    );
    assert!(matches!(Emulator::new(&bad, None), Err(RomParserError::InvalidMagicBytes)));
}

#[test]
fn chr_ram_when_no_chr_rom() {
    // UxROM with no CHR ROM gets 8 KiB of CHR RAM.
    let mut rom = nrom(false);
    rom[5] = 0;
    rom[6] = 0x20;
    rom.truncate(16 + 16384);
    let mut bus = PpuBus::new(Cartridge::load(&rom, None).unwrap());
    bus.write_chr_mem(0x0123, 0x5A);
    assert_eq!(bus.read_chr_mem(0x0123), 0x5A);
    // NROM refuses pattern writes.
    let mut bus = PpuBus::new(Cartridge::load(&nrom(false), None).unwrap());
    bus.write_chr_mem(0x0123, 0x5A);
    assert_eq!(bus.read_chr_mem(0x0123), 0);
}

#[test]
fn save_data_round_trip() {
    // MMC1 with battery RAM.
    let mut rom = vec![0u8; 16 + 2 * 16384 + 8192];
    rom[0..4].copy_from_slice(&[0x4E, 0x45, 0x53, 0x1A]);
    rom[4] = 2;
    rom[5] = 1;
    rom[6] = 0x12;
    let save = vec![1u8, 2, 3, 4];
    let emu = Emulator::new(&rom, Some(&save)).unwrap();
    let data = emu.get_save_data().unwrap();
    assert_eq!(&data[..4], &save[..]);
    let nrom_emu = Emulator::new(&nrom(false), None).unwrap();
    assert!(nrom_emu.get_save_data().is_none());
}

#[test]
fn uxrom_keeps_last_bank_fixed() {
    let mut rom = vec![0u8; 16 + 4 * 16384];
    rom[0..4].copy_from_slice(&[0x4E, 0x45, 0x53, 0x1A]);
    rom[4] = 4;
    rom[6] = 0x20;
    for bank in 0..4 {
        rom[16 + bank * 16384] = bank as u8 + 1;
    }
    let mut cart = Cartridge::load(&rom, None).unwrap();
    assert_eq!(cart.read_prg_mem(0xC000), 4);
    cart.write_prg_mem(0x8000, 2);
    assert_eq!(cart.read_prg_mem(0x8000), 3);
    assert_eq!(cart.read_prg_mem(0xC000), 4);
    assert_eq!(cart.get_prg_bank(0x8000), Some(2));
}

#[test]
fn mmc1_serial_writes_select_prg_bank() {
    let mut m = Mapper001::new(8);
    // Power-on: 16 KiB mode with the last bank fixed at $C000.
    assert_eq!(m.get_prg_bank(0x8000), Some(0));
    assert_eq!(m.get_prg_bank(0xC000), Some(7));
    // Five writes of 5 = 0b00101, lowest bit first, to $E000 (PRG bank register).
    for bit in [1u8, 0, 1, 0, 0] {
        m.cpu_map_write(0xE000, bit);
    }
    assert_eq!(m.get_prg_bank(0x8000), Some(5));
    assert_eq!(m.get_prg_bank(0xC000), Some(7));
    // A write with bit 7 set empties the shift register.
    m.cpu_map_write(0xE000, 1);
    m.cpu_map_write(0xE000, 0x80);
    for bit in [0u8, 1, 0, 0, 0] {
        m.cpu_map_write(0xE000, bit);
    }
    assert_eq!(m.get_prg_bank(0x8000), Some(2));
}

#[test]
fn mmc3_irq_on_scanline_after_latch() {
    let mut m = Mapper004::new(4, Mirroring::Vertical);
    m.cpu_map_write(0xC000, 3); // latch
    m.cpu_map_write(0xC001, 0); // reload
    m.cpu_map_write(0xE001, 0); // enable
    for line in 1..=4 {
        m.ppu_map_read(0x0000);
        m.ppu_map_read(0x1000);
        assert_eq!(m.irq_state(), line == 4, "scanline {}", line);
    }
    // Disabling acknowledges the IRQ.
    m.cpu_map_write(0xE000, 0);
    assert!(!m.irq_state());
}

#[test]
fn mmc1_low_reads_follow_prg_mode() {
    let mut m = Mapper001::new(4);
    // Power-on: a 16 KiB mode, where $4020-$5FFF has no bank.
    assert!(matches!(m.cpu_map_read(0x5000), CartridgeReadTarget::PrgRam(0)));
    // Control = 0: the 32 KiB mode, which folds every address onto the bank.
    for _ in 0..5 {
        m.cpu_map_write(0x8000, 0);
    }
    assert!(matches!(m.cpu_map_read(0x5000), CartridgeReadTarget::PrgRom(0x5000)));
    assert!(matches!(m.cpu_map_read(0x8123), CartridgeReadTarget::PrgRom(0x0123)));
}
