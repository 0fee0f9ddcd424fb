use nestadia::bus::PpuBus;
use nestadia::cartridge::{Cartridge, Mirroring};
use nestadia::ppu::registers::STATUS_VBLANK_STARTED;
use nestadia::ppu::Ppu;

/// A mapper-0 image with one PRG bank and one CHR bank; `vertical` selects the
/// nametable mirroring bit of flags 6.
fn rom(vertical: bool) -> Vec<u8> {
    let mut rom = vec![0u8; 16 + 16384 + 8192];
    rom[0] = 0x4E;
    rom[1] = 0x45;
    rom[2] = 0x53;
    rom[3] = 0x1A;
    rom[4] = 1;
    rom[5] = 1;
    rom[6] = if vertical { 0x01 } else { 0x00 };
    rom
}

struct MockEmulator {
    ppu: Ppu,
    bus: PpuBus,
}

fn mock_emu(rom: &[u8]) -> MockEmulator {
    MockEmulator {
        ppu: Ppu::default(),
        bus: PpuBus::new(Cartridge::load(rom, None).unwrap()),
    }
}

fn mock_emu_horizontal() -> MockEmulator {
    mock_emu(&rom(false))
}

fn mock_emu_vertical() -> MockEmulator {
    mock_emu(&rom(true))
}

#[test]
fn mod_name_tables_writes() {
    let mut emu = mock_emu_horizontal();
    let bus = &mut emu.bus;

    emu.ppu.write(bus, 0x2006, 0x23);
    emu.ppu.write(bus, 0x2006, 0x05);
    emu.ppu.write(bus, 0x2007, 0x66);

    assert_eq!(emu.bus.vram(0x0305), 0x66);
}

#[test]
fn mod_name_tables_reads() {
    let mut emu = mock_emu_horizontal();
    emu.bus.set_vram(0x0305, 0x66);
    let bus = &mut emu.bus;

    emu.ppu.write(bus, 0x2000, 0b0);

    emu.ppu.write(bus, 0x2006, 0x23);
    emu.ppu.write(bus, 0x2006, 0x05);

    assert_ne!(emu.ppu.read(bus, 0x2007), 0x66); // dummy read, returns last data loaded on the bus
    assert_eq!(emu.ppu.vram_addr().get(), 0x2306); // address is incremented
    assert_eq!(emu.ppu.read(bus, 0x2007), 0x66);
}

#[test]
fn mod_name_tables_reads_cross_page() {
    let mut emu = mock_emu_horizontal();
    emu.bus.set_vram(0x01FF, 0x66);
    emu.bus.set_vram(0x0200, 0x77);
    let bus = &mut emu.bus;

    emu.ppu.write(bus, 0x2000, 0b0);

    emu.ppu.write(bus, 0x2006, 0x21);
    emu.ppu.write(bus, 0x2006, 0xFF);

    emu.ppu.read(bus, 0x2007);
    assert_eq!(emu.ppu.read(bus, 0x2007), 0x66);
    assert_eq!(emu.ppu.read(bus, 0x2007), 0x77);
}

#[test]
fn mod_name_tables_reads_step_32() {
    let mut emu = mock_emu_horizontal();
    emu.bus.set_vram(0x01FF, 0x66);
    emu.bus.set_vram(0x01FF + 32, 0x77);
    emu.bus.set_vram(0x01FF + 64, 0x88);
    let bus = &mut emu.bus;

    emu.ppu.write(bus, 0x2000, 0b100);

    emu.ppu.write(bus, 0x2006, 0x21);
    emu.ppu.write(bus, 0x2006, 0xFF);

    emu.ppu.read(bus, 0x2007);
    assert_eq!(emu.ppu.read(bus, 0x2007), 0x66);
    assert_eq!(emu.ppu.read(bus, 0x2007), 0x77);
    assert_eq!(emu.ppu.read(bus, 0x2007), 0x88);
}

// Horizontal
// [0x2000 A ] [0x2400 a ]
// [0x2800 B ] [0x2C00 b ]
#[test]
fn mod_name_tables_horizontal_mirror() {
    let mut emu = mock_emu_horizontal();
    assert!(matches!(emu.bus.cartridge().mirroring(), Mirroring::Horizontal));
    let bus = &mut emu.bus;

    // a
    emu.ppu.write(bus, 0x2006, 0x24);
    emu.ppu.write(bus, 0x2006, 0x05);
    emu.ppu.write(bus, 0x2007, 0x66);

    // B
    emu.ppu.write(bus, 0x2006, 0x28);
    emu.ppu.write(bus, 0x2006, 0x05);
    emu.ppu.write(bus, 0x2007, 0x77);

    // A
    emu.ppu.write(bus, 0x2006, 0x20);
    emu.ppu.write(bus, 0x2006, 0x05);
    emu.ppu.read(bus, 0x2007);
    assert_eq!(emu.ppu.read(bus, 0x2007), 0x66);

    // b
    emu.ppu.write(bus, 0x2006, 0x2C);
    emu.ppu.write(bus, 0x2006, 0x05);
    emu.ppu.read(bus, 0x2007);
    assert_eq!(emu.ppu.read(bus, 0x2007), 0x77);
}

// Vertical
// [0x2000 A ] [0x2400 B ]
// [0x2800 a ] [0x2C00 b ]
#[test]
fn mod_name_tables_vertical_mirror() {
    let mut emu = mock_emu_vertical();
    assert!(matches!(emu.bus.cartridge().mirroring(), Mirroring::Vertical));
    let bus = &mut emu.bus;

    // A
    emu.ppu.write(bus, 0x2006, 0x20);
    emu.ppu.write(bus, 0x2006, 0x05);
    emu.ppu.write(bus, 0x2007, 0x66);

    // b
    emu.ppu.write(bus, 0x2006, 0x2C);
    emu.ppu.write(bus, 0x2006, 0x05);
    emu.ppu.write(bus, 0x2007, 0x77);

    // a
    emu.ppu.write(bus, 0x2006, 0x28);
    emu.ppu.write(bus, 0x2006, 0x05);
    emu.ppu.read(bus, 0x2007);
    assert_eq!(emu.ppu.read(bus, 0x2007), 0x66);

    // B
    emu.ppu.write(bus, 0x2006, 0x24);
    emu.ppu.write(bus, 0x2006, 0x05);
    emu.ppu.read(bus, 0x2007);
    assert_eq!(emu.ppu.read(bus, 0x2007), 0x77);
}

#[test]
fn mod_name_tables_mirroring() {
    let mut emu = mock_emu_horizontal();
    emu.bus.set_vram(0x0305, 0x66);
    let bus = &mut emu.bus;

    emu.ppu.write(bus, 0x2000, 0b0);

    emu.ppu.write(bus, 0x2006, 0x63); // 0x6305 -> 0x2305
    emu.ppu.write(bus, 0x2006, 0x05);

    emu.ppu.read(bus, 0x2007);
    assert_eq!(emu.ppu.read(bus, 0x2007), 0x66);
}

#[test]
fn mod_read_status_resets_latch() {
    let mut emu = mock_emu_vertical();
    emu.bus.set_vram(0x0305, 0x66);
    let bus = &mut emu.bus;

    emu.ppu.write(bus, 0x2006, 0x21);
    emu.ppu.write(bus, 0x2006, 0x23);
    emu.ppu.write(bus, 0x2006, 0x05);

    emu.ppu.read(bus, 0x2007);
    assert_ne!(emu.ppu.read(bus, 0x2007), 0x66);

    emu.ppu.read(bus, 0x2002);

    emu.ppu.write(bus, 0x2006, 0x23);
    emu.ppu.write(bus, 0x2006, 0x05);

    emu.ppu.read(bus, 0x2007);
    assert_eq!(emu.ppu.read(bus, 0x2007), 0x66);
}

#[test]
fn mod_read_status_resets_vblank() {
    let mut emu = mock_emu_horizontal();
    let mut status = emu.ppu.status_reg();
    status.set(STATUS_VBLANK_STARTED, true);
    emu.ppu.set_status_reg(status);
    let bus = &mut emu.bus;

    assert_eq!(emu.ppu.read(bus, 0x2002) >> 7, 1);
    assert_eq!(emu.ppu.status_reg().read() >> 7, 0);
}

#[test]
fn mod_oam_read_write() {
    let mut emu = mock_emu_horizontal();
    let bus = &mut emu.bus;

    emu.ppu.write(bus, 0x2003, 0x10);
    emu.ppu.write(bus, 0x2004, 0x66);
    emu.ppu.write(bus, 0x2004, 0x77);

    emu.ppu.write(bus, 0x2003, 0x10);
    assert_eq!(emu.ppu.read(bus, 0x2004), 0x66);

    emu.ppu.write(bus, 0x2003, 0x11);
    assert_eq!(emu.ppu.read(bus, 0x2004), 0x77);
}

#[test]
fn mod_oam_dma() {
    let mut emu = mock_emu_horizontal();
    let bus = &mut emu.bus;

    let mut data = [0x66; 256];
    data[0] = 0x77;
    data[255] = 0x88;

    emu.ppu.write(bus, 0x2003, 0x10);
    emu.ppu.write_oam_dma(&data);

    assert_eq!(emu.ppu.read(bus, 0x2004), 0x77);
    emu.ppu.write(bus, 0x2003, 0x0F); // "wrap around"
    assert_eq!(emu.ppu.read(bus, 0x2004), 0x88);
}
