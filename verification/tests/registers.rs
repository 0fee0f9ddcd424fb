use nestadia::ppu::registers::VramAddr;

#[test]
fn vram_addr_mirroring() {
    let mut reg = VramAddr::from_parts(0b1001_1110_1111_1111, true);
    reg.mirror();
    assert_eq!(reg.get(), 0b0001_1110_1111_1111);
}

#[test]
fn vram_addr_load() {
    let mut reg = VramAddr::default();
    reg.load(0xAC);
    assert_eq!(reg.get(), 0x2C00);
    reg.load(0x5F);
    assert_eq!(reg.get(), 0x2C5F);
    reg.load(0x06);
    assert_eq!(reg.get(), 0x065F);
    reg.load(0x00);
    assert_eq!(reg.get(), 0x0600);
}

#[test]
fn vram_addr_inc() {
    let mut reg = VramAddr::default();
    reg.load(0x3F);
    reg.load(0xFF);
    assert_eq!(reg.get(), 0x3FFF);
    reg.inc(0x01);
    assert_eq!(reg.get(), 0x0000);
    reg.inc(0x0F);
    assert_eq!(reg.get(), 0x000F);
}
