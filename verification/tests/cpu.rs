use nestadia::bus::CpuBus;
use nestadia::cartridge::Cartridge;
use nestadia::cpu::Cpu;

struct MockEmulator {
    cpu: Cpu,
    bus: CpuBus,
}

/// A 64 KiB mapper-3 image with `prgm` at `$4020` and the reset vector pointing there.
fn mock_emu(prgm: &[u8]) -> MockEmulator {
    let mut rom = vec![0x00; 65552];

    // Dummy header
    rom[0x0000] = 0x4E;
    rom[0x0001] = 0x45;
    rom[0x0002] = 0x53;
    rom[0x0003] = 0x1A;
    rom[0x0004] = 0x04;
    rom[0x0005] = 0x00;
    rom[0x0006] = 0x31;

    // Test program
    for (i, opcode) in prgm.iter().enumerate() {
        rom[i + 16 + 0x4020] = *opcode;
    }

    // Write PC start to point on $4020
    rom[16 + 0x7FFC] = 0x20;
    rom[16 + 0x7FFD] = 0x40;

    let mut emu = MockEmulator {
        cpu: Default::default(),
        bus: CpuBus::new(Cartridge::load(&rom, None).unwrap()),
    };

    emu.cpu.reset(&mut emu.bus);

    emu
}

/// Executes `n` instructions (the first call finishes the reset sequence).
fn execute_n(emu: &mut MockEmulator, n: usize) {
    for _ in 0..n {
        loop {
            emu.cpu.clock(&mut emu.bus);
            if emu.cpu.cycles == 0 {
                break;
            }
        }
    }
}

#[test]
fn test_0xa9_lda_immediate_load_data() {
    let mut emu = mock_emu(&[0xA9, 0x05]);
    execute_n(&mut emu, 2);
    assert_eq!(emu.cpu.a, 5);
    assert!(emu.cpu.status_register.bits & 0b0000_0010 == 0);
    assert!(emu.cpu.status_register.bits & 0b1000_0000 == 0);
}

#[test]
fn test_0xaa_tax_move_a_to_x() {
    let mut emu = mock_emu(&[0xAA]);
    emu.cpu.a = 10;
    execute_n(&mut emu, 2);
    assert_eq!(emu.cpu.x, 10)
}

#[test]
fn test_5_ops_working_together() {
    let mut emu = mock_emu(&[0xA9, 0xC0, 0xAA, 0xE8]);
    execute_n(&mut emu, 5);
    assert_eq!(emu.cpu.x, 0xC1);
}

#[test]
fn inx_overflow() {
    let mut emu = mock_emu(&[0xE8, 0xE8]);
    emu.cpu.x = 0xFF;
    execute_n(&mut emu, 3);
    assert_eq!(emu.cpu.x, 1)
}

#[test]
fn lda_from_memory() {
    let mut emu = mock_emu(&[0xA5, 0x10]);
    emu.bus.write(0x10, 0x55);
    execute_n(&mut emu, 2);
    assert_eq!(emu.cpu.a, 0x55);
}
