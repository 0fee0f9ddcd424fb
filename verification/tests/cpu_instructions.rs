use nestadia::bus::CpuBus;
use nestadia::cartridge::Cartridge;
use nestadia::cpu::opcode::{Instruction, Opcode};
use nestadia::cpu::{Cpu, FLAG_C, FLAG_I, FLAG_N, FLAG_V, FLAG_Z};

/// A 32 KiB NROM image with `prgm` at `$8000`, the reset vector pointing there, the IRQ
/// vector at `$9000` and the NMI vector at `$A000`.
fn machine(prgm: &[u8]) -> (Cpu, CpuBus) {
    let mut rom = vec![0u8; 16 + 32768 + 8192];
    rom[0..4].copy_from_slice(&[0x4E, 0x45, 0x53, 0x1A]);
    rom[4] = 2;
    rom[5] = 1;
    rom[16..16 + prgm.len()].copy_from_slice(prgm);
    // NMI vector $A000, reset vector $8000, IRQ vector $9000.
    rom[16 + 0x7FFA] = 0x00;
    rom[16 + 0x7FFB] = 0xA0;
    rom[16 + 0x7FFC] = 0x00;
    rom[16 + 0x7FFD] = 0x80;
    rom[16 + 0x7FFE] = 0x00;
    rom[16 + 0x7FFF] = 0x90;
    let mut bus = CpuBus::new(Cartridge::load(&rom, None).unwrap());
    let mut cpu = Cpu::default();
    cpu.reset(&mut bus);
    // Finish the reset sequence.
    while cpu.cycles != 0 {
        cpu.clock(&mut bus);
    }
    (cpu, bus)
}

/// Runs one instruction and returns how many clocks it took.
fn step(cpu: &mut Cpu, bus: &mut CpuBus) -> u32 {
    let mut clocks = 0;
    loop {
        cpu.clock(bus);
        clocks += 1;
        if cpu.cycles == 0 {
            return clocks;
        }
    }
}

#[test]
fn reset_loads_the_vector() {
    let (cpu, _) = machine(&[]);
    assert_eq!(cpu.pc, 0x8000);
    assert_eq!(cpu.st, 0xFD);
    assert_eq!(cpu.status_register.bits, 0x24);
}

#[test]
fn adc_sets_carry_and_overflow() {
    // LDA #$50; ADC #$50: 0x50 + 0x50 = 0xA0, signed overflow, no carry.
    let (mut cpu, mut bus) = machine(&[0xA9, 0x50, 0x69, 0x50, 0x69, 0x70]);
    step(&mut cpu, &mut bus);
    step(&mut cpu, &mut bus);
    assert_eq!(cpu.a, 0xA0);
    assert!(cpu.status_register.bits & FLAG_V != 0);
    assert!(cpu.status_register.bits & FLAG_C == 0);
    assert!(cpu.status_register.bits & FLAG_N != 0);
    // ADC #$70: 0xA0 + 0x70 = 0x110, carry out, no signed overflow.
    step(&mut cpu, &mut bus);
    assert_eq!(cpu.a, 0x10);
    assert!(cpu.status_register.bits & FLAG_C != 0);
    assert!(cpu.status_register.bits & FLAG_V == 0);
}

#[test]
fn sbc_borrows() {
    // SEC; LDA #$05; SBC #$06 -> 0xFF with borrow (C clear).
    let (mut cpu, mut bus) = machine(&[0x38, 0xA9, 0x05, 0xE9, 0x06]);
    step(&mut cpu, &mut bus);
    step(&mut cpu, &mut bus);
    step(&mut cpu, &mut bus);
    assert_eq!(cpu.a, 0xFF);
    assert!(cpu.status_register.bits & FLAG_C == 0);
    assert!(cpu.status_register.bits & FLAG_N != 0);
}

#[test]
fn cmp_sets_zero_and_carry() {
    // LDA #$42; CMP #$42
    let (mut cpu, mut bus) = machine(&[0xA9, 0x42, 0xC9, 0x42]);
    step(&mut cpu, &mut bus);
    step(&mut cpu, &mut bus);
    assert!(cpu.status_register.bits & FLAG_Z != 0);
    assert!(cpu.status_register.bits & FLAG_C != 0);
}

#[test]
fn jsr_and_rts_return_after_the_call() {
    // $8000: JSR $8010 ; $8003: NOP ... $8010: RTS
    let mut prgm = vec![0xEA; 0x20];
    prgm[0] = 0x20;
    prgm[1] = 0x10;
    prgm[2] = 0x80;
    prgm[0x10] = 0x60;
    let (mut cpu, mut bus) = machine(&prgm);
    assert_eq!(step(&mut cpu, &mut bus), 6);
    assert_eq!(cpu.pc, 0x8010);
    assert_eq!(cpu.st, 0xFB);
    step(&mut cpu, &mut bus);
    assert_eq!(cpu.pc, 0x8003);
    assert_eq!(cpu.st, 0xFD);
}

#[test]
fn pha_pla_round_trip() {
    // LDA #$99; PHA; LDA #$00; PLA
    let (mut cpu, mut bus) = machine(&[0xA9, 0x99, 0x48, 0xA9, 0x00, 0x68]);
    for _ in 0..4 {
        step(&mut cpu, &mut bus);
    }
    assert_eq!(cpu.a, 0x99);
    assert_eq!(cpu.st, 0xFD);
    assert_eq!(bus.read_ram(0x01FD), 0x99);
}

#[test]
fn taken_branch_costs_extra_cycles() {
    // CLC; BCC +2 (taken, same page) ; BCS +0 (not taken)
    let (mut cpu, mut bus) = machine(&[0x18, 0x90, 0x02, 0xEA, 0xEA, 0xB0, 0x00]);
    step(&mut cpu, &mut bus);
    assert_eq!(step(&mut cpu, &mut bus), 3);
    assert_eq!(cpu.pc, 0x8005);
    assert_eq!(step(&mut cpu, &mut bus), 2);
    assert_eq!(cpu.pc, 0x8007);
}

#[test]
fn page_crossing_read_costs_a_cycle() {
    // LDX #$01; LDA $80FF,X (crosses into $8100)
    let (mut cpu, mut bus) = machine(&[0xA2, 0x01, 0xBD, 0xFF, 0x80]);
    step(&mut cpu, &mut bus);
    assert_eq!(step(&mut cpu, &mut bus), 5);
}

#[test]
fn jmp_indirect_wraps_within_the_page() {
    // JMP ($02FF): low byte from $02FF, high byte from $0200.
    let (mut cpu, mut bus) = machine(&[0x6C, 0xFF, 0x02]);
    bus.write(0x02FF, 0x34);
    bus.write(0x0200, 0x12);
    bus.write(0x0300, 0x56);
    step(&mut cpu, &mut bus);
    assert_eq!(cpu.pc, 0x1234);
}

#[test]
fn unofficial_opcode_runs_as_nop() {
    let (mut cpu, mut bus) = machine(&[0x02, 0xEA]);
    assert_eq!(step(&mut cpu, &mut bus), 2);
    assert_eq!(cpu.pc, 0x8001);
}

#[test]
fn brk_and_rti() {
    // BRK at $8000; handler at $9000 is RTI.
    let mut prgm = vec![0xEA; 0x1010];
    prgm[0] = 0x00;
    prgm[0x1000] = 0x40;
    let (mut cpu, mut bus) = machine(&prgm);
    assert_eq!(step(&mut cpu, &mut bus), 7);
    assert_eq!(cpu.pc, 0x9000);
    assert!(cpu.status_register.bits & FLAG_I != 0);
    // Pushed P has B set.
    assert_eq!(bus.read_ram(0x01FB) & 0x10, 0x10);
    step(&mut cpu, &mut bus);
    assert_eq!(cpu.pc, 0x8002);
    assert_eq!(cpu.st, 0xFD);
}

#[test]
fn nmi_and_masked_irq() {
    let (mut cpu, mut bus) = machine(&[0xEA]);
    // I is set after reset: the IRQ is ignored.
    cpu.irq(&mut bus);
    assert_eq!(cpu.pc, 0x8000);
    cpu.nmi(&mut bus);
    assert_eq!(cpu.pc, 0xA000);
    assert_eq!(cpu.cycles, 8);
    assert_eq!(cpu.st, 0xFA);
}

#[test]
fn irq_when_enabled() {
    // CLI
    let (mut cpu, mut bus) = machine(&[0x58, 0xEA]);
    step(&mut cpu, &mut bus);
    cpu.irq(&mut bus);
    assert_eq!(cpu.pc, 0x9000);
    assert_eq!(cpu.cycles, 7);
    // Pushed P has B clear and U set.
    assert_eq!(bus.read_ram(0x01FB) & 0x30, 0x20);
}

#[test]
fn opcode_table_decodes() {
    let lda = Opcode::try_from(0xA9).unwrap();
    assert_eq!(lda.instruction, Instruction::Lda);
    assert_eq!(lda.cycles(), 2);
    assert!(Opcode::try_from(0x02).is_none());
    let mut official = 0;
    for b in 0..=255u8 {
        if Opcode::try_from(b).is_some() {
            official += 1;
        }
    }
    assert_eq!(official, 151);
}

#[test]
fn status_register_flags() {
    let mut p = nestadia::cpu::StatusRegister::empty();
    p.insert(FLAG_C | FLAG_N);
    assert!(p.contains(FLAG_C));
    p.remove(FLAG_C);
    assert!(!p.contains(FLAG_C));
    p.set(FLAG_V, true);
    assert_eq!(p.bits(), FLAG_N | FLAG_V);
}

#[test]
fn nmi_then_rti_resumes() {
    // SEC at $8000; the NMI handler at $A000 is RTI.
    let mut prgm = vec![0xEA; 0x2010];
    prgm[0] = 0x38;
    prgm[0x2000] = 0x40;
    let (mut cpu, mut bus) = machine(&prgm);
    step(&mut cpu, &mut bus);
    let (pc, st, p) = (cpu.pc, cpu.st, cpu.status_register.bits);
    cpu.nmi(&mut bus);
    assert_eq!(cpu.pc, 0xA000);
    assert!(cpu.status_register.bits & FLAG_I != 0);
    // Finish the interrupt sequence, then run the RTI.
    while cpu.cycles != 0 {
        cpu.clock(&mut bus);
    }
    step(&mut cpu, &mut bus);
    assert_eq!(cpu.pc, pc);
    assert_eq!(cpu.st, st);
    assert_eq!(cpu.status_register.bits, (p & !0x10) | 0x20);
    assert!(cpu.status_register.bits & FLAG_C != 0);
}
