use nestadia::apu::common::{LengthCounter, SequenceMode, Timer};
use nestadia::apu::noise::NoiseChannel;
use nestadia::apu::pulse::PulseChannel;
use nestadia::apu::triangle::TriangleChannel;
use nestadia::cartridge::Cartridge;
use nestadia::cpu::disassembler::{disassemble, AddressingMode};
use nestadia::ppu::registers::{MaskReg, MASK_EMPHASISE_BLUE, MASK_EMPHASISE_GREEN, MASK_EMPHASISE_RED};
use nestadia::ppu::FRAME_SIZE;
use nestadia::{
    apply_emphasis, deemphasize_color, emphasize_color, frame_to_argb, frame_to_rgb,
    frame_to_rgba, Emulator, RGBA_FRAME_SIZE, RGB_FRAME_SIZE, RGB_PALETTE,
};

#[test]
fn emphasis_matches_the_float_formulas() {
    for c in 0..=255u8 {
        let de = (c as f32 * 0.85) as u8;
        assert_eq!(deemphasize_color(c), de, "deemphasize {}", c);
        let mut e = c as f32 * 1.1;
        if e > 255.0 {
            e = 255.0;
        }
        assert_eq!(emphasize_color(c), e as u8, "emphasize {}", c);
    }
    assert_eq!(deemphasize_color(200), 170);
    assert_eq!(emphasize_color(200), 220);
    assert_eq!(emphasize_color(250), 255);
}

#[test]
fn emphasis_of_the_palette() {
    let mut palette = RGB_PALETTE;
    apply_emphasis(MaskReg::from_bits(0), &mut palette);
    assert_eq!(palette, RGB_PALETTE);

    let mut palette = RGB_PALETTE;
    apply_emphasis(MaskReg::from_bits(MASK_EMPHASISE_RED), &mut palette);
    assert_eq!(palette[0x16][0], emphasize_color(RGB_PALETTE[0x16][0]));
    assert_eq!(palette[0x16][1], deemphasize_color(RGB_PALETTE[0x16][1]));
    assert_eq!(palette[0x0F], RGB_PALETTE[0x0F]);
    assert_eq!(palette[0x3F], RGB_PALETTE[0x3F]);

    let mut palette = RGB_PALETTE;
    apply_emphasis(
        MaskReg::from_bits(MASK_EMPHASISE_RED | MASK_EMPHASISE_GREEN | MASK_EMPHASISE_BLUE),
        &mut palette,
    );
    assert_eq!(palette[0x20][0], deemphasize_color(RGB_PALETTE[0x20][0]));
}

#[test]
fn frame_conversions() {
    let mut frame = [0u8; FRAME_SIZE];
    frame[1] = 0x16;
    frame[2] = 0x56; // only the low 6 bits index the palette
    let mut rgb = vec![0u8; RGB_FRAME_SIZE];
    let rgb: &mut [u8; RGB_FRAME_SIZE] = (&mut rgb[..]).try_into().unwrap();
    frame_to_rgb(MaskReg::from_bits(0), &frame, rgb);
    assert_eq!(&rgb[0..3], &RGB_PALETTE[0][..]);
    assert_eq!(&rgb[3..6], &RGB_PALETTE[0x16][..]);
    assert_eq!(&rgb[6..9], &RGB_PALETTE[0x16][..]);

    let mut rgba = vec![0u8; RGBA_FRAME_SIZE];
    let rgba: &mut [u8; RGBA_FRAME_SIZE] = (&mut rgba[..]).try_into().unwrap();
    frame_to_rgba(MaskReg::from_bits(0), &frame, rgba);
    assert_eq!(&rgba[4..8], &[RGB_PALETTE[0x16][0], RGB_PALETTE[0x16][1], RGB_PALETTE[0x16][2], 0xff]);

    let mut argb = vec![0u8; RGBA_FRAME_SIZE];
    let argb: &mut [u8; RGBA_FRAME_SIZE] = (&mut argb[..]).try_into().unwrap();
    frame_to_argb(MaskReg::from_bits(0), &frame, argb);
    assert_eq!(&argb[4..8], &[RGB_PALETTE[0x16][2], RGB_PALETTE[0x16][1], RGB_PALETTE[0x16][0], 0xff]);
}

#[test]
fn operand_formats() {
    assert_eq!(AddressingMode::Immediate.format(&[0x05], 0), "#0x5");
    assert_eq!(AddressingMode::Absolute.format(&[0x34, 0x12], 0), "0x1234");
    assert_eq!(AddressingMode::AbsoluteX.format(&[0x00, 0x20], 0), "0x2000,x");
    assert_eq!(AddressingMode::IndirectY.format(&[0x10], 0), "(0x10),y");
    assert_eq!(AddressingMode::IndirectX.format(&[0x10], 0), "(0x10,x)");
    assert_eq!(AddressingMode::Indirect.format(&[0xFF, 0x02], 0), "(0x2ff)");
    assert_eq!(AddressingMode::Accumulator.format(&[], 0), "a");
    assert_eq!(AddressingMode::Implied.format(&[], 0), "");
    assert_eq!(AddressingMode::Relative.format(&[0x02], 0x8002), "0x8004");
    // Offsets above 0x80 count back as `pc - (0xff - offset) + 1`.
    assert_eq!(AddressingMode::Relative.format(&[0xFE], 0x8002), "0x8002");
    assert_eq!(AddressingMode::Relative.format(&[0x90], 0x8002), "0x7f94");
    assert_eq!(AddressingMode::ZeroPage.format(&[0x00], 0), "0x0");
}

#[test]
fn disassembly_of_a_cartridge() {
    let mut rom = vec![0u8; 16 + 32768 + 8192];
    rom[0..4].copy_from_slice(&[0x4E, 0x45, 0x53, 0x1A]);
    rom[4] = 2;
    rom[5] = 1;
    // At $FFF8: LDA #$05; NOP; an unofficial opcode; JMP $1234, which ends at $FFFE.
    rom[16 + 0x7FF8] = 0xA9;
    rom[16 + 0x7FF9] = 0x05;
    rom[16 + 0x7FFA] = 0xEA;
    rom[16 + 0x7FFB] = 0x02;
    rom[16 + 0x7FFC] = 0x4C;
    rom[16 + 0x7FFD] = 0x34;
    rom[16 + 0x7FFE] = 0x12;
    let cart = Cartridge::load(&rom, None).unwrap();
    let lines = disassemble(&cart, 0xFFF8);
    assert_eq!(lines[0], (Some(1), 0xFFF8, "lda #0x5".to_string()));
    assert_eq!(lines[1], (Some(1), 0xFFFA, "nop".to_string()));
    assert_eq!(lines[2], (Some(1), 0xFFFB, "???".to_string()));
    assert_eq!(lines[3], (Some(1), 0xFFFC, "jmp 0x1234".to_string()));
    assert_eq!(lines.len(), 4);
    // An instruction whose operand would reach $FFFF gives no line.
    rom[16 + 0x7FFD] = 0xAD;
    let cart = Cartridge::load(&rom, None).unwrap();
    let lines = disassemble(&cart, 0xFFFD);
    assert_eq!(lines, vec![(Some(1), 0xFFFE, "???".to_string())]);
}

#[test]
fn emulator_produces_frames() {
    let mut rom = vec![0u8; 16 + 16384 + 8192];
    rom[0..4].copy_from_slice(&[0x4E, 0x45, 0x53, 0x1A]);
    rom[4] = 1;
    rom[5] = 1;
    // An infinite loop at $8000: JMP $8000.
    rom[16] = 0x4C;
    rom[17] = 0x00;
    rom[18] = 0x80;
    rom[16 + 0x3FFC] = 0x00;
    rom[16 + 0x3FFD] = 0x80;
    let mut emu = Emulator::new(&rom, None).unwrap();
    assert_eq!(emu.cpu().pc, 0x8000);
    let mut frames = 0;
    for _ in 0..(341 * 262 * 2) {
        if emu.clock().is_some() {
            frames += 1;
        }
    }
    assert_eq!(frames, 2);
    let pc = emu.cpu().pc;
    assert!(pc >= 0x8000 && pc <= 0x8003);
    assert_eq!(emu.get_ppu_mask_reg().bits(), 0);
    emu.set_controller1(0x80);
    emu.reset();
    assert_eq!(emu.cpu().pc, 0x8000);
    let dump = emu.mem_dump(0x8000, 0x8002);
    assert_eq!(dump, vec![0x4C, 0x00, 0x80]);
}

#[test]
fn length_counter_and_timer() {
    let mut lc = LengthCounter::default();
    lc.set_counter(1);
    assert_eq!(lc.counter(), 0);
    lc.set_enable(true);
    lc.set_counter(1);
    assert_eq!(lc.counter(), 254);
    lc.clock();
    assert_eq!(lc.counter(), 253);
    lc.set_halt(true);
    lc.clock();
    assert_eq!(lc.counter(), 253);
    lc.set_enable(false);
    assert_eq!(lc.counter(), 0);

    let mut t = Timer::default();
    t.set_timer_lo(0x34);
    t.set_timer_hi(0xFA);
    assert_eq!(t.period(), 0x234);
    t.set_timer(0x0003);
    t.clock();
    t.clock();
    t.clock();
    assert!(!t.done());
    t.clock();
    assert!(t.done());
    assert_eq!(t.value(), 3);
}

#[test]
fn sequence_mode_frames() {
    assert!(SequenceMode::Step4.is_quarter_frame(29829));
    assert!(!SequenceMode::Step5.is_quarter_frame(29829));
    assert!(SequenceMode::Step5.is_half_frame(37281));
    assert!(SequenceMode::Step4.is_half_frame(14913));
    assert!(!SequenceMode::Step4.is_half_frame(7457));
    assert_eq!(SequenceMode::Step4.get_max(), 29830);
    assert_eq!(SequenceMode::Step5.get_max(), 37282);
}

#[test]
fn channels_output() {
    let mut noise = NoiseChannel::default();
    noise.set_length_counter_enable(true);
    noise.write(0x400C, 0x1F); // constant volume 15
    noise.write(0x400F, 0x08); // length index 1
    assert!(noise.length_counter_enable());
    // Bit 0 of the shift register is 1 at power-up: muted.
    assert_eq!(noise.sample(), 0);
    noise.write(0x400E, 0x00);
    for c in 0..20u16 {
        noise.clock(SequenceMode::Step4, c);
    }
    assert_eq!(noise.shift_register & 1, 0);
    assert_eq!(noise.sample(), 15);

    let mut pulse = PulseChannel::new(true);
    pulse.set_length_counter_enable(true);
    pulse.write(0x4000, 0b1001_1111); // duty 50%, constant volume 15
    pulse.write(0x4002, 0x00);
    pulse.write(0x4003, 0x09); // period 0x100, length index 1
    assert!(pulse.length_counter_enable());
    // Step 0 of the 50% duty sequence is low.
    assert_eq!(pulse.sample(), 0);

    let mut triangle = TriangleChannel::default();
    assert_eq!(triangle.sample(), 15);
    triangle.set_length_counter_enable(true);
    triangle.write(0x4008, 0x7F);
    triangle.write(0x400A, 0x10);
    triangle.write(0x400B, 0x08);
    assert!(triangle.length_counter_enable());
    triangle.clock(SequenceMode::Step4, 7457);
    for c in 0..0x12u16 {
        triangle.clock(SequenceMode::Step4, c);
    }
    assert_eq!(triangle.sample(), 14);
}

fn frame_gaps(program: &[u8], frames: usize) -> Vec<usize> {
    let mut rom = vec![0u8; 16 + 16384 + 8192];
    rom[0..4].copy_from_slice(&[0x4E, 0x45, 0x53, 0x1A]);
    rom[4] = 1;
    rom[5] = 1;
    rom[16..16 + program.len()].copy_from_slice(program);
    rom[16 + 0x3FFC] = 0x00;
    rom[16 + 0x3FFD] = 0x80;
    let mut emu = Emulator::new(&rom, None).unwrap();
    let mut done = Vec::new();
    let mut dot = 0usize;
    while done.len() < frames {
        if emu.clock().is_some() {
            done.push(dot);
        }
        dot += 1;
    }
    done.windows(2).map(|w| w[1] - w[0]).collect()
}

#[test]
fn frames_every_89342_dots_without_rendering() {
    // JMP $8000 forever; rendering stays off.
    let gaps = frame_gaps(&[0x4C, 0x00, 0x80], 4);
    assert_eq!(gaps, vec![89342, 89342, 89342]);
}

#[test]
fn odd_frames_one_dot_shorter_while_rendering() {
    // LDA #$08; STA $2001 (show background); JMP $8005.
    let gaps = frame_gaps(&[0xA9, 0x08, 0x8D, 0x01, 0x20, 0x4C, 0x05, 0x80], 6);
    // The first gap may straddle the write; after it odd and even frames alternate.
    let tail = &gaps[1..];
    for w in tail.windows(2) {
        assert_eq!(w[0] + w[1], 89342 + 89341);
    }
    assert!(tail.iter().all(|&g| g == 89341 || g == 89342));
}

#[test]
fn disassembly_is_in_address_order() {
    let mut rom = vec![0u8; 16 + 16384 + 8192];
    rom[0..4].copy_from_slice(&[0x4E, 0x45, 0x53, 0x1A]);
    rom[4] = 1;
    rom[5] = 1;
    for (i, b) in rom[16..16 + 16384].iter_mut().enumerate() {
        *b = (i * 37 % 256) as u8;
    }
    let cart = Cartridge::load(&rom, None).unwrap();
    let lines = disassemble(&cart, 0x8000);
    assert!(!lines.is_empty());
    assert!(lines.iter().all(|l| l.1 >= 0x8000 && l.1 < 0xFFFF));
    assert!(lines.windows(2).all(|w| w[0].1 < w[1].1));
}

#[test]
fn run_until_frame_stops_at_each_frame() {
    let mut rom = vec![0u8; 16 + 16384 + 8192];
    rom[0..4].copy_from_slice(&[0x4E, 0x45, 0x53, 0x1A]);
    rom[4] = 1;
    rom[5] = 1;
    rom[16..19].copy_from_slice(&[0x4C, 0x00, 0x80]);
    rom[16 + 0x3FFC] = 0x00;
    rom[16 + 0x3FFD] = 0x80;
    let mut a = Emulator::new(&rom, None).unwrap();
    let mut b = Emulator::new(&rom, None).unwrap();
    for _ in 0..2 {
        let f = a.run_until_frame();
        let g = loop {
            if let Some(g) = b.clock() {
                break *g;
            }
        };
        assert!(f[..] == g[..]);
        assert_eq!(a.cpu().pc, b.cpu().pc);
        assert_eq!(a.cpu().cycles, b.cpu().cycles);
    }
    // Right after a frame, the next one is a whole frame away.
    let mut dots = 0;
    while b.clock().is_none() {
        dots += 1;
    }
    assert_eq!(dots + 1, 89342);
}
