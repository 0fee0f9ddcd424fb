use nestadia::debugger::{closest_instruction, disassembly_window, hexdump_rows, parse_hex_addr};
use nestadia::input::{controller_after_key, key_button, BUTTON_A, BUTTON_LEFT, BUTTON_START};
use nestadia::ppu::registers::ControlReg;

#[test]
fn master_slave_select_is_bit_6() {
    let mut c = ControlReg::empty();
    c.write(0x40);
    assert_eq!(c.master_slave_select(), 1);
    c.write(0x20);
    assert_eq!(c.master_slave_select(), 0);
    c.write(0xBF);
    assert_eq!(c.master_slave_select(), 0);
}

#[test]
fn keys_set_and_clear_buttons() {
    assert_eq!(key_button(0x58), Some(BUTTON_A));
    assert_eq!(key_button(0x25), Some(BUTTON_LEFT));
    assert_eq!(key_button(0x10), None);
    let s = controller_after_key(0, 0x58, true);
    assert_eq!(s, 0x80);
    let s = controller_after_key(s, 0x53, true);
    assert_eq!(s, BUTTON_A | BUTTON_START);
    let s = controller_after_key(s, 0x58, false);
    assert_eq!(s, BUTTON_START);
    assert_eq!(controller_after_key(s, 0x99, true), BUTTON_START);
}

fn line(addr: u16, text: &str) -> (Option<u8>, u16, String) {
    (Some(1), addr, text.to_string())
}

#[test]
fn breakpoint_lands_on_next_instruction() {
    let lines = vec![line(0x8000, "a"), line(0x8002, "b"), line(0x8005, "c")];
    assert_eq!(closest_instruction(&lines, 0x8001), Some(0x8002));
    assert_eq!(closest_instruction(&lines, 0x8002), Some(0x8002));
    // Past the last line the distance wraps round to the first.
    assert_eq!(closest_instruction(&lines, 0x8006), Some(0x8000));
    assert_eq!(closest_instruction(&Vec::new(), 0x8000), None);
}

#[test]
fn hex_addresses_are_parsed() {
    assert_eq!(parse_hex_addr("0x8000"), Some(0x8000));
    assert_eq!(parse_hex_addr("c000"), Some(0xC000));
    assert_eq!(parse_hex_addr("0x0xFF"), Some(0xFF));
    assert_eq!(parse_hex_addr("+1f"), Some(0x1F));
    assert_eq!(parse_hex_addr("0x"), None);
    assert_eq!(parse_hex_addr(""), None);
    assert_eq!(parse_hex_addr("10000"), None);
    assert_eq!(parse_hex_addr("12g"), None);
    assert_eq!(parse_hex_addr("-1"), None);
    // The same answers as the standard parser on what is left after the prefix.
    for s in ["0", "ffff", "0000ffff", "+", "++1", "FfFf"] {
        assert_eq!(parse_hex_addr(s), u16::from_str_radix(s, 16).ok(), "{}", s);
    }
}

#[test]
fn hexdump_layout() {
    let mut data: Vec<u8> = (0x41..0x51).collect();
    data.extend_from_slice(&[0x00, 0x7f, 0x20]);
    let rows = hexdump_rows(0x0010, &data);
    assert_eq!(rows.len(), 2);
    let bytes = data[..16].iter().map(|c| format!("{:02x}", c)).collect::<Vec<_>>().join(" ");
    assert_eq!(rows[0], format!("{:#06x}: {:47} {}", 0x10, bytes, "ABCDEFGHIJKLMNOP"));
    assert_eq!(rows[1], format!("{:#06x}: {:47} {}", 0x20, "00 7f 20", ".. "));
    assert!(hexdump_rows(0x0000, &[]).is_empty());
}

#[test]
fn disassembly_window_marks_pc() {
    let lines = vec![
        line(0x7FE0, "far"),
        (None, 0x7FF0, "nop".to_string()),
        line(0x8000, "lda #0x01"),
        line(0x8013, "jmp 0x8000"),
        line(0x8014, "out"),
    ];
    let w = disassembly_window(&lines, 0x8000, 0x8000);
    assert_eq!(
        w,
        vec![
            "      :0x7ff0: nop".to_string(),
            "> 0x01:0x8000: lda #0x01".to_string(),
            "  0x01:0x8013: jmp 0x8000".to_string(),
        ]
    );
}
