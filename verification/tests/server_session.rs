use nestadia::cartridge::mapper_nrom::NRom;
use nestadia::server::{compress_frame, save_path, verify_password};
use nestadia::session::{EmulatorInput, SessionAction, WsSession};
use nestadia::ExecutionMode;
use std::io::Read;

fn gunzip(data: &[u8]) -> Vec<u8> {
    let mut out = Vec::new();
    flate2::read::GzDecoder::new(data).read_to_end(&mut out).unwrap();
    out
}

#[test]
fn save_path_of_empty_rom() {
    assert_eq!(
        save_path(&[]),
        "saves/af1349b9f5f9a1a6a0404dea36dcc9499bcb25c9adc112b7cc9a93cae41f3262.save"
    );
}

#[test]
fn save_path_is_blake3_hex() {
    let rom: Vec<u8> = (0..1000u32).map(|i| (i * 7 % 251) as u8).collect();
    let expected = format!("saves/{}.save", blake3::hash(&rom).to_hex());
    assert_eq!(save_path(&rom), expected);
    assert_ne!(save_path(&rom), save_path(&rom[..999]));
}

#[test]
fn compressed_frame_decompresses_to_frame() {
    let frame: Vec<u8> = (0..61440u32).map(|i| (i / 256 % 64) as u8).collect();
    let packed = compress_frame(&frame).unwrap();
    assert_eq!(&packed[..10], &[0x1f, 0x8b, 8, 0, 0, 0, 0, 0, 0, 0xff]);
    let n = packed.len();
    assert_eq!(u32::from_le_bytes([packed[n - 4], packed[n - 3], packed[n - 2], packed[n - 1]]), 61440);
    assert!(packed.len() < frame.len());
    assert_eq!(gunzip(&packed), frame);
}

#[test]
fn compressed_empty_frame() {
    let packed = compress_frame(&[]).unwrap();
    assert!(packed.len() >= 18);
    assert_eq!(gunzip(&packed), Vec::<u8>::new());
}

#[test]
fn dev_password_is_checked() {
    assert!(!verify_password("password"));
    assert!(!verify_password(""));
    assert!(verify_password("nwTdWyK4uXmzU9HkVwEDVhhe3ENCgkfa"));
}

#[test]
fn upload_in_one_message_starts() {
    let mut s = WsSession::waiting();
    let mut msg = vec![3u8, 0, 0, 0];
    msg.extend_from_slice(&[1, 2, 3]);
    assert_eq!(s.on_binary(&msg), SessionAction::StartCustomRom);
    assert_eq!(s.custom_rom, vec![1, 2, 3]);
    assert_eq!(s.custom_rom_len, 3);
}

#[test]
fn upload_in_three_messages() {
    let mut s = WsSession::waiting();
    // 0x0105 = 261 bytes announced.
    let mut first = vec![0x05u8, 0x01, 0, 0];
    first.extend(std::iter::repeat(0xaa).take(100));
    assert_eq!(s.on_binary(&first), SessionAction::Nothing);
    assert_eq!(s.on_binary(&[0xbb; 100]), SessionAction::Nothing);
    assert_eq!(s.on_binary(&[0xcc; 61]), SessionAction::StartCustomRom);
    assert_eq!(s.custom_rom.len(), 261);
    assert_eq!(s.custom_rom[0], 0xaa);
    assert_eq!(s.custom_rom[150], 0xbb);
    assert_eq!(s.custom_rom[260], 0xcc);
}

#[test]
fn upload_overshoot_never_starts() {
    let mut s = WsSession::waiting();
    assert_eq!(s.on_binary(&[2, 0, 0, 0, 9]), SessionAction::Nothing);
    assert_eq!(s.on_binary(&[8, 8]), SessionAction::Nothing);
    assert_eq!(s.custom_rom, vec![9, 8, 8]);
    assert_eq!(s.on_binary(&[7]), SessionAction::Nothing);
}

#[test]
fn failed_start_keeps_waiting() {
    let mut s = WsSession::waiting();
    assert_eq!(s.on_binary(&[1, 0, 0, 0, 0x42]), SessionAction::StartCustomRom);
    s.emulation_started(false);
    assert_eq!(s.on_stopped(), None);
    // Controller bytes are not forwarded before the emulation runs.
    assert_eq!(s.on_binary(&[0x10]), SessionAction::Nothing);
}

#[test]
fn started_session_forwards_controller() {
    let mut s = WsSession::waiting();
    assert_eq!(s.on_binary(&[1, 0, 0, 0, 0x42]), SessionAction::StartCustomRom);
    s.emulation_started(true);
    assert_eq!(s.on_binary(&[0x81, 0x00]), SessionAction::Send(EmulatorInput::Controller1(0x81)));
    assert_eq!(s.on_binary(&[]), SessionAction::Nothing);
    assert_eq!(s.on_stopped(), Some(EmulatorInput::Stop));
}

#[test]
fn ready_session_starts_its_rom_and_ignores_messages() {
    let mut s = WsSession::ready(vec![0x4e, 0x45, 0x53]);
    assert_eq!(s.rom_to_start(), Some(&vec![0x4e, 0x45, 0x53]));
    assert_eq!(s.on_binary(&[1, 2, 3, 4, 5]), SessionAction::Nothing);
    assert_eq!(WsSession::waiting().rom_to_start(), None);
    s.emulation_started(true);
    assert_eq!(s.rom_to_start(), None);
}

#[test]
fn nrom_address_mapping() {
    let small = NRom::new(1);
    let big = NRom::new(2);
    assert_eq!(small.cpu_map_read(0xC123), 0x0123);
    assert_eq!(small.cpu_map_read(0x8123), 0x0123);
    assert_eq!(big.cpu_map_read(0xC123), 0x4123);
    assert_eq!(big.cpu_map_write(0x8000), None);
    assert_eq!(big.ppu_map_read(0x1abc), 0x1abc);
    assert_eq!(big.ppu_map_write(0x0000), None);
    assert_ne!(ExecutionMode::Ring0, ExecutionMode::Ring3);
}
