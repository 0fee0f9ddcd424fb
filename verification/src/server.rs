//! The computations of the streaming server around an emulation: where a ROM's save
//! file lives, how frames are packed for the socket, and whether a password opens the
//! development console.
use vstd::prelude::*;
use crate::cpu::disassembler::{digit_char, hex_digit, push_char};
use flate2::write::GzEncoder;
use vstd::string::StringSliceAdditionalSpecFns;

verus! {

/// The BLAKE3 digest of `input`.
pub uninterp spec fn blake3_digest(input: Seq<u8>) -> Seq<u8>;

/// `blake3::hash`: the 32 bytes of the BLAKE3 digest of `input`. The contract names the
/// digest; it says nothing of its value.
#[verifier::external_body]
fn blake3_hash(input: &[u8]) -> (r: [u8; 32])
    ensures
        r@ == blake3_digest(input@),
{
    *blake3::hash(input).as_bytes()
}

/// `bytes` in lower-case hexadecimal, two digits per byte, high digit first.
pub open spec fn lower_hex(bytes: Seq<u8>) -> Seq<char>
    decreases bytes.len(),
{
    if bytes.len() == 0 {
        Seq::empty()
    } else {
        lower_hex(bytes.drop_last()) + seq![
            hex_digit(bytes.last() as int / 16),
            hex_digit(bytes.last() as int % 16),
        ]
    }
}

/// The path of the save file of the ROM `rom`: `saves/`, the BLAKE3 digest of the ROM
/// in lower-case hexadecimal, and `.save`.
pub open spec fn spec_save_path(rom: Seq<u8>) -> Seq<char> {
    seq!['s', 'a', 'v', 'e', 's', '/'] + lower_hex(blake3_digest(rom)) + seq![
        '.',
        's',
        'a',
        'v',
        'e',
    ]
}

/// Where the battery-backed RAM of the ROM `rom` is kept between sessions; see
/// [`spec_save_path`].
pub fn save_path(rom: &[u8]) -> (r: String)
    ensures
        r@ == spec_save_path(rom@),
{
    let digest = blake3_hash(rom);
    let mut s = String::new();
    push_char(&mut s, 's');
    push_char(&mut s, 'a');
    push_char(&mut s, 'v');
    push_char(&mut s, 'e');
    push_char(&mut s, 's');
    push_char(&mut s, '/');
    let ghost prefix = s@;
    let mut i: usize = 0;
    while i < 32
        invariant
            i <= 32,
            digest@.len() == 32,
            s@ == prefix + lower_hex(digest@.subrange(0, i as int)),
        decreases 32 - i,
    {
        let b = digest[i];
        push_char(&mut s, digit_char((b / 16) as u16));
        push_char(&mut s, digit_char((b % 16) as u16));
        proof {
            let next = digest@.subrange(0, i + 1);
            assert(next.drop_last() == digest@.subrange(0, i as int));
            assert(next.last() == b);
        }
        i = i + 1;
    }
    assert(digest@.subrange(0, 32) == digest@);
    push_char(&mut s, '.');
    push_char(&mut s, 's');
    push_char(&mut s, 'a');
    push_char(&mut s, 'v');
    push_char(&mut s, 'e');
    assert(s@ =~= spec_save_path(rom@));
    s
}

/// The gzip member that `flate2` makes of `input` at the default level: a fresh
/// `GzEncoder` over an empty vector, all of `input` written, then finished.
pub uninterp spec fn gzip_default(input: Seq<u8>) -> Seq<u8>;

/// The fixed gzip header that `GzEncoder` writes at the default level: magic, deflate,
/// no flags, no time stamp, no extra flags, operating system 255.
pub open spec fn gzip_default_header() -> Seq<u8> {
    seq![0x1fu8, 0x8bu8, 8u8, 0u8, 0u8, 0u8, 0u8, 0u8, 0u8, 0xffu8]
}

/// Whether `out` is a gzip member of `input` as far as its frame shows: the header,
/// then (after the deflate data and the CRC-32 of `input`) the length of `input`
/// modulo 2^32, little-endian, as the last four bytes.
pub open spec fn gzip_member_of(out: Seq<u8>, input: Seq<u8>) -> bool {
    let n = out.len();
    let len = input.len() % 0x1_0000_0000;
    &&& n >= 18
    &&& out.subrange(0, 10) == gzip_default_header()
    &&& out[n - 4] + 256 * out[n - 3] + 65536 * out[n - 2] + 16777216 * out[n - 1] == len
}

/// `GzEncoder::new(Vec::new(), Compression::default())`, `Write::write_all` of `data`,
/// then `GzEncoder::finish`: the encoder is built over an empty vector and handed the
/// data in one call, so the bytes that come out depend on `data` alone and are named
/// [`gzip_default`]. Writing to a vector never fails, so neither do `write_all` and
/// `finish` here. Of the member only its frame is stated (see [`gzip_member_of`]), not
/// the deflate data or the CRC.
#[verifier::external_body]
fn gzip_compress(data: &[u8]) -> (r: Option<Vec<u8>>)
    ensures
        r is Some,
        r->0@ == gzip_default(data@),
        gzip_member_of(r->0@, data@),
{
    let mut encoder = GzEncoder::new(Vec::new(), flate2::Compression::default());
    match std::io::Write::write_all(&mut encoder, data) {
        Ok(()) => encoder.finish().ok(),
        Err(_) => None,
    }
}

/// A frame packed for the socket: the frame's bytes as one gzip member at the default
/// level.
pub fn compress_frame(frame: &[u8]) -> (r: Option<Vec<u8>>)
    ensures
        r matches Some(v) && v@ == gzip_default(frame@) && gzip_member_of(v@, frame@),
{
    gzip_compress(frame)
}

/// Whether `password` is accepted by the Argon2 PHC string `phc`.
pub uninterp spec fn argon2_verifies(password: Seq<u8>, phc: Seq<char>) -> bool;

/// `PasswordVerifier::verify_password` of `Argon2::default()`, on `phc` parsed by
/// `PasswordHash::new`: whether `password` hashes, with the algorithm, version,
/// parameters and salt of `phc`, to the output of `phc`. The contract names that answer;
/// a string that does not parse is refused.
#[verifier::external_body]
fn argon2_verify(password: &[u8], phc: &str) -> (r: bool)
    ensures
        r == argon2_verifies(password@, phc@),
{
    match argon2::PasswordHash::new(phc) {
        Ok(hash) => argon2::PasswordVerifier::verify_password(
            &argon2::Argon2::default(),
            password,
            &hash,
        ).is_ok(),
        Err(_) => false,
    }
}

/// The PHC string of the development password.
pub open spec fn dev_password_hash() -> Seq<char> {
    DEV_PASSWORD_HASH@
}

/// The Argon2id hash of the password of the development console.
pub const DEV_PASSWORD_HASH: &'static str =
    "$argon2id$v=19$m=4096,t=3,p=1$eQ1zJ3zuoDXrL6/zrhkxEg$56gPf/5+JrnpJ37o6GgGqHAjsB7g0Tzk+c4cz6QXXSI";

/// Whether `password` opens the development console.
pub fn verify_password(password: &str) -> (r: bool)
    ensures
        r == argon2_verifies(password.spec_bytes(), dev_password_hash()),
{
    argon2_verify(password.as_bytes(), DEV_PASSWORD_HASH)
}

} // verus!
