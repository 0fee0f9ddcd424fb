//! The decisions of the interactive debugger: where a breakpoint lands, how an address
//! argument is read, and how a memory dump is laid out.
use vstd::prelude::*;
use crate::cpu::disassembler::{digit_char, hex_digit, push_char};
use vstd::string::StringSliceAdditionalSpecFns;

verus! {

/// How far `x` lies past `addr`, going up and wrapping at `$10000`.
pub open spec fn distance_past(x: u16, addr: u16) -> int {
    (x - addr + 0x10000) % 0x10000
}

/// Whether line `i` of `lines` is the first at the least distance past `addr`.
pub open spec fn is_closest(lines: Seq<(Option<u8>, u16, String)>, addr: u16, i: int) -> bool {
    &&& 0 <= i < lines.len()
    &&& forall|j: int| 0 <= j < lines.len() ==> distance_past(lines[i].1, addr) <= distance_past(
        #[trigger] lines[j].1,
        addr,
    )
    &&& forall|j: int| 0 <= j < i ==> distance_past(lines[i].1, addr) < distance_past(
        #[trigger] lines[j].1,
        addr,
    )
}

/// The address where a breakpoint asked at `addr` is put: that of the instruction at the
/// least distance past `addr` (the first such line), or `None` for an empty listing.
pub fn closest_instruction(lines: &Vec<(Option<u8>, u16, String)>, addr: u16) -> (r: Option<u16>)
    ensures
        match r {
            Some(x) => exists|i: int| is_closest(lines@, addr, i) && lines@[i].1 == x,
            None => lines@.len() == 0,
        },
{
    if lines.len() == 0 {
        return None;
    }
    let mut best: usize = 0;
    let mut best_dist: u16 = lines[0].1.wrapping_sub(addr);
    let mut k: usize = 1;
    while k < lines.len()
        invariant
            1 <= k <= lines@.len(),
            best < k,
            best_dist == distance_past(lines@[best as int].1, addr),
            forall|j: int| 0 <= j < k ==> distance_past(lines@[best as int].1, addr) <= distance_past(
                #[trigger] lines@[j].1,
                addr,
            ),
            forall|j: int| 0 <= j < best ==> distance_past(lines@[best as int].1, addr) < distance_past(
                #[trigger] lines@[j].1,
                addr,
            ),
        decreases lines@.len() - k,
    {
        let d = lines[k].1.wrapping_sub(addr);
        if d < best_dist {
            best = k;
            best_dist = d;
        }
        k = k + 1;
    }
    assert(is_closest(lines@, addr, best as int));
    Some(lines[best].1)
}

/// `b` with every leading `0x` removed.
pub open spec fn trim_hex_prefix(b: Seq<u8>) -> Seq<u8>
    decreases b.len(),
{
    if b.len() >= 2 && b[0] == 0x30 && b[1] == 0x78 {
        trim_hex_prefix(b.subrange(2, b.len() as int))
    } else {
        b
    }
}

/// The value of a hexadecimal digit (`0-9`, `a-f`, `A-F`).
pub open spec fn hex_digit_value(c: u8) -> Option<int> {
    if 0x30 <= c <= 0x39 {
        Some(c - 0x30)
    } else if 0x61 <= c <= 0x66 {
        Some(c - 0x61 + 10)
    } else if 0x41 <= c <= 0x46 {
        Some(c - 0x41 + 10)
    } else {
        None
    }
}

/// The value of the hexadecimal digits `d`, most significant first.
pub open spec fn digits_value(d: Seq<u8>) -> int
    decreases d.len(),
{
    if d.len() == 0 {
        0
    } else {
        digits_value(d.drop_last()) * 16 + hex_digit_value(d.last())->0
    }
}

/// Whether every byte of `d` is a hexadecimal digit.
pub open spec fn all_hex(d: Seq<u8>) -> bool {
    forall|i: int| 0 <= i < d.len() ==> (#[trigger] hex_digit_value(d[i])) is Some
}

/// `b` read as a 16-bit number in base 16: an optional `+`, then one or more digits, the
/// value below `$10000`; anything else is refused.
pub open spec fn spec_parse_hex_u16(b: Seq<u8>) -> Option<u16> {
    let d = if b.len() > 0 && b[0] == 0x2b {
        b.drop_first()
    } else {
        b
    };
    if d.len() == 0 || !all_hex(d) || digits_value(d) > 0xFFFF {
        None
    } else {
        Some(digits_value(d) as u16)
    }
}

proof fn lemma_digits_grow(d: Seq<u8>, k: int, m: int)
    requires
        0 <= k <= m <= d.len(),
        forall|i: int| 0 <= i < m ==> (#[trigger] hex_digit_value(d[i])) is Some,
    ensures
        0 <= digits_value(d.subrange(0, k)) <= digits_value(d.subrange(0, m)),
    decreases m,
{
    if m > 0 {
        assert(d.subrange(0, m).drop_last() == d.subrange(0, m - 1));
        if k < m {
            lemma_digits_grow(d, k, m - 1);
        } else {
            lemma_digits_grow(d, m - 1, m - 1);
        }
    }
}

/// An address argument: every leading `0x` is dropped and the rest read in base 16;
/// see [`spec_parse_hex_u16`].
pub fn parse_hex_addr(s: &str) -> (r: Option<u16>)
    ensures
        r == spec_parse_hex_u16(trim_hex_prefix(s.spec_bytes())),
{
    let b = s.as_bytes();
    let n = b.len();
    let mut i: usize = 0;
    assert(b@.subrange(0, n as int) == b@);
    while n - i >= 2 && b[i] == 0x30 && b[i + 1] == 0x78
        invariant
            i <= n,
            n == b@.len(),
            trim_hex_prefix(b@) == trim_hex_prefix(b@.subrange(i as int, n as int)),
        decreases n - i,
    {
        assert(b@.subrange(i as int, n as int).subrange(2, n - i) == b@.subrange(i + 2, n as int));
        i = i + 2;
    }
    let ghost t = b@.subrange(i as int, n as int);
    assert(trim_hex_prefix(b@) == t);
    let mut j = i;
    if j < n && b[j] == 0x2b {
        j = j + 1;
    }
    let ghost d = b@.subrange(j as int, n as int);
    assert(d == (if t.len() > 0 && t[0] == 0x2b { t.drop_first() } else { t }));
    if j == n {
        return None;
    }
    let mut value: u32 = 0;
    let mut k = j;
    assert(d.subrange(0, 0) == Seq::<u8>::empty());
    while k < n
        invariant
            j <= k <= n,
            j < n,
            n == b@.len(),
            b@ == s.spec_bytes(),
            trim_hex_prefix(b@) == t,
            d == (if t.len() > 0 && t[0] == 0x2b { t.drop_first() } else { t }),
            d == b@.subrange(j as int, n as int),
            forall|x: int| 0 <= x < k - j ==> (#[trigger] hex_digit_value(d[x])) is Some,
            value == digits_value(d.subrange(0, k - j)),
            value <= 0xFFFF,
        decreases n - k,
    {
        let c = b[k];
        let v: u32 = if 0x30 <= c && c <= 0x39 {
            (c - 0x30) as u32
        } else if 0x61 <= c && c <= 0x66 {
            (c - 0x61 + 10) as u32
        } else if 0x41 <= c && c <= 0x46 {
            (c - 0x41 + 10) as u32
        } else {
            assert(hex_digit_value(d[k - j]) is None);
            return None;
        };
        assert(d.subrange(0, k - j + 1).drop_last() == d.subrange(0, k - j));
        value = value * 16 + v;
        if value > 0xFFFF {
            proof {
                if all_hex(d) {
                    lemma_digits_grow(d, k - j + 1, d.len() as int);
                    assert(d.subrange(0, d.len() as int) == d);
                }
            }
            return None;
        }
        k = k + 1;
    }
    assert(d.subrange(0, d.len() as int) == d);
    Some(value as u16)
}

/// `v` as `0x` and four lower-case hexadecimal digits.
pub open spec fn hex4(v: u16) -> Seq<char> {
    seq![
        '0',
        'x',
        hex_digit(v as int / 4096),
        hex_digit((v as int / 256) % 16),
        hex_digit((v as int / 16) % 16),
        hex_digit(v as int % 16),
    ]
}

/// The bytes of `c` in hexadecimal, two digits each, separated by single spaces.
pub open spec fn bytes_hex(c: Seq<u8>) -> Seq<char>
    decreases c.len(),
{
    if c.len() == 0 {
        Seq::empty()
    } else if c.len() == 1 {
        seq![hex_digit(c[0] as int / 16), hex_digit(c[0] as int % 16)]
    } else {
        bytes_hex(c.drop_last()) + seq![' ', hex_digit(c.last() as int / 16), hex_digit(c.last() as int % 16)]
    }
}

/// A byte as a character of the dump: printable ASCII as itself, anything else `.`.
pub open spec fn dump_char(b: u8) -> char {
    if 32 <= b <= 126 {
        b as char
    } else {
        '.'
    }
}

/// One row of a memory dump: the address, the bytes in hexadecimal padded to 47
/// columns, and the bytes as characters.
pub open spec fn hexdump_row(addr: u16, c: Seq<u8>) -> Seq<char> {
    let h = bytes_hex(c);
    hex4(addr) + seq![':', ' '] + h + Seq::new((47 - h.len()) as nat, |i: int| ' ') + seq![' ']
        + c.map_values(|b: u8| dump_char(b))
}

/// The rows of a dump of `data` read from `start`: one per 16 bytes (the last one may be
/// shorter), each with its own address.
pub open spec fn hexdump(start: u16, data: Seq<u8>) -> Seq<Seq<char>> {
    Seq::new(
        ((data.len() + 15) / 16) as nat,
        |i: int|
            hexdump_row(
                (start + 16 * i) as u16,
                data.subrange(16 * i, if 16 * i + 16 <= data.len() {
                    16 * i + 16
                } else {
                    data.len() as int
                }),
            ),
    )
}

proof fn lemma_bytes_hex_len(c: Seq<u8>)
    ensures
        c.len() > 0 ==> bytes_hex(c).len() == 3 * c.len() - 1,
        c.len() == 0 ==> bytes_hex(c).len() == 0,
    decreases c.len(),
{
    if c.len() > 1 {
        lemma_bytes_hex_len(c.drop_last());
    }
}

fn push_byte_hex(s: &mut String, b: u8)
    ensures
        final(s)@ == old(s)@ + seq![hex_digit(b as int / 16), hex_digit(b as int % 16)],
{
    push_char(s, digit_char((b / 16) as u16));
    push_char(s, digit_char((b % 16) as u16));
}

/// One row of a memory dump; see [`hexdump_row`].
fn hexdump_row_text(addr: u16, c: &[u8]) -> (r: String)
    requires
        1 <= c@.len() <= 16,
    ensures
        r@ == hexdump_row(addr, c@),
{
    let mut s = String::new();
    push_char(&mut s, '0');
    push_char(&mut s, 'x');
    push_char(&mut s, digit_char(addr / 4096));
    push_char(&mut s, digit_char((addr / 256) % 16));
    push_char(&mut s, digit_char((addr / 16) % 16));
    push_char(&mut s, digit_char(addr % 16));
    push_char(&mut s, ':');
    push_char(&mut s, ' ');
    let ghost head = s@;
    push_byte_hex(&mut s, c[0]);
    assert(c@.subrange(0, 1).drop_last() =~= Seq::<u8>::empty());
    let mut i: usize = 1;
    while i < c.len()
        invariant
            1 <= i <= c@.len(),
            c@.len() <= 16,
            s@ == head + bytes_hex(c@.subrange(0, i as int)),
        decreases c@.len() - i,
    {
        push_char(&mut s, ' ');
        push_byte_hex(&mut s, c[i]);
        assert(c@.subrange(0, i + 1).drop_last() == c@.subrange(0, i as int));
        i = i + 1;
        assert(s@ =~= head + bytes_hex(c@.subrange(0, i as int)));
    }
    assert(c@.subrange(0, c@.len() as int) == c@);
    proof {
        lemma_bytes_hex_len(c@);
    }
    let ghost with_bytes = s@;
    let pad: usize = 47 - (3 * c.len() - 1);
    let mut p: usize = 0;
    while p < pad
        invariant
            p <= pad,
            s@ == with_bytes + Seq::new(p as nat, |k: int| ' '),
        decreases pad - p,
    {
        push_char(&mut s, ' ');
        p = p + 1;
        assert(s@ =~= with_bytes + Seq::new(p as nat, |k: int| ' '));
    }
    push_char(&mut s, ' ');
    let ghost with_pad = s@;
    let mut q: usize = 0;
    while q < c.len()
        invariant
            q <= c@.len(),
            s@ == with_pad + c@.subrange(0, q as int).map_values(|b: u8| dump_char(b)),
        decreases c@.len() - q,
    {
        let b = c[q];
        let ch = if 32 <= b && b <= 126 {
            b as char
        } else {
            '.'
        };
        push_char(&mut s, ch);
        q = q + 1;
        assert(s@ =~= with_pad + c@.subrange(0, q as int).map_values(|b: u8| dump_char(b)));
    }
    assert(s@ =~= hexdump_row(addr, c@));
    s
}

/// The rows of a memory dump of `data` read from `start`; see [`hexdump`].
pub fn hexdump_rows(start: u16, data: &[u8]) -> (r: Vec<String>)
    requires
        start + data@.len() <= 0x10000,
    ensures
        r@.len() == hexdump(start, data@).len(),
        forall|i: int| 0 <= i < r@.len() ==> (#[trigger] r@[i])@ == hexdump(start, data@)[i],
{
    let mut rows: Vec<String> = Vec::new();
    let mut at: usize = 0;
    let ghost spec = hexdump(start, data@);
    while at < data.len()
        invariant
            at <= data@.len() + 15,
            at % 16 == 0,
            start + data@.len() <= 0x10000,
            spec == hexdump(start, data@),
            rows@.len() == at / 16,
            forall|i: int| 0 <= i < rows@.len() ==> (#[trigger] rows@[i])@ == spec[i],
        decreases data@.len() + 16 - at,
    {
        let end = if at + 16 <= data.len() {
            at + 16
        } else {
            data.len()
        };
        let chunk = vstd::slice::slice_subrange(data, at, end);
        let addr = start + (at as u16);
        let row = hexdump_row_text(addr, chunk);
        proof {
            let i = (at / 16) as int;
            assert(16 * i == at);
        }
        rows.push(row);
        at = at + 16;
    }
    rows
}

/// The bank column of a listing line: `0x` and two digits and `:`, or blanks and `:`.
pub open spec fn bank_column(bank: Option<u8>) -> Seq<char> {
    match bank {
        Some(b) => seq!['0', 'x', hex_digit(b as int / 16), hex_digit(b as int % 16), ':'],
        None => seq![' ', ' ', ' ', ' ', ':'],
    }
}

/// A listing line as the debugger shows it: `>` on the line at `pc`, the bank, the
/// address and the instruction.
pub open spec fn window_line(line: (Option<u8>, u16, Seq<char>), pc: u16) -> Seq<char> {
    seq![if line.1 == pc { '>' } else { ' ' }, ' '] + bank_column(line.0) + hex4(line.1) + seq![
        ':',
        ' ',
    ] + line.2
}

/// The lines of `lines` within 20 bytes of `center` (strictly), in order, as shown.
pub open spec fn spec_window(lines: Seq<(Option<u8>, u16, Seq<char>)>, center: u16, pc: u16) -> Seq<
    Seq<char>,
>
    decreases lines.len(),
{
    if lines.len() == 0 {
        Seq::empty()
    } else {
        let rest = spec_window(lines.drop_last(), center, pc);
        let l = lines.last();
        if center - 20 < l.1 < center + 20 {
            rest.push(window_line(l, pc))
        } else {
            rest
        }
    }
}

fn push_str_chars(s: &mut String, t: &String)
    ensures
        final(s)@ == old(s)@ + t@,
{
    let mut i: usize = 0;
    let n = t.unicode_len();
    while i < n
        invariant
            i <= n,
            n == t@.len(),
            s@ == old(s)@ + t@.subrange(0, i as int),
        decreases n - i,
    {
        push_char(s, t.get_char(i));
        i = i + 1;
        assert(s@ =~= old(s)@ + t@.subrange(0, i as int));
    }
    assert(t@.subrange(0, n as int) == t@);
}

/// The disassembly shown around `center` (at least 20): the lines strictly within 20
/// bytes of it, the line at `pc` marked; see [`spec_window`].
pub fn disassembly_window(lines: &Vec<(Option<u8>, u16, String)>, center: u16, pc: u16) -> (r: Vec<String>)
    requires
        center >= 20,
    ensures
        r@.len() == spec_window(crate::cpu::disassembler::lines_view(lines@), center, pc).len(),
        forall|i: int|
            0 <= i < r@.len() ==> (#[trigger] r@[i])@ == spec_window(
                crate::cpu::disassembler::lines_view(lines@),
                center,
                pc,
            )[i],
{
    let ghost view = crate::cpu::disassembler::lines_view(lines@);
    let mut out: Vec<String> = Vec::new();
    let mut k: usize = 0;
    while k < lines.len()
        invariant
            k <= lines@.len(),
            center >= 20,
            view == crate::cpu::disassembler::lines_view(lines@),
            out@.len() == spec_window(view.subrange(0, k as int), center, pc).len(),
            forall|i: int|
                0 <= i < out@.len() ==> (#[trigger] out@[i])@ == spec_window(
                    view.subrange(0, k as int),
                    center,
                    pc,
                )[i],
        decreases lines@.len() - k,
    {
        let ghost before = out@;
        assert(view.subrange(0, k + 1).drop_last() == view.subrange(0, k as int));
        let addr = lines[k].1;
        if addr > center - 20 && (addr as u32) < (center as u32) + 20 {
            let mut s = String::new();
            push_char(&mut s, if addr == pc { '>' } else { ' ' });
            push_char(&mut s, ' ');
            match lines[k].0 {
                Some(b) => {
                    push_char(&mut s, '0');
                    push_char(&mut s, 'x');
                    push_char(&mut s, digit_char((b / 16) as u16));
                    push_char(&mut s, digit_char((b % 16) as u16));
                },
                None => {
                    push_char(&mut s, ' ');
                    push_char(&mut s, ' ');
                    push_char(&mut s, ' ');
                    push_char(&mut s, ' ');
                },
            }
            push_char(&mut s, ':');
            push_char(&mut s, '0');
            push_char(&mut s, 'x');
            push_char(&mut s, digit_char(addr / 4096));
            push_char(&mut s, digit_char((addr / 256) % 16));
            push_char(&mut s, digit_char((addr / 16) % 16));
            push_char(&mut s, digit_char(addr % 16));
            push_char(&mut s, ':');
            push_char(&mut s, ' ');
            push_str_chars(&mut s, &lines[k].2);
            assert(s@ =~= window_line(view[k as int], pc));
            out.push(s);
        }
        k = k + 1;
        assert(forall|i: int|
            0 <= i < out@.len() ==> (#[trigger] out@[i])@ == spec_window(
                view.subrange(0, k as int),
                center,
                pc,
            )[i]);
    }
    assert(view.subrange(0, lines@.len() as int) == view);
    out
}

} // verus!
