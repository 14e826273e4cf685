//! The bytes that the logging helpers put on the serial line.

use vstd::prelude::*;
use vstd::string::StringSliceAdditionalSpecFns;

verus! {

/// Carriage return.
pub const CR: u8 = 0x0d;

/// Line feed.
pub const LF: u8 = 0x0a;

/// The upper-case hexadecimal digit of a value below sixteen.
pub open spec fn spec_hex_digit(nibble: u8) -> u8 {
    if nibble < 10 {
        (0x30 + nibble) as u8
    } else {
        (0x41 + nibble - 10) as u8
    }
}

/// The two hexadecimal digits of a byte, the high one first.
pub open spec fn spec_u8_hex(v: u8) -> Seq<u8> {
    seq![spec_hex_digit(v / 16), spec_hex_digit(v % 16)]
}

/// The hexadecimal digits of the bytes of `v`, in order.
pub open spec fn spec_slice_hex(v: Seq<u8>) -> Seq<u8>
    decreases v.len(),
{
    if v.len() == 0 {
        Seq::empty()
    } else {
        spec_slice_hex(v.drop_last()) + spec_u8_hex(v.last())
    }
}

/// The upper-case hexadecimal digit of a value below sixteen.
pub fn hex_digit(nibble: u8) -> (digit: u8)
    requires
        nibble < 16,
    ensures
        digit == spec_hex_digit(nibble),
{
    if nibble < 10 {
        0x30 + nibble
    } else {
        0x41 + (nibble - 10)
    }
}

/// The two hexadecimal digits of a byte, the high one first.
pub fn u8_hex(v: u8) -> (digits: Vec<u8>)
    ensures
        digits@ == spec_u8_hex(v),
{
    let top_idx: u8 = (v >> 4) & 0b1111;
    let bot_idx: u8 = v & 0b1111;
    assert((v >> 4u8) & 0b1111u8 == v / 16) by (bit_vector);
    assert(v & 0b1111u8 == v % 16) by (bit_vector);
    let mut digits: Vec<u8> = Vec::new();
    digits.push(hex_digit(top_idx));
    digits.push(hex_digit(bot_idx));
    assert(digits@ =~= spec_u8_hex(v));
    digits
}

/// The hexadecimal digits of the bytes of `v`, in order.
pub fn slice_hex(v: &[u8]) -> (digits: Vec<u8>)
    ensures
        digits@ == spec_slice_hex(v@),
        digits@.len() == 2 * v@.len(),
{
    let mut digits: Vec<u8> = Vec::new();
    let mut at: usize = 0;
    while at < v.len()
        invariant
            at <= v.len(),
            digits@ == spec_slice_hex(v@.subrange(0, at as int)),
            digits@.len() == 2 * at,
        decreases v.len() - at,
    {
        let mut pair = u8_hex(v[at]);
        digits.append(&mut pair);
        proof {
            let upto = v@.subrange(0, at + 1);
            assert(upto.drop_last() =~= v@.subrange(0, at as int));
        }
        at = at + 1;
    }
    assert(v@.subrange(0, at as int) =~= v@);
    digits
}

/// The line end: carriage return, line feed.
pub fn newline() -> (bytes: Vec<u8>)
    ensures
        bytes@ == seq![CR, LF],
{
    let mut bytes: Vec<u8> = Vec::new();
    bytes.push(CR);
    bytes.push(LF);
    assert(bytes@ =~= seq![CR, LF]);
    bytes
}

/// The bytes of `s`.
pub fn str(s: &str) -> (bytes: Vec<u8>)
    ensures
        bytes@ == s.spec_bytes(),
{
    let src = s.as_bytes();
    let mut bytes: Vec<u8> = Vec::new();
    let mut at: usize = 0;
    while at < src.len()
        invariant
            at <= src.len(),
            bytes@ == src@.subrange(0, at as int),
        decreases src.len() - at,
    {
        bytes.push(src[at]);
        assert(src@.subrange(0, at as int).push(src@[at as int]) =~= src@.subrange(0, at + 1));
        at = at + 1;
    }
    assert(src@.subrange(0, at as int) =~= src@);
    bytes
}

/// The bytes of `s`, then the line end.
pub fn strln(s: &str) -> (bytes: Vec<u8>)
    ensures
        bytes@ == s.spec_bytes() + seq![CR, LF],
{
    let mut bytes = str(s);
    let mut end = newline();
    bytes.append(&mut end);
    bytes
}

/// The bytes of `s`, then the line end.
pub fn raw(s: &str) -> (bytes: Vec<u8>)
    ensures
        bytes@ == s.spec_bytes() + seq![CR, LF],
{
    strln(s)
}

} // verus!
