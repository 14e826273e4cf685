//! Read-modify-write primitives over the value of a device register.

use vstd::prelude::*;

verus! {

/// Receive-complete interrupt enable bit of the serial control register.
pub const RXCIE0: u8 = 0x80;

/// Transmit-buffer-empty interrupt enable bit of the serial control register.
pub const UDRIE0: u8 = 0x20;

/// Whether every bit of `mask` is set in `value`.
pub open spec fn bits_set(value: u8, mask: u8) -> bool {
    value & mask == mask
}

/// Whether no bit of `mask` is set in `value`.
pub open spec fn bits_clear(value: u8, mask: u8) -> bool {
    value & mask == 0
}

/// The register value after `mask` has been ORed in.
pub fn set_bit(value: u8, mask: u8) -> (new: u8)
    ensures
        new == value | mask,
        bits_set(new, mask),
        new & !mask == value & !mask,
{
    let new: u8 = value | mask;
    assert((value | mask) & mask == mask) by (bit_vector);
    assert((value | mask) & !mask == value & !mask) by (bit_vector);
    new
}

/// The register value after `mask` has been XORed out. Where the bits of
/// `mask` were set they are now clear; a bit of `mask` that was clear is now
/// set.
pub fn unset_bit(value: u8, mask: u8) -> (new: u8)
    ensures
        new == value ^ mask,
        bits_set(value, mask) ==> bits_clear(new, mask),
        new & !mask == value & !mask,
{
    let new: u8 = value ^ mask;
    assert(value & mask == mask ==> (value ^ mask) & mask == 0) by (bit_vector);
    assert((value ^ mask) & !mask == value & !mask) by (bit_vector);
    new
}

/// Setting bits that were clear and then unsetting them restores the register.
pub proof fn lemma_set_then_unset(value: u8, mask: u8)
    requires
        bits_clear(value, mask),
    ensures
        (value | mask) ^ mask == value,
{
    assert(value & mask == 0 ==> (value | mask) ^ mask == value) by (bit_vector);
}

/// Setting bits is idempotent.
pub proof fn lemma_set_idempotent(value: u8, mask: u8)
    ensures
        (value | mask) | mask == value | mask,
{
    assert((value | mask) | mask == value | mask) by (bit_vector);
}

/// The two interrupt-enable bits do not overlap: changing one leaves the
/// other as it was.
pub proof fn lemma_enable_bits_independent(value: u8)
    ensures
        (value | RXCIE0) & UDRIE0 == value & UDRIE0,
        (value ^ RXCIE0) & UDRIE0 == value & UDRIE0,
        (value | UDRIE0) & RXCIE0 == value & RXCIE0,
        (value ^ UDRIE0) & RXCIE0 == value & RXCIE0,
{
    assert((value | 0x80u8) & 0x20u8 == value & 0x20u8) by (bit_vector);
    assert((value ^ 0x80u8) & 0x20u8 == value & 0x20u8) by (bit_vector);
    assert((value | 0x20u8) & 0x80u8 == value & 0x80u8) by (bit_vector);
    assert((value ^ 0x20u8) & 0x80u8 == value & 0x80u8) by (bit_vector);
}

} // verus!
