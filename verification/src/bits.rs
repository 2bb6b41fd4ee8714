//! Small byte- and word-level helpers shared by the CPU and the bus.

use vstd::prelude::*;

verus! {

/// Bit `n` of `byte`, as a boolean.
pub open spec fn spec_check_bit(byte: u8, n: u8) -> bool {
    byte & (1u8 << n) != 0
}

/// High byte of a 16-bit word.
pub open spec fn spec_high_byte(val: u16) -> u8 {
    (val >> 8) as u8
}

/// Low byte of a 16-bit word.
pub open spec fn spec_low_byte(val: u16) -> u8 {
    (val & 0xFF) as u8
}

/// The 16-bit word with high byte `high` and low byte `low`.
pub open spec fn spec_word(high: u8, low: u8) -> u16 {
    ((high as u16) << 8) | (low as u16)
}

/// The 16-bit sign extension of a byte, reinterpreted as unsigned.
pub open spec fn spec_sign_extend(byte: u8) -> u16 {
    if byte >= 0x80 {
        0xFF00u16 | (byte as u16)
    } else {
        byte as u16
    }
}

/// Splitting a word into bytes and recombining them are mutually inverse.
pub proof fn lemma_word_bytes(high: u8, low: u8, val: u16)
    by (bit_vector)
    ensures
        spec_high_byte(spec_word(high, low)) == high,
        spec_low_byte(spec_word(high, low)) == low,
        spec_word(spec_high_byte(val), spec_low_byte(val)) == val,
{
}

pub fn check_bit(byte: u8, n: u8) -> (r: bool)
    requires
        n < 8,
    ensures
        r == spec_check_bit(byte, n),
{
    byte & (1u8 << n) != 0
}

pub fn u16_as_u8s(val: u16) -> (r: (u8, u8))
    ensures
        r.0 == spec_high_byte(val),
        r.1 == spec_low_byte(val),
{
    ((val >> 8) as u8, (val & 0xFF) as u8)
}

pub fn u8s_as_u16(val: (u8, u8)) -> (r: u16)
    ensures
        r == spec_word(val.0, val.1),
{
    ((val.0 as u16) << 8) | (val.1 as u16)
}

/// Sign-extends `byte` to 16 bits, for relative jumps and
/// stack-pointer-plus-offset addressing.
pub fn sign_extend(byte: u8) -> (r: u16)
    ensures
        r == spec_sign_extend(byte),
{
    if byte >= 0x80 {
        0xFF00u16 | (byte as u16)
    } else {
        byte as u16
    }
}

/// A freshly allocated byte buffer of `n` zero bytes, used for the RAM and
/// register backing stores the bus owns.
pub fn zero_vec(n: usize) -> (r: Vec<u8>)
    ensures
        r@.len() == n,
        forall|i: int| 0 <= i < n ==> r@[i] == 0u8,
{
    let mut v: Vec<u8> = Vec::new();
    let mut k: usize = 0;
    while k < n
        invariant
            k <= n,
            v@.len() == k,
            forall|i: int| 0 <= i < k ==> v@[i] == 0u8,
        decreases n - k,
    {
        v.push(0);
        k = k + 1;
    }
    v
}

} // verus!
