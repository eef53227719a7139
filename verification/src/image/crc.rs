//! CRC-32 as used by the boot ROM: the reflected polynomial `0xEDB88320`,
//! all ones as the initial value, and the result inverted.

use vstd::prelude::*;

verus! {

/// The reflected generator polynomial.
pub const POLYNOMIAL: u32 = 0xEDB8_8320;

/// All ones: what the register starts from, and what the result is inverted
/// with.
pub const ALL_ONES: u32 = 0xFFFF_FFFF;

/// One shift of the register: the lowest bit leaves, and the polynomial is
/// folded in if that bit was set.
pub open spec fn shift_once(reg: u32) -> u32 {
    if reg & 1 == 1 {
        (reg >> 1) ^ POLYNOMIAL
    } else {
        reg >> 1
    }
}

/// The register after one more byte of input: the byte is folded into the low
/// eight bits, then the register is shifted eight times.
pub open spec fn absorb_byte(reg: u32, byte: u8) -> u32 {
    let r0 = reg ^ (byte as u32);
    let r1 = shift_once(r0);
    let r2 = shift_once(r1);
    let r3 = shift_once(r2);
    let r4 = shift_once(r3);
    let r5 = shift_once(r4);
    let r6 = shift_once(r5);
    let r7 = shift_once(r6);
    shift_once(r7)
}

/// The register after all of `bytes`, starting from `reg`.
pub open spec fn absorb(reg: u32, bytes: Seq<u8>) -> u32
    decreases bytes.len(),
{
    if bytes.len() == 0 {
        reg
    } else {
        absorb_byte(absorb(reg, bytes.drop_last()), bytes.last())
    }
}

/// The CRC-32 of `bytes`.
pub open spec fn crc32(bytes: Seq<u8>) -> u32 {
    absorb(ALL_ONES, bytes) ^ ALL_ONES
}

/// Shifts the register once.
fn shift(reg: u32) -> (out: u32)
    ensures
        out == shift_once(reg),
{
    if reg & 1 == 1 {
        (reg >> 1) ^ POLYNOMIAL
    } else {
        reg >> 1
    }
}

/// Takes one byte into the register.
fn step(reg: u32, byte: u8) -> (out: u32)
    ensures
        out == absorb_byte(reg, byte),
{
    let mut r: u32 = reg ^ (byte as u32);
    r = shift(r);
    r = shift(r);
    r = shift(r);
    r = shift(r);
    r = shift(r);
    r = shift(r);
    r = shift(r);
    shift(r)
}

/// Computes the CRC-32 of `bytes`.
pub fn checksum(bytes: &[u8]) -> (sum: u32)
    ensures
        sum == crc32(bytes@),
{
    let mut reg: u32 = ALL_ONES;
    let mut i: usize = 0;
    while i < bytes.len()
        invariant
            i <= bytes.len(),
            reg == absorb(ALL_ONES, bytes@.take(i as int)),
        decreases bytes.len() - i,
    {
        proof {
            let next = bytes@.take(i + 1);
            assert(next.drop_last() == bytes@.take(i as int));
            assert(next.last() == bytes@[i as int]);
        }
        reg = step(reg, bytes[i]);
        i += 1;
    }
    proof {
        assert(bytes@.take(i as int) == bytes@);
    }
    reg ^ ALL_ONES
}

} // verus!
