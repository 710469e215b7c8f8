//! Real-mode address arithmetic: 16-bit wraparound sums and the fold of a
//! segment:offset pair into the 20-bit physical address space.

use vstd::prelude::*;
use vstd::arithmetic::div_mod::lemma_fundamental_div_mod_converse;
use vstd::arithmetic::div_mod::lemma_add_mod_noop_right;
use vstd::arithmetic::div_mod::lemma_small_mod;

verus! {

/// The value a 16-bit register holds after an unbounded sum: the sum reduced
/// modulo 2^16, reproducing hardware wraparound such as `0xFFFF + 1 == 0`.
pub open spec fn wrap16(v: int) -> u16 {
    (v % 0x10000) as u16
}

/// The 20-bit physical address a segment:offset pair denotes:
/// `(segment * 16 + offset) % 2^20`, so that pairs near the top of the
/// 1 MiB space wrap to low addresses instead of faulting.
pub open spec fn spec_linear_address(segment: u16, offset: u16) -> int {
    (segment * 16 + offset) % 0x100000
}

/// 16-bit wraparound addition of two unsigned values.
pub fn add_wrap16(a: u16, b: u16) -> (r: u16)
    ensures
        r == wrap16(a + b),
{
    proof {
        if a + b > 0xFFFF {
            lemma_fundamental_div_mod_converse(a + b, 0x10000, 1, a + b - 0x10000);
        } else {
            lemma_fundamental_div_mod_converse(a + b, 0x10000, 0, a + b);
        }
    }
    a.wrapping_add(b)
}

/// 16-bit wraparound addition of an unsigned base and a sign-extended
/// 8-bit displacement.
pub fn add_wrap16_disp8(a: u16, d: i8) -> (r: u16)
    ensures
        r == wrap16(a + d),
{
    proof {
        if a + d > 0xFFFF {
            lemma_fundamental_div_mod_converse(a + d, 0x10000, 1, a + d - 0x10000);
        } else if a + d < 0 {
            lemma_fundamental_div_mod_converse(a + d, 0x10000, -1, a + d + 0x10000);
        } else {
            lemma_fundamental_div_mod_converse(a + d, 0x10000, 0, a + d);
        }
    }
    a.wrapping_add_signed(d as i16)
}

/// A 16-bit value already is its own 16-bit wraparound.
pub proof fn lemma_wrap16_id(x: u16)
    ensures
        wrap16(x as int) == x,
{
    lemma_small_mod(x as nat, 0x10000);
}

/// Wrapping an already-wrapped partial sum before adding the rest changes
/// nothing: `wrap16(wrap16(a) + d) == wrap16(a + d)`.
pub proof fn lemma_wrap16_compose(a: int, d: int)
    ensures
        wrap16(wrap16(a) + d) == wrap16(a + d),
{
    lemma_add_mod_noop_right(d, a, 0x10000);
}

/// The unsigned byte that holds the same bit pattern as a signed byte.
pub open spec fn u8_bits(v: i8) -> u8 {
    if v < 0 {
        (v + 0x100) as u8
    } else {
        v as u8
    }
}

/// The unsigned word that holds the same bit pattern as a signed word.
pub open spec fn u16_bits(v: i16) -> u16 {
    if v < 0 {
        (v + 0x10000) as u16
    } else {
        v as u16
    }
}

/// Reinterprets a signed byte as unsigned, preserving the bits.
pub fn to_u8_bits(v: i8) -> (r: u8)
    ensures
        r == u8_bits(v),
{
    if v < 0 {
        ((v as i16) + 0x100) as u8
    } else {
        v as u8
    }
}

/// Reinterprets a signed word as unsigned, preserving the bits.
pub fn to_u16_bits(v: i16) -> (r: u16)
    ensures
        r == u16_bits(v),
{
    if v < 0 {
        ((v as i32) + 0x10000) as u16
    } else {
        v as u16
    }
}

/// Folds a segment:offset pair into its linear (physical) address. The 8086
/// forms the address as `segment * 16 + offset` and keeps only 20 bits, so a
/// pair such as `FFFF:0010` wraps around to address 0.
pub fn get_linear_address(segment: u16, offset: u16) -> (r: u32)
    ensures
        r == spec_linear_address(segment, offset),
        r < 0x100000,
{
    ((segment as u32) * 16 + (offset as u32)) % 0x100000
}

} // verus!
