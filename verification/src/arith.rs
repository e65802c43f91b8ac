//! 8-bit and 16-bit arithmetic primitives of the 8080: byte/word packing,
//! additions and subtractions with carry/borrow and auxiliary-carry results,
//! wrapping 16-bit arithmetic, and the parity of a byte.

use vstd::prelude::*;

verus! {

/// The numeric value of a carry-in bit.
pub open spec fn carry_in(c: bool) -> int {
    if c {
        1
    } else {
        0
    }
}

/// The 16-bit word formed from a low and a high byte.
pub open spec fn word(lo: u8, hi: u8) -> u16 {
    (hi * 256 + lo) as u16
}

/// The low byte of a 16-bit word.
pub open spec fn lo8(x: u16) -> u8 {
    (x % 256) as u8
}

/// The high byte of a 16-bit word.
pub open spec fn hi8(x: u16) -> u8 {
    (x / 256) as u8
}

/// Packs a low and a high byte into a 16-bit word.
pub fn to_u16(l: u8, h: u8) -> (r: u16)
    ensures
        r == word(l, h),
{
    (h as u16) * 256 + (l as u16)
}

/// Splits a 16-bit word into its high and low bytes.
pub fn to_u8(x: u16) -> (r: (u8, u8))
    ensures
        r.0 == hi8(x),
        r.1 == lo8(x),
{
    let h: u8 = (x / 256) as u8;
    let l: u8 = (x % 256) as u8;
    (h, l)
}

/// 16-bit addition, wrapping modulo 2^16.
pub open spec fn wrap_add16(x: u16, y: u16) -> u16 {
    if x + y > 0xffff {
        (x + y - 0x10000) as u16
    } else {
        (x + y) as u16
    }
}

/// 16-bit subtraction, wrapping modulo 2^16.
pub open spec fn wrap_sub16(x: u16, y: u16) -> u16 {
    if x - y < 0 {
        (x - y + 0x10000) as u16
    } else {
        (x - y) as u16
    }
}

/// Whether a 16-bit addition overflows (the DAD carry rule).
pub open spec fn add16_cy(x: u16, y: u16) -> bool {
    x + y >= 0x10000
}

/// 16-bit addition returning the wrapped sum and the carry-out.
pub fn add_u16(a: u16, b: u16) -> (r: (u16, bool))
    ensures
        r.0 == wrap_add16(a, b),
        r.1 == add16_cy(a, b),
{
    let sum: u32 = a as u32 + b as u32;
    if sum > 0xffff {
        ((sum - 0x10000) as u16, true)
    } else {
        (sum as u16, false)
    }
}

/// The 8-bit sum `a + b + carry`, wrapping modulo 256.
pub open spec fn add8(a: u8, b: u8, c: bool) -> u8 {
    if a + b + carry_in(c) > 255 {
        (a + b + carry_in(c) - 256) as u8
    } else {
        (a + b + carry_in(c)) as u8
    }
}

/// Whether `a + b + carry` carries out of bit 7 (the CY rule for additions).
pub open spec fn add8_cy(a: u8, b: u8, c: bool) -> bool {
    a + b + carry_in(c) >= 256
}

/// Whether `a + b + carry` carries out of bit 3 (the AC rule for additions).
pub open spec fn add8_ac(a: u8, b: u8, c: bool) -> bool {
    a % 16 + b % 16 + carry_in(c) > 15
}

/// 8-bit addition with carry-in, returning the sum and the CY and AC flags.
pub fn add_with_carry(a: u8, b: u8, c: bool) -> (r: (u8, bool, bool))
    ensures
        r.0 == add8(a, b, c),
        r.1 == add8_cy(a, b, c),
        r.2 == add8_ac(a, b, c),
{
    let cv: u16 = if c {
        1
    } else {
        0
    };
    let sum: u16 = a as u16 + b as u16 + cv;
    let out: u8 = if sum > 255 {
        (sum - 256) as u8
    } else {
        sum as u8
    };
    let ac: bool = a % 16 + b % 16 + (cv as u8) > 15;
    (out, sum >= 256, ac)
}

/// The 8-bit difference `a - b - borrow`, wrapping modulo 256.
pub open spec fn sub8(a: u8, b: u8, c: bool) -> u8 {
    if a - b - carry_in(c) < 0 {
        (a - b - carry_in(c) + 256) as u8
    } else {
        (a - b - carry_in(c)) as u8
    }
}

/// Whether `a - b - borrow` borrows (the CY rule for subtractions).
pub open spec fn sub8_cy(a: u8, b: u8, c: bool) -> bool {
    a - b - carry_in(c) < 0
}

/// The 8080 nibble rule for AC on subtractions: AC is set exactly when no
/// borrow leaves bit 3, that is when `(a & 0x0f) + (!b & 0x0f) + !borrow`
/// exceeds 0x0f.
pub open spec fn sub8_ac(a: u8, b: u8, c: bool) -> bool {
    a % 16 >= b % 16 + carry_in(c)
}

/// 8-bit subtraction with borrow-in, returning the difference and the CY and
/// AC flags.
pub fn sub_with_borrow(a: u8, b: u8, c: bool) -> (r: (u8, bool, bool))
    ensures
        r.0 == sub8(a, b, c),
        r.1 == sub8_cy(a, b, c),
        r.2 == sub8_ac(a, b, c),
{
    let cv: u16 = if c {
        1
    } else {
        0
    };
    let shifted: u16 = a as u16 + 256;
    let diff: u16 = shifted - b as u16 - cv;
    let out: u8 = if diff > 255 {
        (diff - 256) as u8
    } else {
        diff as u8
    };
    let ac: bool = a % 16 >= b % 16 + (cv as u8);
    (out, diff < 256, ac)
}

/// Splitting a word into its bytes and packing them again gives the word
/// back.
pub proof fn lemma_word_roundtrip(x: u16)
    ensures
        word(lo8(x), hi8(x)) == x,
{
}

/// Packing two bytes into a word and unpacking it gives the bytes back.
pub proof fn lemma_word_parts(l: u8, h: u8)
    ensures
        lo8(word(l, h)) == l,
        hi8(word(l, h)) == h,
{
}

/// The accumulator after RLC: rotated left by one, bit 7 moving into bit 0.
pub open spec fn rlc_val(a: u8) -> u8 {
    ((a % 128) * 2 + a / 128) as u8
}

/// The accumulator after RRC: rotated right by one, bit 0 moving into bit 7.
pub open spec fn rrc_val(a: u8) -> u8 {
    (a / 2 + (a % 2) * 128) as u8
}

/// The accumulator after RAL: shifted left through the carry, which enters
/// at bit 0.
pub open spec fn ral_val(a: u8, cy: bool) -> u8 {
    ((a % 128) * 2 + carry_in(cy)) as u8
}

/// The accumulator after RAR: shifted right through the carry, which enters
/// at bit 7.
pub open spec fn rar_val(a: u8, cy: bool) -> u8 {
    (a / 2 + carry_in(cy) * 128) as u8
}

/// The carry left by RLC and RAL: the old bit 7.
pub open spec fn rot_left_cy(a: u8) -> bool {
    a >= 128
}

/// The carry left by RRC and RAR: the old bit 0.
pub open spec fn rot_right_cy(a: u8) -> bool {
    a % 2 == 1
}

/// Rotating left and then right restores the accumulator.
pub proof fn lemma_rotate_round_trip(a: u8)
    by (bit_vector)
    ensures
        rrc_val(rlc_val(a)) == a,
        rlc_val(rrc_val(a)) == a,
{
}

/// Whether the first DAA stage applies: the low nibble exceeds 9, or AC is
/// set.
pub open spec fn daa_low(a: u8, ac: bool) -> bool {
    a % 16 > 9 || ac
}

/// The accumulator after the first DAA stage (0x06 added when it applies).
pub open spec fn daa_a1(a: u8, ac: bool) -> u8 {
    if daa_low(a, ac) {
        add8(a, 6, false)
    } else {
        a
    }
}

/// The carry after the first DAA stage: sticky, never cleared.
pub open spec fn daa_cy1(a: u8, ac: bool, cy: bool) -> bool {
    cy || (daa_low(a, ac) && add8_cy(a, 6, false))
}

/// Whether the second DAA stage applies: the high nibble (after the first
/// stage) exceeds 9, or a carry is pending.
pub open spec fn daa_high(a: u8, ac: bool, cy: bool) -> bool {
    daa_a1(a, ac) / 16 > 9 || daa_cy1(a, ac, cy)
}

/// The accumulator after DAA (0x60 added when the second stage applies).
pub open spec fn daa_result(a: u8, ac: bool, cy: bool) -> u8 {
    if daa_high(a, ac, cy) {
        add8(daa_a1(a, ac), 0x60, false)
    } else {
        daa_a1(a, ac)
    }
}

/// The carry after DAA: set once either stage carries, and kept if it was
/// already set.
pub open spec fn daa_cy_out(a: u8, ac: bool, cy: bool) -> bool {
    daa_cy1(a, ac, cy) || (daa_high(a, ac, cy) && add8_cy(daa_a1(a, ac), 0x60, false))
}

/// The auxiliary carry after DAA: the carry out of bit 3 of the first-stage
/// addition.
pub open spec fn daa_ac_out(a: u8, ac: bool) -> bool {
    daa_low(a, ac) && add8_ac(a, 6, false)
}

/// The number of set bits in a non-negative integer.
pub open spec fn popcount(n: int) -> nat
    decreases n,
{
    if n <= 0 {
        0
    } else {
        (n % 2) as nat + popcount(n / 2)
    }
}

/// Whether a byte has an even number of set bits (the 8080 P flag value).
pub open spec fn parity_even(b: u8) -> bool {
    popcount(b as int) % 2 == 0
}

/// The number of set bits never exceeds the number itself.
pub proof fn lemma_popcount_bound(n: int)
    requires
        0 <= n,
    ensures
        popcount(n) <= n,
    decreases n,
{
    if n > 0 {
        lemma_popcount_bound(n / 2);
    }
}

/// Computes whether a byte has an even number of set bits.
pub fn parity_even_of(b: u8) -> (r: bool)
    ensures
        r == parity_even(b),
{
    let mut x: u8 = b;
    let mut count: u8 = 0;
    proof {
        lemma_popcount_bound(b as int);
    }
    while x > 0
        invariant
            count + popcount(x as int) == popcount(b as int),
            popcount(b as int) <= 255,
        decreases x,
    {
        count = count + x % 2;
        x = x / 2;
    }
    count % 2 == 0
}

} // verus!
