//! The ghost machine state and the numeric building blocks of the
//! instruction semantics: modular (wraparound) arithmetic, 16-bit register
//! pairing, and the flag-byte layout of the F register.

use vstd::prelude::*;

verus! {

/// The complete, mathematical state of the simulated machine.
///
/// Eight 8-bit registers, the 16-bit program counter and stack pointer,
/// the unbounded cycle counter, the interrupt-enable flag, the 65536-byte
/// working memory and the immutable (padded) instruction store.
#[verifier::ext_equal]
pub ghost struct CpuV {
    pub a: u8,
    pub f: u8,
    pub b: u8,
    pub c: u8,
    pub d: u8,
    pub e: u8,
    pub h: u8,
    pub l: u8,
    pub pc: u16,
    pub sp: u16,
    pub cyc: nat,
    pub ime: bool,
    pub ram: Seq<u8>,
    pub rom: Seq<u8>,
}

/// `x` reduced modulo 256: every 8-bit register operation wraps.
pub open spec fn wrap8(x: int) -> u8 {
    (x % 256) as u8
}

/// `x` reduced modulo 65536: every 16-bit register or pointer operation wraps.
pub open spec fn wrap16(x: int) -> u16 {
    (x % 0x10000) as u16
}

/// A 16-bit register pair composed from its high and low bytes.
pub open spec fn pair16(hi: u8, lo: u8) -> u16 {
    (hi * 256 + lo) as u16
}

/// High byte of a 16-bit value.
pub open spec fn hi8(v: u16) -> u8 {
    (v / 256) as u8
}

/// Low byte of a 16-bit value.
pub open spec fn lo8(v: u16) -> u8 {
    (v % 256) as u8
}

/// The value (0 or 1) of bit `b` of `f`.
pub open spec fn flag_bit(f: u8, b: u8) -> u8 {
    (f >> b) & 1
}

/// The F register rebuilt from the four flags: bit 7 = Zero, bit 6 =
/// Subtract, bit 5 = Half-carry, bit 4 = Carry.  The unused low nibble is
/// carried over from the previous F value.
pub open spec fn mk_f(f_old: u8, z: bool, n: bool, h: bool, c: bool) -> u8 {
    ((if z { 0x80u8 } else { 0u8 }) | (if n { 0x40u8 } else { 0u8 })
        | (if h { 0x20u8 } else { 0u8 }) | (if c { 0x10u8 } else { 0u8 })) | (f_old & 0x0f)
}

/// The shared arithmetic-flag algorithm, 8-bit width.
///
/// Addition (`n == false`): Zero iff the wrapped sum is 0, Half-carry iff
/// the low nibbles overflow, Carry iff the full bytes overflow.
/// Subtraction (`n == true`): Zero iff the operands are equal, Half-carry
/// iff the low nibble of `x` borrows, Carry iff `x < y`.
pub open spec fn flags8(f_old: u8, x: u8, y: u8, n: bool) -> u8 {
    if !n {
        mk_f(f_old, wrap8(x + y) == 0, false, (x & 0xf) + (y & 0xf) > 0xf, x + y > 0xff)
    } else {
        mk_f(f_old, x == y, true, (x & 0xf) < (y & 0xf), (x as int) < y as int)
    }
}

/// The shared arithmetic-flag algorithm, 16-bit width: Half-carry at the
/// bit-11 boundary, Carry at the bit-15 boundary, Zero left unchanged.
pub open spec fn flags16(f_old: u8, x: u16, y: u16, n: bool) -> u8 {
    if !n {
        mk_f(f_old, flag_bit(f_old, 7) == 1, false, (x & 0xfff) + (y & 0xfff) > 0xfff,
            x + y > 0xffff)
    } else {
        mk_f(f_old, flag_bit(f_old, 7) == 1, true, (x & 0xfff) < (y & 0xfff),
            (x as int) < y as int)
    }
}

/// Each flag bit of a rebuilt F register reads back as the flag it was
/// built from, and the low nibble is untouched.
pub proof fn lemma_mk_f_bits(f_old: u8, z: bool, n: bool, h: bool, c: bool)
    by (bit_vector)
    ensures
        flag_bit(mk_f(f_old, z, n, h, c), 7) == (if z { 1u8 } else { 0u8 }),
        flag_bit(mk_f(f_old, z, n, h, c), 6) == (if n { 1u8 } else { 0u8 }),
        flag_bit(mk_f(f_old, z, n, h, c), 5) == (if h { 1u8 } else { 0u8 }),
        flag_bit(mk_f(f_old, z, n, h, c), 4) == (if c { 1u8 } else { 0u8 }),
        mk_f(f_old, z, n, h, c) & 0x0f == f_old & 0x0f,
{
}

/// The 8-bit register cell at index `pos`: 0 = A, 1 = F, 2 = B, 3 = C,
/// 4 = D, 5 = E, 6 = H, 7 = L.
pub open spec fn reg8_get(s: CpuV, pos: u8) -> u8 {
    if pos == 0 {
        s.a
    } else if pos == 1 {
        s.f
    } else if pos == 2 {
        s.b
    } else if pos == 3 {
        s.c
    } else if pos == 4 {
        s.d
    } else if pos == 5 {
        s.e
    } else if pos == 6 {
        s.h
    } else {
        s.l
    }
}

/// The state with the 8-bit register cell at index `pos` replaced by `v`.
pub open spec fn reg8_set(s: CpuV, pos: u8, v: u8) -> CpuV {
    if pos == 0 {
        CpuV { a: v, ..s }
    } else if pos == 1 {
        CpuV { f: v, ..s }
    } else if pos == 2 {
        CpuV { b: v, ..s }
    } else if pos == 3 {
        CpuV { c: v, ..s }
    } else if pos == 4 {
        CpuV { d: v, ..s }
    } else if pos == 5 {
        CpuV { e: v, ..s }
    } else if pos == 6 {
        CpuV { h: v, ..s }
    } else {
        CpuV { l: v, ..s }
    }
}

/// The four legal 16-bit pairings: AF, BC, DE, HL, each named by the
/// indices of its high and low register.
pub open spec fn pairpos_valid(p: (u8, u8)) -> bool {
    p == (0u8, 1u8) || p == (2u8, 3u8) || p == (4u8, 5u8) || p == (6u8, 7u8)
}

/// The 16-bit value of the register pair `p`.
pub open spec fn pairpos_get(s: CpuV, p: (u8, u8)) -> u16 {
    pair16(reg8_get(s, p.0), reg8_get(s, p.1))
}

/// The state with the register pair `p` replaced by `v`.
pub open spec fn pairpos_set(s: CpuV, p: (u8, u8), v: u16) -> CpuV {
    reg8_set(reg8_set(s, p.0, hi8(v)), p.1, lo8(v))
}

/// Splitting a composed pair recovers both bytes.
pub proof fn lemma_pair16_parts(hi: u8, lo: u8)
    ensures
        hi8(pair16(hi, lo)) == hi,
        lo8(pair16(hi, lo)) == lo,
{
    vstd::arithmetic::div_mod::lemma_div_multiples_vanish_fancy(hi as int, lo as int, 256);
    vstd::arithmetic::div_mod::lemma_mod_multiples_vanish(hi as int, lo as int, 256);
    vstd::arithmetic::div_mod::lemma_small_mod(lo as nat, 256);
    assert(256 * hi + lo == hi * 256 + lo);
}

/// Composing the two bytes of a 16-bit value recovers the value.
pub proof fn lemma_pair16_join(v: u16)
    ensures
        pair16(hi8(v), lo8(v)) == v,
{
    vstd::arithmetic::div_mod::lemma_fundamental_div_mod(v as int, 256);
}

/// A value already inside the 16-bit range wraps to itself.
pub proof fn lemma_wrap16_id(x: int)
    requires
        0 <= x < 0x10000,
    ensures
        wrap16(x) == x,
{
    vstd::arithmetic::div_mod::lemma_small_mod(x as nat, 0x10000);
}

/// Wrapping twice is wrapping once: adding a small step to an already
/// wrapped 8-bit value wraps to the same place as one combined addition.
pub proof fn lemma_wrap8_add(x: int, y: int)
    requires
        0 <= y < 256,
    ensures
        wrap8(wrap8(x) + y) == wrap8(x + y),
{
    vstd::arithmetic::div_mod::lemma_add_mod_noop(x, y, 256);
    vstd::arithmetic::div_mod::lemma_small_mod(y as nat, 256);
}

/// The subtraction counterpart of [`lemma_wrap8_add`].
pub proof fn lemma_wrap8_sub(x: int, y: int)
    requires
        0 <= y < 256,
    ensures
        wrap8(wrap8(x) - y) == wrap8(x - y),
{
    vstd::arithmetic::div_mod::lemma_sub_mod_noop(x, y, 256);
    vstd::arithmetic::div_mod::lemma_small_mod(y as nat, 256);
}

/// Wrapping twice is wrapping once, 16-bit form.
pub proof fn lemma_wrap16_add(x: int, y: int)
    requires
        0 <= y < 0x10000,
    ensures
        wrap16(wrap16(x) + y) == wrap16(x + y),
{
    vstd::arithmetic::div_mod::lemma_add_mod_noop(x, y, 0x10000);
    vstd::arithmetic::div_mod::lemma_small_mod(y as nat, 0x10000);
}

/// The subtraction counterpart of [`lemma_wrap16_add`].
pub proof fn lemma_wrap16_sub(x: int, y: int)
    requires
        0 <= y < 0x10000,
    ensures
        wrap16(wrap16(x) - y) == wrap16(x - y),
{
    vstd::arithmetic::div_mod::lemma_sub_mod_noop(x, y, 0x10000);
    vstd::arithmetic::div_mod::lemma_small_mod(y as nat, 0x10000);
}

/// Wrapping 8-bit addition.
pub fn wadd8(x: u8, y: u8) -> (r: u8)
    ensures
        r == wrap8(x + y),
{
    (((x as u16) + (y as u16)) % 256) as u8
}

/// Wrapping 8-bit subtraction.
pub fn wsub8(x: u8, y: u8) -> (r: u8)
    ensures
        r == wrap8(x - y),
{
    proof {
        vstd::arithmetic::div_mod::lemma_mod_add_multiples_vanish(x - y, 256);
    }
    (((x as u16) + 256 - (y as u16)) % 256) as u8
}

/// Wrapping 16-bit addition.
pub fn wadd16(x: u16, y: u16) -> (r: u16)
    ensures
        r == wrap16(x + y),
{
    (((x as u32) + (y as u32)) % 0x10000) as u16
}

/// Wrapping 16-bit subtraction.
pub fn wsub16(x: u16, y: u16) -> (r: u16)
    ensures
        r == wrap16(x - y),
{
    proof {
        vstd::arithmetic::div_mod::lemma_mod_add_multiples_vanish(x - y, 0x10000);
    }
    (((x as u32) + 0x10000 - (y as u32)) % 0x10000) as u16
}

/// The F register rebuilt from the four flags, executable form.
pub fn mk_f_exec(f_old: u8, z: bool, n: bool, h: bool, c: bool) -> (r: u8)
    ensures
        r == mk_f(f_old, z, n, h, c),
{
    ((if z { 0x80u8 } else { 0u8 }) | (if n { 0x40u8 } else { 0u8 })
        | (if h { 0x20u8 } else { 0u8 }) | (if c { 0x10u8 } else { 0u8 })) | (f_old & 0x0f)
}

} // verus!
