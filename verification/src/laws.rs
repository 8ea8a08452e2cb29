//! The laws of the machine: properties that hold of every register
//! value, every byte pair, every stack pointer and every memory address,
//! proved once and for all over the spec-level semantics.

use vstd::prelude::*;
use crate::state::{
    CpuV, flag_bit, hi8, lemma_mk_f_bits, lemma_pair16_join, lemma_pair16_parts,
    lemma_wrap16_id, lo8, pair16, pairpos_get, pairpos_set, pairpos_valid, reg8_get, reg8_set,
    wrap16, wrap8,
};
use crate::isa::{ALU3, Instr, R16STK, r16stk_get};
use crate::ops::{alu_a_n8_spec, alu_flags, daa_spec, pop_r16stk_spec, pop_val, push_r16stk_spec};
use crate::step::{instr_apply, step_spec};

verus! {

/// Incrementing then decrementing an 8-bit register restores it: the two
/// wraparounds (modulo 256) are symmetric.
pub proof fn lemma_inc_dec_r8(s: CpuV, pos: u8)
    requires
        pos < 8,
    ensures
        ({
            let s1 = reg8_set(s, pos, wrap8(reg8_get(s, pos) + 1));
            let s2 = reg8_set(s1, pos, wrap8(reg8_get(s1, pos) - 1));
            s2 == s
        }),
{
    let v = reg8_get(s, pos);
    if v < 255 {
        vstd::arithmetic::div_mod::lemma_small_mod((v + 1) as nat, 256);
    }
    assert(wrap8(wrap8(v + 1) - 1) == v) by {
        vstd::arithmetic::div_mod::lemma_small_mod(v as nat, 256);
    }
}

/// Decrementing then incrementing an 8-bit register restores it.
pub proof fn lemma_dec_inc_r8(s: CpuV, pos: u8)
    requires
        pos < 8,
    ensures
        ({
            let s1 = reg8_set(s, pos, wrap8(reg8_get(s, pos) - 1));
            let s2 = reg8_set(s1, pos, wrap8(reg8_get(s1, pos) + 1));
            s2 == s
        }),
{
    let v = reg8_get(s, pos);
    if v > 0 {
        vstd::arithmetic::div_mod::lemma_small_mod((v - 1) as nat, 256);
    }
    assert(wrap8(wrap8(v - 1) + 1) == v) by {
        vstd::arithmetic::div_mod::lemma_small_mod(v as nat, 256);
    }
}

/// Incrementing then decrementing a 16-bit register pair restores it:
/// the two wraparounds (modulo 65536) are symmetric.
pub proof fn lemma_inc_dec_r16(s: CpuV, p: (u8, u8))
    requires
        pairpos_valid(p),
    ensures
        ({
            let s1 = pairpos_set(s, p, wrap16(pairpos_get(s, p) + 1));
            let s2 = pairpos_set(s1, p, wrap16(pairpos_get(s1, p) - 1));
            s2 == s
        }),
{
    let v = pairpos_get(s, p);
    let w = wrap16(v + 1);
    lemma_pair16_parts(hi8(w), lo8(w));
    lemma_pair16_join(w);
    if v < 0xffff {
        vstd::arithmetic::div_mod::lemma_small_mod((v + 1) as nat, 0x10000);
    }
    assert(wrap16(wrap16(v + 1) - 1) == v) by {
        vstd::arithmetic::div_mod::lemma_small_mod(v as nat, 0x10000);
    }
    lemma_pair16_join(v);
    lemma_pair16_parts(reg8_get(s, p.0), reg8_get(s, p.1));
}

/// Decrementing then incrementing a 16-bit register pair restores it.
pub proof fn lemma_dec_inc_r16(s: CpuV, p: (u8, u8))
    requires
        pairpos_valid(p),
    ensures
        ({
            let s1 = pairpos_set(s, p, wrap16(pairpos_get(s, p) - 1));
            let s2 = pairpos_set(s1, p, wrap16(pairpos_get(s1, p) + 1));
            s2 == s
        }),
{
    let v = pairpos_get(s, p);
    let w = wrap16(v - 1);
    lemma_pair16_parts(hi8(w), lo8(w));
    lemma_pair16_join(w);
    if v > 0 {
        vstd::arithmetic::div_mod::lemma_small_mod((v - 1) as nat, 0x10000);
    }
    assert(wrap16(wrap16(v - 1) + 1) == v) by {
        vstd::arithmetic::div_mod::lemma_small_mod(v as nat, 0x10000);
    }
    lemma_pair16_join(v);
    lemma_pair16_parts(reg8_get(s, p.0), reg8_get(s, p.1));
}

/// ADD sets Carry exactly when the true sum exceeds 255, and Half-carry
/// exactly when the low nibbles alone overflow.
pub proof fn lemma_add_carry_iff(f_old: u8, x: u8, y: u8)
    ensures
        flag_bit(alu_flags(x, y, f_old, ALU3::ADD), 4) == 1 <==> x + y > 255,
        flag_bit(alu_flags(x, y, f_old, ALU3::ADD), 5) == 1 <==> (x & 0xf) + (y & 0xf) > 0xf,
{
    lemma_mk_f_bits(f_old, wrap8(x + y) == 0, false, (x & 0xf) + (y & 0xf) > 0xf, x + y > 0xff);
}

/// SUB sets Carry exactly when it borrows (`x < y`), and Half-carry
/// exactly when the low nibble of `x` borrows.
pub proof fn lemma_sub_borrow_iff(f_old: u8, x: u8, y: u8)
    ensures
        flag_bit(alu_flags(x, y, f_old, ALU3::SUB), 4) == 1 <==> (x as int) < y as int,
        flag_bit(alu_flags(x, y, f_old, ALU3::SUB), 5) == 1 <==> (x & 0xf) < (y & 0xf),
{
    lemma_mk_f_bits(f_old, x == y, true, (x & 0xf) < (y & 0xf), (x as int) < y as int);
}

/// A valid packed-BCD byte: both nibbles are decimal digits.
pub open spec fn is_bcd(v: u8) -> bool {
    v & 0xf <= 9 && (v >> 4u8) <= 9
}

/// The decimal value encoded by a packed-BCD byte.
pub open spec fn bcd_val(v: u8) -> int {
    (v >> 4u8) * 10 + (v & 0xf)
}

/// The accumulator after a wrapped 8-bit addition followed by the
/// decimal adjustment that DAA applies in add mode.
pub open spec fn add_then_daa(x: u8, y: u8) -> u8 {
    let a1 = wrap8(x + y);
    let c2 = x + y > 0xff || a1 > 0x99;
    let low = (x & 0xf) + (y & 0xf) > 0xf || (a1 & 0xf) > 9;
    wrap8(a1 + (if c2 { 0x60int } else { 0int }) + (if low { 0x06int } else { 0int }))
}

/// The accumulator after a wrapped 8-bit subtraction followed by the
/// decimal adjustment that DAA applies in subtract mode.
pub open spec fn sub_then_daa(x: u8, y: u8) -> u8 {
    let a1 = wrap8(x - y);
    let c = (x as int) < y as int;
    let h = (x & 0xf) < (y & 0xf);
    wrap8(a1 - (if c { 0x60int } else { 0int }) - (if h { 0x06int } else { 0int }))
}

/// Adding two packed-BCD bytes and adjusting yields the packed-BCD
/// encoding of the decimal sum modulo 100, with the high adjustment
/// firing exactly on a decimal carry.
proof fn lemma_bcd_add_bits(x: u8, y: u8)
    by (bit_vector)
    requires
        x & 0xf <= 9,
        x >> 4u8 <= 9,
        y & 0xf <= 9,
        y >> 4u8 <= 9,
    ensures
        add_then_daa(x, y) & 0xf <= 9,
        add_then_daa(x, y) >> 4u8 <= 9,
        (add_then_daa(x, y) >> 4u8) * 10 + (add_then_daa(x, y) & 0xf) == ((x >> 4u8) * 10 + (x
            & 0xf) + (y >> 4u8) * 10 + (y & 0xf)) % 100,
        (wrap8(x + y) > 0x99 || x + y > 0xff) <==> (x >> 4u8) * 10 + (x & 0xf) + (y >> 4u8) * 10
            + (y & 0xf) > 99,
{
}

/// Subtracting two packed-BCD bytes and adjusting yields the packed-BCD
/// encoding of the decimal difference modulo 100.
proof fn lemma_bcd_sub_bits(x: u8, y: u8)
    by (bit_vector)
    requires
        x & 0xf <= 9,
        x >> 4u8 <= 9,
        y & 0xf <= 9,
        y >> 4u8 <= 9,
    ensures
        sub_then_daa(x, y) & 0xf <= 9,
        sub_then_daa(x, y) >> 4u8 <= 9,
        (sub_then_daa(x, y) >> 4u8) * 10 + (sub_then_daa(x, y) & 0xf) == ((x >> 4u8) * 10 + (x
            & 0xf) + 100 - ((y >> 4u8) * 10 + (y & 0xf))) % 100,
        ((x as int) < y as int) <==> (x >> 4u8) * 10 + (x & 0xf) < (y >> 4u8) * 10 + (y & 0xf),
{
}

/// DAA after ADD of two valid packed-BCD bytes yields a valid packed-BCD
/// accumulator that encodes the decimal sum modulo 100, with Carry set
/// exactly when the decimal sum exceeds 99.
pub proof fn lemma_daa_after_add(s: CpuV, x: u8, y: u8)
    requires
        s.a == x,
        is_bcd(x),
        is_bcd(y),
    ensures
        ({
            let s2 = daa_spec(alu_a_n8_spec(s, y, ALU3::ADD));
            is_bcd(s2.a) && bcd_val(s2.a) == (bcd_val(x) + bcd_val(y)) % 100 && (flag_bit(
                s2.f,
                4,
            ) == 1 <==> bcd_val(x) + bcd_val(y) > 99)
        }),
{
    let s1 = alu_a_n8_spec(s, y, ALU3::ADD);
    let z1 = wrap8(x + y) == 0;
    let h1 = (x & 0xf) + (y & 0xf) > 0xf;
    let c1 = x + y > 0xff;
    lemma_mk_f_bits(s.f, z1, false, h1, c1);
    let a1 = s1.a;
    let c2 = c1 || a1 > 0x99;
    let low = h1 || (a1 & 0xf) > 9;
    let adj = (if c2 { 0x60int } else { 0int }) + (if low { 0x06int } else { 0int });
    let a2 = wrap8(a1 + adj);
    assert(a2 == add_then_daa(x, y));
    lemma_bcd_add_bits(x, y);
    let s2 = daa_spec(s1);
    assert(s2.a == a2);
    lemma_mk_f_bits(s1.f, a2 == 0, false, false, c2);
}

/// DAA after SUB of two valid packed-BCD bytes yields a valid packed-BCD
/// accumulator that encodes the decimal difference modulo 100, with
/// Carry set exactly on a decimal borrow.
pub proof fn lemma_daa_after_sub(s: CpuV, x: u8, y: u8)
    requires
        s.a == x,
        is_bcd(x),
        is_bcd(y),
    ensures
        ({
            let s2 = daa_spec(alu_a_n8_spec(s, y, ALU3::SUB));
            is_bcd(s2.a) && bcd_val(s2.a) == (bcd_val(x) - bcd_val(y)) % 100 && (flag_bit(
                s2.f,
                4,
            ) == 1 <==> bcd_val(x) < bcd_val(y))
        }),
{
    let s1 = alu_a_n8_spec(s, y, ALU3::SUB);
    let z1 = x == y;
    let h1 = (x & 0xf) < (y & 0xf);
    let c1 = (x as int) < y as int;
    lemma_mk_f_bits(s.f, z1, true, h1, c1);
    let a1 = s1.a;
    let adj = (if c1 { 0x60int } else { 0int }) + (if h1 { 0x06int } else { 0int });
    let a2 = wrap8(a1 - adj);
    assert(a2 == sub_then_daa(x, y));
    lemma_bcd_sub_bits(x, y);
    let s2 = daa_spec(s1);
    assert(s2.a == a2);
    lemma_mk_f_bits(s1.f, a2 == 0, true, false, c1);
    vstd::arithmetic::div_mod::lemma_mod_add_multiples_vanish(
        bcd_val(x) - bcd_val(y),
        100,
    );
}

/// PUSH then POP of any 16-bit register pair restores exactly the pushed
/// value and leaves the stack pointer unchanged, for any starting stack
/// pointer that is not within two bytes of an address-space boundary.
pub proof fn lemma_push_pop(s: CpuV, r16stk: R16STK)
    requires
        s.ram.len() == 65536,
        2 <= s.sp <= 0xfffd,
    ensures
        ({
            let s2 = pop_r16stk_spec(push_r16stk_spec(s, r16stk), r16stk);
            r16stk_get(s2, r16stk) == r16stk_get(s, r16stk) && s2.sp == s.sp
        }),
{
    let v = r16stk_get(s, r16stk);
    lemma_wrap16_id(s.sp - 1);
    lemma_wrap16_id(s.sp - 2);
    let s1 = push_r16stk_spec(s, r16stk);
    lemma_wrap16_id(s.sp - 2 + 1);
    lemma_wrap16_id(s.sp - 2 + 2);
    assert(pop_val(s1) == pair16(hi8(v), lo8(v))) by {
        assert(s1.ram[(s.sp - 1) as int] == hi8(v));
        assert(s1.ram[(s.sp - 2) as int] == lo8(v));
    }
    lemma_pair16_join(v);
    lemma_pair16_parts(hi8(v), lo8(v));
}

/// A byte written to working memory is returned unchanged by the next
/// read of the same address.
pub proof fn lemma_ram_round_trip(s: CpuV, addr: u16, data: u8)
    requires
        s.ram.len() == 65536,
    ensures
        s.ram.update(addr as int, data)[addr as int] == data,
{
}

/// A write to any other address leaves the byte alone: it stays until
/// overwritten.
pub proof fn lemma_ram_frame(s: CpuV, addr: u16, other: u16, data: u8)
    requires
        s.ram.len() == 65536,
        addr != other,
    ensures
        s.ram.update(other as int, data)[addr as int] == s.ram[addr as int],
{
}

/// No instruction moves the cycle counter backwards.
#[verifier::rlimit(100)]
#[verifier::spinoff_prover]
pub proof fn lemma_instr_cycles_monotonic(s: CpuV, i: Instr, b1: u8, b2: u8)
    ensures
        instr_apply(s, i, b1, b2).cyc >= s.cyc,
{
}

/// One full step never decreases the cycle counter: it is a monotonically
/// non-decreasing accumulator.
pub proof fn lemma_step_cycles_monotonic(s: CpuV)
    ensures
        step_spec(s).cyc >= s.cyc,
{
    lemma_instr_cycles_monotonic(
        s,
        crate::isa::decode(s.rom[s.pc as int]),
        s.rom[s.pc + 1],
        s.rom[s.pc + 2],
    );
}

} // verus!
