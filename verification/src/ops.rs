//! The instruction handlers.  Each handler is parameterized by its
//! operand selectors, mutates the machine through the accessor layer, and
//! carries a contract equating its effect with a spec-level transition
//! function over [`CpuV`].

use vstd::prelude::*;
use crate::state::{
    CpuV, flag_bit, flags16, flags8, hi8, lo8, lemma_wrap16_add, lemma_wrap16_sub, mk_f,
    mk_f_exec, pair16, pairpos_set, wadd8, wadd16, wrap16, wrap8, wsub8, wsub16,
};
use crate::cpu::SoC;
use crate::isa::{
    ALU3, BOP3, COND, R16, R16RAM, R16STK, R8, TGT3, cond_holds, get_cond_by_idx, get_r16_by_idx,
    get_r16stk_by_idx, get_r8_by_idx, r16ram_addr, r16ram_bump, r16stk_get, r16stk_set, r16v_get,
    r16v_set, r8_is_mem, r8v_get, r8v_set, set_r8_by_idx, tgt3_addr, tgt3_val,
};

verus! {

/// The state after an instruction that moves the program counter forward
/// by `dpc` bytes and costs `dcyc` machine cycles.
pub open spec fn advance(s: CpuV, dpc: int, dcyc: nat) -> CpuV {
    CpuV { pc: wrap16(s.pc + dpc), cyc: s.cyc + dcyc, ..s }
}

/// The state after a jump to `target` costing `dcyc` cycles.
pub open spec fn jumped(s: CpuV, target: u16, dcyc: nat) -> CpuV {
    CpuV { pc: target, cyc: s.cyc + dcyc, ..s }
}

/// The accumulator result of an ALU operation (CP leaves it unchanged).
pub open spec fn alu_res(a: u8, y: u8, f: u8, op: ALU3) -> u8 {
    let cin = flag_bit(f, 4);
    match op {
        ALU3::ADD => wrap8(a + y),
        ALU3::ADC => wrap8(a + y + cin),
        ALU3::SUB => wrap8(a - y),
        ALU3::SBC => wrap8(a - y - cin),
        ALU3::AND => a & y,
        ALU3::XOR => a ^ y,
        ALU3::OR => a | y,
        ALU3::CP => a,
    }
}

/// The flag result of an ALU operation.  The arithmetic ones route
/// through the shared algorithm [`flags8`]; ADC and SBC fold the carry-in
/// into the second operand before the flag computation; the bitwise ones
/// compute Zero from the result and fix the rest to their constants.
pub open spec fn alu_flags(a: u8, y: u8, f: u8, op: ALU3) -> u8 {
    let cin = flag_bit(f, 4);
    match op {
        ALU3::ADD => flags8(f, a, y, false),
        ALU3::ADC => flags8(f, a, wrap8(y + cin), false),
        ALU3::SUB => flags8(f, a, y, true),
        ALU3::SBC => flags8(f, a, wrap8(y + cin), true),
        ALU3::AND => mk_f(f, a & y == 0, false, true, false),
        ALU3::XOR => mk_f(f, a ^ y == 0, false, false, false),
        ALU3::OR => mk_f(f, a | y == 0, false, false, false),
        ALU3::CP => flags8(f, a, y, true),
    }
}

/// The value written back by a rotate/shift operation.
pub open spec fn rot_res(v: u8, f: u8, op: BOP3) -> u8 {
    match op {
        BOP3::RLC => (v << 1u8) | (v >> 7u8),
        BOP3::RRC => (v >> 1u8) | ((v & 1) << 7u8),
        BOP3::RL => (v << 1u8) | flag_bit(f, 4),
        BOP3::RR => (v >> 1u8) | (flag_bit(f, 4) << 7u8),
        BOP3::SLA => v << 1u8,
        BOP3::SRA => (v >> 1u8) | (v & 0x80),
        BOP3::SWAP => (v >> 4u8) | ((v & 0xf) << 4u8),
        BOP3::SRL => v >> 1u8,
    }
}

/// The carry-out of a rotate/shift operation; SWAP always clears Carry.
pub open spec fn rot_carry(v: u8, op: BOP3) -> bool {
    match op {
        BOP3::RLC => v >= 0x80,
        BOP3::RRC => v & 1 == 1,
        BOP3::RL => v >= 0x80,
        BOP3::RR => v & 1 == 1,
        BOP3::SLA => v >= 0x80,
        BOP3::SRA => v & 1 == 1,
        BOP3::SWAP => false,
        BOP3::SRL => v & 1 == 1,
    }
}

/// A 16-bit value pushed onto the stack: high byte at SP-1, low byte at
/// SP-2, stack pointer moved down by two, everything wrapping.
pub open spec fn push16(s: CpuV, v: u16) -> CpuV {
    CpuV {
        sp: wrap16(s.sp - 2),
        ram: s.ram.update(wrap16(s.sp - 1) as int, hi8(v)).update(wrap16(s.sp - 2) as int, lo8(v)),
        ..s
    }
}

/// The 16-bit value at the top of the stack: low byte at SP, high byte at
/// SP+1.
pub open spec fn pop_val(s: CpuV) -> u16 {
    pair16(s.ram[wrap16(s.sp + 1) as int], s.ram[s.sp as int])
}

/// The state after the two stack bytes have been consumed.
pub open spec fn popped(s: CpuV) -> CpuV {
    CpuV { sp: wrap16(s.sp + 2), ..s }
}

/// NOP: program counter and cycle counter advance, nothing else changes.
pub open spec fn nop_spec(s: CpuV) -> CpuV {
    advance(s, 1, 1)
}

/// NOP (0x00).
pub fn nop(soc: &mut SoC)
    requires
        old(soc)@.cyc + 1 <= u128::MAX,
    ensures
        final(soc)@ == nop_spec(old(soc)@),
{
    soc.pc_inc(1);
    soc.cyc_inc(1);
}

/// STOP: decoded for program-counter and cycle bookkeeping only; its
/// low-power behaviour is not modeled.
pub open spec fn stop_spec(s: CpuV) -> CpuV {
    advance(s, 2, 1)
}

/// STOP (0x10).
pub fn stop(soc: &mut SoC)
    requires
        old(soc)@.cyc + 1 <= u128::MAX,
    ensures
        final(soc)@ == stop_spec(old(soc)@),
{
    soc.pc_inc(2);
    soc.cyc_inc(1);
}

/// HALT is decoded as a no-op: the state does not change, and the driver
/// uses the advisory HALT query to decide whether to stop its fetch loop.
pub fn halt(_soc: &mut SoC)
    ensures
        final(_soc)@ == old(_soc)@,
{
}

/// DI: clear the interrupt-enable flag.
pub open spec fn di_spec(s: CpuV) -> CpuV {
    advance(CpuV { ime: false, ..s }, 1, 1)
}

/// DI (0xF3).
pub fn di(soc: &mut SoC)
    requires
        old(soc)@.cyc + 1 <= u128::MAX,
    ensures
        final(soc)@ == di_spec(old(soc)@),
{
    soc.res_ime();
    soc.pc_inc(1);
    soc.cyc_inc(1);
}

/// EI: set the interrupt-enable flag.
pub open spec fn ei_spec(s: CpuV) -> CpuV {
    advance(CpuV { ime: true, ..s }, 1, 1)
}

/// EI (0xFB).
pub fn ei(soc: &mut SoC)
    requires
        old(soc)@.cyc + 1 <= u128::MAX,
    ensures
        final(soc)@ == ei_spec(old(soc)@),
{
    soc.set_ime();
    soc.pc_inc(1);
    soc.cyc_inc(1);
}

/// SCF: set Carry, clear Subtract and Half-carry, keep Zero.
pub open spec fn scf_spec(s: CpuV) -> CpuV {
    advance(CpuV { f: mk_f(s.f, flag_bit(s.f, 7) == 1, false, false, true), ..s }, 1, 1)
}

/// SCF (0x37).
pub fn scf(soc: &mut SoC)
    requires
        old(soc)@.cyc + 1 <= u128::MAX,
    ensures
        final(soc)@ == scf_spec(old(soc)@),
{
    let f: u8 = soc.get_r8(1);
    let z: bool = soc.get_flag(7) == 1;
    let newf: u8 = mk_f_exec(f, z, false, false, true);
    soc.set_r8(1, newf);
    soc.pc_inc(1);
    soc.cyc_inc(1);
}

/// CCF: complement Carry, clear Subtract and Half-carry, keep Zero.
pub open spec fn ccf_spec(s: CpuV) -> CpuV {
    advance(
        CpuV { f: mk_f(s.f, flag_bit(s.f, 7) == 1, false, false, flag_bit(s.f, 4) == 0), ..s },
        1,
        1,
    )
}

/// CCF (0x3F).
pub fn ccf(soc: &mut SoC)
    requires
        old(soc)@.cyc + 1 <= u128::MAX,
    ensures
        final(soc)@ == ccf_spec(old(soc)@),
{
    let f: u8 = soc.get_r8(1);
    let z: bool = soc.get_flag(7) == 1;
    let c: bool = soc.get_flag(4) == 0;
    let newf: u8 = mk_f_exec(f, z, false, false, c);
    soc.set_r8(1, newf);
    soc.pc_inc(1);
    soc.cyc_inc(1);
}

/// CPL: complement the accumulator, set Subtract and Half-carry, keep
/// Zero and Carry.
pub open spec fn cpl_spec(s: CpuV) -> CpuV {
    advance(
        CpuV {
            a: s.a ^ 0xff,
            f: mk_f(s.f, flag_bit(s.f, 7) == 1, true, true, flag_bit(s.f, 4) == 1),
            ..s
        },
        1,
        1,
    )
}

/// CPL (0x2F).
pub fn cpl(soc: &mut SoC)
    requires
        old(soc)@.cyc + 1 <= u128::MAX,
    ensures
        final(soc)@ == cpl_spec(old(soc)@),
{
    let a: u8 = soc.get_r8(0);
    let f: u8 = soc.get_r8(1);
    let z: bool = soc.get_flag(7) == 1;
    let c: bool = soc.get_flag(4) == 1;
    soc.set_r8(0, a ^ 0xff);
    let newf: u8 = mk_f_exec(f, z, true, true, c);
    soc.set_r8(1, newf);
    soc.pc_inc(1);
    soc.cyc_inc(1);
}

/// LD r8, r8: copy between 8-bit operands; two cycles when memory is
/// involved.
pub open spec fn ld_r8_r8_spec(s: CpuV, r8d: R8, r8s: R8) -> CpuV {
    advance(
        r8v_set(s, r8d, r8v_get(s, r8s)),
        1,
        if r8_is_mem(r8d) || r8_is_mem(r8s) {
            2nat
        } else {
            1nat
        },
    )
}

/// LD r8, r8 (0x40..0x7F except 0x76).
pub fn ld_r8_r8(soc: &mut SoC, r8d: R8, r8s: R8)
    requires
        old(soc)@.cyc + 2 <= u128::MAX,
    ensures
        final(soc)@ == ld_r8_r8_spec(old(soc)@, r8d, r8s),
{
    let v: u8 = get_r8_by_idx(soc, &r8s);
    set_r8_by_idx(soc, &r8d, v);
    soc.pc_inc(1);
    let mem: bool = match r8d {
        R8::HL => true,
        _ => match r8s {
            R8::HL => true,
            _ => false,
        },
    };
    if mem {
        soc.cyc_inc(2);
    } else {
        soc.cyc_inc(1);
    }
}

/// LD r8, n8: load an immediate into an 8-bit operand.
pub open spec fn ld_r8_n8_spec(s: CpuV, r8: R8, n8: u8) -> CpuV {
    advance(r8v_set(s, r8, n8), 2, if r8_is_mem(r8) { 3nat } else { 2nat })
}

/// LD r8, n8 (0x06, 0x0E, ..., 0x3E).
pub fn ld_r8_n8(soc: &mut SoC, r8: R8, n8: u8)
    requires
        old(soc)@.cyc + 3 <= u128::MAX,
    ensures
        final(soc)@ == ld_r8_n8_spec(old(soc)@, r8, n8),
{
    set_r8_by_idx(soc, &r8, n8);
    soc.pc_inc(2);
    match r8 {
        R8::HL => soc.cyc_inc(3),
        _ => soc.cyc_inc(2),
    }
}

/// LD r16, n16: load a 16-bit immediate into a register pair or SP.
pub open spec fn ld_r16_n16_spec(s: CpuV, r16: R16, n16: u16) -> CpuV {
    advance(r16v_set(s, r16, n16), 3, 3)
}

/// LD r16, n16 (0x01, 0x11, 0x21, 0x31).
pub fn ld_r16_n16(soc: &mut SoC, r16: R16, n16: u16)
    requires
        old(soc)@.cyc + 3 <= u128::MAX,
    ensures
        final(soc)@ == ld_r16_n16_spec(old(soc)@, r16, n16),
{
    match r16 {
        R16::BC => soc.set_r16((2, 3), n16),
        R16::DE => soc.set_r16((4, 5), n16),
        R16::HL => soc.set_r16((6, 7), n16),
        R16::SP => soc.set_sp(n16),
    }
    soc.cyc_inc(3);
    soc.pc_inc(3);
}

/// INC r16: increment a register pair or SP, wrapping; no flags change.
pub open spec fn inc_r16_spec(s: CpuV, r16: R16) -> CpuV {
    advance(r16v_set(s, r16, wrap16(r16v_get(s, r16) + 1)), 1, 2)
}

/// INC r16 (0x03, 0x13, 0x23, 0x33).
pub fn inc_r16(soc: &mut SoC, r16: R16)
    requires
        old(soc)@.cyc + 2 <= u128::MAX,
    ensures
        final(soc)@ == inc_r16_spec(old(soc)@, r16),
{
    match r16 {
        R16::BC => soc.r16_inc((2, 3)),
        R16::DE => soc.r16_inc((4, 5)),
        R16::HL => soc.r16_inc((6, 7)),
        R16::SP => {
            let sp: u16 = soc.get_sp();
            let w: u16 = wadd16(sp, 1);
            soc.set_sp(w);
        },
    }
    soc.pc_inc(1);
    soc.cyc_inc(2);
}

/// DEC r16: decrement a register pair or SP, wrapping; no flags change.
pub open spec fn dec_r16_spec(s: CpuV, r16: R16) -> CpuV {
    advance(r16v_set(s, r16, wrap16(r16v_get(s, r16) - 1)), 1, 2)
}

/// DEC r16 (0x0B, 0x1B, 0x2B, 0x3B).
pub fn dec_r16(soc: &mut SoC, r16: R16)
    requires
        old(soc)@.cyc + 2 <= u128::MAX,
    ensures
        final(soc)@ == dec_r16_spec(old(soc)@, r16),
{
    match r16 {
        R16::BC => soc.r16_dec((2, 3)),
        R16::DE => soc.r16_dec((4, 5)),
        R16::HL => soc.r16_dec((6, 7)),
        R16::SP => {
            let sp: u16 = soc.get_sp();
            let w: u16 = wsub16(sp, 1);
            soc.set_sp(w);
        },
    }
    soc.pc_inc(1);
    soc.cyc_inc(2);
}

/// LD SP, HL.
pub open spec fn ld_sp_hl_spec(s: CpuV) -> CpuV {
    advance(CpuV { sp: pair16(s.h, s.l), ..s }, 1, 2)
}

/// LD SP, HL (0xF9).
pub fn ld_sp_hl(soc: &mut SoC)
    requires
        old(soc)@.cyc + 2 <= u128::MAX,
    ensures
        final(soc)@ == ld_sp_hl_spec(old(soc)@),
{
    let hl: u16 = soc.get_r16((6, 7));
    soc.set_sp(hl);
    soc.pc_inc(1);
    soc.cyc_inc(2);
}

/// JP HL: jump to the address in HL.
pub open spec fn jp_hl_spec(s: CpuV) -> CpuV {
    jumped(s, pair16(s.h, s.l), 1)
}

/// JP HL (0xE9).
pub fn jp_hl(soc: &mut SoC)
    requires
        old(soc)@.cyc + 1 <= u128::MAX,
    ensures
        final(soc)@ == jp_hl_spec(old(soc)@),
{
    let hl: u16 = soc.get_r16((6, 7));
    soc.set_pc(hl);
    soc.cyc_inc(1);
}

/// INC r8: increment an 8-bit operand; Zero and Half-carry from the
/// result, Subtract cleared, Carry kept.
pub open spec fn inc_r8_spec(s: CpuV, r8: R8) -> CpuV {
    let v = r8v_get(s, r8);
    let w = wrap8(v + 1);
    advance(
        CpuV {
            f: mk_f(s.f, w == 0, false, (v & 0xf) + 1 > 0xf, flag_bit(s.f, 4) == 1),
            ..r8v_set(s, r8, w)
        },
        1,
        if r8_is_mem(r8) { 3nat } else { 1nat },
    )
}

/// INC r8 (0x04, 0x0C, ..., 0x3C).
pub fn inc_r8(soc: &mut SoC, r8: R8)
    requires
        old(soc)@.cyc + 3 <= u128::MAX,
    ensures
        final(soc)@ == inc_r8_spec(old(soc)@, r8),
{
    let v: u8 = get_r8_by_idx(soc, &r8);
    let f: u8 = soc.get_r8(1);
    let c: bool = soc.get_flag(4) == 1;
    let w: u8 = wadd8(v, 1);
    set_r8_by_idx(soc, &r8, w);
    let h: bool = ((v & 0xf) as u16) + 1 > 0xf;
    let newf: u8 = mk_f_exec(f, w == 0, false, h, c);
    soc.set_r8(1, newf);
    soc.pc_inc(1);
    match r8 {
        R8::HL => soc.cyc_inc(3),
        _ => soc.cyc_inc(1),
    }
}

/// DEC r8: decrement an 8-bit operand; Zero from the result, Subtract
/// set, Half-carry on a low-nibble borrow, Carry kept.
pub open spec fn dec_r8_spec(s: CpuV, r8: R8) -> CpuV {
    let v = r8v_get(s, r8);
    let w = wrap8(v - 1);
    advance(
        CpuV {
            f: mk_f(s.f, w == 0, true, (v & 0xf) < 1, flag_bit(s.f, 4) == 1),
            ..r8v_set(s, r8, w)
        },
        1,
        if r8_is_mem(r8) { 3nat } else { 1nat },
    )
}

/// DEC r8 (0x05, 0x0D, ..., 0x3D).
pub fn dec_r8(soc: &mut SoC, r8: R8)
    requires
        old(soc)@.cyc + 3 <= u128::MAX,
    ensures
        final(soc)@ == dec_r8_spec(old(soc)@, r8),
{
    let v: u8 = get_r8_by_idx(soc, &r8);
    let f: u8 = soc.get_r8(1);
    let c: bool = soc.get_flag(4) == 1;
    let w: u8 = wsub8(v, 1);
    set_r8_by_idx(soc, &r8, w);
    let h: bool = (v & 0xf) < 1;
    let newf: u8 = mk_f_exec(f, w == 0, true, h, c);
    soc.set_r8(1, newf);
    soc.pc_inc(1);
    match r8 {
        R8::HL => soc.cyc_inc(3),
        _ => soc.cyc_inc(1),
    }
}

/// The accumulator and flag update shared by the register and immediate
/// ALU forms.
fn alu_step(soc: &mut SoC, y: u8, alu3: ALU3)
    ensures
        final(soc)@ == (CpuV {
            a: alu_res(old(soc)@.a, y, old(soc)@.f, alu3),
            f: alu_flags(old(soc)@.a, y, old(soc)@.f, alu3),
            ..old(soc)@
        }),
{
    let a: u8 = soc.get_r8(0);
    match alu3 {
        ALU3::ADD => {
            soc.smart_flag(a as u16, y as u16, false, true);
            let r: u8 = wadd8(a, y);
            soc.set_r8(0, r);
        },
        ALU3::ADC => {
            let cf: u8 = soc.get_flag(4);
            let y2: u8 = wadd8(y, cf);
            soc.smart_flag(a as u16, y2 as u16, false, true);
            let r1: u8 = wadd8(a, y);
            let r2: u8 = wadd8(r1, cf);
            proof {
                crate::state::lemma_wrap8_add(a + y, cf as int);
            }
            soc.set_r8(0, r2);
        },
        ALU3::SUB => {
            soc.smart_flag(a as u16, y as u16, true, true);
            let r: u8 = wsub8(a, y);
            soc.set_r8(0, r);
        },
        ALU3::SBC => {
            let cf: u8 = soc.get_flag(4);
            let y2: u8 = wadd8(y, cf);
            soc.smart_flag(a as u16, y2 as u16, true, true);
            let r1: u8 = wsub8(a, y);
            let r2: u8 = wsub8(r1, cf);
            proof {
                crate::state::lemma_wrap8_sub(a - y, cf as int);
            }
            soc.set_r8(0, r2);
        },
        ALU3::AND => {
            let f: u8 = soc.get_r8(1);
            let r: u8 = a & y;
            let newf: u8 = mk_f_exec(f, r == 0, false, true, false);
            soc.set_r8(1, newf);
            soc.set_r8(0, r);
        },
        ALU3::XOR => {
            let f: u8 = soc.get_r8(1);
            let r: u8 = a ^ y;
            let newf: u8 = mk_f_exec(f, r == 0, false, false, false);
            soc.set_r8(1, newf);
            soc.set_r8(0, r);
        },
        ALU3::OR => {
            let f: u8 = soc.get_r8(1);
            let r: u8 = a | y;
            let newf: u8 = mk_f_exec(f, r == 0, false, false, false);
            soc.set_r8(1, newf);
            soc.set_r8(0, r);
        },
        ALU3::CP => {
            soc.smart_flag(a as u16, y as u16, true, true);
        },
    }
}

/// ALU A, r8: one of the eight accumulator operations against an 8-bit
/// operand.
pub open spec fn alu_a_r8_spec(s: CpuV, r8: R8, alu3: ALU3) -> CpuV {
    let y = r8v_get(s, r8);
    advance(
        CpuV { a: alu_res(s.a, y, s.f, alu3), f: alu_flags(s.a, y, s.f, alu3), ..s },
        1,
        if r8_is_mem(r8) { 2nat } else { 1nat },
    )
}

/// ALU A, r8 (0x80..0xBF).
pub fn alu_a_r8(soc: &mut SoC, r8: R8, alu3: ALU3)
    requires
        old(soc)@.cyc + 2 <= u128::MAX,
    ensures
        final(soc)@ == alu_a_r8_spec(old(soc)@, r8, alu3),
{
    let y: u8 = get_r8_by_idx(soc, &r8);
    alu_step(soc, y, alu3);
    soc.pc_inc(1);
    match r8 {
        R8::HL => soc.cyc_inc(2),
        _ => soc.cyc_inc(1),
    }
}

/// ALU A, n8: one of the eight accumulator operations against an
/// immediate byte.
pub open spec fn alu_a_n8_spec(s: CpuV, n8: u8, alu3: ALU3) -> CpuV {
    advance(CpuV { a: alu_res(s.a, n8, s.f, alu3), f: alu_flags(s.a, n8, s.f, alu3), ..s }, 2, 2)
}

/// ALU A, n8 (0xC6, 0xCE, 0xD6, 0xDE, 0xE6, 0xEE, 0xF6, 0xFE).
pub fn alu_a_n8(soc: &mut SoC, n8: u8, alu3: ALU3)
    requires
        old(soc)@.cyc + 2 <= u128::MAX,
    ensures
        final(soc)@ == alu_a_n8_spec(old(soc)@, n8, alu3),
{
    alu_step(soc, n8, alu3);
    soc.pc_inc(2);
    soc.cyc_inc(2);
}

/// ADD HL, r16: 16-bit add into HL through the shared flag algorithm;
/// Zero is untouched.
pub open spec fn add_hl_r16_spec(s: CpuV, r16: R16) -> CpuV {
    let x = pair16(s.h, s.l);
    let y = r16v_get(s, r16);
    advance(
        pairpos_set(CpuV { f: flags16(s.f, x, y, false), ..s }, (6u8, 7u8), wrap16(x + y)),
        1,
        2,
    )
}

/// ADD HL, r16 (0x09, 0x19, 0x29, 0x39).
pub fn add_hl_r16(soc: &mut SoC, r16: R16)
    requires
        old(soc)@.cyc + 2 <= u128::MAX,
    ensures
        final(soc)@ == add_hl_r16_spec(old(soc)@, r16),
{
    let add1: u16 = soc.get_r16((6, 7));
    let add2: u16 = get_r16_by_idx(soc, r16);
    soc.smart_flag(add1, add2, false, false);
    let w: u16 = wadd16(add1, add2);
    soc.set_r16((6, 7), w);
    soc.pc_inc(1);
    soc.cyc_inc(2);
}

/// LD (r16), A: store the accumulator through an addressing selector,
/// with the HLI/HLD post-adjustment of HL.
pub open spec fn ld_r16ram_a_spec(s: CpuV, r16ram: R16RAM) -> CpuV {
    let addr = r16ram_addr(s, r16ram);
    let s1 = r16ram_bump(s, r16ram);
    advance(CpuV { ram: s1.ram.update(addr as int, s.a), ..s1 }, 1, 2)
}

/// LD (r16), A (0x02, 0x12, 0x22, 0x32).
pub fn ld_r16ram_a(soc: &mut SoC, r16ram: R16RAM)
    requires
        old(soc)@.cyc + 2 <= u128::MAX,
    ensures
        final(soc)@ == ld_r16ram_a_spec(old(soc)@, r16ram),
{
    let addr: u16 = match r16ram {
        R16RAM::BC => soc.get_r16((2, 3)),
        R16RAM::DE => soc.get_r16((4, 5)),
        _ => soc.get_r16((6, 7)),
    };
    match r16ram {
        R16RAM::HLI => soc.r16_inc((6, 7)),
        R16RAM::HLD => soc.r16_dec((6, 7)),
        _ => {},
    }
    let a: u8 = soc.get_r8(0);
    soc.ram_write(addr, a);
    soc.pc_inc(1);
    soc.cyc_inc(2);
}

/// LD A, (r16): load the accumulator through an addressing selector,
/// with the HLI/HLD post-adjustment of HL.
pub open spec fn ld_a_r16ram_spec(s: CpuV, r16ram: R16RAM) -> CpuV {
    let addr = r16ram_addr(s, r16ram);
    advance(CpuV { a: s.ram[addr as int], ..r16ram_bump(s, r16ram) }, 1, 2)
}

/// LD A, (r16) (0x0A, 0x1A, 0x2A, 0x3A).
pub fn ld_a_r16ram(soc: &mut SoC, r16ram: R16RAM)
    requires
        old(soc)@.cyc + 2 <= u128::MAX,
    ensures
        final(soc)@ == ld_a_r16ram_spec(old(soc)@, r16ram),
{
    let addr: u16 = match r16ram {
        R16RAM::BC => soc.get_r16((2, 3)),
        R16RAM::DE => soc.get_r16((4, 5)),
        _ => soc.get_r16((6, 7)),
    };
    match r16ram {
        R16RAM::HLI => soc.r16_inc((6, 7)),
        R16RAM::HLD => soc.r16_dec((6, 7)),
        _ => {},
    }
    let v: u8 = soc.ram_read(addr);
    soc.set_r8(0, v);
    soc.pc_inc(1);
    soc.cyc_inc(2);
}

/// LDH (a8), A: store the accumulator into the high page at 0xFF00 + a8.
pub open spec fn ldh_a8_a_spec(s: CpuV, a8: u8) -> CpuV {
    advance(CpuV { ram: s.ram.update(0xff00 + a8, s.a), ..s }, 2, 3)
}

/// LDH (a8), A (0xE0).
pub fn ldh_a8_a(soc: &mut SoC, a8: u8)
    requires
        old(soc)@.cyc + 3 <= u128::MAX,
    ensures
        final(soc)@ == ldh_a8_a_spec(old(soc)@, a8),
{
    let a: u8 = soc.get_r8(0);
    soc.ram_write(0xff00 + (a8 as u16), a);
    soc.pc_inc(2);
    soc.cyc_inc(3);
}

/// LDH A, (a8): load the accumulator from the high page at 0xFF00 + a8.
pub open spec fn ldh_a_a8_spec(s: CpuV, a8: u8) -> CpuV {
    advance(CpuV { a: s.ram[0xff00 + a8], ..s }, 2, 3)
}

/// LDH A, (a8) (0xF0).
pub fn ldh_a_a8(soc: &mut SoC, a8: u8)
    requires
        old(soc)@.cyc + 3 <= u128::MAX,
    ensures
        final(soc)@ == ldh_a_a8_spec(old(soc)@, a8),
{
    let v: u8 = soc.ram_read(0xff00 + (a8 as u16));
    soc.set_r8(0, v);
    soc.pc_inc(2);
    soc.cyc_inc(3);
}

/// LDH (C), A: store the accumulator into the high page at 0xFF00 + C.
pub open spec fn ldh_c_a_spec(s: CpuV) -> CpuV {
    advance(CpuV { ram: s.ram.update(0xff00 + s.c, s.a), ..s }, 1, 2)
}

/// LDH (C), A (0xE2).
pub fn ldh_c_a(soc: &mut SoC)
    requires
        old(soc)@.cyc + 2 <= u128::MAX,
    ensures
        final(soc)@ == ldh_c_a_spec(old(soc)@),
{
    let c: u8 = soc.get_r8(3);
    let a: u8 = soc.get_r8(0);
    soc.ram_write(0xff00 + (c as u16), a);
    soc.pc_inc(1);
    soc.cyc_inc(2);
}

/// LDH A, (C): load the accumulator from the high page at 0xFF00 + C.
pub open spec fn ldh_a_c_spec(s: CpuV) -> CpuV {
    advance(CpuV { a: s.ram[0xff00 + s.c], ..s }, 1, 2)
}

/// LDH A, (C) (0xF2).
pub fn ldh_a_c(soc: &mut SoC)
    requires
        old(soc)@.cyc + 2 <= u128::MAX,
    ensures
        final(soc)@ == ldh_a_c_spec(old(soc)@),
{
    let c: u8 = soc.get_r8(3);
    let v: u8 = soc.ram_read(0xff00 + (c as u16));
    soc.set_r8(0, v);
    soc.pc_inc(1);
    soc.cyc_inc(2);
}

/// LD (a16), A: store the accumulator at an immediate address.
pub open spec fn ld_a16_a_spec(s: CpuV, a16: u16) -> CpuV {
    advance(CpuV { ram: s.ram.update(a16 as int, s.a), ..s }, 3, 4)
}

/// LD (a16), A (0xEA).
pub fn ld_a16_a(soc: &mut SoC, a16: u16)
    requires
        old(soc)@.cyc + 4 <= u128::MAX,
    ensures
        final(soc)@ == ld_a16_a_spec(old(soc)@, a16),
{
    let a: u8 = soc.get_r8(0);
    soc.ram_write(a16, a);
    soc.pc_inc(3);
    soc.cyc_inc(4);
}

/// LD A, (a16): load the accumulator from an immediate address.
pub open spec fn ld_a_a16_spec(s: CpuV, a16: u16) -> CpuV {
    advance(CpuV { a: s.ram[a16 as int], ..s }, 3, 4)
}

/// LD A, (a16) (0xFA).
pub fn ld_a_a16(soc: &mut SoC, a16: u16)
    requires
        old(soc)@.cyc + 4 <= u128::MAX,
    ensures
        final(soc)@ == ld_a_a16_spec(old(soc)@, a16),
{
    let v: u8 = soc.ram_read(a16);
    soc.set_r8(0, v);
    soc.pc_inc(3);
    soc.cyc_inc(4);
}

/// LD (a16), SP: store the stack pointer, low byte first, the second
/// write wrapping around the top of the address space.
pub open spec fn ld_a16_sp_spec(s: CpuV, a16: u16) -> CpuV {
    advance(
        CpuV {
            ram: s.ram.update(a16 as int, lo8(s.sp)).update(wrap16(a16 + 1) as int, hi8(s.sp)),
            ..s
        },
        3,
        5,
    )
}

/// LD (a16), SP (0x08).
pub fn ld_a16_sp(soc: &mut SoC, a16: u16)
    requires
        old(soc)@.cyc + 5 <= u128::MAX,
    ensures
        final(soc)@ == ld_a16_sp_spec(old(soc)@, a16),
{
    let sp: u16 = soc.get_sp();
    soc.ram_write(a16, (sp % 256) as u8);
    let a2: u16 = wadd16(a16, 1);
    soc.ram_write(a2, (sp / 256) as u8);
    soc.pc_inc(3);
    soc.cyc_inc(5);
}

/// RLCA: rotate the accumulator left; Zero, Subtract and Half-carry
/// cleared, Carry from the old bit 7.
pub open spec fn rlca_spec(s: CpuV) -> CpuV {
    advance(
        CpuV {
            a: rot_res(s.a, s.f, BOP3::RLC),
            f: mk_f(s.f, false, false, false, rot_carry(s.a, BOP3::RLC)),
            ..s
        },
        1,
        1,
    )
}

/// RLCA (0x07).
pub fn rlca(soc: &mut SoC)
    requires
        old(soc)@.cyc + 1 <= u128::MAX,
    ensures
        final(soc)@ == rlca_spec(old(soc)@),
{
    let a: u8 = soc.get_r8(0);
    let f: u8 = soc.get_r8(1);
    soc.set_r8(0, (a << 1u8) | (a >> 7u8));
    let newf: u8 = mk_f_exec(f, false, false, false, a >= 0x80);
    soc.set_r8(1, newf);
    soc.pc_inc(1);
    soc.cyc_inc(1);
}

/// RRCA: rotate the accumulator right; Carry from the old bit 0.
pub open spec fn rrca_spec(s: CpuV) -> CpuV {
    advance(
        CpuV {
            a: rot_res(s.a, s.f, BOP3::RRC),
            f: mk_f(s.f, false, false, false, rot_carry(s.a, BOP3::RRC)),
            ..s
        },
        1,
        1,
    )
}

/// RRCA (0x0F).
pub fn rrca(soc: &mut SoC)
    requires
        old(soc)@.cyc + 1 <= u128::MAX,
    ensures
        final(soc)@ == rrca_spec(old(soc)@),
{
    let a: u8 = soc.get_r8(0);
    let f: u8 = soc.get_r8(1);
    soc.set_r8(0, (a >> 1u8) | ((a & 1) << 7u8));
    let newf: u8 = mk_f_exec(f, false, false, false, a & 1 == 1);
    soc.set_r8(1, newf);
    soc.pc_inc(1);
    soc.cyc_inc(1);
}

/// RLA: rotate the accumulator left through Carry.
pub open spec fn rla_spec(s: CpuV) -> CpuV {
    advance(
        CpuV {
            a: rot_res(s.a, s.f, BOP3::RL),
            f: mk_f(s.f, false, false, false, rot_carry(s.a, BOP3::RL)),
            ..s
        },
        1,
        1,
    )
}

/// RLA (0x17).
pub fn rla(soc: &mut SoC)
    requires
        old(soc)@.cyc + 1 <= u128::MAX,
    ensures
        final(soc)@ == rla_spec(old(soc)@),
{
    let a: u8 = soc.get_r8(0);
    let f: u8 = soc.get_r8(1);
    let cf: u8 = soc.get_flag(4);
    soc.set_r8(0, (a << 1u8) | cf);
    let newf: u8 = mk_f_exec(f, false, false, false, a >= 0x80);
    soc.set_r8(1, newf);
    soc.pc_inc(1);
    soc.cyc_inc(1);
}

/// RRA: rotate the accumulator right through Carry.
pub open spec fn rra_spec(s: CpuV) -> CpuV {
    advance(
        CpuV {
            a: rot_res(s.a, s.f, BOP3::RR),
            f: mk_f(s.f, false, false, false, rot_carry(s.a, BOP3::RR)),
            ..s
        },
        1,
        1,
    )
}

/// RRA (0x1F).
pub fn rra(soc: &mut SoC)
    requires
        old(soc)@.cyc + 1 <= u128::MAX,
    ensures
        final(soc)@ == rra_spec(old(soc)@),
{
    let a: u8 = soc.get_r8(0);
    let f: u8 = soc.get_r8(1);
    let cf: u8 = soc.get_flag(4);
    soc.set_r8(0, (a >> 1u8) | (cf << 7u8));
    let newf: u8 = mk_f_exec(f, false, false, false, a & 1 == 1);
    soc.set_r8(1, newf);
    soc.pc_inc(1);
    soc.cyc_inc(1);
}

/// DAA: decimal-adjust the accumulator after a packed-BCD addition or
/// subtraction, per the standard adjust table.  Zero is recomputed,
/// Half-carry forced to 0, Subtract kept; Carry is set when the high
/// adjustment fires in add mode and kept in subtract mode.
pub open spec fn daa_spec(s: CpuV) -> CpuV {
    let hf = flag_bit(s.f, 5) == 1;
    let cf = flag_bit(s.f, 4) == 1;
    if flag_bit(s.f, 6) == 1 {
        let adj = (if cf { 0x60int } else { 0int }) + (if hf { 0x06int } else { 0int });
        let a2 = wrap8(s.a - adj);
        advance(CpuV { a: a2, f: mk_f(s.f, a2 == 0, true, false, cf), ..s }, 1, 1)
    } else {
        let c2 = cf || s.a > 0x99;
        let adj = (if c2 { 0x60int } else { 0int }) + (if hf || (s.a & 0xf) > 9 { 0x06int } else { 0int });
        let a2 = wrap8(s.a + adj);
        advance(CpuV { a: a2, f: mk_f(s.f, a2 == 0, false, false, c2), ..s }, 1, 1)
    }
}

/// DAA (0x27).
pub fn daa(soc: &mut SoC)
    requires
        old(soc)@.cyc + 1 <= u128::MAX,
    ensures
        final(soc)@ == daa_spec(old(soc)@),
{
    let a: u8 = soc.get_r8(0);
    let f: u8 = soc.get_r8(1);
    let nf: bool = soc.get_flag(6) == 1;
    let hf: bool = soc.get_flag(5) == 1;
    let cf: bool = soc.get_flag(4) == 1;
    if nf {
        let adj: u8 = (if cf { 0x60u8 } else { 0u8 }) + (if hf { 0x06u8 } else { 0u8 });
        let a2: u8 = wsub8(a, adj);
        soc.set_r8(0, a2);
        let newf: u8 = mk_f_exec(f, a2 == 0, true, false, cf);
        soc.set_r8(1, newf);
    } else {
        let c2: bool = cf || a > 0x99;
        let low: bool = hf || (a & 0xf) > 9;
        let adj: u8 = (if c2 { 0x60u8 } else { 0u8 }) + (if low { 0x06u8 } else { 0u8 });
        let a2: u8 = wadd8(a, adj);
        soc.set_r8(0, a2);
        let newf: u8 = mk_f_exec(f, a2 == 0, false, false, c2);
        soc.set_r8(1, newf);
    }
    soc.pc_inc(1);
    soc.cyc_inc(1);
}

/// JR e8: relative jump; the signed displacement is added to the address
/// of the next instruction.
pub open spec fn jr_e8_spec(s: CpuV, e8: i8) -> CpuV {
    jumped(s, wrap16(s.pc + 2 + e8), 3)
}

/// JR e8 (0x18).
pub fn jr_e8(soc: &mut SoC, e8: i8)
    requires
        old(soc)@.cyc + 3 <= u128::MAX,
    ensures
        final(soc)@ == jr_e8_spec(old(soc)@, e8),
{
    let pc: u16 = soc.get_pc();
    let base: u16 = wadd16(pc, 2);
    let dest: u16;
    if e8 >= 0 {
        dest = wadd16(base, e8 as u16);
        proof {
            lemma_wrap16_add(pc + 2, e8 as int);
        }
    } else {
        let k: u16 = (-(e8 as i32)) as u16;
        dest = wsub16(base, k);
        proof {
            lemma_wrap16_sub(pc + 2, k as int);
        }
    }
    soc.set_pc(dest);
    soc.cyc_inc(3);
}

/// JR cond, e8: the relative jump when the condition holds, otherwise
/// fall through past the two instruction bytes.
pub open spec fn jr_cond_e8_spec(s: CpuV, cond: COND, e8: i8) -> CpuV {
    if cond_holds(s.f, cond) {
        jumped(s, wrap16(s.pc + 2 + e8), 3)
    } else {
        advance(s, 2, 2)
    }
}

/// JR cond, e8 (0x20, 0x28, 0x30, 0x38).
pub fn jr_cond_e8(soc: &mut SoC, cond: COND, e8: i8)
    requires
        old(soc)@.cyc + 3 <= u128::MAX,
    ensures
        final(soc)@ == jr_cond_e8_spec(old(soc)@, cond, e8),
{
    if get_cond_by_idx(soc, cond) {
        jr_e8(soc, e8);
    } else {
        soc.pc_inc(2);
        soc.cyc_inc(2);
    }
}

/// JP a16: absolute jump.
pub open spec fn jp_a16_spec(s: CpuV, a16: u16) -> CpuV {
    jumped(s, a16, 4)
}

/// JP a16 (0xC3).
pub fn jp_a16(soc: &mut SoC, a16: u16)
    requires
        old(soc)@.cyc + 4 <= u128::MAX,
    ensures
        final(soc)@ == jp_a16_spec(old(soc)@, a16),
{
    soc.set_pc(a16);
    soc.cyc_inc(4);
}

/// JP cond, a16: the absolute jump when the condition holds, otherwise
/// fall through past the three instruction bytes.
pub open spec fn jp_cond_a16_spec(s: CpuV, cond: COND, a16: u16) -> CpuV {
    if cond_holds(s.f, cond) {
        jumped(s, a16, 4)
    } else {
        advance(s, 3, 3)
    }
}

/// JP cond, a16 (0xC2, 0xCA, 0xD2, 0xDA).
pub fn jp_cond_a16(soc: &mut SoC, cond: COND, a16: u16)
    requires
        old(soc)@.cyc + 4 <= u128::MAX,
    ensures
        final(soc)@ == jp_cond_a16_spec(old(soc)@, cond, a16),
{
    if get_cond_by_idx(soc, cond) {
        soc.set_pc(a16);
        soc.cyc_inc(4);
    } else {
        soc.pc_inc(3);
        soc.cyc_inc(3);
    }
}

/// Push a 16-bit value: high byte at SP-1, low byte at SP-2, SP moved
/// down by two, all wrapping.
fn push16_step(soc: &mut SoC, v: u16)
    ensures
        final(soc)@ == push16(old(soc)@, v),
{
    let sp: u16 = soc.get_sp();
    let a1: u16 = wsub16(sp, 1);
    soc.ram_write(a1, (v / 256) as u8);
    let a2: u16 = wsub16(sp, 2);
    soc.ram_write(a2, (v % 256) as u8);
    soc.set_sp(a2);
}

/// PUSH r16: push a register pair.
pub open spec fn push_r16stk_spec(s: CpuV, r16stk: R16STK) -> CpuV {
    advance(push16(s, r16stk_get(s, r16stk)), 1, 4)
}

/// PUSH r16 (0xC5, 0xD5, 0xE5, 0xF5).
pub fn push_r16stk(soc: &mut SoC, r16stk: R16STK)
    requires
        old(soc)@.cyc + 4 <= u128::MAX,
    ensures
        final(soc)@ == push_r16stk_spec(old(soc)@, r16stk),
{
    let v: u16 = get_r16stk_by_idx(soc, r16stk);
    push16_step(soc, v);
    soc.cyc_inc(4);
    soc.pc_inc(1);
}

/// POP r16: pop two stack bytes into a register pair.
pub open spec fn pop_r16stk_spec(s: CpuV, r16stk: R16STK) -> CpuV {
    advance(r16stk_set(popped(s), r16stk, pop_val(s)), 1, 3)
}

/// POP r16 (0xC1, 0xD1, 0xE1, 0xF1).
pub fn pop_r16stk(soc: &mut SoC, r16stk: R16STK)
    requires
        old(soc)@.cyc + 3 <= u128::MAX,
    ensures
        final(soc)@ == pop_r16stk_spec(old(soc)@, r16stk),
{
    let sp: u16 = soc.get_sp();
    let lo: u8 = soc.ram_read(sp);
    let a1: u16 = wadd16(sp, 1);
    let hi: u8 = soc.ram_read(a1);
    let sp2: u16 = wadd16(sp, 2);
    soc.set_sp(sp2);
    let v: u16 = (hi as u16) * 256 + (lo as u16);
    match r16stk {
        R16STK::BC => soc.set_r16((2, 3), v),
        R16STK::DE => soc.set_r16((4, 5), v),
        R16STK::HL => soc.set_r16((6, 7), v),
        R16STK::AF => soc.set_r16((0, 1), v),
    }
    soc.cyc_inc(3);
    soc.pc_inc(1);
}

/// RET: pop the return address into the program counter.
pub open spec fn ret_spec(s: CpuV) -> CpuV {
    CpuV { pc: pop_val(s), sp: wrap16(s.sp + 2), cyc: s.cyc + 4, ..s }
}

/// RET (0xC9).
pub fn ret(soc: &mut SoC)
    requires
        old(soc)@.cyc + 4 <= u128::MAX,
    ensures
        final(soc)@ == ret_spec(old(soc)@),
{
    let sp: u16 = soc.get_sp();
    let lo: u8 = soc.ram_read(sp);
    let a1: u16 = wadd16(sp, 1);
    let hi: u8 = soc.ram_read(a1);
    let sp2: u16 = wadd16(sp, 2);
    soc.set_sp(sp2);
    soc.set_pc((hi as u16) * 256 + (lo as u16));
    soc.cyc_inc(4);
}

/// RET cond: return when the condition holds, otherwise fall through.
pub open spec fn ret_cond_spec(s: CpuV, cond: COND) -> CpuV {
    if cond_holds(s.f, cond) {
        CpuV { pc: pop_val(s), sp: wrap16(s.sp + 2), cyc: s.cyc + 5, ..s }
    } else {
        advance(s, 1, 2)
    }
}

/// RET cond (0xC0, 0xC8, 0xD0, 0xD8).
pub fn ret_cond(soc: &mut SoC, cond: COND)
    requires
        old(soc)@.cyc + 5 <= u128::MAX,
    ensures
        final(soc)@ == ret_cond_spec(old(soc)@, cond),
{
    if get_cond_by_idx(soc, cond) {
        let sp: u16 = soc.get_sp();
        let lo: u8 = soc.ram_read(sp);
        let a1: u16 = wadd16(sp, 1);
        let hi: u8 = soc.ram_read(a1);
        let sp2: u16 = wadd16(sp, 2);
        soc.set_sp(sp2);
        soc.set_pc((hi as u16) * 256 + (lo as u16));
        soc.cyc_inc(5);
    } else {
        soc.pc_inc(1);
        soc.cyc_inc(2);
    }
}

/// RETI: return and set the interrupt-enable flag.
pub open spec fn reti_spec(s: CpuV) -> CpuV {
    CpuV { pc: pop_val(s), sp: wrap16(s.sp + 2), cyc: s.cyc + 4, ime: true, ..s }
}

/// RETI (0xD9).
pub fn reti(soc: &mut SoC)
    requires
        old(soc)@.cyc + 4 <= u128::MAX,
    ensures
        final(soc)@ == reti_spec(old(soc)@),
{
    soc.set_ime();
    let sp: u16 = soc.get_sp();
    let lo: u8 = soc.ram_read(sp);
    let a1: u16 = wadd16(sp, 1);
    let hi: u8 = soc.ram_read(a1);
    let sp2: u16 = wadd16(sp, 2);
    soc.set_sp(sp2);
    soc.set_pc((hi as u16) * 256 + (lo as u16));
    soc.cyc_inc(4);
}

/// CALL a16: push the address of the next instruction and jump.
pub open spec fn call_a16_spec(s: CpuV, a16: u16) -> CpuV {
    CpuV { pc: a16, cyc: s.cyc + 6, ..push16(s, wrap16(s.pc + 3)) }
}

/// CALL a16 (0xCD).
pub fn call_a16(soc: &mut SoC, a16: u16)
    requires
        old(soc)@.cyc + 6 <= u128::MAX,
    ensures
        final(soc)@ == call_a16_spec(old(soc)@, a16),
{
    let pc: u16 = soc.get_pc();
    let ret_addr: u16 = wadd16(pc, 3);
    push16_step(soc, ret_addr);
    soc.set_pc(a16);
    soc.cyc_inc(6);
}

/// CALL cond, a16: the call when the condition holds, otherwise fall
/// through past the three instruction bytes.
pub open spec fn call_cond_a16_spec(s: CpuV, cond: COND, a16: u16) -> CpuV {
    if cond_holds(s.f, cond) {
        CpuV { pc: a16, cyc: s.cyc + 6, ..push16(s, wrap16(s.pc + 3)) }
    } else {
        advance(s, 3, 3)
    }
}

/// CALL cond, a16 (0xC4, 0xCC, 0xD4, 0xDC).
pub fn call_cond_a16(soc: &mut SoC, cond: COND, a16: u16)
    requires
        old(soc)@.cyc + 6 <= u128::MAX,
    ensures
        final(soc)@ == call_cond_a16_spec(old(soc)@, cond, a16),
{
    if get_cond_by_idx(soc, cond) {
        call_a16(soc, a16);
    } else {
        soc.pc_inc(3);
        soc.cyc_inc(3);
    }
}

/// RST tgt: push the address of the next instruction and jump to the
/// fixed restart vector.
pub open spec fn rst_tgt3_spec(s: CpuV, tgt3: TGT3) -> CpuV {
    CpuV { pc: tgt3_addr(tgt3), cyc: s.cyc + 4, ..push16(s, wrap16(s.pc + 1)) }
}

/// RST tgt (0xC7, 0xCF, ..., 0xFF).
pub fn rst_tgt3(soc: &mut SoC, tgt3: TGT3)
    requires
        old(soc)@.cyc + 4 <= u128::MAX,
    ensures
        final(soc)@ == rst_tgt3_spec(old(soc)@, tgt3),
{
    let pc: u16 = soc.get_pc();
    let ret_addr: u16 = wadd16(pc, 1);
    push16_step(soc, ret_addr);
    let t: u16 = tgt3_val(tgt3);
    soc.set_pc(t);
    soc.cyc_inc(4);
}

/// ADD SP, e8: add a signed immediate to the stack pointer.  Zero and
/// Subtract are cleared; for a positive displacement Half-carry and Carry
/// come from the bit-11 and bit-15 boundaries, otherwise both are
/// cleared.
pub open spec fn add_sp_e8_spec(s: CpuV, e8: i8) -> CpuV {
    let f2 = if e8 > 0 {
        mk_f(s.f, false, false, (s.sp & 0xfff) + e8 > 0xfff, s.sp + e8 > 0xffff)
    } else {
        mk_f(s.f, false, false, false, false)
    };
    advance(CpuV { f: f2, sp: wrap16(s.sp + e8), ..s }, 2, 4)
}

/// ADD SP, e8 (0xE8).
pub fn add_sp_e8(soc: &mut SoC, e8: i8)
    requires
        old(soc)@.cyc + 4 <= u128::MAX,
    ensures
        final(soc)@ == add_sp_e8_spec(old(soc)@, e8),
{
    let sp: u16 = soc.get_sp();
    let f: u8 = soc.get_r8(1);
    if e8 > 0 {
        let h: bool = ((sp & 0xfff) as u32) + (e8 as u32) > 0xfff;
        let c: bool = (sp as u32) + (e8 as u32) > 0xffff;
        let newf: u8 = mk_f_exec(f, false, false, h, c);
        soc.set_r8(1, newf);
        let sp2: u16 = wadd16(sp, e8 as u16);
        soc.set_sp(sp2);
    } else {
        let newf: u8 = mk_f_exec(f, false, false, false, false);
        soc.set_r8(1, newf);
        let k: u16 = (-(e8 as i32)) as u16;
        let sp2: u16 = wsub16(sp, k);
        soc.set_sp(sp2);
    }
    soc.pc_inc(2);
    soc.cyc_inc(4);
}

/// LD HL, SP + e8: like ADD SP, e8 for the flags, but the sum goes to HL
/// and the stack pointer is untouched.
pub open spec fn ld_hl_sp_e8_spec(s: CpuV, e8: i8) -> CpuV {
    let f2 = if e8 > 0 {
        mk_f(s.f, false, false, (s.sp & 0xfff) + e8 > 0xfff, s.sp + e8 > 0xffff)
    } else {
        mk_f(s.f, false, false, false, false)
    };
    advance(pairpos_set(CpuV { f: f2, ..s }, (6u8, 7u8), wrap16(s.sp + e8)), 2, 3)
}

/// LD HL, SP + e8 (0xF8).
pub fn ld_hl_sp_e8(soc: &mut SoC, e8: i8)
    requires
        old(soc)@.cyc + 3 <= u128::MAX,
    ensures
        final(soc)@ == ld_hl_sp_e8_spec(old(soc)@, e8),
{
    let sp: u16 = soc.get_sp();
    let f: u8 = soc.get_r8(1);
    let sum: u16;
    if e8 > 0 {
        let h: bool = ((sp & 0xfff) as u32) + (e8 as u32) > 0xfff;
        let c: bool = (sp as u32) + (e8 as u32) > 0xffff;
        let newf: u8 = mk_f_exec(f, false, false, h, c);
        soc.set_r8(1, newf);
        sum = wadd16(sp, e8 as u16);
    } else {
        let newf: u8 = mk_f_exec(f, false, false, false, false);
        soc.set_r8(1, newf);
        let k: u16 = (-(e8 as i32)) as u16;
        sum = wsub16(sp, k);
    }
    soc.set_r16((6, 7), sum);
    soc.pc_inc(2);
    soc.cyc_inc(3);
}

/// Rotate/shift through an 8-bit operand selector: write the rotated
/// value back, set Zero from it, clear Subtract and Half-carry, and set
/// Carry from the shifted-out bit (cleared for SWAP).
pub open spec fn bop_r8_spec(s: CpuV, r8: R8, bop3: BOP3) -> CpuV {
    let v = r8v_get(s, r8);
    let res = rot_res(v, s.f, bop3);
    advance(
        CpuV { f: mk_f(s.f, res == 0, false, false, rot_carry(v, bop3)), ..r8v_set(s, r8, res) },
        2,
        if r8_is_mem(r8) { 4nat } else { 2nat },
    )
}

/// Rotate/shift group of the 0xCB table (second byte 0x00..0x3F).
pub fn bop_r8(soc: &mut SoC, r8: R8, bop3: BOP3)
    requires
        old(soc)@.cyc + 4 <= u128::MAX,
    ensures
        final(soc)@ == bop_r8_spec(old(soc)@, r8, bop3),
{
    let v: u8 = get_r8_by_idx(soc, &r8);
    let f: u8 = soc.get_r8(1);
    let res: u8;
    let carry: bool;
    match bop3 {
        BOP3::RLC => {
            res = (v << 1u8) | (v >> 7u8);
            carry = v >= 0x80;
        },
        BOP3::RRC => {
            res = (v >> 1u8) | ((v & 1) << 7u8);
            carry = v & 1 == 1;
        },
        BOP3::RL => {
            let cf: u8 = soc.get_flag(4);
            res = (v << 1u8) | cf;
            carry = v >= 0x80;
        },
        BOP3::RR => {
            let cf: u8 = soc.get_flag(4);
            res = (v >> 1u8) | (cf << 7u8);
            carry = v & 1 == 1;
        },
        BOP3::SLA => {
            res = v << 1u8;
            carry = v >= 0x80;
        },
        BOP3::SRA => {
            res = (v >> 1u8) | (v & 0x80);
            carry = v & 1 == 1;
        },
        BOP3::SWAP => {
            res = (v >> 4u8) | ((v & 0xf) << 4u8);
            carry = false;
        },
        BOP3::SRL => {
            res = v >> 1u8;
            carry = v & 1 == 1;
        },
    }
    set_r8_by_idx(soc, &r8, res);
    let newf: u8 = mk_f_exec(f, res == 0, false, false, carry);
    soc.set_r8(1, newf);
    soc.pc_inc(2);
    match r8 {
        R8::HL => soc.cyc_inc(4),
        _ => soc.cyc_inc(2),
    }
}

/// BIT b3, r8: test one bit; Zero iff the bit is clear, Half-carry set,
/// Subtract cleared, Carry and the operand untouched.
pub open spec fn bit_r8_b3_spec(s: CpuV, r8: R8, b3: u8) -> CpuV {
    let v = r8v_get(s, r8);
    advance(
        CpuV { f: mk_f(s.f, v & (1u8 << b3) == 0, false, true, flag_bit(s.f, 4) == 1), ..s },
        2,
        if r8_is_mem(r8) { 3nat } else { 2nat },
    )
}

/// BIT b3, r8 (0xCB table, second byte 0x40..0x7F).
pub fn bit_r8_b3(soc: &mut SoC, r8: R8, b3: u8)
    requires
        b3 < 8,
        old(soc)@.cyc + 3 <= u128::MAX,
    ensures
        final(soc)@ == bit_r8_b3_spec(old(soc)@, r8, b3),
{
    let v: u8 = get_r8_by_idx(soc, &r8);
    let f: u8 = soc.get_r8(1);
    let c: bool = soc.get_flag(4) == 1;
    let newf: u8 = mk_f_exec(f, v & (1u8 << b3) == 0, false, true, c);
    soc.set_r8(1, newf);
    soc.pc_inc(2);
    match r8 {
        R8::HL => soc.cyc_inc(3),
        _ => soc.cyc_inc(2),
    }
}

/// RES b3, r8: clear one bit of the operand; no flags change.
pub open spec fn res_r8_b3_spec(s: CpuV, r8: R8, b3: u8) -> CpuV {
    let v = r8v_get(s, r8);
    advance(
        r8v_set(s, r8, v & ((0xff - (1u8 << b3)) as u8)),
        2,
        if r8_is_mem(r8) { 4nat } else { 2nat },
    )
}

/// RES b3, r8 (0xCB table, second byte 0x80..0xBF).
pub fn res_r8_b3(soc: &mut SoC, r8: R8, b3: u8)
    requires
        b3 < 8,
        old(soc)@.cyc + 4 <= u128::MAX,
    ensures
        final(soc)@ == res_r8_b3_spec(old(soc)@, r8, b3),
{
    let v: u8 = get_r8_by_idx(soc, &r8);
    set_r8_by_idx(soc, &r8, v & (0xff - (1u8 << b3)));
    soc.pc_inc(2);
    match r8 {
        R8::HL => soc.cyc_inc(4),
        _ => soc.cyc_inc(2),
    }
}

/// SET b3, r8: set one bit of the operand; no flags change.
pub open spec fn set_r8_b3_spec(s: CpuV, r8: R8, b3: u8) -> CpuV {
    let v = r8v_get(s, r8);
    advance(r8v_set(s, r8, v | (1u8 << b3)), 2, if r8_is_mem(r8) { 4nat } else { 2nat })
}

/// SET b3, r8 (0xCB table, second byte 0xC0..0xFF).
pub fn set_r8_b3(soc: &mut SoC, r8: R8, b3: u8)
    requires
        b3 < 8,
        old(soc)@.cyc + 4 <= u128::MAX,
    ensures
        final(soc)@ == set_r8_b3_spec(old(soc)@, r8, b3),
{
    let v: u8 = get_r8_by_idx(soc, &r8);
    set_r8_by_idx(soc, &r8, v | (1u8 << b3));
    soc.pc_inc(2);
    match r8 {
        R8::HL => soc.cyc_inc(4),
        _ => soc.cyc_inc(2),
    }
}

} // verus!
