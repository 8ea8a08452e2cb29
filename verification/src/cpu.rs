//! The machine itself: register file, program counter, stack pointer,
//! cycle counter, interrupt-enable flag, working memory and instruction
//! store, with the accessor layer that every instruction handler builds on.

use vstd::prelude::*;
use crate::state::{
    CpuV, flag_bit, flags16, flags8, mk_f_exec, pairpos_get, pairpos_set, pairpos_valid,
    reg8_get, reg8_set, wadd16, wrap16, wrap8, wsub16,
};

verus! {

struct Register {
    a: u8,
    f: u8,
    b: u8,
    c: u8,
    d: u8,
    e: u8,
    h: u8,
    l: u8,
}

/// The simulated machine.  Its abstract value is a [`CpuV`]; every public
/// operation says exactly how it changes that value.
pub struct SoC {
    reg: Register,
    pc: u16,
    sp: u16,
    cyc: u128,
    ime: bool,
    ram: Vec<u8>,
    rom: Vec<u8>,
}

impl View for SoC {
    type V = CpuV;

    closed spec fn view(&self) -> CpuV {
        CpuV {
            a: self.reg.a,
            f: self.reg.f,
            b: self.reg.b,
            c: self.reg.c,
            d: self.reg.d,
            e: self.reg.e,
            h: self.reg.h,
            l: self.reg.l,
            pc: self.pc,
            sp: self.sp,
            cyc: self.cyc as nat,
            ime: self.ime,
            ram: self.ram@,
            rom: self.rom@,
        }
    }
}

impl SoC {
    /// Working memory always spans the full 16-bit address space, and the
    /// padded instruction store never exceeds it.
    #[verifier::type_invariant]
    pub open spec fn wf(self) -> bool {
        self@.ram.len() == 65536 && self@.rom.len() <= 0x10000
    }

    /// A fresh machine: all registers, counters and memory zeroed, with
    /// the program image padded by two zero bytes so that the decoder can
    /// always fetch three bytes at any program counter inside the image.
    pub fn new(rom_data: Vec<u8>) -> (soc: SoC)
        requires
            rom_data@.len() <= 0xfffe,
        ensures
            soc@.a == 0 && soc@.f == 0 && soc@.b == 0 && soc@.c == 0,
            soc@.d == 0 && soc@.e == 0 && soc@.h == 0 && soc@.l == 0,
            soc@.pc == 0 && soc@.sp == 0 && soc@.cyc == 0 && !soc@.ime,
            soc@.ram == Seq::new(65536nat, |i: int| 0u8),
            soc@.rom == rom_data@.push(0u8).push(0u8),
    {
        let mut rom: Vec<u8> = rom_data;
        rom.push(0);
        rom.push(0);
        let mut ram: Vec<u8> = Vec::new();
        while ram.len() < 65536
            invariant
                ram@.len() <= 65536,
                forall|i: int| 0 <= i < ram@.len() ==> ram@[i] == 0u8,
            decreases 65536 - ram@.len(),
        {
            ram.push(0);
        }
        proof {
            assert(ram@ =~= Seq::new(65536nat, |i: int| 0u8));
        }
        SoC {
            reg: Register { a: 0, f: 0, b: 0, c: 0, d: 0, e: 0, h: 0, l: 0 },
            pc: 0,
            sp: 0,
            cyc: 0,
            ime: false,
            ram,
            rom,
        }
    }

    /// Read the 8-bit register at index `r8pos` (0 = A, 1 = F, 2 = B,
    /// 3 = C, 4 = D, 5 = E, 6 = H, 7 = L).
    pub fn get_r8(&self, r8pos: u8) -> (r: u8)
        requires
            r8pos < 8,
        ensures
            r == reg8_get(self@, r8pos),
    {
        match r8pos {
            0 => self.reg.a,
            1 => self.reg.f,
            2 => self.reg.b,
            3 => self.reg.c,
            4 => self.reg.d,
            5 => self.reg.e,
            6 => self.reg.h,
            _ => self.reg.l,
        }
    }

    /// Write the 8-bit register at index `r8pos`.
    pub fn set_r8(&mut self, r8pos: u8, new_r8: u8)
        requires
            r8pos < 8,
        ensures
            final(self)@ == reg8_set(old(self)@, r8pos, new_r8),
    {
        proof {
            use_type_invariant(&*self);
        }
        match r8pos {
            0 => self.reg.a = new_r8,
            1 => self.reg.f = new_r8,
            2 => self.reg.b = new_r8,
            3 => self.reg.c = new_r8,
            4 => self.reg.d = new_r8,
            5 => self.reg.e = new_r8,
            6 => self.reg.h = new_r8,
            _ => self.reg.l = new_r8,
        }
    }

    /// Read a 16-bit register pair, named by the indices of its high and
    /// low half: AF = (0, 1), BC = (2, 3), DE = (4, 5), HL = (6, 7).
    pub fn get_r16(&self, r16pos: (u8, u8)) -> (r: u16)
        requires
            pairpos_valid(r16pos),
        ensures
            r == pairpos_get(self@, r16pos),
    {
        let hi: u8 = self.get_r8(r16pos.0);
        let lo: u8 = self.get_r8(r16pos.1);
        (hi as u16) * 256 + (lo as u16)
    }

    /// Write a 16-bit register pair: the high byte goes to the
    /// first-named register, the low byte to the second.
    pub fn set_r16(&mut self, r16pos: (u8, u8), new_r16: u16)
        requires
            pairpos_valid(r16pos),
        ensures
            final(self)@ == pairpos_set(old(self)@, r16pos, new_r16),
    {
        self.set_r8(r16pos.0, (new_r16 / 256) as u8);
        self.set_r8(r16pos.1, (new_r16 % 256) as u8);
    }

    /// Increment an 8-bit register, wrapping modulo 256.
    pub fn r8_inc(&mut self, r8pos: u8)
        requires
            r8pos < 8,
        ensures
            final(self)@ == reg8_set(old(self)@, r8pos, wrap8(reg8_get(old(self)@, r8pos) + 1)),
    {
        let v: u8 = self.get_r8(r8pos);
        let w: u8 = crate::state::wadd8(v, 1);
        self.set_r8(r8pos, w);
    }

    /// Decrement an 8-bit register, wrapping modulo 256.
    pub fn r8_dec(&mut self, r8pos: u8)
        requires
            r8pos < 8,
        ensures
            final(self)@ == reg8_set(old(self)@, r8pos, wrap8(reg8_get(old(self)@, r8pos) - 1)),
    {
        let v: u8 = self.get_r8(r8pos);
        let w: u8 = crate::state::wsub8(v, 1);
        self.set_r8(r8pos, w);
    }

    /// Increment a 16-bit register pair, wrapping modulo 65536.
    pub fn r16_inc(&mut self, r16pos: (u8, u8))
        requires
            pairpos_valid(r16pos),
        ensures
            final(self)@ == pairpos_set(
                old(self)@,
                r16pos,
                wrap16(pairpos_get(old(self)@, r16pos) + 1),
            ),
    {
        let v: u16 = self.get_r16(r16pos);
        let w: u16 = wadd16(v, 1);
        self.set_r16(r16pos, w);
    }

    /// Decrement a 16-bit register pair, wrapping modulo 65536.
    pub fn r16_dec(&mut self, r16pos: (u8, u8))
        requires
            pairpos_valid(r16pos),
        ensures
            final(self)@ == pairpos_set(
                old(self)@,
                r16pos,
                wrap16(pairpos_get(old(self)@, r16pos) - 1),
            ),
    {
        let v: u16 = self.get_r16(r16pos);
        let w: u16 = wsub16(v, 1);
        self.set_r16(r16pos, w);
    }

    /// Set bit `b3` of the 8-bit register at index `r8pos`.
    pub fn r8_set(&mut self, r8pos: u8, b3: u8)
        requires
            r8pos < 8,
            b3 < 8,
        ensures
            final(self)@ == reg8_set(
                old(self)@,
                r8pos,
                reg8_get(old(self)@, r8pos) | (1u8 << b3),
            ),
    {
        let v: u8 = self.get_r8(r8pos);
        self.set_r8(r8pos, v | (1u8 << b3));
    }

    /// Clear bit `b3` of the 8-bit register at index `r8pos`.
    pub fn r8_res(&mut self, r8pos: u8, b3: u8)
        requires
            r8pos < 8,
            b3 < 8,
        ensures
            final(self)@ == reg8_set(
                old(self)@,
                r8pos,
                reg8_get(old(self)@, r8pos) & ((0xff - (1u8 << b3)) as u8),
            ),
    {
        let v: u8 = self.get_r8(r8pos);
        self.set_r8(r8pos, v & (0xff - (1u8 << b3)));
    }

    /// Read flag bit `flag_bit` of F as 0 or 1.  Only bits 4 (Carry),
    /// 5 (Half-carry), 6 (Subtract) and 7 (Zero) are flags.
    pub fn get_flag(&self, flag_pos: u8) -> (r: u8)
        requires
            4 <= flag_pos < 8,
        ensures
            r == flag_bit(self@.f, flag_pos),
    {
        (self.reg.f >> flag_pos) & 1
    }

    /// Set flag bit `flag_pos` of F.
    pub fn set_flag(&mut self, flag_pos: u8)
        requires
            4 <= flag_pos < 8,
        ensures
            final(self)@ == (CpuV { f: old(self)@.f | (1u8 << flag_pos), ..old(self)@ }),
    {
        proof {
            use_type_invariant(&*self);
        }
        self.reg.f = self.reg.f | (1u8 << flag_pos);
    }

    /// Clear flag bit `flag_pos` of F.
    pub fn res_flag(&mut self, flag_pos: u8)
        requires
            4 <= flag_pos < 8,
        ensures
            final(self)@ == (CpuV {
                f: old(self)@.f & ((0xff - (1u8 << flag_pos)) as u8),
                ..old(self)@
            }),
    {
        proof {
            use_type_invariant(&*self);
        }
        self.reg.f = self.reg.f & (0xff - (1u8 << flag_pos));
    }

    /// Current stack pointer.
    pub fn get_sp(&self) -> (r: u16)
        ensures
            r == self@.sp,
    {
        self.sp
    }

    /// Set the stack pointer.
    pub fn set_sp(&mut self, new_sp: u16)
        ensures
            final(self)@ == (CpuV { sp: new_sp, ..old(self)@ }),
    {
        proof {
            use_type_invariant(&*self);
        }
        self.sp = new_sp;
    }

    /// Current program counter.
    pub fn get_pc(&self) -> (r: u16)
        ensures
            r == self@.pc,
    {
        self.pc
    }

    /// Set the program counter.
    pub fn set_pc(&mut self, new_pc: u16)
        ensures
            final(self)@ == (CpuV { pc: new_pc, ..old(self)@ }),
    {
        proof {
            use_type_invariant(&*self);
        }
        self.pc = new_pc;
    }

    /// Advance the program counter by `n`, wrapping modulo 65536.
    pub fn pc_inc(&mut self, n: u16)
        ensures
            final(self)@ == (CpuV { pc: wrap16(old(self)@.pc + n), ..old(self)@ }),
    {
        let w: u16 = wadd16(self.pc, n);
        self.set_pc(w);
    }

    /// Move the program counter back by `n`, wrapping modulo 65536.
    pub fn pc_dec(&mut self, n: u16)
        ensures
            final(self)@ == (CpuV { pc: wrap16(old(self)@.pc - n), ..old(self)@ }),
    {
        let w: u16 = wsub16(self.pc, n);
        self.set_pc(w);
    }

    /// Total machine cycles executed so far.
    pub fn get_cyc(&self) -> (r: u128)
        ensures
            r == self@.cyc,
    {
        self.cyc
    }

    /// Add `n` machine cycles to the cycle counter.
    pub fn cyc_inc(&mut self, n: u128)
        requires
            old(self)@.cyc + n <= u128::MAX,
        ensures
            final(self)@ == (CpuV { cyc: (old(self)@.cyc + n) as nat, ..old(self)@ }),
    {
        proof {
            use_type_invariant(&*self);
        }
        self.cyc = self.cyc + n;
    }

    /// Read the working-memory byte at `addr`.  Every 16-bit address is
    /// in range.
    pub fn ram_read(&self, addr: u16) -> (r: u8)
        ensures
            r == self@.ram[addr as int],
            self@.ram.len() == 65536,
    {
        proof {
            use_type_invariant(self);
        }
        self.ram[addr as usize]
    }

    /// Write the working-memory byte at `addr`.
    pub fn ram_write(&mut self, addr: u16, data: u8)
        ensures
            final(self)@ == (CpuV {
                ram: old(self)@.ram.update(addr as int, data),
                ..old(self)@
            }),
            old(self)@.ram.len() == 65536,
    {
        proof {
            use_type_invariant(&*self);
        }
        self.ram[addr as usize] = data;
    }

    /// A copy of the whole working memory.
    pub fn ram_data(&self) -> (r: Vec<u8>)
        ensures
            r@ == self@.ram,
    {
        let mut out: Vec<u8> = Vec::new();
        let mut i: usize = 0;
        while i < self.ram.len()
            invariant
                i <= self.ram@.len(),
                out@ == self.ram@.subrange(0, i as int),
            decreases self.ram@.len() - i,
        {
            out.push(self.ram[i]);
            i = i + 1;
            proof {
                assert(out@ =~= self.ram@.subrange(0, i as int));
            }
        }
        proof {
            assert(out@ =~= self.ram@);
        }
        out
    }

    /// Read the instruction-store byte at `addr`.  Reading past the
    /// padded store is a contract violation: it indicates a corrupted
    /// program counter.
    pub fn read_rom(&self, addr: u16) -> (r: u8)
        requires
            addr < self@.rom.len(),
        ensures
            r == self@.rom[addr as int],
    {
        self.rom[addr as usize]
    }

    /// Length of the padded instruction store, so that a driver can
    /// validate a program counter before fetching.
    pub fn rom_len(&self) -> (r: usize)
        ensures
            r == self@.rom.len(),
    {
        self.rom.len()
    }

    /// Whether the instruction at the current program counter is HALT
    /// (0x76).  Advisory only: executing HALT changes no state, and the
    /// driving loop decides whether to stop.
    pub fn halt(&self) -> (r: bool)
        requires
            self@.pc < self@.rom.len(),
        ensures
            r == (self@.rom[self@.pc as int] == 0x76),
    {
        self.read_rom(self.get_pc()) == 0x76
    }

    /// Enable interrupts (set IME).
    pub fn set_ime(&mut self)
        ensures
            final(self)@ == (CpuV { ime: true, ..old(self)@ }),
    {
        proof {
            use_type_invariant(&*self);
        }
        self.ime = true;
    }

    /// Disable interrupts (clear IME).
    pub fn res_ime(&mut self)
        ensures
            final(self)@ == (CpuV { ime: false, ..old(self)@ }),
    {
        proof {
            use_type_invariant(&*self);
        }
        self.ime = false;
    }

    /// Current interrupt-enable flag, for the embedding driver.
    pub fn get_ime(&self) -> (r: bool)
        ensures
            r == self@.ime,
    {
        self.ime
    }

    /// The shared arithmetic-flag computation.  In 8-bit mode (operands
    /// below 256) it sets all four flags per [`flags8`]; in 16-bit mode it
    /// sets Subtract, Half-carry and Carry per [`flags16`] and leaves Zero
    /// unchanged.
    pub fn smart_flag(&mut self, num1: u16, num2: u16, n: bool, u8_mode: bool)
        requires
            u8_mode ==> num1 <= 0xff && num2 <= 0xff,
        ensures
            final(self)@ == (CpuV {
                f: if u8_mode {
                    flags8(old(self)@.f, num1 as u8, num2 as u8, n)
                } else {
                    flags16(old(self)@.f, num1, num2, n)
                },
                ..old(self)@
            }),
    {
        proof {
            use_type_invariant(&*self);
        }
        let f_old: u8 = self.reg.f;
        let newf: u8;
        if u8_mode {
            let x: u8 = num1 as u8;
            let y: u8 = num2 as u8;
            if !n {
                let z: bool = ((x as u32) + (y as u32)) % 256 == 0;
                let h: bool = ((x & 0xf) as u32) + ((y & 0xf) as u32) > 0xf;
                let c: bool = (x as u32) + (y as u32) > 0xff;
                newf = mk_f_exec(f_old, z, false, h, c);
            } else {
                let z: bool = x == y;
                let h: bool = (x & 0xf) < (y & 0xf);
                let c: bool = x < y;
                newf = mk_f_exec(f_old, z, true, h, c);
            }
        } else {
            let z: bool = (f_old >> 7u8) & 1 == 1;
            if !n {
                let h: bool = ((num1 & 0xfff) as u32) + ((num2 & 0xfff) as u32) > 0xfff;
                let c: bool = (num1 as u32) + (num2 as u32) > 0xffff;
                newf = mk_f_exec(f_old, z, false, h, c);
            } else {
                let h: bool = (num1 & 0xfff) < (num2 & 0xfff);
                let c: bool = num1 < num2;
                newf = mk_f_exec(f_old, z, true, h, c);
            }
        }
        self.reg.f = newf;
    }
}

/// The next `length` instruction-store bytes starting at the current
/// program counter, for disassembly or display.
pub fn return_instruction(soc: &SoC, length: u8) -> (r: Vec<u8>)
    requires
        soc@.pc + length <= soc@.rom.len(),
    ensures
        r@ == soc@.rom.subrange(soc@.pc as int, soc@.pc + length),
{
    proof {
        use_type_invariant(soc);
    }
    let start: u16 = soc.get_pc();
    let mut opt_code: Vec<u8> = Vec::new();
    let mut k: u8 = 0;
    while k < length
        invariant
            k <= length,
            soc@.pc + length <= soc@.rom.len(),
            soc@.rom.len() <= 0x10000,
            opt_code@ == soc@.rom.subrange(soc@.pc as int, soc@.pc + k),
            start == soc@.pc,
        decreases length - k,
    {
        opt_code.push(soc.read_rom(start + (k as u16)));
        k = k + 1;
        proof {
            assert(opt_code@ =~= soc@.rom.subrange(soc@.pc as int, soc@.pc + k));
        }
    }
    opt_code
}

impl SoC {
    /// The next `length` instruction-store bytes at the program counter.
    pub fn give_opt_code(&self, length: u8) -> (r: Vec<u8>)
        requires
            self@.pc + length <= self@.rom.len(),
        ensures
            r@ == self@.rom.subrange(self@.pc as int, self@.pc + length),
    {
        return_instruction(self, length)
    }
}

} // verus!
