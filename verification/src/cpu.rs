//! The LR35902 interpreter: the register file and the flags, the
//! instructions, the service of interrupts, and the tick that drives the
//! peripherals with the machine cycles that an instruction took.
use vstd::prelude::*;
use crate::cpu::alu::{res8, set8};
use crate::cpu::model::{bus_fault, effect, fatal, outcome, wrap16};
use crate::cpu::regs::lemma_flags_byte;
use crate::error::CoreError;
use crate::mbc::MbcState;
use crate::mmu::{Mmu, MmuState};
use crate::utils::bit;

pub use crate::cpu::interrupt::{Interrupt, InterruptFlags};
pub use crate::cpu::model::{CpuState, CpuTickOutput};
pub use crate::cpu::regs::{add_u16_e8, combine_u8, r16_to_hi_lo, split_u16, ReadWrite, Regs, R16, R8};

pub mod alu;
pub mod interrupt;
pub mod laws;
pub mod model;
pub mod regs;
pub mod timing;
pub mod valid;

verus! {

/// The processor, and the bus that it owns.
pub struct Cpu {
    pub rg: Regs,
    pub sp: u16,
    pub pc: u16,
    pub z: bool,
    pub n: bool,
    pub h: bool,
    pub c: bool,
    /// The master enable.
    pub ime: bool,
    /// EI was executed and the master enable is still to be set.
    pub ei: bool,
    pub halted: bool,
    pub mmu: Mmu,
}

impl View for Cpu {
    type V = CpuState;

    open spec fn view(&self) -> CpuState {
        CpuState {
            rg: self.rg,
            sp: self.sp,
            pc: self.pc,
            z: self.z,
            n: self.n,
            h: self.h,
            c: self.c,
            ime: self.ime,
            ei: self.ei,
            halted: self.halted,
            mmu: self.mmu@,
        }
    }
}

impl Cpu {
    /// A processor over the cartridge that the image `data` describes, with
    /// zeroed registers, SP at 0xFFFE and PC at 0x0100.
    pub fn new(data: Vec<u8>) -> (r: Result<Cpu, CoreError>)
        ensures
            match MbcState::load(data@) {
                Ok(c) => r is Ok && r->Ok_0@ == CpuState::zeroed(MmuState::zeroed(c)) && r->Ok_0@.wf(),
                Err(e) => r is Err && r->Err_0 == e,
            },
    {
        let mmu = Mmu::new(data)?;
        Ok(
            Cpu {
                rg: Regs::new(),
                sp: 0xFFFE,
                pc: 0x0100,
                z: false,
                n: false,
                h: false,
                c: false,
                ime: false,
                ei: false,
                halted: false,
                mmu,
            },
        )
    }

    /// A processor over the cartridge that the image `data` describes, in
    /// the state that the boot program leaves.
    pub fn boot(data: Vec<u8>) -> (r: Result<Cpu, CoreError>)
        ensures
            match MbcState::load(data@) {
                Ok(c) => r is Ok && r->Ok_0@ == CpuState::booted(MmuState::booted(c)) && r->Ok_0@.wf(),
                Err(e) => r is Err && r->Err_0 == e,
            },
    {
        let mmu = Mmu::boot(data)?;
        let mut cpu = Cpu {
            rg: Regs { b: 0x00, c: 0x13, d: 0x00, e: 0xD8, h: 0x01, l: 0x4D, a: 0x01, f: 0xB0 },
            sp: 0xFFFE,
            pc: 0x0100,
            z: false,
            n: false,
            h: false,
            c: false,
            ime: false,
            ei: false,
            halted: false,
            mmu,
        };
        cpu.read_flags();
        Ok(cpu)
    }

    /// Whether the processor may be used: the bus is valid and F holds the
    /// four flags.
    pub fn is_valid(&self) -> (r: bool)
        ensures
            r == self@.wf(),
    {
        self.mmu.is_valid() && self.af() % 256 == self.rg.f as u16
    }

    /// Makes F from the four flags.
    pub fn set_flags(&mut self)
        ensures
            final(self)@ == old(self)@.set_flags(),
            final(self)@.mmu.wf() == old(self)@.mmu.wf(),
            old(self)@.mmu.wf() ==> final(self)@.wf(),
    {
        let z: u8 = if self.z {
            0x80
        } else {
            0
        };
        let n: u8 = if self.n {
            0x40
        } else {
            0
        };
        let h: u8 = if self.h {
            0x20
        } else {
            0
        };
        let c: u8 = if self.c {
            0x10
        } else {
            0
        };
        self.rg.f = z + n + h + c;
    }

    /// Takes the four flags from bits 7 to 4 of F.
    pub fn read_flags(&mut self)
        ensures
            final(self)@ == old(self)@.read_flags(),
    {
        let f: u8 = self.rg.f;
        self.z = f >= 128;
        self.n = (f / 64) % 2 == 1;
        self.h = (f / 32) % 2 == 1;
        self.c = (f / 16) % 2 == 1;
    }

    /// Sets the four flags, in the booleans and in F.
    fn put_flags(&mut self, z: bool, n: bool, h: bool, c: bool)
        requires
            old(self)@.mmu.wf(),
        ensures
            final(self)@ == old(self)@.with_flags(z, n, h, c),
            final(self)@.wf(),
    {
        self.z = z;
        self.n = n;
        self.h = h;
        self.c = c;
        self.set_flags();
    }

    /// The flags after a rotate or a shift that gave `res` and pushed out `c`.
    fn sh_flags(&mut self, res: u8, c: bool)
        requires
            old(self)@.mmu.wf(),
        ensures
            final(self)@ == old(self)@.with_flags(res == 0, false, false, c),
            final(self)@.wf(),
    {
        self.put_flags(res == 0, false, false, c);
    }

    /// The pair AF.
    pub fn af(&self) -> (r: u16)
        ensures
            r == self@.af(),
    {
        let z: u8 = if self.z {
            0x80
        } else {
            0
        };
        let n: u8 = if self.n {
            0x40
        } else {
            0
        };
        let h: u8 = if self.h {
            0x20
        } else {
            0
        };
        let c: u8 = if self.c {
            0x10
        } else {
            0
        };
        combine_u8(self.rg.a, z + n + h + c)
    }

    /// The pair BC.
    pub fn bc(&self) -> (r: u16)
        ensures
            r == self.rg.bc(),
    {
        combine_u8(self.rg.b, self.rg.c)
    }

    /// The pair DE.
    pub fn de(&self) -> (r: u16)
        ensures
            r == self.rg.de(),
    {
        combine_u8(self.rg.d, self.rg.e)
    }

    /// The pair HL.
    pub fn hl(&self) -> (r: u16)
        ensures
            r == self.rg.hl(),
    {
        combine_u8(self.rg.h, self.rg.l)
    }

    /// Puts `w` into HL.
    fn set_hl(&mut self, w: u16)
        ensures
            final(self)@ == old(self)@.with_hl(w),
    {
        let (hi, lo) = split_u16(w);
        self.rg.h = hi;
        self.rg.l = lo;
    }

    /// HL, which then steps down by one.
    fn hld(&mut self) -> (r: u16)
        ensures
            r == old(self).rg.hl(),
            final(self)@ == old(self)@.hld(),
    {
        let hl: u16 = self.hl();
        self.set_hl(hl.wrapping_sub(1));
        hl
    }

    /// HL, which then steps up by one.
    fn hli(&mut self) -> (r: u16)
        ensures
            r == old(self).rg.hl(),
            final(self)@ == old(self)@.hli(),
    {
        let hl: u16 = self.hl();
        self.set_hl(hl.wrapping_add(1));
        hl
    }

    /// The value of a 16-bit operand.
    fn r16(&self, r: R16) -> (w: u16)
        ensures
            w == self@.r16(r),
    {
        match r {
            R16::BC => self.bc(),
            R16::DE => self.de(),
            R16::AF => self.af(),
            R16::SP => self.sp,
            _ => self.hl(),
        }
    }

    /// Puts `w` into BC, DE, HL or SP.
    fn set_r16(&mut self, r: R16, w: u16)
        requires
            r == R16::BC || r == R16::DE || r == R16::HL || r == R16::SP,
        ensures
            final(self)@ == old(self)@.with_r16(r, w),
            old(self)@.wf() ==> final(self)@.wf(),
    {
        if r == R16::SP {
            self.sp = w;
        } else {
            let (rh, rl) = r16_to_hi_lo(r);
            let (hi, lo) = split_u16(w);
            self.rg.set(rh, hi);
            self.rg.set(rl, lo);
        }
    }

    /// Reads the byte at `addr` through the bus.
    pub fn read_byte(&self, addr: u16) -> (r: Result<u8, CoreError>)
        requires
            self@.mmu.wf(),
        ensures
            r == self@.read_byte(addr),
            r is Err <==> 0xE000 <= addr < 0xFE00 && !self.mmu.ppu.dma,
            r matches Err(e) ==> e == CoreError::Unmapped(addr),
    {
        self.mmu.read_byte(addr)
    }

    /// Writes `b` at `addr` through the bus. A failed write changes nothing.
    pub fn write_byte(&mut self, addr: u16, b: u8) -> (r: Result<(), CoreError>)
        requires
            old(self)@.mmu.wf(),
        ensures
            effect(old(self)@.write_byte(addr, b), final(self)@, r),
            r is Err ==> final(self)@ == old(self)@,
            r is Err <==> 0xE000 <= addr < 0xFE00,
            r matches Err(e) ==> e == CoreError::Unmapped(addr),
            final(self)@.mmu.wf(),
            old(self)@.wf() ==> final(self)@.wf(),
    {
        self.mmu.write_byte(addr, b)
    }

    /// Fetches the byte at PC and moves PC past it. A failed fetch changes
    /// nothing.
    fn next_byte(&mut self) -> (r: Result<u8, CoreError>)
        requires
            old(self)@.wf(),
        ensures
            outcome(old(self)@.next_byte(), final(self)@, r),
            r matches Err(e) ==> bus_fault(e),
            r is Err ==> final(self)@ == old(self)@,
            final(self)@.wf(),
    {
        let byte: u8 = self.mmu.read_byte(self.pc)?;
        self.pc = self.pc.wrapping_add(1);
        Ok(byte)
    }

    /// Fetches the little-endian word at PC and moves PC past it.
    fn next_word(&mut self) -> (r: Result<u16, CoreError>)
        requires
            old(self)@.wf(),
        ensures
            outcome(old(self)@.next_word(), final(self)@, r),
            r matches Err(e) ==> bus_fault(e),
            final(self)@.wf(),
    {
        let lo: u8 = self.next_byte()?;
        let hi: u8 = self.next_byte()?;
        Ok(combine_u8(hi, lo))
    }

    /// Pops a word off the stack. A failed pop changes nothing.
    fn pop(&mut self) -> (r: Result<u16, CoreError>)
        requires
            old(self)@.wf(),
        ensures
            outcome(old(self)@.pop(), final(self)@, r),
            r matches Err(e) ==> bus_fault(e),
            r is Err ==> final(self)@ == old(self)@,
            final(self)@.wf(),
    {
        let lo: u8 = self.mmu.read_byte(self.sp)?;
        let hi: u8 = self.mmu.read_byte(self.sp.wrapping_add(1))?;
        self.sp = self.sp.wrapping_add(2);
        Ok(combine_u8(hi, lo))
    }

    /// Pushes a word onto the stack, high byte first.
    fn push(&mut self, w: u16) -> (r: Result<(), CoreError>)
        requires
            old(self)@.wf(),
        ensures
            effect(old(self)@.push(w), final(self)@, r),
            r matches Err(e) ==> bus_fault(e),
            final(self)@.wf(),
    {
        let (hi, lo) = split_u16(w);
        let above: u16 = self.sp.wrapping_sub(1);
        let below: u16 = self.sp.wrapping_sub(2);
        assert(above == wrap16(self.sp - 1) && below == wrap16(self.sp - 2));
        match self.write_byte(above, hi) {
            Err(e) => Err(e),
            Ok(_) => match self.write_byte(below, lo) {
                Err(e) => Err(e),
                Ok(_) => {
                    self.sp = below;
                    Ok(())
                },
            },
        }
    }

    /// Reads an 8-bit operand.
    fn r8_get(&self, r: R8) -> (v: Result<u8, CoreError>)
        requires
            self@.wf(),
        ensures
            v == self@.r8_get(r),
            v matches Err(e) ==> bus_fault(e),
    {
        if r == R8::HLA {
            self.mmu.read_byte(self.hl())
        } else {
            Ok(self.rg.get(r))
        }
    }

    /// Writes an 8-bit operand. A failed write changes nothing.
    fn r8_set(&mut self, r: R8, v: u8) -> (res: Result<(), CoreError>)
        requires
            old(self)@.wf(),
            r != R8::F,
        ensures
            effect(old(self)@.r8_set(r, v), final(self)@, res),
            res is Err ==> final(self)@ == old(self)@,
            res matches Err(e) ==> bus_fault(e),
            final(self)@.wf(),
    {
        if r == R8::HLA {
            let addr: u16 = self.hl();
            self.write_byte(addr, v)
        } else {
            self.rg.set(r, v);
            Ok(())
        }
    }

    /// Reads the operand that the low three bits of `opcode` name.
    fn r8_src(&self, opcode: u8) -> (v: Result<u8, CoreError>)
        requires
            self@.wf(),
        ensures
            v == self@.r8_src(opcode),
            v matches Err(e) ==> bus_fault(e),
    {
        self.r8_get(R8::operand(opcode))
    }

    /// ADD A, b, or ADC A, b where `carry` is set: A becomes the sum modulo
    /// 256; Z says whether that is zero, N is cleared, H is the carry out of
    /// the low nibble and C the carry out of the byte. F is made by the
    /// caller.
    fn alu_add(&mut self, b: u8, carry: bool)
        ensures
            final(self)@ == old(self)@.alu_add(b, carry),
    {
        let a: u8 = self.rg.a;
        let k: u8 = if carry && self.c {
            1
        } else {
            0
        };
        let res: u8 = a.wrapping_add(b).wrapping_add(k);
        self.z = res == 0;
        self.n = false;
        self.h = (a & 0x0F) as u16 + (b & 0x0F) as u16 + k as u16 > 0x0F;
        self.c = a as u16 + b as u16 + k as u16 > 0xFF;
        self.rg.a = res;
    }

    /// SUB A, b, or SBC A, b where `carry` is set: A becomes the difference
    /// modulo 256; Z says whether that is zero, N is set, H is the borrow
    /// into the low nibble and C the borrow into the byte. F is made by the
    /// caller.
    fn alu_sub(&mut self, b: u8, carry: bool)
        ensures
            final(self)@ == old(self)@.alu_sub(b, carry),
    {
        let a: u8 = self.rg.a;
        let k: u8 = if carry && self.c {
            1
        } else {
            0
        };
        let res: u8 = a.wrapping_sub(b).wrapping_sub(k);
        self.z = res == 0;
        self.n = true;
        self.h = ((a & 0x0F) as u16) < (b & 0x0F) as u16 + k as u16;
        self.c = (a as u16) < b as u16 + k as u16;
        self.rg.a = res;
    }

    /// AND, XOR or OR on A, by the numbers 4 to 6: H is set by AND and
    /// cleared by the others, N and C are cleared. F is made by the caller.
    fn alu_logic(&mut self, op: u8, src: u8)
        requires
            4 <= op <= 6,
        ensures
            final(self)@ == old(self)@.alu_logic(op, src),
    {
        if op == 4 {
            self.rg.a = self.rg.a & src;
        } else if op == 5 {
            self.rg.a = self.rg.a ^ src;
        } else {
            self.rg.a = self.rg.a | src;
        }
        self.z = self.rg.a == 0;
        self.n = false;
        self.h = op == 4;
        self.c = false;
    }

    /// One of the eight operations on A with the operand `src`: ADD, ADC,
    /// SUB, SBC, AND, XOR, OR, CP, by the numbers 0 to 7.
    fn alu(&mut self, op: u8, src: u8)
        requires
            old(self)@.wf(),
            op < 8,
        ensures
            final(self)@ == old(self)@.alu(op, src),
            final(self)@.wf(),
    {
        if op == 0 {
            self.alu_add(src, false);
        } else if op == 1 {
            self.alu_add(src, true);
        } else if op == 2 {
            self.alu_sub(src, false);
        } else if op == 3 {
            self.alu_sub(src, true);
        } else if op == 7 {
            let a: u8 = self.rg.a;
            self.alu_sub(src, false);
            self.rg.a = a;
        } else {
            self.alu_logic(op, src);
        }
        self.set_flags();
    }

    /// ADD HL, r16: two machine cycles. Z stays, N is cleared, H is the
    /// carry out of bit 11 and C the carry out of bit 15.
    fn alu_add16(&mut self, r: R16) -> (m: u16)
        requires
            old(self)@.wf(),
        ensures
            final(self)@ == old(self)@.alu_add16(r),
            m == 2,
            final(self)@.wf(),
    {
        let a: u16 = self.hl();
        let b: u16 = self.r16(r);
        let res: u16 = a.wrapping_add(b);
        let z: bool = self.z;
        self.put_flags(z, false, (a & 0x0FFF) as u32 + (b & 0x0FFF) as u32 > 0x0FFF, a as u32 + b as u32 > 0xFFFF);
        self.set_hl(res);
        2
    }

    /// ADD SP, e8: four machine cycles. Z and N are cleared; H and C are
    /// those of adding the offset as an unsigned byte to the low byte of SP.
    fn alu_add_sp_e8(&mut self) -> (r: Result<u16, CoreError>)
        requires
            old(self)@.wf(),
        ensures
            outcome(old(self)@.alu_add_sp_e8(), final(self)@, r),
            r matches Err(e) ==> bus_fault(e),
            r matches Ok(m) ==> m == 4,
            final(self)@.wf(),
    {
        let e8: u8 = self.next_byte()?;
        let (res, _, h, c) = add_u16_e8(self.sp, e8);
        self.sp = res;
        self.put_flags(false, false, h, c);
        Ok(4)
    }

    /// BIT n: Z is set when bit `shift` of `src` is clear, N is cleared, H is
    /// set, C stays.
    fn alu_bit(&mut self, src: u8, shift: u8)
        requires
            old(self)@.wf(),
            shift < 8,
        ensures
            final(self)@ == old(self)@.alu_bit(src, shift),
            final(self)@.wf(),
    {
        let c: bool = self.c;
        self.put_flags(!bit(src as u32, shift), false, true, c);
    }

    /// CCF: one machine cycle. C is inverted, N and H are cleared.
    fn alu_ccf(&mut self) -> (m: u16)
        requires
            old(self)@.wf(),
        ensures
            final(self)@ == old(self)@.alu_ccf(),
            m == 1,
            final(self)@.wf(),
    {
        let z: bool = self.z;
        let c: bool = self.c;
        self.put_flags(z, false, false, !c);
        1
    }

    /// CPL: one machine cycle. A is inverted, N and H are set.
    fn alu_cpl(&mut self) -> (m: u16)
        requires
            old(self)@.wf(),
        ensures
            final(self)@ == old(self)@.alu_cpl(),
            m == 1,
            final(self)@.wf(),
    {
        self.rg.a = !self.rg.a;
        let z: bool = self.z;
        let c: bool = self.c;
        self.put_flags(z, true, true, c);
        1
    }

    /// DAA: one machine cycle. A is adjusted to packed decimal after an
    /// addition or a subtraction.
    fn alu_daa(&mut self) -> (m: u16)
        requires
            old(self)@.wf(),
        ensures
            final(self)@ == old(self)@.alu_daa(),
            m == 1,
            final(self)@.wf(),
    {
        let a: u8 = self.rg.a;
        let mut res: u8 = a;
        let mut c: bool = self.c;
        if !self.n {
            let low: bool = self.h || (a & 0x0F) > 0x09;
            if self.c || a > 0x99 {
                res = res.wrapping_add(0x60);
                c = true;
            }
            if low {
                res = res.wrapping_add(0x06);
            }
        } else {
            if self.c {
                res = res.wrapping_sub(0x60);
            }
            if self.h {
                res = res.wrapping_sub(0x06);
            }
        }
        self.rg.a = res;
        let n: bool = self.n;
        self.put_flags(res == 0, n, false, c);
        1
    }

    /// INC or DEC on an 8-bit operand: one machine cycle, three on the byte
    /// at HL. C stays.
    fn alu_inc8(&mut self, r: R8, neg: bool) -> (m: Result<u16, CoreError>)
        requires
            old(self)@.wf(),
            r != R8::F,
        ensures
            outcome(old(self)@.alu_inc8(r, neg), final(self)@, m),
            m matches Err(e) ==> bus_fault(e),
            m matches Ok(k) ==> 1 <= k <= 3,
            final(self)@.wf(),
    {
        let b: u8 = self.r8_get(r)?;
        let res: u8 = if neg {
            b.wrapping_sub(1)
        } else {
            b.wrapping_add(1)
        };
        let c: bool = self.c;
        self.put_flags(
            res == 0,
            neg,
            b & 0x0F == if neg {
                0
            } else {
                0x0F
            },
            c,
        );
        self.r8_set(r, res)?;
        if r == R8::HLA {
            Ok(3)
        } else {
            Ok(1)
        }
    }

    /// INC or DEC on BC, DE, HL or SP: two machine cycles, no flag changes.
    fn alu_inc16(&mut self, r: R16, neg: bool) -> (m: u16)
        requires
            old(self)@.wf(),
            r == R16::BC || r == R16::DE || r == R16::HL || r == R16::SP,
        ensures
            final(self)@ == old(self)@.alu_inc16(r, neg),
            m == 2,
            final(self)@.wf(),
    {
        let b: u16 = self.r16(r);
        let res: u16 = if neg {
            b.wrapping_sub(1)
        } else {
            b.wrapping_add(1)
        };
        self.set_r16(r, res);
        2
    }

    /// An operation on A with the byte after the opcode: two machine cycles.
    fn alu_n8(&mut self, opcode: u8) -> (m: Result<u16, CoreError>)
        requires
            old(self)@.wf(),
        ensures
            outcome(old(self)@.alu_n8(opcode), final(self)@, m),
            m matches Err(e) ==> bus_fault(e),
            m matches Ok(k) ==> k == 2,
            final(self)@.wf(),
    {
        let src: u8 = self.next_byte()?;
        self.alu((opcode / 8) % 8, src);
        Ok(2)
    }

    /// An operation on A with an 8-bit operand: one machine cycle, two with
    /// the byte at HL.
    fn alu_r8(&mut self, opcode: u8) -> (m: Result<u16, CoreError>)
        requires
            old(self)@.wf(),
        ensures
            outcome(old(self)@.alu_r8(opcode), final(self)@, m),
            m matches Err(e) ==> bus_fault(e),
            m matches Ok(k) ==> 1 <= k <= 2,
            final(self)@.wf(),
    {
        let src: u8 = self.r8_src(opcode)?;
        self.alu((opcode / 8) % 8, src);
        if opcode % 8 == 6 {
            Ok(2)
        } else {
            Ok(1)
        }
    }

    /// RES n: `src` with bit `shift` cleared.
    fn alu_res(&self, src: u8, shift: u8) -> (r: u8)
        requires
            shift < 8,
        ensures
            r == res8(src, shift),
    {
        src & !(1u8 << shift)
    }

    /// SCF: one machine cycle. C is set, N and H are cleared.
    fn alu_scf(&mut self) -> (m: u16)
        requires
            old(self)@.wf(),
        ensures
            final(self)@ == old(self)@.alu_scf(),
            m == 1,
            final(self)@.wf(),
    {
        let z: bool = self.z;
        self.put_flags(z, false, false, true);
        1
    }

    /// SET n: `src` with bit `shift` set.
    fn alu_set(&self, src: u8, shift: u8) -> (r: u8)
        requires
            shift < 8,
        ensures
            r == set8(src, shift),
    {
        src | (1u8 << shift)
    }
}

impl Cpu {
    /// Pushes PC and jumps to `addr`: six machine cycles.
    fn call(&mut self, addr: u16) -> (m: Result<u16, CoreError>)
        requires
            old(self)@.wf(),
        ensures
            outcome(old(self)@.call(addr), final(self)@, m),
            m matches Err(e) ==> bus_fault(e),
            m matches Ok(k) ==> k == 6,
            final(self)@.wf(),
    {
        self.push(self.pc)?;
        self.pc = addr;
        Ok(6)
    }

    /// CALL cc, a16: six machine cycles when taken, three when not.
    fn call_a16(&mut self, cc: bool) -> (m: Result<u16, CoreError>)
        requires
            old(self)@.wf(),
        ensures
            outcome(old(self)@.call_a16(cc), final(self)@, m),
            m matches Err(e) ==> bus_fault(e),
            m matches Ok(k) ==> 3 <= k <= 6,
            final(self)@.wf(),
    {
        let addr: u16 = self.next_word()?;
        if cc {
            self.call(addr)
        } else {
            Ok(3)
        }
    }

    /// DI: one machine cycle. The master enable is cleared at once.
    fn di(&mut self) -> (m: u16)
        ensures
            final(self)@ == old(self)@.di(),
            m == 1,
    {
        self.ei = false;
        self.ime = false;
        1
    }

    /// EI: one machine cycle. The master enable is set after the
    /// instruction that follows.
    fn ei(&mut self) -> (m: u16)
        ensures
            final(self)@ == old(self)@.ei(),
            m == 1,
    {
        self.ei = true;
        1
    }

    /// HALT: one machine cycle. The processor stops until an interrupt is
    /// pending.
    fn halt(&mut self) -> (m: u16)
        ensures
            final(self)@ == old(self)@.halt(),
            m == 1,
    {
        self.halted = true;
        1
    }

    /// Serves interrupts before an instruction, and gives the machine cycles
    /// that this took: five where an interrupt was taken, else none.
    fn handle_interrupts(&mut self) -> (m: Result<u16, CoreError>)
        requires
            old(self)@.wf(),
        ensures
            outcome(old(self)@.handle_interrupts(), final(self)@, m),
            m matches Err(e) ==> bus_fault(e),
            m matches Ok(k) ==> k == 0 || k == 5,
            final(self)@.wf(),
    {
        let pending: Option<Interrupt> = self.mmu.ienable.read_first(&self.mmu.iflags);
        match pending {
            None => Ok(0),
            Some(source) => {
                if self.ime {
                    self.mmu.iflags.clear(source);
                    self.ime = false;
                    self.push(self.pc)?;
                    self.pc = source.vector();
                    self.halted = false;
                    Ok(5)
                } else {
                    self.halted = false;
                    Ok(0)
                }
            },
        }
    }

    /// JP cc, a16: four machine cycles when taken, three when not.
    fn jp(&mut self, cc: bool) -> (m: Result<u16, CoreError>)
        requires
            old(self)@.wf(),
        ensures
            outcome(old(self)@.jp(cc), final(self)@, m),
            m matches Err(e) ==> bus_fault(e),
            m matches Ok(k) ==> 3 <= k <= 4,
            final(self)@.wf(),
    {
        let addr: u16 = self.next_word()?;
        if cc {
            self.pc = addr;
            Ok(4)
        } else {
            Ok(3)
        }
    }

    /// JP HL: one machine cycle.
    fn jp_hl(&mut self) -> (m: u16)
        ensures
            final(self)@ == old(self)@.jp_hl(),
            m == 1,
    {
        self.pc = self.hl();
        1
    }

    /// JR cc, e8: three machine cycles when taken, two when not.
    fn jr(&mut self, cc: bool) -> (m: Result<u16, CoreError>)
        requires
            old(self)@.wf(),
        ensures
            outcome(old(self)@.jr(cc), final(self)@, m),
            m matches Err(e) ==> bus_fault(e),
            m matches Ok(k) ==> 2 <= k <= 3,
            final(self)@.wf(),
    {
        let e8: u8 = self.next_byte()?;
        let (addr, _, _, _) = add_u16_e8(self.pc, e8);
        if cc {
            self.pc = addr;
            Ok(3)
        } else {
            Ok(2)
        }
    }

    /// Moves a byte between A and memory at `addr`: a read loads A, a write
    /// stores it. A failed transfer changes nothing.
    fn transfer(&mut self, rw: ReadWrite, addr: u16) -> (r: Result<(), CoreError>)
        requires
            old(self)@.wf(),
        ensures
            effect(old(self)@.transfer(rw, addr), final(self)@, r),
            r is Err ==> final(self)@ == old(self)@,
            r matches Err(e) ==> bus_fault(e),
            final(self)@.wf(),
    {
        match rw {
            ReadWrite::R => {
                self.rg.a = self.mmu.read_byte(addr)?;
                Ok(())
            },
            ReadWrite::W => {
                let a: u8 = self.rg.a;
                self.write_byte(addr, a)
            },
        }
    }

    /// LD [a16], A and LD A, [a16]: four machine cycles.
    fn ld_a16_a(&mut self, rw: ReadWrite) -> (m: Result<u16, CoreError>)
        requires
            old(self)@.wf(),
        ensures
            outcome(old(self)@.ld_a16_a(rw), final(self)@, m),
            m matches Err(e) ==> bus_fault(e),
            m matches Ok(k) ==> k == 4,
            final(self)@.wf(),
    {
        let addr: u16 = self.next_word()?;
        self.transfer(rw, addr)?;
        Ok(4)
    }

    /// LD HL, SP + e8: three machine cycles. The flags are those of ADD SP, e8.
    fn ld_hl_sp(&mut self) -> (m: Result<u16, CoreError>)
        requires
            old(self)@.wf(),
        ensures
            outcome(old(self)@.ld_hl_sp(), final(self)@, m),
            m matches Err(e) ==> bus_fault(e),
            m matches Ok(k) ==> k == 3,
            final(self)@.wf(),
    {
        let e8: u8 = self.next_byte()?;
        let (sp, _, h, c) = add_u16_e8(self.sp, e8);
        self.put_flags(false, false, h, c);
        self.set_hl(sp);
        Ok(3)
    }

    /// LD r8, n8: two machine cycles, three to the byte at HL.
    fn ld_imm8(&mut self, r: R8) -> (m: Result<u16, CoreError>)
        requires
            old(self)@.wf(),
            r != R8::F,
        ensures
            outcome(old(self)@.ld_imm8(r), final(self)@, m),
            m matches Err(e) ==> bus_fault(e),
            m matches Ok(k) ==> 2 <= k <= 3,
            final(self)@.wf(),
    {
        let b: u8 = self.next_byte()?;
        self.r8_set(r, b)?;
        if r == R8::HLA {
            Ok(3)
        } else {
            Ok(2)
        }
    }

    /// LD r16, n16 for BC, DE, HL and SP: three machine cycles.
    fn ld_imm16(&mut self, r: R16) -> (m: Result<u16, CoreError>)
        requires
            old(self)@.wf(),
            r == R16::BC || r == R16::DE || r == R16::HL || r == R16::SP,
        ensures
            outcome(old(self)@.ld_imm16(r), final(self)@, m),
            m matches Err(e) ==> bus_fault(e),
            m matches Ok(k) ==> k == 3,
            final(self)@.wf(),
    {
        let w: u16 = self.next_word()?;
        self.set_r16(r, w);
        Ok(3)
    }

    /// LD r8, r8: one machine cycle, two where the byte at HL is read or
    /// written.
    fn ld_r8(&mut self, opcode: u8) -> (m: Result<u16, CoreError>)
        requires
            old(self)@.wf(),
        ensures
            outcome(old(self)@.ld_r8(opcode), final(self)@, m),
            m matches Err(e) ==> bus_fault(e),
            m matches Ok(k) ==> 1 <= k <= 2,
            final(self)@.wf(),
    {
        let src: u8 = self.r8_src(opcode)?;
        self.r8_set(R8::operand(opcode / 8), src)?;
        if opcode % 8 == 6 || (opcode / 8) % 8 == 6 {
            Ok(2)
        } else {
            Ok(1)
        }
    }

    /// LD [r16], A and LD A, [r16] for BC, DE and the two stepping forms of
    /// HL: two machine cycles.
    fn ld_ref16(&mut self, r: R16, rw: ReadWrite) -> (m: Result<u16, CoreError>)
        requires
            old(self)@.wf(),
            r == R16::BC || r == R16::DE || r == R16::HLI || r == R16::HLD,
        ensures
            outcome(old(self)@.ld_ref16(r, rw), final(self)@, m),
            m matches Err(e) ==> bus_fault(e),
            m matches Ok(k) ==> k == 2,
            final(self)@.wf(),
    {
        let addr: u16 = match r {
            R16::BC => self.bc(),
            R16::DE => self.de(),
            R16::HLI => self.hli(),
            _ => self.hld(),
        };
        self.transfer(rw, addr)?;
        Ok(2)
    }

    /// LD [a16], SP: five machine cycles.
    fn ld_sp(&mut self) -> (m: Result<u16, CoreError>)
        requires
            old(self)@.wf(),
        ensures
            outcome(old(self)@.ld_sp(), final(self)@, m),
            m matches Err(e) ==> bus_fault(e),
            m matches Ok(k) ==> k == 5,
            final(self)@.wf(),
    {
        let addr: u16 = self.next_word()?;
        let (hi, lo) = split_u16(self.sp);
        self.write_byte(addr, lo)?;
        self.write_byte(addr.wrapping_add(1), hi)?;
        Ok(5)
    }

    /// LD SP, HL: two machine cycles.
    fn ld_sp_hl(&mut self) -> (m: u16)
        ensures
            final(self)@ == old(self)@.ld_sp_hl(),
            m == 2,
    {
        self.sp = self.hl();
        2
    }

    /// LDH, for the opcodes 0xE0, 0xE2, 0xF0 and 0xF2: three machine cycles
    /// with an address byte, two with C.
    fn ldh(&mut self, opcode: u8) -> (m: Result<u16, CoreError>)
        requires
            old(self)@.wf(),
        ensures
            outcome(old(self)@.ldh(opcode), final(self)@, m),
            m matches Err(e) ==> bus_fault(e),
            m matches Ok(k) ==> 2 <= k <= 3,
            final(self)@.wf(),
    {
        let by_c: bool = opcode == 0xE2 || opcode == 0xF2;
        let low: u8 = if by_c {
            self.rg.c
        } else {
            self.next_byte()?
        };
        let addr: u16 = 0xFF00 + low as u16;
        let rw: ReadWrite = if opcode >= 0xF0 {
            ReadWrite::R
        } else {
            ReadWrite::W
        };
        self.transfer(rw, addr)?;
        if by_c {
            Ok(2)
        } else {
            Ok(3)
        }
    }

    /// Advances the peripherals by `cycles` machine cycles.
    fn m_cycle(&mut self, cycles: u16)
        requires
            old(self)@.wf(),
        ensures
            final(self)@ == old(self)@.m_cycle(cycles),
            final(self)@.wf(),
    {
        self.mmu.cycle(cycles);
    }

    /// POP r16 for BC, DE, HL and AF: three machine cycles.
    fn pop_r16(&mut self, r: R16) -> (m: Result<u16, CoreError>)
        requires
            old(self)@.wf(),
            r == R16::BC || r == R16::DE || r == R16::HL || r == R16::AF,
        ensures
            outcome(old(self)@.pop_r16(r), final(self)@, m),
            m matches Err(e) ==> bus_fault(e),
            m matches Ok(k) ==> k == 3,
            final(self)@.wf(),
    {
        let w: u16 = self.pop()?;
        if r == R16::AF {
            let (hi, lo) = split_u16(w);
            self.rg.a = hi;
            self.rg.f = lo;
            self.read_flags();
            self.set_flags();
        } else {
            self.set_r16(r, w);
        }
        Ok(3)
    }

    /// PUSH r16 for BC, DE, HL and AF: four machine cycles.
    fn push_r16(&mut self, r: R16) -> (m: Result<u16, CoreError>)
        requires
            old(self)@.wf(),
        ensures
            outcome(old(self)@.push_r16(r), final(self)@, m),
            m matches Err(e) ==> bus_fault(e),
            m matches Ok(k) ==> k == 4,
            final(self)@.wf(),
    {
        let w: u16 = self.r16(r);
        self.push(w)?;
        Ok(4)
    }

    /// RET: four machine cycles.
    fn ret(&mut self) -> (m: Result<u16, CoreError>)
        requires
            old(self)@.wf(),
        ensures
            outcome(old(self)@.ret(), final(self)@, m),
            m matches Err(e) ==> bus_fault(e),
            m matches Ok(k) ==> k == 4,
            final(self)@.wf(),
    {
        self.pc = self.pop()?;
        Ok(4)
    }

    /// RETI: four machine cycles. The master enable is set.
    fn reti(&mut self) -> (m: Result<u16, CoreError>)
        requires
            old(self)@.wf(),
        ensures
            outcome(old(self)@.reti(), final(self)@, m),
            m matches Err(e) ==> bus_fault(e),
            m matches Ok(k) ==> k == 4,
            final(self)@.wf(),
    {
        self.ime = true;
        self.ret()
    }

    /// RET cc: five machine cycles when taken, two when not.
    fn ret_cc(&mut self, cc: bool) -> (m: Result<u16, CoreError>)
        requires
            old(self)@.wf(),
        ensures
            outcome(old(self)@.ret_cc(cc), final(self)@, m),
            m matches Err(e) ==> bus_fault(e),
            m matches Ok(k) ==> 2 <= k <= 5,
            final(self)@.wf(),
    {
        if cc {
            self.ret()?;
            Ok(5)
        } else {
            Ok(2)
        }
    }

    /// RL: rotates `b` left through the carry.
    fn rl(&mut self, b: u8) -> (res: u8)
        requires
            old(self)@.wf(),
        ensures
            (final(self)@, res) == old(self)@.shift(2, b),
            final(self)@.wf(),
    {
        let res: u8 = (b << 1) | if self.c {
            1
        } else {
            0
        };
        self.sh_flags(res, b & 0x80 == 0x80);
        res
    }

    /// RLC: rotates `b` left.
    fn rlc(&mut self, b: u8) -> (res: u8)
        requires
            old(self)@.wf(),
        ensures
            (final(self)@, res) == old(self)@.shift(0, b),
            final(self)@.wf(),
    {
        let res: u8 = (b << 1) | (b >> 7);
        self.sh_flags(res, b & 0x80 == 0x80);
        res
    }

    /// RR: rotates `b` right through the carry.
    fn rr(&mut self, b: u8) -> (res: u8)
        requires
            old(self)@.wf(),
        ensures
            (final(self)@, res) == old(self)@.shift(3, b),
            final(self)@.wf(),
    {
        let res: u8 = (b >> 1) | if self.c {
            0x80
        } else {
            0
        };
        self.sh_flags(res, b & 0x01 == 0x01);
        res
    }

    /// RRC: rotates `b` right.
    fn rrc(&mut self, b: u8) -> (res: u8)
        requires
            old(self)@.wf(),
        ensures
            (final(self)@, res) == old(self)@.shift(1, b),
            final(self)@.wf(),
    {
        let res: u8 = (b >> 1) | (b << 7);
        self.sh_flags(res, b & 0x01 == 0x01);
        res
    }

    /// SLA: shifts `b` left.
    fn sla(&mut self, b: u8) -> (res: u8)
        requires
            old(self)@.wf(),
        ensures
            (final(self)@, res) == old(self)@.shift(4, b),
            final(self)@.wf(),
    {
        let res: u8 = b << 1;
        self.sh_flags(res, b & 0x80 == 0x80);
        res
    }

    /// SRA: shifts `b` right and keeps bit 7.
    fn sra(&mut self, b: u8) -> (res: u8)
        requires
            old(self)@.wf(),
        ensures
            (final(self)@, res) == old(self)@.shift(5, b),
            final(self)@.wf(),
    {
        let res: u8 = (b >> 1) | (b & 0x80);
        self.sh_flags(res, b & 0x01 == 0x01);
        res
    }

    /// SWAP: exchanges the nibbles of `b`.
    fn swap(&mut self, b: u8) -> (res: u8)
        requires
            old(self)@.wf(),
        ensures
            (final(self)@, res) == old(self)@.shift(6, b),
            final(self)@.wf(),
    {
        let res: u8 = (b << 4) | (b >> 4);
        self.sh_flags(res, false);
        res
    }

    /// SRL: shifts `b` right.
    fn srl(&mut self, b: u8) -> (res: u8)
        requires
            old(self)@.wf(),
        ensures
            (final(self)@, res) == old(self)@.shift(7, b),
            final(self)@.wf(),
    {
        let res: u8 = b >> 1;
        self.sh_flags(res, b & 0x01 == 0x01);
        res
    }

    /// Clears Z after a rotate of A.
    fn clear_z(&mut self)
        requires
            old(self)@.wf(),
        ensures
            final(self)@ == old(self)@.with_flags(false, old(self).n, old(self).h, old(self).c),
            final(self)@.wf(),
    {
        if self.z {
            self.z = false;
            self.set_flags();
        }
    }

    /// RLA: one machine cycle. Z is cleared.
    fn rla(&mut self) -> (m: u16)
        requires
            old(self)@.wf(),
        ensures
            final(self)@ == old(self)@.rot_a(2),
            m == 1,
            final(self)@.wf(),
    {
        let a: u8 = self.rg.a;
        self.rg.a = self.rl(a);
        self.clear_z();
        1
    }

    /// RLCA: one machine cycle. Z is cleared.
    fn rlca(&mut self) -> (m: u16)
        requires
            old(self)@.wf(),
        ensures
            final(self)@ == old(self)@.rot_a(0),
            m == 1,
            final(self)@.wf(),
    {
        let a: u8 = self.rg.a;
        self.rg.a = self.rlc(a);
        self.clear_z();
        1
    }

    /// RRA: one machine cycle. Z is cleared.
    fn rra(&mut self) -> (m: u16)
        requires
            old(self)@.wf(),
        ensures
            final(self)@ == old(self)@.rot_a(3),
            m == 1,
            final(self)@.wf(),
    {
        let a: u8 = self.rg.a;
        self.rg.a = self.rr(a);
        self.clear_z();
        1
    }

    /// RRCA: one machine cycle. Z is cleared.
    fn rrca(&mut self) -> (m: u16)
        requires
            old(self)@.wf(),
        ensures
            final(self)@ == old(self)@.rot_a(1),
            m == 1,
            final(self)@.wf(),
    {
        let a: u8 = self.rg.a;
        self.rg.a = self.rrc(a);
        self.clear_z();
        1
    }

    /// RST, for the eight opcodes from 0xC7 to 0xFF in steps of eight: a
    /// call of `opcode - 0xC7` in four machine cycles.
    fn rst(&mut self, opcode: u8) -> (m: Result<u16, CoreError>)
        requires
            old(self)@.wf(),
            opcode >= 0xC7,
        ensures
            outcome(old(self)@.rst(opcode), final(self)@, m),
            m matches Err(e) ==> bus_fault(e),
            m matches Ok(k) ==> k == 4,
            final(self)@.wf(),
    {
        self.call((opcode - 0xC7) as u16)?;
        Ok(4)
    }

    /// STOP: one machine cycle. The byte after the opcode is skipped.
    fn stop(&mut self) -> (m: u16)
        ensures
            final(self)@ == old(self)@.stop(),
            m == 1,
    {
        self.pc = self.pc.wrapping_add(1);
        1
    }

    /// One of the eight rotates and shifts, by its number.
    fn shift(&mut self, kind: u8, b: u8) -> (res: u8)
        requires
            old(self)@.wf(),
            kind < 8,
        ensures
            (final(self)@, res) == old(self)@.shift(kind, b),
            final(self)@.wf(),
    {
        if kind == 0 {
            self.rlc(b)
        } else if kind == 1 {
            self.rrc(b)
        } else if kind == 2 {
            self.rl(b)
        } else if kind == 3 {
            self.rr(b)
        } else if kind == 4 {
            self.sla(b)
        } else if kind == 5 {
            self.sra(b)
        } else if kind == 6 {
            self.swap(b)
        } else {
            self.srl(b)
        }
    }

    /// Executes the instruction `opcode` of the prefixed table: two machine
    /// cycles on a register; on the byte at HL three for BIT and four for
    /// the others.
    pub fn cb_exec(&mut self, opcode: u8) -> (m: Result<u16, CoreError>)
        requires
            old(self)@.wf(),
        ensures
            outcome(old(self)@.cb_exec(opcode), final(self)@, m),
            m matches Err(e) ==> bus_fault(e),
            m matches Ok(k) ==> 2 <= k <= 4,
            final(self)@.wf(),
    {
        proof {
            reveal(CpuState::cb_exec);
        }
        let r: R8 = R8::operand(opcode);
        let n: u8 = (opcode / 8) % 8;
        let src: u8 = self.r8_get(r)?;
        if 0x40 <= opcode && opcode < 0x80 {
            self.alu_bit(src, n);
            if r == R8::HLA {
                Ok(3)
            } else {
                Ok(2)
            }
        } else {
            let res: u8 = if opcode < 0x40 {
                self.shift(n, src)
            } else if opcode < 0xC0 {
                self.alu_res(src, n)
            } else {
                self.alu_set(src, n)
            };
            self.r8_set(r, res)?;
            if r == R8::HLA {
                Ok(4)
            } else {
                Ok(2)
            }
        }
    }

    /// Executes a prefixed instruction: fetches its opcode at PC, then runs it.
    pub fn cb(&mut self) -> (m: Result<u16, CoreError>)
        requires
            old(self)@.wf(),
        ensures
            outcome(old(self)@.cb(), final(self)@, m),
            m matches Err(e) ==> bus_fault(e),
            m matches Ok(k) ==> 2 <= k <= 4,
            final(self)@.wf(),
    {
        let opcode: u8 = self.next_byte()?;
        self.cb_exec(opcode)
    }
}

impl Cpu {
    /// Executes an instruction with an opcode below 0x40.
    fn exec_low(&mut self, opcode: u8) -> (m: Result<u16, CoreError>)
        requires
            old(self)@.wf(),
            opcode < 0x40,
        ensures
            outcome(old(self)@.exec_low(opcode), final(self)@, m),
            m matches Err(e) ==> bus_fault(e),
            m matches Ok(k) ==> 1 <= k <= 6,
            final(self)@.wf(),
    {
        proof {
            reveal(CpuState::exec_low);
        }
        match opcode {
            0x00 => Ok(1),
            0x01 => self.ld_imm16(R16::BC),
            0x02 => self.ld_ref16(R16::BC, ReadWrite::W),
            0x03 => Ok(self.alu_inc16(R16::BC, false)),
            0x04 => self.alu_inc8(R8::B, false),
            0x05 => self.alu_inc8(R8::B, true),
            0x06 => self.ld_imm8(R8::B),
            0x07 => Ok(self.rlca()),
            0x08 => self.ld_sp(),
            0x09 => Ok(self.alu_add16(R16::BC)),
            0x0A => self.ld_ref16(R16::BC, ReadWrite::R),
            0x0B => Ok(self.alu_inc16(R16::BC, true)),
            0x0C => self.alu_inc8(R8::C, false),
            0x0D => self.alu_inc8(R8::C, true),
            0x0E => self.ld_imm8(R8::C),
            0x0F => Ok(self.rrca()),
            0x10 => Ok(self.stop()),
            0x11 => self.ld_imm16(R16::DE),
            0x12 => self.ld_ref16(R16::DE, ReadWrite::W),
            0x13 => Ok(self.alu_inc16(R16::DE, false)),
            0x14 => self.alu_inc8(R8::D, false),
            0x15 => self.alu_inc8(R8::D, true),
            0x16 => self.ld_imm8(R8::D),
            0x17 => Ok(self.rla()),
            0x18 => self.jr(true),
            0x19 => Ok(self.alu_add16(R16::DE)),
            0x1A => self.ld_ref16(R16::DE, ReadWrite::R),
            0x1B => Ok(self.alu_inc16(R16::DE, true)),
            0x1C => self.alu_inc8(R8::E, false),
            0x1D => self.alu_inc8(R8::E, true),
            0x1E => self.ld_imm8(R8::E),
            0x1F => Ok(self.rra()),
            0x20 => self.jr(!self.z),
            0x21 => self.ld_imm16(R16::HL),
            0x22 => self.ld_ref16(R16::HLI, ReadWrite::W),
            0x23 => Ok(self.alu_inc16(R16::HL, false)),
            0x24 => self.alu_inc8(R8::H, false),
            0x25 => self.alu_inc8(R8::H, true),
            0x26 => self.ld_imm8(R8::H),
            0x27 => Ok(self.alu_daa()),
            0x28 => self.jr(self.z),
            0x29 => Ok(self.alu_add16(R16::HL)),
            0x2A => self.ld_ref16(R16::HLI, ReadWrite::R),
            0x2B => Ok(self.alu_inc16(R16::HL, true)),
            0x2C => self.alu_inc8(R8::L, false),
            0x2D => self.alu_inc8(R8::L, true),
            0x2E => self.ld_imm8(R8::L),
            0x2F => Ok(self.alu_cpl()),
            0x30 => self.jr(!self.c),
            0x31 => self.ld_imm16(R16::SP),
            0x32 => self.ld_ref16(R16::HLD, ReadWrite::W),
            0x33 => Ok(self.alu_inc16(R16::SP, false)),
            0x34 => self.alu_inc8(R8::HLA, false),
            0x35 => self.alu_inc8(R8::HLA, true),
            0x36 => self.ld_imm8(R8::HLA),
            0x37 => Ok(self.alu_scf()),
            0x38 => self.jr(self.c),
            0x39 => Ok(self.alu_add16(R16::SP)),
            0x3A => self.ld_ref16(R16::HLD, ReadWrite::R),
            0x3B => Ok(self.alu_inc16(R16::SP, true)),
            0x3C => self.alu_inc8(R8::A, false),
            0x3D => self.alu_inc8(R8::A, true),
            0x3E => self.ld_imm8(R8::A),
            _ => Ok(self.alu_ccf()),
        }
    }

    /// Executes an instruction with an opcode from 0xC0 up. Eleven of these
    /// bytes are no instruction.
    fn exec_high(&mut self, opcode: u8) -> (m: Result<u16, CoreError>)
        requires
            old(self)@.wf(),
            opcode >= 0xC0,
        ensures
            outcome(old(self)@.exec_high(opcode), final(self)@, m),
            m matches Ok(k) ==> 1 <= k <= 6,
            CpuState::illegal(opcode) <==> m == Err::<u16, CoreError>(
                CoreError::IllegalOpcode(opcode),
            ),
            m matches Err(e) ==> bus_fault(e) || e == CoreError::IllegalOpcode(opcode),
            final(self)@.wf(),
    {
        proof {
            reveal(CpuState::exec_high);
        }
        match opcode {
            0xC0 => self.ret_cc(!self.z),
            0xC1 => self.pop_r16(R16::BC),
            0xC2 => self.jp(!self.z),
            0xC3 => self.jp(true),
            0xC4 => self.call_a16(!self.z),
            0xC5 => self.push_r16(R16::BC),
            0xC6 | 0xCE | 0xD6 | 0xDE | 0xE6 | 0xEE | 0xF6 | 0xFE => self.alu_n8(opcode),
            0xC7 | 0xCF | 0xD7 | 0xDF | 0xE7 | 0xEF | 0xF7 | 0xFF => self.rst(opcode),
            0xC8 => self.ret_cc(self.z),
            0xC9 => self.ret(),
            0xCA => self.jp(self.z),
            0xCB => self.cb(),
            0xCC => self.call_a16(self.z),
            0xCD => self.call_a16(true),
            0xD0 => self.ret_cc(!self.c),
            0xD1 => self.pop_r16(R16::DE),
            0xD2 => self.jp(!self.c),
            0xD4 => self.call_a16(!self.c),
            0xD5 => self.push_r16(R16::DE),
            0xD8 => self.ret_cc(self.c),
            0xD9 => self.reti(),
            0xDA => self.jp(self.c),
            0xDC => self.call_a16(self.c),
            0xE0 | 0xE2 | 0xF0 | 0xF2 => self.ldh(opcode),
            0xE1 => self.pop_r16(R16::HL),
            0xE5 => self.push_r16(R16::HL),
            0xE8 => self.alu_add_sp_e8(),
            0xE9 => Ok(self.jp_hl()),
            0xEA => self.ld_a16_a(ReadWrite::W),
            0xF1 => self.pop_r16(R16::AF),
            0xF3 => Ok(self.di()),
            0xF5 => self.push_r16(R16::AF),
            0xF8 => self.ld_hl_sp(),
            0xF9 => Ok(self.ld_sp_hl()),
            0xFA => self.ld_a16_a(ReadWrite::R),
            0xFB => Ok(self.ei()),
            _ => Err(CoreError::IllegalOpcode(opcode)),
        }
    }

    /// Executes the instruction `opcode`, whose further bytes are fetched at
    /// PC, and gives the machine cycles that it took. It fails on a byte
    /// that is no instruction and on an access to an unmapped address.
    /// Afterwards F holds the four flags, and so its low nibble is zero.
    pub fn exec(&mut self, opcode: u8) -> (m: Result<u16, CoreError>)
        requires
            old(self)@.wf(),
        ensures
            outcome(old(self)@.exec(opcode), final(self)@, m),
            m matches Ok(k) ==> 1 <= k <= 6,
            CpuState::illegal(opcode) <==> m == Err::<u16, CoreError>(
                CoreError::IllegalOpcode(opcode),
            ),
            m matches Err(e) ==> bus_fault(e) || e == CoreError::IllegalOpcode(opcode),
            final(self)@.wf(),
            final(self).rg.f & 0x0F == 0,
    {
        let m = if opcode < 0x40 {
            self.exec_low(opcode)
        } else if opcode == 0x76 {
            Ok(self.halt())
        } else if opcode < 0x80 {
            self.ld_r8(opcode)
        } else if opcode < 0xC0 {
            self.alu_r8(opcode)
        } else {
            self.exec_high(opcode)
        };
        proof {
            lemma_flags_byte(self.z, self.n, self.h, self.c);
        }
        m
    }

    /// Serves interrupts, then, unless halted, fetches and executes one
    /// instruction.
    fn step(&mut self) -> (m: Result<u16, CoreError>)
        requires
            old(self)@.wf(),
        ensures
            outcome(old(self)@.cycle(), final(self)@, m),
            m matches Ok(k) ==> 1 <= k <= 11,
            m matches Err(e) ==> fatal(e),
            final(self)@.wf(),
    {
        let interrupt_cycles: u16 = self.handle_interrupts()?;
        if self.halted {
            return Ok(1);
        }
        let opcode: u8 = self.next_byte()?;
        let m_cycles: u16 = self.exec(opcode)?;
        if self.ei && opcode != 0xFB {
            self.ei = false;
            self.ime = true;
        }
        Ok(m_cycles + interrupt_cycles)
    }

    /// Runs one step of the processor: serves interrupts, then, unless
    /// halted, fetches and executes one instruction. It gives the machine
    /// cycles charged: one when halted, else those of the instruction and
    /// five more where an interrupt was taken. Afterwards the low nibble of
    /// F is zero.
    pub fn cycle(&mut self) -> (m: Result<u16, CoreError>)
        requires
            old(self)@.wf(),
        ensures
            outcome(old(self)@.cycle(), final(self)@, m),
            m matches Ok(k) ==> 1 <= k <= 11,
            m matches Err(e) ==> fatal(e),
            final(self)@.wf(),
            final(self).rg.f & 0x0F == 0,
    {
        let m = self.step();
        proof {
            lemma_flags_byte(self.z, self.n, self.h, self.c);
        }
        m
    }

    /// Runs one tick: a step of the processor, then the peripherals for the
    /// machine cycles that it took. The output carries that count, the byte
    /// of a serial transfer that software started, and whether the pixel
    /// unit entered the vertical blank. Interrupts that the peripherals
    /// raise are latched in IF and served by the next tick.
    pub fn tick(&mut self) -> (r: Result<CpuTickOutput, CoreError>)
        requires
            old(self)@.wf(),
        ensures
            outcome(old(self)@.tick(), final(self)@, r),
            r matches Ok(out) ==> 1 <= out.m_cycles <= 11,
            r matches Err(e) ==> fatal(e),
            final(self)@.wf(),
            final(self).rg.f & 0x0F == 0,
    {
        let m_cycles: u16 = self.cycle()?;
        self.m_cycle(m_cycles);
        let draw: bool = self.mmu.ppu.vblank;
        let sb: Option<u8> = self.mmu.take_serial();
        Ok(CpuTickOutput { m_cycles: m_cycles as u32, sb, draw })
    }
}

} // verus!
