//! The processor as a mathematical value, and what each instruction makes of
//! it. An operation that touches memory can fail on an unmapped address; it
//! then gives the error and the state in which it stopped.
use vstd::prelude::*;
use crate::cpu::alu::{add16, add8, alu8, bit8, carry_in, daa8, dec8, inc8, res8, set8, shift8, sub8, AluOut};
use crate::cpu::interrupt::Interrupt;
use crate::cpu::regs::{add_e8_of, flag_bit, flags_byte, operand_of, pair_of, word_of, Regs, ReadWrite, R16, R8};
use crate::error::CoreError;
use crate::mmu::MmuState;

verus! {

/// What one call of `tick` hands to the host.
#[derive(Debug, Clone, Copy)]
pub struct CpuTickOutput {
    /// Machine cycles that passed.
    pub m_cycles: u32,
    /// The byte of a serial transfer that software started.
    pub sb: Option<u8>,
    /// The pixel unit entered the vertical blank: a frame is complete.
    pub draw: bool,
}

impl Default for CpuTickOutput {
    /// The output of a tick in which nothing happened.
    fn default() -> (r: CpuTickOutput)
        ensures
            r.m_cycles == 0,
            r.sb.is_none(),
            !r.draw,
    {
        CpuTickOutput { m_cycles: 0, sb: None, draw: false }
    }
}

/// The processor and the bus as a mathematical value.
#[verifier::ext_equal]
pub struct CpuState {
    pub rg: Regs,
    pub sp: u16,
    pub pc: u16,
    pub z: bool,
    pub n: bool,
    pub h: bool,
    pub c: bool,
    /// The master enable.
    pub ime: bool,
    /// EI was executed and the master enable is still to be set.
    pub ei: bool,
    pub halted: bool,
    pub mmu: MmuState,
}

/// `x + d` as a 16-bit value that wraps.
pub open spec fn wrap16(x: int) -> u16 {
    (x % 0x10000) as u16
}

/// Whether `e` is the failure of a bus access: an address in the unmapped
/// range from 0xE000 to 0xFDFF.
pub open spec fn bus_fault(e: CoreError) -> bool {
    e matches CoreError::Unmapped(a) && 0xE000 <= a < 0xFE00
}

/// Whether `e` is a failure that an instruction can end in: a bus access to
/// an unmapped address, or a byte that is no instruction.
pub open spec fn fatal(e: CoreError) -> bool {
    bus_fault(e) || (e matches CoreError::IllegalOpcode(op) && CpuState::illegal(op))
}

/// Holds when a run of the processor did what the model says: the result,
/// or the error, and the state that is left are the model's.
pub open spec fn outcome<T>(
    model: Result<(CpuState, T), (CpuState, CoreError)>,
    post: CpuState,
    r: Result<T, CoreError>,
) -> bool {
    match model {
        Ok(p) => r == Ok::<T, CoreError>(p.1) && post == p.0,
        Err(f) => r == Err::<T, CoreError>(f.1) && post == f.0,
    }
}

/// Holds when a run of the processor that gives no value did what the model
/// says.
pub open spec fn effect(
    model: Result<CpuState, (CpuState, CoreError)>,
    post: CpuState,
    r: Result<(), CoreError>,
) -> bool {
    match model {
        Ok(s) => r == Ok::<(), CoreError>(()) && post == s,
        Err(f) => r == Err::<(), CoreError>(f.1) && post == f.0,
    }
}

impl CpuState {
    /// The bus is well formed and F holds the four flags.
    pub open spec fn wf(self) -> bool {
        &&& self.mmu.wf()
        &&& self.rg.f == flags_byte(self.z, self.n, self.h, self.c)
    }

    /// The processor before its first instruction: registers zero, SP at
    /// 0xFFFE, PC at 0x0100.
    pub open spec fn zeroed(mmu: MmuState) -> CpuState {
        CpuState {
            rg: Regs { b: 0, c: 0, d: 0, e: 0, h: 0, l: 0, a: 0, f: 0 },
            sp: 0xFFFE,
            pc: 0x0100,
            z: false,
            n: false,
            h: false,
            c: false,
            ime: false,
            ei: false,
            halted: false,
            mmu,
        }
    }

    /// The processor as the boot program leaves it: A 0x01, F 0xB0, BC
    /// 0x0013, DE 0x00D8, HL 0x014D, SP 0xFFFE, PC 0x0100.
    pub open spec fn booted(mmu: MmuState) -> CpuState {
        CpuState {
            rg: Regs { b: 0x00, c: 0x13, d: 0x00, e: 0xD8, h: 0x01, l: 0x4D, a: 0x01, f: 0xB0 },
            z: true,
            n: false,
            h: true,
            c: true,
            ..Self::zeroed(mmu)
        }
    }

    /// F made from the four flags.
    pub open spec fn set_flags(self) -> CpuState {
        CpuState { rg: Regs { f: flags_byte(self.z, self.n, self.h, self.c), ..self.rg }, ..self }
    }

    /// The four flags taken from bits 7 to 4 of F.
    pub open spec fn read_flags(self) -> CpuState {
        CpuState {
            z: flag_bit(self.rg.f, 7),
            n: flag_bit(self.rg.f, 6),
            h: flag_bit(self.rg.f, 5),
            c: flag_bit(self.rg.f, 4),
            ..self
        }
    }

    /// The state with the given flags, in the booleans and in F.
    pub open spec fn with_flags(self, z: bool, n: bool, h: bool, c: bool) -> CpuState {
        CpuState { z, n, h, c, rg: Regs { f: flags_byte(z, n, h, c), ..self.rg }, ..self }
    }

    /// The state with the flags of `out`.
    pub open spec fn with_flags_of(self, out: AluOut) -> CpuState {
        self.with_flags(out.z, out.n, out.h, out.c)
    }

    /// The state with `v` in A.
    pub open spec fn with_a(self, v: u8) -> CpuState {
        CpuState { rg: Regs { a: v, ..self.rg }, ..self }
    }

    /// The state with `w` in HL.
    pub open spec fn with_hl(self, w: u16) -> CpuState {
        CpuState { rg: self.rg.with_hl(w), ..self }
    }

    /// The pair AF: A and the byte of the four flags.
    pub open spec fn af(self) -> u16 {
        word_of(self.rg.a, flags_byte(self.z, self.n, self.h, self.c))
    }

    /// The value of a 16-bit operand. The stepping forms of HL read as HL.
    pub open spec fn r16(self, r: R16) -> u16 {
        match r {
            R16::BC => self.rg.bc(),
            R16::DE => self.rg.de(),
            R16::AF => self.af(),
            R16::SP => self.sp,
            _ => self.rg.hl(),
        }
    }

    /// The state after HL has stepped down by one.
    pub open spec fn hld(self) -> CpuState {
        self.with_hl(wrap16(self.rg.hl() - 1))
    }

    /// The state after HL has stepped up by one.
    pub open spec fn hli(self) -> CpuState {
        self.with_hl(wrap16(self.rg.hl() + 1))
    }

    /// What the processor reads at `addr`.
    pub open spec fn read_byte(self, addr: u16) -> Result<u8, CoreError> {
        self.mmu.read_byte(addr)
    }

    /// The state after the processor writes `b` at `addr`.
    pub open spec fn write_byte(self, addr: u16, b: u8) -> Result<CpuState, (CpuState, CoreError)> {
        match self.mmu.write_byte(addr, b) {
            Ok(mmu) => Ok(CpuState { mmu, ..self }),
            Err(e) => Err((self, e)),
        }
    }

    /// The byte at PC, and PC moved past it.
    pub open spec fn next_byte(self) -> Result<(CpuState, u8), (CpuState, CoreError)> {
        match self.read_byte(self.pc) {
            Ok(b) => Ok((CpuState { pc: wrap16(self.pc + 1), ..self }, b)),
            Err(e) => Err((self, e)),
        }
    }

    /// The little-endian word at PC, and PC moved past it.
    pub open spec fn next_word(self) -> Result<(CpuState, u16), (CpuState, CoreError)> {
        match self.next_byte() {
            Err(e) => Err(e),
            Ok(lo) => match lo.0.next_byte() {
                Err(e) => Err(e),
                Ok(hi) => Ok((hi.0, word_of(hi.1, lo.1))),
            },
        }
    }

    /// The state after `w` is pushed: the high byte at SP - 1, the low byte
    /// at SP - 2, and SP moved down by two.
    pub open spec fn push(self, w: u16) -> Result<CpuState, (CpuState, CoreError)> {
        match self.write_byte(wrap16(self.sp - 1), (w / 256) as u8) {
            Err(e) => Err(e),
            Ok(s) => match s.write_byte(wrap16(self.sp - 2), (w % 256) as u8) {
                Err(e) => Err(e),
                Ok(t) => Ok(CpuState { sp: wrap16(self.sp - 2), ..t }),
            },
        }
    }

    /// The word on top of the stack, and SP moved up by two.
    pub open spec fn pop(self) -> Result<(CpuState, u16), (CpuState, CoreError)> {
        match self.read_byte(self.sp) {
            Err(e) => Err((self, e)),
            Ok(lo) => match self.read_byte(wrap16(self.sp + 1)) {
                Err(e) => Err((self, e)),
                Ok(hi) => Ok((CpuState { sp: wrap16(self.sp + 2), ..self }, word_of(hi, lo))),
            },
        }
    }

    /// The value of an 8-bit operand.
    pub open spec fn r8_get(self, r: R8) -> Result<u8, CoreError> {
        if r == R8::HLA {
            self.read_byte(self.rg.hl())
        } else {
            Ok(self.rg.get_spec(r))
        }
    }

    /// The state with `v` in an 8-bit operand.
    pub open spec fn r8_set(self, r: R8, v: u8) -> Result<CpuState, (CpuState, CoreError)> {
        if r == R8::HLA {
            self.write_byte(self.rg.hl(), v)
        } else {
            Ok(CpuState { rg: self.rg.set_spec(r, v), ..self })
        }
    }

    /// The operand that the low three bits of `opcode` name.
    pub open spec fn r8_src(self, opcode: u8) -> Result<u8, CoreError> {
        self.r8_get(operand_of(opcode))
    }

    /// ADD or ADC on A.
    pub open spec fn alu_add(self, b: u8, carry: bool) -> CpuState {
        let out = add8(self.rg.a, b, carry_in(carry, self.c));
        CpuState { z: out.z, n: out.n, h: out.h, c: out.c, ..self.with_a(out.res) }
    }

    /// SUB or SBC on A.
    pub open spec fn alu_sub(self, b: u8, carry: bool) -> CpuState {
        let out = sub8(self.rg.a, b, carry_in(carry, self.c));
        CpuState { z: out.z, n: out.n, h: out.h, c: out.c, ..self.with_a(out.res) }
    }

    /// AND, XOR or OR on A, by the numbers 4 to 6.
    pub open spec fn alu_logic(self, op: u8, src: u8) -> CpuState {
        let out = alu8(op, self.rg.a, src, self.c);
        CpuState { z: out.z, n: out.n, h: out.h, c: out.c, ..self.with_a(out.res) }
    }

    /// One of the eight operations on A with the operand `src`: ADD, ADC,
    /// SUB, SBC, AND, XOR, OR, CP, by the numbers 0 to 7. CP is SUB with A
    /// kept.
    pub open spec fn alu(self, op: u8, src: u8) -> CpuState {
        (if op == 0 {
            self.alu_add(src, false)
        } else if op == 1 {
            self.alu_add(src, true)
        } else if op == 2 {
            self.alu_sub(src, false)
        } else if op == 3 {
            self.alu_sub(src, true)
        } else if op == 7 {
            self.alu_sub(src, false).with_a(self.rg.a)
        } else {
            self.alu_logic(op, src)
        }).set_flags()
    }

    /// ADD HL, r16. Z stays.
    pub open spec fn alu_add16(self, r: R16) -> CpuState {
        let sum = add16(self.rg.hl(), self.r16(r));
        self.with_flags(self.z, false, sum.1, sum.2).with_hl(sum.0)
    }

    /// ADD SP, e8.
    pub open spec fn alu_add_sp_e8(self) -> Result<(CpuState, u16), (CpuState, CoreError)> {
        match self.next_byte() {
            Err(e) => Err(e),
            Ok(p) => {
                let sum = add_e8_of(p.0.sp, p.1);
                Ok((CpuState { sp: sum.0, ..p.0 }.with_flags(false, false, sum.2, sum.3), 4))
            },
        }
    }

    /// The flags after BIT on `src`.
    pub open spec fn alu_bit(self, src: u8, shift: u8) -> CpuState {
        self.with_flags_of(bit8(src, shift, self.c))
    }

    /// CCF.
    pub open spec fn alu_ccf(self) -> CpuState {
        self.with_flags(self.z, false, false, !self.c)
    }

    /// CPL.
    pub open spec fn alu_cpl(self) -> CpuState {
        self.with_a(!self.rg.a).with_flags(self.z, true, true, self.c)
    }

    /// SCF.
    pub open spec fn alu_scf(self) -> CpuState {
        self.with_flags(self.z, false, false, true)
    }

    /// DAA.
    pub open spec fn alu_daa(self) -> CpuState {
        let out = daa8(self.rg.a, self.n, self.h, self.c);
        self.with_a(out.res).with_flags_of(out)
    }

    /// INC or DEC on an 8-bit operand.
    pub open spec fn alu_inc8(self, r: R8, neg: bool) -> Result<(CpuState, u16), (CpuState, CoreError)> {
        match self.r8_get(r) {
            Err(e) => Err((self, e)),
            Ok(b) => {
                let out = if neg {
                    dec8(b, self.c)
                } else {
                    inc8(b, self.c)
                };
                match self.with_flags_of(out).r8_set(r, out.res) {
                    Err(e) => Err(e),
                    Ok(s) => Ok(
                        (
                            s,
                            if r == R8::HLA {
                                3u16
                            } else {
                                1u16
                            },
                        ),
                    ),
                }
            },
        }
    }

    /// The state with `w` in a 16-bit operand that can be loaded: BC, DE, HL
    /// or SP.
    pub open spec fn with_r16(self, r: R16, w: u16) -> CpuState {
        if r == R16::SP {
            CpuState { sp: w, ..self }
        } else {
            CpuState { rg: self.rg.with_pair(pair_of(r).0, pair_of(r).1, w), ..self }
        }
    }

    /// INC or DEC on a 16-bit operand. No flag changes.
    pub open spec fn alu_inc16(self, r: R16, neg: bool) -> CpuState {
        self.with_r16(
            r,
            wrap16(
                self.r16(r) + (if neg {
                    -1int
                } else {
                    1int
                }),
            ),
        )
    }

    /// An operation on A with the byte after the opcode.
    pub open spec fn alu_n8(self, opcode: u8) -> Result<(CpuState, u16), (CpuState, CoreError)> {
        match self.next_byte() {
            Err(e) => Err(e),
            Ok(p) => Ok((p.0.alu((opcode / 8) % 8, p.1), 2)),
        }
    }

    /// An operation on A with an 8-bit operand.
    pub open spec fn alu_r8(self, opcode: u8) -> Result<(CpuState, u16), (CpuState, CoreError)> {
        match self.r8_src(opcode) {
            Err(e) => Err((self, e)),
            Ok(b) => Ok(
                (
                    self.alu((opcode / 8) % 8, b),
                    if opcode % 8 == 6 {
                        2u16
                    } else {
                        1u16
                    },
                ),
            ),
        }
    }

    /// PC is pushed and `addr` becomes PC.
    pub open spec fn call(self, addr: u16) -> Result<(CpuState, u16), (CpuState, CoreError)> {
        match self.push(self.pc) {
            Err(e) => Err(e),
            Ok(s) => Ok((CpuState { pc: addr, ..s }, 6)),
        }
    }

    /// CALL cc, a16.
    pub open spec fn call_a16(self, cc: bool) -> Result<(CpuState, u16), (CpuState, CoreError)> {
        match self.next_word() {
            Err(e) => Err(e),
            Ok(p) => if cc {
                p.0.call(p.1)
            } else {
                Ok((p.0, 3))
            },
        }
    }

    /// DI: the master enable and a pending EI are cleared at once.
    pub open spec fn di(self) -> CpuState {
        CpuState { ei: false, ime: false, ..self }
    }

    /// EI: the master enable is to be set after the next instruction.
    pub open spec fn ei(self) -> CpuState {
        CpuState { ei: true, ..self }
    }

    /// HALT.
    pub open spec fn halt(self) -> CpuState {
        CpuState { halted: true, ..self }
    }

    /// STOP: the byte after the opcode is skipped.
    pub open spec fn stop(self) -> CpuState {
        CpuState { pc: wrap16(self.pc + 1), ..self }
    }

    /// The interrupt of highest priority that is both enabled and requested.
    pub open spec fn pending(self) -> Option<Interrupt> {
        self.mmu.ienable.first_pending(self.mmu.iflags)
    }

    /// The state in which the request of `source` and the master enable
    /// have been cleared: the first part of taking the interrupt.
    pub open spec fn taken(self, source: Interrupt) -> CpuState {
        CpuState {
            ime: false,
            mmu: MmuState { iflags: self.mmu.iflags.without(source), ..self.mmu },
            ..self
        }
    }

    /// The service of interrupts before an instruction. With the master
    /// enable set, the pending interrupt of highest priority is taken: its
    /// request and the master enable are cleared, PC is pushed, PC becomes
    /// the vector, HALT ends, and five machine cycles are charged. Without
    /// the master enable a pending interrupt only ends HALT.
    pub open spec fn handle_interrupts(self) -> Result<(CpuState, u16), (CpuState, CoreError)> {
        match self.pending() {
            None => Ok((self, 0)),
            Some(source) => if self.ime {
                match self.taken(source).push(self.pc) {
                    Err(e) => Err(e),
                    Ok(s) => Ok((CpuState { pc: source.vector_spec(), halted: false, ..s }, 5)),
                }
            } else {
                Ok((CpuState { halted: false, ..self }, 0))
            },
        }
    }

    /// JP cc, a16.
    pub open spec fn jp(self, cc: bool) -> Result<(CpuState, u16), (CpuState, CoreError)> {
        match self.next_word() {
            Err(e) => Err(e),
            Ok(p) => Ok(
                if cc {
                    (CpuState { pc: p.1, ..p.0 }, 4u16)
                } else {
                    (p.0, 3u16)
                },
            ),
        }
    }

    /// JP HL.
    pub open spec fn jp_hl(self) -> CpuState {
        CpuState { pc: self.rg.hl(), ..self }
    }

    /// JR cc, e8.
    pub open spec fn jr(self, cc: bool) -> Result<(CpuState, u16), (CpuState, CoreError)> {
        match self.next_byte() {
            Err(e) => Err(e),
            Ok(p) => Ok(
                if cc {
                    (CpuState { pc: add_e8_of(p.0.pc, p.1).0, ..p.0 }, 3u16)
                } else {
                    (p.0, 2u16)
                },
            ),
        }
    }

    /// A transfer between A and the byte at `addr`: a read loads A, a write
    /// stores it.
    pub open spec fn transfer(self, rw: ReadWrite, addr: u16) -> Result<CpuState, (CpuState, CoreError)> {
        match rw {
            ReadWrite::R => match self.read_byte(addr) {
                Err(e) => Err((self, e)),
                Ok(b) => Ok(self.with_a(b)),
            },
            ReadWrite::W => self.write_byte(addr, self.rg.a),
        }
    }

    /// LD [a16], A and LD A, [a16].
    pub open spec fn ld_a16_a(self, rw: ReadWrite) -> Result<(CpuState, u16), (CpuState, CoreError)> {
        match self.next_word() {
            Err(e) => Err(e),
            Ok(p) => match p.0.transfer(rw, p.1) {
                Err(e) => Err(e),
                Ok(s) => Ok((s, 4)),
            },
        }
    }

    /// LD HL, SP + e8.
    pub open spec fn ld_hl_sp(self) -> Result<(CpuState, u16), (CpuState, CoreError)> {
        match self.next_byte() {
            Err(e) => Err(e),
            Ok(p) => {
                let sum = add_e8_of(p.0.sp, p.1);
                Ok((p.0.with_flags(false, false, sum.2, sum.3).with_hl(sum.0), 3))
            },
        }
    }

    /// LD r8, n8.
    pub open spec fn ld_imm8(self, r: R8) -> Result<(CpuState, u16), (CpuState, CoreError)> {
        match self.next_byte() {
            Err(e) => Err(e),
            Ok(p) => match p.0.r8_set(r, p.1) {
                Err(e) => Err(e),
                Ok(s) => Ok(
                    (
                        s,
                        if r == R8::HLA {
                            3u16
                        } else {
                            2u16
                        },
                    ),
                ),
            },
        }
    }

    /// LD r16, n16.
    pub open spec fn ld_imm16(self, r: R16) -> Result<(CpuState, u16), (CpuState, CoreError)> {
        match self.next_word() {
            Err(e) => Err(e),
            Ok(p) => Ok((p.0.with_r16(r, p.1), 3)),
        }
    }

    /// LD r8, r8. A transfer that touches memory takes two machine cycles.
    pub open spec fn ld_r8(self, opcode: u8) -> Result<(CpuState, u16), (CpuState, CoreError)> {
        match self.r8_src(opcode) {
            Err(e) => Err((self, e)),
            Ok(b) => match self.r8_set(operand_of(opcode / 8), b) {
                Err(e) => Err(e),
                Ok(s) => Ok(
                    (
                        s,
                        if opcode % 8 == 6 || (opcode / 8) % 8 == 6 {
                            2u16
                        } else {
                            1u16
                        },
                    ),
                ),
            },
        }
    }

    /// The state after the address operand `r` has stepped, where it steps.
    pub open spec fn stepped(self, r: R16) -> CpuState {
        match r {
            R16::HLI => self.hli(),
            R16::HLD => self.hld(),
            _ => self,
        }
    }

    /// LD [r16], A and LD A, [r16].
    pub open spec fn ld_ref16(self, r: R16, rw: ReadWrite) -> Result<(CpuState, u16), (CpuState, CoreError)> {
        match self.stepped(r).transfer(rw, self.r16(r)) {
            Err(e) => Err(e),
            Ok(s) => Ok((s, 2)),
        }
    }

    /// LD [a16], SP.
    pub open spec fn ld_sp(self) -> Result<(CpuState, u16), (CpuState, CoreError)> {
        match self.next_word() {
            Err(e) => Err(e),
            Ok(p) => match p.0.write_byte(p.1, (self.sp % 256) as u8) {
                Err(e) => Err(e),
                Ok(s) => match s.write_byte(wrap16(p.1 + 1), (self.sp / 256) as u8) {
                    Err(e) => Err(e),
                    Ok(t) => Ok((t, 5)),
                },
            },
        }
    }

    /// LD SP, HL.
    pub open spec fn ld_sp_hl(self) -> CpuState {
        CpuState { sp: self.rg.hl(), ..self }
    }

    /// LDH: a transfer between A and 0xFF00 plus C (opcodes 0xE2 and 0xF2) or
    /// plus the byte after the opcode (0xE0 and 0xF0); 0xF0 and 0xF2 read.
    pub open spec fn ldh(self, opcode: u8) -> Result<(CpuState, u16), (CpuState, CoreError)> {
        let by_c = opcode == 0xE2 || opcode == 0xF2;
        let operand: Result<(CpuState, u8), (CpuState, CoreError)> = if by_c {
            Ok((self, self.rg.c))
        } else {
            self.next_byte()
        };
        match operand {
            Err(e) => Err(e),
            Ok(p) => {
                let addr = (0xFF00 + p.1) as u16;
                let cycles: u16 = if by_c {
                    2
                } else {
                    3
                };
                let rw = if opcode >= 0xF0 {
                    ReadWrite::R
                } else {
                    ReadWrite::W
                };
                match p.0.transfer(rw, addr) {
                    Err(e) => Err(e),
                    Ok(s) => Ok((s, cycles)),
                }
            },
        }
    }

    /// The peripherals advance by `cycles` machine cycles.
    pub open spec fn m_cycle(self, cycles: u16) -> CpuState {
        CpuState { mmu: self.mmu.cycle(cycles as nat), ..self }
    }

    /// POP r16. Popping AF takes the flags from the high nibble of the low
    /// byte and leaves the low nibble of F zero.
    pub open spec fn pop_r16(self, r: R16) -> Result<(CpuState, u16), (CpuState, CoreError)> {
        match self.pop() {
            Err(e) => Err(e),
            Ok(p) => Ok(
                (
                    if r == R16::AF {
                        CpuState {
                            rg: Regs { a: (p.1 / 256) as u8, f: (p.1 % 256) as u8, ..p.0.rg },
                            ..p.0
                        }.read_flags().set_flags()
                    } else {
                        p.0.with_r16(r, p.1)
                    },
                    3,
                ),
            ),
        }
    }

    /// PUSH r16.
    pub open spec fn push_r16(self, r: R16) -> Result<(CpuState, u16), (CpuState, CoreError)> {
        match self.push(self.r16(r)) {
            Err(e) => Err(e),
            Ok(s) => Ok((s, 4)),
        }
    }

    /// RET.
    pub open spec fn ret(self) -> Result<(CpuState, u16), (CpuState, CoreError)> {
        match self.pop() {
            Err(e) => Err(e),
            Ok(p) => Ok((CpuState { pc: p.1, ..p.0 }, 4)),
        }
    }

    /// RETI: RET, and the master enable is set.
    pub open spec fn reti(self) -> Result<(CpuState, u16), (CpuState, CoreError)> {
        (CpuState { ime: true, ..self }).ret()
    }

    /// RET cc.
    pub open spec fn ret_cc(self, cc: bool) -> Result<(CpuState, u16), (CpuState, CoreError)> {
        if cc {
            match self.ret() {
                Err(e) => Err(e),
                Ok(p) => Ok((p.0, 5)),
            }
        } else {
            Ok((self, 2))
        }
    }

    /// A rotate or a shift of `b`: the flags after it, and its result.
    pub open spec fn shift(self, kind: u8, b: u8) -> (CpuState, u8) {
        let out = shift8(kind, b, self.c);
        (self.with_flags_of(out), out.res)
    }

    /// A rotate of A. Z is cleared.
    pub open spec fn rot_a(self, kind: u8) -> CpuState {
        let out = shift8(kind, self.rg.a, self.c);
        self.with_a(out.res).with_flags(false, false, false, out.c)
    }

    /// RST: a call of the fixed address `opcode - 0xC7`.
    pub open spec fn rst(self, opcode: u8) -> Result<(CpuState, u16), (CpuState, CoreError)> {
        match self.call((opcode - 0xC7) as u16) {
            Err(e) => Err(e),
            Ok(p) => Ok((p.0, 4)),
        }
    }

    /// An instruction of the prefixed table, on the operand that its low
    /// three bits name: a rotate or shift, BIT, RES or SET.
    #[verifier::opaque]
    pub open spec fn cb_exec(self, opcode: u8) -> Result<(CpuState, u16), (CpuState, CoreError)> {
        let r = operand_of(opcode);
        let n = (opcode / 8) % 8;
        match self.r8_get(r) {
            Err(e) => Err((self, e)),
            Ok(src) => if 0x40 <= opcode < 0x80 {
                Ok(
                    (
                        self.alu_bit(src, n),
                        if r == R8::HLA {
                            3u16
                        } else {
                            2u16
                        },
                    ),
                )
            } else {
                let done: (CpuState, u8) = if opcode < 0x40 {
                    self.shift(n, src)
                } else if opcode < 0xC0 {
                    (self, res8(src, n))
                } else {
                    (self, set8(src, n))
                };
                match done.0.r8_set(r, done.1) {
                    Err(e) => Err(e),
                    Ok(s) => Ok(
                        (
                            s,
                            if r == R8::HLA {
                                4u16
                            } else {
                                2u16
                            },
                        ),
                    ),
                }
            },
        }
    }

    /// The prefix 0xCB: the next byte is an instruction of the second table.
    pub open spec fn cb(self) -> Result<(CpuState, u16), (CpuState, CoreError)> {
        match self.next_byte() {
            Err(e) => Err(e),
            Ok(p) => p.0.cb_exec(p.1),
        }
    }

    /// The instructions with opcodes below 0x40.
    #[verifier::opaque]
    pub open spec fn exec_low(self, opcode: u8) -> Result<(CpuState, u16), (CpuState, CoreError)> {
        match opcode {
            0x00 => Ok((self, 1)),
            0x01 => self.ld_imm16(R16::BC),
            0x02 => self.ld_ref16(R16::BC, ReadWrite::W),
            0x03 => Ok((self.alu_inc16(R16::BC, false), 2)),
            0x04 => self.alu_inc8(R8::B, false),
            0x05 => self.alu_inc8(R8::B, true),
            0x06 => self.ld_imm8(R8::B),
            0x07 => Ok((self.rot_a(0), 1)),
            0x08 => self.ld_sp(),
            0x09 => Ok((self.alu_add16(R16::BC), 2)),
            0x0A => self.ld_ref16(R16::BC, ReadWrite::R),
            0x0B => Ok((self.alu_inc16(R16::BC, true), 2)),
            0x0C => self.alu_inc8(R8::C, false),
            0x0D => self.alu_inc8(R8::C, true),
            0x0E => self.ld_imm8(R8::C),
            0x0F => Ok((self.rot_a(1), 1)),
            0x10 => Ok((self.stop(), 1)),
            0x11 => self.ld_imm16(R16::DE),
            0x12 => self.ld_ref16(R16::DE, ReadWrite::W),
            0x13 => Ok((self.alu_inc16(R16::DE, false), 2)),
            0x14 => self.alu_inc8(R8::D, false),
            0x15 => self.alu_inc8(R8::D, true),
            0x16 => self.ld_imm8(R8::D),
            0x17 => Ok((self.rot_a(2), 1)),
            0x18 => self.jr(true),
            0x19 => Ok((self.alu_add16(R16::DE), 2)),
            0x1A => self.ld_ref16(R16::DE, ReadWrite::R),
            0x1B => Ok((self.alu_inc16(R16::DE, true), 2)),
            0x1C => self.alu_inc8(R8::E, false),
            0x1D => self.alu_inc8(R8::E, true),
            0x1E => self.ld_imm8(R8::E),
            0x1F => Ok((self.rot_a(3), 1)),
            0x20 => self.jr(!self.z),
            0x21 => self.ld_imm16(R16::HL),
            0x22 => self.ld_ref16(R16::HLI, ReadWrite::W),
            0x23 => Ok((self.alu_inc16(R16::HL, false), 2)),
            0x24 => self.alu_inc8(R8::H, false),
            0x25 => self.alu_inc8(R8::H, true),
            0x26 => self.ld_imm8(R8::H),
            0x27 => Ok((self.alu_daa(), 1)),
            0x28 => self.jr(self.z),
            0x29 => Ok((self.alu_add16(R16::HL), 2)),
            0x2A => self.ld_ref16(R16::HLI, ReadWrite::R),
            0x2B => Ok((self.alu_inc16(R16::HL, true), 2)),
            0x2C => self.alu_inc8(R8::L, false),
            0x2D => self.alu_inc8(R8::L, true),
            0x2E => self.ld_imm8(R8::L),
            0x2F => Ok((self.alu_cpl(), 1)),
            0x30 => self.jr(!self.c),
            0x31 => self.ld_imm16(R16::SP),
            0x32 => self.ld_ref16(R16::HLD, ReadWrite::W),
            0x33 => Ok((self.alu_inc16(R16::SP, false), 2)),
            0x34 => self.alu_inc8(R8::HLA, false),
            0x35 => self.alu_inc8(R8::HLA, true),
            0x36 => self.ld_imm8(R8::HLA),
            0x37 => Ok((self.alu_scf(), 1)),
            0x38 => self.jr(self.c),
            0x39 => Ok((self.alu_add16(R16::SP), 2)),
            0x3A => self.ld_ref16(R16::HLD, ReadWrite::R),
            0x3B => Ok((self.alu_inc16(R16::SP, true), 2)),
            0x3C => self.alu_inc8(R8::A, false),
            0x3D => self.alu_inc8(R8::A, true),
            0x3E => self.ld_imm8(R8::A),
            _ => Ok((self.alu_ccf(), 1)),
        }
    }

    /// Whether `opcode` is one of the eleven bytes that are no instruction.
    pub open spec fn illegal(opcode: u8) -> bool {
        ||| opcode == 0xD3
        ||| opcode == 0xDB
        ||| opcode == 0xDD
        ||| opcode == 0xE3
        ||| opcode == 0xE4
        ||| opcode == 0xEB
        ||| opcode == 0xEC
        ||| opcode == 0xED
        ||| opcode == 0xF4
        ||| opcode == 0xFC
        ||| opcode == 0xFD
    }

    /// The instructions with opcodes from 0xC0 up.
    #[verifier::opaque]
    pub open spec fn exec_high(self, opcode: u8) -> Result<(CpuState, u16), (CpuState, CoreError)> {
        match opcode {
            0xC0 => self.ret_cc(!self.z),
            0xC1 => self.pop_r16(R16::BC),
            0xC2 => self.jp(!self.z),
            0xC3 => self.jp(true),
            0xC4 => self.call_a16(!self.z),
            0xC5 => self.push_r16(R16::BC),
            0xC6 | 0xCE | 0xD6 | 0xDE | 0xE6 | 0xEE | 0xF6 | 0xFE => self.alu_n8(opcode),
            0xC7 | 0xCF | 0xD7 | 0xDF | 0xE7 | 0xEF | 0xF7 | 0xFF => self.rst(opcode),
            0xC8 => self.ret_cc(self.z),
            0xC9 => self.ret(),
            0xCA => self.jp(self.z),
            0xCB => self.cb(),
            0xCC => self.call_a16(self.z),
            0xCD => self.call_a16(true),
            0xD0 => self.ret_cc(!self.c),
            0xD1 => self.pop_r16(R16::DE),
            0xD2 => self.jp(!self.c),
            0xD4 => self.call_a16(!self.c),
            0xD5 => self.push_r16(R16::DE),
            0xD8 => self.ret_cc(self.c),
            0xD9 => self.reti(),
            0xDA => self.jp(self.c),
            0xDC => self.call_a16(self.c),
            0xE0 | 0xE2 | 0xF0 | 0xF2 => self.ldh(opcode),
            0xE1 => self.pop_r16(R16::HL),
            0xE5 => self.push_r16(R16::HL),
            0xE8 => self.alu_add_sp_e8(),
            0xE9 => Ok((self.jp_hl(), 1)),
            0xEA => self.ld_a16_a(ReadWrite::W),
            0xF1 => self.pop_r16(R16::AF),
            0xF3 => Ok((self.di(), 1)),
            0xF5 => self.push_r16(R16::AF),
            0xF8 => self.ld_hl_sp(),
            0xF9 => Ok((self.ld_sp_hl(), 2)),
            0xFA => self.ld_a16_a(ReadWrite::R),
            0xFB => Ok((self.ei(), 1)),
            _ => Err((self, CoreError::IllegalOpcode(opcode))),
        }
    }

    /// The instruction with the given opcode, and the machine cycles that it
    /// takes. The bytes after the opcode are fetched at PC.
    pub open spec fn exec(self, opcode: u8) -> Result<(CpuState, u16), (CpuState, CoreError)> {
        if opcode < 0x40 {
            self.exec_low(opcode)
        } else if opcode == 0x76 {
            Ok((self.halt(), 1))
        } else if opcode < 0x80 {
            self.ld_r8(opcode)
        } else if opcode < 0xC0 {
            self.alu_r8(opcode)
        } else {
            self.exec_high(opcode)
        }
    }

    /// The master enable is set where an EI is pending and the instruction
    /// that just ran was not itself EI.
    pub open spec fn promote(self, opcode: u8) -> CpuState {
        if self.ei && opcode != 0xFB {
            CpuState { ei: false, ime: true, ..self }
        } else {
            self
        }
    }

    /// One step of the processor: interrupts are served, then, unless the
    /// processor is halted, one instruction is fetched and executed. The
    /// count is that of the machine cycles charged.
    pub open spec fn cycle(self) -> Result<(CpuState, u16), (CpuState, CoreError)> {
        match self.handle_interrupts() {
            Err(e) => Err(e),
            Ok(served) => if served.0.halted {
                Ok((served.0, 1))
            } else {
                match served.0.next_byte() {
                    Err(e) => Err(e),
                    Ok(fetched) => match fetched.0.exec(fetched.1) {
                        Err(e) => Err(e),
                        Ok(done) => Ok(
                            (done.0.promote(fetched.1), (done.1 + served.1) as u16),
                        ),
                    },
                }
            },
        }
    }

    /// The bus after the serial port has handed over a started transfer.
    pub open spec fn serial_taken(mmu: MmuState) -> MmuState {
        if mmu.sc_enable {
            MmuState { sc_enable: false, iflags: mmu.iflags.with(Interrupt::Serial), ..mmu }
        } else {
            mmu
        }
    }

    /// One tick: a step of the processor, then the peripherals advance by the
    /// machine cycles that it took, then a started serial transfer is handed
    /// over and requests its interrupt.
    pub open spec fn tick(self) -> Result<(CpuState, CpuTickOutput), (CpuState, CoreError)> {
        match self.cycle() {
            Err(e) => Err(e),
            Ok(p) => {
                let moved = p.0.m_cycle(p.1);
                Ok(
                    (
                        CpuState { mmu: Self::serial_taken(moved.mmu), ..moved },
                        CpuTickOutput {
                            m_cycles: p.1 as u32,
                            sb: if moved.mmu.sc_enable {
                                Some(moved.mmu.sb)
                            } else {
                                None
                            },
                            draw: moved.mmu.ppu.vblank,
                        },
                    ),
                )
            },
        }
    }
}

} // verus!
