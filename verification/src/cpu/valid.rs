//! Every step of the model keeps the state well formed: the buffers keep
//! their sizes and F keeps holding the four flags, whether the step succeeds
//! or stops at an unmapped address.
use vstd::prelude::*;
use crate::cpu::model::CpuState;
use crate::cpu::regs::{lemma_flags_byte, operand_of, ReadWrite, R16, R8};
use crate::error::CoreError;
use crate::mmu::{lemma_dma_progress, lemma_write_keeps_wf};

verus! {

/// Whether the state that a step leaves, on success or on failure, is well
/// formed.
pub open spec fn kept<T>(r: Result<(CpuState, T), (CpuState, CoreError)>) -> bool {
    match r {
        Ok(p) => p.0.wf(),
        Err(f) => f.0.wf(),
    }
}

/// Whether the state that a step without a value leaves is well formed.
pub open spec fn kept_state(r: Result<CpuState, (CpuState, CoreError)>) -> bool {
    match r {
        Ok(s) => s.wf(),
        Err(f) => f.0.wf(),
    }
}

/// A write through the bus keeps the state well formed.
pub proof fn lemma_write_byte_valid(s: CpuState, addr: u16, v: u8)
    requires
        s.wf(),
    ensures
        kept_state(s.write_byte(addr, v)),
{
    lemma_write_keeps_wf(s.mmu, addr, v);
}

/// A fetch of a byte or of a word keeps the state well formed.
pub proof fn lemma_next_word_valid(s: CpuState)
    requires
        s.wf(),
    ensures
        kept(s.next_byte()),
        kept(s.next_word()),
{
}

/// A push keeps the state well formed, also where its second write fails.
pub proof fn lemma_push_valid(s: CpuState, w: u16)
    requires
        s.wf(),
    ensures
        kept_state(s.push(w)),
{
    let a1 = crate::cpu::model::wrap16(s.sp - 1);
    let a2 = crate::cpu::model::wrap16(s.sp - 2);
    lemma_write_byte_valid(s, a1, (w / 256) as u8);
    match s.write_byte(a1, (w / 256) as u8) {
        Ok(t) => {
            lemma_write_byte_valid(t, a2, (w % 256) as u8);
        },
        Err(_) => {},
    }
}

/// A write to an 8-bit operand other than F keeps the state well formed.
pub proof fn lemma_r8_set_valid(s: CpuState, r: R8, v: u8)
    requires
        s.wf(),
        r != R8::F,
    ensures
        kept_state(s.r8_set(r, v)),
{
    lemma_write_byte_valid(s, s.rg.hl(), v);
}

/// A transfer between A and memory keeps the state well formed.
pub proof fn lemma_transfer_valid(s: CpuState, rw: ReadWrite, addr: u16)
    requires
        s.wf(),
    ensures
        kept_state(s.transfer(rw, addr)),
{
    lemma_write_byte_valid(s, addr, s.rg.a);
}

/// An operation on A leaves F holding the new flags.
pub proof fn lemma_alu_valid(s: CpuState, op: u8, src: u8)
    requires
        s.wf(),
    ensures
        s.alu(op, src).wf(),
{
}

/// INC and DEC on an 8-bit operand keep the state well formed.
pub proof fn lemma_alu_inc8_valid(s: CpuState, r: R8, neg: bool)
    requires
        s.wf(),
        r != R8::F,
    ensures
        kept(s.alu_inc8(r, neg)),
{
    match s.r8_get(r) {
        Ok(b) => {
            let out = if neg {
                crate::cpu::alu::dec8(b, s.c)
            } else {
                crate::cpu::alu::inc8(b, s.c)
            };
            lemma_r8_set_valid(s.with_flags_of(out), r, out.res);
        },
        Err(_) => {},
    }
}

/// The loads, and the operations that fetch their operand, keep the state
/// well formed.
pub proof fn lemma_loads_valid(s: CpuState, r: R8, r16: R16, opcode: u8, rw: ReadWrite)
    requires
        s.wf(),
        r != R8::F,
    ensures
        kept(s.ld_imm8(r)),
        r16 == R16::BC || r16 == R16::DE || r16 == R16::HL || r16 == R16::SP ==> kept(
            s.ld_imm16(r16),
        ),
        kept(s.ld_r8(opcode)),
        kept(s.ld_ref16(r16, rw)),
        kept(s.ld_a16_a(rw)),
        kept(s.ldh(opcode)),
        kept(s.ld_hl_sp()),
        kept(s.alu_add_sp_e8()),
        kept(s.alu_n8(opcode)),
        kept(s.alu_r8(opcode)),
{
    lemma_next_word_valid(s);
    match s.next_byte() {
        Ok(p) => {
            lemma_r8_set_valid(p.0, r, p.1);
            lemma_transfer_valid(p.0, ReadWrite::R, (0xFF00 + p.1) as u16);
            lemma_transfer_valid(p.0, ReadWrite::W, (0xFF00 + p.1) as u16);
            lemma_alu_valid(p.0, (opcode / 8) % 8, p.1);
        },
        Err(_) => {},
    }
    match s.r8_src(opcode) {
        Ok(b) => {
            lemma_r8_set_valid(s, operand_of(opcode / 8), b);
            lemma_alu_valid(s, (opcode / 8) % 8, b);
        },
        Err(_) => {},
    }
    lemma_transfer_valid(s.stepped(r16), rw, s.r16(r16));
    match s.next_word() {
        Ok(p) => {
            lemma_transfer_valid(p.0, rw, p.1);
        },
        Err(_) => {},
    }
    lemma_transfer_valid(s, ReadWrite::R, (0xFF00 + s.rg.c) as u16);
    lemma_transfer_valid(s, ReadWrite::W, (0xFF00 + s.rg.c) as u16);
}

/// LD [a16], SP keeps the state well formed, also where a write fails.
pub proof fn lemma_ld_sp_valid(s: CpuState)
    requires
        s.wf(),
    ensures
        kept(s.ld_sp()),
{
    lemma_next_word_valid(s);
    match s.next_word() {
        Ok(p) => {
            lemma_write_byte_valid(p.0, p.1, (s.sp % 256) as u8);
            match p.0.write_byte(p.1, (s.sp % 256) as u8) {
                Ok(t) => {
                    lemma_write_byte_valid(
                        t,
                        crate::cpu::model::wrap16(p.1 + 1),
                        (s.sp / 256) as u8,
                    );
                },
                Err(_) => {},
            }
        },
        Err(_) => {},
    }
}

/// The jumps, calls and returns keep the state well formed.
pub proof fn lemma_flow_valid(s: CpuState, cc: bool, addr: u16, opcode: u8)
    requires
        s.wf(),
    ensures
        kept(s.jp(cc)),
        kept(s.jr(cc)),
        kept(s.call(addr)),
        kept(s.call_a16(cc)),
        kept(s.ret()),
        kept(s.reti()),
        kept(s.ret_cc(cc)),
        opcode >= 0xC7 ==> kept(s.rst(opcode)),
{
    lemma_next_word_valid(s);
    lemma_push_valid(s, s.pc);
    match s.next_word() {
        Ok(p) => {
            lemma_push_valid(p.0, p.0.pc);
        },
        Err(_) => {},
    }
}

/// PUSH and POP of a register pair keep the state well formed: POP AF
/// leaves F holding the flags that it took.
pub proof fn lemma_stack_valid(s: CpuState, r: R16)
    requires
        s.wf(),
        r == R16::BC || r == R16::DE || r == R16::HL || r == R16::AF,
    ensures
        kept(s.push_r16(r)),
        kept(s.pop_r16(r)),
{
    lemma_push_valid(s, s.r16(r));
}

/// The prefix and the instruction after it keep the state well formed.
pub proof fn lemma_cb_valid(s: CpuState, opcode: u8)
    requires
        s.wf(),
    ensures
        kept(s.cb_exec(opcode)),
        kept(s.cb()),
{
    lemma_cb_exec_valid(s, opcode);
    match s.next_byte() {
        Ok(p) => {
            lemma_cb_exec_valid(p.0, p.1);
        },
        Err(_) => {},
    }
}

/// Every instruction of the prefixed table keeps the state well formed.
pub proof fn lemma_cb_exec_valid(s: CpuState, opcode: u8)
    requires
        s.wf(),
    ensures
        kept(s.cb_exec(opcode)),
{
    reveal(CpuState::cb_exec);
    let r = operand_of(opcode);
    let n = (opcode / 8) % 8;
    match s.r8_get(r) {
        Ok(src) => {
            lemma_r8_set_valid(s.shift(n, src).0, r, s.shift(n, src).1);
            lemma_r8_set_valid(s, r, crate::cpu::alu::res8(src, n));
            lemma_r8_set_valid(s, r, crate::cpu::alu::set8(src, n));
        },
        Err(_) => {},
    }
}

/// Every instruction with an opcode below 0x40 keeps the state well formed.
pub proof fn lemma_exec_low_valid(s: CpuState, opcode: u8)
    requires
        s.wf(),
        opcode < 0x40,
    ensures
        kept(s.exec_low(opcode)),
{
    reveal(CpuState::exec_low);
    match opcode {
        0x01 => {
            lemma_loads_valid(s, R8::A, R16::BC, opcode, ReadWrite::R);
        },
        0x02 => {
            lemma_loads_valid(s, R8::A, R16::BC, opcode, ReadWrite::W);
        },
        0x04 => {
            lemma_alu_inc8_valid(s, R8::B, false);
        },
        0x05 => {
            lemma_alu_inc8_valid(s, R8::B, true);
        },
        0x06 => {
            lemma_loads_valid(s, R8::B, R16::BC, opcode, ReadWrite::R);
        },
        0x08 => {
            lemma_ld_sp_valid(s);
        },
        0x0A => {
            lemma_loads_valid(s, R8::A, R16::BC, opcode, ReadWrite::R);
        },
        0x0C => {
            lemma_alu_inc8_valid(s, R8::C, false);
        },
        0x0D => {
            lemma_alu_inc8_valid(s, R8::C, true);
        },
        0x0E => {
            lemma_loads_valid(s, R8::C, R16::BC, opcode, ReadWrite::R);
        },
        0x11 => {
            lemma_loads_valid(s, R8::A, R16::DE, opcode, ReadWrite::R);
        },
        0x12 => {
            lemma_loads_valid(s, R8::A, R16::DE, opcode, ReadWrite::W);
        },
        0x14 => {
            lemma_alu_inc8_valid(s, R8::D, false);
        },
        0x15 => {
            lemma_alu_inc8_valid(s, R8::D, true);
        },
        0x16 => {
            lemma_loads_valid(s, R8::D, R16::BC, opcode, ReadWrite::R);
        },
        0x18 => {
            lemma_flow_valid(s, true, 0, 0xC7);
        },
        0x1A => {
            lemma_loads_valid(s, R8::A, R16::DE, opcode, ReadWrite::R);
        },
        0x1C => {
            lemma_alu_inc8_valid(s, R8::E, false);
        },
        0x1D => {
            lemma_alu_inc8_valid(s, R8::E, true);
        },
        0x1E => {
            lemma_loads_valid(s, R8::E, R16::BC, opcode, ReadWrite::R);
        },
        0x20 => {
            lemma_flow_valid(s, !s.z, 0, 0xC7);
        },
        0x21 => {
            lemma_loads_valid(s, R8::A, R16::HL, opcode, ReadWrite::R);
        },
        0x22 => {
            lemma_loads_valid(s, R8::A, R16::HLI, opcode, ReadWrite::W);
        },
        0x24 => {
            lemma_alu_inc8_valid(s, R8::H, false);
        },
        0x25 => {
            lemma_alu_inc8_valid(s, R8::H, true);
        },
        0x26 => {
            lemma_loads_valid(s, R8::H, R16::BC, opcode, ReadWrite::R);
        },
        0x28 => {
            lemma_flow_valid(s, s.z, 0, 0xC7);
        },
        0x2A => {
            lemma_loads_valid(s, R8::A, R16::HLI, opcode, ReadWrite::R);
        },
        0x2C => {
            lemma_alu_inc8_valid(s, R8::L, false);
        },
        0x2D => {
            lemma_alu_inc8_valid(s, R8::L, true);
        },
        0x2E => {
            lemma_loads_valid(s, R8::L, R16::BC, opcode, ReadWrite::R);
        },
        0x30 => {
            lemma_flow_valid(s, !s.c, 0, 0xC7);
        },
        0x31 => {
            lemma_loads_valid(s, R8::A, R16::SP, opcode, ReadWrite::R);
        },
        0x32 => {
            lemma_loads_valid(s, R8::A, R16::HLD, opcode, ReadWrite::W);
        },
        0x34 => {
            lemma_alu_inc8_valid(s, R8::HLA, false);
        },
        0x35 => {
            lemma_alu_inc8_valid(s, R8::HLA, true);
        },
        0x36 => {
            lemma_loads_valid(s, R8::HLA, R16::BC, opcode, ReadWrite::R);
        },
        0x38 => {
            lemma_flow_valid(s, s.c, 0, 0xC7);
        },
        0x3A => {
            lemma_loads_valid(s, R8::A, R16::HLD, opcode, ReadWrite::R);
        },
        0x3C => {
            lemma_alu_inc8_valid(s, R8::A, false);
        },
        0x3D => {
            lemma_alu_inc8_valid(s, R8::A, true);
        },
        0x3E => {
            lemma_loads_valid(s, R8::A, R16::BC, opcode, ReadWrite::R);
        },
        _ => {},
    }
}

/// Every instruction with an opcode from 0xC0 up keeps the state well
/// formed, and so does the failure on a byte that is no instruction.
pub proof fn lemma_exec_high_valid(s: CpuState, opcode: u8)
    requires
        s.wf(),
        opcode >= 0xC0,
    ensures
        kept(s.exec_high(opcode)),
{
    reveal(CpuState::exec_high);
    match opcode {
        0xC0 => {
            lemma_flow_valid(s, !s.z, 0, opcode);
        },
        0xC1 => {
            lemma_stack_valid(s, R16::BC);
        },
        0xC2 => {
            lemma_flow_valid(s, !s.z, 0, opcode);
        },
        0xC3 => {
            lemma_flow_valid(s, true, 0, opcode);
        },
        0xC4 => {
            lemma_flow_valid(s, !s.z, 0, opcode);
        },
        0xC5 => {
            lemma_stack_valid(s, R16::BC);
        },
        0xC6 => {
            lemma_loads_valid(s, R8::A, R16::BC, opcode, ReadWrite::R);
        },
        0xC7 => {
            lemma_flow_valid(s, true, 0, opcode);
        },
        0xC8 => {
            lemma_flow_valid(s, s.z, 0, opcode);
        },
        0xC9 => {
            lemma_flow_valid(s, true, 0, opcode);
        },
        0xCA => {
            lemma_flow_valid(s, s.z, 0, opcode);
        },
        0xCB => {
            lemma_cb_valid(s, 0);
        },
        0xCC => {
            lemma_flow_valid(s, s.z, 0, opcode);
        },
        0xCD => {
            lemma_flow_valid(s, true, 0, opcode);
        },
        0xCE => {
            lemma_loads_valid(s, R8::A, R16::BC, opcode, ReadWrite::R);
        },
        0xCF => {
            lemma_flow_valid(s, true, 0, opcode);
        },
        0xD0 => {
            lemma_flow_valid(s, !s.c, 0, opcode);
        },
        0xD1 => {
            lemma_stack_valid(s, R16::DE);
        },
        0xD2 => {
            lemma_flow_valid(s, !s.c, 0, opcode);
        },
        0xD4 => {
            lemma_flow_valid(s, !s.c, 0, opcode);
        },
        0xD5 => {
            lemma_stack_valid(s, R16::DE);
        },
        0xD6 => {
            lemma_loads_valid(s, R8::A, R16::BC, opcode, ReadWrite::R);
        },
        0xD7 => {
            lemma_flow_valid(s, true, 0, opcode);
        },
        0xD8 => {
            lemma_flow_valid(s, s.c, 0, opcode);
        },
        0xD9 => {
            lemma_flow_valid(s, true, 0, opcode);
        },
        0xDA => {
            lemma_flow_valid(s, s.c, 0, opcode);
        },
        0xDC => {
            lemma_flow_valid(s, s.c, 0, opcode);
        },
        0xDE => {
            lemma_loads_valid(s, R8::A, R16::BC, opcode, ReadWrite::R);
        },
        0xDF => {
            lemma_flow_valid(s, true, 0, opcode);
        },
        0xE0 => {
            lemma_loads_valid(s, R8::A, R16::BC, opcode, ReadWrite::R);
        },
        0xE1 => {
            lemma_stack_valid(s, R16::HL);
        },
        0xE2 => {
            lemma_loads_valid(s, R8::A, R16::BC, opcode, ReadWrite::R);
        },
        0xE5 => {
            lemma_stack_valid(s, R16::HL);
        },
        0xE6 => {
            lemma_loads_valid(s, R8::A, R16::BC, opcode, ReadWrite::R);
        },
        0xE7 => {
            lemma_flow_valid(s, true, 0, opcode);
        },
        0xE8 => {
            lemma_loads_valid(s, R8::A, R16::BC, opcode, ReadWrite::R);
        },
        0xEA => {
            lemma_loads_valid(s, R8::A, R16::BC, opcode, ReadWrite::W);
        },
        0xEE => {
            lemma_loads_valid(s, R8::A, R16::BC, opcode, ReadWrite::R);
        },
        0xEF => {
            lemma_flow_valid(s, true, 0, opcode);
        },
        0xF0 => {
            lemma_loads_valid(s, R8::A, R16::BC, opcode, ReadWrite::R);
        },
        0xF1 => {
            lemma_stack_valid(s, R16::AF);
        },
        0xF2 => {
            lemma_loads_valid(s, R8::A, R16::BC, opcode, ReadWrite::R);
        },
        0xF5 => {
            lemma_stack_valid(s, R16::AF);
        },
        0xF6 => {
            lemma_loads_valid(s, R8::A, R16::BC, opcode, ReadWrite::R);
        },
        0xF7 => {
            lemma_flow_valid(s, true, 0, opcode);
        },
        0xF8 => {
            lemma_loads_valid(s, R8::A, R16::BC, opcode, ReadWrite::R);
        },
        0xFA => {
            lemma_loads_valid(s, R8::A, R16::BC, opcode, ReadWrite::R);
        },
        0xFE => {
            lemma_loads_valid(s, R8::A, R16::BC, opcode, ReadWrite::R);
        },
        0xFF => {
            lemma_flow_valid(s, true, 0, opcode);
        },
        _ => {},
    }
}

/// For every well formed state and every opcode, the state after the
/// instruction is well formed, whether it ran to its end or stopped at an
/// unmapped address or at a byte that is no instruction: F holds the four
/// flags, and its low nibble is zero.
pub proof fn lemma_exec_valid(s: CpuState, opcode: u8)
    requires
        s.wf(),
    ensures
        kept(s.exec(opcode)),
        s.exec(opcode) matches Ok(p) ==> p.0.rg.f & 0x0F == 0,
        s.exec(opcode) matches Err(f) ==> f.0.rg.f & 0x0F == 0,
{
    if opcode < 0x40 {
        lemma_exec_low_valid(s, opcode);
    } else if opcode >= 0xC0 {
        lemma_exec_high_valid(s, opcode);
    } else {
        lemma_loads_valid(s, R8::A, R16::BC, opcode, ReadWrite::R);
    }
    match s.exec(opcode) {
        Ok(p) => {
            lemma_flags_byte(p.0.z, p.0.n, p.0.h, p.0.c);
        },
        Err(f) => {
            lemma_flags_byte(f.0.z, f.0.n, f.0.h, f.0.c);
        },
    }
}

/// A tick keeps the state well formed.
pub proof fn lemma_tick_valid(s: CpuState)
    requires
        s.wf(),
    ensures
        kept(s.handle_interrupts()),
        kept(s.cycle()),
        kept(s.tick()),
        s.tick() matches Ok(p) ==> p.0.rg.f & 0x0F == 0,
{
    match s.pending() {
        Some(source) => {
            lemma_push_valid(s.taken(source), s.pc);
        },
        None => {},
    }
    match s.handle_interrupts() {
        Ok(served) => {
            lemma_next_word_valid(served.0);
            match served.0.next_byte() {
                Ok(fetched) => {
                    lemma_exec_valid(fetched.0, fetched.1);
                },
                Err(_) => {},
            }
        },
        Err(_) => {},
    }
    match s.cycle() {
        Ok(p) => {
            lemma_dma_progress(p.0.mmu, p.1 as nat);
            let t = s.tick()->Ok_0.0;
            lemma_flags_byte(t.z, t.n, t.h, t.c);
        },
        Err(_) => {},
    }
}

} // verus!
