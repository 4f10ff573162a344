//! Laws of the instruction set, proved of the model that the interpreter
//! is held to.
use vstd::prelude::*;
use crate::cpu::alu::add8;
use crate::cpu::model::{wrap16, CpuState};
use crate::cpu::regs::{add_e8_of, flags_byte, lemma_flags_byte, operand_of, signed_of, R16};
use crate::error::CoreError;
use crate::mmu::{in_hram, is_ram, lemma_ram_write_read};
use crate::utils::bit_of;

verus! {

/// In a well formed state the low nibble of F is zero.
pub proof fn lemma_low_nibble_zero(s: CpuState)
    requires
        s.wf(),
    ensures
        s.rg.f & 0x0F == 0,
        s.rg.f % 16 == 0,
{
    lemma_flags_byte(s.z, s.n, s.h, s.c);
}

/// BIT n on any operand clears N, sets H, leaves C, and sets Z exactly when
/// bit n of the operand is clear. It fails only where the operand cannot be
/// read, and it changes nothing but the flags.
pub proof fn lemma_bit_flags(s: CpuState, opcode: u8)
    requires
        s.wf(),
        0x40 <= opcode < 0x80,
    ensures
        match s.r8_get(operand_of(opcode)) {
            Err(e) => s.cb_exec(opcode) == Err::<(CpuState, u16), (CpuState, CoreError)>((s, e)),
            Ok(v) => {
                let n = ((opcode - 0x40) / 8) as u8;
                &&& s.cb_exec(opcode) is Ok
                &&& {
                    let t = s.cb_exec(opcode)->Ok_0.0;
                    &&& t == s.with_flags(!bit_of(v as u32, n), false, true, s.c)
                    &&& !t.n
                    &&& t.h
                    &&& t.c == s.c
                    &&& t.z == !bit_of(v as u32, n)
                }
            },
        },
{
    reveal(CpuState::cb_exec);
    assert((opcode / 8) % 8 == (opcode - 0x40) / 8);
}

/// ADD and ADC are a function of A, the operand and the carry that comes
/// in: the result is their sum modulo 256, Z says whether it is zero, N is
/// cleared, H is the carry out of the low nibbles and C the carry out of
/// the bytes. Nothing else changes but F, which holds the new flags.
pub proof fn lemma_add_formulas(s: CpuState, b: u8, with_carry: bool)
    ensures
        ({
            let k: int = if with_carry && s.c {
                1
            } else {
                0
            };
            let t = s.alu(
                if with_carry {
                    1u8
                } else {
                    0u8
                },
                b,
            );
            &&& t.rg.a == (s.rg.a + b + k) % 256
            &&& t.z == (t.rg.a == 0)
            &&& !t.n
            &&& t.h == ((s.rg.a & 0x0F) + (b & 0x0F) + k > 0x0F)
            &&& t.c == (s.rg.a + b + k > 0xFF)
            &&& t.rg.f == flags_byte(t.z, t.n, t.h, t.c)
            &&& t == s.with_a(t.rg.a).with_flags(t.z, t.n, t.h, t.c)
            &&& t == s.with_a(add8(s.rg.a, b, k).res).with_flags_of(add8(s.rg.a, b, k))
        }),
{
}

/// The low byte of a word, and its low nibble, by masks and by arithmetic.
proof fn lemma_low_byte(a: u16)
    ensures
        a & 0xFF == a % 256,
        a & 0x0F == ((a % 256) as u8) & 0x0F,
{
    assert(a & 0xFF == a % 256) by (bit_vector);
    assert(a & 0x0F == ((a % 256) as u8) & 0x0F) by (bit_vector);
}

/// Adding a signed offset to a word gives the H and the C of the unsigned
/// addition of the offset to the word's low byte.
pub proof fn lemma_add_e8_flags(a: u16, e: u8)
    ensures
        add_e8_of(a, e).0 == wrap16(a + signed_of(e)),
        add_e8_of(a, e).2 == add8((a % 256) as u8, e, 0).h,
        add_e8_of(a, e).3 == add8((a % 256) as u8, e, 0).c,
        add_e8_of(a, e).2 == ((a & 0x0F) + (e & 0x0F) > 0x0F),
        add_e8_of(a, e).3 == ((a & 0xFF) + e > 0xFF),
{
    lemma_low_byte(a);
}

/// ADD SP, e8 moves SP by the signed offset and leaves the H and the C of
/// the unsigned addition of the offset to the low byte of SP; Z and N are
/// cleared. It fails only where the offset cannot be fetched.
pub proof fn lemma_add_sp_flags(s: CpuState)
    requires
        s.wf(),
    ensures
        match s.next_byte() {
            Err(e) => s.alu_add_sp_e8() == Err::<(CpuState, u16), (CpuState, CoreError)>(e),
            Ok(p) => {
                let low = add8((s.sp % 256) as u8, p.1, 0);
                &&& s.alu_add_sp_e8() is Ok
                &&& {
                    let t = s.alu_add_sp_e8()->Ok_0.0;
                    &&& t.sp == wrap16(s.sp + signed_of(p.1))
                    &&& t.h == low.h
                    &&& t.c == low.c
                    &&& !t.z
                    &&& !t.n
                }
            },
        },
{
    match s.next_byte() {
        Err(e) => {},
        Ok(p) => {
            lemma_add_e8_flags(s.sp, p.1);
        },
    }
}

/// Whether the two bytes below SP can hold a pushed word: both lie in work
/// RAM or high RAM, and no transfer hides them from the processor.
pub open spec fn stack_holds(s: CpuState) -> bool {
    let hi = wrap16(s.sp - 1);
    let lo = wrap16(s.sp - 2);
    &&& is_ram(hi)
    &&& is_ram(lo)
    &&& s.mmu.ppu.dma ==> in_hram(hi) && in_hram(lo)
}

/// PUSH of a register pair followed by POP of the same pair restores the
/// registers, the flags and SP, where the stack lies in RAM. F comes back
/// with its low nibble zero, as it was.
pub proof fn lemma_push_pop(s: CpuState, r: R16)
    requires
        s.wf(),
        r == R16::BC || r == R16::DE || r == R16::HL || r == R16::AF,
        stack_holds(s),
    ensures
        s.push_r16(r) is Ok,
        s.push_r16(r)->Ok_0.0.pop_r16(r) is Ok,
        ({
            let pushed = s.push_r16(r)->Ok_0.0;
            let popped = pushed.pop_r16(r)->Ok_0.0;
            &&& popped.rg == s.rg
            &&& popped.sp == s.sp
            &&& popped.z == s.z
            &&& popped.n == s.n
            &&& popped.h == s.h
            &&& popped.c == s.c
            &&& popped.pc == s.pc
            &&& popped.mmu == pushed.mmu
            &&& popped.rg.f & 0x0F == 0
        }),
{
    let w = s.r16(r);
    let hi_addr = wrap16(s.sp - 1);
    let lo_addr = wrap16(s.sp - 2);
    lemma_ram_write_read(s.mmu, hi_addr, (w / 256) as u8, lo_addr);
    let m1 = s.mmu.write_byte(hi_addr, (w / 256) as u8)->Ok_0;
    lemma_ram_write_read(m1, lo_addr, (w % 256) as u8, hi_addr);
    let m2 = m1.write_byte(lo_addr, (w % 256) as u8)->Ok_0;
    assert(hi_addr != lo_addr);
    assert(m2.bus_read(lo_addr) == Ok::<u8, CoreError>((w % 256) as u8));
    assert(m2.bus_read(hi_addr) == Ok::<u8, CoreError>((w / 256) as u8));
    let pushed = s.push_r16(r)->Ok_0.0;
    assert(pushed.mmu == m2);
    assert(pushed.sp == lo_addr);
    assert(wrap16(pushed.sp + 1) == hi_addr);
    assert(wrap16(pushed.sp + 2) == s.sp);
    assert(pushed.pop() is Ok);
    assert(pushed.pop()->Ok_0.1 == w);
    lemma_flags_byte(s.z, s.n, s.h, s.c);
}

/// DI clears the master enable at once: the service of interrupts that
/// follows takes none, whatever is pending.
pub proof fn lemma_di_blocks_dispatch(s: CpuState)
    ensures
        !s.di().ime,
        !s.di().ei,
        s.di().handle_interrupts() is Ok,
        s.di().handle_interrupts()->Ok_0.1 == 0,
        s.di().handle_interrupts()->Ok_0.0.pc == s.pc,
        s.di().handle_interrupts()->Ok_0.0.mmu == s.mmu,
{
}

/// EI leaves the master enable as it is and marks it pending; the next
/// instruction that is not itself EI sets the master enable when it is done.
pub proof fn lemma_ei_delay(s: CpuState, next: u8)
    ensures
        s.ei().ime == s.ime,
        s.ei().ei,
        s.ei().promote(0xFB) == s.ei(),
        next != 0xFB ==> s.ei().promote(next).ime && !s.ei().promote(next).ei,
{
}

/// A step that takes an interrupt charges five machine cycles for it, clears
/// its request and the master enable, and leaves the return address on the
/// stack, where the stack lies in RAM.
pub proof fn lemma_dispatch(s: CpuState)
    requires
        s.wf(),
        s.ime,
        s.pending() is Some,
        stack_holds(s),
    ensures
        s.handle_interrupts() is Ok,
        ({
            let source = s.pending()->Some_0;
            let t = s.handle_interrupts()->Ok_0.0;
            &&& s.handle_interrupts()->Ok_0.1 == 5
            &&& t.pc == source.vector_spec()
            &&& !t.ime
            &&& !t.halted
            &&& t.sp == wrap16(s.sp - 2)
            &&& t.mmu.iflags == s.mmu.iflags.without(source)
            &&& t.mmu.bus_read(t.sp) == Ok::<u8, CoreError>((s.pc % 256) as u8)
            &&& t.mmu.bus_read(wrap16(t.sp + 1)) == Ok::<u8, CoreError>((s.pc / 256) as u8)
        }),
{
    let source = s.pending()->Some_0;
    let start = s.taken(source);
    let hi_addr = wrap16(s.sp - 1);
    let lo_addr = wrap16(s.sp - 2);
    lemma_ram_write_read(start.mmu, hi_addr, (s.pc / 256) as u8, lo_addr);
    let m1 = start.mmu.write_byte(hi_addr, (s.pc / 256) as u8)->Ok_0;
    lemma_ram_write_read(m1, lo_addr, (s.pc % 256) as u8, hi_addr);
}

} // verus!
