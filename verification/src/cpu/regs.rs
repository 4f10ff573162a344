//! Register names, the register file, and the arithmetic on bytes and words
//! that the instructions share.
use vstd::prelude::*;

verus! {

/// An 8-bit operand: a register, or the byte at the address in HL.
#[derive(Debug, Clone, Copy, PartialEq, Eq, Structural)]
pub enum R8 {
    B,
    C,
    D,
    E,
    H,
    L,
    A,
    F,
    /// The byte at the address in HL.
    HLA,
}

/// A 16-bit operand: a register pair, the stack pointer, or HL with
/// post-increment or post-decrement.
#[derive(Debug, Clone, Copy, PartialEq, Eq, Structural)]
pub enum R16 {
    BC,
    DE,
    HL,
    AF,
    SP,
    HLI,
    HLD,
}

/// The direction of a transfer between A and memory.
#[derive(Debug, Clone, Copy, PartialEq, Eq, Structural)]
pub enum ReadWrite {
    /// Memory to A.
    R,
    /// A to memory.
    W,
}

/// The operand that a three-bit field of an opcode names: B, C, D, E, H, L,
/// the byte at HL, A.
pub open spec fn operand_of(code: u8) -> R8 {
    if code % 8 == 0 {
        R8::B
    } else if code % 8 == 1 {
        R8::C
    } else if code % 8 == 2 {
        R8::D
    } else if code % 8 == 3 {
        R8::E
    } else if code % 8 == 4 {
        R8::H
    } else if code % 8 == 5 {
        R8::L
    } else if code % 8 == 6 {
        R8::HLA
    } else {
        R8::A
    }
}

impl R8 {
    /// The operand that the number `value` names in an opcode, if it is below 8.
    pub fn from_index(value: u8) -> (r: Option<R8>)
        ensures
            value < 8 ==> r == Some(operand_of(value)),
            value >= 8 ==> r.is_none(),
    {
        if value < 8 {
            Some(R8::operand(value))
        } else {
            None
        }
    }

    /// The operand that the low three bits of `code` name.
    pub fn operand(code: u8) -> (r: R8)
        ensures
            r == operand_of(code),
            r != R8::F,
    {
        let k: u8 = code % 8;
        if k == 0 {
            R8::B
        } else if k == 1 {
            R8::C
        } else if k == 2 {
            R8::D
        } else if k == 3 {
            R8::E
        } else if k == 4 {
            R8::H
        } else if k == 5 {
            R8::L
        } else if k == 6 {
            R8::HLA
        } else {
            R8::A
        }
    }
}

/// The eight registers.
#[derive(Debug, Clone, Copy, PartialEq, Eq, Structural)]
pub struct Regs {
    pub b: u8,
    pub c: u8,
    pub d: u8,
    pub e: u8,
    pub h: u8,
    pub l: u8,
    pub a: u8,
    pub f: u8,
}

impl Regs {
    /// The value of register `r`. The memory operand is no register: for it
    /// the register file answers 0.
    pub open spec fn get_spec(self, r: R8) -> u8 {
        match r {
            R8::B => self.b,
            R8::C => self.c,
            R8::D => self.d,
            R8::E => self.e,
            R8::H => self.h,
            R8::L => self.l,
            R8::A => self.a,
            R8::F => self.f,
            R8::HLA => 0,
        }
    }

    /// The register file with `v` in register `r`. The memory operand is no
    /// register: for it the register file stays as it is.
    pub open spec fn set_spec(self, r: R8, v: u8) -> Regs {
        match r {
            R8::B => Regs { b: v, ..self },
            R8::C => Regs { c: v, ..self },
            R8::D => Regs { d: v, ..self },
            R8::E => Regs { e: v, ..self },
            R8::H => Regs { h: v, ..self },
            R8::L => Regs { l: v, ..self },
            R8::A => Regs { a: v, ..self },
            R8::F => Regs { f: v, ..self },
            R8::HLA => self,
        }
    }

    /// The pair BC.
    pub open spec fn bc(self) -> u16 {
        word_of(self.b, self.c)
    }

    /// The pair DE.
    pub open spec fn de(self) -> u16 {
        word_of(self.d, self.e)
    }

    /// The pair HL.
    pub open spec fn hl(self) -> u16 {
        word_of(self.h, self.l)
    }

    /// The register file with `w` in HL.
    pub open spec fn with_hl(self, w: u16) -> Regs {
        Regs { h: (w / 256) as u8, l: (w % 256) as u8, ..self }
    }

    /// The register file with `w` in the pair `hi`, `lo`.
    pub open spec fn with_pair(self, hi: R8, lo: R8, w: u16) -> Regs {
        self.set_spec(hi, (w / 256) as u8).set_spec(lo, (w % 256) as u8)
    }

    /// A register file of zeros.
    pub fn new() -> (r: Regs)
        ensures
            r == (Regs { b: 0, c: 0, d: 0, e: 0, h: 0, l: 0, a: 0, f: 0 }),
    {
        Regs { b: 0, c: 0, d: 0, e: 0, h: 0, l: 0, a: 0, f: 0 }
    }

    /// Reads register `r`.
    pub fn get(&self, r: R8) -> (v: u8)
        ensures
            v == self.get_spec(r),
    {
        match r {
            R8::B => self.b,
            R8::C => self.c,
            R8::D => self.d,
            R8::E => self.e,
            R8::H => self.h,
            R8::L => self.l,
            R8::A => self.a,
            R8::F => self.f,
            R8::HLA => 0,
        }
    }

    /// Writes register `r`.
    pub fn set(&mut self, r: R8, v: u8)
        ensures
            *final(self) == old(self).set_spec(r, v),
    {
        match r {
            R8::B => {
                self.b = v;
            },
            R8::C => {
                self.c = v;
            },
            R8::D => {
                self.d = v;
            },
            R8::E => {
                self.e = v;
            },
            R8::H => {
                self.h = v;
            },
            R8::L => {
                self.l = v;
            },
            R8::A => {
                self.a = v;
            },
            R8::F => {
                self.f = v;
            },
            R8::HLA => {},
        }
    }
}

/// The word with high byte `hi` and low byte `lo`.
pub open spec fn word_of(hi: u8, lo: u8) -> u16 {
    (hi * 256 + lo) as u16
}

/// The signed value of an 8-bit offset in two's complement.
pub open spec fn signed_of(e: u8) -> int {
    if e < 128 {
        e as int
    } else {
        e - 256
    }
}

/// The byte of flags: Z in bit 7, N in bit 6, H in bit 5, C in bit 4, and a
/// low nibble of zero.
pub open spec fn flags_byte(z: bool, n: bool, h: bool, c: bool) -> u8 {
    ((if z {
        128int
    } else {
        0
    }) + (if n {
        64int
    } else {
        0
    }) + (if h {
        32int
    } else {
        0
    }) + (if c {
        16int
    } else {
        0
    })) as u8
}

/// Bit `k` of the byte `f`, by arithmetic.
pub open spec fn flag_bit(f: u8, k: int) -> bool {
    if k == 7 {
        f >= 128
    } else if k == 6 {
        (f / 64) % 2 == 1
    } else if k == 5 {
        (f / 32) % 2 == 1
    } else {
        (f / 16) % 2 == 1
    }
}

/// What `add_u16_e8` returns: `a` plus the signed offset `b` modulo 65536,
/// whether that is zero, and the half carry and the carry of adding `b` as
/// an unsigned byte to the low byte of `a`.
pub open spec fn add_e8_of(a: u16, b: u8) -> (u16, bool, bool, bool) {
    let res = ((a + signed_of(b)) % 0x10000) as u16;
    (res, res == 0, (a & 0x0F) + (b & 0x0F) > 0x0F, (a & 0xFF) + b > 0xFF)
}

/// Adds the signed offset `b` to `a`. The half carry and the carry are those
/// of the unsigned addition of `b` to the low byte of `a`.
pub fn add_u16_e8(a: u16, b: u8) -> (r: (u16, bool, bool, bool))
    ensures
        r == add_e8_of(a, b),
{
    let res: u16 = if b < 128 {
        a.wrapping_add(b as u16)
    } else {
        a.wrapping_sub(256 - b as u16)
    };
    let h: bool = (a & 0x0F) as u32 + (b & 0x0F) as u32 > 0x0F;
    let c: bool = (a & 0xFF) as u32 + b as u32 > 0xFF;
    (res, res == 0, h, c)
}

/// Joins two bytes into a word.
pub fn combine_u8(hi: u8, lo: u8) -> (r: u16)
    ensures
        r == word_of(hi, lo),
        r == hi * 256 + lo,
{
    (hi as u16) * 256 + lo as u16
}

/// Splits a word into its high and its low byte.
pub fn split_u16(n: u16) -> (r: (u8, u8))
    ensures
        r.0 == n / 256,
        r.1 == n % 256,
        word_of(r.0, r.1) == n,
{
    ((n / 256) as u8, (n % 256) as u8)
}

/// The two registers of a pair, high then low.
pub open spec fn pair_of(r: R16) -> (R8, R8) {
    match r {
        R16::BC => (R8::B, R8::C),
        R16::DE => (R8::D, R8::E),
        R16::HL => (R8::H, R8::L),
        _ => (R8::A, R8::F),
    }
}

/// The two registers of the pair `r`, high then low. The stack pointer and
/// the two stepping forms of HL are no pairs of registers.
pub fn r16_to_hi_lo(r: R16) -> (p: (R8, R8))
    requires
        r == R16::BC || r == R16::DE || r == R16::HL || r == R16::AF,
    ensures
        p == pair_of(r),
{
    match r {
        R16::BC => (R8::B, R8::C),
        R16::DE => (R8::D, R8::E),
        R16::HL => (R8::H, R8::L),
        _ => (R8::A, R8::F),
    }
}

/// Splitting a word and joining the halves gives the word back, and so the
/// other way round.
pub proof fn lemma_split_combine(n: u16, hi: u8, lo: u8)
    ensures
        word_of((n / 256) as u8, (n % 256) as u8) == n,
        word_of(hi, lo) / 256 == hi,
        word_of(hi, lo) % 256 == lo,
{
}

/// The byte of flags has a low nibble of zero, and each flag can be read
/// back from its bit.
pub proof fn lemma_flags_byte(z: bool, n: bool, h: bool, c: bool)
    ensures
        flags_byte(z, n, h, c) % 16 == 0,
        flags_byte(z, n, h, c) & 0x0F == 0,
        flag_bit(flags_byte(z, n, h, c), 7) == z,
        flag_bit(flags_byte(z, n, h, c), 6) == n,
        flag_bit(flags_byte(z, n, h, c), 5) == h,
        flag_bit(flags_byte(z, n, h, c), 4) == c,
{
    let f = flags_byte(z, n, h, c);
    assert(f & 0x0F == 0) by (bit_vector)
        requires
            f % 16 == 0,
    ;
}

/// The flags read from a byte, made into a byte again, are the byte with its
/// low nibble cleared.
pub proof fn lemma_flags_mask(v: u8)
    ensures
        flags_byte(flag_bit(v, 7), flag_bit(v, 6), flag_bit(v, 5), flag_bit(v, 4)) == v & 0xF0,
{
    let f = flags_byte(flag_bit(v, 7), flag_bit(v, 6), flag_bit(v, 5), flag_bit(v, 4));
    assert(f == (v / 16) * 16);
    assert((v / 16) * 16 == v & 0xF0) by (bit_vector);
}

} // verus!
