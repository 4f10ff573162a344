//! The arithmetic and logic unit as mathematics: what each operation makes
//! of its operands and of the carry, and the flags that it leaves.
use vstd::prelude::*;
use crate::utils::bit_of;

verus! {

/// The result of an 8-bit operation and the four flags after it.
pub struct AluOut {
    pub res: u8,
    pub z: bool,
    pub n: bool,
    pub h: bool,
    pub c: bool,
}

/// `a + b + k`, where `k` is the carry that comes in, 0 or 1. H is the carry
/// out of the low nibble, C the carry out of the byte.
pub open spec fn add8(a: u8, b: u8, k: int) -> AluOut {
    AluOut {
        res: ((a + b + k) % 256) as u8,
        z: (a + b + k) % 256 == 0,
        n: false,
        h: (a & 0x0F) + (b & 0x0F) + k > 0x0F,
        c: a + b + k > 0xFF,
    }
}

/// `a - b - k`, where `k` is the carry that comes in, 0 or 1. H is the
/// borrow into the low nibble, C the borrow into the byte.
pub open spec fn sub8(a: u8, b: u8, k: int) -> AluOut {
    AluOut {
        res: ((a - b - k) % 256) as u8,
        z: (a - b - k) % 256 == 0,
        n: true,
        h: (a & 0x0F) < (b & 0x0F) + k,
        c: a < b + k,
    }
}

/// The carry that an operation takes in: the carry flag, if the operation
/// uses it.
pub open spec fn carry_in(uses: bool, c: bool) -> int {
    if uses && c {
        1
    } else {
        0
    }
}

/// One of the eight operations on A: ADD, ADC, SUB, SBC, AND, XOR, OR, CP.
/// CP is SUB with A kept.
pub open spec fn alu8(op: u8, a: u8, b: u8, c: bool) -> AluOut {
    if op == 0 {
        add8(a, b, 0)
    } else if op == 1 {
        add8(a, b, carry_in(true, c))
    } else if op == 2 {
        sub8(a, b, 0)
    } else if op == 3 {
        sub8(a, b, carry_in(true, c))
    } else if op == 4 {
        AluOut { res: a & b, z: a & b == 0, n: false, h: true, c: false }
    } else if op == 5 {
        AluOut { res: a ^ b, z: a ^ b == 0, n: false, h: false, c: false }
    } else if op == 6 {
        AluOut { res: a | b, z: a | b == 0, n: false, h: false, c: false }
    } else {
        AluOut { res: a, ..sub8(a, b, 0) }
    }
}

/// The decimal adjustment of A after an addition or a subtraction of packed
/// decimals. After an addition 0x60 is added when C is set or A is above
/// 0x99, which sets C, and 0x06 when H is set or the low nibble is above 9.
/// After a subtraction 0x60 is subtracted on C and 0x06 on H.
pub open spec fn daa8(a: u8, n: bool, h: bool, c: bool) -> AluOut {
    if !n {
        let high = c || a > 0x99;
        let low = h || (a & 0x0F) > 0x09;
        let res = ((a + (if high {
            0x60int
        } else {
            0
        }) + (if low {
            0x06int
        } else {
            0
        })) % 256) as u8;
        AluOut { res, z: res == 0, n, h: false, c: high }
    } else {
        let res = ((a - (if c {
            0x60int
        } else {
            0
        }) - (if h {
            0x06int
        } else {
            0
        })) % 256) as u8;
        AluOut { res, z: res == 0, n, h: false, c }
    }
}

/// `b + 1`. C stays.
pub open spec fn inc8(b: u8, c: bool) -> AluOut {
    AluOut {
        res: ((b + 1) % 256) as u8,
        z: (b + 1) % 256 == 0,
        n: false,
        h: b & 0x0F == 0x0F,
        c,
    }
}

/// `b - 1`. C stays.
pub open spec fn dec8(b: u8, c: bool) -> AluOut {
    AluOut {
        res: ((b - 1) % 256) as u8,
        z: (b - 1) % 256 == 0,
        n: true,
        h: b & 0x0F == 0,
        c,
    }
}

/// The flags after a rotate or a shift that gave `res` and pushed out `c`.
pub open spec fn shifted(res: u8, c: bool) -> AluOut {
    AluOut { res, z: res == 0, n: false, h: false, c }
}

/// One of the eight rotates and shifts, by its number in the prefixed table:
/// RLC, RRC, RL, RR, SLA, SRA, SWAP, SRL.
pub open spec fn shift8(kind: u8, b: u8, c: bool) -> AluOut {
    if kind == 0 {
        shifted((b << 1) | (b >> 7), b & 0x80 == 0x80)
    } else if kind == 1 {
        shifted((b >> 1) | (b << 7), b & 0x01 == 0x01)
    } else if kind == 2 {
        shifted(
            (b << 1) | (if c {
                0x01u8
            } else {
                0
            }),
            b & 0x80 == 0x80,
        )
    } else if kind == 3 {
        shifted(
            (b >> 1) | (if c {
                0x80u8
            } else {
                0
            }),
            b & 0x01 == 0x01,
        )
    } else if kind == 4 {
        shifted(b << 1, b & 0x80 == 0x80)
    } else if kind == 5 {
        shifted((b >> 1) | (b & 0x80), b & 0x01 == 0x01)
    } else if kind == 6 {
        shifted((b << 4) | (b >> 4), false)
    } else {
        shifted(b >> 1, b & 0x01 == 0x01)
    }
}

/// BIT n: Z is set when bit `n` of `b` is clear, N is cleared, H is set, C
/// stays.
pub open spec fn bit8(b: u8, n: u8, c: bool) -> AluOut {
    AluOut { res: b, z: !bit_of(b as u32, n), n: false, h: true, c }
}

/// RES n: `b` with bit `n` cleared.
pub open spec fn res8(b: u8, n: u8) -> u8 {
    b & !(1u8 << n)
}

/// SET n: `b` with bit `n` set.
pub open spec fn set8(b: u8, n: u8) -> u8 {
    b | (1u8 << n)
}

/// The 16-bit sum `a + b` modulo 65536, the carry out of bit 11 and the
/// carry out of bit 15.
pub open spec fn add16(a: u16, b: u16) -> (u16, bool, bool) {
    (((a + b) % 0x10000) as u16, (a & 0x0FFF) + (b & 0x0FFF) > 0x0FFF, a + b > 0xFFFF)
}

} // verus!
