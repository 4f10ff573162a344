//! Addresses of the I/O registers, and single-bit helpers.
use vstd::prelude::*;

verus! {

pub const SB: u16 = 0xFF01;
pub const SC: u16 = 0xFF02;
pub const DIV: u16 = 0xFF04;
pub const TIMA: u16 = 0xFF05;
pub const TMA: u16 = 0xFF06;
pub const TAC: u16 = 0xFF07;
pub const LCDC: u16 = 0xFF40;
pub const STAT: u16 = 0xFF41;
pub const SCY: u16 = 0xFF42;
pub const SCX: u16 = 0xFF43;
pub const LY: u16 = 0xFF44;
pub const LYC: u16 = 0xFF45;
pub const DMA: u16 = 0xFF46;
pub const BGP: u16 = 0xFF47;
pub const OBP0: u16 = 0xFF48;
pub const OBP1: u16 = 0xFF49;
pub const WY: u16 = 0xFF4A;
pub const WX: u16 = 0xFF4B;
pub const IF: u16 = 0xFF0F;
pub const IE: u16 = 0xFFFF;

/// Whether bit `n` of `v` is set.
pub open spec fn bit_of(v: u32, n: u8) -> bool {
    (v >> n) & 1 == 1
}

/// The value with only bit `n` set.
pub open spec fn flag_of(n: u8) -> u32 {
    1u32 << n
}

/// Tests bit `n` of `b`.
pub fn bit(b: u32, n: u8) -> (r: bool)
    requires
        n < 32,
    ensures
        r == bit_of(b, n),
{
    (b >> n) & 1 == 1
}

/// `v` with bit `bit` set.
pub fn set(v: u32, bit: u8) -> (r: u32)
    requires
        bit < 32,
    ensures
        r == v | flag_of(bit),
        bit_of(r, bit),
        forall|k: u8| k < 32 && k != bit ==> bit_of(r, k) == bit_of(v, k),
{
    proof {
        lemma_set_bit(v, bit);
    }
    v | (1u32 << bit)
}

/// `v` with bit `bit` cleared.
pub fn unset(v: u32, bit: u8) -> (r: u32)
    requires
        bit < 32,
    ensures
        r == v & !flag_of(bit),
        !bit_of(r, bit),
        forall|k: u8| k < 32 && k != bit ==> bit_of(r, k) == bit_of(v, k),
{
    proof {
        lemma_unset_bit(v, bit);
    }
    v & !(1u32 << bit)
}

/// The mask that has bit `bit` alone.
pub fn flag(bit: u8) -> (r: u32)
    requires
        bit < 32,
    ensures
        r == flag_of(bit),
        bit_of(r, bit),
        forall|k: u8| k < 32 && k != bit ==> !bit_of(r, k),
{
    proof {
        lemma_flag_bit(bit);
    }
    1u32 << bit
}

/// Setting a bit makes that bit read as set and leaves every other bit alone.
pub proof fn lemma_set_bit(v: u32, n: u8)
    requires
        n < 32,
    ensures
        bit_of(v | flag_of(n), n),
        forall|k: u8| k < 32 && k != n ==> bit_of(v | flag_of(n), k) == bit_of(v, k),
{
    assert(((v | (1u32 << n)) >> n) & 1 == 1) by (bit_vector)
        requires
            n < 32,
    ;
    assert forall|k: u8| k < 32 && k != n implies bit_of(v | flag_of(n), k) == bit_of(v, k) by {
        assert(((v | (1u32 << n)) >> k) & 1 == (v >> k) & 1) by (bit_vector)
            requires
                n < 32,
                k < 32,
                k != n,
        ;
    }
}

/// Clearing a bit makes that bit read as clear and leaves every other bit alone.
pub proof fn lemma_unset_bit(v: u32, n: u8)
    requires
        n < 32,
    ensures
        !bit_of(v & !flag_of(n), n),
        forall|k: u8| k < 32 && k != n ==> bit_of(v & !flag_of(n), k) == bit_of(v, k),
{
    assert(((v & !(1u32 << n)) >> n) & 1 == 0) by (bit_vector)
        requires
            n < 32,
    ;
    assert forall|k: u8| k < 32 && k != n implies bit_of(v & !flag_of(n), k) == bit_of(v, k) by {
        assert(((v & !(1u32 << n)) >> k) & 1 == (v >> k) & 1) by (bit_vector)
            requires
                n < 32,
                k < 32,
                k != n,
        ;
    }
}

/// A one-bit mask has its own bit and no other.
pub proof fn lemma_flag_bit(n: u8)
    requires
        n < 32,
    ensures
        bit_of(flag_of(n), n),
        forall|k: u8| k < 32 && k != n ==> !bit_of(flag_of(n), k),
{
    assert(((1u32 << n) >> n) & 1 == 1) by (bit_vector)
        requires
            n < 32,
    ;
    assert forall|k: u8| k < 32 && k != n implies !bit_of(flag_of(n), k) by {
        assert(((1u32 << n) >> k) & 1 == 0) by (bit_vector)
            requires
                n < 32,
                k < 32,
                k != n,
        ;
    }
}

} // verus!
