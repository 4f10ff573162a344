//! The divider and the programmable timer.
use vstd::prelude::*;
use crate::error::CoreError;
use crate::utils::{bit, bit_of};

verus! {

/// The system clock: the 16-bit divider, of which DIV shows the high byte,
/// and the timer that counts falling edges of one of the divider's bits.
#[derive(Debug, Clone, Copy, PartialEq, Eq, Structural)]
pub struct SysClk {
    pub div: u16,
    pub tma: u8,
    pub tima: u8,
    /// The three low bits of TAC: bit 2 enables, bits 0 and 1 select the rate.
    pub tac: u8,
}

/// The divider bit that the rate bits of TAC select: a period of 1024, 16,
/// 64 or 256 dots.
pub open spec fn tap_of(tac: u8) -> u8 {
    if tac & 3 == 0 {
        9
    } else if tac & 3 == 1 {
        3
    } else if tac & 3 == 2 {
        5
    } else {
        7
    }
}

impl SysClk {
    /// Bit 2 of TAC.
    pub open spec fn enabled(self) -> bool {
        bit_of(self.tac as u32, 2)
    }

    /// The level of the selected divider bit.
    pub open spec fn input(self) -> bool {
        bit_of(self.div as u32, tap_of(self.tac))
    }

    /// TIMA counts once. From 0xFF it is reloaded with TMA and the timer
    /// interrupt is requested.
    pub open spec fn count(self) -> (SysClk, bool) {
        if self.tima == 0xFF {
            (SysClk { tima: self.tma, ..self }, true)
        } else {
            (SysClk { tima: (self.tima + 1) as u8, ..self }, false)
        }
    }

    /// One machine cycle: the divider goes up by four dots, and an enabled
    /// timer counts if the selected bit fell. The flag says whether the
    /// timer interrupt is requested.
    pub open spec fn step_spec(self) -> (SysClk, bool) {
        let next = SysClk { div: ((self.div + 4) % 0x10000) as u16, ..self };
        if self.enabled() && self.input() && !next.input() {
            next.count()
        } else {
            (next, false)
        }
    }

    /// `m` machine cycles. The flag says whether any of them requested the
    /// timer interrupt.
    pub open spec fn advance(self, m: nat) -> (SysClk, bool)
        decreases m,
    {
        if m == 0 {
            (self, false)
        } else {
            let before = self.advance((m - 1) as nat);
            let after = before.0.step_spec();
            (after.0, before.1 || after.1)
        }
    }

    /// What the bus reads at `addr`: the high byte of the divider, TIMA, TMA,
    /// or TAC with its five unused bits set.
    pub open spec fn read_spec(self, addr: u16) -> Result<u8, CoreError> {
        if addr == 0xFF04 {
            Ok((self.div / 256) as u8)
        } else if addr == 0xFF05 {
            Ok(self.tima)
        } else if addr == 0xFF06 {
            Ok(self.tma)
        } else if addr == 0xFF07 {
            Ok(self.tac | 0xF8)
        } else {
            Err(CoreError::Unmapped(addr))
        }
    }

    /// The clock after the bus writes `v` at `addr`, and whether the write
    /// requests the timer interrupt. Any write to DIV clears the divider; if
    /// that makes the selected bit of an enabled timer fall, TIMA counts.
    pub open spec fn write_spec(self, addr: u16, v: u8) -> Result<(SysClk, bool), CoreError> {
        if addr == 0xFF04 {
            let cleared = SysClk { div: 0, ..self };
            Ok(
                if self.enabled() && self.input() {
                    cleared.count()
                } else {
                    (cleared, false)
                },
            )
        } else if addr == 0xFF05 {
            Ok((SysClk { tima: v, ..self }, false))
        } else if addr == 0xFF06 {
            Ok((SysClk { tma: v, ..self }, false))
        } else if addr == 0xFF07 {
            Ok((SysClk { tac: v & 0x07, ..self }, false))
        } else {
            Err(CoreError::Unmapped(addr))
        }
    }

    /// A clock in which every register is zero.
    pub fn new() -> (r: SysClk)
        ensures
            r == (SysClk { div: 0, tma: 0, tima: 0, tac: 0 }),
    {
        SysClk { div: 0, tma: 0, tima: 0, tac: 0 }
    }

    /// The clock as the boot program leaves it: the divider at 0xABCC.
    pub fn boot() -> (r: SysClk)
        ensures
            r == (SysClk { div: 0xABCC, tma: 0, tima: 0, tac: 0 }),
    {
        SysClk { div: 0xABCC, tma: 0, tima: 0, tac: 0 }
    }

    /// The divider bit that TAC selects.
    pub fn tap(&self) -> (r: u8)
        ensures
            r == tap_of(self.tac),
            r < 16,
    {
        let sel: u8 = self.tac & 3;
        if sel == 0 {
            9
        } else if sel == 1 {
            3
        } else if sel == 2 {
            5
        } else {
            7
        }
    }

    /// Counts TIMA once and says whether it overflowed.
    pub fn tick(&mut self) -> (irq: bool)
        ensures
            (*final(self), irq) == old(self).count(),
    {
        if self.tima == 0xFF {
            self.tima = self.tma;
            true
        } else {
            self.tima = self.tima + 1;
            false
        }
    }

    /// Advances the clock by one machine cycle and says whether the timer
    /// interrupt is requested.
    pub fn step(&mut self) -> (irq: bool)
        ensures
            (*final(self), irq) == old(self).step_spec(),
    {
        let tap: u8 = self.tap();
        let was: bool = bit(self.tac as u32, 2) && bit(self.div as u32, tap);
        self.div = self.div.wrapping_add(4);
        if was && !bit(self.div as u32, tap) {
            self.tick()
        } else {
            false
        }
    }

    /// Advances the clock by `cycles` machine cycles and says whether the
    /// timer interrupt was requested during them. The divider goes up by
    /// four dots a cycle and wraps at 65536.
    pub fn cycle(&mut self, cycles: u16) -> (irq: bool)
        ensures
            (*final(self), irq) == old(self).advance(cycles as nat),
            final(self).div == (old(self).div + 4 * cycles) % 0x10000,
            final(self).tma == old(self).tma,
            final(self).tac == old(self).tac,
    {
        proof {
            lemma_divider_after(*old(self), cycles as nat);
        }
        let mut irq: bool = false;
        let mut i: u16 = 0;
        while i < cycles
            invariant
                i <= cycles,
                (*self, irq) == old(self).advance(i as nat),
            decreases cycles - i,
        {
            let now: bool = self.step();
            irq = irq || now;
            i = i + 1;
        }
        irq
    }

    /// Reads DIV, TIMA, TMA or TAC.
    pub fn read_byte(&self, addr: u16) -> (r: Result<u8, CoreError>)
        ensures
            r == self.read_spec(addr),
    {
        if addr == 0xFF04 {
            Ok((self.div / 256) as u8)
        } else if addr == 0xFF05 {
            Ok(self.tima)
        } else if addr == 0xFF06 {
            Ok(self.tma)
        } else if addr == 0xFF07 {
            Ok(self.tac | 0xF8)
        } else {
            Err(CoreError::Unmapped(addr))
        }
    }

    /// Writes DIV, TIMA, TMA or TAC. The flag says whether the write requests
    /// the timer interrupt.
    pub fn write_byte(&mut self, addr: u16, v: u8) -> (r: Result<bool, CoreError>)
        ensures
            match old(self).write_spec(addr, v) {
                Ok(s) => r == Ok::<bool, CoreError>(s.1) && *final(self) == s.0,
                Err(e) => r == Err::<bool, CoreError>(e) && *final(self) == *old(self),
            },
    {
        if addr == 0xFF04 {
            let tap: u8 = self.tap();
            let was: bool = bit(self.tac as u32, 2) && bit(self.div as u32, tap);
            self.div = 0;
            if was {
                Ok(self.tick())
            } else {
                Ok(false)
            }
        } else if addr == 0xFF05 {
            self.tima = v;
            Ok(false)
        } else if addr == 0xFF06 {
            self.tma = v;
            Ok(false)
        } else if addr == 0xFF07 {
            self.tac = v & 0x07;
            Ok(false)
        } else {
            Err(CoreError::Unmapped(addr))
        }
    }
}

/// `m` machine cycles add `4 * m` to the divider, modulo 65536, and leave TMA
/// and TAC alone.
pub proof fn lemma_divider_after(s: SysClk, m: nat)
    ensures
        s.advance(m).0.div == (s.div + 4 * m) % 0x10000,
        s.advance(m).0.tma == s.tma,
        s.advance(m).0.tac == s.tac,
    decreases m,
{
    if m > 0 {
        lemma_divider_after(s, (m - 1) as nat);
    }
}

} // verus!
