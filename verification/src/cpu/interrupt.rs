//! The five interrupt sources and the registers that hold one bit for each.
use vstd::prelude::*;

verus! {

/// An interrupt source, in order of priority.
#[derive(Debug, Clone, Copy, PartialEq, Eq, Structural)]
pub enum Interrupt {
    VBlank,
    Stat,
    TimerInt,
    Serial,
    Joypad,
}

impl Interrupt {
    /// The source's bit in IE and IF.
    pub open spec fn mask_spec(self) -> u8 {
        match self {
            Interrupt::VBlank => 1,
            Interrupt::Stat => 2,
            Interrupt::TimerInt => 4,
            Interrupt::Serial => 8,
            Interrupt::Joypad => 16,
        }
    }

    /// The address that the processor jumps to when it serves the source.
    pub open spec fn vector_spec(self) -> u16 {
        match self {
            Interrupt::VBlank => 0x40,
            Interrupt::Stat => 0x48,
            Interrupt::TimerInt => 0x50,
            Interrupt::Serial => 0x58,
            Interrupt::Joypad => 0x60,
        }
    }

    /// The source's name in capitals.
    pub open spec fn name_spec(self) -> Seq<char> {
        match self {
            Interrupt::VBlank => "VBLANK"@,
            Interrupt::Stat => "STAT"@,
            Interrupt::TimerInt => "TIMER"@,
            Interrupt::Serial => "SERIAL"@,
            Interrupt::Joypad => "JOYPAD"@,
        }
    }

    /// The source's name in capitals, for messages.
    pub fn name(self) -> (r: &'static str)
        ensures
            r@ == self.name_spec(),
    {
        match self {
            Interrupt::VBlank => "VBLANK",
            Interrupt::Stat => "STAT",
            Interrupt::TimerInt => "TIMER",
            Interrupt::Serial => "SERIAL",
            Interrupt::Joypad => "JOYPAD",
        }
    }

    /// The source's bit in IE and IF.
    pub fn mask(self) -> (r: u8)
        ensures
            r == self.mask_spec(),
    {
        match self {
            Interrupt::VBlank => 1,
            Interrupt::Stat => 2,
            Interrupt::TimerInt => 4,
            Interrupt::Serial => 8,
            Interrupt::Joypad => 16,
        }
    }

    /// The address that the processor jumps to when it serves the source.
    pub fn vector(self) -> (r: u16)
        ensures
            r == self.vector_spec(),
    {
        match self {
            Interrupt::VBlank => 0x40,
            Interrupt::Stat => 0x48,
            Interrupt::TimerInt => 0x50,
            Interrupt::Serial => 0x58,
            Interrupt::Joypad => 0x60,
        }
    }
}

/// An interrupt register: IE or IF.
#[derive(Debug, Clone, Copy, PartialEq, Eq, Structural)]
pub struct InterruptFlags {
    pub line: u8,
}

impl Default for InterruptFlags {
    /// A register with no bit set.
    fn default() -> (r: InterruptFlags)
        ensures
            r.line == 0,
    {
        InterruptFlags { line: 0 }
    }
}

/// The source of highest priority whose bit is set in `pending`.
pub open spec fn first_of(pending: u8) -> Option<Interrupt> {
    if pending & 1 == 1 {
        Some(Interrupt::VBlank)
    } else if pending & 2 == 2 {
        Some(Interrupt::Stat)
    } else if pending & 4 == 4 {
        Some(Interrupt::TimerInt)
    } else if pending & 8 == 8 {
        Some(Interrupt::Serial)
    } else if pending & 16 == 16 {
        Some(Interrupt::Joypad)
    } else {
        None
    }
}

impl InterruptFlags {
    /// Whether the bit of `inte` is set.
    pub open spec fn has(self, inte: Interrupt) -> bool {
        self.line & inte.mask_spec() == inte.mask_spec()
    }

    /// The register with the bit of `inte` set.
    pub open spec fn with(self, inte: Interrupt) -> InterruptFlags {
        InterruptFlags { line: self.line | inte.mask_spec() }
    }

    /// The register with the bit of `inte` set if `cond` holds.
    pub open spec fn with_if(self, cond: bool, inte: Interrupt) -> InterruptFlags {
        if cond {
            self.with(inte)
        } else {
            self
        }
    }

    /// The register with the bit of `inte` cleared.
    pub open spec fn without(self, inte: Interrupt) -> InterruptFlags {
        InterruptFlags { line: self.line & !inte.mask_spec() }
    }

    /// The source of highest priority that is set in both registers.
    pub open spec fn first_pending(self, other: InterruptFlags) -> Option<Interrupt> {
        first_of(self.line & other.line)
    }

    /// A register with no bit set.
    pub fn new() -> (r: InterruptFlags)
        ensures
            r.line == 0,
    {
        InterruptFlags { line: 0 }
    }

    /// Clears the bit of `inte`.
    pub fn clear(&mut self, inte: Interrupt)
        ensures
            *final(self) == old(self).without(inte),
    {
        self.line = self.line & !inte.mask();
    }

    /// Sets the bit of `inte`.
    pub fn set(&mut self, inte: Interrupt)
        ensures
            *final(self) == old(self).with(inte),
    {
        self.line = self.line | inte.mask();
    }

    /// Whether the bit of `inte` is set.
    pub fn read(&self, inte: Interrupt) -> (r: bool)
        ensures
            r == self.has(inte),
    {
        self.line & inte.mask() == inte.mask()
    }

    /// The source of highest priority that is set both here and in `other`:
    /// VBlank before STAT before the timer before serial before the joypad.
    pub fn read_first(&self, other: &InterruptFlags) -> (r: Option<Interrupt>)
        ensures
            r == self.first_pending(*other),
            r matches Some(i) ==> self.has(i) && other.has(i),
    {
        let pending: u8 = self.line & other.line;
        proof {
            lemma_common_bit(self.line, other.line);
        }
        if pending & 1 == 1 {
            Some(Interrupt::VBlank)
        } else if pending & 2 == 2 {
            Some(Interrupt::Stat)
        } else if pending & 4 == 4 {
            Some(Interrupt::TimerInt)
        } else if pending & 8 == 8 {
            Some(Interrupt::Serial)
        } else if pending & 16 == 16 {
            Some(Interrupt::Joypad)
        } else {
            None
        }
    }
}

/// A bit of `a & b` is set exactly when it is set in both.
pub proof fn lemma_common_bit(a: u8, b: u8)
    ensures
        forall|m: u8| #[trigger] ((a & b) & m) == m <==> a & m == m && b & m == m,
{
    assert forall|m: u8| #[trigger] ((a & b) & m) == m <==> a & m == m && b & m == m by {
        assert(((a & b) & m) == m <==> a & m == m && b & m == m) by (bit_vector);
    }
}

/// Setting a source's bit makes it pending, clearing it makes it not, and
/// neither touches the bit of another source.
pub proof fn lemma_flag_set_clear(f: InterruptFlags, i: Interrupt, j: Interrupt)
    ensures
        f.with(i).has(i),
        !f.without(i).has(i),
        i != j ==> f.with(i).has(j) == f.has(j),
        i != j ==> f.without(i).has(j) == f.has(j),
{
    let x = f.line;
    let m = i.mask_spec();
    let n = j.mask_spec();
    assert((x | m) & m == m) by (bit_vector);
    assert((x & !m) & m != m) by (bit_vector)
        requires
            m != 0,
    ;
    if i != j {
        assert(m & n == 0) by (bit_vector)
            requires
                m == 1 || m == 2 || m == 4 || m == 8 || m == 16,
                n == 1 || n == 2 || n == 4 || n == 8 || n == 16,
                m != n,
        ;
        assert(((x | m) & n == n) == (x & n == n)) by (bit_vector)
            requires
                m & n == 0,
        ;
        assert(((x & !m) & n == n) == (x & n == n)) by (bit_vector)
            requires
                m & n == 0,
        ;
    }
}

} // verus!
