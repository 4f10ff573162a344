//! The memory bus: it routes each address to the cartridge, the pixel unit,
//! work RAM, high RAM or an I/O register, and it advances the peripherals.
use vstd::prelude::*;
use crate::cpu::interrupt::{Interrupt, InterruptFlags};
use crate::cpu::timing::SysClk;
use crate::error::CoreError;
use crate::mbc::{make_mbc, Mbc, MbcState};
use crate::ppu::{Ppu, PpuState};

verus! {

/// The memory bus and everything behind it.
pub struct Mmu {
    pub cart: Mbc,
    pub ppu: Ppu,
    pub wram: Vec<u8>,
    pub hram: Vec<u8>,
    pub timer: SysClk,
    /// IF: the five request bits.
    pub iflags: InterruptFlags,
    /// IE.
    pub ienable: InterruptFlags,
    pub sb: u8,
    /// SC bit 7: a serial transfer was started.
    pub sc_enable: bool,
    /// SC bit 1.
    pub sc_speed: bool,
    /// SC bit 0.
    pub sc_select: bool,
}

/// The memory bus as a mathematical value.
#[verifier::ext_equal]
pub struct MmuState {
    pub cart: MbcState,
    pub ppu: PpuState,
    pub wram: Seq<u8>,
    pub hram: Seq<u8>,
    pub timer: SysClk,
    pub iflags: InterruptFlags,
    pub ienable: InterruptFlags,
    pub sb: u8,
    pub sc_enable: bool,
    pub sc_speed: bool,
    pub sc_select: bool,
}

impl View for Mmu {
    type V = MmuState;

    open spec fn view(&self) -> MmuState {
        MmuState {
            cart: self.cart@,
            ppu: self.ppu@,
            wram: self.wram@,
            hram: self.hram@,
            timer: self.timer,
            iflags: self.iflags,
            ienable: self.ienable,
            sb: self.sb,
            sc_enable: self.sc_enable,
            sc_speed: self.sc_speed,
            sc_select: self.sc_select,
        }
    }
}

/// Whether `addr` lies in high RAM, 0xFF80 to 0xFFFE.
pub open spec fn in_hram(addr: u16) -> bool {
    0xFF80 <= addr < 0xFFFF
}

/// What SC reads as: the three stored bits, and the five unused bits set.
pub open spec fn sc_byte(enable: bool, speed: bool, select: bool) -> u8 {
    (if enable {
        0x80u8
    } else {
        0
    }) | 0x7C | (if speed {
        0x02u8
    } else {
        0
    }) | (if select {
        0x01u8
    } else {
        0
    })
}

impl MmuState {
    /// The parts are well formed, work RAM has 8 KiB and high RAM 127 bytes.
    pub open spec fn wf(self) -> bool {
        &&& self.cart.wf()
        &&& self.ppu.wf()
        &&& self.wram.len() == 0x2000
        &&& self.hram.len() == 0x7F
    }

    /// A bus with zeroed RAM and registers around the given parts.
    pub open spec fn around(cart: MbcState, ppu: PpuState, timer: SysClk) -> MmuState {
        MmuState {
            cart,
            ppu,
            wram: Seq::new(0x2000, |i: int| 0u8),
            hram: Seq::new(0x7F, |i: int| 0u8),
            timer,
            iflags: InterruptFlags { line: 0 },
            ienable: InterruptFlags { line: 0 },
            sb: 0,
            sc_enable: false,
            sc_speed: false,
            sc_select: false,
        }
    }

    /// The bus in which everything but the cartridge is zero.
    pub open spec fn zeroed(cart: MbcState) -> MmuState {
        Self::around(cart, PpuState::zeroed(), SysClk { div: 0, tma: 0, tima: 0, tac: 0 })
    }

    /// The bus as the boot program leaves it: the pixel unit booted, the
    /// divider at 0xABCC, SC reading 0x7E and IF reading 0xE1.
    pub open spec fn booted(cart: MbcState) -> MmuState {
        MmuState {
            iflags: InterruptFlags { line: 0x01 },
            sc_speed: true,
            ..Self::around(
                cart,
                PpuState::booted(),
                SysClk { div: 0xABCC, tma: 0, tima: 0, tac: 0 },
            )
        }
    }

    /// What SC reads as.
    pub open spec fn read_sc(self) -> u8 {
        sc_byte(self.sc_enable, self.sc_speed, self.sc_select)
    }

    /// The bus after `sc` is written to SC.
    pub open spec fn serial_control(self, sc: u8) -> MmuState {
        MmuState {
            sc_enable: sc & 0x80 != 0,
            sc_speed: sc & 0x02 != 0,
            sc_select: sc & 0x01 != 0,
            ..self
        }
    }

    /// What `addr` holds, with no transfer in the way. The range from 0xE000
    /// to 0xFDFF is not mapped; an I/O address without a register reads 0xFF.
    #[verifier::opaque]
    pub open spec fn bus_read(self, addr: u16) -> Result<u8, CoreError> {
        if addr < 0x8000 {
            self.cart.read_byte(addr)
        } else if addr < 0xA000 {
            self.ppu.read_byte(addr)
        } else if addr < 0xC000 {
            self.cart.read_byte(addr)
        } else if addr < 0xE000 {
            Ok(self.wram[addr - 0xC000])
        } else if addr < 0xFE00 {
            Err(CoreError::Unmapped(addr))
        } else if addr < 0xFF00 {
            self.ppu.read_byte(addr)
        } else if addr == 0xFF01 {
            Ok(self.sb)
        } else if addr == 0xFF02 {
            Ok(self.read_sc())
        } else if 0xFF04 <= addr <= 0xFF07 {
            self.timer.read_spec(addr)
        } else if addr == 0xFF0F {
            Ok(self.iflags.line | 0xE0)
        } else if 0xFF40 <= addr <= 0xFF4B {
            self.ppu.read_byte(addr)
        } else if addr < 0xFF80 {
            Ok(0xFF)
        } else if addr < 0xFFFF {
            Ok(self.hram[addr - 0xFF80])
        } else {
            Ok(self.ienable.line)
        }
    }

    /// What the processor reads at `addr`. While a sprite attribute transfer
    /// is in progress everything outside high RAM reads 0xFF.
    pub open spec fn read_byte(self, addr: u16) -> Result<u8, CoreError> {
        if self.ppu.dma && !in_hram(addr) {
            Ok(0xFF)
        } else {
            self.bus_read(addr)
        }
    }

    /// The little-endian word that the processor reads at `addr`.
    pub open spec fn read_word(self, addr: u16) -> Result<u16, CoreError> {
        match self.read_byte(addr) {
            Err(e) => Err(e),
            Ok(lo) => match self.read_byte(((addr + 1) % 0x10000) as u16) {
                Err(e) => Err(e),
                Ok(hi) => Ok((hi * 256 + lo) as u16),
            },
        }
    }

    /// The bus after the processor writes `v` at `addr`.
    #[verifier::opaque]
    pub open spec fn write_byte(self, addr: u16, v: u8) -> Result<MmuState, CoreError> {
        if addr < 0x8000 || 0xA000 <= addr < 0xC000 {
            match self.cart.write_byte(addr, v) {
                Ok(cart) => Ok(MmuState { cart, ..self }),
                Err(e) => Err(e),
            }
        } else if addr < 0xA000 || 0xFE00 <= addr < 0xFF00 || 0xFF40 <= addr <= 0xFF4B {
            match self.ppu.write_byte(addr, v) {
                Ok(ppu) => Ok(MmuState { ppu, ..self }),
                Err(e) => Err(e),
            }
        } else if addr < 0xE000 {
            Ok(MmuState { wram: self.wram.update(addr - 0xC000, v), ..self })
        } else if addr < 0xFE00 {
            Err(CoreError::Unmapped(addr))
        } else if addr == 0xFF01 {
            Ok(MmuState { sb: v, ..self })
        } else if addr == 0xFF02 {
            Ok(self.serial_control(v))
        } else if 0xFF04 <= addr <= 0xFF07 {
            match self.timer.write_spec(addr, v) {
                Ok(t) => Ok(
                    MmuState {
                        timer: t.0,
                        iflags: self.iflags.with_if(t.1, Interrupt::TimerInt),
                        ..self
                    },
                ),
                Err(e) => Err(e),
            }
        } else if addr == 0xFF0F {
            Ok(MmuState { iflags: InterruptFlags { line: v & 0x1F }, ..self })
        } else if addr < 0xFF80 {
            Ok(self)
        } else if addr < 0xFFFF {
            Ok(MmuState { hram: self.hram.update(addr - 0xFF80, v), ..self })
        } else {
            Ok(MmuState { ienable: InterruptFlags { line: v }, ..self })
        }
    }

    /// The byte that the transfer engine fetches from `addr`. It reads the
    /// cartridge and video memory past every lock, and from 0xC000 up it
    /// reads work RAM, whose 8 KiB repeat to the top of the address space.
    pub open spec fn dma_source(self, addr: u16) -> u8 {
        if addr < 0x8000 || 0xA000 <= addr < 0xC000 {
            match self.cart.read_byte(addr) {
                Ok(v) => v,
                Err(_) => 0xFF,
            }
        } else if addr < 0xA000 {
            self.ppu.vram[addr - 0x8000]
        } else {
            self.wram[(addr % 0x2000) as int]
        }
    }

    /// How many bytes a transfer at byte `count` copies in `m` machine cycles:
    /// one for each cycle, up to the 160th.
    pub open spec fn dma_bytes(count: nat, m: nat) -> nat {
        if count + m < 160 {
            m
        } else {
            (160 - count) as nat
        }
    }

    /// The bus after the transfer engine has run for `m` machine cycles: each
    /// cycle copies the next byte from the source page to sprite attribute
    /// memory, and the 160th ends the transfer.
    pub open spec fn dma_run(self, m: nat) -> MmuState {
        if !self.ppu.dma {
            self
        } else {
            let c = self.ppu.dma_count as nat;
            let k = Self::dma_bytes(c, m);
            MmuState {
                ppu: PpuState {
                    oam: Seq::new(
                        160,
                        |i: int|
                            if c <= i < c + k {
                                self.dma_source(((self.ppu.dma_src + i) % 0x10000) as u16)
                            } else {
                                self.ppu.oam[i]
                            },
                    ),
                    dma: c + k < 160,
                    dma_count: if c + k < 160 {
                        (c + k) as u8
                    } else {
                        0
                    },
                    ..self.ppu
                },
                ..self
            }
        }
    }

    /// The bus after `m` machine cycles: the pixel unit and the clock
    /// advance, the transfer engine runs, and the requests that were raised
    /// go into IF: VBlank when line 144 was entered, STAT when its line rose,
    /// the timer when TIMA overflowed.
    #[verifier::opaque]
    pub open spec fn cycle(self, m: nat) -> MmuState {
        let ppu = self.ppu.cycle(m);
        let clock = self.timer.advance(m);
        let moved = MmuState { ppu, timer: clock.0, ..self }.dma_run(m);
        MmuState {
            iflags: self.iflags.with_if(ppu.vblank, Interrupt::VBlank).with_if(
                !self.ppu.int_line && ppu.int_line,
                Interrupt::Stat,
            ).with_if(clock.1, Interrupt::TimerInt),
            ..moved
        }
    }

    /// The bus after the processor writes the word `w` at `addr`, low byte
    /// first. Where a byte falls on an unmapped address, the error comes
    /// with the bus as the bytes before it left it.
    pub open spec fn write_word(self, addr: u16, w: u16) -> Result<MmuState, (MmuState, CoreError)> {
        match self.write_byte(addr, (w % 256) as u8) {
            Err(e) => Err((self, e)),
            Ok(s) => match s.write_byte(((addr + 1) % 0x10000) as u16, (w / 256) as u8) {
                Err(e) => Err((s, e)),
                Ok(t) => Ok(t),
            },
        }
    }
}

impl Mmu {
    /// A bus around the given parts, with zeroed RAM and registers.
    fn around(cart: Mbc, ppu: Ppu, timer: SysClk) -> (r: Mmu)
        requires
            cart@.wf(),
            ppu@.wf(),
        ensures
            r@ == MmuState::around(cart@, ppu@, timer),
            r@.wf(),
    {
        let r = Mmu {
            cart,
            ppu,
            wram: vec![0u8; 0x2000],
            hram: vec![0u8; 0x7F],
            timer,
            iflags: InterruptFlags::new(),
            ienable: InterruptFlags::new(),
            sb: 0,
            sc_enable: false,
            sc_speed: false,
            sc_select: false,
        };
        assert(r@ =~= MmuState::around(cart@, ppu@, timer));
        r
    }

    /// A bus over the cartridge that the image `data` describes, everything
    /// else zero.
    pub fn new(data: Vec<u8>) -> (r: Result<Mmu, CoreError>)
        ensures
            match MbcState::load(data@) {
                Ok(c) => r is Ok && r->Ok_0@ == MmuState::zeroed(c) && r->Ok_0@.wf(),
                Err(e) => r is Err && r->Err_0 == e,
            },
    {
        let cart = make_mbc(data)?;
        Ok(Mmu::around(cart, Ppu::new(), SysClk::new()))
    }

    /// A bus over the cartridge that the image `data` describes, in the
    /// state that the boot program leaves.
    pub fn boot(data: Vec<u8>) -> (r: Result<Mmu, CoreError>)
        ensures
            match MbcState::load(data@) {
                Ok(c) => r is Ok && r->Ok_0@ == MmuState::booted(c) && r->Ok_0@.wf(),
                Err(e) => r is Err && r->Err_0 == e,
            },
    {
        let cart = make_mbc(data)?;
        let mut r = Mmu::around(cart, Ppu::boot(), SysClk::boot());
        r.sc_speed = true;
        r.iflags.line = 0x01;
        Ok(r)
    }

    /// Whether the bus may be used: its parts are valid, work RAM has 8 KiB
    /// and high RAM 127 bytes.
    pub fn is_valid(&self) -> (r: bool)
        ensures
            r == self@.wf(),
    {
        self.cart.is_valid() && self.ppu.is_valid() && self.wram.len() == 0x2000
            && self.hram.len() == 0x7F
    }

    /// Reads SC.
    pub fn read_sc(&self) -> (r: u8)
        ensures
            r == self@.read_sc(),
    {
        let e: u8 = if self.sc_enable {
            0x80
        } else {
            0
        };
        let s: u8 = if self.sc_speed {
            0x02
        } else {
            0
        };
        let c: u8 = if self.sc_select {
            0x01
        } else {
            0
        };
        e | 0x7C | s | c
    }

    /// Writes SC.
    pub fn serial_control(&mut self, sc: u8)
        ensures
            final(self)@ == old(self)@.serial_control(sc),
    {
        self.sc_enable = sc & 0x80 != 0;
        self.sc_speed = sc & 0x02 != 0;
        self.sc_select = sc & 0x01 != 0;
    }

    /// Takes the byte of a finished serial transfer, if there is one: the
    /// transfer flag is lowered and the serial interrupt is requested.
    pub fn take_serial(&mut self) -> (r: Option<u8>)
        ensures
            old(self).sc_enable ==> r == Some(old(self).sb) && final(self)@ == (MmuState {
                sc_enable: false,
                iflags: old(self).iflags.with(Interrupt::Serial),
                ..old(self)@
            }),
            !old(self).sc_enable ==> r.is_none() && final(self)@ == old(self)@,
    {
        if self.sc_enable {
            self.sc_enable = false;
            self.iflags.set(Interrupt::Serial);
            Some(self.sb)
        } else {
            None
        }
    }

    /// Advances the pixel unit, the clock and the transfer engine by `cycles`
    /// machine cycles and latches the interrupts that they request. A
    /// transfer in progress moves on by one byte a cycle and ends with its
    /// 160th byte.
    pub fn cycle(&mut self, cycles: u16)
        requires
            old(self)@.wf(),
        ensures
            final(self)@ == old(self)@.cycle(cycles as nat),
            final(self)@.wf(),
            final(self).ppu.dma == (old(self).ppu.dma && old(self).ppu.dma_count + cycles < 160),
            final(self).ppu.dma ==> final(self).ppu.dma_count == old(self).ppu.dma_count + cycles,
            final(self)@.cart == old(self)@.cart,
            final(self)@.wram == old(self)@.wram,
            final(self)@.hram == old(self)@.hram,
    {
        proof {
            lemma_dma_progress(old(self)@, cycles as nat);
            reveal(MmuState::cycle);
        }
        let stat: bool = self.ppu.int_line;
        self.ppu.cycle(cycles);
        let overflow: bool = self.timer.cycle(cycles);
        self.dma_run(cycles);
        if self.ppu.vblank {
            self.iflags.set(Interrupt::VBlank);
        }
        if !stat && self.ppu.int_line {
            self.iflags.set(Interrupt::Stat);
        }
        if overflow {
            self.iflags.set(Interrupt::TimerInt);
        }
    }

    /// Fetches the byte that the transfer engine reads at `addr`.
    pub fn dma_source(&self, addr: u16) -> (r: u8)
        requires
            self@.wf(),
        ensures
            r == self@.dma_source(addr),
    {
        if addr < 0x8000 || (0xA000 <= addr && addr < 0xC000) {
            match self.cart.read_byte(addr) {
                Ok(v) => v,
                Err(_) => 0xFF,
            }
        } else if addr < 0xA000 {
            self.ppu.read_vram(addr)
        } else {
            self.wram[(addr % 0x2000) as usize]
        }
    }

    /// Runs the transfer engine for `cycles` machine cycles.
    pub fn dma_run(&mut self, cycles: u16)
        requires
            old(self)@.wf(),
        ensures
            final(self)@ == old(self)@.dma_run(cycles as nat),
            final(self)@.wf(),
    {
        if !self.ppu.dma {
            return ;
        }
        let first: u8 = self.ppu.dma_count;
        let mut count: u8 = first;
        let mut left: u16 = cycles;
        while left > 0 && count < 160
            invariant
                first <= count <= 160,
                count - first == cycles - left,
                self@.wf(),
                self@ == (MmuState {
                    ppu: PpuState { oam: self.ppu.oam@, ..old(self)@.ppu },
                    ..old(self)@
                }),
                forall|i: int|
                    0 <= i < 160 ==> #[trigger] self.ppu.oam@[i] == (if first <= i < count {
                        old(self)@.dma_source(((old(self).ppu.dma_src + i) % 0x10000) as u16)
                    } else {
                        old(self)@.ppu.oam[i]
                    }),
            decreases left,
        {
            let byte: u8 = self.dma_source(self.ppu.dma_src.wrapping_add(count as u16));
            self.ppu.dma_transfer(byte, count);
            count = count + 1;
            left = left - 1;
        }
        if count >= 160 {
            self.ppu.dma = false;
            self.ppu.dma_count = 0;
        } else {
            self.ppu.dma_count = count;
        }
        assert(self.ppu.oam@ =~= old(self)@.dma_run(cycles as nat).ppu.oam);
    }

    /// Reads what `addr` holds, with no transfer in the way.
    pub fn bus_read(&self, addr: u16) -> (r: Result<u8, CoreError>)
        requires
            self@.wf(),
        ensures
            r == self@.bus_read(addr),
            r is Err <==> 0xE000 <= addr < 0xFE00,
            r matches Err(e) ==> e == CoreError::Unmapped(addr),
    {
        proof {
            reveal(MmuState::bus_read);
        }
        if addr < 0x8000 {
            self.cart.read_byte(addr)
        } else if addr < 0xA000 {
            self.ppu.read_byte(addr)
        } else if addr < 0xC000 {
            self.cart.read_byte(addr)
        } else if addr < 0xE000 {
            Ok(self.wram[(addr - 0xC000) as usize])
        } else if addr < 0xFE00 {
            Err(CoreError::Unmapped(addr))
        } else if addr < 0xFF00 {
            self.ppu.read_byte(addr)
        } else if addr == 0xFF01 {
            Ok(self.sb)
        } else if addr == 0xFF02 {
            Ok(self.read_sc())
        } else if 0xFF04 <= addr && addr <= 0xFF07 {
            self.timer.read_byte(addr)
        } else if addr == 0xFF0F {
            Ok(self.iflags.line | 0xE0)
        } else if 0xFF40 <= addr && addr <= 0xFF4B {
            self.ppu.read_byte(addr)
        } else if addr < 0xFF80 {
            Ok(0xFF)
        } else if addr < 0xFFFF {
            Ok(self.hram[(addr - 0xFF80) as usize])
        } else {
            Ok(self.ienable.line)
        }
    }

    /// Reads the byte that the processor sees at `addr`. It fails on the
    /// unmapped range from 0xE000 to 0xFDFF, unless a transfer hides it.
    pub fn read_byte(&self, addr: u16) -> (r: Result<u8, CoreError>)
        requires
            self@.wf(),
        ensures
            r == self@.read_byte(addr),
            r is Err <==> 0xE000 <= addr < 0xFE00 && !self.ppu.dma,
            r matches Err(e) ==> e == CoreError::Unmapped(addr),
    {
        if self.ppu.dma && !(0xFF80 <= addr && addr < 0xFFFF) {
            Ok(0xFF)
        } else {
            self.bus_read(addr)
        }
    }

    /// Reads the little-endian word that the processor sees at `addr`.
    pub fn read_word(&self, addr: u16) -> (r: Result<u16, CoreError>)
        requires
            self@.wf(),
        ensures
            r == self@.read_word(addr),
    {
        let lo: u8 = self.read_byte(addr)?;
        let hi: u8 = self.read_byte(addr.wrapping_add(1))?;
        Ok((hi as u16) * 256 + lo as u16)
    }

    /// Writes `v` at `addr` for the processor. It fails, and changes
    /// nothing, on the unmapped range from 0xE000 to 0xFDFF.
    pub fn write_byte(&mut self, addr: u16, v: u8) -> (r: Result<(), CoreError>)
        requires
            old(self)@.wf(),
        ensures
            match old(self)@.write_byte(addr, v) {
                Ok(s) => r == Ok::<(), CoreError>(()) && final(self)@ == s,
                Err(e) => r == Err::<(), CoreError>(e) && final(self)@ == old(self)@,
            },
            r is Err <==> 0xE000 <= addr < 0xFE00,
            r matches Err(e) ==> e == CoreError::Unmapped(addr),
            final(self)@.wf(),
    {
        proof {
            reveal(MmuState::write_byte);
        }
        if addr < 0x8000 || (0xA000 <= addr && addr < 0xC000) {
            self.cart.write_byte(addr, v)
        } else if addr < 0xA000 || (0xFE00 <= addr && addr < 0xFF00) || (0xFF40 <= addr && addr
            <= 0xFF4B) {
            self.ppu.write_byte(addr, v)
        } else if addr < 0xE000 {
            self.wram[(addr - 0xC000) as usize] = v;
            Ok(())
        } else if addr < 0xFE00 {
            Err(CoreError::Unmapped(addr))
        } else if addr == 0xFF01 {
            self.sb = v;
            Ok(())
        } else if addr == 0xFF02 {
            self.serial_control(v);
            Ok(())
        } else if 0xFF04 <= addr && addr <= 0xFF07 {
            let overflow: bool = self.timer.write_byte(addr, v)?;
            if overflow {
                self.iflags.set(Interrupt::TimerInt);
            }
            Ok(())
        } else if addr == 0xFF0F {
            self.iflags.line = v & 0x1F;
            Ok(())
        } else if addr < 0xFF80 {
            Ok(())
        } else if addr < 0xFFFF {
            self.hram[(addr - 0xFF80) as usize] = v;
            Ok(())
        } else {
            self.ienable.line = v;
            Ok(())
        }
    }

    /// Writes the word `w` at `addr` for the processor, low byte first. Where
    /// the second byte falls on an unmapped address the first stays written.
    pub fn write_word(&mut self, addr: u16, w: u16) -> (r: Result<(), CoreError>)
        requires
            old(self)@.wf(),
        ensures
            match old(self)@.write_word(addr, w) {
                Ok(s) => r == Ok::<(), CoreError>(()) && final(self)@ == s,
                Err(f) => r == Err::<(), CoreError>(f.1) && final(self)@ == f.0,
            },
            final(self)@.wf(),
    {
        self.write_byte(addr, (w % 256) as u8)?;
        self.write_byte(addr.wrapping_add(1), (w / 256) as u8)
    }
}

/// The sum of the cycle counts in `ms`.
pub open spec fn total_cycles(ms: Seq<nat>) -> nat
    decreases ms.len(),
{
    if ms.len() == 0 {
        0
    } else {
        total_cycles(ms.drop_last()) + ms.last()
    }
}

/// The bus after one call of `cycle` for each count in `ms`, in order.
pub open spec fn run_cycles(s: MmuState, ms: Seq<nat>) -> MmuState
    decreases ms.len(),
{
    if ms.len() == 0 {
        s
    } else {
        run_cycles(s, ms.drop_last()).cycle(ms.last())
    }
}

/// The byte of the source page that belongs at offset `i` of sprite
/// attribute memory.
pub open spec fn dma_byte(s: MmuState, i: int) -> u8 {
    s.dma_source(((s.ppu.dma_src + i) % 0x10000) as u16)
}

/// `m` machine cycles keep the bus well formed, change nothing that the
/// transfer engine reads, and move a transfer on by `m` bytes: the bytes from
/// the old count up to the new one are copied, the others stay, and the
/// transfer ends with the 160th byte.
pub proof fn lemma_dma_progress(s: MmuState, m: nat)
    requires
        s.wf(),
    ensures
        s.cycle(m).wf(),
        s.cycle(m).ppu.dma_src == s.ppu.dma_src,
        forall|a: u16| s.cycle(m).dma_source(a) == s.dma_source(a),
        !s.ppu.dma ==> !s.cycle(m).ppu.dma && s.cycle(m).ppu.oam == s.ppu.oam && s.cycle(
            m,
        ).ppu.dma_count == s.ppu.dma_count,
        s.ppu.dma ==> {
            let t = s.cycle(m);
            let c = s.ppu.dma_count as int;
            &&& t.ppu.dma == (c + m < 160)
            &&& t.ppu.dma_count == (if c + m < 160 {
                c + m
            } else {
                0
            })
            &&& forall|i: int| c <= i < 160 && i < c + m ==> t.ppu.oam[i] == dma_byte(s, i)
            &&& forall|i: int| 0 <= i < 160 && !(c <= i < c + m) ==> t.ppu.oam[i] == s.ppu.oam[i]
        },
{
    reveal(MmuState::cycle);
    crate::ppu::lemma_cycle_keeps_memory(s.ppu, m);
    crate::ppu::lemma_cycle_wf(s.ppu, m);
    let ppu = s.ppu.cycle(m);
    let mid = MmuState { ppu, timer: s.timer.advance(m).0, ..s };
    assert forall|a: u16| mid.dma_source(a) == s.dma_source(a) by {}
    assert forall|a: u16| s.cycle(m).dma_source(a) == s.dma_source(a) by {
        assert(mid.dma_run(m).dma_source(a) == mid.dma_source(a));
    }
    if !s.ppu.dma {
        assert(s.cycle(m).ppu.oam =~= s.ppu.oam);
    }
}

/// Whatever calls of `cycle` the machine cycles are split over, a transfer
/// that has copied `count` bytes is in progress until 160 machine cycles have
/// passed since its start, and not after; the bytes copied so far are those
/// of the source page, and when it has ended all 160 bytes of sprite
/// attribute memory are.
pub proof fn lemma_dma_duration(s: MmuState, ms: Seq<nat>)
    requires
        s.wf(),
        s.ppu.dma,
    ensures
        ({
            let t = run_cycles(s, ms);
            let c = s.ppu.dma_count as int;
            let n = c + total_cycles(ms);
            &&& t.wf()
            &&& t.ppu.dma == (n < 160)
            &&& n < 160 ==> t.ppu.dma_count == n
            &&& forall|i: int| c <= i < 160 && i < n ==> t.ppu.oam[i] == dma_byte(s, i)
            &&& forall|a: u16| t.dma_source(a) == s.dma_source(a)
            &&& t.ppu.dma_src == s.ppu.dma_src
        }),
    decreases ms.len(),
{
    if ms.len() > 0 {
        let before = run_cycles(s, ms.drop_last());
        lemma_dma_duration(s, ms.drop_last());
        lemma_dma_progress(before, ms.last());
        let t = run_cycles(s, ms);
        let c = s.ppu.dma_count as int;
        let p = c + total_cycles(ms.drop_last());
        let n = c + total_cycles(ms);
        assert forall|i: int| c <= i < 160 && i < n implies t.ppu.oam[i] == dma_byte(s, i) by {
            if i < p {
            } else {
                assert(dma_byte(before, i) == dma_byte(s, i));
            }
        }
    }
}

/// A write of `page` to 0xFF46 starts a transfer that lasts exactly 160
/// machine cycles, however they are split over calls of `cycle`, and leaves
/// in sprite attribute memory the 160 bytes of the source page as they were
/// when it started.
pub proof fn lemma_dma_transfer(s: MmuState, page: u8, ms: Seq<nat>)
    requires
        s.wf(),
    ensures
        s.write_byte(0xFF46, page) is Ok,
        ({
            let started = s.write_byte(0xFF46, page)->Ok_0;
            let t = run_cycles(started, ms);
            &&& started.ppu.dma
            &&& t.ppu.dma == (total_cycles(ms) < 160)
            &&& total_cycles(ms) >= 160 ==> forall|i: int|
                0 <= i < 160 ==> t.ppu.oam[i] == s.dma_source((page * 256 + i) as u16)
        }),
{
    reveal(MmuState::write_byte);
    let started = s.write_byte(0xFF46, page)->Ok_0;
    assert(started.ppu == s.ppu.write_byte(0xFF46, page)->Ok_0);
    assert(started.wf());
    lemma_dma_duration(started, ms);
    let t = run_cycles(started, ms);
    if total_cycles(ms) >= 160 {
        assert forall|i: int| 0 <= i < 160 implies t.ppu.oam[i] == s.dma_source(
            (page * 256 + i) as u16,
        ) by {
            assert(started.ppu.dma_src == page * 256);
            assert((page * 256 + i) % 0x10000 == page * 256 + i);
            assert(t.ppu.oam[i] == dma_byte(started, i));
            assert(started.dma_source((page * 256 + i) as u16) == s.dma_source(
                (page * 256 + i) as u16,
            ));
        }
    }
}

/// What a register reads as after `v` has been written to it: the bits that
/// it stores are those of `v`, and the bits that it lacks read as set.
pub open spec fn register_readback(addr: u16, v: u8) -> u8 {
    if addr == 0xFF02 {
        (v & 0x83) | 0x7C
    } else if addr == 0xFF07 {
        (v & 0x07) | 0xF8
    } else if addr == 0xFF0F {
        (v & 0x1F) | 0xE0
    } else {
        v
    }
}

/// The I/O registers that store what is written to them, whole or in part:
/// SB, SC, TIMA, TMA, TAC, IF, LCDC, SCY, SCX, LYC, the three palettes, WY,
/// WX and IE.
pub open spec fn is_storage_register(addr: u16) -> bool {
    ||| addr == 0xFF01
    ||| addr == 0xFF02
    ||| addr == 0xFF05
    ||| addr == 0xFF06
    ||| addr == 0xFF07
    ||| addr == 0xFF0F
    ||| addr == 0xFF40
    ||| addr == 0xFF42
    ||| addr == 0xFF43
    ||| addr == 0xFF45
    ||| 0xFF47 <= addr <= 0xFF4B
    ||| addr == 0xFFFF
}

/// With no transfer in progress, a byte written to a storage register reads
/// back: the stored bits as written, the missing bits as 1.
pub proof fn lemma_register_round_trip(s: MmuState, addr: u16, v: u8)
    requires
        s.wf(),
        !s.ppu.dma,
        is_storage_register(addr),
    ensures
        s.write_byte(addr, v) is Ok,
        s.write_byte(addr, v)->Ok_0.read_byte(addr) == Ok::<u8, CoreError>(
            register_readback(addr, v),
        ),
{
    reveal(MmuState::write_byte);
    reveal(MmuState::bus_read);
    if addr == 0xFF02 {
        assert(sc_byte(v & 0x80 != 0, v & 0x02 != 0, v & 0x01 != 0) == (v & 0x83) | 0x7C)
            by (bit_vector);
    }
}

/// STAT through the bus, with no transfer in progress: the four interrupt
/// selects read back as written, bit 7 reads as set, and the mode and the
/// match bit stay.
pub proof fn lemma_stat_register_round_trip(s: MmuState, v: u8)
    requires
        s.wf(),
        !s.ppu.dma,
    ensures
        s.write_byte(0xFF41, v) is Ok,
        ({
            let t = s.write_byte(0xFF41, v)->Ok_0;
            let before = s.read_byte(0xFF41)->Ok_0;
            let after = t.read_byte(0xFF41)->Ok_0;
            &&& t.read_byte(0xFF41) is Ok
            &&& after & 0x78 == v & 0x78
            &&& after & 0x80 == 0x80
            &&& after & 0x07 == before & 0x07
        }),
{
    reveal(MmuState::write_byte);
    reveal(MmuState::bus_read);
    crate::ppu::lemma_stat_round_trip(s.ppu, v);
}

/// The transfer register through the bus: the written page reads back once
/// the transfer that the write started has ended. While it runs, the
/// register reads 0xFF like everything outside high RAM.
pub proof fn lemma_dma_register_round_trip(s: MmuState, page: u8, ms: Seq<nat>)
    requires
        s.wf(),
        total_cycles(ms) >= 160,
    ensures
        s.write_byte(0xFF46, page) is Ok,
        s.write_byte(0xFF46, page)->Ok_0.read_byte(0xFF46) == Ok::<u8, CoreError>(0xFF),
        run_cycles(s.write_byte(0xFF46, page)->Ok_0, ms).read_byte(0xFF46) == Ok::<u8, CoreError>(
            page,
        ),
{
    reveal(MmuState::write_byte);
    reveal(MmuState::bus_read);
    let started = s.write_byte(0xFF46, page)->Ok_0;
    lemma_dma_duration(started, ms);
}

/// Whether `addr` lies in work RAM or in high RAM: memory that holds what
/// is written to it and that no other part of the machine changes.
pub open spec fn is_ram(addr: u16) -> bool {
    0xC000 <= addr < 0xE000 || in_hram(addr)
}

/// A write keeps the bus well formed.
pub proof fn lemma_write_keeps_wf(s: MmuState, addr: u16, v: u8)
    requires
        s.wf(),
    ensures
        s.write_byte(addr, v) matches Ok(t) ==> t.wf(),
{
    reveal(MmuState::write_byte);
}

/// A byte written to work RAM or high RAM is what the bus then holds there;
/// the write changes no other address, and no register of the machine.
pub proof fn lemma_ram_write_read(s: MmuState, addr: u16, v: u8, other: u16)
    requires
        s.wf(),
        is_ram(addr),
    ensures
        s.write_byte(addr, v) is Ok,
        ({
            let t = s.write_byte(addr, v)->Ok_0;
            &&& t.wf()
            &&& t.bus_read(addr) == Ok::<u8, CoreError>(v)
            &&& other != addr ==> t.bus_read(other) == s.bus_read(other)
            &&& t.ppu == s.ppu
            &&& t.cart == s.cart
            &&& t.timer == s.timer
            &&& t.iflags == s.iflags
            &&& t.ienable == s.ienable
        }),
{
    reveal(MmuState::write_byte);
    reveal(MmuState::bus_read);
}

/// While the pixel unit draws with the LCD on, video memory is closed to
/// the processor: a read gives 0xFF and a write changes nothing. While it
/// scans or draws, the same holds of sprite attribute memory.
pub proof fn lemma_video_lockout(s: MmuState, addr: u16, v: u8)
    requires
        s.wf(),
        s.ppu.lcd_on(),
        (0x8000 <= addr < 0xA000 && s.ppu.ppu_mode == crate::ppu::PpuMode::Mode3) || (0xFE00
            <= addr < 0xFEA0 && (s.ppu.ppu_mode == crate::ppu::PpuMode::Mode2 || s.ppu.ppu_mode
            == crate::ppu::PpuMode::Mode3)),
    ensures
        s.read_byte(addr) == Ok::<u8, CoreError>(0xFF),
        s.write_byte(addr, v) == Ok::<MmuState, CoreError>(s),
{
    reveal(MmuState::write_byte);
    reveal(MmuState::bus_read);
}

/// While a sprite attribute transfer is in progress, the processor reads
/// 0xFF everywhere but in high RAM, where it reads what is stored.
pub proof fn lemma_transfer_lockout(s: MmuState, addr: u16)
    requires
        s.wf(),
        s.ppu.dma,
    ensures
        !in_hram(addr) ==> s.read_byte(addr) == Ok::<u8, CoreError>(0xFF),
        in_hram(addr) ==> s.read_byte(addr) == Ok::<u8, CoreError>(s.hram[addr - 0xFF80]),
{
    reveal(MmuState::bus_read);
}

/// The processor's accesses fail exactly on the unmapped range from 0xE000
/// to 0xFDFF: a write always, a read unless a transfer hides the range.
pub proof fn lemma_unmapped_range(s: MmuState, addr: u16, v: u8)
    requires
        s.wf(),
    ensures
        s.write_byte(addr, v) is Err <==> 0xE000 <= addr < 0xFE00,
        s.write_byte(addr, v) matches Err(e) ==> e == CoreError::Unmapped(addr),
        s.read_byte(addr) is Err <==> 0xE000 <= addr < 0xFE00 && !s.ppu.dma,
        s.read_byte(addr) matches Err(e) ==> e == CoreError::Unmapped(addr),
{
    reveal(MmuState::write_byte);
    reveal(MmuState::bus_read);
}

} // verus!
