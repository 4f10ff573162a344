//! The pixel unit: video memory, sprite attribute memory, the LCD registers,
//! and the scanline state machine that fills the frame buffer.
use vstd::prelude::*;
use crate::error::CoreError;
use crate::utils::{bit, bit_of};

verus! {

/// Dots in one scanline.
pub const DOTS_PER_LINE: u16 = 456;

/// Scanlines in one frame, the ten of the vertical blank included.
pub const LINES_PER_FRAME: u8 = 154;

/// Bytes in the frame buffer.
pub const FRAME_BYTES: usize = 23040;

/// What the pixel unit is doing within a scanline or a frame.
#[derive(Debug, Clone, Copy, PartialEq, Eq, Structural)]
pub enum PpuMode {
    /// Horizontal blank.
    Mode0,
    /// Vertical blank.
    Mode1,
    /// Scan of the sprite attribute memory.
    Mode2,
    /// Drawing.
    Mode3,
}

impl PpuMode {
    /// The mode's number, as the low two bits of STAT show it.
    pub open spec fn bits_spec(self) -> u8 {
        match self {
            PpuMode::Mode0 => 0,
            PpuMode::Mode1 => 1,
            PpuMode::Mode2 => 2,
            PpuMode::Mode3 => 3,
        }
    }

    /// The mode's number, as the low two bits of STAT show it.
    pub fn bits(self) -> (r: u8)
        ensures
            r == self.bits_spec(),
    {
        match self {
            PpuMode::Mode0 => 0,
            PpuMode::Mode1 => 1,
            PpuMode::Mode2 => 2,
            PpuMode::Mode3 => 3,
        }
    }
}

/// The pixel unit.
pub struct Ppu {
    pub vram: Vec<u8>,
    pub oam: Vec<u8>,
    pub ppu_mode: PpuMode,
    pub ly: u8,
    pub lyc: u8,
    pub scy: u8,
    pub scx: u8,
    pub wx: u8,
    pub wy: u8,
    pub bgp: u8,
    /// Bit 2 holds the LY = LYC match, bits 3 to 6 the interrupt selects.
    pub stat: u8,
    pub lcdc: u8,
    pub obp0: u8,
    pub obp1: u8,
    pub display_buffer: Vec<u8>,
    /// Position within the current scanline.
    pub dots: u16,
    /// A sprite attribute transfer is in progress.
    pub dma: bool,
    pub dma_src: u16,
    /// Bytes of the transfer in progress that have been copied.
    pub dma_count: u8,
    /// The STAT interrupt line.
    pub int_line: bool,
    /// Line 144 was entered during the last call of `cycle`.
    pub vblank: bool,
}

/// The pixel unit as a mathematical value.
#[verifier::ext_equal]
pub struct PpuState {
    pub vram: Seq<u8>,
    pub oam: Seq<u8>,
    pub ppu_mode: PpuMode,
    pub ly: u8,
    pub lyc: u8,
    pub scy: u8,
    pub scx: u8,
    pub wx: u8,
    pub wy: u8,
    pub bgp: u8,
    pub stat: u8,
    pub lcdc: u8,
    pub obp0: u8,
    pub obp1: u8,
    pub display_buffer: Seq<u8>,
    pub dots: u16,
    pub dma: bool,
    pub dma_src: u16,
    pub dma_count: u8,
    pub int_line: bool,
    pub vblank: bool,
}

impl View for Ppu {
    type V = PpuState;

    open spec fn view(&self) -> PpuState {
        PpuState {
            vram: self.vram@,
            oam: self.oam@,
            ppu_mode: self.ppu_mode,
            ly: self.ly,
            lyc: self.lyc,
            scy: self.scy,
            scx: self.scx,
            wx: self.wx,
            wy: self.wy,
            bgp: self.bgp,
            stat: self.stat,
            lcdc: self.lcdc,
            obp0: self.obp0,
            obp1: self.obp1,
            display_buffer: self.display_buffer@,
            dots: self.dots,
            dma: self.dma,
            dma_src: self.dma_src,
            dma_count: self.dma_count,
            int_line: self.int_line,
            vblank: self.vblank,
        }
    }
}

/// Where in video memory the tile map holds the tile of the pixel at
/// row `y` and column `x` of the 256 x 256 background: the map at 0x9800, or
/// at 0x9C00 with LCDC bit 3, has 32 tiles to a row.
pub open spec fn tile_map_index(lcdc: u8, y: int, x: int) -> int {
    (if bit_of(lcdc as u32, 3) {
        0x1C00int
    } else {
        0x1800int
    }) + (y / 8) * 32 + x / 8
}

/// Where in video memory the data of tile `tile_id` begins: 16 bytes a tile
/// from 0x8000, or with LCDC bit 4 clear from 0x9000 with the number signed.
pub open spec fn tile_data_index(lcdc: u8, tile_id: u8) -> int {
    if bit_of(lcdc as u32, 4) {
        16 * tile_id
    } else if tile_id < 128 {
        0x1000 + 16 * tile_id
    } else {
        0x1000 + 16 * (tile_id - 256)
    }
}

/// The shade that the palette `bgp` gives to the pixel in column `x` of a
/// tile row with the bit planes `lo` and `hi`: bit `7 - x` of each makes the
/// colour number, and the palette holds two bits for each number.
pub open spec fn shade_of(bgp: u8, lo: u8, hi: u8, x: int) -> u8 {
    let shift = (7 - x % 8) as u8;
    let index: u8 = if bit_of(hi as u32, shift) {
        if bit_of(lo as u32, shift) {
            3
        } else {
            2
        }
    } else {
        if bit_of(lo as u32, shift) {
            1
        } else {
            0
        }
    };
    (bgp >> (2 * index) as u8) & 3
}

/// The shade of background pixel `lx` of line `ly`: the tile map gives the
/// tile, the tile data its two bit planes, and the palette the shade.
pub open spec fn bg_pixel_of(
    vram: Seq<u8>,
    lcdc: u8,
    scy: u8,
    scx: u8,
    bgp: u8,
    ly: u8,
    lx: int,
) -> u8 {
    let y = (scy + ly) % 256;
    let x = (scx + lx) % 256;
    let row = tile_data_index(lcdc, vram[tile_map_index(lcdc, y, x)]) + 2 * (y % 8);
    shade_of(bgp, vram[row], vram[row + 1], x)
}

/// What STAT reads as: bit 7 set, the stored bits 2 to 6, and the mode.
pub open spec fn stat_byte(stat: u8, mode: PpuMode) -> u8 {
    0x80 | (stat & 0x7C) | mode.bits_spec()
}

/// What a write of `b` leaves in the stored STAT: the match bit stays, the
/// four interrupt selects are taken from `b`.
pub open spec fn stat_after_write(stat: u8, b: u8) -> u8 {
    (stat & 0x04) | (b & 0x78)
}

impl PpuState {
    /// The buffers have their sizes and the counters are within their periods.
    pub open spec fn wf(self) -> bool {
        &&& self.vram.len() == 0x2000
        &&& self.oam.len() == 0xA0
        &&& self.display_buffer.len() == 23040
        &&& self.dots < 456
        &&& self.ly < 154
        &&& self.dma_count < 160
    }

    /// LCDC bit 7.
    pub open spec fn lcd_on(self) -> bool {
        bit_of(self.lcdc as u32, 7)
    }

    /// Video memory is closed to the bus while the unit draws.
    pub open spec fn vram_locked(self) -> bool {
        self.lcd_on() && self.ppu_mode == PpuMode::Mode3
    }

    /// Sprite attribute memory is closed to the bus while the unit scans or draws.
    pub open spec fn oam_locked(self) -> bool {
        self.lcd_on() && (self.ppu_mode == PpuMode::Mode2 || self.ppu_mode == PpuMode::Mode3)
    }

    /// The state in which every register and buffer is zero.
    pub open spec fn zeroed() -> PpuState {
        PpuState {
            vram: Seq::new(0x2000, |i: int| 0u8),
            oam: Seq::new(0xA0, |i: int| 0u8),
            ppu_mode: PpuMode::Mode2,
            ly: 0,
            lyc: 0,
            scy: 0,
            scx: 0,
            wx: 0,
            wy: 0,
            bgp: 0,
            stat: 0,
            lcdc: 0,
            obp0: 0,
            obp1: 0,
            display_buffer: Seq::new(23040, |i: int| 0u8),
            dots: 0,
            dma: false,
            dma_src: 0,
            dma_count: 0,
            int_line: false,
            vblank: false,
        }
    }

    /// The state that the boot program leaves: LCDC 0x91, STAT 0x85, BGP 0xFC.
    pub open spec fn booted() -> PpuState {
        PpuState {
            bgp: 0xFC,
            stat: 0x85,
            lcdc: 0x91,
            ppu_mode: PpuMode::Mode1,
            ..Self::zeroed()
        }
    }

    /// What the bus reads at `addr`.
    pub open spec fn read_byte(self, addr: u16) -> Result<u8, CoreError> {
        if 0x8000 <= addr < 0xA000 {
            Ok(
                if self.vram_locked() {
                    0xFF
                } else {
                    self.vram[addr - 0x8000]
                },
            )
        } else if 0xFE00 <= addr < 0xFEA0 {
            Ok(
                if self.oam_locked() {
                    0xFF
                } else {
                    self.oam[addr - 0xFE00]
                },
            )
        } else if 0xFEA0 <= addr < 0xFF00 {
            Ok(
                if self.dma {
                    0xFF
                } else {
                    0x00
                },
            )
        } else if addr == 0xFF40 {
            Ok(self.lcdc)
        } else if addr == 0xFF41 {
            Ok(stat_byte(self.stat, self.ppu_mode))
        } else if addr == 0xFF42 {
            Ok(self.scy)
        } else if addr == 0xFF43 {
            Ok(self.scx)
        } else if addr == 0xFF44 {
            Ok(self.ly)
        } else if addr == 0xFF45 {
            Ok(self.lyc)
        } else if addr == 0xFF46 {
            Ok((self.dma_src / 256) as u8)
        } else if addr == 0xFF47 {
            Ok(self.bgp)
        } else if addr == 0xFF48 {
            Ok(self.obp0)
        } else if addr == 0xFF49 {
            Ok(self.obp1)
        } else if addr == 0xFF4A {
            Ok(self.wy)
        } else if addr == 0xFF4B {
            Ok(self.wx)
        } else {
            Err(CoreError::Unmapped(addr))
        }
    }

    /// The state after the bus writes `b` at `addr`.
    pub open spec fn write_byte(self, addr: u16, b: u8) -> Result<PpuState, CoreError> {
        if 0x8000 <= addr < 0xA000 {
            Ok(
                if self.vram_locked() {
                    self
                } else {
                    PpuState { vram: self.vram.update(addr - 0x8000, b), ..self }
                },
            )
        } else if 0xFE00 <= addr < 0xFEA0 {
            Ok(
                if self.oam_locked() {
                    self
                } else {
                    PpuState { oam: self.oam.update(addr - 0xFE00, b), ..self }
                },
            )
        } else if 0xFEA0 <= addr < 0xFF00 {
            Ok(self)
        } else if addr == 0xFF40 {
            Ok(PpuState { lcdc: b, ..self })
        } else if addr == 0xFF41 {
            Ok(PpuState { stat: stat_after_write(self.stat, b), ..self })
        } else if addr == 0xFF42 {
            Ok(PpuState { scy: b, ..self })
        } else if addr == 0xFF43 {
            Ok(PpuState { scx: b, ..self })
        } else if addr == 0xFF44 {
            Ok(self)
        } else if addr == 0xFF45 {
            Ok(PpuState { lyc: b, ..self })
        } else if addr == 0xFF46 {
            Ok(PpuState { dma_src: (b * 256) as u16, dma: true, dma_count: 0, ..self })
        } else if addr == 0xFF47 {
            Ok(PpuState { bgp: b, ..self })
        } else if addr == 0xFF48 {
            Ok(PpuState { obp0: b, ..self })
        } else if addr == 0xFF49 {
            Ok(PpuState { obp1: b, ..self })
        } else if addr == 0xFF4A {
            Ok(PpuState { wy: b, ..self })
        } else if addr == 0xFF4B {
            Ok(PpuState { wx: b, ..self })
        } else {
            Err(CoreError::Unmapped(addr))
        }
    }

    /// The shade of background pixel `lx` of the current line.
    pub open spec fn bg_pixel(self, lx: int) -> u8 {
        bg_pixel_of(self.vram, self.lcdc, self.scy, self.scx, self.bgp, self.ly, lx)
    }

    /// The state after the current line's 160 background pixels are drawn.
    pub open spec fn draw_bg(self) -> PpuState {
        PpuState {
            display_buffer: Seq::new(
                23040,
                |i: int|
                    if self.ly * 160 <= i < self.ly * 160 + 160 {
                        self.bg_pixel(i - self.ly * 160)
                    } else {
                        self.display_buffer[i]
                    },
            ),
            ..self
        }
    }

    /// The STAT interrupt line: a selected source that is active.
    pub open spec fn line_level(self) -> bool {
        ||| bit_of(self.stat as u32, 6) && bit_of(self.stat as u32, 2)
        ||| bit_of(self.stat as u32, 5) && self.ppu_mode == PpuMode::Mode2
        ||| bit_of(self.stat as u32, 4) && self.ppu_mode == PpuMode::Mode1
        ||| bit_of(self.stat as u32, 3) && self.ppu_mode == PpuMode::Mode0
    }

    /// The state with the STAT interrupt line recomputed.
    pub open spec fn set_intline(self) -> PpuState {
        PpuState { int_line: self.line_level(), ..self }
    }

    /// The line that follows `ly`.
    pub open spec fn line_after(ly: u8) -> u8 {
        if ly + 1 >= 154 {
            0
        } else {
            (ly + 1) as u8
        }
    }

    /// Four dots pass. At the end of a line LY moves on, the match bit of STAT
    /// is set from LY = LYC, and entering line 144 starts the vertical blank.
    pub open spec fn pass_dots(self) -> PpuState {
        if self.dots + 4 >= 456 {
            let ly = Self::line_after(self.ly);
            let enters = ly == 144 && self.ppu_mode != PpuMode::Mode1;
            PpuState {
                dots: (self.dots + 4 - 456) as u16,
                ly,
                stat: if ly == self.lyc {
                    self.stat | 0x04
                } else {
                    self.stat & 0xFB
                },
                vblank: self.vblank || enters,
                ppu_mode: if enters {
                    PpuMode::Mode1
                } else {
                    self.ppu_mode
                },
                ..self
            }
        } else {
            PpuState { dots: (self.dots + 4) as u16, ..self }
        }
    }

    /// The mode of a visible line at the current dot: 80 dots of scan, 172 of
    /// drawing, the rest horizontal blank.
    pub open spec fn line_mode(self) -> PpuMode {
        if self.dots < 80 {
            PpuMode::Mode2
        } else if self.dots < 252 {
            PpuMode::Mode3
        } else {
            PpuMode::Mode0
        }
    }

    /// On a visible line the mode follows the dot; the line is drawn when
    /// drawing begins.
    pub open spec fn follow_mode(self) -> PpuState {
        if self.ly < 144 {
            if self.line_mode() == PpuMode::Mode3 && self.ppu_mode != PpuMode::Mode3 {
                PpuState { ppu_mode: PpuMode::Mode3, ..self }.draw_bg()
            } else {
                PpuState { ppu_mode: self.line_mode(), ..self }
            }
        } else {
            self
        }
    }

    /// One machine cycle with the LCD on.
    pub open spec fn step(self) -> PpuState {
        self.pass_dots().follow_mode().set_intline()
    }

    /// `m` machine cycles with the LCD on.
    pub open spec fn advance(self, m: nat) -> PpuState
        decreases m,
    {
        if m == 0 {
            self
        } else {
            self.advance((m - 1) as nat).step()
        }
    }

    /// The state after `m` machine cycles. The vertical blank signal is
    /// lowered first; with the LCD off nothing else happens.
    pub open spec fn cycle(self, m: nat) -> PpuState {
        let start = PpuState { vblank: false, ..self };
        if self.lcd_on() {
            start.advance(m)
        } else {
            start
        }
    }

    /// The dot position within the frame.
    pub open spec fn frame_pos(self) -> int {
        self.ly * 456 + self.dots
    }
}

impl Ppu {
    /// A unit in which every register and buffer is zero.
    pub fn new() -> (r: Ppu)
        ensures
            r@ == PpuState::zeroed(),
            r@.wf(),
    {
        let r = Ppu {
            vram: vec![0u8; 0x2000],
            oam: vec![0u8; 0xA0],
            ppu_mode: PpuMode::Mode2,
            ly: 0,
            lyc: 0,
            scy: 0,
            scx: 0,
            bgp: 0,
            wx: 0,
            wy: 0,
            obp0: 0,
            obp1: 0,
            lcdc: 0,
            stat: 0,
            display_buffer: vec![0u8; 23040],
            dots: 0,
            dma: false,
            dma_src: 0,
            dma_count: 0,
            int_line: false,
            vblank: false,
        };
        assert(r@ =~= PpuState::zeroed());
        r
    }

    /// A unit in the state that the boot program leaves.
    pub fn boot() -> (r: Ppu)
        ensures
            r@ == PpuState::booted(),
            r@.wf(),
    {
        let mut r = Ppu::new();
        r.bgp = 0xFC;
        r.stat = 0x85;
        r.lcdc = 0x91;
        r.ppu_mode = PpuMode::Mode1;
        r
    }

    /// Whether the buffers have their sizes and the counters are within
    /// their periods: the condition under which the unit may be used.
    pub fn is_valid(&self) -> (r: bool)
        ensures
            r == self@.wf(),
    {
        self.vram.len() == 0x2000 && self.oam.len() == 0xA0 && self.display_buffer.len() == 23040
            && self.dots < 456 && self.ly < 154 && self.dma_count < 160
    }

    /// Whether the LCD is on.
    pub fn lcd_on(&self) -> (r: bool)
        ensures
            r == self@.lcd_on(),
    {
        bit(self.lcdc as u32, 7)
    }

    /// Advances the unit by `cycles` machine cycles, four dots each. With
    /// the LCD on, the dot within the line moves by `4 * cycles` modulo 456
    /// and LY by the lines that this completes, modulo 154; with the LCD off,
    /// only the vertical blank signal is lowered.
    pub fn cycle(&mut self, cycles: u16)
        requires
            old(self)@.wf(),
        ensures
            final(self)@ == old(self)@.cycle(cycles as nat),
            final(self)@.wf(),
            old(self)@.lcd_on() ==> final(self).dots == (old(self).dots + 4 * cycles) % 456
                && final(self).ly == (old(self).ly + (old(self).dots + 4 * cycles) / 456) % 154,
            !old(self)@.lcd_on() ==> final(self)@ == (PpuState { vblank: false, ..old(self)@ }),
    {
        self.vblank = false;
        if !self.lcd_on() {
            return ;
        }
        let ghost start = self@;
        proof {
            lemma_frame_position(start, cycles as nat);
        }
        let mut i: u16 = 0;
        while i < cycles
            invariant
                i <= cycles,
                self@.wf(),
                self@ == start.advance(i as nat),
            decreases cycles - i,
        {
            self.step();
            i = i + 1;
        }
    }

    /// Advances the unit by one machine cycle with the LCD on.
    fn step(&mut self)
        requires
            old(self)@.wf(),
        ensures
            final(self)@ == old(self)@.step(),
            final(self)@.wf(),
    {
        if self.dots + 4 >= 456 {
            self.dots = self.dots + 4 - 456;
            self.ly = if self.ly + 1 >= 154 {
                0
            } else {
                self.ly + 1
            };
            if self.ly == self.lyc {
                self.stat = self.stat | 0x04;
            } else {
                self.stat = self.stat & 0xFB;
            }
            if self.ly == 144 && self.ppu_mode != PpuMode::Mode1 {
                self.vblank = true;
                self.ppu_mode = PpuMode::Mode1;
            }
        } else {
            self.dots = self.dots + 4;
        }
        assert(self@ == old(self)@.pass_dots());
        if self.ly < 144 {
            if self.dots < 80 {
                self.ppu_mode = PpuMode::Mode2;
            } else if self.dots < 252 {
                if self.ppu_mode != PpuMode::Mode3 {
                    self.ppu_mode = PpuMode::Mode3;
                    self.draw_bg();
                }
            } else {
                self.ppu_mode = PpuMode::Mode0;
            }
        }
        assert(self@ == old(self)@.pass_dots().follow_mode());
        self.set_intline();
    }

    /// Stores one byte of a sprite attribute transfer.
    pub fn dma_transfer(&mut self, byte: u8, offset: u8)
        requires
            old(self)@.wf(),
            offset < 160,
        ensures
            final(self)@ == (PpuState { oam: old(self)@.oam.update(offset as int, byte), ..old(self)@ }),
            final(self)@.wf(),
    {
        self.oam[offset as usize] = byte;
    }

    /// Reads a byte of video memory, of sprite attribute memory or of a
    /// register, as the bus sees it.
    pub fn read_byte(&self, addr: u16) -> (r: Result<u8, CoreError>)
        requires
            self@.wf(),
        ensures
            r == self@.read_byte(addr),
    {
        if 0x8000 <= addr && addr < 0xA000 {
            if self.ppu_mode == PpuMode::Mode3 && self.lcd_on() {
                Ok(0xFF)
            } else {
                Ok(self.read_vram(addr))
            }
        } else if 0xFE00 <= addr && addr < 0xFEA0 {
            if self.lcd_on() && (self.ppu_mode == PpuMode::Mode2 || self.ppu_mode
                == PpuMode::Mode3) {
                Ok(0xFF)
            } else {
                Ok(self.oam[(addr - 0xFE00) as usize])
            }
        } else if 0xFEA0 <= addr && addr < 0xFF00 {
            if self.dma {
                Ok(0xFF)
            } else {
                Ok(0x00)
            }
        } else if addr == 0xFF40 {
            Ok(self.lcdc)
        } else if addr == 0xFF41 {
            Ok(0x80 | (self.stat & 0x7C) | self.ppu_mode.bits())
        } else if addr == 0xFF42 {
            Ok(self.scy)
        } else if addr == 0xFF43 {
            Ok(self.scx)
        } else if addr == 0xFF44 {
            Ok(self.ly)
        } else if addr == 0xFF45 {
            Ok(self.lyc)
        } else if addr == 0xFF46 {
            Ok((self.dma_src / 256) as u8)
        } else if addr == 0xFF47 {
            Ok(self.bgp)
        } else if addr == 0xFF48 {
            Ok(self.obp0)
        } else if addr == 0xFF49 {
            Ok(self.obp1)
        } else if addr == 0xFF4A {
            Ok(self.wy)
        } else if addr == 0xFF4B {
            Ok(self.wx)
        } else {
            Err(CoreError::Unmapped(addr))
        }
    }

    /// Writes a byte to video memory, to sprite attribute memory or to a
    /// register, as the bus does. A write to closed memory or to LY is dropped.
    pub fn write_byte(&mut self, addr: u16, b: u8) -> (r: Result<(), CoreError>)
        requires
            old(self)@.wf(),
        ensures
            match old(self)@.write_byte(addr, b) {
                Ok(s) => r == Ok::<(), CoreError>(()) && final(self)@ == s,
                Err(e) => r == Err::<(), CoreError>(e) && final(self)@ == old(self)@,
            },
            final(self)@.wf(),
    {
        if 0x8000 <= addr && addr < 0xA000 {
            if !(self.lcd_on() && self.ppu_mode == PpuMode::Mode3) {
                self.write_vram(addr, b);
            }
        } else if 0xFE00 <= addr && addr < 0xFEA0 {
            if !(self.lcd_on() && (self.ppu_mode == PpuMode::Mode2 || self.ppu_mode
                == PpuMode::Mode3)) {
                self.oam[(addr - 0xFE00) as usize] = b;
            }
        } else if 0xFEA0 <= addr && addr < 0xFF00 {
        } else if addr == 0xFF40 {
            self.lcdc = b;
        } else if addr == 0xFF41 {
            self.stat = (self.stat & 0x04) | (b & 0x78);
        } else if addr == 0xFF42 {
            self.scy = b;
        } else if addr == 0xFF43 {
            self.scx = b;
        } else if addr == 0xFF44 {
        } else if addr == 0xFF45 {
            self.lyc = b;
        } else if addr == 0xFF46 {
            self.dma_src = (b as u16) * 256;
            self.dma = true;
            self.dma_count = 0;
        } else if addr == 0xFF47 {
            self.bgp = b;
        } else if addr == 0xFF48 {
            self.obp0 = b;
        } else if addr == 0xFF49 {
            self.obp1 = b;
        } else if addr == 0xFF4A {
            self.wy = b;
        } else if addr == 0xFF4B {
            self.wx = b;
        } else {
            return Err(CoreError::Unmapped(addr));
        }
        Ok(())
    }

    /// Reads from the tile map the number of the tile at row `y` and column
    /// `x` of the background.
    fn tile_at(&self, y: u8, x: u8) -> (r: u8)
        requires
            self@.wf(),
        ensures
            r == self@.vram[tile_map_index(self.lcdc, y as int, x as int)],
    {
        let map_base: usize = if bit(self.lcdc as u32, 3) {
            0x1C00
        } else {
            0x1800
        };
        let row: usize = (y / 8) as usize;
        let col: usize = (x / 8) as usize;
        assert(row < 32 && col < 32);
        self.vram[map_base + row * 32 + col]
    }

    /// Finds where in video memory row `y` of tile `tile_id` begins.
    fn tile_row(&self, tile_id: u8, y: u8) -> (r: usize)
        ensures
            r == tile_data_index(self.lcdc, tile_id) + 2 * (y % 8),
            r + 1 < 0x2000,
    {
        let base: usize = if bit(self.lcdc as u32, 4) {
            16 * (tile_id as usize)
        } else if tile_id < 128 {
            0x1000 + 16 * (tile_id as usize)
        } else {
            0x1000 - 16 * (256 - tile_id as usize)
        };
        base + 2 * ((y % 8) as usize)
    }

    /// Picks the shade of the pixel in column `x` from the bit planes of its
    /// tile row.
    fn shade(&self, lo: u8, hi: u8, x: u8) -> (r: u8)
        ensures
            r == shade_of(self.bgp, lo, hi, x as int),
    {
        let shift: u8 = 7 - x % 8;
        let index: u8 = if bit(hi as u32, shift) {
            if bit(lo as u32, shift) {
                3
            } else {
                2
            }
        } else {
            if bit(lo as u32, shift) {
                1
            } else {
                0
            }
        };
        (self.bgp >> (2 * index)) & 3
    }

    /// Computes the shade of background pixel `lx` of the current line.
    pub fn bg_pixel(&self, lx: u8) -> (r: u8)
        requires
            self@.wf(),
        ensures
            r == self@.bg_pixel(lx as int),
    {
        let y: u8 = self.scy.wrapping_add(self.ly);
        let x: u8 = self.scx.wrapping_add(lx);
        let tile_id: u8 = self.tile_at(y, x);
        let row: usize = self.tile_row(tile_id, y);
        self.shade(self.vram[row], self.vram[row + 1], x)
    }

    /// Draws the 160 background pixels of the current line into the frame buffer.
    pub fn draw_bg(&mut self)
        requires
            old(self)@.wf(),
            old(self).ly < 144,
        ensures
            final(self)@ == old(self)@.draw_bg(),
            final(self)@.wf(),
    {
        let base: usize = self.ly as usize * 160;
        let mut lx: u8 = 0;
        while lx < 160
            invariant
                lx <= 160,
                self.ly < 144,
                base == self.ly * 160,
                self@.wf(),
                self@ == (PpuState { display_buffer: self.display_buffer@, ..old(self)@ }),
                forall|i: int|
                    0 <= i < 23040 ==> #[trigger] self.display_buffer@[i] == (if base <= i < base
                        + lx {
                        old(self)@.bg_pixel(i - base)
                    } else {
                        old(self)@.display_buffer[i]
                    }),
            decreases 160 - lx,
        {
            let colour: u8 = self.bg_pixel(lx);
            self.display_buffer[base + lx as usize] = colour;
            lx = lx + 1;
        }
        assert(self.display_buffer@ =~= old(self)@.draw_bg().display_buffer);
    }

    /// Reads video memory past the arbitration. `addr` is a bus address.
    pub fn read_vram(&self, addr: u16) -> (r: u8)
        requires
            self@.wf(),
            0x8000 <= addr < 0xA000,
        ensures
            r == self@.vram[addr - 0x8000],
    {
        self.vram[addr as usize - 0x8000]
    }

    /// Recomputes the STAT interrupt line from the selects in STAT, the mode
    /// and the match bit.
    pub fn set_intline(&mut self)
        ensures
            final(self)@ == old(self)@.set_intline(),
    {
        let lyc: bool = bit(self.stat as u32, 6) && bit(self.stat as u32, 2);
        let mode2: bool = bit(self.stat as u32, 5) && self.ppu_mode == PpuMode::Mode2;
        let mode1: bool = bit(self.stat as u32, 4) && self.ppu_mode == PpuMode::Mode1;
        let mode0: bool = bit(self.stat as u32, 3) && self.ppu_mode == PpuMode::Mode0;
        self.int_line = lyc || mode2 || mode1 || mode0;
    }

    /// Writes video memory past the arbitration. `addr` is a bus address.
    pub fn write_vram(&mut self, addr: u16, b: u8)
        requires
            old(self)@.wf(),
            0x8000 <= addr < 0xA000,
        ensures
            final(self)@ == (PpuState { vram: old(self)@.vram.update(addr - 0x8000, b), ..old(self)@ }),
            final(self)@.wf(),
    {
        self.vram[addr as usize - 0x8000] = b;
    }
}

/// One machine cycle moves the dot position within the frame by four, and
/// from the last dot of line 153 back to the first of line 0.
pub proof fn lemma_step_position(s: PpuState)
    requires
        s.wf(),
    ensures
        s.step().wf(),
        s.step().frame_pos() == (s.frame_pos() + 4) % 70224,
        s.step().lcdc == s.lcdc,
{
}

/// Adding four to a position and to its remainder modulo the frame length
/// gives the same remainder.
proof fn lemma_mod_frame_add(a: int)
    requires
        0 <= a,
    ensures
        (a % 70224 + 4) % 70224 == (a + 4) % 70224,
{
}

/// A position within the frame splits into its line and its dot.
proof fn lemma_position_split(p: int, ly: int, dots: int, ly0: int, r: int)
    requires
        0 <= ly < 154,
        0 <= dots < 456,
        0 <= ly0,
        0 <= r,
        p == 456 * ly0 + r,
        ly * 456 + dots == p % 70224,
    ensures
        dots == r % 456,
        ly == (ly0 + r / 456) % 154,
{
    let q = p / 70224;
    assert(p == 70224 * q + (ly * 456 + dots));
    assert(p == 456 * (154 * q + ly) + dots);
    assert(p / 456 == 154 * q + ly && p % 456 == dots) by (nonlinear_arith)
        requires
            p == 456 * (154 * q + ly) + dots,
            0 <= dots < 456,
    ;
    assert(p % 456 == r % 456 && p / 456 == ly0 + r / 456) by (nonlinear_arith)
        requires
            p == 456 * ly0 + r,
            0 <= r,
    ;
    assert((154 * q + ly) % 154 == ly) by (nonlinear_arith)
        requires
            0 <= ly < 154,
    ;
}

/// `m` machine cycles with the LCD on keep the state well formed and move
/// the dot position within the frame by `4 * m`, modulo the frame length.
pub proof fn lemma_advance_position(s: PpuState, m: nat)
    requires
        s.wf(),
    ensures
        s.advance(m).wf(),
        s.advance(m).lcdc == s.lcdc,
        s.advance(m).frame_pos() == (s.frame_pos() + 4 * m) % 70224,
    decreases m,
{
    if m > 0 {
        let k = (m - 1) as nat;
        lemma_advance_position(s, k);
        lemma_step_position(s.advance(k));
        lemma_mod_frame_add(s.frame_pos() + 4 * k);
    }
}

/// With the LCD on, `m` machine cycles move the dot position within the
/// frame by `4 * m` dots, modulo the 70224 dots of a frame. So LY moves on
/// exactly when 456 dots of a line have passed, and it runs from 0 to 153 and
/// back to 0 in 70224 dots.
pub proof fn lemma_frame_position(s: PpuState, m: nat)
    requires
        s.wf(),
    ensures
        s.advance(m).wf(),
        s.advance(m).dots == (s.dots + 4 * m) % 456,
        s.advance(m).ly == (s.ly + (s.dots + 4 * m) / 456) % 154,
{
    lemma_advance_position(s, m);
    let t = s.advance(m);
    lemma_position_split(
        s.frame_pos() + 4 * m,
        t.ly as int,
        t.dots as int,
        s.ly as int,
        s.dots + 4 * m,
    );
}

/// A frame lasts 17556 machine cycles: after them LY and the dot within the
/// line are what they were.
pub proof fn lemma_frame_period(s: PpuState)
    requires
        s.wf(),
    ensures
        s.advance(17556).ly == s.ly,
        s.advance(17556).dots == s.dots,
{
    lemma_frame_position(s, 17556);
    assert(s.frame_pos() + 4 * 17556 == s.frame_pos() + 70224);
}

/// From the first dot of a line, LY keeps its value for 113 machine cycles
/// and moves to the next line with the 114th: a line lasts exactly 456 dots.
pub proof fn lemma_line_length(s: PpuState, k: nat)
    requires
        s.wf(),
        s.dots == 0,
        k <= 114,
    ensures
        k < 114 ==> s.advance(k).ly == s.ly,
        k == 114 ==> s.advance(k).ly == PpuState::line_after(s.ly) && s.advance(k).dots == 0,
{
    lemma_frame_position(s, k);
}

/// Advancing the unit leaves video memory, sprite attribute memory, the
/// transfer state and the registers that only the bus writes as they were.
pub proof fn lemma_cycle_keeps_memory(s: PpuState, m: nat)
    ensures
        s.advance(m).vram == s.vram,
        s.advance(m).oam == s.oam,
        s.advance(m).dma == s.dma,
        s.advance(m).dma_src == s.dma_src,
        s.advance(m).dma_count == s.dma_count,
        s.advance(m).lcdc == s.lcdc,
        s.advance(m).scy == s.scy,
        s.advance(m).scx == s.scx,
        s.advance(m).lyc == s.lyc,
        s.advance(m).bgp == s.bgp,
        s.advance(m).obp0 == s.obp0,
        s.advance(m).obp1 == s.obp1,
        s.advance(m).wy == s.wy,
        s.advance(m).wx == s.wx,
        s.cycle(m).vram == s.vram,
        s.cycle(m).oam == s.oam,
        s.cycle(m).dma == s.dma,
        s.cycle(m).dma_src == s.dma_src,
        s.cycle(m).dma_count == s.dma_count,
        s.cycle(m).lcdc == s.lcdc,
        s.cycle(m).scy == s.scy,
        s.cycle(m).scx == s.scx,
        s.cycle(m).lyc == s.lyc,
        s.cycle(m).bgp == s.bgp,
        s.cycle(m).obp0 == s.obp0,
        s.cycle(m).obp1 == s.obp1,
        s.cycle(m).wy == s.wy,
        s.cycle(m).wx == s.wx,
    decreases m,
{
    if m > 0 {
        lemma_cycle_keeps_memory(s, (m - 1) as nat);
    }
    let start = PpuState { vblank: false, ..s };
    if m > 0 {
        lemma_cycle_keeps_memory(start, (m - 1) as nat);
    }
}

/// Advancing the unit keeps it well formed.
pub proof fn lemma_cycle_wf(s: PpuState, m: nat)
    requires
        s.wf(),
    ensures
        s.cycle(m).wf(),
{
    lemma_advance_position(PpuState { vblank: false, ..s }, m);
}

/// The four interrupt selects of STAT read back as written and bit 7 reads
/// as set; the mode and the match bit are not the bus's to write.
pub proof fn lemma_stat_round_trip(s: PpuState, v: u8)
    requires
        s.wf(),
    ensures
        s.write_byte(0xFF41, v) is Ok,
        ({
            let t = s.write_byte(0xFF41, v)->Ok_0;
            let before = s.read_byte(0xFF41)->Ok_0;
            let after = t.read_byte(0xFF41)->Ok_0;
            &&& t.read_byte(0xFF41) is Ok
            &&& after & 0x78 == v & 0x78
            &&& after & 0x80 == 0x80
            &&& after & 0x07 == before & 0x07
        }),
{
    let st = s.stat;
    let m = s.ppu_mode.bits_spec();
    assert(m <= 3);
    assert({
        let after = 0x80 | (((st & 0x04) | (v & 0x78)) & 0x7C) | m;
        let before = 0x80 | (st & 0x7C) | m;
        after & 0x78 == v & 0x78 && after & 0x80 == 0x80 && after & 0x07 == before & 0x07
    }) by (bit_vector)
        requires
            m <= 3,
    ;
}

/// A byte written to the transfer register reads back from it: the high
/// byte of the source.
pub proof fn lemma_dma_register_round_trip(s: PpuState, v: u8)
    requires
        s.wf(),
    ensures
        s.write_byte(0xFF46, v) is Ok,
        s.write_byte(0xFF46, v)->Ok_0.read_byte(0xFF46) == Ok::<u8, CoreError>(v),
{
}

} // verus!
