//! The MBC1 bank controller: up to 128 ROM banks of 16 KiB and four RAM
//! banks of 8 KiB, selected through writes into the ROM address range.
use vstd::prelude::*;
use crate::error::CoreError;
use crate::mbc::{header_ram, header_rom, ram_banks_of, rom_banks_of, lemma_rom_banks_range};
use crate::mbc::{HEADER_RAM_SIZE, HEADER_ROM_SIZE, HEADER_TYPE};

verus! {

/// A cartridge with an MBC1.
pub struct Mbc1 {
    pub rom: Vec<u8>,
    pub eram: Vec<u8>,
    /// Banking mode: when set, the upper bits also bank the low ROM window
    /// and the external RAM.
    pub mode: bool,
    /// The selected ROM bank: the five low bits, and in bits 5 and 6 the
    /// upper register where the ROM has more than 32 banks.
    pub rom_bank: u16,
    /// The selected RAM bank.
    pub ram_bank: u16,
    pub ram_enable: bool,
    pub rom_banks: u16,
    pub ram_banks: u16,
    pub battery: bool,
}

/// A cartridge with an MBC1 as a mathematical value.
#[verifier::ext_equal]
pub struct Mbc1State {
    pub rom: Seq<u8>,
    pub eram: Seq<u8>,
    pub mode: bool,
    pub rom_bank: u16,
    pub ram_bank: u16,
    pub ram_enable: bool,
    pub rom_banks: u16,
    pub ram_banks: u16,
    pub battery: bool,
}

impl View for Mbc1 {
    type V = Mbc1State;

    open spec fn view(&self) -> Mbc1State {
        Mbc1State {
            rom: self.rom@,
            eram: self.eram@,
            mode: self.mode,
            rom_bank: self.rom_bank,
            ram_bank: self.ram_bank,
            ram_enable: self.ram_enable,
            rom_banks: self.rom_banks,
            ram_banks: self.ram_banks,
            battery: self.battery,
        }
    }
}

/// The ROM bank register after `b` is written to 0x2000-0x3FFF: bits 5 and 6
/// stay; the five low bits of `b` are taken, 0 as 1, and a nonzero value
/// masked to the banks that the ROM has.
pub open spec fn rom_bank_after_low(rom_bank: u16, rom_banks: u16, b: u8) -> u16 {
    let low = (b & 0x1F) as u16;
    if low == 0 {
        (rom_bank & 0x60) | 1
    } else {
        (rom_bank & 0x60) | (low & ((rom_banks - 1) as u16))
    }
}

impl Mbc1State {
    /// The ROM has at least one bank.
    pub open spec fn wf(self) -> bool {
        self.rom_banks >= 1
    }

    /// The cartridge that an image describes: type 1 has no RAM, types 2 and
    /// 3 the RAM that the header names, type 3 a battery.
    pub open spec fn load(data: Seq<u8>) -> Result<Mbc1State, CoreError> {
        if data.len() <= 0x0149 {
            Err(CoreError::BadHeader)
        } else if !(1 <= data[0x0147] <= 3) {
            Err(CoreError::UnsupportedMapper(data[0x0147]))
        } else {
            match rom_banks_of(data[0x0148]) {
                None => Err(CoreError::BadHeader),
                Some(rom_banks) => {
                    let ram_banks = if data[0x0147] == 1 {
                        0
                    } else {
                        ram_banks_of(data[0x0149])
                    };
                    Ok(
                        Mbc1State {
                            rom: data,
                            eram: Seq::new((0x2000 * ram_banks) as nat, |i: int| 0u8),
                            mode: false,
                            rom_bank: 1,
                            ram_bank: 0,
                            ram_enable: false,
                            rom_banks,
                            ram_banks,
                            battery: data[0x0147] == 3,
                        },
                    )
                },
            }
        }
    }

    /// Where in the image, or in the external RAM, the bus address `addr`
    /// falls. The low ROM window shows bank 0, or in mode 1 the bank that the
    /// upper bits name; the high window shows the selected bank; the RAM
    /// window shows bank 0, or in mode 1 the selected RAM bank.
    pub open spec fn translate(self, addr: u16) -> int {
        if addr < 0x4000 {
            (if self.mode {
                self.rom_bank & 0x60
            } else {
                0
            }) * 0x4000 + addr
        } else if addr < 0x8000 {
            self.rom_bank * 0x4000 + (addr - 0x4000)
        } else {
            (if self.mode {
                self.ram_bank as int
            } else {
                0
            }) * 0x2000 + (addr - 0xA000)
        }
    }

    /// What the bus reads at `addr`. Past the end of the image, and where the
    /// RAM is disabled or absent, it reads 0xFF.
    pub open spec fn read_byte(self, addr: u16) -> Result<u8, CoreError> {
        if addr < 0x8000 {
            Ok(
                if self.translate(addr) < self.rom.len() {
                    self.rom[self.translate(addr)]
                } else {
                    0xFF
                },
            )
        } else if 0xA000 <= addr < 0xC000 {
            Ok(
                if self.ram_enable && self.translate(addr) < self.eram.len() {
                    self.eram[self.translate(addr)]
                } else {
                    0xFF
                },
            )
        } else {
            Err(CoreError::Unmapped(addr))
        }
    }

    /// The little-endian word at `addr`.
    pub open spec fn read_word(self, addr: u16) -> Result<u16, CoreError> {
        match self.read_byte(addr) {
            Err(e) => Err(e),
            Ok(lo) => match self.read_byte(((addr + 1) % 0x10000) as u16) {
                Err(e) => Err(e),
                Ok(hi) => Ok((hi * 256 + lo) as u16),
            },
        }
    }

    /// The cartridge after the bus writes `b` at `addr`.
    pub open spec fn write_byte(self, addr: u16, b: u8) -> Result<Mbc1State, CoreError> {
        if addr < 0x2000 {
            Ok(Mbc1State { ram_enable: b & 0x0F == 0x0A, ..self })
        } else if addr < 0x4000 {
            Ok(Mbc1State { rom_bank: rom_bank_after_low(self.rom_bank, self.rom_banks, b), ..self })
        } else if addr < 0x6000 {
            Ok(
                if self.rom_banks > 32 {
                    Mbc1State { rom_bank: (self.rom_bank & 0x1F) | (((b & 3) as u16) << 5), ..self }
                } else if self.ram_banks > 1 {
                    Mbc1State { ram_bank: (b & 3) as u16, ..self }
                } else {
                    self
                },
            )
        } else if addr < 0x8000 {
            Ok(Mbc1State { mode: b & 1 == 1, ..self })
        } else if 0xA000 <= addr < 0xC000 {
            Ok(
                if self.ram_enable && self.translate(addr) < self.eram.len() {
                    Mbc1State { eram: self.eram.update(self.translate(addr), b), ..self }
                } else {
                    self
                },
            )
        } else {
            Err(CoreError::Unmapped(addr))
        }
    }
}

impl Mbc1 {
    /// Builds the cartridge that the image `data` describes.
    pub fn new(data: Vec<u8>) -> (r: Result<Mbc1, CoreError>)
        ensures
            match Mbc1State::load(data@) {
                Ok(s) => r is Ok && r->Ok_0@ == s && s.wf(),
                Err(e) => r is Err && r->Err_0 == e,
            },
    {
        if data.len() <= HEADER_RAM_SIZE {
            return Err(CoreError::BadHeader);
        }
        let kind: u8 = data[HEADER_TYPE];
        if !(1 <= kind && kind <= 3) {
            return Err(CoreError::UnsupportedMapper(kind));
        }
        let rom_banks: u16 = match header_rom(data[HEADER_ROM_SIZE]) {
            Some(n) => n,
            None => {
                return Err(CoreError::BadHeader);
            },
        };
        proof {
            lemma_rom_banks_range(data[0x0148]);
        }
        let ram_banks: u16 = if kind == 1 {
            0
        } else {
            header_ram(data[HEADER_RAM_SIZE])
        };
        let eram: Vec<u8> = vec![0u8; 0x2000 * (ram_banks as usize)];
        let r = Mbc1 {
            rom: data,
            eram,
            mode: false,
            rom_bank: 1,
            ram_bank: 0,
            ram_enable: false,
            rom_banks,
            ram_banks,
            battery: kind == 3,
        };
        assert(r@ =~= Mbc1State::load(data@)->Ok_0);
        Ok(r)
    }

    /// Whether the cartridge may be used: its ROM has at least one bank.
    pub fn is_valid(&self) -> (r: bool)
        ensures
            r == self@.wf(),
    {
        self.rom_banks >= 1
    }

    /// Turns a bus address in the ROM or RAM window into an index into the
    /// image or into the external RAM.
    pub fn translate(&self, addr: u16) -> (r: usize)
        requires
            addr < 0x8000 || 0xA000 <= addr < 0xC000,
        ensures
            r == self@.translate(addr),
    {
        if addr < 0x4000 {
            let bank: u16 = if self.mode {
                self.rom_bank & 0x60
            } else {
                0
            };
            (bank as usize) * 0x4000 + addr as usize
        } else if addr < 0x8000 {
            (self.rom_bank as usize) * 0x4000 + (addr as usize - 0x4000)
        } else {
            let bank: u16 = if self.mode {
                self.ram_bank
            } else {
                0
            };
            (bank as usize) * 0x2000 + (addr as usize - 0xA000)
        }
    }

    /// Reads the byte that the cartridge shows at `addr`.
    pub fn read_byte(&self, addr: u16) -> (r: Result<u8, CoreError>)
        ensures
            r == self@.read_byte(addr),
    {
        if addr < 0x8000 {
            let i: usize = self.translate(addr);
            if i < self.rom.len() {
                Ok(self.rom[i])
            } else {
                Ok(0xFF)
            }
        } else if 0xA000 <= addr && addr < 0xC000 {
            let i: usize = self.translate(addr);
            if self.ram_enable && i < self.eram.len() {
                Ok(self.eram[i])
            } else {
                Ok(0xFF)
            }
        } else {
            Err(CoreError::Unmapped(addr))
        }
    }

    /// Reads the little-endian word at `addr`.
    pub fn read_word(&self, addr: u16) -> (r: Result<u16, CoreError>)
        ensures
            r == self@.read_word(addr),
    {
        let lo: u8 = self.read_byte(addr)?;
        let hi: u8 = self.read_byte(addr.wrapping_add(1))?;
        Ok((hi as u16) * 256 + lo as u16)
    }

    /// Writes `b` at `addr`: into the RAM gate, a bank register or the mode
    /// flag, or into the external RAM where it is enabled.
    pub fn write_byte(&mut self, addr: u16, b: u8) -> (r: Result<(), CoreError>)
        requires
            old(self)@.wf(),
        ensures
            match old(self)@.write_byte(addr, b) {
                Ok(s) => r == Ok::<(), CoreError>(()) && final(self)@ == s,
                Err(e) => r == Err::<(), CoreError>(e) && final(self)@ == old(self)@,
            },
            final(self)@.wf(),
    {
        if addr < 0x2000 {
            self.ram_enable = b & 0x0F == 0x0A;
        } else if addr < 0x4000 {
            let low: u16 = (b & 0x1F) as u16;
            if low == 0 {
                self.rom_bank = (self.rom_bank & 0x60) | 1;
            } else {
                let mask: u16 = self.rom_banks - 1;
                self.rom_bank = (self.rom_bank & 0x60) | (low & mask);
            }
        } else if addr < 0x6000 {
            let up: u16 = (b & 3) as u16;
            if self.rom_banks > 32 {
                self.rom_bank = (self.rom_bank & 0x1F) | (up << 5);
            } else if self.ram_banks > 1 {
                self.ram_bank = up;
            }
        } else if addr < 0x8000 {
            self.mode = b & 1 == 1;
        } else if 0xA000 <= addr && addr < 0xC000 {
            if self.ram_enable {
                let i: usize = self.translate(addr);
                if i < self.eram.len() {
                    self.eram[i] = b;
                }
            }
        } else {
            return Err(CoreError::Unmapped(addr));
        }
        Ok(())
    }
}

/// After 0x00 is written to 0x2000-0x3FFF, a cartridge whose upper bank bits
/// are clear shows bank 1 in the high ROM window: the byte read at
/// `0x4000 + offset` is the image's byte at that place.
pub proof fn lemma_bank_zero_reads_bank_one(s: Mbc1State, reg: u16, offset: u16)
    requires
        s.wf(),
        0x2000 <= reg < 0x4000,
        offset < 0x4000,
        s.rom_bank & 0x60 == 0,
        0x4000 + offset < s.rom.len(),
    ensures
        s.write_byte(reg, 0x00) is Ok,
        s.write_byte(reg, 0x00)->Ok_0.read_byte((0x4000 + offset) as u16) == Ok::<u8, CoreError>(
            s.rom[0x4000 + offset],
        ),
        s.write_byte(reg, 0x00)->Ok_0.read_byte((0x4000 + offset) as u16) == (Mbc1State {
            rom_bank: 1,
            ..s
        }).read_byte((0x4000 + offset) as u16),
{
    let x = s.rom_bank;
    assert(0u8 & 0x1F == 0) by (bit_vector);
    assert((x & 0x60) | 1 == 1) by (bit_vector)
        requires
            x & 0x60 == 0,
    ;
}

} // verus!
