//! Cartridges: the image header, and the two bank controllers behind one
//! read and write interface.
use vstd::prelude::*;
use crate::error::CoreError;
use crate::mbc::mbc0::{Mbc0, Mbc0State};
use crate::mbc::mbc1::{Mbc1, Mbc1State};

pub mod mbc0;
pub mod mbc1;

verus! {

/// Offset of the cartridge type byte in the image.
pub const HEADER_TYPE: usize = 0x0147;

/// Offset of the ROM size code in the image.
pub const HEADER_ROM_SIZE: usize = 0x0148;

/// Offset of the RAM size code in the image.
pub const HEADER_RAM_SIZE: usize = 0x0149;

/// Number of 8 KiB banks of external RAM that a RAM size code stands for.
pub open spec fn ram_banks_of(code: u8) -> u16 {
    if code == 1 || code == 2 {
        1
    } else if code == 3 {
        4
    } else if code == 4 {
        16
    } else if code == 5 {
        8
    } else {
        0
    }
}

/// Number of 16 KiB banks of ROM that a ROM size code stands for: two,
/// doubled once for each unit of the code. Codes above 8 are not defined.
pub open spec fn rom_banks_of(code: u8) -> Option<u16> {
    if code <= 8 {
        Some(2u16 << code)
    } else {
        None
    }
}

/// The bank count of a defined ROM size code lies between 2 and 512.
pub proof fn lemma_rom_banks_range(code: u8)
    requires
        code <= 8,
    ensures
        2 <= (2u16 << code) <= 512,
{
    assert(2 <= (2u16 << code) <= 512) by (bit_vector)
        requires
            code <= 8,
    ;
}

/// Decodes the RAM size code of the header.
pub fn header_ram(v: u8) -> (r: u16)
    ensures
        r == ram_banks_of(v),
{
    match v {
        1 | 2 => 1,
        3 => 4,
        4 => 16,
        5 => 8,
        _ => 0,
    }
}

/// Decodes the ROM size code of the header.
pub fn header_rom(v: u8) -> (r: Option<u16>)
    ensures
        r == rom_banks_of(v),
{
    if v <= 8 {
        Some(2u16 << v)
    } else {
        None
    }
}

/// A cartridge: one of the bank controllers that are modelled.
pub enum Mbc {
    /// A flat ROM without a controller.
    Rom(Mbc0),
    /// ROM and RAM behind an MBC1.
    Banked(Mbc1),
}

/// A cartridge as a mathematical value.
#[verifier::ext_equal]
pub enum MbcState {
    Rom(Mbc0State),
    Banked(Mbc1State),
}

impl View for Mbc {
    type V = MbcState;

    open spec fn view(&self) -> MbcState {
        match self {
            Mbc::Rom(m) => MbcState::Rom(m@),
            Mbc::Banked(m) => MbcState::Banked(m@),
        }
    }
}

impl MbcState {
    pub open spec fn wf(self) -> bool {
        match self {
            MbcState::Rom(_) => true,
            MbcState::Banked(m) => m.wf(),
        }
    }

    /// The cartridge that an image describes. Type 0 is a flat ROM, types 1
    /// to 3 an MBC1; an image without a type byte has no header.
    pub open spec fn load(data: Seq<u8>) -> Result<MbcState, CoreError> {
        if data.len() <= 0x0147 {
            Err(CoreError::BadHeader)
        } else if data[0x0147] == 0 {
            Ok(MbcState::Rom(Mbc0State { data }))
        } else if 1 <= data[0x0147] <= 3 {
            match Mbc1State::load(data) {
                Ok(m) => Ok(MbcState::Banked(m)),
                Err(e) => Err(e),
            }
        } else {
            Err(CoreError::UnsupportedMapper(data[0x0147]))
        }
    }

    /// What the bus reads at `addr`.
    pub open spec fn read_byte(self, addr: u16) -> Result<u8, CoreError> {
        match self {
            MbcState::Rom(m) => m.read_byte(addr),
            MbcState::Banked(m) => m.read_byte(addr),
        }
    }

    /// The cartridge after the bus writes `b` at `addr`.
    pub open spec fn write_byte(self, addr: u16, b: u8) -> Result<MbcState, CoreError> {
        match self {
            MbcState::Rom(m) => match m.write_byte(addr, b) {
                Ok(s) => Ok(MbcState::Rom(s)),
                Err(e) => Err(e),
            },
            MbcState::Banked(m) => match m.write_byte(addr, b) {
                Ok(s) => Ok(MbcState::Banked(s)),
                Err(e) => Err(e),
            },
        }
    }

    /// The little-endian word at `addr` and the address after it.
    pub open spec fn read_word(self, addr: u16) -> Result<u16, CoreError> {
        match self.read_byte(addr) {
            Err(e) => Err(e),
            Ok(lo) => match self.read_byte(((addr + 1) % 0x10000) as u16) {
                Err(e) => Err(e),
                Ok(hi) => Ok((hi * 256 + lo) as u16),
            },
        }
    }
}

/// Builds the cartridge that the image `data` describes.
pub fn make_mbc(data: Vec<u8>) -> (r: Result<Mbc, CoreError>)
    ensures
        match MbcState::load(data@) {
            Ok(s) => r is Ok && r->Ok_0@ == s && s.wf(),
            Err(e) => r is Err && r->Err_0 == e,
        },
{
    if data.len() <= HEADER_TYPE {
        return Err(CoreError::BadHeader);
    }
    let kind: u8 = data[HEADER_TYPE];
    if kind == 0 {
        Ok(Mbc::Rom(Mbc0::new(data)))
    } else if kind <= 3 {
        match Mbc1::new(data) {
            Ok(m) => Ok(Mbc::Banked(m)),
            Err(e) => Err(e),
        }
    } else {
        Err(CoreError::UnsupportedMapper(kind))
    }
}

impl Mbc {
    /// Whether the cartridge may be used.
    pub fn is_valid(&self) -> (r: bool)
        ensures
            r == self@.wf(),
    {
        match self {
            Mbc::Rom(_) => true,
            Mbc::Banked(m) => m.is_valid(),
        }
    }

    /// Reads the byte that the cartridge shows at `addr`.
    pub fn read_byte(&self, addr: u16) -> (r: Result<u8, CoreError>)
        requires
            self@.wf(),
        ensures
            r == self@.read_byte(addr),
    {
        match self {
            Mbc::Rom(m) => m.read_byte(addr),
            Mbc::Banked(m) => m.read_byte(addr),
        }
    }

    /// Reads the little-endian word at `addr`.
    pub fn read_word(&self, addr: u16) -> (r: Result<u16, CoreError>)
        requires
            self@.wf(),
        ensures
            r == self@.read_word(addr),
    {
        let lo: u8 = self.read_byte(addr)?;
        let hi: u8 = self.read_byte(addr.wrapping_add(1))?;
        Ok((hi as u16) * 256 + lo as u16)
    }

    /// Writes `b` at `addr`: to a control register of the controller, or to
    /// external RAM.
    pub fn write_byte(&mut self, addr: u16, b: u8) -> (r: Result<(), CoreError>)
        requires
            old(self)@.wf(),
        ensures
            match old(self)@.write_byte(addr, b) {
                Ok(s) => r == Ok::<(), CoreError>(()) && final(self)@ == s,
                Err(e) => r == Err::<(), CoreError>(e) && final(self)@ == old(self)@,
            },
            final(self)@.wf(),
    {
        match self {
            Mbc::Rom(m) => m.write_byte(addr, b),
            Mbc::Banked(m) => m.write_byte(addr, b),
        }
    }
}

} // verus!
