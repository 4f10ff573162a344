//! A cartridge without a bank controller: a flat ROM and no external RAM.
use vstd::prelude::*;
use crate::error::CoreError;

verus! {

/// A flat ROM.
pub struct Mbc0 {
    pub data: Vec<u8>,
}

/// A flat ROM as a mathematical value.
#[verifier::ext_equal]
pub struct Mbc0State {
    pub data: Seq<u8>,
}

impl View for Mbc0 {
    type V = Mbc0State;

    open spec fn view(&self) -> Mbc0State {
        Mbc0State { data: self.data@ }
    }
}

impl Mbc0State {
    /// What the bus reads at `addr`: the image's byte in the ROM window, 0xFF
    /// past the image's end and in the window of the absent external RAM.
    pub open spec fn read_byte(self, addr: u16) -> Result<u8, CoreError> {
        if addr < 0x8000 {
            Ok(
                if addr < self.data.len() {
                    self.data[addr as int]
                } else {
                    0xFF
                },
            )
        } else if 0xA000 <= addr < 0xC000 {
            Ok(0xFF)
        } else {
            Err(CoreError::Unmapped(addr))
        }
    }

    /// The cartridge after a write: unchanged. Only the address is judged.
    pub open spec fn write_byte(self, addr: u16, b: u8) -> Result<Mbc0State, CoreError> {
        if addr < 0x8000 || 0xA000 <= addr < 0xC000 {
            Ok(self)
        } else {
            Err(CoreError::Unmapped(addr))
        }
    }

    /// The little-endian word at `addr`.
    pub open spec fn read_word(self, addr: u16) -> Result<u16, CoreError> {
        match self.read_byte(addr) {
            Err(e) => Err(e),
            Ok(lo) => match self.read_byte(((addr + 1) % 0x10000) as u16) {
                Err(e) => Err(e),
                Ok(hi) => Ok((hi * 256 + lo) as u16),
            },
        }
    }
}

impl Mbc0 {
    /// A flat ROM that holds `data`.
    pub fn new(data: Vec<u8>) -> (r: Mbc0)
        ensures
            r@.data == data@,
    {
        Mbc0 { data }
    }

    /// Reads the byte at `addr`.
    pub fn read_byte(&self, addr: u16) -> (r: Result<u8, CoreError>)
        ensures
            r == self@.read_byte(addr),
    {
        if addr < 0x8000 {
            if (addr as usize) < self.data.len() {
                Ok(self.data[addr as usize])
            } else {
                Ok(0xFF)
            }
        } else if 0xA000 <= addr && addr < 0xC000 {
            Ok(0xFF)
        } else {
            Err(CoreError::Unmapped(addr))
        }
    }

    /// Reads the little-endian word at `addr`.
    pub fn read_word(&self, addr: u16) -> (r: Result<u16, CoreError>)
        ensures
            r == self@.read_word(addr),
    {
        let lo: u8 = self.read_byte(addr)?;
        let hi: u8 = self.read_byte(addr.wrapping_add(1))?;
        Ok((hi as u16) * 256 + lo as u16)
    }

    /// Takes a write and drops it: a flat ROM has nothing to change.
    pub fn write_byte(&mut self, addr: u16, b: u8) -> (r: Result<(), CoreError>)
        ensures
            match old(self)@.write_byte(addr, b) {
                Ok(s) => r == Ok::<(), CoreError>(()) && final(self)@ == s,
                Err(e) => r == Err::<(), CoreError>(e) && final(self)@ == old(self)@,
            },
    {
        if addr < 0x8000 || (0xA000 <= addr && addr < 0xC000) {
            Ok(())
        } else {
            Err(CoreError::Unmapped(addr))
        }
    }
}

} // verus!
