//! The fatal conditions that the core reports to its caller.
use vstd::prelude::*;

verus! {

/// A fatal condition. None is retried: the host decides what to do with it.
#[derive(Debug, Clone, Copy, PartialEq, Eq, Structural)]
pub enum CoreError {
    /// The byte fetched for execution is not an instruction.
    IllegalOpcode(u8),
    /// The address lies in no mapped region of the component that was asked.
    Unmapped(u16),
    /// The cartridge type byte names a bank controller that is not modelled.
    UnsupportedMapper(u8),
    /// The image is too short to hold a header, or its ROM size code is not
    /// one of the nine that the header format defines.
    BadHeader,
}

} // verus!
