use vstd::prelude::*;

verus! {

/// The fatal conditions of the emulation core.
#[derive(Debug, Clone, Copy, PartialEq, Eq, Structural)]
pub enum NesError {
    /// A paged buffer was addressed outside of its pages.
    AddressOutOfRange,
    /// A mapper was handed an address outside its program or character window.
    UnmappedAddress(u16),
    /// The cartridge image does not hold a usable header.
    MalformedCartridgeHeader,
    /// The cartridge names a mapper that this core does not implement.
    UnsupportedMapper(u8),
    /// The CPU fetched an opcode that has no handler.
    IllegalOpcode { opcode: u8, pc: u16 },
    /// Cartridge space was accessed while no cartridge is inserted.
    NoCartridge,
}

} // verus!
