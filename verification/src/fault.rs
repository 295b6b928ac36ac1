//! The machine's fault taxonomy: every failure the core can surface, as a
//! typed, reportable value rather than a process abort.

use vstd::prelude::*;

verus! {

/// A fault raised while loading a cartridge or stepping the processor.
///
/// Startup faults (`MalformedRom`, `InvalidHeaderEncoding`,
/// `UnsupportedMappingMode`) are reported before any instruction runs.
/// Stepping faults carry the machine-state context a host needs for
/// diagnosis: the faulting bank and counter, and the raw opcode byte where
/// one was fetched.
#[derive(Clone, Copy, Debug, PartialEq, Eq, Structural)]
pub enum Fault {
    /// The cartridge image is not a whole number of kilobytes plus an
    /// optional 512-byte copier header, or is too short to hold a header.
    MalformedRom,
    /// The header's title bytes are not valid text.
    InvalidHeaderEncoding,
    /// The header's mapping-mode byte names a scheme other than LoROM.
    UnsupportedMappingMode,
    /// A fetched opcode byte is not modeled; carries the raw byte and the
    /// (bank, counter) pair it was fetched from.
    UnimplementedOpcode { opcode: u8, bank: u8, addr: u16 },
    /// An addressing mode that is architecturally defined but not yet
    /// modeled was asked to resolve a location.
    UnimplementedAddressingMode,
    /// The (bank, offset) pair landed on a sub-range with no storage behind
    /// it, including reads past the end of the cartridge ROM.
    UnmappedAddress { bank: u8, addr: u16 },
    /// A write was aimed at read-only, ROM-mapped storage.
    WriteProtectionViolation { bank: u8, addr: u16 },
}

} // verus!
