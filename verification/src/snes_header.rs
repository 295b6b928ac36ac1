//! Decoding of the fixed-offset cartridge header embedded in a LoROM image:
//! title, mapping mode, size classes, checksum bytes and the two interrupt
//! vector tables. A pure function of a 64-byte window; no state.

use crate::fault::Fault;
use vstd::prelude::*;

verus! {

/// Number of bytes in the header window at the LoROM header offset.
pub const HEADER_LEN: usize = 64;

/// The decoded cartridge header.
#[derive(Debug)]
pub struct SnesHeader {
    /// The cartridge title: the header's leading 21 bytes decoded as text.
    pub title: String,
    pub makeup: RomMakeup,
    pub kind: RomKind,
    /// The logarithmic size of the ROM in kB: byte count = `1024 << rom_size`.
    pub rom_size: u8,
    /// The logarithmic size of the SRAM in kB: byte count = `1024 << sram_size`.
    pub sram_size: u8,
    pub creator_id: u8,
    pub version: u8,
    pub checksum_complement: u8,
    pub checksum: u8,
    /// Entry points used while the processor runs in native mode.
    pub native_interrupts: InterruptVector,
    /// Entry points used while the processor runs in emulation mode;
    /// execution begins via its reset vector.
    pub emulation_interrupts: InterruptVector,
}

/// The six little-endian 16-bit interrupt entry points of one mode.
#[derive(Clone, Copy, Debug, PartialEq, Eq, Structural)]
pub struct InterruptVector {
    /// Co-processor enable.
    pub cop: u16,
    pub brk: u16,
    pub abort: u16,
    /// Non-maskable interrupt, raised when the vertical blank begins.
    pub nmi: u16,
    /// Reset vector: execution begins here.
    pub reset: u16,
    /// Interrupt request.
    pub irq: u16,
}

/// The cartridge's memory-mapping scheme. Only LoROM is recognized today;
/// any other mapping-mode byte is an `UnsupportedMappingMode` fault.
#[derive(Clone, Copy, Debug, PartialEq, Eq, Structural)]
pub enum RomMakeup {
    LoRom,
}

/// The cartridge's hardware kind.
#[derive(Clone, Copy, Debug, PartialEq, Eq, Structural)]
pub enum RomKind {
    Rom,
    Ram,
    Sram,
    Dsp1,
    Fx,
}

/// The 16-bit value encoded little-endian by the byte pair `(lo, hi)`.
pub open spec fn le16(lo: u8, hi: u8) -> u16 {
    (hi * 0x100 + lo) as u16
}

/// The interrupt vector encoded by a 12-byte window: six little-endian
/// 16-bit entry points, in the order COP, BRK, ABORT, NMI, RESET, IRQ.
pub open spec fn interrupt_vector_spec(bytes: Seq<u8>) -> InterruptVector {
    InterruptVector {
        cop: le16(bytes[0], bytes[1]),
        brk: le16(bytes[2], bytes[3]),
        abort: le16(bytes[4], bytes[5]),
        nmi: le16(bytes[6], bytes[7]),
        reset: le16(bytes[8], bytes[9]),
        irq: le16(bytes[10], bytes[11]),
    }
}

/// The title bytes of a header window: its leading 21 bytes.
pub open spec fn title_bytes(bytes: Seq<u8>) -> Seq<u8> {
    bytes.subrange(0, 21)
}

/// A header window decodes successfully exactly when its title bytes are
/// valid text and its mapping-mode byte names LoROM.
pub open spec fn header_ok(bytes: Seq<u8>) -> bool {
    vstd::utf8::valid_utf8(title_bytes(bytes)) && bytes[21] == 0x20
}

/// The record `h` holds exactly the fields encoded by the 64-byte header
/// window `bytes`.
pub open spec fn header_matches(h: SnesHeader, bytes: Seq<u8>) -> bool {
    &&& h.title@ == vstd::utf8::decode_utf8(title_bytes(bytes))
    &&& h.makeup == RomMakeup::LoRom
    &&& h.kind == RomKind::Rom
    &&& h.rom_size == bytes[23]
    &&& h.sram_size == bytes[24]
    &&& h.creator_id == bytes[25]
    &&& h.version == bytes[27]
    &&& h.checksum_complement == bytes[28]
    &&& h.checksum == bytes[29]
    &&& h.native_interrupts == interrupt_vector_spec(bytes.subrange(0x24, 0x30))
    &&& h.emulation_interrupts == interrupt_vector_spec(bytes.subrange(0x34, 0x40))
}

/// Relies on `str::from_utf8`: it returns `Ok` exactly on valid UTF-8
/// input, and the returned text decodes those bytes. The `&str` is copied
/// into an owned `String`, whose characters it shares.
#[verifier::external_body]
fn decode_text(bytes: &[u8]) -> (r: Option<String>)
    ensures
        r is Some <==> vstd::utf8::valid_utf8(bytes@),
        r matches Some(s) ==> s@ == vstd::utf8::decode_utf8(bytes@),
{
    match core::str::from_utf8(bytes) {
        Ok(s) => Some(String::from(s)),
        Err(_) => None,
    }
}

impl InterruptVector {
    /// Decode the six entry points from a 12-byte window.
    pub fn from_bytes(bytes: &[u8]) -> (r: InterruptVector)
        requires
            bytes@.len() == 12,
        ensures
            r == interrupt_vector_spec(bytes@),
    {
        InterruptVector {
            cop: le16_exec(bytes[0], bytes[1]),
            brk: le16_exec(bytes[2], bytes[3]),
            abort: le16_exec(bytes[4], bytes[5]),
            nmi: le16_exec(bytes[6], bytes[7]),
            reset: le16_exec(bytes[8], bytes[9]),
            irq: le16_exec(bytes[10], bytes[11]),
        }
    }
}

/// Combine a little-endian byte pair into its 16-bit value.
pub(crate) fn le16_exec(lo: u8, hi: u8) -> (r: u16)
    ensures
        r == le16(lo, hi),
{
    (hi as u16) * 0x100 + (lo as u16)
}

impl RomMakeup {
    /// Decode the mapping-mode byte; only the LoROM value 0x20 is
    /// recognized.
    pub fn from_byte(byte: u8) -> (r: Result<RomMakeup, Fault>)
        ensures
            byte == 0x20 ==> r == Ok::<RomMakeup, Fault>(RomMakeup::LoRom),
            byte != 0x20 ==> r == Err::<RomMakeup, Fault>(Fault::UnsupportedMappingMode),
    {
        match byte {
            0x20 => Ok(RomMakeup::LoRom),
            _ => Err(Fault::UnsupportedMappingMode),
        }
    }
}

impl SnesHeader {
    /// Decode a 64-byte header window into a structured record.
    ///
    /// Succeeds exactly when the title bytes are valid text and the
    /// mapping-mode byte names LoROM; an unreadable title is reported
    /// before an unsupported mapping mode, matching the order the fields
    /// are read in.
    pub fn from_bytes(bytes: &[u8]) -> (r: Result<SnesHeader, Fault>)
        requires
            bytes@.len() == HEADER_LEN,
        ensures
            r is Ok <==> header_ok(bytes@),
            !vstd::utf8::valid_utf8(title_bytes(bytes@)) ==> r == Err::<SnesHeader, Fault>(
                Fault::InvalidHeaderEncoding,
            ),
            vstd::utf8::valid_utf8(title_bytes(bytes@)) && bytes@[21] != 0x20 ==> r == Err::<
                SnesHeader,
                Fault,
            >(Fault::UnsupportedMappingMode),
            r matches Ok(h) ==> header_matches(h, bytes@),
    {
        let title = match decode_text(slice_window(bytes, 0, 21)) {
            Some(t) => t,
            None => {
                return Err(Fault::InvalidHeaderEncoding);
            },
        };
        let makeup = match RomMakeup::from_byte(bytes[21]) {
            Ok(m) => m,
            Err(f) => {
                return Err(f);
            },
        };
        Ok(
            SnesHeader {
                title,
                makeup,
                kind: RomKind::Rom,
                rom_size: bytes[23],
                sram_size: bytes[24],
                creator_id: bytes[25],
                version: bytes[27],
                checksum_complement: bytes[28],
                checksum: bytes[29],
                native_interrupts: InterruptVector::from_bytes(slice_window(bytes, 0x24, 0x30)),
                emulation_interrupts: InterruptVector::from_bytes(slice_window(bytes, 0x34, 0x40)),
            },
        )
    }
}

/// Borrow the sub-window `[start, end)` of a byte slice.
fn slice_window(bytes: &[u8], start: usize, end: usize) -> (r: &[u8])
    requires
        start <= end <= bytes@.len(),
    ensures
        r@ == bytes@.subrange(start as int, end as int),
{
    vstd::slice::slice_subrange(bytes, start, end)
}

} // verus!
