//! The memory map: the single authority that translates a (bank, offset)
//! pair of the 24-bit address space into a physical storage location and
//! performs the byte access, honoring the LoROM bank layout.

use crate::fault::Fault;
use crate::snes_header::{header_ok, header_matches, title_bytes, SnesHeader};
use vstd::prelude::*;

pub mod registers;

use registers::{HardwareRegister, HardwareRegisters};

verus! {

/// Size of the console's work RAM in bytes: 128 KiB.
pub const WRAM_SIZE: usize = 128 * 1024;

/// 128 KiB of work RAM (WRAM), zero-initialized at construction.
pub struct WorkRam {
    data: Vec<u8>,
}

/// Save RAM: a placeholder for persistent cartridge storage, named here as
/// a future extension point; no storage is modeled yet.
pub struct SaveRam;

/// The contents of work RAM as it leaves the constructor: all zeroes.
pub open spec fn zeroed_wram() -> Seq<u8> {
    Seq::new(WRAM_SIZE as nat, |i: int| 0u8)
}

impl View for WorkRam {
    type V = Seq<u8>;

    closed spec fn view(&self) -> Seq<u8> {
        self.data@
    }
}

impl WorkRam {
    pub fn new() -> (r: WorkRam)
        ensures
            r@ == zeroed_wram(),
    {
        let mut data: Vec<u8> = Vec::new();
        let mut i: usize = 0;
        while i < WRAM_SIZE
            invariant
                i <= WRAM_SIZE,
                data@.len() == i,
                forall|j: int| 0 <= j < i ==> data@[j] == 0u8,
            decreases WRAM_SIZE - i,
        {
            data.push(0);
            i = i + 1;
        }
        proof {
            assert(data@ =~= zeroed_wram());
        }
        WorkRam { data }
    }
}

/// The resolved target of a translated address: a ROM byte offset, a work
/// RAM byte offset, or the identity of one named hardware register. An
/// internal, short-lived value computed once per access.
#[derive(Clone, Copy, Debug, PartialEq, Eq, Structural)]
pub enum MemoryAccess {
    Rom(usize),
    Wram(usize),
    Register(HardwareRegister),
}

/// The memory map's mathematical model: the ROM image, the work RAM
/// contents and the hardware register cells.
#[verifier::ext_equal]
pub struct MemoryMapView {
    pub rom: Seq<u8>,
    pub wram: Seq<u8>,
    pub regs: HardwareRegisters,
}

impl MemoryMapView {
    /// Work RAM always holds exactly `WRAM_SIZE` bytes.
    pub open spec fn wf(self) -> bool {
        self.wram.len() == WRAM_SIZE
    }
}

/// Strip the mirror bit: banks 0x80-0xFD behave as their counterparts
/// 0x00-0x7D; banks 0xFE-0xFF are their own (unimplemented) region.
pub open spec fn mirror_base(bank: u8) -> u8 {
    if 0x80 <= bank <= 0xFD {
        (bank - 0x80) as u8
    } else {
        bank
    }
}

/// The address-to-identity lookup of the hardware register bank:
/// screen-display at 0x2100, the four APU I/O ports at 0x2140-0x2143,
/// interrupt-enable at 0x4200, DMA-enable at 0x420B, HDMA-enable at
/// 0x420C. Every other offset inside the register-routed ranges is
/// unmapped.
pub open spec fn register_at(addr: u16) -> Option<HardwareRegister> {
    if addr == 0x2100 {
        Some(HardwareRegister::ScreenDisplay)
    } else if addr == 0x2140 {
        Some(HardwareRegister::ApuIo0)
    } else if addr == 0x2141 {
        Some(HardwareRegister::ApuIo1)
    } else if addr == 0x2142 {
        Some(HardwareRegister::ApuIo2)
    } else if addr == 0x2143 {
        Some(HardwareRegister::ApuIo3)
    } else if addr == 0x4200 {
        Some(HardwareRegister::InterruptEnable)
    } else if addr == 0x420b {
        Some(HardwareRegister::DmaEnable)
    } else if addr == 0x420c {
        Some(HardwareRegister::HdmaEnable)
    } else {
        None
    }
}

/// The LoROM bank-routing table: which storage location a (bank, offset)
/// pair reaches, or `None` where the sub-range is unmapped today.
///
/// Banks 0x00-0x3F (and their mirrors 0x80-0xBF): offsets 0x0000-0x1FFF
/// alias the low 8 KiB of work RAM; 0x2100-0x21FF, 0x4000-0x40FF and
/// 0x4200-0x44FF route to the hardware register bank; 0x8000-0xFFFF map
/// linearly into ROM at `bank * 0x8000 + offset - 0x8000`. All other
/// regions (extended LoROM, cartridge SRAM, the direct work-RAM banks
/// 0x7E-0x7F and banks 0xFE-0xFF) are unmapped extension points.
pub open spec fn resolve(bank: u8, addr: u16) -> Option<MemoryAccess> {
    let base = mirror_base(bank);
    if base <= 0x3f {
        if addr <= 0x1fff {
            Some(MemoryAccess::Wram(addr as usize))
        } else if (0x2100 <= addr <= 0x21ff) || (0x4000 <= addr <= 0x40ff) || (0x4200 <= addr
            <= 0x44ff) {
            match register_at(addr) {
                Some(reg) => Some(MemoryAccess::Register(reg)),
                None => None,
            }
        } else if addr >= 0x8000 {
            Some(MemoryAccess::Rom((base * 0x8000 + addr - 0x8000) as usize))
        } else {
            None
        }
    } else {
        None
    }
}

/// The outcome of reading one byte at (bank, addr): the stored byte, or
/// the fault the access raises. A ROM offset past the end of the image is
/// unmapped.
pub open spec fn read8(m: MemoryMapView, bank: u8, addr: u16) -> Result<u8, Fault> {
    match resolve(bank, addr) {
        Some(MemoryAccess::Rom(i)) => if i < m.rom.len() {
            Ok(m.rom[i as int])
        } else {
            Err(Fault::UnmappedAddress { bank, addr })
        },
        Some(MemoryAccess::Wram(i)) => Ok(m.wram[i as int]),
        Some(MemoryAccess::Register(reg)) => Ok(m.regs.value_of(reg)),
        None => Err(Fault::UnmappedAddress { bank, addr }),
    }
}

/// The memory contents after writing one byte at (bank, addr): work RAM or
/// a register cell is updated; a rejected write leaves everything - in
/// particular the ROM - unchanged.
pub open spec fn written(m: MemoryMapView, bank: u8, addr: u16, value: u8) -> MemoryMapView {
    match resolve(bank, addr) {
        Some(MemoryAccess::Wram(i)) => MemoryMapView { wram: m.wram.update(i as int, value), ..m },
        Some(MemoryAccess::Register(reg)) => MemoryMapView {
            regs: m.regs.with_value(reg, value),
            ..m
        },
        _ => m,
    }
}

/// The outcome a write at (bank, addr) reports: a ROM target is a
/// write-protection violation, an unmapped target is an unmapped-address
/// fault, any other target accepts the byte.
pub open spec fn write_result(bank: u8, addr: u16) -> Result<(), Fault> {
    match resolve(bank, addr) {
        Some(MemoryAccess::Rom(i)) => Err(Fault::WriteProtectionViolation { bank, addr }),
        Some(MemoryAccess::Wram(i)) => Ok(()),
        Some(MemoryAccess::Register(reg)) => Ok(()),
        None => Err(Fault::UnmappedAddress { bank, addr }),
    }
}

/// Bank-mirroring equivalence: a mirrored bank resolves to exactly the
/// storage location of its base bank, for every offset, and a read that
/// succeeds returns the identical byte through either bank. (A faulting
/// access reports the bank byte it was actually made with.)
pub proof fn lemma_bank_mirroring(m: MemoryMapView, bank: u8, addr: u16)
    requires
        bank <= 0x7d,
    ensures
        resolve((bank + 0x80) as u8, addr) == resolve(bank, addr),
        read8(m, bank, addr) is Ok ==> read8(m, (bank + 0x80) as u8, addr) == read8(
            m,
            bank,
            addr,
        ),
{
}

/// Each named hardware register answers at exactly one offset.
pub proof fn lemma_register_at_injective(a1: u16, a2: u16)
    requires
        register_at(a1) is Some,
        register_at(a1) == register_at(a2),
    ensures
        a1 == a2,
{
}

/// Writing keeps the work RAM at its fixed size.
pub proof fn lemma_written_wf(m: MemoryMapView, bank: u8, addr: u16, value: u8)
    requires
        m.wf(),
    ensures
        written(m, bank, addr, value).wf(),
{
}

/// Reading back the cell an accepted write targeted returns the written
/// byte.
pub proof fn lemma_write_read(m: MemoryMapView, bank: u8, addr: u16, value: u8)
    requires
        m.wf(),
        write_result(bank, addr) is Ok,
    ensures
        read8(written(m, bank, addr, value), bank, addr) == Ok::<u8, Fault>(value),
{
}

/// A write leaves every other resolved cell exactly as it was.
pub proof fn lemma_write_read_other(
    m: MemoryMapView,
    bank: u8,
    addr: u16,
    value: u8,
    bank2: u8,
    addr2: u16,
)
    requires
        m.wf(),
        resolve(bank2, addr2) != resolve(bank, addr),
    ensures
        read8(written(m, bank, addr, value), bank2, addr2) == read8(m, bank2, addr2),
{
}

/// The 64-byte header window at the LoROM header offset of an image.
pub open spec fn header_window(rom: Seq<u8>) -> Seq<u8> {
    rom.subrange(0x7fc0, 0x8000)
}

/// Maps the console's 24-bit address space onto cartridge ROM, work RAM,
/// save RAM and the hardware register bank.
pub struct MemoryMap {
    rom: Vec<u8>,
    wram: WorkRam,
    sram: SaveRam,
    hardware_registers: HardwareRegisters,
}

impl View for MemoryMap {
    type V = MemoryMapView;

    closed spec fn view(&self) -> MemoryMapView {
        MemoryMapView { rom: self.rom@, wram: self.wram@, regs: self.hardware_registers }
    }
}

impl MemoryMap {
    #[verifier::type_invariant]
    spec fn type_wf(self) -> bool {
        self@.wf()
    }

    /// Take ownership of a cartridge image and attach fresh, zeroed work
    /// RAM and hardware registers to it.
    pub fn new(rom: Vec<u8>) -> (m: MemoryMap)
        ensures
            m@.rom == rom@,
            m@.wram == zeroed_wram(),
            m@.regs == HardwareRegisters::zeroed(),
            m@.wf(),
    {
        MemoryMap {
            rom,
            wram: WorkRam::new(),
            sram: SaveRam,
            hardware_registers: HardwareRegisters::default(),
        }
    }

    /// Decode the cartridge header found at the LoROM header offset of the
    /// owned image; an image too short to hold the header window is
    /// malformed.
    pub fn get_snes_header(&self) -> (r: Result<SnesHeader, Fault>)
        ensures
            self@.rom.len() < 0x8000 ==> r == Err::<SnesHeader, Fault>(Fault::MalformedRom),
            self@.rom.len() >= 0x8000 ==> {
                &&& r is Ok <==> header_ok(header_window(self@.rom))
                &&& (r matches Ok(h) ==> header_matches(h, header_window(self@.rom)))
                &&& !vstd::utf8::valid_utf8(title_bytes(header_window(self@.rom))) ==> r == Err::<
                    SnesHeader,
                    Fault,
                >(Fault::InvalidHeaderEncoding)
                &&& vstd::utf8::valid_utf8(title_bytes(header_window(self@.rom)))
                    && header_window(self@.rom)[21] != 0x20 ==> r == Err::<SnesHeader, Fault>(
                    Fault::UnsupportedMappingMode,
                )
            },
    {
        self.get_lorom_header()
    }

    /// Slice out the LoROM header window and decode it.
    fn get_lorom_header(&self) -> (r: Result<SnesHeader, Fault>)
        ensures
            self@.rom.len() < 0x8000 ==> r == Err::<SnesHeader, Fault>(Fault::MalformedRom),
            self@.rom.len() >= 0x8000 ==> {
                &&& r is Ok <==> header_ok(header_window(self@.rom))
                &&& (r matches Ok(h) ==> header_matches(h, header_window(self@.rom)))
                &&& !vstd::utf8::valid_utf8(title_bytes(header_window(self@.rom))) ==> r == Err::<
                    SnesHeader,
                    Fault,
                >(Fault::InvalidHeaderEncoding)
                &&& vstd::utf8::valid_utf8(title_bytes(header_window(self@.rom)))
                    && header_window(self@.rom)[21] != 0x20 ==> r == Err::<SnesHeader, Fault>(
                    Fault::UnsupportedMappingMode,
                )
            },
    {
        if self.rom.len() < 0x8000 {
            return Err(Fault::MalformedRom);
        }
        let window = vstd::slice::slice_subrange(self.rom.as_slice(), 0x7fc0, 0x8000);
        SnesHeader::from_bytes(window)
    }

    /// Resolve the target and return its byte.
    pub fn get_byte(&self, bank: u8, addr: u16) -> (r: Result<u8, Fault>)
        ensures
            r == read8(self@, bank, addr),
            self@.wf(),
    {
        proof {
            use_type_invariant(&*self);
        }
        match self.get_memory_access_lorom(bank, addr) {
            Some(MemoryAccess::Rom(index)) => {
                if index < self.rom.len() {
                    Ok(self.rom[index])
                } else {
                    Err(Fault::UnmappedAddress { bank, addr })
                }
            },
            Some(MemoryAccess::Wram(index)) => Ok(self.wram.data[index]),
            Some(MemoryAccess::Register(reg)) => Ok(self.hardware_registers.read(reg)),
            None => Err(Fault::UnmappedAddress { bank, addr }),
        }
    }

    /// Resolve the target and write the byte, rejecting writes to ROM.
    ///
    /// The ROM bytes are unchanged whatever the outcome: write protection
    /// is enforced here, once, for every caller.
    pub fn set_byte(&mut self, bank: u8, addr: u16, value: u8) -> (r: Result<(), Fault>)
        ensures
            final(self)@ == written(old(self)@, bank, addr, value),
            r == write_result(bank, addr),
            final(self)@.rom == old(self)@.rom,
            final(self)@.wf(),
    {
        proof {
            use_type_invariant(&*self);
        }
        match self.get_memory_access_lorom(bank, addr) {
            Some(MemoryAccess::Rom(index)) => {
                proof {
                    assert(self@ =~= written(self@, bank, addr, value));
                }
                Err(Fault::WriteProtectionViolation { bank, addr })
            },
            Some(MemoryAccess::Wram(index)) => {
                self.wram.data[index] = value;
                proof {
                    assert(self@ =~= written(old(self)@, bank, addr, value));
                }
                Ok(())
            },
            Some(MemoryAccess::Register(reg)) => {
                let mut cells = self.hardware_registers;
                cells.write(reg, value);
                self.hardware_registers = cells;
                proof {
                    assert(self@ =~= written(old(self)@, bank, addr, value));
                }
                Ok(())
            },
            None => {
                proof {
                    assert(self@ =~= written(self@, bank, addr, value));
                }
                Err(Fault::UnmappedAddress { bank, addr })
            },
        }
    }

    // ============== //
    // LoROM mappings //
    // ============== //

    /// Route a (bank, offset) pair through the LoROM bank table.
    pub fn get_memory_access_lorom(&self, bank: u8, addr: u16) -> (r: Option<MemoryAccess>)
        ensures
            r == resolve(bank, addr),
    {
        if bank <= 0x3f {
            self.get_bank_00_3f(bank, addr)
        } else if bank <= 0x6f {
            self.get_bank_40_6f(bank, addr)
        } else if bank <= 0x7d {
            self.get_bank_70_7d(bank, addr)
        } else if bank == 0x7e {
            self.get_bank_7e(addr)
        } else if bank == 0x7f {
            self.get_bank_7f(addr)
        } else if bank <= 0xbf {
            self.get_bank_00_3f(bank - 0x80, addr)
        } else if bank <= 0xef {
            self.get_bank_40_6f(bank - 0xc0 + 0x40, addr)
        } else if bank <= 0xfd {
            self.get_bank_70_7d(bank - 0xf0 + 0x70, addr)
        } else {
            self.get_bank_fe_ff(bank, addr)
        }
    }

    /// Banks 0x00-0x3F: low work-RAM alias, hardware registers, and the
    /// LoROM window; the remaining sub-ranges are unmapped (reserved for
    /// PPU and enhancement-chip registers not yet modeled).
    fn get_bank_00_3f(&self, bank: u8, addr: u16) -> (r: Option<MemoryAccess>)
        requires
            bank <= 0x3f,
        ensures
            r == resolve(bank, addr),
    {
        if addr <= 0x1fff {
            // LowRAM, shadowed from bank 0x7E
            Some(MemoryAccess::Wram(addr as usize))
        } else if 0x2100 <= addr && addr <= 0x21ff {
            // PPU1, APU hardware registers
            Self::get_hardware_register(addr)
        } else if 0x4000 <= addr && addr <= 0x40ff {
            // Old-style joypad registers; none is modeled yet
            Self::get_hardware_register(addr)
        } else if 0x4200 <= addr && addr <= 0x44ff {
            // DMA, PPU2 hardware registers
            Self::get_hardware_register(addr)
        } else if addr >= 0x8000 {
            // The 32 KiB LoROM window of this bank
            let index = (bank as u32) * 0x8000 + (addr as u32) - 0x8000;
            Some(MemoryAccess::Rom(index as usize))
        } else {
            // Unused or reserved (enhancement-chip memory)
            None
        }
    }

    /// Banks 0x40-0x6F: extended LoROM mapping - not yet implemented.
    fn get_bank_40_6f(&self, bank: u8, addr: u16) -> (r: Option<MemoryAccess>)
        requires
            0x40 <= bank <= 0x6f,
        ensures
            r == resolve(bank, addr),
    {
        None
    }

    /// Banks 0x70-0x7D: cartridge SRAM and extended LoROM - not yet
    /// implemented.
    fn get_bank_70_7d(&self, bank: u8, addr: u16) -> (r: Option<MemoryAccess>)
        requires
            0x70 <= bank <= 0x7d,
        ensures
            r == resolve(bank, addr),
    {
        None
    }

    /// Bank 0x7E: direct low, high and extended work RAM - not yet
    /// implemented; today only the alias from banks 0x00-0x3F functions.
    fn get_bank_7e(&self, addr: u16) -> (r: Option<MemoryAccess>)
        ensures
            r == resolve(0x7e, addr),
    {
        None
    }

    /// Bank 0x7F: extended work RAM - not yet implemented.
    fn get_bank_7f(&self, addr: u16) -> (r: Option<MemoryAccess>)
        ensures
            r == resolve(0x7f, addr),
    {
        None
    }

    /// Banks 0xFE-0xFF: cartridge SRAM and the final LoROM segment - not
    /// yet implemented.
    fn get_bank_fe_ff(&self, bank: u8, addr: u16) -> (r: Option<MemoryAccess>)
        requires
            0xfe <= bank,
        ensures
            r == resolve(bank, addr),
    {
        None
    }

    /// The address-to-identity lookup for the register-routed ranges.
    fn get_hardware_register(addr: u16) -> (r: Option<MemoryAccess>)
        ensures
            r == match register_at(addr) {
                Some(reg) => Some(MemoryAccess::Register(reg)),
                None => None,
            },
    {
        if addr == 0x2100 {
            Some(MemoryAccess::Register(HardwareRegister::ScreenDisplay))
        } else if addr == 0x2140 {
            Some(MemoryAccess::Register(HardwareRegister::ApuIo0))
        } else if addr == 0x2141 {
            Some(MemoryAccess::Register(HardwareRegister::ApuIo1))
        } else if addr == 0x2142 {
            Some(MemoryAccess::Register(HardwareRegister::ApuIo2))
        } else if addr == 0x2143 {
            Some(MemoryAccess::Register(HardwareRegister::ApuIo3))
        } else if addr == 0x4200 {
            Some(MemoryAccess::Register(HardwareRegister::InterruptEnable))
        } else if addr == 0x420b {
            Some(MemoryAccess::Register(HardwareRegister::DmaEnable))
        } else if addr == 0x420c {
            Some(MemoryAccess::Register(HardwareRegister::HdmaEnable))
        } else {
            None
        }
    }
}

} // verus!
