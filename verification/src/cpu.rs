//! The 65C816-family processor core: the fetch, decode and execute state
//! machine, the addressing-mode resolver, and the spec-level model of one
//! execution step.

use crate::fault::Fault;
use crate::memory_map::{
    header_window, read8, write_result, written, MemoryMap, MemoryMapView,
};
use crate::snes_header::{header_ok, le16, title_bytes, InterruptVector};
use vstd::prelude::*;

pub mod registers;

use registers::{CpuRegisters, ProcessorStatus};

verus! {

/// The operand description of a decoded instruction: one of the 65C816
/// addressing modes, carrying exactly the operand bytes needed to resolve
/// a final (bank, offset) pair or an immediate literal. Resolution happens
/// at execution time against current register state.
#[allow(inconsistent_fields)]
#[derive(Clone, Copy, Debug, PartialEq, Eq, Structural)]
pub enum Address {
    /// DBR | addr
    Absolute { addr: u16 },
    /// PBR | (X+offset)
    AbsoluteIndexedIndirect { offset: u16 },
    /// DBR | (X+offset)
    AbsoluteIndexed { offset: u16 },
    /// DBR | (Y+offset)
    AbsoluteIndexedY { offset: u16 },
    /// 0x00 | addr
    AbsoluteIndirect { addr: u16 },
    /// bank | addr
    AbsoluteLong { bank: u8, addr: u16 },
    /// bank | (X+addr)
    AbsoluteLongIndexed { bank: u8, addr: u16 },
    /// DBR | A
    Accumulator,
    /// Source address src_bank | X, destination address dst_bank | Y
    BlockMove { src_bank: u8, dst_bank: u8 },
    /// Also known as indirect X addressing: DBR | (D+X+offset)
    DirectIndexedIndirect { offset: u8 },
    /// 0x00 | (D+X+offset)
    DirectIndexed { offset: u8 },
    /// 0x00 | (D+Y+offset)
    DirectIndexedY { offset: u8 },
    /// Also known as indirect Y addressing: (DBR | (D+offset)) + Y
    DirectIndirectIndexed { offset: u8 },
    /// (0x00 | (D+offset)) + Y
    DirectIndirectLongIndexed { offset: u8 },
    /// 0x00 | (D+offset)
    DirectIndirectLong { offset: u8 },
    /// DBR | (D+offset)
    DirectIndirect { offset: u8 },
    /// 0x00 | (D+offset)
    Direct { offset: u8 },
    /// The operand byte is the datum itself; an immediate has no location.
    Immediate8 { data: u8 },
    /// The operand byte pair is the datum itself; an immediate has no
    /// location.
    Immediate16 { data: u16 },
    /// Varies by instruction.
    Implied,
    /// PBR | (PC+offset)
    ProgramCounterRelativeLong { offset: i16 },
    /// PBR | (PC+offset)
    ProgramCounterRelative { offset: i8 },
    /// 0x00 | stack
    Stack,
    /// 0x00 | (S+offset)
    StackRelative { offset: u8 },
    /// (DBR | (S+offset)) + Y
    StackRelativeIndirectIndexed { offset: u8 },
}

/// A decoded instruction; only a subset of the full 65C816 set is modeled
/// today. Width-polymorphic opcodes capture their operand shape at fetch
/// time, since the width flags may change before a later instruction.
#[derive(Clone, Copy, Debug, PartialEq, Eq, Structural)]
pub enum Instruction {
    /// SEI: disable interrupt requests.
    DisableInterruptRequests,
    /// CLC: clear the carry flag.
    ClearCarry,
    /// XCE: copy the carry flag into the emulation-mode bit.
    ExchangeCarryEmulator,
    /// REP: clear every status flag bit set in the mask.
    ResetStatusFlags(u8),
    /// JMP: jump to an address.
    Jump(Address),
    /// LDA: load the accumulator from memory.
    LoadAccumulator(Address),
    /// STA: store the accumulator to memory.
    StoreAccumulator(Address),
    /// STZ: store a zero byte to memory.
    StoreZero(Address),
}

/// 16-bit address arithmetic wraps around within a bank.
pub open spec fn wrap16(base: u16, delta: u16) -> u16 {
    if base + delta > 0xffff {
        (base + delta - 0x10000) as u16
    } else {
        (base + delta) as u16
    }
}

/// The addressing modes whose operand size (and, where they carry one,
/// location) is modeled today.
pub open spec fn supported_arg(a: Address) -> bool {
    ||| a is Absolute
    ||| a is AbsoluteLong
    ||| a is Immediate8
    ||| a is Immediate16
}

/// Operand byte count of the supported addressing modes.
pub open spec fn arg_size_spec(a: Address) -> u8 {
    match a {
        Address::Absolute { .. } => 2,
        Address::AbsoluteLong { .. } => 3,
        Address::Immediate8 { .. } => 1,
        Address::Immediate16 { .. } => 2,
        _ => 0,
    }
}

/// An instruction's byte size is computable exactly when its operand's
/// addressing mode is supported.
pub open spec fn sized(i: Instruction) -> bool {
    match i {
        Instruction::Jump(a) => supported_arg(a),
        Instruction::LoadAccumulator(a) => supported_arg(a),
        Instruction::StoreAccumulator(a) => supported_arg(a),
        Instruction::StoreZero(a) => supported_arg(a),
        _ => true,
    }
}

/// Byte size of a decoded instruction: the opcode byte plus its operand
/// bytes.
pub open spec fn size_spec(i: Instruction) -> u8 {
    match i {
        Instruction::Jump(a) => (1 + arg_size_spec(a)) as u8,
        Instruction::LoadAccumulator(a) => (1 + arg_size_spec(a)) as u8,
        Instruction::StoreAccumulator(a) => (1 + arg_size_spec(a)) as u8,
        Instruction::StoreZero(a) => (1 + arg_size_spec(a)) as u8,
        Instruction::ResetStatusFlags(_) => 2,
        _ => 1,
    }
}

/// An instruction may be asked for a raw location only where its operand
/// bears one: immediates have no address, and handing one to the resolver
/// is a programming-contract violation, not a data error.
pub open spec fn operand_wf(i: Instruction) -> bool {
    match i {
        Instruction::Jump(a) => !(a is Immediate8) && !(a is Immediate16),
        Instruction::StoreAccumulator(a) => !(a is Immediate8) && !(a is Immediate16),
        Instruction::StoreZero(a) => !(a is Immediate8) && !(a is Immediate16),
        _ => true,
    }
}

/// Exactly the shapes the decoder can produce: location operands resolved
/// through a supported, location-bearing mode, and immediate operands only
/// on the accumulator load.
pub open spec fn decoded_wf(i: Instruction) -> bool {
    match i {
        Instruction::Jump(a) => a is Absolute || a is AbsoluteLong,
        Instruction::LoadAccumulator(a) => a is Immediate8 || a is Immediate16,
        Instruction::StoreAccumulator(a) => a is Absolute,
        Instruction::StoreZero(a) => a is Absolute,
        _ => true,
    }
}

impl Address {
    /// Operand byte count of this addressing mode, where it is modeled.
    pub fn arg_size(&self) -> (r: Result<u8, Fault>)
        ensures
            supported_arg(*self) ==> r == Ok::<u8, Fault>(arg_size_spec(*self)),
            !supported_arg(*self) ==> r == Err::<u8, Fault>(Fault::UnimplementedAddressingMode),
    {
        match self {
            Address::Absolute { .. } => Ok(2),
            Address::AbsoluteLong { .. } => Ok(3),
            Address::Immediate8 { .. } => Ok(1),
            Address::Immediate16 { .. } => Ok(2),
            _ => Err(Fault::UnimplementedAddressingMode),
        }
    }
}

impl Instruction {
    /// Byte size of this instruction, where its operand's mode is modeled.
    pub fn size(&self) -> (r: Result<u8, Fault>)
        ensures
            sized(*self) ==> r == Ok::<u8, Fault>(size_spec(*self)),
            !sized(*self) ==> r == Err::<u8, Fault>(Fault::UnimplementedAddressingMode),
    {
        match self {
            Instruction::Jump(addr) | Instruction::StoreZero(addr) | Instruction::LoadAccumulator(
                addr,
            ) | Instruction::StoreAccumulator(addr) => match addr.arg_size() {
                Ok(s) => Ok(1 + s),
                Err(f) => Err(f),
            },
            Instruction::ResetStatusFlags(_) => Ok(2),
            Instruction::DisableInterruptRequests | Instruction::ClearCarry
                | Instruction::ExchangeCarryEmulator => Ok(1),
        }
    }
}

// ==================== //
// The spec-level model //
// ==================== //

/// The byte `delta` places past the program counter, read through the
/// memory map.
pub open spec fn arg_byte(regs: CpuRegisters, m: MemoryMapView, delta: u16) -> Result<u8, Fault> {
    read8(m, regs.program_bank, wrap16(regs.program_counter, delta))
}

/// Decode of an absolute operand: the little-endian byte pair after the
/// opcode.
pub open spec fn absolute_arg_spec(regs: CpuRegisters, m: MemoryMapView) -> Result<
    Address,
    Fault,
> {
    match arg_byte(regs, m, 1) {
        Err(f) => Err(f),
        Ok(low) => match arg_byte(regs, m, 2) {
            Err(f) => Err(f),
            Ok(high) => Ok(Address::Absolute { addr: le16(low, high) }),
        },
    }
}

/// Decode of an absolute-long operand: a little-endian address pair
/// followed by its explicit bank byte.
pub open spec fn absolute_long_arg_spec(regs: CpuRegisters, m: MemoryMapView) -> Result<
    Address,
    Fault,
> {
    match arg_byte(regs, m, 1) {
        Err(f) => Err(f),
        Ok(low) => match arg_byte(regs, m, 2) {
            Err(f) => Err(f),
            Ok(high) => match arg_byte(regs, m, 3) {
                Err(f) => Err(f),
                Ok(bank) => Ok(Address::AbsoluteLong { bank, addr: le16(low, high) }),
            },
        },
    }
}

/// Decode of an 8-bit immediate operand.
pub open spec fn immediate8_arg_spec(regs: CpuRegisters, m: MemoryMapView) -> Result<
    Address,
    Fault,
> {
    match arg_byte(regs, m, 1) {
        Err(f) => Err(f),
        Ok(data) => Ok(Address::Immediate8 { data }),
    }
}

/// Decode of a 16-bit immediate operand: a little-endian byte pair.
pub open spec fn immediate16_arg_spec(regs: CpuRegisters, m: MemoryMapView) -> Result<
    Address,
    Fault,
> {
    match arg_byte(regs, m, 1) {
        Err(f) => Err(f),
        Ok(low) => match arg_byte(regs, m, 2) {
            Err(f) => Err(f),
            Ok(high) => Ok(Address::Immediate16 { data: le16(low, high) }),
        },
    }
}

/// The full decode relation: the instruction fetched at (program bank,
/// program counter), or the fault the fetch raises. The accumulator load
/// inspects the current accumulator-width flag to pick an 8- or 16-bit
/// immediate shape before consuming further bytes; an unrecognized opcode
/// is an `UnimplementedOpcode` fault carrying the raw byte.
pub open spec fn fetch_spec(regs: CpuRegisters, m: MemoryMapView) -> Result<Instruction, Fault> {
    match arg_byte(regs, m, 0) {
        Err(f) => Err(f),
        Ok(opcode) => if opcode == 0x18 {
            Ok(Instruction::ClearCarry)
        } else if opcode == 0x4c {
            match absolute_arg_spec(regs, m) {
                Err(f) => Err(f),
                Ok(a) => Ok(Instruction::Jump(a)),
            }
        } else if opcode == 0x5c {
            match absolute_long_arg_spec(regs, m) {
                Err(f) => Err(f),
                Ok(a) => Ok(Instruction::Jump(a)),
            }
        } else if opcode == 0x78 {
            Ok(Instruction::DisableInterruptRequests)
        } else if opcode == 0x9c {
            match absolute_arg_spec(regs, m) {
                Err(f) => Err(f),
                Ok(a) => Ok(Instruction::StoreZero(a)),
            }
        } else if opcode == 0x8d {
            match absolute_arg_spec(regs, m) {
                Err(f) => Err(f),
                Ok(a) => Ok(Instruction::StoreAccumulator(a)),
            }
        } else if opcode == 0xa9 {
            if regs.processor_status.accumulator() {
                match immediate8_arg_spec(regs, m) {
                    Err(f) => Err(f),
                    Ok(a) => Ok(Instruction::LoadAccumulator(a)),
                }
            } else {
                match immediate16_arg_spec(regs, m) {
                    Err(f) => Err(f),
                    Ok(a) => Ok(Instruction::LoadAccumulator(a)),
                }
            }
        } else if opcode == 0xc2 {
            match arg_byte(regs, m, 1) {
                Err(f) => Err(f),
                Ok(mask) => Ok(Instruction::ResetStatusFlags(mask)),
            }
        } else if opcode == 0xfb {
            Ok(Instruction::ExchangeCarryEmulator)
        } else {
            Err(
                Fault::UnimplementedOpcode {
                    opcode,
                    bank: regs.program_bank,
                    addr: regs.program_counter,
                },
            )
        },
    }
}

/// The register file with the given status byte.
pub open spec fn with_status(regs: CpuRegisters, p: ProcessorStatus) -> CpuRegisters {
    CpuRegisters { processor_status: p, ..regs }
}

/// The register file after the program counter advanced by `delta`
/// bytes, wrapping within the bank.
pub open spec fn advance_spec(regs: CpuRegisters, delta: u8) -> CpuRegisters {
    CpuRegisters { program_counter: wrap16(regs.program_counter, delta as u16), ..regs }
}

/// The raw (bank, offset) location an operand resolves to: an absolute
/// operand resolves against the current data-bank register, an
/// absolute-long operand carries its own bank, and every other
/// location-bearing mode is not modeled yet.
pub open spec fn raw_address_spec(regs: CpuRegisters, a: Address) -> Result<(u8, u16), Fault> {
    match a {
        Address::Absolute { addr } => Ok((regs.data_bank, addr)),
        Address::AbsoluteLong { bank, addr } => Ok((bank, addr)),
        _ => Err(Fault::UnimplementedAddressingMode),
    }
}

/// The datum an operand denotes: an immediate is its own datum; a
/// location-bearing operand is read through the memory map, two bytes
/// little-endian when `wide` asks for 16 bits.
pub open spec fn get_data_spec(regs: CpuRegisters, m: MemoryMapView, a: Address, wide: bool) -> Result<
    u16,
    Fault,
> {
    match a {
        Address::Immediate8 { data } => Ok(data as u16),
        Address::Immediate16 { data } => Ok(data),
        _ => match raw_address_spec(regs, a) {
            Err(f) => Err(f),
            Ok(loc) => match read8(m, loc.0, loc.1) {
                Err(f) => Err(f),
                Ok(low) => if wide {
                    match read8(m, loc.0, wrap16(loc.1, 1)) {
                        Err(f) => Err(f),
                        Ok(high) => Ok(le16(low, high)),
                    }
                } else {
                    Ok(low as u16)
                },
            },
        },
    }
}

/// Effect of a jump: program bank and counter are set from the operand's
/// resolved location; a location that cannot be resolved leaves the
/// registers untouched and reports the fault.
pub open spec fn jump_spec(regs: CpuRegisters, a: Address) -> (CpuRegisters, Result<(), Fault>) {
    match raw_address_spec(regs, a) {
        Ok(loc) => (
            CpuRegisters { program_bank: loc.0, program_counter: loc.1, ..regs },
            Ok(()),
        ),
        Err(f) => (regs, Err(f)),
    }
}

/// Effect of an accumulator load: 1 or 2 bytes per the accumulator-width
/// flag, zero-extended into the 16-bit accumulator register.
pub open spec fn load_acc_spec(regs: CpuRegisters, m: MemoryMapView, a: Address) -> (
    CpuRegisters,
    Result<(), Fault>,
) {
    match get_data_spec(regs, m, a, !regs.processor_status.accumulator()) {
        Ok(v) => (CpuRegisters { accumulator: v, ..regs }, Ok(())),
        Err(f) => (regs, Err(f)),
    }
}

/// Effect of an accumulator store: the low byte goes to the resolved
/// location; in 16-bit mode the high byte follows at the next offset.
/// The low-byte write lands even when the high-byte write then faults.
pub open spec fn store_acc_spec(regs: CpuRegisters, m: MemoryMapView, a: Address) -> (
    MemoryMapView,
    Result<(), Fault>,
) {
    match raw_address_spec(regs, a) {
        Err(f) => (m, Err(f)),
        Ok(loc) => {
            let low = (regs.accumulator & 0xff) as u8;
            let m1 = written(m, loc.0, loc.1, low);
            match write_result(loc.0, loc.1) {
                Err(f) => (m1, Err(f)),
                Ok(u) => if !regs.processor_status.accumulator() {
                    let high = ((regs.accumulator & 0xff00) >> 8) as u8;
                    let addr2 = wrap16(loc.1, 1);
                    (written(m1, loc.0, addr2, high), write_result(loc.0, addr2))
                } else {
                    (m1, Ok(()))
                },
            }
        },
    }
}

/// Effect of storing one literal byte at the operand's resolved location.
pub open spec fn store_spec(regs: CpuRegisters, m: MemoryMapView, value: u8, a: Address) -> (
    MemoryMapView,
    Result<(), Fault>,
) {
    match raw_address_spec(regs, a) {
        Err(f) => (m, Err(f)),
        Ok(loc) => (written(m, loc.0, loc.1, value), write_result(loc.0, loc.1)),
    }
}

/// Effect of one decoded instruction on the register file and the memory
/// map, after the program counter has already advanced past it.
pub open spec fn exec_spec(regs: CpuRegisters, m: MemoryMapView, i: Instruction) -> (
    CpuRegisters,
    MemoryMapView,
    Result<(), Fault>,
) {
    match i {
        Instruction::Jump(a) => {
            let jumped = jump_spec(regs, a);
            (jumped.0, m, jumped.1)
        },
        Instruction::DisableInterruptRequests => (
            with_status(regs, regs.processor_status.with_bit(0x04, true)),
            m,
            Ok(()),
        ),
        Instruction::ClearCarry => (
            with_status(regs, regs.processor_status.with_bit(0x01, false)),
            m,
            Ok(()),
        ),
        Instruction::ExchangeCarryEmulator => (
            CpuRegisters { emulation: regs.processor_status.carry(), ..regs },
            m,
            Ok(()),
        ),
        Instruction::ResetStatusFlags(mask) => (
            with_status(regs, ProcessorStatus(regs.processor_status.0 & !mask)),
            m,
            Ok(()),
        ),
        Instruction::LoadAccumulator(a) => {
            let loaded = load_acc_spec(regs, m, a);
            (loaded.0, m, loaded.1)
        },
        Instruction::StoreAccumulator(a) => {
            let stored = store_acc_spec(regs, m, a);
            (regs, stored.0, stored.1)
        },
        Instruction::StoreZero(a) => {
            let stored = store_spec(regs, m, 0, a);
            (regs, stored.0, stored.1)
        },
    }
}

/// One full machine step: fetch the instruction at the program counter,
/// advance the counter by the instruction's size, then apply its effect.
/// A fetch fault leaves the machine untouched.
pub open spec fn step_spec(regs: CpuRegisters, m: MemoryMapView) -> (
    CpuRegisters,
    MemoryMapView,
    Result<(), Fault>,
) {
    match fetch_spec(regs, m) {
        Err(f) => (regs, m, Err(f)),
        Ok(i) => exec_spec(advance_spec(regs, size_spec(i)), m, i),
    }
}

/// ResetStatusFlags clears exactly the flag bits set in its mask -
/// `new_status == old_status & !mask`, for every (status, mask) pair -
/// and touches nothing else: each flag survives exactly when its mask bit
/// is clear, and every register and the memory are unchanged.
pub proof fn lemma_reset_status_flags(regs: CpuRegisters, m: MemoryMapView, mask: u8)
    ensures
        ({
            let stepped = exec_spec(regs, m, Instruction::ResetStatusFlags(mask));
            let p0 = regs.processor_status;
            let p1 = stepped.0.processor_status;
            &&& p1.0 == p0.0 & !mask
            &&& p1.carry() == (p0.carry() && mask & 0x01 == 0)
            &&& p1.zero() == (p0.zero() && mask & 0x02 == 0)
            &&& p1.irq() == (p0.irq() && mask & 0x04 == 0)
            &&& p1.decimal() == (p0.decimal() && mask & 0x08 == 0)
            &&& p1.index() == (p0.index() && mask & 0x10 == 0)
            &&& p1.accumulator() == (p0.accumulator() && mask & 0x20 == 0)
            &&& p1.overflow() == (p0.overflow() && mask & 0x40 == 0)
            &&& p1.negative() == (p0.negative() && mask & 0x80 == 0)
            &&& stepped.0 == with_status(regs, p1)
            &&& stepped.1 == m
            &&& stepped.2 == Ok::<(), Fault>(())
        }),
{
    let v = regs.processor_status.0;
    assert((v & !mask & 0x01 != 0) == ((v & 0x01 != 0) && (mask & 0x01 == 0)) && (v & !mask
        & 0x02 != 0) == ((v & 0x02 != 0) && (mask & 0x02 == 0)) && (v & !mask & 0x04 != 0) == ((v
        & 0x04 != 0) && (mask & 0x04 == 0)) && (v & !mask & 0x08 != 0) == ((v & 0x08 != 0) && (
    mask & 0x08 == 0)) && (v & !mask & 0x10 != 0) == ((v & 0x10 != 0) && (mask & 0x10 == 0)) && (v
        & !mask & 0x20 != 0) == ((v & 0x20 != 0) && (mask & 0x20 == 0)) && (v & !mask & 0x40 != 0)
        == ((v & 0x40 != 0) && (mask & 0x40 == 0)) && (v & !mask & 0x80 != 0) == ((v & 0x80 != 0)
        && (mask & 0x80 == 0))) by (bit_vector);
}

/// ExchangeCarryEmulation sets the emulation-mode bit to the prior value
/// of the carry flag and leaves every flag bit, every other register and
/// the memory untouched.
pub proof fn lemma_exchange_carry_emulation(regs: CpuRegisters, m: MemoryMapView)
    ensures
        ({
            let stepped = exec_spec(regs, m, Instruction::ExchangeCarryEmulator);
            &&& stepped.0.emulation == regs.processor_status.carry()
            &&& stepped.0.processor_status == regs.processor_status
            &&& stepped.0.accumulator == regs.accumulator
            &&& stepped.0.index_x == regs.index_x
            &&& stepped.0.index_y == regs.index_y
            &&& stepped.0.stack_pointer == regs.stack_pointer
            &&& stepped.0.data_bank == regs.data_bank
            &&& stepped.0.direct_page == regs.direct_page
            &&& stepped.0.program_bank == regs.program_bank
            &&& stepped.0.program_counter == regs.program_counter
            &&& stepped.1 == m
            &&& stepped.2 == Ok::<(), Fault>(())
        }),
{
}

/// Width symmetry of the accumulator store and load: storing the
/// accumulator and then loading it back through the same operand, under
/// the same accumulator-width flag, reproduces the stored value.
///
/// In 8-bit mode only the low byte travels through memory and the load
/// zero-extends it, so there the law asks for an accumulator value that
/// fits in one byte; 16-bit mode covers every value.
pub proof fn lemma_store_load_roundtrip(regs: CpuRegisters, m: MemoryMapView, a: Address)
    requires
        m.wf(),
        !(a is Immediate8),
        !(a is Immediate16),
        exec_spec(regs, m, Instruction::StoreAccumulator(a)).2 is Ok,
        regs.processor_status.accumulator() ==> regs.accumulator <= 0xff,
    ensures
        ({
            let stored = exec_spec(regs, m, Instruction::StoreAccumulator(a));
            let loaded = exec_spec(stored.0, stored.1, Instruction::LoadAccumulator(a));
            &&& loaded.2 == Ok::<(), Fault>(())
            &&& loaded.0.accumulator == regs.accumulator
        }),
{
    let loc = match raw_address_spec(regs, a) {
        Ok(loc) => loc,
        Err(_) => arbitrary(),
    };
    let x = regs.accumulator;
    let low = (x & 0xff) as u8;
    let m1 = crate::memory_map::written(m, loc.0, loc.1, low);
    assert((x & 0xff) < 0x100 && ((x & 0xff00) >> 8) < 0x100 && ((x & 0xff00) >> 8) * 0x100 + (x
        & 0xff) == x && (x <= 0xff ==> x & 0xff == x)) by (bit_vector);
    crate::memory_map::lemma_written_wf(m, loc.0, loc.1, low);
    crate::memory_map::lemma_write_read(m, loc.0, loc.1, low);
    if !regs.processor_status.accumulator() {
        let high = ((x & 0xff00) >> 8) as u8;
        let addr2 = wrap16(loc.1, 1);
        assert(crate::memory_map::write_result(loc.0, addr2) is Ok);
        if crate::memory_map::resolve(loc.0, addr2) == crate::memory_map::resolve(loc.0, loc.1) {
            if crate::memory_map::register_at(addr2) is Some {
                crate::memory_map::lemma_register_at_injective(addr2, loc.1);
            }
            assert(false);
        }
        crate::memory_map::lemma_write_read(m1, loc.0, addr2, high);
        crate::memory_map::lemma_write_read_other(m1, loc.0, addr2, high, loc.0, loc.1);
    }
}

/// One machine step never changes the ROM bytes: every memory effect goes
/// through the write model, which rejects ROM targets.
pub proof fn lemma_step_preserves_rom(regs: CpuRegisters, m: MemoryMapView)
    ensures
        step_spec(regs, m).1.rom == m.rom,
{
}

// ================== //
// The processor core //
// ================== //

/// The Ricoh 5A22 processor core: executes 65C816 instructions against a
/// memory map, keeping the two interrupt vector tables recovered from the
/// cartridge header.
pub struct Cpu {
    pub native_interrupts: InterruptVector,
    pub emulation_interrupts: InterruptVector,
    pub registers: CpuRegisters,
}

impl Cpu {
    /// Build a core whose vector tables come from the header of the image
    /// behind `memory`, with a zeroed register file.
    pub fn new(memory: &MemoryMap) -> (r: Result<Cpu, Fault>)
        ensures
            memory@.rom.len() < 0x8000 ==> r == Err::<Cpu, Fault>(Fault::MalformedRom),
            memory@.rom.len() >= 0x8000 ==> {
                let w = header_window(memory@.rom);
                &&& r is Ok <==> header_ok(w)
                &&& (r matches Ok(cpu) ==> {
                    &&& cpu.native_interrupts == crate::snes_header::interrupt_vector_spec(
                        w.subrange(0x24, 0x30),
                    )
                    &&& cpu.emulation_interrupts == crate::snes_header::interrupt_vector_spec(
                        w.subrange(0x34, 0x40),
                    )
                    &&& cpu.registers == CpuRegisters::cleared()
                })
                &&& (!vstd::utf8::valid_utf8(title_bytes(w)) ==> r == Err::<Cpu, Fault>(
                    Fault::InvalidHeaderEncoding,
                ))
                &&& (vstd::utf8::valid_utf8(title_bytes(w)) && w[21] != 0x20 ==> r == Err::<
                    Cpu,
                    Fault,
                >(Fault::UnsupportedMappingMode))
            },
    {
        let header = match memory.get_snes_header() {
            Ok(h) => h,
            Err(f) => {
                return Err(f);
            },
        };
        Ok(
            Cpu {
                native_interrupts: header.native_interrupts,
                emulation_interrupts: header.emulation_interrupts,
                registers: CpuRegisters::default(),
            },
        )
    }

    /// Establish the documented power-on state: program bank and counter
    /// from the emulation-mode reset vector, the stack pointer at 0x0100,
    /// cleared general registers, emulation mode on, and the five named
    /// flags at their architectural initial values. The remaining flags
    /// and the data-bank and direct-page registers are untouched.
    pub fn reset(&mut self)
        ensures
            final(self).registers.program_counter == old(self).emulation_interrupts.reset,
            final(self).registers.program_bank == 0,
            final(self).registers.stack_pointer == 0x0100,
            final(self).registers.index_x == 0,
            final(self).registers.index_y == 0,
            final(self).registers.accumulator == 0,
            final(self).registers.emulation,
            final(self).registers.processor_status.accumulator(),
            final(self).registers.processor_status.index(),
            !final(self).registers.processor_status.decimal(),
            final(self).registers.processor_status.irq(),
            final(self).registers.processor_status.carry(),
            final(self).registers.processor_status.zero() == old(
                self,
            ).registers.processor_status.zero(),
            final(self).registers.processor_status.overflow() == old(
                self,
            ).registers.processor_status.overflow(),
            final(self).registers.processor_status.negative() == old(
                self,
            ).registers.processor_status.negative(),
            final(self).registers.data_bank == old(self).registers.data_bank,
            final(self).registers.direct_page == old(self).registers.direct_page,
            final(self).native_interrupts == old(self).native_interrupts,
            final(self).emulation_interrupts == old(self).emulation_interrupts,
    {
        self.registers.program_counter = self.emulation_interrupts.reset;
        self.registers.program_bank = 0;
        self.registers.stack_pointer = 0x0100;
        self.registers.index_x = 0;
        self.registers.index_y = 0;
        self.registers.accumulator = 0;
        self.registers.emulation = true;
        self.registers.processor_status.set_accumulator(true);
        self.registers.processor_status.set_index(true);
        self.registers.processor_status.set_decimal(false);
        self.registers.processor_status.set_irq(true);
        self.registers.processor_status.set_carry(true);
    }

    /// Fetch the instruction byte `delta` places past the program counter.
    fn get_instruction_arg(&self, memory: &MemoryMap, delta: u16) -> (r: Result<u8, Fault>)
        ensures
            r == arg_byte(self.registers, memory@, delta),
    {
        memory.get_byte(
            self.registers.program_bank,
            self.registers.program_counter.wrapping_add(delta),
        )
    }

    /// Decode an absolute operand from the two bytes after the opcode.
    fn get_arg_absolute(&self, memory: &MemoryMap) -> (r: Result<Address, Fault>)
        ensures
            r == absolute_arg_spec(self.registers, memory@),
    {
        let low = self.get_instruction_arg(memory, 1)?;
        let high = self.get_instruction_arg(memory, 2)?;
        Ok(Address::Absolute { addr: crate::snes_header::le16_exec(low, high) })
    }

    /// Decode an absolute-long operand: address pair, then its bank byte.
    fn get_arg_absolute_long(&self, memory: &MemoryMap) -> (r: Result<Address, Fault>)
        ensures
            r == absolute_long_arg_spec(self.registers, memory@),
    {
        let low = self.get_instruction_arg(memory, 1)?;
        let high = self.get_instruction_arg(memory, 2)?;
        let bank = self.get_instruction_arg(memory, 3)?;
        Ok(Address::AbsoluteLong { bank, addr: crate::snes_header::le16_exec(low, high) })
    }

    /// Decode an 8-bit immediate operand.
    fn get_arg_immediate_8bit(&self, memory: &MemoryMap) -> (r: Result<Address, Fault>)
        ensures
            r == immediate8_arg_spec(self.registers, memory@),
    {
        let data = self.get_instruction_arg(memory, 1)?;
        Ok(Address::Immediate8 { data })
    }

    /// Decode a 16-bit immediate operand.
    fn get_arg_immediate_16bit(&self, memory: &MemoryMap) -> (r: Result<Address, Fault>)
        ensures
            r == immediate16_arg_spec(self.registers, memory@),
    {
        let low = self.get_instruction_arg(memory, 1)?;
        let high = self.get_instruction_arg(memory, 2)?;
        Ok(Address::Immediate16 { data: crate::snes_header::le16_exec(low, high) })
    }

    /// Fetch and decode the next instruction pointed to by the program
    /// counter and bank.
    fn fetch_instruction(&self, memory: &MemoryMap) -> (r: Result<Instruction, Fault>)
        ensures
            r == fetch_spec(self.registers, memory@),
            r matches Ok(i) ==> decoded_wf(i),
    {
        let opcode = self.get_instruction_arg(memory, 0)?;

        match opcode {
            0x18 => Ok(Instruction::ClearCarry),
            0x4c => Ok(Instruction::Jump(self.get_arg_absolute(memory)?)),
            0x5c => Ok(Instruction::Jump(self.get_arg_absolute_long(memory)?)),
            0x78 => Ok(Instruction::DisableInterruptRequests),
            0x9c => Ok(Instruction::StoreZero(self.get_arg_absolute(memory)?)),
            0x8d => Ok(Instruction::StoreAccumulator(self.get_arg_absolute(memory)?)),
            0xa9 => {
                if self.registers.processor_status.get_accumulator() {
                    Ok(Instruction::LoadAccumulator(self.get_arg_immediate_8bit(memory)?))
                } else {
                    Ok(Instruction::LoadAccumulator(self.get_arg_immediate_16bit(memory)?))
                }
            },
            0xc2 => Ok(Instruction::ResetStatusFlags(self.get_instruction_arg(memory, 1)?)),
            0xfb => Ok(Instruction::ExchangeCarryEmulator),
            _ => Err(
                Fault::UnimplementedOpcode {
                    opcode,
                    bank: self.registers.program_bank,
                    addr: self.registers.program_counter,
                },
            ),
        }
    }

    /// Advance the program counter by `delta` bytes, wrapping within the
    /// bank.
    pub fn advance(&mut self, delta: u8)
        ensures
            final(self).registers == advance_spec(old(self).registers, delta),
            final(self).native_interrupts == old(self).native_interrupts,
            final(self).emulation_interrupts == old(self).emulation_interrupts,
    {
        self.registers.program_counter = self.registers.program_counter.wrapping_add(
            delta as u16,
        );
    }

    /// Resolve an instruction's address operand to a raw (bank, offset)
    /// location. Immediates bear no location and may not be handed in.
    pub fn raw_address(&self, address: Address) -> (r: Result<(u8, u16), Fault>)
        requires
            !(address is Immediate8),
            !(address is Immediate16),
        ensures
            r == raw_address_spec(self.registers, address),
    {
        match address {
            Address::Absolute { addr } => Ok((self.registers.data_bank, addr)),
            Address::AbsoluteLong { bank, addr } => Ok((bank, addr)),
            _ => Err(Fault::UnimplementedAddressingMode),
        }
    }

    /// Read the datum an operand denotes, one or two bytes per `wide`.
    fn get_data(&self, memory: &MemoryMap, address: Address, wide: bool) -> (r: Result<
        u16,
        Fault,
    >)
        ensures
            r == get_data_spec(self.registers, memory@, address, wide),
    {
        match address {
            Address::Immediate8 { data } => Ok(data as u16),
            Address::Immediate16 { data } => Ok(data as u16),
            _ => {
                let loc = self.raw_address(address)?;
                let low = memory.get_byte(loc.0, loc.1)?;
                if wide {
                    let high = memory.get_byte(loc.0, loc.1.wrapping_add(1))?;
                    Ok(crate::snes_header::le16_exec(low, high))
                } else {
                    Ok(low as u16)
                }
            },
        }
    }

    /// Jump to the operand's resolved location.
    pub fn jump(&mut self, address: Address) -> (r: Result<(), Fault>)
        requires
            !(address is Immediate8),
            !(address is Immediate16),
        ensures
            ({
                let jumped = jump_spec(old(self).registers, address);
                &&& final(self).registers == jumped.0
                &&& r == jumped.1
            }),
            final(self).native_interrupts == old(self).native_interrupts,
            final(self).emulation_interrupts == old(self).emulation_interrupts,
    {
        let loc = match self.raw_address(address) {
            Ok(loc) => loc,
            Err(f) => {
                return Err(f);
            },
        };
        self.registers.program_bank = loc.0;
        self.registers.program_counter = loc.1;
        Ok(())
    }

    /// Load the accumulator: 1 or 2 bytes per the accumulator-width flag,
    /// zero-extended.
    pub fn load_accumulator(&mut self, memory: &MemoryMap, address: Address) -> (r: Result<
        (),
        Fault,
    >)
        ensures
            ({
                let loaded = load_acc_spec(old(self).registers, memory@, address);
                &&& final(self).registers == loaded.0
                &&& r == loaded.1
            }),
            final(self).native_interrupts == old(self).native_interrupts,
            final(self).emulation_interrupts == old(self).emulation_interrupts,
    {
        let wide = !self.registers.processor_status.get_accumulator();
        let value = match self.get_data(memory, address, wide) {
            Ok(v) => v,
            Err(f) => {
                return Err(f);
            },
        };
        self.registers.accumulator = value;
        Ok(())
    }

    /// Store the accumulator: the low byte at the resolved location, and
    /// the high byte at the next offset when the accumulator-width flag
    /// selects 16-bit mode.
    pub fn store_accumulator(&mut self, memory: &mut MemoryMap, address: Address) -> (r: Result<
        (),
        Fault,
    >)
        requires
            !(address is Immediate8),
            !(address is Immediate16),
        ensures
            ({
                let stored = store_acc_spec(old(self).registers, old(memory)@, address);
                &&& final(memory)@ == stored.0
                &&& r == stored.1
            }),
            *final(self) == *old(self),
            final(memory)@.rom == old(memory)@.rom,
    {
        let loc = match self.raw_address(address) {
            Ok(loc) => loc,
            Err(f) => {
                return Err(f);
            },
        };
        let low = (self.registers.accumulator & 0xff) as u8;
        match memory.set_byte(loc.0, loc.1, low) {
            Ok(u) => (),
            Err(f) => {
                return Err(f);
            },
        };
        let wide = !self.registers.processor_status.get_accumulator();
        if wide {
            let high = ((self.registers.accumulator & 0xff00) >> 8) as u8;
            memory.set_byte(loc.0, loc.1.wrapping_add(1), high)
        } else {
            Ok(())
        }
    }

    /// Store one literal byte at the operand's resolved location. Only
    /// works where the location is writable: a ROM target reports a
    /// write-protection violation.
    fn store(&mut self, value: u8, memory: &mut MemoryMap, address: Address) -> (r: Result<
        (),
        Fault,
    >)
        requires
            !(address is Immediate8),
            !(address is Immediate16),
        ensures
            ({
                let stored = store_spec(old(self).registers, old(memory)@, value, address);
                &&& final(memory)@ == stored.0
                &&& r == stored.1
            }),
            *final(self) == *old(self),
            final(memory)@.rom == old(memory)@.rom,
    {
        let loc = match self.raw_address(address) {
            Ok(loc) => loc,
            Err(f) => {
                return Err(f);
            },
        };
        memory.set_byte(loc.0, loc.1, value)
    }

    /// Apply one decoded instruction's effect to the registers and the
    /// memory map.
    fn execute(&mut self, instruction: Instruction, memory: &mut MemoryMap) -> (r: Result<
        (),
        Fault,
    >)
        requires
            operand_wf(instruction),
        ensures
            ({
                let stepped = exec_spec(old(self).registers, old(memory)@, instruction);
                &&& final(self).registers == stepped.0
                &&& final(memory)@ == stepped.1
                &&& r == stepped.2
            }),
            final(self).native_interrupts == old(self).native_interrupts,
            final(self).emulation_interrupts == old(self).emulation_interrupts,
            final(memory)@.rom == old(memory)@.rom,
    {
        match instruction {
            Instruction::Jump(address) => self.jump(address),
            Instruction::DisableInterruptRequests => {
                self.registers.processor_status.set_irq(true);
                Ok(())
            },
            Instruction::ClearCarry => {
                self.registers.processor_status.set_carry(false);
                Ok(())
            },
            Instruction::ExchangeCarryEmulator => {
                let carry = self.registers.processor_status.get_carry();
                self.registers.emulation = carry;
                Ok(())
            },
            Instruction::ResetStatusFlags(mask) => {
                let p = self.registers.processor_status.0;
                self.registers.processor_status = ProcessorStatus(p & !mask);
                Ok(())
            },
            Instruction::LoadAccumulator(address) => self.load_accumulator(memory, address),
            Instruction::StoreAccumulator(address) => self.store_accumulator(memory, address),
            Instruction::StoreZero(address) => self.store(0, memory, address),
        }
    }

    /// One machine step: fetch the next instruction, advance the program
    /// counter by its size before executing, then apply its effect - so
    /// that a jump's own target overwrites the counter rather than adding
    /// to it. A fault leaves the machine in the state the step reached.
    pub fn tick(&mut self, memory: &mut MemoryMap) -> (r: Result<(), Fault>)
        ensures
            ({
                let stepped = step_spec(old(self).registers, old(memory)@);
                &&& final(self).registers == stepped.0
                &&& final(memory)@ == stepped.1
                &&& r == stepped.2
            }),
            final(self).native_interrupts == old(self).native_interrupts,
            final(self).emulation_interrupts == old(self).emulation_interrupts,
            final(memory)@.rom == old(memory)@.rom,
    {
        let instruction = match self.fetch_instruction(memory) {
            Ok(i) => i,
            Err(f) => {
                return Err(f);
            },
        };
        let size = match instruction.size() {
            Ok(s) => s,
            Err(f) => {
                return Err(f);
            },
        };
        self.advance(size);
        self.execute(instruction, memory)
    }
}

} // verus!
