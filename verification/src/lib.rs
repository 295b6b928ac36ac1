//! Core of a 16-bit home-console emulator: a cycle-stepped 65C816-family
//! instruction interpreter together with the LoROM address-translation layer
//! that maps the 24-bit address space onto cartridge ROM, work RAM and
//! memory-mapped hardware registers.

use vstd::prelude::*;

pub mod cpu;
pub mod fault;
pub mod memory_map;
pub mod snes_header;

use cpu::registers::CpuRegisters;
use cpu::{step_spec, Cpu};
use fault::Fault;
use memory_map::registers::HardwareRegisters;
use memory_map::{header_window, zeroed_wram, MemoryMap, MemoryMapView};
use snes_header::{header_ok, interrupt_vector_spec, title_bytes};

verus! {

/// An image needs an optional 512-byte copier header in front of whole
/// kilobytes of cartridge data; any other length is malformed.
pub open spec fn rom_length_ok(rom: Seq<u8>) -> bool {
    rom.len() % 1024 == 0 || rom.len() % 1024 == 512
}

/// The cartridge data proper: the image with a leading copier header, if
/// one is present, stripped.
pub open spec fn stripped_image(rom: Seq<u8>) -> Seq<u8> {
    if rom.len() % 1024 == 512 {
        rom.skip(512)
    } else {
        rom
    }
}

/// The machine after up to `n` steps: stepping stops early at the first
/// fault, whose state and fault value are handed back.
pub open spec fn run_spec(regs: CpuRegisters, m: MemoryMapView, n: nat) -> (
    CpuRegisters,
    MemoryMapView,
    Result<(), Fault>,
)
    decreases n,
{
    if n == 0 {
        (regs, m, Ok(()))
    } else {
        let stepped = step_spec(regs, m);
        if stepped.2 is Err {
            stepped
        } else {
            run_spec(stepped.0, stepped.1, (n - 1) as nat)
        }
    }
}

/// ROM is never mutated by any sequence of machine steps.
pub proof fn lemma_rom_immutable(regs: CpuRegisters, m: MemoryMapView, n: nat)
    ensures
        run_spec(regs, m, n).1.rom == m.rom,
    decreases n,
{
    if n != 0 {
        cpu::lemma_step_preserves_rom(regs, m);
        let stepped = step_spec(regs, m);
        if !(stepped.2 is Err) {
            lemma_rom_immutable(stepped.0, stepped.1, (n - 1) as nat);
        }
    }
}

/// The machine state `start` hands back on success, for an image whose
/// header window is `w`: the image mapped with fresh work RAM and
/// registers, the vector tables decoded from the header, and the
/// processor in its documented power-on state.
pub open spec fn started_ok(s: Snes, image: Seq<u8>, w: Seq<u8>) -> bool {
    &&& s.memory@.rom == image
    &&& s.memory@.wram == zeroed_wram()
    &&& s.memory@.regs == HardwareRegisters::zeroed()
    &&& s.memory@.wf()
    &&& s.core.native_interrupts == interrupt_vector_spec(w.subrange(0x24, 0x30))
    &&& s.core.emulation_interrupts == interrupt_vector_spec(w.subrange(0x34, 0x40))
    &&& s.core.registers.program_counter == s.core.emulation_interrupts.reset
    &&& s.core.registers.program_bank == 0
    &&& s.core.registers.stack_pointer == 0x0100
    &&& s.core.registers.accumulator == 0
    &&& s.core.registers.index_x == 0
    &&& s.core.registers.index_y == 0
    &&& s.core.registers.data_bank == 0
    &&& s.core.registers.direct_page == 0
    &&& s.core.registers.emulation
    &&& s.core.registers.processor_status.accumulator()
    &&& s.core.registers.processor_status.index()
    &&& !s.core.registers.processor_status.decimal()
    &&& s.core.registers.processor_status.irq()
    &&& s.core.registers.processor_status.carry()
    &&& !s.core.registers.processor_status.zero()
    &&& !s.core.registers.processor_status.overflow()
    &&& !s.core.registers.processor_status.negative()
}

/// What `start` returns for an image long enough to hold a header:
/// success exactly when the header window decodes, the decode faults
/// reported otherwise, and on success the machine of `started_ok`.
pub open spec fn start_post(rom: Seq<u8>, r: Result<Snes, Fault>) -> bool {
    let image = stripped_image(rom);
    let w = header_window(image);
    &&& r is Ok <==> header_ok(w)
    &&& (r matches Ok(s) ==> started_ok(s, image, w))
    &&& (!vstd::utf8::valid_utf8(title_bytes(w)) ==> r == Err::<Snes, Fault>(
        Fault::InvalidHeaderEncoding,
    ))
    &&& (vstd::utf8::valid_utf8(title_bytes(w)) && w[21] != 0x20 ==> r == Err::<Snes, Fault>(
        Fault::UnsupportedMappingMode,
    ))
}

/// The emulated Super Nintendo Entertainment System: the processor core
/// and the memory map it executes against.
pub struct Snes {
    pub core: Cpu,
    pub memory: MemoryMap,
}

impl Snes {
    /// Load a cartridge image and bring the machine to its power-on
    /// state: strip a 512-byte copier header where one is present, map
    /// the image, decode its header, and reset the processor.
    ///
    /// The machine is handed back to the caller, who decides when to
    /// step it.
    pub fn start(rom: Vec<u8>) -> (r: Result<Snes, Fault>)
        ensures
            !rom_length_ok(rom@) ==> r == Err::<Snes, Fault>(Fault::MalformedRom),
            rom_length_ok(rom@) && stripped_image(rom@).len() < 0x8000 ==> r == Err::<
                Snes,
                Fault,
            >(Fault::MalformedRom),
            rom_length_ok(rom@) && stripped_image(rom@).len() >= 0x8000 ==> start_post(
                rom@,
                r,
            ),
    {
        let smc_header_size = rom.len() % 1024;
        if smc_header_size != 0 && smc_header_size != 512 {
            // The copier header, where one exists, is 512 bytes exactly.
            return Err(Fault::MalformedRom);
        }
        let image = if smc_header_size == 512 {
            let mut trimmed: Vec<u8> = Vec::new();
            let mut i: usize = 512;
            while i < rom.len()
                invariant
                    512 <= i <= rom@.len(),
                    trimmed@ == rom@.subrange(512, i as int),
                decreases rom@.len() - i,
            {
                trimmed.push(rom[i]);
                i = i + 1;
            }
            proof {
                assert(trimmed@ =~= rom@.skip(512));
            }
            trimmed
        } else {
            rom
        };
        let memory = MemoryMap::new(image);
        let mut core = match Cpu::new(&memory) {
            Ok(c) => c,
            Err(f) => {
                return Err(f);
            },
        };
        core.reset();
        proof {
            assert(0u8 & 0x02 == 0 && 0u8 & 0x40 == 0 && 0u8 & 0x80 == 0) by (bit_vector);
        }
        Ok(Snes { core, memory })
    }

    /// Execute one machine step, returning control to the caller.
    pub fn step(&mut self) -> (r: Result<(), Fault>)
        ensures
            ({
                let stepped = step_spec(old(self).core.registers, old(self).memory@);
                &&& final(self).core.registers == stepped.0
                &&& final(self).memory@ == stepped.1
                &&& r == stepped.2
            }),
            final(self).core.native_interrupts == old(self).core.native_interrupts,
            final(self).core.emulation_interrupts == old(self).core.emulation_interrupts,
            final(self).memory@.rom == old(self).memory@.rom,
    {
        self.core.tick(&mut self.memory)
    }

    /// Execute up to `max_steps` machine steps, stopping early at the
    /// first fault. The caller owns continuation, shutdown and fault
    /// handling; there is no unbounded loop in the core.
    pub fn run(&mut self, max_steps: usize) -> (r: Result<(), Fault>)
        ensures
            ({
                let ran = run_spec(old(self).core.registers, old(self).memory@, max_steps as nat);
                &&& final(self).core.registers == ran.0
                &&& final(self).memory@ == ran.1
                &&& r == ran.2
            }),
            final(self).core.native_interrupts == old(self).core.native_interrupts,
            final(self).core.emulation_interrupts == old(self).core.emulation_interrupts,
            final(self).memory@.rom == old(self).memory@.rom,
    {
        let mut i: usize = 0;
        while i < max_steps
            invariant
                i <= max_steps,
                run_spec(self.core.registers, self.memory@, (max_steps - i) as nat) == run_spec(
                    old(self).core.registers,
                    old(self).memory@,
                    max_steps as nat,
                ),
                self.core.native_interrupts == old(self).core.native_interrupts,
                self.core.emulation_interrupts == old(self).core.emulation_interrupts,
                self.memory@.rom == old(self).memory@.rom,
            decreases max_steps - i,
        {
            let ghost pre_regs = self.core.registers;
            let ghost pre_mem = self.memory@;
            match self.step() {
                Ok(u) => {
                    proof {
                        assert(run_spec(pre_regs, pre_mem, (max_steps - i) as nat) == run_spec(
                            self.core.registers,
                            self.memory@,
                            (max_steps - i - 1) as nat,
                        ));
                    }
                },
                Err(f) => {
                    proof {
                        assert(run_spec(pre_regs, pre_mem, (max_steps - i) as nat) == step_spec(
                            pre_regs,
                            pre_mem,
                        ));
                    }
                    return Err(f);
                },
            }
            i = i + 1;
        }
        Ok(())
    }
}

} // verus!
