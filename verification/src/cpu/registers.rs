//! The processor's register file: the general registers, the bank and page
//! selectors, the packed processor-status flag byte and the emulation-mode
//! bit.

use vstd::prelude::*;

verus! {

/// The eight-bit processor-status register, packed one flag per bit:
/// carry at bit 0, zero at 1, irq-disable at 2, decimal at 3, index width
/// at 4, accumulator width at 5, overflow at 6, negative at 7.
///
/// Every mutator has total, independent control over its one bit: it first
/// clears the bit and then sets it again when asked to, so no other flag is
/// ever disturbed.
#[derive(Clone, Copy, Debug, PartialEq, Eq, Structural)]
pub struct ProcessorStatus(pub u8);

impl ProcessorStatus {
    /// Carry flag (bit 0).
    pub open spec fn carry(self) -> bool {
        self.0 & 0x01 != 0
    }

    /// Zero flag (bit 1).
    pub open spec fn zero(self) -> bool {
        self.0 & 0x02 != 0
    }

    /// Interrupt-disable flag (bit 2).
    pub open spec fn irq(self) -> bool {
        self.0 & 0x04 != 0
    }

    /// Decimal-mode flag (bit 3).
    pub open spec fn decimal(self) -> bool {
        self.0 & 0x08 != 0
    }

    /// Index-register width flag (bit 4): set means 8-bit index registers.
    pub open spec fn index(self) -> bool {
        self.0 & 0x10 != 0
    }

    /// Accumulator width flag (bit 5): set means an 8-bit accumulator.
    pub open spec fn accumulator(self) -> bool {
        self.0 & 0x20 != 0
    }

    /// Overflow flag (bit 6).
    pub open spec fn overflow(self) -> bool {
        self.0 & 0x40 != 0
    }

    /// Negative flag (bit 7).
    pub open spec fn negative(self) -> bool {
        self.0 & 0x80 != 0
    }

    /// The flag byte with the bit selected by `mask` first cleared and
    /// then set again when `state` asks for it.
    pub open spec fn with_bit(self, mask: u8, state: bool) -> ProcessorStatus {
        ProcessorStatus(
            if state {
                self.0 | mask
            } else {
                self.0 & !mask
            },
        )
    }

    /// All eight flags of `self` and `other` agree except possibly the one
    /// selected by `mask`.
    pub open spec fn same_but(self, other: ProcessorStatus, mask: u8) -> bool {
        &&& (self.carry() == other.carry() || mask == 0x01)
        &&& (self.zero() == other.zero() || mask == 0x02)
        &&& (self.irq() == other.irq() || mask == 0x04)
        &&& (self.decimal() == other.decimal() || mask == 0x08)
        &&& (self.index() == other.index() || mask == 0x10)
        &&& (self.accumulator() == other.accumulator() || mask == 0x20)
        &&& (self.overflow() == other.overflow() || mask == 0x40)
        &&& (self.negative() == other.negative() || mask == 0x80)
    }
}

impl Default for ProcessorStatus {
    /// All flags start cleared.
    fn default() -> (r: ProcessorStatus)
        ensures
            r.0 == 0,
    {
        ProcessorStatus(0)
    }
}

impl ProcessorStatus {
    pub fn get_carry(&self) -> (r: bool)
        ensures
            r == self.carry(),
    {
        self.0 & 0x01 != 0
    }

    pub fn get_zero(&self) -> (r: bool)
        ensures
            r == self.zero(),
    {
        self.0 & 0x02 != 0
    }

    pub fn get_irq(&self) -> (r: bool)
        ensures
            r == self.irq(),
    {
        self.0 & 0x04 != 0
    }

    pub fn get_decimal(&self) -> (r: bool)
        ensures
            r == self.decimal(),
    {
        self.0 & 0x08 != 0
    }

    pub fn get_index(&self) -> (r: bool)
        ensures
            r == self.index(),
    {
        self.0 & 0x10 != 0
    }

    pub fn get_accumulator(&self) -> (r: bool)
        ensures
            r == self.accumulator(),
    {
        self.0 & 0x20 != 0
    }

    pub fn get_overflow(&self) -> (r: bool)
        ensures
            r == self.overflow(),
    {
        self.0 & 0x40 != 0
    }

    pub fn get_negative(&self) -> (r: bool)
        ensures
            r == self.negative(),
    {
        self.0 & 0x80 != 0
    }

    pub fn set_carry(&mut self, state: bool)
        ensures
            final(self).carry() == state,
            old(self).same_but(*final(self), 0x01),
            *final(self) == old(self).with_bit(0x01, state),
    {
        let v = self.0;
        let w: u8 = if state { v | 0x01 } else { v & !0x01 };
        self.0 = w;
        proof {
            lemma_one_bit_write(v, w, 0x01, state);
        }
    }

    pub fn set_zero(&mut self, state: bool)
        ensures
            final(self).zero() == state,
            old(self).same_but(*final(self), 0x02),
            *final(self) == old(self).with_bit(0x02, state),
    {
        let v = self.0;
        let w: u8 = if state { v | 0x02 } else { v & !0x02 };
        self.0 = w;
        proof {
            lemma_one_bit_write(v, w, 0x02, state);
        }
    }

    pub fn set_irq(&mut self, state: bool)
        ensures
            final(self).irq() == state,
            old(self).same_but(*final(self), 0x04),
            *final(self) == old(self).with_bit(0x04, state),
    {
        let v = self.0;
        let w: u8 = if state { v | 0x04 } else { v & !0x04 };
        self.0 = w;
        proof {
            lemma_one_bit_write(v, w, 0x04, state);
        }
    }

    pub fn set_decimal(&mut self, state: bool)
        ensures
            final(self).decimal() == state,
            old(self).same_but(*final(self), 0x08),
            *final(self) == old(self).with_bit(0x08, state),
    {
        let v = self.0;
        let w: u8 = if state { v | 0x08 } else { v & !0x08 };
        self.0 = w;
        proof {
            lemma_one_bit_write(v, w, 0x08, state);
        }
    }

    pub fn set_index(&mut self, state: bool)
        ensures
            final(self).index() == state,
            old(self).same_but(*final(self), 0x10),
            *final(self) == old(self).with_bit(0x10, state),
    {
        let v = self.0;
        let w: u8 = if state { v | 0x10 } else { v & !0x10 };
        self.0 = w;
        proof {
            lemma_one_bit_write(v, w, 0x10, state);
        }
    }

    pub fn set_accumulator(&mut self, state: bool)
        ensures
            final(self).accumulator() == state,
            old(self).same_but(*final(self), 0x20),
            *final(self) == old(self).with_bit(0x20, state),
    {
        let v = self.0;
        let w: u8 = if state { v | 0x20 } else { v & !0x20 };
        self.0 = w;
        proof {
            lemma_one_bit_write(v, w, 0x20, state);
        }
    }

    pub fn set_overflow(&mut self, state: bool)
        ensures
            final(self).overflow() == state,
            old(self).same_but(*final(self), 0x40),
            *final(self) == old(self).with_bit(0x40, state),
    {
        let v = self.0;
        let w: u8 = if state { v | 0x40 } else { v & !0x40 };
        self.0 = w;
        proof {
            lemma_one_bit_write(v, w, 0x40, state);
        }
    }

    pub fn set_negative(&mut self, state: bool)
        ensures
            final(self).negative() == state,
            old(self).same_but(*final(self), 0x80),
            *final(self) == old(self).with_bit(0x80, state),
    {
        let v = self.0;
        let w: u8 = if state { v | 0x80 } else { v & !0x80 };
        self.0 = w;
        proof {
            lemma_one_bit_write(v, w, 0x80, state);
        }
    }
}

/// Writing one bit of a flag byte sets exactly that bit to `state` and
/// leaves the remaining seven bits as they were.
proof fn lemma_one_bit_write(v: u8, w: u8, mask: u8, state: bool)
    by (bit_vector)
    requires
        mask == 0x01 || mask == 0x02 || mask == 0x04 || mask == 0x08 || mask == 0x10 || mask == 0x20
            || mask == 0x40 || mask == 0x80,
        w == if state {
            v | mask
        } else {
            v & !mask
        },
    ensures
        (w & mask != 0) == state,
        mask != 0x01 ==> (w & 0x01 != 0) == (v & 0x01 != 0),
        mask != 0x02 ==> (w & 0x02 != 0) == (v & 0x02 != 0),
        mask != 0x04 ==> (w & 0x04 != 0) == (v & 0x04 != 0),
        mask != 0x08 ==> (w & 0x08 != 0) == (v & 0x08 != 0),
        mask != 0x10 ==> (w & 0x10 != 0) == (v & 0x10 != 0),
        mask != 0x20 ==> (w & 0x20 != 0) == (v & 0x20 != 0),
        mask != 0x40 ==> (w & 0x40 != 0) == (v & 0x40 != 0),
        mask != 0x80 ==> (w & 0x80 != 0) == (v & 0x80 != 0),
{
}

/// The full processor datapath state: general registers, bank selectors,
/// direct page, program counter, the flag byte and the emulation-mode bit.
///
/// The effective width of the accumulator and index registers (8 or 16
/// bits) is controlled by the processor-status width flags at the moment
/// of use, never cached elsewhere.
#[derive(Clone, Copy, Debug, PartialEq, Eq, Structural)]
pub struct CpuRegisters {
    pub accumulator: u16,
    pub index_x: u16,
    pub index_y: u16,
    pub stack_pointer: u16,

    pub data_bank: u8,
    pub direct_page: u16,

    pub program_bank: u8,
    pub program_counter: u16,

    pub processor_status: ProcessorStatus,

    pub emulation: bool,
}

impl CpuRegisters {
    /// The fully zeroed register file a machine is created with, before
    /// any reset.
    pub open spec fn cleared() -> CpuRegisters {
        CpuRegisters {
            accumulator: 0,
            index_x: 0,
            index_y: 0,
            stack_pointer: 0,
            data_bank: 0,
            direct_page: 0,
            program_bank: 0,
            program_counter: 0,
            processor_status: ProcessorStatus(0),
            emulation: false,
        }
    }
}

impl Default for CpuRegisters {
    /// A freshly created register file is fully zeroed, with emulation
    /// mode off; the architectural power-on state is established by an
    /// explicit reset.
    fn default() -> (r: CpuRegisters)
        ensures
            r == CpuRegisters::cleared(),
    {
        CpuRegisters {
            accumulator: 0,
            index_x: 0,
            index_y: 0,
            stack_pointer: 0,
            data_bank: 0,
            direct_page: 0,
            program_bank: 0,
            program_counter: 0,
            processor_status: ProcessorStatus(0),
            emulation: false,
        }
    }
}

} // verus!
