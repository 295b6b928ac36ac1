//! The hardware register bank: a fixed table of addressable single-byte
//! cells, each keyed by identity, reachable either through the
//! `RegisterMap` capability trait (one marker type per register) or by
//! identity value.

use vstd::prelude::*;

verus! {

/// Uniform capability interface over one named register of a register
/// bank: the marker type `T` selects which cell the capability touches.
pub trait RegisterMap<T>: Sized {
    /// The current value of the selected register.
    spec fn reg_spec(&self) -> u8;

    /// The bank with the selected register replaced by `value` and every
    /// other cell unchanged.
    spec fn with_reg(&self, value: u8) -> Self;

    /// Get the value of the register.
    fn get(&self) -> (r: u8)
        ensures
            r == self.reg_spec(),
    ;

    /// Get a mutable borrow of the register's value.
    fn get_mut(&mut self) -> (r: &mut u8)
        ensures
            *r == old(self).reg_spec(),
            *final(self) == old(self).with_reg(*final(r)),
    ;
}

/// Marker for the screen-display register at 0x2100.
pub struct ScreenDisplayRegister;

/// Marker for APU I/O port 0 at 0x2140.
pub struct ApuIoRegister0;

/// Marker for APU I/O port 1 at 0x2141.
pub struct ApuIoRegister1;

/// Marker for APU I/O port 2 at 0x2142.
pub struct ApuIoRegister2;

/// Marker for APU I/O port 3 at 0x2143.
pub struct ApuIoRegister3;

/// Marker for the interrupt-enable register at 0x4200.
pub struct InterruptEnableRegister;

/// Marker for the DMA-enable register at 0x420B.
pub struct DmaEnableRegister;

/// Marker for the HDMA-enable register at 0x420C.
pub struct HdmaEnableRegister;

/// The identity of one named hardware register, the result of the memory
/// map's address-to-identity lookup.
#[derive(Clone, Copy, Debug, PartialEq, Eq, Structural)]
pub enum HardwareRegister {
    ScreenDisplay,
    ApuIo0,
    ApuIo1,
    ApuIo2,
    ApuIo3,
    InterruptEnable,
    DmaEnable,
    HdmaEnable,
}

/// The fixed table of single-byte hardware register cells. All cells
/// default to zero; storage is their only effect today.
#[derive(Clone, Copy, Debug, PartialEq, Eq, Structural)]
pub struct HardwareRegisters {
    pub screen_display: u8,
    pub apu_io0: u8,
    pub apu_io1: u8,
    pub apu_io2: u8,
    pub apu_io3: u8,
    pub interrupt_enable: u8,
    pub dma_enable: u8,
    pub hdma_enable: u8,
}

impl Default for HardwareRegisters {
    /// Every cell starts at zero.
    fn default() -> (r: HardwareRegisters)
        ensures
            r == HardwareRegisters::zeroed(),
    {
        HardwareRegisters {
            screen_display: 0,
            apu_io0: 0,
            apu_io1: 0,
            apu_io2: 0,
            apu_io3: 0,
            interrupt_enable: 0,
            dma_enable: 0,
            hdma_enable: 0,
        }
    }
}

impl HardwareRegisters {
    /// The bank with every cell at zero.
    pub open spec fn zeroed() -> HardwareRegisters {
        HardwareRegisters {
            screen_display: 0,
            apu_io0: 0,
            apu_io1: 0,
            apu_io2: 0,
            apu_io3: 0,
            interrupt_enable: 0,
            dma_enable: 0,
            hdma_enable: 0,
        }
    }

    /// The value of the cell named by `reg`.
    pub open spec fn value_of(self, reg: HardwareRegister) -> u8 {
        match reg {
            HardwareRegister::ScreenDisplay => self.screen_display,
            HardwareRegister::ApuIo0 => self.apu_io0,
            HardwareRegister::ApuIo1 => self.apu_io1,
            HardwareRegister::ApuIo2 => self.apu_io2,
            HardwareRegister::ApuIo3 => self.apu_io3,
            HardwareRegister::InterruptEnable => self.interrupt_enable,
            HardwareRegister::DmaEnable => self.dma_enable,
            HardwareRegister::HdmaEnable => self.hdma_enable,
        }
    }

    /// The bank with the cell named by `reg` replaced by `value` and every
    /// other cell unchanged.
    pub open spec fn with_value(self, reg: HardwareRegister, value: u8) -> HardwareRegisters {
        match reg {
            HardwareRegister::ScreenDisplay => HardwareRegisters { screen_display: value, ..self },
            HardwareRegister::ApuIo0 => HardwareRegisters { apu_io0: value, ..self },
            HardwareRegister::ApuIo1 => HardwareRegisters { apu_io1: value, ..self },
            HardwareRegister::ApuIo2 => HardwareRegisters { apu_io2: value, ..self },
            HardwareRegister::ApuIo3 => HardwareRegisters { apu_io3: value, ..self },
            HardwareRegister::InterruptEnable => HardwareRegisters {
                interrupt_enable: value,
                ..self
            },
            HardwareRegister::DmaEnable => HardwareRegisters { dma_enable: value, ..self },
            HardwareRegister::HdmaEnable => HardwareRegisters { hdma_enable: value, ..self },
        }
    }

    /// Read the cell named by `reg` through its capability.
    pub fn read(&self, reg: HardwareRegister) -> (r: u8)
        ensures
            r == self.value_of(reg),
    {
        match reg {
            HardwareRegister::ScreenDisplay => RegisterMap::<ScreenDisplayRegister>::get(self),
            HardwareRegister::ApuIo0 => RegisterMap::<ApuIoRegister0>::get(self),
            HardwareRegister::ApuIo1 => RegisterMap::<ApuIoRegister1>::get(self),
            HardwareRegister::ApuIo2 => RegisterMap::<ApuIoRegister2>::get(self),
            HardwareRegister::ApuIo3 => RegisterMap::<ApuIoRegister3>::get(self),
            HardwareRegister::InterruptEnable => RegisterMap::<InterruptEnableRegister>::get(self),
            HardwareRegister::DmaEnable => RegisterMap::<DmaEnableRegister>::get(self),
            HardwareRegister::HdmaEnable => RegisterMap::<HdmaEnableRegister>::get(self),
        }
    }

    /// Write the cell named by `reg` through its capability.
    pub fn write(&mut self, reg: HardwareRegister, value: u8)
        ensures
            *final(self) == old(self).with_value(reg, value),
    {
        match reg {
            HardwareRegister::ScreenDisplay => {
                let cell = RegisterMap::<ScreenDisplayRegister>::get_mut(self);
                *cell = value;
            },
            HardwareRegister::ApuIo0 => {
                let cell = RegisterMap::<ApuIoRegister0>::get_mut(self);
                *cell = value;
            },
            HardwareRegister::ApuIo1 => {
                let cell = RegisterMap::<ApuIoRegister1>::get_mut(self);
                *cell = value;
            },
            HardwareRegister::ApuIo2 => {
                let cell = RegisterMap::<ApuIoRegister2>::get_mut(self);
                *cell = value;
            },
            HardwareRegister::ApuIo3 => {
                let cell = RegisterMap::<ApuIoRegister3>::get_mut(self);
                *cell = value;
            },
            HardwareRegister::InterruptEnable => {
                let cell = RegisterMap::<InterruptEnableRegister>::get_mut(self);
                *cell = value;
            },
            HardwareRegister::DmaEnable => {
                let cell = RegisterMap::<DmaEnableRegister>::get_mut(self);
                *cell = value;
            },
            HardwareRegister::HdmaEnable => {
                let cell = RegisterMap::<HdmaEnableRegister>::get_mut(self);
                *cell = value;
            },
        }
    }
}

impl RegisterMap<ScreenDisplayRegister> for HardwareRegisters {
    open spec fn reg_spec(&self) -> u8 {
        self.screen_display
    }

    open spec fn with_reg(&self, value: u8) -> HardwareRegisters {
        HardwareRegisters { screen_display: value, ..*self }
    }

    fn get(&self) -> u8 {
        self.screen_display
    }

    fn get_mut(&mut self) -> &mut u8 {
        &mut self.screen_display
    }
}

impl RegisterMap<ApuIoRegister0> for HardwareRegisters {
    open spec fn reg_spec(&self) -> u8 {
        self.apu_io0
    }

    open spec fn with_reg(&self, value: u8) -> HardwareRegisters {
        HardwareRegisters { apu_io0: value, ..*self }
    }

    fn get(&self) -> u8 {
        self.apu_io0
    }

    fn get_mut(&mut self) -> &mut u8 {
        &mut self.apu_io0
    }
}

impl RegisterMap<ApuIoRegister1> for HardwareRegisters {
    open spec fn reg_spec(&self) -> u8 {
        self.apu_io1
    }

    open spec fn with_reg(&self, value: u8) -> HardwareRegisters {
        HardwareRegisters { apu_io1: value, ..*self }
    }

    fn get(&self) -> u8 {
        self.apu_io1
    }

    fn get_mut(&mut self) -> &mut u8 {
        &mut self.apu_io1
    }
}

impl RegisterMap<ApuIoRegister2> for HardwareRegisters {
    open spec fn reg_spec(&self) -> u8 {
        self.apu_io2
    }

    open spec fn with_reg(&self, value: u8) -> HardwareRegisters {
        HardwareRegisters { apu_io2: value, ..*self }
    }

    fn get(&self) -> u8 {
        self.apu_io2
    }

    fn get_mut(&mut self) -> &mut u8 {
        &mut self.apu_io2
    }
}

impl RegisterMap<ApuIoRegister3> for HardwareRegisters {
    open spec fn reg_spec(&self) -> u8 {
        self.apu_io3
    }

    open spec fn with_reg(&self, value: u8) -> HardwareRegisters {
        HardwareRegisters { apu_io3: value, ..*self }
    }

    fn get(&self) -> u8 {
        self.apu_io3
    }

    fn get_mut(&mut self) -> &mut u8 {
        &mut self.apu_io3
    }
}

impl RegisterMap<InterruptEnableRegister> for HardwareRegisters {
    open spec fn reg_spec(&self) -> u8 {
        self.interrupt_enable
    }

    open spec fn with_reg(&self, value: u8) -> HardwareRegisters {
        HardwareRegisters { interrupt_enable: value, ..*self }
    }

    fn get(&self) -> u8 {
        self.interrupt_enable
    }

    fn get_mut(&mut self) -> &mut u8 {
        &mut self.interrupt_enable
    }
}

impl RegisterMap<DmaEnableRegister> for HardwareRegisters {
    open spec fn reg_spec(&self) -> u8 {
        self.dma_enable
    }

    open spec fn with_reg(&self, value: u8) -> HardwareRegisters {
        HardwareRegisters { dma_enable: value, ..*self }
    }

    fn get(&self) -> u8 {
        self.dma_enable
    }

    fn get_mut(&mut self) -> &mut u8 {
        &mut self.dma_enable
    }
}

impl RegisterMap<HdmaEnableRegister> for HardwareRegisters {
    open spec fn reg_spec(&self) -> u8 {
        self.hdma_enable
    }

    open spec fn with_reg(&self, value: u8) -> HardwareRegisters {
        HardwareRegisters { hdma_enable: value, ..*self }
    }

    fn get(&self) -> u8 {
        self.hdma_enable
    }

    fn get_mut(&mut self) -> &mut u8 {
        &mut self.hdma_enable
    }
}

} // verus!
