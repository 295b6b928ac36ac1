use snes_core::fault::Fault;
use snes_core::memory_map::registers::{
    ApuIoRegister2, HardwareRegister, HardwareRegisters, RegisterMap, ScreenDisplayRegister,
};
use snes_core::memory_map::{MemoryAccess, MemoryMap};

fn patterned_rom(len: usize) -> Vec<u8> {
    let mut rom = vec![0u8; len];
    for (i, b) in rom.iter_mut().enumerate() {
        *b = (i % 251) as u8;
    }
    rom
}

#[test]
fn rom_reads_map_linearly() {
    let rom = patterned_rom(0x10000);
    let expect_0 = rom[0];
    let expect_7fff = rom[0x7fff];
    let expect_8000 = rom[0x8000];
    let m = MemoryMap::new(rom);
    assert_eq!(m.get_byte(0x00, 0x8000), Ok(expect_0));
    assert_eq!(m.get_byte(0x00, 0xffff), Ok(expect_7fff));
    assert_eq!(m.get_byte(0x01, 0x8000), Ok(expect_8000));
}

#[test]
fn bank_mirroring_reads_equal() {
    let m = MemoryMap::new(patterned_rom(0x10000));
    for &bank in &[0x00u8, 0x01] {
        for &addr in &[0x0000u16, 0x1fff, 0x2100, 0x8000, 0x9234, 0xffff] {
            assert_eq!(m.get_byte(bank + 0x80, addr), m.get_byte(bank, addr));
        }
    }
}

#[test]
fn work_ram_starts_zeroed() {
    let m = MemoryMap::new(patterned_rom(0x8000));
    assert_eq!(m.get_byte(0x00, 0x0000), Ok(0));
    assert_eq!(m.get_byte(0x00, 0x1fff), Ok(0));
}

#[test]
fn work_ram_alias_is_shared_across_banks() {
    let mut m = MemoryMap::new(patterned_rom(0x8000));
    assert_eq!(m.set_byte(0x00, 0x0042, 7), Ok(()));
    assert_eq!(m.get_byte(0x00, 0x0042), Ok(7));
    assert_eq!(m.get_byte(0x3f, 0x0042), Ok(7));
    assert_eq!(m.get_byte(0x80, 0x0042), Ok(7));
    assert_eq!(m.set_byte(0xbf, 0x0042, 9), Ok(()));
    assert_eq!(m.get_byte(0x00, 0x0042), Ok(9));
}

#[test]
fn rom_write_is_protected_and_rom_unchanged() {
    let rom = patterned_rom(0x8000);
    let before = rom[0];
    let mut m = MemoryMap::new(rom);
    assert_eq!(
        m.set_byte(0x00, 0x8000, before.wrapping_add(1)),
        Err(Fault::WriteProtectionViolation {
            bank: 0x00,
            addr: 0x8000
        })
    );
    assert_eq!(m.get_byte(0x00, 0x8000), Ok(before));
}

#[test]
fn unmapped_ranges_fault() {
    let mut m = MemoryMap::new(patterned_rom(0x10000));
    for &(bank, addr) in &[
        (0x00u8, 0x2000u16),
        (0x00, 0x2200),
        (0x00, 0x3000),
        (0x00, 0x4100),
        (0x00, 0x4500),
        (0x00, 0x6000),
        (0x40, 0x8000),
        (0x7e, 0x0000),
        (0x7f, 0x0000),
        (0xfe, 0x8000),
    ] {
        assert_eq!(
            m.get_byte(bank, addr),
            Err(Fault::UnmappedAddress { bank, addr })
        );
        assert_eq!(
            m.set_byte(bank, addr, 1),
            Err(Fault::UnmappedAddress { bank, addr })
        );
    }
}

#[test]
fn rom_read_past_image_end_faults() {
    let m = MemoryMap::new(patterned_rom(0x8000));
    assert_eq!(
        m.get_byte(0x01, 0x8000),
        Err(Fault::UnmappedAddress {
            bank: 0x01,
            addr: 0x8000
        })
    );
}

#[test]
fn hardware_register_cells_store_bytes() {
    let mut m = MemoryMap::new(patterned_rom(0x8000));
    let cells: [u16; 8] = [
        0x2100, 0x2140, 0x2141, 0x2142, 0x2143, 0x4200, 0x420b, 0x420c,
    ];
    for (i, &addr) in cells.iter().enumerate() {
        assert_eq!(m.set_byte(0x00, addr, 0x10 + i as u8), Ok(()));
    }
    for (i, &addr) in cells.iter().enumerate() {
        assert_eq!(m.get_byte(0x00, addr), Ok(0x10 + i as u8));
    }
}

#[test]
fn unknown_register_offset_faults() {
    let mut m = MemoryMap::new(patterned_rom(0x8000));
    assert_eq!(
        m.get_byte(0x00, 0x2101),
        Err(Fault::UnmappedAddress {
            bank: 0x00,
            addr: 0x2101
        })
    );
    assert_eq!(
        m.set_byte(0x00, 0x4201, 1),
        Err(Fault::UnmappedAddress {
            bank: 0x00,
            addr: 0x4201
        })
    );
}

#[test]
fn register_map_capability_reads_and_writes() {
    let mut bank = HardwareRegisters::default();
    assert_eq!(RegisterMap::<ScreenDisplayRegister>::get(&bank), 0);
    *RegisterMap::<ScreenDisplayRegister>::get_mut(&mut bank) = 0x8f;
    *RegisterMap::<ApuIoRegister2>::get_mut(&mut bank) = 0x33;
    assert_eq!(RegisterMap::<ScreenDisplayRegister>::get(&bank), 0x8f);
    assert_eq!(RegisterMap::<ApuIoRegister2>::get(&bank), 0x33);
    assert_eq!(bank.read(HardwareRegister::ScreenDisplay), 0x8f);
    assert_eq!(bank.read(HardwareRegister::ApuIo2), 0x33);
    assert_eq!(bank.read(HardwareRegister::InterruptEnable), 0);
    bank.write(HardwareRegister::HdmaEnable, 0x01);
    assert_eq!(bank.read(HardwareRegister::HdmaEnable), 0x01);
    assert_eq!(bank.read(HardwareRegister::DmaEnable), 0);
}

#[test]
fn memory_access_resolution() {
    let m = MemoryMap::new(patterned_rom(0x8000));
    assert_eq!(
        m.get_memory_access_lorom(0x00, 0x0042),
        Some(MemoryAccess::Wram(0x42))
    );
    assert_eq!(
        m.get_memory_access_lorom(0x00, 0x8000),
        Some(MemoryAccess::Rom(0))
    );
    assert_eq!(
        m.get_memory_access_lorom(0x01, 0x8001),
        Some(MemoryAccess::Rom(0x8001))
    );
    assert_eq!(
        m.get_memory_access_lorom(0x00, 0x2100),
        Some(MemoryAccess::Register(HardwareRegister::ScreenDisplay))
    );
    assert_eq!(m.get_memory_access_lorom(0x00, 0x5000), None);
    assert_eq!(
        m.get_memory_access_lorom(0x81, 0x8001),
        Some(MemoryAccess::Rom(0x8001))
    );
}
