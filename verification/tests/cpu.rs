use snes_core::cpu::registers::ProcessorStatus;
use snes_core::cpu::{Address, Instruction};
use snes_core::fault::Fault;
use snes_core::Snes;

fn boot_rom(code: &[u8]) -> Vec<u8> {
    let mut rom = vec![0u8; 0x8000];
    rom[..code.len()].copy_from_slice(code);
    let h = 0x7fc0;
    rom[h..h + 21].copy_from_slice(b"SUPER TEST CART 00001");
    rom[h + 21] = 0x20; // LoROM mapping mode
    rom[h + 0x3c] = 0x00; // emulation-mode reset vector: 0x8000
    rom[h + 0x3d] = 0x80;
    rom
}

#[test]
fn status_flag_setters_touch_one_bit() {
    let mut p = ProcessorStatus(0);
    p.set_carry(true);
    assert_eq!(p.0, 0x01);
    p.set_index(true);
    assert_eq!(p.0, 0x11);
    p.set_carry(false);
    assert_eq!(p.0, 0x10);

    let mut q = ProcessorStatus(0xff);
    q.set_decimal(false);
    assert_eq!(q.0, 0xf7);
    q.set_decimal(false);
    assert_eq!(q.0, 0xf7); // clearing twice stays cleared
    q.set_decimal(true);
    assert_eq!(q.0, 0xff);
}

#[test]
fn status_flag_getters_read_bits() {
    let p = ProcessorStatus(0b1010_0101);
    assert!(p.get_carry());
    assert!(!p.get_zero());
    assert!(p.get_irq());
    assert!(!p.get_decimal());
    assert!(!p.get_index());
    assert!(p.get_accumulator());
    assert!(!p.get_overflow());
    assert!(p.get_negative());
}

#[test]
fn reset_establishes_power_on_state() {
    let s = Snes::start(boot_rom(&[0x18])).unwrap();
    let r = &s.core.registers;
    assert_eq!(r.program_counter, 0x8000);
    assert_eq!(r.program_bank, 0);
    assert_eq!(r.stack_pointer, 0x0100);
    assert_eq!(r.accumulator, 0);
    assert_eq!(r.index_x, 0);
    assert_eq!(r.index_y, 0);
    assert!(r.emulation);
    assert!(r.processor_status.get_accumulator());
    assert!(r.processor_status.get_index());
    assert!(!r.processor_status.get_decimal());
    assert!(r.processor_status.get_irq());
    assert!(r.processor_status.get_carry());
    assert_eq!(s.core.emulation_interrupts.reset, 0x8000);
}

#[test]
fn arg_size_values() {
    assert_eq!(Address::Absolute { addr: 1 }.arg_size(), Ok(2));
    assert_eq!(Address::AbsoluteLong { bank: 1, addr: 1 }.arg_size(), Ok(3));
    assert_eq!(Address::Immediate8 { data: 1 }.arg_size(), Ok(1));
    assert_eq!(Address::Immediate16 { data: 1 }.arg_size(), Ok(2));
    assert_eq!(
        Address::Direct { offset: 1 }.arg_size(),
        Err(Fault::UnimplementedAddressingMode)
    );
}

#[test]
fn instruction_size_values() {
    assert_eq!(Instruction::ClearCarry.size(), Ok(1));
    assert_eq!(Instruction::DisableInterruptRequests.size(), Ok(1));
    assert_eq!(Instruction::ExchangeCarryEmulator.size(), Ok(1));
    assert_eq!(Instruction::ResetStatusFlags(0x20).size(), Ok(2));
    assert_eq!(Instruction::Jump(Address::Absolute { addr: 1 }).size(), Ok(3));
    assert_eq!(
        Instruction::Jump(Address::AbsoluteLong { bank: 1, addr: 1 }).size(),
        Ok(4)
    );
    assert_eq!(
        Instruction::LoadAccumulator(Address::Immediate8 { data: 1 }).size(),
        Ok(2)
    );
    assert_eq!(
        Instruction::StoreAccumulator(Address::Direct { offset: 1 }).size(),
        Err(Fault::UnimplementedAddressingMode)
    );
}

#[test]
fn raw_address_resolution() {
    let mut s = Snes::start(boot_rom(&[0x18])).unwrap();
    s.core.registers.data_bank = 0x12;
    assert_eq!(
        s.core.raw_address(Address::Absolute { addr: 0x3456 }),
        Ok((0x12, 0x3456))
    );
    assert_eq!(
        s.core.raw_address(Address::AbsoluteLong {
            bank: 0x7e,
            addr: 0x0001
        }),
        Ok((0x7e, 0x0001))
    );
    assert_eq!(
        s.core.raw_address(Address::Direct { offset: 5 }),
        Err(Fault::UnimplementedAddressingMode)
    );
}

#[test]
fn store_load_width_symmetry_16bit() {
    let mut s = Snes::start(boot_rom(&[0x18])).unwrap();
    s.core.registers.processor_status.set_accumulator(false); // 16-bit
    s.core.registers.accumulator = 0xbeef;
    let target = Address::Absolute { addr: 0x0100 };
    assert_eq!(s.core.store_accumulator(&mut s.memory, target), Ok(()));
    assert_eq!(s.memory.get_byte(0x00, 0x0100), Ok(0xef)); // low byte first
    assert_eq!(s.memory.get_byte(0x00, 0x0101), Ok(0xbe)); // high at addr+1
    s.core.registers.accumulator = 0;
    assert_eq!(s.core.load_accumulator(&s.memory, target), Ok(()));
    assert_eq!(s.core.registers.accumulator, 0xbeef);
}

#[test]
fn store_load_width_symmetry_8bit() {
    let mut s = Snes::start(boot_rom(&[0x18])).unwrap();
    assert!(s.core.registers.processor_status.get_accumulator()); // 8-bit after reset
    s.core.registers.accumulator = 0x0077;
    let target = Address::Absolute { addr: 0x0200 };
    assert_eq!(s.core.store_accumulator(&mut s.memory, target), Ok(()));
    assert_eq!(s.memory.get_byte(0x00, 0x0200), Ok(0x77));
    assert_eq!(s.memory.get_byte(0x00, 0x0201), Ok(0)); // high byte untouched
    s.core.registers.accumulator = 0;
    assert_eq!(s.core.load_accumulator(&s.memory, target), Ok(()));
    assert_eq!(s.core.registers.accumulator, 0x0077);
}

#[test]
fn load_accumulator_width_depends_on_flag() {
    // 8-bit mode (the reset default): one immediate byte, size 2.
    let mut s = Snes::start(boot_rom(&[0xa9, 0x34, 0x12])).unwrap();
    assert_eq!(s.step(), Ok(()));
    assert_eq!(s.core.registers.accumulator, 0x0034);
    assert_eq!(s.core.registers.program_counter, 0x8002);

    // 16-bit mode: two immediate bytes, size 3.
    let mut s = Snes::start(boot_rom(&[0xa9, 0x34, 0x12])).unwrap();
    s.core.registers.processor_status.set_accumulator(false);
    assert_eq!(s.step(), Ok(()));
    assert_eq!(s.core.registers.accumulator, 0x1234);
    assert_eq!(s.core.registers.program_counter, 0x8003);
}

#[test]
fn rep_clears_exactly_masked_bits() {
    // REP #$21 clears carry (0x01) and the accumulator width flag (0x20).
    let mut s = Snes::start(boot_rom(&[0xc2, 0x21])).unwrap();
    assert_eq!(s.step(), Ok(()));
    let p = &s.core.registers.processor_status;
    assert!(!p.get_carry());
    assert!(!p.get_accumulator());
    assert!(p.get_index()); // untouched
    assert!(p.get_irq()); // untouched
    assert!(!p.get_decimal());
    assert_eq!(s.core.registers.program_counter, 0x8002);
}

#[test]
fn xce_copies_carry_into_emulation() {
    // CLC, then XCE: emulation becomes the cleared carry.
    let mut s = Snes::start(boot_rom(&[0x18, 0xfb])).unwrap();
    assert_eq!(s.step(), Ok(()));
    assert!(!s.core.registers.processor_status.get_carry());
    assert!(s.core.registers.emulation);
    let flags_before = s.core.registers.processor_status.0;
    let acc_before = s.core.registers.accumulator;
    assert_eq!(s.step(), Ok(()));
    assert!(!s.core.registers.emulation);
    assert_eq!(s.core.registers.processor_status.0, flags_before);
    assert_eq!(s.core.registers.accumulator, acc_before);
    assert_eq!(s.core.registers.stack_pointer, 0x0100);
}

#[test]
fn unimplemented_opcode_reports_byte_and_location() {
    let mut s = Snes::start(boot_rom(&[0xff])).unwrap();
    assert_eq!(
        s.step(),
        Err(Fault::UnimplementedOpcode {
            opcode: 0xff,
            bank: 0x00,
            addr: 0x8000
        })
    );
}

#[test]
fn jump_sets_bank_and_counter() {
    let mut s = Snes::start(boot_rom(&[0x4c, 0x10, 0x80])).unwrap();
    assert_eq!(s.step(), Ok(()));
    assert_eq!(s.core.registers.program_bank, 0x00);
    assert_eq!(s.core.registers.program_counter, 0x8010);

    let mut s = Snes::start(boot_rom(&[0x5c, 0x00, 0x90, 0x01])).unwrap();
    assert_eq!(s.step(), Ok(()));
    assert_eq!(s.core.registers.program_bank, 0x01);
    assert_eq!(s.core.registers.program_counter, 0x9000);
}

#[test]
fn store_zero_writes_single_byte() {
    // STZ $2100 clears the screen-display register.
    let mut s = Snes::start(boot_rom(&[0x9c, 0x00, 0x21])).unwrap();
    assert_eq!(s.memory.set_byte(0x00, 0x2100, 0x55), Ok(()));
    assert_eq!(s.step(), Ok(()));
    assert_eq!(s.memory.get_byte(0x00, 0x2100), Ok(0x00));
    assert_eq!(s.core.registers.program_counter, 0x8003);
}
