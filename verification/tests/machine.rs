use snes_core::fault::Fault;
use snes_core::Snes;

fn cartridge(code: &[u8]) -> Vec<u8> {
    let mut rom = vec![0u8; 0x8000];
    rom[..code.len()].copy_from_slice(code);
    let h = 0x7fc0;
    rom[h..h + 21].copy_from_slice(b"SUPER TEST CART 00001");
    rom[h + 21] = 0x20; // LoROM mapping mode
    rom[h + 0x3c] = 0x00; // emulation-mode reset vector: 0x8000
    rom[h + 0x3d] = 0x80;
    rom
}

fn with_copier_header(image: Vec<u8>) -> Vec<u8> {
    let mut rom = vec![0u8; 512];
    rom.extend_from_slice(&image);
    rom
}

#[test]
fn load_test_rom() {
    // A synthetic bootstrap image in place of a cartridge file: SEI, CLC,
    // then a self-jump.
    let rom = cartridge(&[0x78, 0x18, 0x4c, 0x02, 0x80]);
    let mut snes = Snes::start(rom).unwrap();
    assert_eq!(snes.core.registers.program_counter, 0x8000);
    assert_eq!(snes.run(8), Ok(()));
    assert_eq!(snes.core.registers.program_counter, 0x8002);
}

#[test]
fn copier_header_is_stripped() {
    let rom = with_copier_header(cartridge(&[0x18]));
    assert_eq!(rom.len() % 1024, 512);
    let snes = Snes::start(rom).unwrap();
    // The first code byte sits at bank 0, offset 0x8000 of the stripped image.
    assert_eq!(snes.memory.get_byte(0x00, 0x8000), Ok(0x18));
}

#[test]
fn malformed_image_length_faults() {
    // An empty image is a whole number of kilobytes, but cannot hold the
    // header window.
    assert!(matches!(Snes::start(Vec::new()), Err(Fault::MalformedRom)));
    assert!(matches!(
        Snes::start(vec![0u8; 100]),
        Err(Fault::MalformedRom)
    ));
    assert!(matches!(
        Snes::start(vec![0u8; 1025]),
        Err(Fault::MalformedRom)
    ));
    // A whole number of kilobytes, but too short to hold the header window.
    assert!(matches!(
        Snes::start(vec![0u8; 2048]),
        Err(Fault::MalformedRom)
    ));
}

#[test]
fn start_surfaces_header_faults() {
    let mut bad_title = cartridge(&[0x18]);
    bad_title[0x7fc0] = 0xff;
    assert!(matches!(
        Snes::start(bad_title),
        Err(Fault::InvalidHeaderEncoding)
    ));

    let mut bad_mapping = cartridge(&[0x18]);
    bad_mapping[0x7fc0 + 21] = 0x31;
    assert!(matches!(
        Snes::start(bad_mapping),
        Err(Fault::UnsupportedMappingMode)
    ));
}

#[test]
fn end_to_end_bootstrap() {
    // SEI, CLC, LDA #$1234 (16-bit), STA $2100.
    let rom = cartridge(&[0x78, 0x18, 0xa9, 0x34, 0x12, 0x8d, 0x00, 0x21]);
    let mut snes = Snes::start(rom).unwrap();
    // Select the 16-bit accumulator before the load is fetched.
    snes.core.registers.processor_status.set_accumulator(false);

    assert_eq!(snes.step(), Ok(())); // SEI
    assert!(snes.core.registers.processor_status.get_irq());
    assert_eq!(snes.step(), Ok(())); // CLC
    assert!(!snes.core.registers.processor_status.get_carry());
    assert_eq!(snes.step(), Ok(())); // LDA #$1234
    assert_eq!(snes.core.registers.accumulator, 0x1234);

    // STA $2100: the low byte lands in the screen-display register; the
    // high byte aims at 0x2101, where no register answers.
    assert_eq!(
        snes.step(),
        Err(Fault::UnmappedAddress {
            bank: 0x00,
            addr: 0x2101
        })
    );
    assert_eq!(snes.memory.get_byte(0x00, 0x2100), Ok(0x34));
    // 1 + 1 + 3 + 3 bytes of instructions were consumed.
    assert_eq!(snes.core.registers.program_counter, 0x8008);
}

#[test]
fn run_honors_step_budget() {
    // A self-jump: the machine would spin forever; the budget returns
    // control.
    let mut snes = Snes::start(cartridge(&[0x4c, 0x00, 0x80])).unwrap();
    assert_eq!(snes.run(10), Ok(()));
    assert_eq!(snes.core.registers.program_counter, 0x8000);
    assert_eq!(snes.run(0), Ok(()));
}

#[test]
fn run_stops_at_first_fault() {
    let mut snes = Snes::start(cartridge(&[0x18, 0xff])).unwrap();
    assert_eq!(
        snes.run(5),
        Err(Fault::UnimplementedOpcode {
            opcode: 0xff,
            bank: 0x00,
            addr: 0x8001
        })
    );
    assert_eq!(snes.core.registers.program_counter, 0x8001);
}

#[test]
fn load_super_mario_world_rom() {
    // A stand-in for loading a full-size commercial cartridge: a 512 KiB
    // LoROM image behind a copier header, with a plausible header window.
    let mut image = vec![0u8; 0x80000];
    image[0] = 0x4c; // a self-jump at the reset target
    image[1] = 0x00;
    image[2] = 0x80;
    let h = 0x7fc0;
    image[h..h + 21].copy_from_slice(b"SUPER MARIO WORLD    ");
    image[h + 21] = 0x20;
    image[h + 23] = 0x09; // 512 KiB ROM size class
    image[h + 0x3c] = 0x00;
    image[h + 0x3d] = 0x80;
    let rom = with_copier_header(image);
    let mut snes = Snes::start(rom).unwrap();
    assert_eq!(snes.core.registers.program_counter, 0x8000);
    assert_eq!(snes.run(100), Ok(()));
}
