use snes_core::fault::Fault;
use snes_core::snes_header::{InterruptVector, RomKind, RomMakeup, SnesHeader};

fn window(title: &[u8; 21], mapping: u8) -> [u8; 64] {
    let mut w = [0u8; 64];
    w[..21].copy_from_slice(title);
    w[21] = mapping;
    w
}

#[test]
fn header_round_trip() {
    let mut w = window(b"SUPER TEST CART 00001", 0x20);
    w[23] = 0x0a; // ROM size exponent
    w[24] = 0x03; // SRAM size exponent
    w[25] = 0x42; // creator id
    w[27] = 0x01; // version
    w[28] = 0xaa; // checksum complement
    w[29] = 0x55; // checksum
    let native: [u16; 6] = [0x1111, 0x2222, 0x3333, 0x4444, 0x5555, 0x6666];
    let emulation: [u16; 6] = [0x7777, 0x8888, 0x9999, 0xaaaa, 0x8000, 0xbbbb];
    for (i, v) in native.iter().enumerate() {
        w[0x24 + 2 * i] = (v & 0xff) as u8;
        w[0x24 + 2 * i + 1] = (v >> 8) as u8;
    }
    for (i, v) in emulation.iter().enumerate() {
        w[0x34 + 2 * i] = (v & 0xff) as u8;
        w[0x34 + 2 * i + 1] = (v >> 8) as u8;
    }

    let h = SnesHeader::from_bytes(&w).unwrap();
    assert_eq!(h.title, "SUPER TEST CART 00001");
    assert!(matches!(h.makeup, RomMakeup::LoRom));
    assert!(matches!(h.kind, RomKind::Rom));
    assert_eq!(h.rom_size, 0x0a);
    assert_eq!(h.sram_size, 0x03);
    assert_eq!(h.creator_id, 0x42);
    assert_eq!(h.version, 0x01);
    assert_eq!(h.checksum_complement, 0xaa);
    assert_eq!(h.checksum, 0x55);
    assert_eq!(h.native_interrupts.cop, 0x1111);
    assert_eq!(h.native_interrupts.brk, 0x2222);
    assert_eq!(h.native_interrupts.abort, 0x3333);
    assert_eq!(h.native_interrupts.nmi, 0x4444);
    assert_eq!(h.native_interrupts.reset, 0x5555);
    assert_eq!(h.native_interrupts.irq, 0x6666);
    assert_eq!(h.emulation_interrupts.cop, 0x7777);
    assert_eq!(h.emulation_interrupts.brk, 0x8888);
    assert_eq!(h.emulation_interrupts.abort, 0x9999);
    assert_eq!(h.emulation_interrupts.nmi, 0xaaaa);
    assert_eq!(h.emulation_interrupts.reset, 0x8000);
    assert_eq!(h.emulation_interrupts.irq, 0xbbbb);
}

#[test]
fn header_rejects_invalid_title_text() {
    let mut w = window(b"SUPER TEST CART 00001", 0x20);
    w[0] = 0xff; // a lone 0xFF byte is never valid UTF-8
    let r = SnesHeader::from_bytes(&w);
    assert!(matches!(r, Err(Fault::InvalidHeaderEncoding)));
}

#[test]
fn header_rejects_unknown_mapping_mode() {
    let w = window(b"SUPER TEST CART 00001", 0x21);
    let r = SnesHeader::from_bytes(&w);
    assert!(matches!(r, Err(Fault::UnsupportedMappingMode)));
}

#[test]
fn rom_makeup_from_byte_values() {
    assert!(matches!(RomMakeup::from_byte(0x20), Ok(RomMakeup::LoRom)));
    assert!(matches!(
        RomMakeup::from_byte(0x00),
        Err(Fault::UnsupportedMappingMode)
    ));
    assert!(matches!(
        RomMakeup::from_byte(0x31),
        Err(Fault::UnsupportedMappingMode)
    ));
}

#[test]
fn interrupt_vector_from_bytes_values() {
    let bytes: [u8; 12] = [
        0x01, 0x02, 0x03, 0x04, 0x05, 0x06, 0x07, 0x08, 0x09, 0x0a, 0x0b, 0x0c,
    ];
    let v = InterruptVector::from_bytes(&bytes);
    assert_eq!(v.cop, 0x0201);
    assert_eq!(v.brk, 0x0403);
    assert_eq!(v.abort, 0x0605);
    assert_eq!(v.nmi, 0x0807);
    assert_eq!(v.reset, 0x0a09);
    assert_eq!(v.irq, 0x0c0b);
}
