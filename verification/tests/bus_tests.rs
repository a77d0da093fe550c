use gba_core::codec::{HalfWord, Word};
use gba_core::mem::{Interrupt, Key, Mem};

#[test]
fn halfword_endian_round_trip() {
    let le = HalfWord::from_u16_le(0xBEEF);
    assert_eq!(le.bytes, [0xEF, 0xBE]);
    assert_eq!(le.little_endian(), 0xBEEF);
    assert_eq!(le.big_endian(), 0xEFBE);
    let be = HalfWord::from_u16_be(0xBEEF);
    assert_eq!(be.bytes, [0xBE, 0xEF]);
    assert_eq!(be.big_endian(), 0xBEEF);
}

#[test]
fn word_endian_round_trip() {
    let le = Word::from_u32_le(0xAABBCCDD);
    assert_eq!(le.bytes, [0xDD, 0xCC, 0xBB, 0xAA]);
    assert_eq!(le.little_endian(), 0xAABBCCDD);
    assert_eq!(le.big_endian(), 0xDDCCBBAA);
    let be = Word::from_u32_be(0xAABBCCDD);
    assert_eq!(be.bytes, [0xAA, 0xBB, 0xCC, 0xDD]);
    assert_eq!(be.big_endian(), 0xAABBCCDD);
}

#[test]
fn bus_round_trips_outside_io() {
    let mut mem = Mem::new(0x10000);
    mem.set_byte(0x20, 0x7E);
    assert_eq!(mem.get_byte(0x20), 0x7E);
    mem.set_halfword(0x40, HalfWord::from_u16_le(0x1234));
    assert_eq!(mem.get_halfword(0x40).little_endian(), 0x1234);
    mem.set_word(0x80, Word::from_u32_le(0x89ABCDEF));
    assert_eq!(mem.get_word(0x80).little_endian(), 0x89ABCDEF);
}

#[test]
fn ack_register_write_one_to_clear() {
    let mut mem = Mem::new(0x4000210);
    mem.set_byte(0x4000208, 1); // master enable
    mem.set_byte(0x4000200, 0xFF); // enable all low interrupt kinds
    mem.request_irq(Interrupt::VBlank);
    mem.request_irq(Interrupt::Serial);
    assert_eq!(mem.get_byte(0x4000202), 0x81);
    // writing a one clears only that stored bit
    mem.set_byte(0x4000202, 0x01);
    assert_eq!(mem.get_byte(0x4000202), 0x80);
    // writing zero leaves the rest alone
    mem.set_byte(0x4000202, 0x00);
    assert_eq!(mem.get_byte(0x4000202), 0x80);
}

#[test]
fn request_irq_needs_master_and_kind_enable() {
    let mut mem = Mem::new(0x4000210);
    mem.set_byte(0x4000200, 0xFF);
    mem.request_irq(Interrupt::VBlank); // master enable clear: no effect
    assert_eq!(mem.get_byte(0x4000202), 0);
    mem.set_byte(0x4000208, 1);
    mem.set_byte(0x4000200, 0x00);
    mem.request_irq(Interrupt::VBlank); // kind disabled: no effect
    assert_eq!(mem.get_byte(0x4000202), 0);
    mem.set_byte(0x4000201, 0x20); // enable kind 13 (cartridge)
    mem.request_irq(Interrupt::GamePak);
    assert_eq!(mem.get_byte(0x4000203), 0x20);
}

#[test]
fn mirror_reads_match_canonical() {
    let mut mem = Mem::new(0x4000000);
    mem.set_byte(0x3007F42, 0x5A);
    assert_eq!(mem.get_byte(0x3FFFF42), 0x5A);
    assert_eq!(mem.get_byte(0x3007F42), mem.get_byte(0x3FFFF42));
    // writes through the mirror land on the canonical byte
    mem.set_byte(0x3FFFF10, 0x77);
    assert_eq!(mem.get_byte(0x3007F10), 0x77);
}

#[test]
fn mirror_canonical_addresses() {
    assert_eq!(Mem::canonical(0x3FFFF00), 0x3007F00);
    assert_eq!(Mem::canonical(0x3FFFFFF), 0x3007FFF);
    assert_eq!(Mem::canonical(0xA123456), 0x8123456);
    assert_eq!(Mem::canonical(0xC123456), 0x8123456);
    assert_eq!(Mem::canonical(0x8123456), 0x8123456);
    assert_eq!(Mem::canonical(0x2000000), 0x2000000);
}

#[test]
fn key_event_updates_input_register() {
    let mut mem = Mem::new(0x4000210);
    mem.key_event(Key::A, false); // release: bit reads one
    assert_eq!(mem.get_halfword(0x4000130).little_endian(), 0x0001);
    mem.key_event(Key::L, false);
    assert_eq!(mem.get_halfword(0x4000130).little_endian(), 0x0201);
    mem.key_event(Key::A, true); // press: bit reads zero
    assert_eq!(mem.get_halfword(0x4000130).little_endian(), 0x0200);
}

#[test]
fn key_event_raises_keypad_interrupt_in_or_mode() {
    let mut mem = Mem::new(0x4000210);
    mem.set_byte(0x4000208, 1);
    mem.set_halfword(0x4000200, HalfWord::from_u16_le(0x1000)); // keypad kind
    mem.set_halfword(0x4000132, HalfWord::from_u16_le(0x4001)); // master enable + key A
    mem.key_event(Key::A, true);
    assert_eq!(mem.get_halfword(0x4000202).little_endian(), 0x1000);
}

#[test]
fn key_event_without_master_enable_is_quiet() {
    let mut mem = Mem::new(0x4000210);
    mem.set_byte(0x4000208, 1);
    mem.set_halfword(0x4000200, HalfWord::from_u16_le(0x1000));
    mem.set_halfword(0x4000132, HalfWord::from_u16_le(0x0001)); // no master enable bit
    mem.key_event(Key::A, true);
    assert_eq!(mem.get_halfword(0x4000202).little_endian(), 0);
}

#[test]
fn load_copies_and_save_returns_region() {
    let mut mem = Mem::new(0x100);
    mem.load(4, &[1, 2, 3]);
    assert_eq!(mem.get_byte(4), 1);
    assert_eq!(mem.get_byte(5), 2);
    assert_eq!(mem.get_byte(6), 3);
    assert_eq!(mem.get_byte(7), 0);
    assert_eq!(mem.save(4, 6), vec![1, 2, 3]);
}

#[test]
fn load_tolerates_an_image_longer_than_the_store() {
    let mut mem = Mem::new(4);
    mem.load(2, &[9, 8, 7, 6]);
    assert_eq!(mem.save(0, 3), vec![0, 0, 9, 8]);
}

#[test]
fn key_event_and_mode_ignores_stray_input_bits() {
    let mut mem = Mem::new(0x4000210);
    mem.set_byte(0x4000208, 1);
    mem.set_halfword(0x4000200, HalfWord::from_u16_le(0x1000));
    // master enable, AND mode, key A enabled; a stray high input bit set
    mem.set_halfword(0x4000132, HalfWord::from_u16_le(0xC001));
    mem.set_halfword(0x4000130, HalfWord::from_u16_le(0x4000));
    mem.key_event(Key::A, true);
    assert_eq!(mem.get_halfword(0x4000202).little_endian(), 0x1000);
}

#[test]
fn key_event_and_mode_needs_every_enabled_key() {
    let mut mem = Mem::new(0x4000210);
    mem.set_byte(0x4000208, 1);
    mem.set_halfword(0x4000200, HalfWord::from_u16_le(0x1000));
    // AND mode over keys A and B; B reads released
    mem.set_halfword(0x4000132, HalfWord::from_u16_le(0xC003));
    mem.set_halfword(0x4000130, HalfWord::from_u16_le(0x0002));
    mem.key_event(Key::A, true);
    assert_eq!(mem.get_halfword(0x4000202).little_endian(), 0);
}
