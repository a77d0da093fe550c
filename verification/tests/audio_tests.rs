use gba_core::apu::{Controls, PulseChannel1, PulseChannel2, SampleWave, WaveChannel};
use gba_core::codec::HalfWord;
use gba_core::mem::Mem;

#[test]
fn pulse_one_is_silent_until_enabled() {
    let mut mem = Mem::new(0x4000100);
    let mut p1 = PulseChannel1::new();
    assert_eq!(p1.next(&mem), (0, 0, 0));
    assert!(!p1.enabled);
    // enable the channel on the left mix
    mem.set_halfword(0x4000080, HalfWord::from_u16_le(1 << 8));
    p1.next(&mem);
    assert!(p1.enabled);
}

#[test]
fn pulse_one_reads_duty_and_counts_cycles() {
    let mut mem = Mem::new(0x4000100);
    mem.set_halfword(0x4000080, HalfWord::from_u16_le(1 << 8));
    mem.set_halfword(0x4000062, HalfWord::from_u16_le(0x00C0)); // duty bits 6-7
    let mut p1 = PulseChannel1::new();
    let (rate, duty, vol) = p1.next(&mem);
    assert_eq!(duty, 3);
    assert_eq!(rate, 0);
    assert_eq!(vol, 0);
    assert_eq!(p1.cycles, 1);
}

#[test]
fn pulse_one_update_reads_sweep_fields() {
    let mut mem = Mem::new(0x4000100);
    // sweep shift 5, sweep decrease, sweep time 3
    mem.set_halfword(0x4000060, HalfWord::from_u16_le((3 << 4) | (1 << 3) | 5));
    let mut p1 = PulseChannel1::new();
    p1.update(&mem);
    assert_eq!(p1.sweep_shift, 5);
    assert_eq!(p1.sweep_time, 3);
    assert!(!p1.sweep_inc);
}

#[test]
fn pulse_two_envelope_fields() {
    let mut mem = Mem::new(0x4000100);
    // envelope increase, envelope time 7
    mem.set_halfword(0x4000068, HalfWord::from_u16_le((1 << 11) | (7 << 8)));
    let mut p2 = PulseChannel2::new();
    p2.update(&mem);
    assert!(p2.env_inc);
    assert_eq!(p2.env_time, 7);
}

#[test]
fn pulse_two_is_silent_until_enabled() {
    let mem = Mem::new(0x4000100);
    let mut p2 = PulseChannel2::new();
    assert_eq!(p2.next(&mem), (0, 0, 0));
}

#[test]
fn wave_channel_reads_rate_and_sample() {
    let mut mem = Mem::new(0x4000100);
    mem.set_halfword(0x4000070, HalfWord::from_u16_le(1 << 7)); // playing
    mem.set_halfword(0x4000074, HalfWord::from_u16_le(0x0400)); // rate 512
    mem.set_byte(0x4000090, 0xAB); // first bank byte
    let mut w = WaveChannel::new();
    let out = w.next(&mem);
    assert_eq!(w.rate, 512);
    // the first sample is the high nibble of the first bank byte
    assert_eq!(out, Some((0xA, 0, 512)));
}

#[test]
fn wave_channel_none_while_stopped() {
    let mem = Mem::new(0x4000100);
    let mut w = WaveChannel::new();
    assert_eq!(w.next(&mem), None);
}

#[test]
fn wave_ready_follows_the_sample_period() {
    let mut w = WaveChannel::new();
    w.rate = 0; // period 131072 / 2048 = 64 cycles
    w.cycles = 64;
    assert!(w.ready());
    w.cycles = 63;
    assert!(!w.ready());
    w.cycles = 128;
    assert!(w.ready());
}

#[test]
fn wave_volume_field() {
    let mut mem = Mem::new(0x4000100);
    mem.set_halfword(0x4000072, HalfWord::from_u16_le(3 << 13));
    let mut w = WaveChannel::new();
    w.update(&mem);
    assert_eq!(w.vol, 3);
}

#[test]
fn master_control_decodes_register_bits() {
    let c = Controls::master_control(0x8107, 3, 0x80);
    assert_eq!(c.l_vol, 7);
    assert!(c.l_c1_en);
    assert!(c.r_c4_en);
    assert!(!c.l_c2_en);
    assert_eq!(c.dmg_vol, 3);
    assert!(c.enable);
}

#[test]
fn sample_wave_holds_its_sample() {
    let s = SampleWave::new(0xA, 3);
    assert_eq!(s.sample, 0xA);
    assert_eq!(s.volume, 3);
    assert_eq!(s.cycles, 0);
}
