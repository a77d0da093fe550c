//! The audio channel state machines: two pulse channels and one
//! wave-table channel, each polling its control registers and stepping
//! length, envelope and sweep counters. The channels hand out plain
//! sample parameters; turning them into host samples is the sinks' job.
use vstd::prelude::*;

use crate::mem::{spec_read_hw, Mem};

verus! {

/// Sweep-control register of the first pulse channel.
pub const REG_SND1SWEEP: u32 = 0x4000060;

/// Duty/length/envelope register of the first pulse channel.
pub const REG_SND1CNT: u32 = 0x4000062;

/// Frequency/control register of the first pulse channel.
pub const REG_SND1FREQ: u32 = 0x4000064;

/// Duty/length/envelope register of the second pulse channel.
pub const REG_SND2CNT: u32 = 0x4000068;

/// Frequency/control register of the second pulse channel.
pub const REG_SND2FREQ: u32 = 0x400006C;

/// Bank-select register of the wave channel.
pub const REG_SND3SEL: u32 = 0x4000070;

/// Length/volume register of the wave channel.
pub const REG_SND3CNT: u32 = 0x4000072;

/// Frequency/control register of the wave channel.
pub const REG_SND3FREQ: u32 = 0x4000074;

/// Master channel-enable register.
pub const REG_SNDDMGCNT: u32 = 0x4000080;

/// Master volume register.
pub const REG_SNDDSCNT: u32 = 0x4000082;

/// First byte of the wave channel's first sample bank.
pub const REG_SND3BANK0: u32 = 0x4000090;

/// First byte of the wave channel's second sample bank.
pub const REG_SND3BANK1: u32 = 0x4000098;

/// Two to a small power: the sweep divisor table.
pub open spec fn spec_pow2(s: u8) -> u32 {
    if s == 0 {
        1
    } else if s == 1 {
        2
    } else if s == 2 {
        4
    } else if s == 3 {
        8
    } else if s == 4 {
        16
    } else if s == 5 {
        32
    } else if s == 6 {
        64
    } else {
        128
    }
}

/// The number of frequency-rate units in one sample period.
pub open spec fn spec_period(rate: u16) -> int {
    131072int / (2048int - rate as int)
}

/// The first pulse generator: duty, envelope, length and sweep controls.
pub struct PulseChannel1 {
    pub duty: u8,
    pub length: u8,
    pub length_en: bool,
    pub length_count: i128,
    pub init_vol: i8,
    pub curr_vol: i8,
    pub env_inc: bool,
    pub env_time: u8,
    pub init_rate: i32,
    pub curr_rate: i32,
    pub sweep_shift: u8,
    pub sweep_time: u8,
    pub sweep_inc: bool,
    pub cycles: u128,
    pub enabled: bool,
}

/// The register words the first pulse channel polls.
pub open spec fn spec_p1_regs(m: Seq<u8>) -> (u16, u16, u16, u16, u16) {
    (
        spec_read_hw(m, REG_SNDDMGCNT as int),
        spec_read_hw(m, REG_SNDDSCNT as int),
        spec_read_hw(m, REG_SND1CNT as int),
        spec_read_hw(m, REG_SND1SWEEP as int),
        spec_read_hw(m, REG_SND1FREQ as int),
    )
}

/// The first pulse channel after one register poll: every control field
/// is refreshed from its register bits, and the length counter reloads
/// when the length controls or the enable change.
pub open spec fn spec_p1_update(c: PulseChannel1, m: Seq<u8>) -> PulseChannel1 {
    let r = spec_p1_regs(m);
    let dmg_cnt = r.0;
    let ds_cnt = r.1;
    let cnt = r.2;
    let swp = r.3;
    let frq = r.4;
    let length = ((cnt << 10) >> 10) as u8;
    let length_en = (frq << 1) >> 14 == 1;
    let lc1 = if length != c.length || length_en != c.length_en {
        length as i128
    } else {
        c.length_count
    };
    let enabled = (dmg_cnt << 7) >> 15 == 1 || (dmg_cnt << 3) >> 15 == 1;
    let lc2 = if enabled != c.enabled {
        length as i128
    } else {
        lc1
    };
    PulseChannel1 {
        duty: ((cnt << 8) >> 14) as u8,
        length,
        length_en,
        length_count: lc2,
        init_vol: ((ds_cnt << 14) >> 14) as i8,
        env_inc: (cnt << 4) >> 15 == 1,
        env_time: ((cnt << 5) >> 13) as u8,
        init_rate: ((frq << 5) >> 5) as i32,
        sweep_shift: ((swp << 13) >> 13) as u8,
        sweep_time: ((swp << 9) >> 13) as u8,
        sweep_inc: (swp << 12) >> 15 == 0,
        enabled,
        curr_vol: c.curr_vol,
        curr_rate: c.curr_rate,
        cycles: c.cycles,
    }
}

impl PulseChannel1 {
    /// Channel state the stepping relies on: the volume sits in its
    /// four-bit range, the rate in the register range, and the sweep
    /// shift in its three-bit field.
    pub open spec fn wf(&self) -> bool {
        &&& 0 <= self.curr_vol <= 15
        &&& 0 <= self.curr_rate <= 2048
        &&& self.sweep_shift <= 7
    }

    /// A silent, disabled channel.
    pub fn new() -> (r: Self)
        ensures
            r.wf(),
            r.duty == 0,
            r.length == 0,
            r.length_en == false,
            r.length_count == 0,
            r.curr_vol == 0,
            r.curr_rate == 0,
            r.cycles == 0,
            r.enabled == false,
    {
        PulseChannel1 {
            duty: 0,
            length: 0,
            length_en: false,
            length_count: 0,
            init_vol: 0,
            curr_vol: 0,
            env_inc: false,
            env_time: 0,
            init_rate: 0,
            curr_rate: 0,
            sweep_shift: 0,
            sweep_time: 0,
            sweep_inc: false,
            cycles: 0,
            enabled: false,
        }
    }

    /// Reads the channel's five control registers.
    pub fn query_mem(&self, ram: &Mem) -> (r: (u16, u16, u16, u16, u16))
        ensures
            r == spec_p1_regs(ram@),
    {
        let dmg_cnt = ram.read_halfword(REG_SNDDMGCNT);
        let ds_cnt = ram.read_halfword(REG_SNDDSCNT);
        let c1_cnt = ram.read_halfword(REG_SND1CNT);
        let c1_swp = ram.read_halfword(REG_SND1SWEEP);
        let c1_frq = ram.read_halfword(REG_SND1FREQ);
        (dmg_cnt, ds_cnt, c1_cnt, c1_swp, c1_frq)
    }

    /// Refreshes the control fields from the registers.
    pub fn update(&mut self, ram: &Mem)
        requires
            old(self).wf(),
        ensures
            final(self).wf(),
            *final(self) == spec_p1_update(*old(self), ram@),
    {
        let (dmg_cnt, ds_cnt, cnt, swp, frq) = self.query_mem(ram);

        self.duty = ((cnt << 8u16) >> 14u16) as u8;

        let length = ((cnt << 10u16) >> 10u16) as u8;
        let length_en = (frq << 1u16) >> 14u16 == 1;
        if length != self.length || length_en != self.length_en {
            self.length_count = length as i128;
        }
        self.length = length;
        self.length_en = length_en;
        self.init_vol = #[verifier::truncate] (((ds_cnt << 14u16) >> 14u16) as i8);
        self.env_inc = (cnt << 4u16) >> 15u16 == 1;
        self.env_time = ((cnt << 5u16) >> 13u16) as u8;
        self.init_rate = ((frq << 5u16) >> 5u16) as i32;
        self.sweep_shift = ((swp << 13u16) >> 13u16) as u8;
        self.sweep_time = ((swp << 9u16) >> 13u16) as u8;
        self.sweep_inc = (swp << 12u16) >> 15u16 == 0;

        let enabled = (dmg_cnt << 7u16) >> 15u16 == 1 || (dmg_cnt << 3u16) >> 15u16 == 1;
        if enabled != self.enabled {
            self.length_count = self.length as i128;
            self.enabled = enabled;
        } else {
            self.enabled = enabled;
        }
        proof {
            let swp0 = spec_p1_regs(ram@).3;
            assert((swp0 << 13u16) >> 13u16 <= 7) by (bit_vector);
        }
    }
}


/// The first pulse channel after one sample step, with the sample
/// parameters it hands out: rate, duty and volume, all zero while the
/// channel is silent. The length counter gates the channel at its tick
/// rate, the envelope walks the volume, and the sweep walks the rate,
/// silencing the channel when it leaves the register range.
pub open spec fn spec_p1_next(c0: PulseChannel1, m: Seq<u8>) -> (PulseChannel1, (u16, u8, i8)) {
    let c = spec_p1_update(c0, m);
    if !c.enabled {
        (c, (0u16, 0u8, 0i8))
    } else {
        let cycles = c.cycles.wrapping_add(1);
        let lc_hit = c.length_en && cycles % 62500 == 0;
        let lc = if lc_hit {
            c.length_count.wrapping_sub(1)
        } else {
            c.length_count
        };
        let en1 = if lc_hit && lc <= 0 {
            false
        } else {
            c.enabled
        };
        let env_hit = c.env_time != 0 && cycles % 250000 == 0;
        let v1 = if env_hit {
            if c.env_inc {
                c.curr_vol + 1
            } else {
                c.curr_vol - 1
            }
        } else {
            c.curr_vol as int
        };
        let v2 = if v1 < 0 {
            0
        } else if v1 > 15 {
            15
        } else {
            v1
        };
        let swp_hit = c.sweep_shift != 0 && c.sweep_time != 0 && cycles % 125000 == 0;
        let delta = ((c.curr_rate as u32) / spec_pow2(c.sweep_shift)) as int;
        let new_rate = if c.sweep_inc {
            c.curr_rate + delta
        } else {
            c.curr_rate - delta
        };
        if swp_hit && new_rate > 2048 {
            (
                PulseChannel1 {
                    cycles,
                    length_count: lc,
                    curr_vol: v2 as i8,
                    enabled: false,
                    ..c
                },
                (0u16, 0u8, 0i8),
            )
        } else {
            let rate = if swp_hit && new_rate > 0 {
                new_rate as i32
            } else {
                c.curr_rate
            };
            let c1 = PulseChannel1 {
                cycles,
                length_count: lc,
                curr_vol: v2 as i8,
                enabled: en1,
                curr_rate: rate,
                ..c
            };
            (c1, (rate as u16, c.duty, v2 as i8))
        }
    }
}

impl PulseChannel1 {
    /// Polls the registers and advances the channel one sample, handing
    /// out the rate, duty and volume to generate from.
    pub fn next(&mut self, ram: &Mem) -> (r: (u16, u8, i8))
        requires
            old(self).wf(),
        ensures
            final(self).wf(),
            (*final(self), r) == spec_p1_next(*old(self), ram@),
    {
        self.update(ram);

        if !self.enabled {
            return (0, 0, 0);
        }

        self.cycles = self.cycles.wrapping_add(1);

        if self.length_en && self.cycles % 62500 == 0 {
            self.length_count = self.length_count.wrapping_sub(1);
            if self.length_count <= 0 {
                self.enabled = false;
            }
        }

        if self.env_time != 0 && self.cycles % 250000 == 0 {
            if self.env_inc {
                self.curr_vol = self.curr_vol + 1;
            } else {
                self.curr_vol = self.curr_vol - 1;
            }
            if self.curr_vol < 0 {
                self.curr_vol = 0;
            }
            if self.curr_vol > 15 {
                self.curr_vol = 15;
            }
        }

        if self.sweep_shift != 0 && self.sweep_time != 0 && self.cycles % 125000 == 0 {
            let divisor: u32 = if self.sweep_shift == 0 {
                1
            } else if self.sweep_shift == 1 {
                2
            } else if self.sweep_shift == 2 {
                4
            } else if self.sweep_shift == 3 {
                8
            } else if self.sweep_shift == 4 {
                16
            } else if self.sweep_shift == 5 {
                32
            } else if self.sweep_shift == 6 {
                64
            } else {
                128
            };
            let delta = ((self.curr_rate as u32) / divisor) as i32;
            let new_rate = if self.sweep_inc {
                self.curr_rate + delta
            } else {
                self.curr_rate - delta
            };
            if new_rate > 0 {
                if new_rate > 2048 {
                    self.enabled = false;
                    return (0, 0, 0);
                }
                self.curr_rate = new_rate;
            }
        }

        (self.curr_rate as u16, self.duty, self.curr_vol)
    }
}

/// The second pulse generator: duty, envelope and length controls, with
/// no sweep.
pub struct PulseChannel2 {
    pub duty: u8,
    pub length: u8,
    pub length_en: bool,
    pub length_count: i128,
    pub init_vol: i8,
    pub curr_vol: i8,
    pub env_inc: bool,
    pub env_time: u8,
    pub init_rate: i32,
    pub curr_rate: i32,
    pub cycles: u128,
    pub enabled: bool,
}

/// The register words the second pulse channel polls.
pub open spec fn spec_p2_regs(m: Seq<u8>) -> (u16, u16, u16, u16) {
    (
        spec_read_hw(m, REG_SNDDMGCNT as int),
        spec_read_hw(m, REG_SNDDSCNT as int),
        spec_read_hw(m, REG_SND2CNT as int),
        spec_read_hw(m, REG_SND2FREQ as int),
    )
}

/// The second pulse channel after one register poll.
pub open spec fn spec_p2_update(c: PulseChannel2, m: Seq<u8>) -> PulseChannel2 {
    let r = spec_p2_regs(m);
    let dmg_cnt = r.0;
    let ds_cnt = r.1;
    let cnt = r.2;
    let frq = r.3;
    let length = ((cnt << 10) >> 10) as u8;
    let length_en = (frq << 1) >> 14 == 1;
    let lc1 = if length != c.length || length_en != c.length_en {
        length as i128
    } else {
        c.length_count
    };
    let enabled = (dmg_cnt << 7) >> 15 == 1 || (dmg_cnt << 3) >> 15 == 1;
    let lc2 = if enabled != c.enabled {
        length as i128
    } else {
        lc1
    };
    PulseChannel2 {
        duty: ((cnt << 8) >> 14) as u8,
        length,
        length_en,
        length_count: lc2,
        init_vol: ((ds_cnt << 14) >> 14) as i8,
        env_inc: (cnt << 4) >> 15 == 1,
        env_time: ((cnt << 5) >> 13) as u8,
        init_rate: ((frq << 5) >> 5) as i32,
        enabled,
        curr_vol: c.curr_vol,
        curr_rate: c.curr_rate,
        cycles: c.cycles,
    }
}

/// The second pulse channel after one sample step, with its sample
/// parameters; its rate never sweeps.
pub open spec fn spec_p2_next(c0: PulseChannel2, m: Seq<u8>) -> (PulseChannel2, (u16, u8, i8)) {
    let c = spec_p2_update(c0, m);
    if !c.enabled {
        (c, (0u16, 0u8, 0i8))
    } else {
        let cycles = c.cycles.wrapping_add(1);
        let lc_hit = c.length_en && cycles % 62500 == 0;
        let lc = if lc_hit {
            c.length_count.wrapping_sub(1)
        } else {
            c.length_count
        };
        let en1 = if lc_hit && lc <= 0 {
            false
        } else {
            c.enabled
        };
        let env_hit = c.env_time != 0 && cycles % 250000 == 0;
        let v1 = if env_hit {
            if c.env_inc {
                c.curr_vol + 1
            } else {
                c.curr_vol - 1
            }
        } else {
            c.curr_vol as int
        };
        let v2 = if v1 < 0 {
            0
        } else if v1 > 15 {
            15
        } else {
            v1
        };
        let c1 = PulseChannel2 { cycles, length_count: lc, curr_vol: v2 as i8, enabled: en1, ..c };
        (c1, (c.curr_rate as u16, c.duty, v2 as i8))
    }
}

impl PulseChannel2 {
    /// Channel state the stepping relies on: the volume sits in its
    /// four-bit range and the rate in the register range.
    pub open spec fn wf(&self) -> bool {
        &&& 0 <= self.curr_vol <= 15
        &&& 0 <= self.curr_rate <= 2048
    }

    /// A silent, disabled channel.
    pub fn new() -> (r: Self)
        ensures
            r.wf(),
            r.duty == 0,
            r.length == 0,
            r.length_en == false,
            r.length_count == 0,
            r.curr_vol == 0,
            r.curr_rate == 0,
            r.cycles == 0,
            r.enabled == false,
    {
        PulseChannel2 {
            duty: 0,
            length: 0,
            length_en: false,
            length_count: 0,
            init_vol: 0,
            curr_vol: 0,
            env_inc: false,
            env_time: 0,
            init_rate: 0,
            curr_rate: 0,
            cycles: 0,
            enabled: false,
        }
    }

    /// Reads the channel's four control registers.
    pub fn query_mem(&self, ram: &Mem) -> (r: (u16, u16, u16, u16))
        ensures
            r == spec_p2_regs(ram@),
    {
        let dmg_cnt = ram.read_halfword(REG_SNDDMGCNT);
        let ds_cnt = ram.read_halfword(REG_SNDDSCNT);
        let c1_cnt = ram.read_halfword(REG_SND2CNT);
        let c1_frq = ram.read_halfword(REG_SND2FREQ);
        (dmg_cnt, ds_cnt, c1_cnt, c1_frq)
    }

    /// Refreshes the control fields from the registers.
    pub fn update(&mut self, ram: &Mem)
        requires
            old(self).wf(),
        ensures
            final(self).wf(),
            *final(self) == spec_p2_update(*old(self), ram@),
    {
        let (dmg_cnt, ds_cnt, cnt, frq) = self.query_mem(ram);

        self.duty = ((cnt << 8u16) >> 14u16) as u8;

        let length = ((cnt << 10u16) >> 10u16) as u8;
        let length_en = (frq << 1u16) >> 14u16 == 1;
        if length != self.length || length_en != self.length_en {
            self.length_count = length as i128;
        }
        self.length = length;
        self.length_en = length_en;
        self.init_vol = #[verifier::truncate] (((ds_cnt << 14u16) >> 14u16) as i8);
        self.env_inc = (cnt << 4u16) >> 15u16 == 1;
        self.env_time = ((cnt << 5u16) >> 13u16) as u8;
        self.init_rate = ((frq << 5u16) >> 5u16) as i32;

        let enabled = (dmg_cnt << 7u16) >> 15u16 == 1 || (dmg_cnt << 3u16) >> 15u16 == 1;
        if enabled != self.enabled {
            self.length_count = self.length as i128;
            self.enabled = enabled;
        } else {
            self.enabled = enabled;
        }
    }

    /// Polls the registers and advances the channel one sample, handing
    /// out the rate, duty and volume to generate from.
    pub fn next(&mut self, ram: &Mem) -> (r: (u16, u8, i8))
        requires
            old(self).wf(),
        ensures
            final(self).wf(),
            (*final(self), r) == spec_p2_next(*old(self), ram@),
    {
        self.update(ram);

        if !self.enabled {
            return (0, 0, 0);
        }

        self.cycles = self.cycles.wrapping_add(1);

        if self.length_en && self.cycles % 62500 == 0 {
            self.length_count = self.length_count.wrapping_sub(1);
            if self.length_count <= 0 {
                self.enabled = false;
            }
        }

        if self.env_time != 0 && self.cycles % 250000 == 0 {
            if self.env_inc {
                self.curr_vol = self.curr_vol + 1;
            } else {
                self.curr_vol = self.curr_vol - 1;
            }
            if self.curr_vol < 0 {
                self.curr_vol = 0;
            }
            if self.curr_vol > 15 {
                self.curr_vol = 15;
            }
        }

        (self.curr_rate as u16, self.duty, self.curr_vol)
    }
}

/// The wave-table channel: plays four-bit samples from two banks in I/O
/// space.
pub struct WaveChannel {
    pub cycles: u128,
    pub enabled: bool,
    pub mode: bool,
    pub bank_sel: u8,
    pub length: u8,
    pub length_en: bool,
    pub length_count: i128,
    pub vol: u8,
    pub rate: u16,
    pub sample_num: u8,
}

/// The register words the wave channel polls.
pub open spec fn spec_w_regs(m: Seq<u8>) -> (u16, u16, u16, u16, u16) {
    (
        spec_read_hw(m, REG_SNDDMGCNT as int),
        spec_read_hw(m, REG_SNDDSCNT as int),
        spec_read_hw(m, REG_SND3SEL as int),
        spec_read_hw(m, REG_SND3CNT as int),
        spec_read_hw(m, REG_SND3FREQ as int),
    )
}

/// The wave channel after one register poll.
pub open spec fn spec_w_update(c: WaveChannel, m: Seq<u8>) -> WaveChannel {
    let r = spec_w_regs(m);
    let sel = r.2;
    let cnt = r.3;
    let frq = r.4;
    WaveChannel {
        mode: (sel << 10) >> 15 == 1,
        bank_sel: ((sel << 9) >> 15) as u8,
        enabled: (sel << 8) >> 15 == 1,
        length: ((cnt << 8) >> 8) as u8,
        vol: (cnt >> 13) as u8,
        rate: (frq << 5) >> 6,
        length_en: (frq << 1) >> 15 == 1,
        cycles: c.cycles,
        length_count: c.length_count,
        sample_num: c.sample_num,
    }
}

/// The four-bit sample the channel is standing on: the sixteen bank bytes
/// hold two samples each, high nibble first, and the index wraps within
/// the bank.
pub open spec fn spec_w_sample(c: WaveChannel, m: Seq<u8>) -> u8 {
    let block = c.sample_num / 2;
    let b = if c.mode {
        crate::mem::spec_read_byte(m, REG_SND3BANK0 as int + (block % 16))
    } else {
        let bank = if c.bank_sel == 0 {
            REG_SND3BANK0 as int
        } else {
            REG_SND3BANK1 as int
        };
        crate::mem::spec_read_byte(m, bank + (block % 8))
    };
    if c.sample_num % 2 == 1 {
        ((b << 4) >> 4) as u8
    } else {
        (b >> 4) as u8
    }
}

/// The wave channel after one sample step, with the sample, volume and
/// rate it hands out, or nothing while the channel is silent. The sample
/// pointer advances at the channel's own rate and wraps at the bank edge;
/// the length counter gates the channel.
pub open spec fn spec_w_next(c0: WaveChannel, m: Seq<u8>) -> (WaveChannel, Option<(u8, u8, u16)>) {
    let c = spec_w_update(c0, m);
    if !c.enabled {
        (c, None)
    } else {
        let cycles = c.cycles.wrapping_add(1);
        let ready = cycles % (spec_period(c.rate) as u128) == 0;
        let sn1 = if ready {
            (c.sample_num + 1) as u8
        } else {
            c.sample_num
        };
        let sn2 = if ready && ((c.mode && sn1 >= 64) || (!c.mode && sn1 >= 32)) {
            0u8
        } else {
            sn1
        };
        let lc_hit = c.length_en && cycles % 187 == 0;
        let lc = if lc_hit {
            c.length_count.wrapping_sub(1)
        } else {
            c.length_count
        };
        let en1 = if lc_hit && lc <= 0 {
            false
        } else {
            c.enabled
        };
        let c1 = WaveChannel { cycles, sample_num: sn2, length_count: lc, enabled: en1, ..c };
        (c1, Some((spec_w_sample(c1, m), c.vol, c.rate)))
    }
}

impl WaveChannel {
    /// Channel state the stepping relies on: the rate sits in its ten-bit
    /// field and the sample pointer within the larger bank span.
    pub open spec fn wf(&self) -> bool {
        &&& self.rate <= 1023
        &&& self.sample_num <= 64
    }

    /// A silent, disabled channel.
    pub fn new() -> (r: Self)
        ensures
            r.wf(),
            r.cycles == 0,
            r.enabled == false,
            r.length_count == 0,
            r.sample_num == 0,
    {
        WaveChannel {
            cycles: 0,
            enabled: false,
            mode: false,
            bank_sel: 0,
            length: 0,
            length_en: false,
            length_count: 0,
            vol: 0,
            rate: 0,
            sample_num: 0,
        }
    }

    /// Reads the channel's five control registers.
    pub fn query_mem(&self, ram: &Mem) -> (r: (u16, u16, u16, u16, u16))
        ensures
            r == spec_w_regs(ram@),
    {
        let dmg_cnt = ram.read_halfword(REG_SNDDMGCNT);
        let ds_cnt = ram.read_halfword(REG_SNDDSCNT);
        let c3_sel = ram.read_halfword(REG_SND3SEL);
        let c3_cnt = ram.read_halfword(REG_SND3CNT);
        let c3_frq = ram.read_halfword(REG_SND3FREQ);
        (dmg_cnt, ds_cnt, c3_sel, c3_cnt, c3_frq)
    }

    /// Refreshes the control fields from the registers.
    pub fn update(&mut self, ram: &Mem)
        requires
            old(self).wf(),
        ensures
            final(self).wf(),
            *final(self) == spec_w_update(*old(self), ram@),
    {
        let (dmg_cnt, ds_cnt, sel, cnt, frq) = self.query_mem(ram);

        self.mode = (sel << 10u16) >> 15u16 == 1;
        self.bank_sel = ((sel << 9u16) >> 15u16) as u8;
        self.enabled = (sel << 8u16) >> 15u16 == 1;
        self.length = ((cnt << 8u16) >> 8u16) as u8;
        self.vol = (cnt >> 13u16) as u8;
        self.rate = (frq << 5u16) >> 6u16;
        self.length_en = (frq << 1u16) >> 15u16 == 1;
        proof {
            let frq0 = spec_w_regs(ram@).4;
            assert((frq0 << 5u16) >> 6u16 <= 1023) by (bit_vector);
        }
    }

    /// Whether the channel's own sample clock ticks on this cycle.
    pub fn ready(&self) -> (r: bool)
        requires
            self.rate <= 1023,
        ensures
            r == (self.cycles % (spec_period(self.rate) as u128) == 0),
    {
        let d: u32 = 2048u32 - self.rate as u32;
        let q: u32 = 131072u32 / d;
        proof {
            assert(q >= 1) by (nonlinear_arith)
                requires
                    1025 <= d <= 2048,
                    q == 131072u32 / d,
            ;
        }
        self.cycles % (q as u128) == 0
    }

    /// Reads the four-bit sample the channel is standing on.
    pub fn get_next_sample(&self, ram: &Mem) -> (r: u8)
        ensures
            r == spec_w_sample(*self, ram@),
    {
        let block = self.sample_num / 2;
        let b = if self.mode {
            ram.read_byte(REG_SND3BANK0 + (block % 16) as u32)
        } else {
            let bank = if self.bank_sel == 0 {
                REG_SND3BANK0
            } else {
                REG_SND3BANK1
            };
            ram.read_byte(bank + (block % 8) as u32)
        };
        if self.sample_num % 2 == 1 {
            (b << 4u8) >> 4u8
        } else {
            b >> 4u8
        }
    }

    /// Polls the registers and advances the channel one sample, handing
    /// out the sample, volume and rate, or nothing while silent.
    pub fn next(&mut self, ram: &Mem) -> (r: Option<(u8, u8, u16)>)
        requires
            old(self).wf(),
        ensures
            final(self).wf(),
            (*final(self), r) == spec_w_next(*old(self), ram@),
    {
        self.update(ram);

        if !self.enabled {
            return None;
        }

        self.cycles = self.cycles.wrapping_add(1);

        if self.ready() {
            self.sample_num = self.sample_num + 1;
            if (self.mode && self.sample_num >= 64) || (!self.mode && self.sample_num >= 32) {
                self.sample_num = 0;
            }
        }

        if self.length_en && self.cycles % 187 == 0 {
            self.length_count = self.length_count.wrapping_sub(1);
            if self.length_count <= 0 {
                self.enabled = false;
            }
        }

        let vol = self.vol;
        let rate = self.rate;
        let sample = self.get_next_sample(ram);
        Some((sample, vol, rate))
    }
}


/// One captured wave-table sample with its volume code: the plain data a
/// host-side sample source plays from.
pub struct SampleWave {
    pub cycles: u32,
    pub volume: u8,
    pub sample: u8,
}

impl SampleWave {
    /// A source standing on `sample` at volume code `volume`.
    pub fn new(sample: u8, volume: u8) -> (r: Self)
        ensures
            r.cycles == 0,
            r.volume == volume,
            r.sample == sample,
    {
        SampleWave { cycles: 0, volume, sample }
    }
}


/// The mixer's master controls, decoded from the three sound-control
/// registers.
pub struct Controls {
    pub enable: bool,
    pub l_vol: u8,
    pub r_vol: u8,
    pub l_c1_en: bool,
    pub l_c2_en: bool,
    pub l_c3_en: bool,
    pub l_c4_en: bool,
    pub r_c1_en: bool,
    pub r_c2_en: bool,
    pub r_c3_en: bool,
    pub r_c4_en: bool,
    pub dmg_vol: u8,
}

/// The master controls packed in the channel-enable, volume and status
/// registers.
pub open spec fn spec_master_control(dmg_cnt: u16, ds_cnt: u16, stat: u16) -> Controls {
    Controls {
        l_vol: ((dmg_cnt << 13) >> 13) as u8,
        r_vol: ((dmg_cnt << 9) >> 13) as u8,
        l_c1_en: (dmg_cnt << 7) >> 15 == 1,
        l_c2_en: (dmg_cnt << 6) >> 15 == 1,
        l_c3_en: (dmg_cnt << 5) >> 15 == 1,
        l_c4_en: (dmg_cnt << 4) >> 15 == 1,
        r_c1_en: (dmg_cnt << 3) >> 15 == 1,
        r_c2_en: (dmg_cnt << 2) >> 15 == 1,
        r_c3_en: (dmg_cnt << 1) >> 15 == 1,
        r_c4_en: dmg_cnt >> 15 == 1,
        dmg_vol: ((ds_cnt << 14) >> 14) as u8,
        enable: (stat << 8) >> 15 == 1,
    }
}

impl Controls {
    /// Decodes the master controls from the three register words.
    pub fn master_control(dmg_cnt: u16, ds_cnt: u16, stat: u16) -> (r: Controls)
        ensures
            r == spec_master_control(dmg_cnt, ds_cnt, stat),
    {
        Controls {
            l_vol: ((dmg_cnt << 13u16) >> 13u16) as u8,
            r_vol: ((dmg_cnt << 9u16) >> 13u16) as u8,
            l_c1_en: (dmg_cnt << 7u16) >> 15u16 == 1,
            l_c2_en: (dmg_cnt << 6u16) >> 15u16 == 1,
            l_c3_en: (dmg_cnt << 5u16) >> 15u16 == 1,
            l_c4_en: (dmg_cnt << 4u16) >> 15u16 == 1,
            r_c1_en: (dmg_cnt << 3u16) >> 15u16 == 1,
            r_c2_en: (dmg_cnt << 2u16) >> 15u16 == 1,
            r_c3_en: (dmg_cnt << 1u16) >> 15u16 == 1,
            r_c4_en: dmg_cnt >> 15u16 == 1,
            dmg_vol: ((ds_cnt << 14u16) >> 14u16) as u8,
            enable: (stat << 8u16) >> 15u16 == 1,
        }
    }
}

} // verus!
