//! The memory bus: a flat byte store indexed by physical address, with
//! region mirroring, a write-one-to-clear filter on the interrupt-acknowledge
//! register, and the keypad / interrupt-request entry points.
//!
//! Every access first collapses the three mirror ranges onto their canonical
//! region (`canon`). Reads outside the backed store return zero and writes
//! there are dropped, so the bus is total.
use vstd::prelude::*;

use crate::codec::{hw_le, hi16, lo16, word_le, byte_of, HalfWord, Word};

verus! {

/// First byte of the interrupt-acknowledge register, whose two bytes are
/// write-one-to-clear.
pub const IRQ_ACK_ADDR: u32 = 0x4000202;

/// Interrupt-enable register (16 bits).
pub const IRQ_ENABLE_ADDR: u32 = 0x4000200;

/// Interrupt-master-enable register.
pub const IRQ_MASTER_ADDR: u32 = 0x4000208;

/// Key-input register (10 bits, 1 = released).
pub const KEY_INPUT_ADDR: u32 = 0x4000130;

/// Key-control register.
pub const KEY_CONTROL_ADDR: u32 = 0x4000132;

/// The byte store behind the bus.
pub struct Mem {
    pub mem: Vec<u8>,
}

/// The sources of a hardware interrupt request, each mapped to a fixed bit
/// of the interrupt registers by `irq_bit`.
#[derive(Copy, Clone, PartialEq, Debug)]
pub enum Interrupt {
    VBlank,
    HBlank,
    VCounter,
    Timer0,
    Timer1,
    Timer2,
    Timer3,
    Serial,
    Dma0,
    Dma1,
    Dma2,
    Dma3,
    Keypad,
    GamePak,
}

/// The ten keypad keys, each mapped to a fixed bit of the key registers by
/// `key_bit`.
#[derive(Copy, Clone, Debug, PartialEq)]
pub enum Key {
    A,
    B,
    Select,
    Start,
    Right,
    Left,
    Up,
    Down,
    R,
    L,
}

/// Collapses the three mirror ranges onto their canonical region; other
/// addresses pass through unchanged.
pub open spec fn canon(a: int) -> int {
    if 0x3FFFF00 <= a <= 0x3FFFFFF {
        a - 0xFF8000
    } else if 0xA000000 <= a <= 0xBFFFFFF {
        a - 0x2000000
    } else if 0xC000000 <= a <= 0xDFFFFFF {
        a - 0x4000000
    } else {
        a
    }
}

/// Whether `i` is one of the two write-one-to-clear bytes of the
/// interrupt-acknowledge register.
pub open spec fn is_ack_byte(i: int) -> bool {
    i == 0x4000202 || i == 0x4000203
}

/// The byte stored at raw index `i`, zero outside the store.
pub open spec fn byte_at(m: Seq<u8>, i: int) -> u8 {
    if 0 <= i < m.len() {
        m[i]
    } else {
        0
    }
}

/// Stores one byte at raw index `i`: dropped outside the store, and filtered
/// through the write-one-to-clear rule on the interrupt-acknowledge bytes.
pub open spec fn put_byte(m: Seq<u8>, i: int, v: u8) -> Seq<u8> {
    if 0 <= i < m.len() {
        if is_ack_byte(i) {
            m.update(i, (m[i] & !v) as u8)
        } else {
            m.update(i, v)
        }
    } else {
        m
    }
}

/// Stores one byte at raw index `i` with no filter: the bus's own updates to
/// the interrupt-acknowledge register go through here.
pub open spec fn put_byte_raw(m: Seq<u8>, i: int, v: u8) -> Seq<u8> {
    if 0 <= i < m.len() {
        m.update(i, v)
    } else {
        m
    }
}

/// The byte read at address `a` after mirror collapse.
pub open spec fn spec_read_byte(m: Seq<u8>, a: int) -> u8 {
    byte_at(m, canon(a))
}

/// The 16-bit little-endian value read at address `a` after mirror collapse.
pub open spec fn spec_read_hw(m: Seq<u8>, a: int) -> u16 {
    hw_le(byte_at(m, canon(a)), byte_at(m, canon(a) + 1))
}

/// The 32-bit little-endian value read at address `a` after mirror collapse.
pub open spec fn spec_read_word(m: Seq<u8>, a: int) -> u32 {
    word_le(
        byte_at(m, canon(a)),
        byte_at(m, canon(a) + 1),
        byte_at(m, canon(a) + 2),
        byte_at(m, canon(a) + 3),
    )
}

/// The store after a byte write at address `a`.
pub open spec fn spec_write_byte(m: Seq<u8>, a: int, v: u8) -> Seq<u8> {
    put_byte(m, canon(a), v)
}

/// The store after a little-endian 16-bit write at address `a`.
pub open spec fn spec_write_hw(m: Seq<u8>, a: int, v: u16) -> Seq<u8> {
    put_byte(put_byte(m, canon(a), lo16(v)), canon(a) + 1, hi16(v))
}

/// The store after a little-endian 32-bit write at address `a`.
pub open spec fn spec_write_word(m: Seq<u8>, a: int, v: u32) -> Seq<u8> {
    put_byte(
        put_byte(
            put_byte(put_byte(m, canon(a), byte_of(v, 0)), canon(a) + 1, byte_of(v, 1)),
            canon(a) + 2,
            byte_of(v, 2),
        ),
        canon(a) + 3,
        byte_of(v, 3),
    )
}

/// The interrupt-register bit position of each interrupt source.
pub open spec fn spec_irq_bit(kind: Interrupt) -> u32 {
    match kind {
        Interrupt::VBlank => 0,
        Interrupt::HBlank => 1,
        Interrupt::VCounter => 2,
        Interrupt::Timer0 => 3,
        Interrupt::Timer1 => 4,
        Interrupt::Timer2 => 5,
        Interrupt::Timer3 => 6,
        Interrupt::Serial => 7,
        Interrupt::Dma0 => 8,
        Interrupt::Dma1 => 9,
        Interrupt::Dma2 => 10,
        Interrupt::Dma3 => 11,
        Interrupt::Keypad => 12,
        Interrupt::GamePak => 13,
    }
}

/// The key-register bit position of each key.
pub open spec fn spec_key_bit(key: Key) -> u16 {
    match key {
        Key::A => 0,
        Key::B => 1,
        Key::Select => 2,
        Key::Start => 3,
        Key::Right => 4,
        Key::Left => 5,
        Key::Up => 6,
        Key::Down => 7,
        Key::R => 8,
        Key::L => 9,
    }
}

/// The store after an interrupt request of the given kind: a no-op unless
/// the master enable and the per-kind enable bit are both set, else the
/// matching bit of the interrupt-acknowledge register is raised.
pub open spec fn spec_request_irq(m: Seq<u8>, kind: Interrupt) -> Seq<u8> {
    if byte_at(m, IRQ_MASTER_ADDR as int) & 1 == 0 {
        m
    } else {
        let b = spec_irq_bit(kind);
        let enable = hw_le(byte_at(m, IRQ_ENABLE_ADDR as int), byte_at(m, IRQ_ENABLE_ADDR as int + 1));
        if (enable >> (b as u16)) & 1 == 1 {
            if b < 8 {
                put_byte_raw(m, 0x4000202, (byte_at(m, 0x4000202) | (1u8 << b)) as u8)
            } else {
                put_byte_raw(m, 0x4000203, (byte_at(m, 0x4000203) | (1u8 << (b - 8))) as u8)
            }
        } else {
            m
        }
    }
}

/// The key-input register value after a key event.
pub open spec fn spec_key_inputs_after(m: Seq<u8>, key: Key, down: bool) -> u16 {
    let bit = spec_key_bit(key);
    (spec_read_hw(m, KEY_INPUT_ADDR as int) & !(1u16 << bit)) | ((if down { 0u16 } else { 1u16 }) << bit)
}

/// Whether a key event raises the keypad interrupt: on a press with the
/// master enable set, either the pressed key's enable bit is set (OR mode)
/// or every key enabled in the ten key bits is simultaneously held (AND
/// mode).
pub open spec fn spec_key_irq_condition(m: Seq<u8>, key: Key, down: bool) -> bool {
    let bit = spec_key_bit(key);
    let inputs = spec_key_inputs_after(m, key, down);
    let ctl = spec_read_hw(m, KEY_CONTROL_ADDR as int);
    down && (ctl >> 14) & 1 == 1 && if (ctl >> 15) & 1 == 1 {
        !inputs & (ctl & 0x3FF) == ctl & 0x3FF
    } else {
        (ctl >> bit) & 1 == 1
    }
}

/// The store after a key event: the key-input register is updated, then the
/// keypad interrupt is requested when `spec_key_irq_condition` holds.
pub open spec fn spec_key_event(m: Seq<u8>, key: Key, down: bool) -> Seq<u8> {
    let m1 = spec_write_hw(m, KEY_INPUT_ADDR as int, spec_key_inputs_after(m, key, down));
    if spec_key_irq_condition(m, key, down) {
        spec_request_irq(m1, Interrupt::Keypad)
    } else {
        m1
    }
}

/// Whether `a` lies in one of the three mirror ranges.
pub open spec fn in_mirror(a: int) -> bool {
    (0x3FFFF00 <= a <= 0x3FFFFFF) || (0xA000000 <= a <= 0xBFFFFFF) || (0xC000000 <= a
        <= 0xDFFFFFF)
}

/// Writing a byte at an aligned address outside the I/O region and reading
/// it back returns the written value.
pub proof fn lemma_byte_round_trip(m: Seq<u8>, a: int, v: u8)
    requires
        !(0x4000000 <= a <= 0x40003FF),
        0 <= canon(a) < m.len(),
    ensures
        spec_read_byte(spec_write_byte(m, a, v), a) == v,
{
}

/// Writing a halfword at an aligned address outside the I/O region and
/// reading it back returns the written value.
pub proof fn lemma_halfword_round_trip(m: Seq<u8>, a: int, v: u16)
    requires
        !(0x4000000 <= a <= 0x40003FF),
        a % 2 == 0,
        0 <= canon(a),
        canon(a) + 2 <= m.len(),
    ensures
        spec_read_hw(spec_write_hw(m, a, v), a) == v,
{
    crate::codec::lemma_hw_le_round_trip(v);
}

/// Writing a word at an aligned address outside the I/O region and reading
/// it back returns the written value.
pub proof fn lemma_word_round_trip(m: Seq<u8>, a: int, v: u32)
    requires
        !(0x4000000 <= a <= 0x40003FF),
        a % 4 == 0,
        0 <= canon(a),
        canon(a) + 4 <= m.len(),
    ensures
        spec_read_word(spec_write_word(m, a, v), a) == v,
{
    crate::codec::lemma_word_le_round_trip(v);
}

/// The interrupt-acknowledge register is write-one-to-clear: after writing
/// byte `v` to either of its bytes, the stored byte equals `old & !v`.
pub proof fn lemma_ack_write_one_to_clear(m: Seq<u8>, a: int, v: u8)
    requires
        is_ack_byte(a),
        0 <= a < m.len(),
    ensures
        spec_read_byte(spec_write_byte(m, a, v), a) == (byte_at(m, a) & !v),
{
}

/// Reads at a mirror address and at its canonical alias return identical
/// bytes.
pub proof fn lemma_mirror_read(m: Seq<u8>, a: int)
    requires
        in_mirror(a),
    ensures
        spec_read_byte(m, a) == spec_read_byte(m, canon(a)),
{
}

impl Mem {
    /// The store as a byte sequence.
    pub open spec fn view(&self) -> Seq<u8> {
        self.mem@
    }

    /// A store of `size` zeroed bytes.
    pub fn new(size: usize) -> (r: Self)
        ensures
            r@.len() == size,
            forall|i: int| 0 <= i < size ==> r@[i] == 0,
    {
        let mut v: Vec<u8> = Vec::new();
        let mut n: usize = 0;
        while n < size
            invariant
                n <= size,
                v@.len() == n,
                forall|i: int| 0 <= i < n ==> v@[i] == 0,
            decreases size - n,
        {
            v.push(0);
            n = n + 1;
        }
        Mem { mem: v }
    }

    /// Copies `data` into the store starting at `first_byte`; a short image
    /// leaves the tail of the store unchanged, a long one is cut at the end
    /// of the store.
    pub fn load(&mut self, first_byte: usize, data: &[u8])
        requires
            first_byte <= old(self)@.len(),
        ensures
            final(self)@.len() == old(self)@.len(),
            forall|i: int|
                0 <= i < old(self)@.len() ==> final(self)@[i] == if first_byte <= i
                    < first_byte + data@.len() {
                    data@[i - first_byte]
                } else {
                    old(self)@[i]
                },
    {
        let n: usize = self.mem.len();
        let mut k: usize = 0;
        while k < data.len() && first_byte + k < n
            invariant
                n == self.mem@.len(),
                first_byte + k <= n,
                k <= data@.len(),
                self.mem@.len() == old(self)@.len(),
                forall|i: int|
                    0 <= i < old(self)@.len() ==> self.mem@[i] == if first_byte <= i < first_byte
                        + k {
                        data@[i - first_byte]
                    } else {
                        old(self)@[i]
                    },
            decreases data@.len() - k,
        {
            self.mem[first_byte + k] = data[k];
            k = k + 1;
        }
    }

    /// Returns the bytes of the store from `first_byte` through `last_byte`.
    pub fn save(&self, first_byte: usize, last_byte: usize) -> (r: Vec<u8>)
        requires
            first_byte <= last_byte,
            last_byte < self@.len(),
        ensures
            r@ == self@.subrange(first_byte as int, last_byte + 1),
    {
        let mut out: Vec<u8> = Vec::new();
        let n: usize = self.mem.len();
        let end: usize = last_byte + 1;
        let mut k: usize = first_byte;
        while k < end
            invariant
                first_byte <= k <= end,
                end == last_byte + 1,
                last_byte < self@.len(),
                out@ == self@.subrange(first_byte as int, k as int),
            decreases end - k,
        {
            out.push(self.mem[k]);
            proof {
                assert(out@ =~= self@.subrange(first_byte as int, k + 1));
            }
            k = k + 1;
        }
        out
    }

    /// Stores one byte at raw index `i`, applying the write-one-to-clear
    /// filter; dropped outside the store.
    fn put_filtered(&mut self, i: u64, v: u8)
        ensures
            final(self)@ == put_byte(old(self)@, i as int, v),
    {
        if i < self.mem.len() as u64 {
            let idx = i as usize;
            if idx == 0x4000202 || idx == 0x4000203 {
                let stored = self.mem[idx];
                self.mem[idx] = stored & !v;
            } else {
                self.mem[idx] = v;
            }
        }
    }

    /// The canonical alias of `a`: mirror ranges are collapsed onto their
    /// backing region.
    pub fn canonical(a: u32) -> (r: u32)
        ensures
            r == canon(a as int),
    {
        if 0x3FFFF00 <= a && a <= 0x3FFFFFF {
            a - 0xFF8000
        } else if 0xA000000 <= a && a <= 0xBFFFFFF {
            a - 0x2000000
        } else if 0xC000000 <= a && a <= 0xDFFFFFF {
            a - 0x4000000
        } else {
            a
        }
    }

    /// Reads the byte at address `a`; zero outside the backed store.
    pub fn read_byte(&self, a: u32) -> (r: u8)
        ensures
            r == spec_read_byte(self@, a as int),
    {
        let c = Mem::canonical(a);
        if (c as usize) < self.mem.len() {
            self.mem[c as usize]
        } else {
            0
        }
    }

    /// Reads the little-endian halfword at address `a`.
    pub fn read_halfword(&self, a: u32) -> (r: u16)
        ensures
            r == spec_read_hw(self@, a as int),
    {
        let c = Mem::canonical(a) as u64;
        let b0 = self.byte_at_raw(c);
        let b1 = self.byte_at_raw(c + 1);
        (b0 as u16) | ((b1 as u16) << 8)
    }

    /// Reads the little-endian word at address `a`.
    pub fn read_word(&self, a: u32) -> (r: u32)
        ensures
            r == spec_read_word(self@, a as int),
    {
        let c = Mem::canonical(a) as u64;
        let b0 = self.byte_at_raw(c);
        let b1 = self.byte_at_raw(c + 1);
        let b2 = self.byte_at_raw(c + 2);
        let b3 = self.byte_at_raw(c + 3);
        (b0 as u32) | ((b1 as u32) << 8) | ((b2 as u32) << 16) | ((b3 as u32) << 24)
    }

    /// The byte at raw index `i`, zero outside the store.
    fn byte_at_raw(&self, i: u64) -> (r: u8)
        ensures
            r == byte_at(self@, i as int),
    {
        if i < self.mem.len() as u64 {
            self.mem[i as usize]
        } else {
            0
        }
    }

    /// Writes one byte at address `a` through the write filter.
    pub fn write_byte(&mut self, a: u32, v: u8)
        ensures
            final(self)@ == spec_write_byte(old(self)@, a as int, v),
    {
        let c = Mem::canonical(a);
        self.put_filtered(c as u64, v);
    }

    /// Writes a little-endian halfword at address `a` through the write
    /// filter.
    pub fn write_halfword(&mut self, a: u32, v: u16)
        ensures
            final(self)@ == spec_write_hw(old(self)@, a as int, v),
    {
        let c = Mem::canonical(a) as u64;
        self.put_filtered(c, (v & 0xff) as u8);
        self.put_filtered(c + 1, (v >> 8) as u8);
    }

    /// Writes a little-endian word at address `a` through the write filter.
    pub fn write_word(&mut self, a: u32, v: u32)
        ensures
            final(self)@ == spec_write_word(old(self)@, a as int, v),
    {
        let c = Mem::canonical(a) as u64;
        self.put_filtered(c, ((v >> 0) & 0xff) as u8);
        self.put_filtered(c + 1, ((v >> 8) & 0xff) as u8);
        self.put_filtered(c + 2, ((v >> 16) & 0xff) as u8);
        self.put_filtered(c + 3, ((v >> 24) & 0xff) as u8);
    }

    /// Stores one byte at `byte_index`; the backing must cover the
    /// canonical alias.
    pub fn set_byte(&mut self, byte_index: usize, data: u8)
        requires
            byte_index <= u32::MAX,
            0 <= canon(byte_index as int) < old(self)@.len(),
        ensures
            final(self)@ == spec_write_byte(old(self)@, byte_index as int, data),
    {
        self.write_byte(byte_index as u32, data);
    }

    /// Stores a halfword at `byte_index`; the backing must cover both bytes.
    pub fn set_halfword(&mut self, byte_index: usize, data: HalfWord)
        requires
            byte_index <= u32::MAX,
            0 <= canon(byte_index as int),
            canon(byte_index as int) + 2 <= old(self)@.len(),
        ensures
            final(self)@ == spec_write_hw(
                old(self)@,
                byte_index as int,
                hw_le(data.bytes[0], data.bytes[1]),
            ),
    {
        let v = data.little_endian();
        proof {
            crate::codec::lemma_hw_le_bytes(data.bytes[0], data.bytes[1]);
        }
        self.write_halfword(byte_index as u32, v);
    }

    /// Stores a word at `byte_index`; the backing must cover all four bytes.
    pub fn set_word(&mut self, byte_index: usize, data: Word)
        requires
            byte_index <= u32::MAX,
            0 <= canon(byte_index as int),
            canon(byte_index as int) + 4 <= old(self)@.len(),
        ensures
            final(self)@ == spec_write_word(
                old(self)@,
                byte_index as int,
                word_le(data.bytes[0], data.bytes[1], data.bytes[2], data.bytes[3]),
            ),
    {
        let v = data.little_endian();
        proof {
            crate::codec::lemma_word_le_bytes(
                data.bytes[0],
                data.bytes[1],
                data.bytes[2],
                data.bytes[3],
            );
        }
        self.write_word(byte_index as u32, v);
    }

    /// Reads the byte at `byte_index`.
    pub fn get_byte(&self, byte_index: usize) -> (r: u8)
        requires
            byte_index <= u32::MAX,
            0 <= canon(byte_index as int) < self@.len(),
        ensures
            r == spec_read_byte(self@, byte_index as int),
    {
        self.read_byte(byte_index as u32)
    }

    /// Reads the halfword at `byte_index`.
    pub fn get_halfword(&self, byte_index: usize) -> (r: HalfWord)
        requires
            byte_index <= u32::MAX,
            0 <= canon(byte_index as int),
            canon(byte_index as int) + 2 <= self@.len(),
        ensures
            hw_le(r.bytes[0], r.bytes[1]) == spec_read_hw(self@, byte_index as int),
    {
        let v = self.read_halfword(byte_index as u32);
        proof {
            crate::codec::lemma_hw_le_round_trip(v);
        }
        HalfWord::from_u16_le(v)
    }

    /// Reads the word at `byte_index`.
    pub fn get_word(&self, byte_index: usize) -> (r: Word)
        requires
            byte_index <= u32::MAX,
            0 <= canon(byte_index as int),
            canon(byte_index as int) + 4 <= self@.len(),
        ensures
            word_le(r.bytes[0], r.bytes[1], r.bytes[2], r.bytes[3]) == spec_read_word(
                self@,
                byte_index as int,
            ),
    {
        let v = self.read_word(byte_index as u32);
        proof {
            crate::codec::lemma_word_le_round_trip(v);
        }
        Word::from_u32_le(v)
    }

    /// Raises the interrupt-acknowledge bit for `kind` when the master
    /// enable and the per-kind enable bit are both set.
    pub fn request_irq(&mut self, kind: Interrupt)
        ensures
            final(self)@ == spec_request_irq(old(self)@, kind),
    {
        if self.byte_at_raw(IRQ_MASTER_ADDR as u64) & 1 == 0 {
            return ;
        }
        let bit = Mem::irq_bit(kind);
        let enable = (self.byte_at_raw(IRQ_ENABLE_ADDR as u64) as u16) | (
        (self.byte_at_raw(IRQ_ENABLE_ADDR as u64 + 1) as u16) << 8);
        if (enable >> (bit as u16)) & 1 == 1 {
            if bit < 8 {
                let stored = self.byte_at_raw(0x4000202);
                self.put_raw(0x4000202, stored | (1u8 << bit));
            } else {
                let stored = self.byte_at_raw(0x4000203);
                self.put_raw(0x4000203, stored | (1u8 << (bit - 8)));
            }
        }
    }

    /// Stores one byte at raw index `i` with no filter; dropped outside the
    /// store.
    fn put_raw(&mut self, i: u64, v: u8)
        ensures
            final(self)@ == put_byte_raw(old(self)@, i as int, v),
    {
        if i < self.mem.len() as u64 {
            self.mem[i as usize] = v;
        }
    }

    /// The interrupt-register bit position of `kind`.
    pub fn irq_bit(kind: Interrupt) -> (r: u32)
        ensures
            r == spec_irq_bit(kind),
            r < 14,
    {
        match kind {
            Interrupt::VBlank => 0,
            Interrupt::HBlank => 1,
            Interrupt::VCounter => 2,
            Interrupt::Timer0 => 3,
            Interrupt::Timer1 => 4,
            Interrupt::Timer2 => 5,
            Interrupt::Timer3 => 6,
            Interrupt::Serial => 7,
            Interrupt::Dma0 => 8,
            Interrupt::Dma1 => 9,
            Interrupt::Dma2 => 10,
            Interrupt::Dma3 => 11,
            Interrupt::Keypad => 12,
            Interrupt::GamePak => 13,
        }
    }

    /// The key-register bit position of `key`.
    pub fn key_bit(key: Key) -> (r: u16)
        ensures
            r == spec_key_bit(key),
            r < 10,
    {
        match key {
            Key::A => 0,
            Key::B => 1,
            Key::Select => 2,
            Key::Start => 3,
            Key::Right => 4,
            Key::Left => 5,
            Key::Up => 6,
            Key::Down => 7,
            Key::R => 8,
            Key::L => 9,
        }
    }

    /// Records a key press or release in the key-input register and raises
    /// the keypad interrupt when the key-control register asks for it.
    pub fn key_event(&mut self, key: Key, down: bool)
        ensures
            final(self)@ == spec_key_event(old(self)@, key, down),
    {
        let bit = Mem::key_bit(key);
        let mask: u16 = 1u16 << bit;
        let pressed_bit: u16 = if down {
            0u16
        } else {
            1u16
        };
        let new_key_inputs = (self.read_halfword(KEY_INPUT_ADDR) & !mask) | (pressed_bit << bit);
        let ghost m0 = self@;
        self.write_halfword(KEY_INPUT_ADDR, new_key_inputs);

        let key_ctl = self.read_halfword(KEY_CONTROL_ADDR);
        proof {
            assert(key_ctl == spec_read_hw(m0, KEY_CONTROL_ADDR as int));
        }
        if down && (key_ctl >> 14) & 1 == 1 {
            if (key_ctl >> 15) & 1 == 1 {
                if !new_key_inputs & (key_ctl & 0x3FF) == key_ctl & 0x3FF {
                    self.request_irq(Interrupt::Keypad);
                }
            } else {
                if (key_ctl >> bit) & 1 == 1 {
                    self.request_irq(Interrupt::Keypad);
                }
            }
        }
    }

}

} // verus!
