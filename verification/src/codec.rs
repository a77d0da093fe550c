//! Typed little/big-endian views of 16- and 32-bit quantities.
//!
//! The bus trades in these views: every multi-byte transfer is split into
//! bytes here, and the round-trip laws `lemma_hw_le_round_trip` and
//! `lemma_word_le_round_trip` pin the byte order down.
use vstd::prelude::*;

verus! {

/// A 16-bit quantity held as two bytes.
pub struct HalfWord {
    pub bytes: [u8; 2],
}

/// The 16-bit value read from two bytes in little-endian order.
pub open spec fn hw_le(b0: u8, b1: u8) -> u16 {
    (b0 as u16) | ((b1 as u16) << 8)
}

/// The 16-bit value read from two bytes in big-endian order.
pub open spec fn hw_be(b0: u8, b1: u8) -> u16 {
    ((b0 as u16) << 8) | (b1 as u16)
}

/// The low byte of a 16-bit value.
pub open spec fn lo16(d: u16) -> u8 {
    (d & 0xff) as u8
}

/// The high byte of a 16-bit value.
pub open spec fn hi16(d: u16) -> u8 {
    (d >> 8) as u8
}

impl HalfWord {
    /// The value of the two bytes taken little-endian.
    pub fn little_endian(&self) -> (r: u16)
        ensures
            r == hw_le(self.bytes[0], self.bytes[1]),
    {
        (self.bytes[0] as u16) | ((self.bytes[1] as u16) << 8)
    }

    /// The value of the two bytes taken big-endian.
    pub fn big_endian(&self) -> (r: u16)
        ensures
            r == hw_be(self.bytes[0], self.bytes[1]),
    {
        ((self.bytes[0] as u16) << 8) | (self.bytes[1] as u16)
    }

    /// Splits a 16-bit value into little-endian bytes.
    pub fn from_u16_le(data: u16) -> (r: Self)
        ensures
            r.bytes[0] == lo16(data),
            r.bytes[1] == hi16(data),
    {
        HalfWord { bytes: [(data & 0xff) as u8, (data >> 8) as u8] }
    }

    /// Splits a 16-bit value into big-endian bytes.
    pub fn from_u16_be(data: u16) -> (r: Self)
        ensures
            r.bytes[0] == hi16(data),
            r.bytes[1] == lo16(data),
    {
        HalfWord { bytes: [(data >> 8) as u8, (data & 0xff) as u8] }
    }
}

/// A 32-bit quantity held as four bytes.
pub struct Word {
    pub bytes: [u8; 4],
}

/// The 32-bit value read from four bytes in little-endian order.
pub open spec fn word_le(b0: u8, b1: u8, b2: u8, b3: u8) -> u32 {
    (b0 as u32) | ((b1 as u32) << 8) | ((b2 as u32) << 16) | ((b3 as u32) << 24)
}

/// The 32-bit value read from four bytes in big-endian order.
pub open spec fn word_be(b0: u8, b1: u8, b2: u8, b3: u8) -> u32 {
    ((b0 as u32) << 24) | ((b1 as u32) << 16) | ((b2 as u32) << 8) | (b3 as u32)
}

/// Byte `k` (0 = least significant) of a 32-bit value.
pub open spec fn byte_of(d: u32, k: int) -> u8 {
    ((d >> (8 * k)) & 0xff) as u8
}

impl Word {
    /// The value of the four bytes taken little-endian.
    pub fn little_endian(&self) -> (r: u32)
        ensures
            r == word_le(self.bytes[0], self.bytes[1], self.bytes[2], self.bytes[3]),
    {
        (self.bytes[0] as u32) | ((self.bytes[1] as u32) << 8) | ((self.bytes[2] as u32) << 16)
            | ((self.bytes[3] as u32) << 24)
    }

    /// The value of the four bytes taken big-endian.
    pub fn big_endian(&self) -> (r: u32)
        ensures
            r == word_be(self.bytes[0], self.bytes[1], self.bytes[2], self.bytes[3]),
    {
        ((self.bytes[0] as u32) << 24) | ((self.bytes[1] as u32) << 16)
            | ((self.bytes[2] as u32) << 8) | (self.bytes[3] as u32)
    }

    /// Splits a 32-bit value into little-endian bytes.
    pub fn from_u32_le(data: u32) -> (r: Self)
        ensures
            forall|k: int| 0 <= k < 4 ==> r.bytes[k] == byte_of(data, k),
    {
        let r = Word {
            bytes: [
                ((data >> 0) & 0xff) as u8,
                ((data >> 8) & 0xff) as u8,
                ((data >> 16) & 0xff) as u8,
                ((data >> 24) & 0xff) as u8,
            ],
        };
        proof {
            assert forall|k: int| 0 <= k < 4 implies r.bytes[k] == byte_of(data, k) by {
                assert(r.bytes[0] == byte_of(data, 0));
                assert(r.bytes[1] == byte_of(data, 1));
                assert(r.bytes[2] == byte_of(data, 2));
                assert(r.bytes[3] == byte_of(data, 3));
            }
        }
        r
    }

    /// Splits a 32-bit value into big-endian bytes.
    pub fn from_u32_be(data: u32) -> (r: Self)
        ensures
            forall|k: int| 0 <= k < 4 ==> r.bytes[k] == byte_of(data, 3 - k),
    {
        let r = Word {
            bytes: [
                ((data >> 24) & 0xff) as u8,
                ((data >> 16) & 0xff) as u8,
                ((data >> 8) & 0xff) as u8,
                ((data >> 0) & 0xff) as u8,
            ],
        };
        proof {
            assert(r.bytes[0] == byte_of(data, 3));
            assert(r.bytes[1] == byte_of(data, 2));
            assert(r.bytes[2] == byte_of(data, 1));
            assert(r.bytes[3] == byte_of(data, 0));
        }
        r
    }
}

/// Splitting a 16-bit value into little-endian bytes and reading them back
/// returns the value.
pub proof fn lemma_hw_le_round_trip(d: u16)
    ensures
        hw_le(lo16(d), hi16(d)) == d,
{
    assert(((d & 0xff) as u8 as u16) | (((d >> 8) as u8 as u16) << 8) == d) by (bit_vector);
}

/// Reading two bytes little-endian and splitting the value again returns the
/// bytes.
pub proof fn lemma_hw_le_bytes(b0: u8, b1: u8)
    ensures
        lo16(hw_le(b0, b1)) == b0,
        hi16(hw_le(b0, b1)) == b1,
{
    assert((((b0 as u16) | ((b1 as u16) << 8)) & 0xff) as u8 == b0) by (bit_vector);
    assert((((b0 as u16) | ((b1 as u16) << 8)) >> 8) as u8 == b1) by (bit_vector);
}

/// Splitting a 32-bit value into little-endian bytes and reading them back
/// returns the value.
pub proof fn lemma_word_le_round_trip(d: u32)
    ensures
        word_le(byte_of(d, 0), byte_of(d, 1), byte_of(d, 2), byte_of(d, 3)) == d,
{
    assert((((d >> 0) & 0xff) as u8 as u32) | ((((d >> 8) & 0xff) as u8 as u32) << 8)
        | ((((d >> 16) & 0xff) as u8 as u32) << 16) | ((((d >> 24) & 0xff) as u8 as u32) << 24)
        == d) by (bit_vector);
    assert(byte_of(d, 0) == ((d >> 0) & 0xff) as u8);
}

/// Reading four bytes little-endian and splitting the value again returns the
/// bytes.
pub proof fn lemma_word_le_bytes(b0: u8, b1: u8, b2: u8, b3: u8)
    ensures
        byte_of(word_le(b0, b1, b2, b3), 0) == b0,
        byte_of(word_le(b0, b1, b2, b3), 1) == b1,
        byte_of(word_le(b0, b1, b2, b3), 2) == b2,
        byte_of(word_le(b0, b1, b2, b3), 3) == b3,
{
    let w = word_le(b0, b1, b2, b3);
    assert(((((b0 as u32) | ((b1 as u32) << 8) | ((b2 as u32) << 16) | ((b3 as u32) << 24)) >> 0)
        & 0xff) as u8 == b0) by (bit_vector);
    assert(((((b0 as u32) | ((b1 as u32) << 8) | ((b2 as u32) << 16) | ((b3 as u32) << 24)) >> 8)
        & 0xff) as u8 == b1) by (bit_vector);
    assert(((((b0 as u32) | ((b1 as u32) << 8) | ((b2 as u32) << 16) | ((b3 as u32) << 24)) >> 16)
        & 0xff) as u8 == b2) by (bit_vector);
    assert(((((b0 as u32) | ((b1 as u32) << 8) | ((b2 as u32) << 16) | ((b3 as u32) << 24)) >> 24)
        & 0xff) as u8 == b3) by (bit_vector);
}

} // verus!
