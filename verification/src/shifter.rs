//! The barrel shifter: produces the second operand of A-mode data
//! processing together with the shifter carry that feeds the flag logic,
//! and the offset variant used by single transfers, which leaves the carry
//! alone.
use vstd::prelude::*;

use crate::cpu::bit32;

verus! {

/// `x` rotated right by `s % 32` bit positions.
pub open spec fn ror32(x: u32, s: u32) -> u32 {
    (x >> (s % 32)) | (x << ((32 - (s % 32)) % 32))
}

/// Rotates `x` right by `s % 32` bit positions.
pub fn rotate_right32(x: u32, s: u32) -> (r: u32)
    ensures
        r == ror32(x, s),
{
    (x >> (s % 32)) | (x << ((32 - (s % 32)) % 32))
}

/// Arithmetic shift right by `s` (1 to 31): the sign bit is replicated into
/// the vacated positions.
pub open spec fn asr32(x: u32, s: u32) -> u32 {
    if bit32(x, 31) {
        (x >> s) | !(!0u32 >> s)
    } else {
        x >> s
    }
}

/// The register-shift result and shifter carry of a data-processing
/// operand: `ty` selects logical left, logical right, arithmetic right or
/// rotate right, `amt` is the amount (immediate or register low byte), and
/// `by_reg` tells the two encodings of zero apart. The edge cases follow
/// the architectural table: a zero immediate amount reads as 32 for the
/// right shifts and as rotate-through-carry for rotate.
pub open spec fn spec_shift(ty: u32, rm: u32, amt: u32, by_reg: bool, c_in: bool) -> (u32, bool) {
    if by_reg && amt == 0 {
        (rm, c_in)
    } else if ty == 0 {
        if amt == 0 {
            (rm, c_in)
        } else if amt == 32 {
            (0, rm & 1 == 1)
        } else if amt > 32 {
            (0, false)
        } else {
            (rm << amt, bit32(rm, (32 - amt) as u32))
        }
    } else if ty == 1 {
        if amt == 0 || amt == 32 {
            (0, bit32(rm, 31))
        } else if amt > 32 {
            (0, false)
        } else {
            (rm >> amt, bit32(rm, (amt - 1) as u32))
        }
    } else if ty == 2 {
        if amt == 0 || amt >= 32 {
            (if bit32(rm, 31) {
                !0u32
            } else {
                0
            }, bit32(rm, 31))
        } else {
            (asr32(rm, amt), bit32(rm, (amt - 1) as u32))
        }
    } else {
        if amt == 0 {
            ((if c_in {
                (rm >> 1) | (1u32 << 31)
            } else {
                rm >> 1
            }), rm & 1 == 1)
        } else if amt % 32 == 0 {
            (rm, bit32(rm, 31))
        } else {
            (ror32(rm, amt % 32), bit32(rm, (amt % 32 - 1) as u32))
        }
    }
}

/// Computes a register shift together with the shifter carry.
pub fn shift_with_carry(ty: u32, rm: u32, amt: u32, by_reg: bool, c_in: bool) -> (r: (u32, bool))
    requires
        ty < 4,
    ensures
        r == spec_shift(ty, rm, amt, by_reg, c_in),
{
    if by_reg && amt == 0 {
        (rm, c_in)
    } else if ty == 0 {
        if amt == 0 {
            (rm, c_in)
        } else if amt == 32 {
            (0, rm & 1 == 1)
        } else if amt > 32 {
            (0, false)
        } else {
            ((rm << amt), 1 == (rm >> (32 - amt)) & 1)
        }
    } else if ty == 1 {
        if amt == 0 || amt == 32 {
            (0, 1 == (rm >> 31) & 1)
        } else if amt > 32 {
            (0, false)
        } else {
            ((rm >> amt), 1 == (rm >> (amt - 1)) & 1)
        }
    } else if ty == 2 {
        let neg = 1 == (rm >> 31) & 1;
        if amt == 0 || amt >= 32 {
            (if neg {
                !0u32
            } else {
                0
            }, neg)
        } else {
            let v = if neg {
                (rm >> amt) | !(!0u32 >> amt)
            } else {
                rm >> amt
            };
            (v, 1 == (rm >> (amt - 1)) & 1)
        }
    } else {
        if amt == 0 {
            let v = if c_in {
                (rm >> 1) | (1u32 << 31)
            } else {
                rm >> 1
            };
            (v, rm & 1 == 1)
        } else if amt % 32 == 0 {
            (rm, 1 == (rm >> 31) & 1)
        } else {
            (rotate_right32(rm, amt % 32), 1 == (rm >> (amt % 32 - 1)) & 1)
        }
    }
}

/// The shifted offset of a single transfer: the same shift table, but the
/// carry never leaves the shifter.
pub open spec fn spec_ls_shift(ty: u32, rm: u32, amt: u32, by_reg: bool, c_in: bool) -> u32 {
    if by_reg && amt == 0 {
        rm
    } else if ty == 0 {
        if amt >= 32 {
            0
        } else {
            rm << amt
        }
    } else if ty == 1 {
        if amt == 0 || amt >= 32 {
            0
        } else {
            rm >> amt
        }
    } else if ty == 2 {
        if amt == 0 || amt >= 32 {
            if bit32(rm, 31) {
                !0u32
            } else {
                0
            }
        } else {
            asr32(rm, amt)
        }
    } else {
        if amt == 0 {
            if c_in {
                (rm >> 1) | (1u32 << 31)
            } else {
                rm >> 1
            }
        } else if amt == 32 {
            rm
        } else {
            ror32(rm, amt % 32)
        }
    }
}

/// Computes the shifted offset of a single transfer.
pub fn ls_shift(ty: u32, rm: u32, amt: u32, by_reg: bool, c_in: bool) -> (r: u32)
    requires
        ty < 4,
    ensures
        r == spec_ls_shift(ty, rm, amt, by_reg, c_in),
{
    if by_reg && amt == 0 {
        rm
    } else if ty == 0 {
        if amt >= 32 {
            0
        } else {
            rm << amt
        }
    } else if ty == 1 {
        if amt == 0 || amt >= 32 {
            0
        } else {
            rm >> amt
        }
    } else if ty == 2 {
        if amt == 0 || amt >= 32 {
            if 1 == (rm >> 31) & 1 {
                !0u32
            } else {
                0
            }
        } else {
            if 1 == (rm >> 31) & 1 {
                (rm >> amt) | !(!0u32 >> amt)
            } else {
                rm >> amt
            }
        }
    } else {
        if amt == 0 {
            if c_in {
                (rm >> 1) | (1u32 << 31)
            } else {
                rm >> 1
            }
        } else if amt == 32 {
            rm
        } else {
            rotate_right32(rm, amt % 32)
        }
    }
}

} // verus!
