//! A-mode (32-bit) instruction execution: one function per family, each
//! verified against a relation that states the whole transition — register
//! file, status word, pipeline and memory.
use vstd::prelude::*;

use crate::cpu::{
    bit32, psr_slot, reg_slot, with_bit, Cpu, Mode, BIT_C, BIT_N, BIT_V, BIT_Z, NOP, REG_CPSR,
};
use crate::mem::Mem;
use crate::shifter::{ls_shift, ror32, rotate_right32, shift_with_carry, spec_ls_shift, spec_shift};

verus! {

broadcast use crate::cpu::lemma_and_mask_bound;

/// The signed value of a 32-bit word read as two's complement.
pub open spec fn s32(x: u32) -> int {
    if x >= 0x80000000 {
        x - 0x100000000
    } else {
        x as int
    }
}

/// Whether a widened signed result overflows the 32-bit signed range.
pub open spec fn v_out(s: int) -> bool {
    s >= 0x80000000 || s < -0x80000000
}

/// The signed value of a word, as a machine integer.
pub fn to_signed(x: u32) -> (r: i64)
    ensures
        r == s32(x),
{
    if x >= 0x80000000 {
        (x as i64) - 0x100000000
    } else {
        x as i64
    }
}

/// The second data-processing operand and the shifter carry: an 8-bit
/// immediate rotated right by twice a 4-bit field, or a register run
/// through the barrel shifter. A register-specified shift observes the
/// program counter four bytes further on.
pub open spec fn spec_operand2(c: Cpu, instr: u32) -> (u32, bool) {
    let mode = c.spec_mode();
    let c_in = bit32(c.cpsr(), BIT_C as u32);
    if bit32(instr, 25) {
        (ror32(instr & 0xff, (((instr >> 8) & 0xF) * 2) as u32), c_in)
    } else {
        let rm_raw = c.regs@[reg_slot(mode, instr & 0xF)];
        let rm = if bit32(instr, 4) && instr & 0xF == 0xF {
            rm_raw.wrapping_add(4)
        } else {
            rm_raw
        };
        let rs_val = c.regs@[reg_slot(mode, (instr >> 8) & 0xF)];
        let amt = if bit32(instr, 4) {
            rs_val & 0xff
        } else {
            (instr >> 7) & 0b11111
        };
        spec_shift((instr >> 5) & 0b11, rm, amt, bit32(instr, 4), c_in)
    }
}

/// Computes the second data-processing operand and the shifter carry.
pub fn arm_operand2(cpu: &Cpu, mode: Mode, instr: u32) -> (r: (u32, bool))
    requires
        cpu.regs@.len() == 37,
        mode == cpu.spec_mode(),
    ensures
        r == spec_operand2(*cpu, instr),
{
    let c_in = cpu.get_status_bit(BIT_C);
    if 1 == (instr >> 25) & 1 {
        (rotate_right32(instr & 0xff, ((instr >> 8) & 0xF) * 2), c_in)
    } else {
        let rm_raw = cpu.regs[cpu.get_register_index(mode, instr & 0xF)];
        let rm = if 1 == (instr >> 4) & 1 && instr & 0xF == 0xF {
            rm_raw.wrapping_add(4)
        } else {
            rm_raw
        };
        let rs_val = cpu.regs[cpu.get_register_index(mode, (instr >> 8) & 0xF)];
        let amt = if 1 == (instr >> 4) & 1 {
            rs_val & 0xff
        } else {
            (instr >> 7) & 0b11111
        };
        shift_with_carry((instr >> 5) & 0b11, rm, amt, 1 == (instr >> 4) & 1, c_in)
    }
}

/// Result of one data-processing opcode: the value, whether it is written
/// to the destination, the carry out, and whether the sticky overflow flag
/// is set. Carry out is the widened unsigned carry for additions and the
/// not-borrow condition for subtractions; logical opcodes hand the shifter
/// carry through.
pub open spec fn spec_dp_compute(op: u32, rn: u32, op2: u32, cin: bool, sc: bool) -> (
    u32,
    bool,
    bool,
    bool,
) {
    let ci: int = if cin {
        1
    } else {
        0
    };
    if op == 0 {
        (rn & op2, true, sc, false)
    } else if op == 1 {
        (rn ^ op2, true, sc, false)
    } else if op == 2 {
        (rn.wrapping_sub(op2), true, rn - op2 >= 0, v_out(s32(rn) - s32(op2)))
    } else if op == 3 {
        (op2.wrapping_sub(rn), true, op2 - rn >= 0, v_out(s32(op2) - s32(rn)))
    } else if op == 4 {
        (op2.wrapping_add(rn), true, op2 + rn >= 0x100000000, v_out(s32(op2) + s32(rn)))
    } else if op == 5 {
        (
            op2.wrapping_add(rn).wrapping_add(if cin {
                1u32
            } else {
                0u32
            }),
            true,
            op2 + rn + ci >= 0x100000000,
            v_out(s32(op2) + s32(rn) + ci),
        )
    } else if op == 6 {
        (
            rn.wrapping_sub(op2).wrapping_add(if cin {
                1u32
            } else {
                0u32
            }).wrapping_sub(1),
            true,
            rn - op2 + ci - 1 >= 0,
            v_out(s32(rn) - s32(op2) + ci - 1),
        )
    } else if op == 7 {
        (
            op2.wrapping_sub(rn).wrapping_add(if cin {
                1u32
            } else {
                0u32
            }).wrapping_sub(1),
            true,
            op2 - rn + ci - 1 >= 0,
            v_out(s32(op2) - s32(rn) + ci - 1),
        )
    } else if op == 8 {
        (rn & op2, false, sc, false)
    } else if op == 9 {
        (rn ^ op2, false, sc, false)
    } else if op == 10 {
        (rn.wrapping_sub(op2), false, rn - op2 >= 0, v_out(s32(rn) - s32(op2)))
    } else if op == 11 {
        (rn.wrapping_add(op2), false, op2 + rn >= 0x100000000, v_out(s32(op2) + s32(rn)))
    } else if op == 12 {
        (rn | op2, true, sc, false)
    } else if op == 13 {
        (op2, true, sc, false)
    } else if op == 14 {
        (rn & !op2, true, sc, false)
    } else {
        (!op2, true, sc, false)
    }
}

/// The status word after a flag-setting data-processing instruction: C, N
/// and Z are written from the result, and V is forced high on signed
/// overflow.
pub open spec fn spec_dp_flags(cpsr: u32, result: u32, c: bool, v_set: bool) -> u32 {
    let w1 = with_bit(cpsr, BIT_C as u32, c);
    let w2 = with_bit(w1, BIT_N as u32, bit32(result, 31));
    let w3 = with_bit(w2, BIT_Z as u32, result == 0);
    if v_set {
        with_bit(w3, BIT_V as u32, true)
    } else {
        w3
    }
}

/// The data-processing transition. With the flag bit set and the program
/// counter as destination, the current mode's saved status word is copied
/// back into the status word (exception return); writing the program
/// counter flushes the pipeline.
pub open spec fn dp_rel(c0: Cpu, c1: Cpu, instr: u32) -> bool {
    let mode = c0.spec_mode();
    let rn = c0.regs@[reg_slot(mode, (instr >> 16) & 0xF)];
    let rd_slot = reg_slot(mode, (instr >> 12) & 0xF);
    let cin = bit32(c0.cpsr(), BIT_C as u32);
    let o2 = spec_operand2(c0, instr);
    let dp = spec_dp_compute((instr >> 21) & 0xF, rn, o2.0, cin, o2.1);
    let sets_flags = bit32(instr, 20);
    let cpsr1 = if sets_flags && rd_slot != 15 {
        spec_dp_flags(c0.cpsr(), dp.0, dp.2, dp.3)
    } else if sets_flags {
        c0.regs@[psr_slot(mode)]
    } else {
        c0.cpsr()
    };
    let branching = dp.1 && rd_slot == 15;
    let regs1 = c0.regs@.update(31, cpsr1);
    let regs2 = if dp.1 {
        regs1.update(rd_slot, dp.0)
    } else {
        regs1
    };
    let regs3 = if branching {
        regs2
    } else {
        regs2.update(15, c0.regs@[15].wrapping_add(4))
    };
    &&& c1.regs@ == regs3.update(15, crate::cpu::pc_fix(regs3[31], regs3[15]))
    &&& c1.decode_stage == if branching {
        NOP
    } else {
        c0.decode_stage
    }
    &&& c1.execute_stage == if branching {
        NOP
    } else {
        c0.execute_stage
    }
    &&& c1.debug == c0.debug
    &&& c1.irq_input == c0.irq_input
    &&& c1.fiq_input == c0.fiq_input
}

/// Computes one data-processing opcode: result, write-back, carry out
/// and sticky-overflow condition.
pub fn dp_compute(op: u32, rn: u32, op2: u32, cin: bool, sc: bool) -> (r: (u32, bool, bool, bool))
    requires
        op < 16,
    ensures
        r == spec_dp_compute(op, rn, op2, cin, sc),
{
    let ci64: i64 = if cin {
        1
    } else {
        0
    };
    let cin32: u32 = if cin {
        1
    } else {
        0
    };
    let cin64: u64 = if cin {
        1
    } else {
        0
    };
    if op == 0 {
        (rn & op2, true, sc, false)
    } else if op == 1 {
        (rn ^ op2, true, sc, false)
    } else if op == 2 {
        let s = to_signed(rn) - to_signed(op2);
        (rn.wrapping_sub(op2), true, rn >= op2, s >= 0x80000000i64 || s < -0x80000000i64)
    } else if op == 3 {
        let s = to_signed(op2) - to_signed(rn);
        (op2.wrapping_sub(rn), true, op2 >= rn, s >= 0x80000000i64 || s < -0x80000000i64)
    } else if op == 4 {
        let s = to_signed(op2) + to_signed(rn);
        (
            op2.wrapping_add(rn),
            true,
            (op2 as u64) + (rn as u64) >= 0x100000000,
            s >= 0x80000000i64 || s < -0x80000000i64,
        )
    } else if op == 5 {
        let s = to_signed(op2) + to_signed(rn) + ci64;
        (
            op2.wrapping_add(rn).wrapping_add(cin32),
            true,
            (op2 as u64) + (rn as u64) + cin64 >= 0x100000000,
            s >= 0x80000000i64 || s < -0x80000000i64,
        )
    } else if op == 6 {
        let s = to_signed(rn) - to_signed(op2) + ci64 - 1;
        (
            rn.wrapping_sub(op2).wrapping_add(cin32).wrapping_sub(1),
            true,
            (rn as i64) - (op2 as i64) + ci64 - 1 >= 0,
            s >= 0x80000000i64 || s < -0x80000000i64,
        )
    } else if op == 7 {
        let s = to_signed(op2) - to_signed(rn) + ci64 - 1;
        (
            op2.wrapping_sub(rn).wrapping_add(cin32).wrapping_sub(1),
            true,
            (op2 as i64) - (rn as i64) + ci64 - 1 >= 0,
            s >= 0x80000000i64 || s < -0x80000000i64,
        )
    } else if op == 8 {
        (rn & op2, false, sc, false)
    } else if op == 9 {
        (rn ^ op2, false, sc, false)
    } else if op == 10 {
        let s = to_signed(rn) - to_signed(op2);
        (rn.wrapping_sub(op2), false, rn >= op2, s >= 0x80000000i64 || s < -0x80000000i64)
    } else if op == 11 {
        let s = to_signed(op2) + to_signed(rn);
        (
            rn.wrapping_add(op2),
            false,
            (op2 as u64) + (rn as u64) >= 0x100000000,
            s >= 0x80000000i64 || s < -0x80000000i64,
        )
    } else if op == 12 {
        (rn | op2, true, sc, false)
    } else if op == 13 {
        (op2, true, sc, false)
    } else if op == 14 {
        (rn & !op2, true, sc, false)
    } else {
        (!op2, true, sc, false)
    }
}

/// Executes a data-processing instruction.
#[verifier::rlimit(100)]
pub fn exec_dp(cpu: &mut Cpu, mode: Mode, instr: u32)
    requires
        old(cpu).wf(),
        mode == old(cpu).spec_mode(),
    ensures
        final(cpu).wf(),
        dp_rel(*old(cpu), *final(cpu), instr),
{
    let rn = cpu.regs[cpu.get_register_index(mode, (instr >> 16) & 0xF)];
    let rd_index = cpu.get_register_index(mode, (instr >> 12) & 0xF);
    let cin = cpu.get_status_bit(BIT_C);
    let (op2, sc) = arm_operand2(cpu, mode, instr);
    let op = (instr >> 21) & 0xF;
    let sets_flags = 1 == (instr >> 20) & 1;

    let (result, write_back, c_out, v_set) = dp_compute(op, rn, op2, cin, sc);

    if sets_flags && rd_index != 15 {
        cpu.set_status_bit(BIT_C, c_out);
        cpu.set_status_bit(BIT_N, 1 == (result >> 31) & 1);
        cpu.set_status_bit(BIT_Z, result == 0);
        if v_set {
            cpu.set_status_bit(BIT_V, true);
        }
    } else if sets_flags {
        let spsr = cpu.regs[cpu.get_psr_index(mode)];
        cpu.regs[REG_CPSR] = spsr;
    }
    if write_back {
        if rd_index == 15 {
            cpu.regs[15] = result;
            cpu.decode_stage = NOP;
            cpu.execute_stage = NOP;
        } else {
            cpu.regs[rd_index] = result;
        }
    }
    if !(write_back && rd_index == 15) {
        let pc = cpu.regs[15];
        cpu.regs[15] = pc.wrapping_add(4);
    }
    cpu.align_pc();
    proof {
        let mode0 = old(cpu).spec_mode();
        let rn_s = old(cpu).regs@[reg_slot(mode0, (instr >> 16) & 0xF)];
        let rd_slot = reg_slot(mode0, (instr >> 12) & 0xF);
        let o2 = spec_operand2(*old(cpu), instr);
        let dp = spec_dp_compute((instr >> 21) & 0xF, rn_s, o2.0, bit32(old(cpu).cpsr(), 29), o2.1);
        let cpsr1 = if bit32(instr, 20) && rd_slot != 15 {
            spec_dp_flags(old(cpu).cpsr(), dp.0, dp.2, dp.3)
        } else if bit32(instr, 20) {
            old(cpu).regs@[psr_slot(mode0)]
        } else {
            old(cpu).cpsr()
        };
        let regs1 = old(cpu).regs@.update(31, cpsr1);
        let regs2 = if dp.1 {
            regs1.update(rd_slot, dp.0)
        } else {
            regs1
        };
        let regs3 = if dp.1 && rd_slot == 15 {
            regs2
        } else {
            regs2.update(15, old(cpu).regs@[15].wrapping_add(4))
        };
        assert(cpu.regs@ =~= regs3.update(15, crate::cpu::pc_fix(regs3[31], regs3[15])));
    }
}


/// Sign-extends a word to 64 bits, as a wrapped unsigned value.
pub open spec fn sx64(x: u32) -> u64 {
    if x >= 0x80000000 {
        (x as u64) | 0xFFFFFFFF00000000u64
    } else {
        x as u64
    }
}

/// The branch offset: the low 24 bits shifted left two and sign-extended.
pub open spec fn spec_branch_offset(instr: u32) -> u32 {
    crate::shifter::asr32(instr << 8, 6)
}

/// The branch transition: a 24-bit signed word offset is added to the
/// program counter; the link form first stores the return address, four
/// bytes short of the program counter, in the link register. The pipeline
/// is flushed.
pub open spec fn branch_rel(c0: Cpu, c1: Cpu, instr: u32) -> bool {
    let mode = c0.spec_mode();
    let regs1 = if bit32(instr, 24) {
        c0.regs@.update(reg_slot(mode, 14), c0.regs@[15].wrapping_sub(4))
    } else {
        c0.regs@
    };
    let target = c0.regs@[15].wrapping_add(spec_branch_offset(instr));
    let regs2 = regs1.update(15, target);
    &&& c1.regs@ == regs2.update(15, crate::cpu::pc_fix(regs2[31], regs2[15]))
    &&& c1.decode_stage == NOP
    &&& c1.execute_stage == NOP
    &&& c1.debug == c0.debug
    &&& c1.irq_input == c0.irq_input
    &&& c1.fiq_input == c0.fiq_input
}

/// Executes a branch or branch-with-link.
pub fn exec_branch(cpu: &mut Cpu, mode: Mode, instr: u32)
    requires
        old(cpu).wf(),
        mode == old(cpu).spec_mode(),
    ensures
        final(cpu).wf(),
        branch_rel(*old(cpu), *final(cpu), instr),
{
    let x = instr << 8;
    let offset = if 1 == (x >> 31) & 1 {
        (x >> 6) | !(!0u32 >> 6)
    } else {
        x >> 6
    };
    if 1 == (instr >> 24) & 1 {
        let lr = cpu.regs[15].wrapping_sub(4);
        let idx = cpu.get_register_index(mode, 14);
        cpu.regs[idx] = lr;
    }
    let pc = cpu.regs[15];
    cpu.regs[15] = pc.wrapping_add(offset);
    cpu.decode_stage = NOP;
    cpu.execute_stage = NOP;
    cpu.align_pc();
    proof {
        let mode0 = old(cpu).spec_mode();
        let regs1 = if bit32(instr, 24) {
            old(cpu).regs@.update(reg_slot(mode0, 14), old(cpu).regs@[15].wrapping_sub(4))
        } else {
            old(cpu).regs@
        };
        let regs2 = regs1.update(15, old(cpu).regs@[15].wrapping_add(spec_branch_offset(instr)));
        assert(cpu.regs@ =~= regs2.update(15, crate::cpu::pc_fix(regs2[31], regs2[15])));
    }
}

/// The branch-and-exchange transition: the program counter takes the
/// register value with its low bit cleared, the T bit takes the low bit,
/// and the pipeline is flushed.
pub open spec fn bx_rel(c0: Cpu, c1: Cpu, instr: u32) -> bool {
    let mode = c0.spec_mode();
    let rm = c0.regs@[reg_slot(mode, instr & 0xF)];
    let regs1 = c0.regs@.update(15, (rm - rm % 2) as u32);
    let regs2 = regs1.update(
        31,
        with_bit(c0.cpsr(), crate::cpu::BIT_T as u32, rm & 1 == 1),
    );
    &&& c1.regs@ == regs2.update(15, crate::cpu::pc_fix(regs2[31], regs2[15]))
    &&& c1.decode_stage == NOP
    &&& c1.execute_stage == NOP
    &&& c1.debug == c0.debug
    &&& c1.irq_input == c0.irq_input
    &&& c1.fiq_input == c0.fiq_input
}

/// Executes a branch-and-exchange.
pub fn exec_bx(cpu: &mut Cpu, mode: Mode, instr: u32)
    requires
        old(cpu).wf(),
        mode == old(cpu).spec_mode(),
    ensures
        final(cpu).wf(),
        bx_rel(*old(cpu), *final(cpu), instr),
{
    let rm = cpu.regs[cpu.get_register_index(mode, instr & 0xF)];
    cpu.regs[15] = rm - rm % 2;
    cpu.decode_stage = NOP;
    cpu.execute_stage = NOP;
    cpu.set_thumb_bit(1 == rm & 1);
    cpu.align_pc();
    proof {
        let mode0 = old(cpu).spec_mode();
        let rm_s = old(cpu).regs@[reg_slot(mode0, instr & 0xF)];
        let regs1 = old(cpu).regs@.update(15, (rm_s - rm_s % 2) as u32);
        let regs2 = regs1.update(
            31,
            with_bit(old(cpu).cpsr(), crate::cpu::BIT_T as u32, rm_s & 1 == 1),
        );
        assert(cpu.regs@ =~= regs2.update(15, crate::cpu::pc_fix(regs2[31], regs2[15])));
    }
}

/// The multiply transition: 32x32 to 32 bits, or 32x32 to 64 bits with
/// two's-complement widening for the signed forms, each with optional
/// accumulation and flag setting. The program counter then advances; a
/// destination naming the program counter flushes the pipeline instead.
pub open spec fn mul_rel(c0: Cpu, c1: Cpu, instr: u32) -> bool {
    let mode = c0.spec_mode();
    let opcode = (instr >> 21) & 0b111_1111;
    let sets_flags = bit32(instr, 20);
    let rn_slot = reg_slot(mode, (instr >> 16) & 0xF);
    let rd_slot = reg_slot(mode, (instr >> 12) & 0xF);
    let rs = c0.regs@[reg_slot(mode, (instr >> 8) & 0xF)];
    let rm = c0.regs@[reg_slot(mode, instr & 0xF)];
    let regs2 = if (opcode >> 2) & 1 == 1 {
        let signed = (opcode >> 1) & 1 == 1;
        let prod = if signed {
            sx64(rs).wrapping_mul(sx64(rm))
        } else {
            (rs as u64).wrapping_mul(rm as u64)
        };
        let acc = ((c0.regs@[rn_slot] as u64) << 32) | (c0.regs@[rd_slot] as u64);
        let result = if opcode & 1 == 1 {
            prod.wrapping_add(acc)
        } else {
            prod
        };
        let regs1 = c0.regs@.update(rn_slot, (result >> 32) as u32).update(
            rd_slot,
            (result & 0xFFFFFFFF) as u32,
        );
        if sets_flags {
            regs1.update(
                31,
                with_bit(
                    with_bit(c0.cpsr(), BIT_N as u32, (result >> 63) & 1 == 1),
                    BIT_Z as u32,
                    result == 0,
                ),
            )
        } else {
            regs1
        }
    } else {
        let result = if opcode & 1 == 1 {
            rs.wrapping_mul(rm).wrapping_add(c0.regs@[rd_slot])
        } else {
            rs.wrapping_mul(rm)
        };
        let regs1 = c0.regs@.update(rn_slot, result);
        if sets_flags {
            regs1.update(
                31,
                with_bit(
                    with_bit(regs1[31], BIT_N as u32, bit32(result, 31)),
                    BIT_Z as u32,
                    result == 0,
                ),
            )
        } else {
            regs1
        }
    };
    let pc_write = rn_slot == 15 || ((opcode >> 2) & 1 == 1 && rd_slot == 15);
    let regs3 = if pc_write {
        regs2
    } else {
        regs2.update(15, regs2[15].wrapping_add(4))
    };
    &&& c1.regs@ == regs3.update(15, crate::cpu::pc_fix(regs3[31], regs3[15]))
    &&& c1.decode_stage == if pc_write {
        NOP
    } else {
        c0.decode_stage
    }
    &&& c1.execute_stage == if pc_write {
        NOP
    } else {
        c0.execute_stage
    }
    &&& c1.debug == c0.debug
    &&& c1.irq_input == c0.irq_input
    &&& c1.fiq_input == c0.fiq_input
}

/// Sign-extends a word to a wrapped 64-bit value.
fn sign_extend64(x: u32) -> (r: u64)
    ensures
        r == sx64(x),
{
    if x >= 0x80000000 {
        (x as u64) | 0xFFFFFFFF00000000u64
    } else {
        x as u64
    }
}

/// Executes a multiply or long multiply-accumulate.
#[verifier::rlimit(100)]
pub fn exec_mul(cpu: &mut Cpu, mode: Mode, instr: u32)
    requires
        old(cpu).wf(),
        mode == old(cpu).spec_mode(),
    ensures
        final(cpu).wf(),
        mul_rel(*old(cpu), *final(cpu), instr),
{
    let opcode = (instr >> 21) & 0b111_1111;
    let sets_flags = 1 == (instr >> 20) & 1;
    let long = (opcode >> 2) & 1 == 1;
    let rn_index = cpu.get_register_index(mode, (instr >> 16) & 0xF);
    let rd_index = cpu.get_register_index(mode, (instr >> 12) & 0xF);
    let rs = cpu.regs[cpu.get_register_index(mode, (instr >> 8) & 0xF)];
    let rm = cpu.regs[cpu.get_register_index(mode, instr & 0xF)];
    if long {
        let signed = (opcode >> 1) & 1 == 1;
        let prod: u64 = if signed {
            sign_extend64(rs).wrapping_mul(sign_extend64(rm))
        } else {
            (rs as u64).wrapping_mul(rm as u64)
        };
        let result: u64 = if opcode & 1 == 1 {
            let acc = ((cpu.regs[rn_index] as u64) << 32) | (cpu.regs[rd_index] as u64);
            prod.wrapping_add(acc)
        } else {
            prod
        };
        cpu.regs[rn_index] = (result >> 32) as u32;
        cpu.regs[rd_index] = (result & 0xFFFFFFFF) as u32;
        if sets_flags {
            cpu.set_status_bit(BIT_N, 1 == (result >> 63) & 1);
            cpu.set_status_bit(BIT_Z, result == 0);
        }
    } else {
        let mut result = rs.wrapping_mul(rm);
        if opcode & 1 == 1 {
            result = result.wrapping_add(cpu.regs[rd_index]);
        }
        cpu.regs[rn_index] = result;
        if sets_flags {
            cpu.set_status_bit(BIT_N, 1 == (result >> 31) & 1);
            cpu.set_status_bit(BIT_Z, result == 0);
        }
    }
    if rn_index == 15 || (long && rd_index == 15) {
        cpu.decode_stage = NOP;
        cpu.execute_stage = NOP;
    } else {
        let pc = cpu.regs[15];
        cpu.regs[15] = pc.wrapping_add(4);
    }
    cpu.align_pc();
    proof {
        let mode0 = old(cpu).spec_mode();
        let opcode_s = (instr >> 21) & 0b111_1111;
        let rn_slot = reg_slot(mode0, (instr >> 16) & 0xF);
        let rd_slot = reg_slot(mode0, (instr >> 12) & 0xF);
        let rs_s = old(cpu).regs@[reg_slot(mode0, (instr >> 8) & 0xF)];
        let rm_s = old(cpu).regs@[reg_slot(mode0, instr & 0xF)];
        let regs2 = if (opcode_s >> 2) & 1 == 1 {
            let signed = (opcode_s >> 1) & 1 == 1;
            let prod = if signed {
                sx64(rs_s).wrapping_mul(sx64(rm_s))
            } else {
                (rs_s as u64).wrapping_mul(rm_s as u64)
            };
            let acc = ((old(cpu).regs@[rn_slot] as u64) << 32) | (old(cpu).regs@[rd_slot] as u64);
            let result = if opcode_s & 1 == 1 {
                prod.wrapping_add(acc)
            } else {
                prod
            };
            let regs1 = old(cpu).regs@.update(rn_slot, (result >> 32) as u32).update(
                rd_slot,
                (result & 0xFFFFFFFF) as u32,
            );
            if bit32(instr, 20) {
                regs1.update(
                    31,
                    with_bit(
                        with_bit(old(cpu).cpsr(), BIT_N as u32, (result >> 63) & 1 == 1),
                        BIT_Z as u32,
                        result == 0,
                    ),
                )
            } else {
                regs1
            }
        } else {
            let result = if opcode_s & 1 == 1 {
                rs_s.wrapping_mul(rm_s).wrapping_add(old(cpu).regs@[rd_slot])
            } else {
                rs_s.wrapping_mul(rm_s)
            };
            let regs1 = old(cpu).regs@.update(rn_slot, result);
            if bit32(instr, 20) {
                regs1.update(
                    31,
                    with_bit(
                        with_bit(regs1[31], BIT_N as u32, bit32(result, 31)),
                        BIT_Z as u32,
                        result == 0,
                    ),
                )
            } else {
                regs1
            }
        };
        let pc_write = rn_slot == 15 || ((opcode_s >> 2) & 1 == 1 && rd_slot == 15);
        let regs3 = if pc_write {
            regs2
        } else {
            regs2.update(15, regs2[15].wrapping_add(4))
        };
        assert(cpu.regs@ =~= regs3.update(15, crate::cpu::pc_fix(regs3[31], regs3[15])));
    }
}

/// The status-register-move transition: MRS copies the current or saved
/// status word into the destination register (flushing the pipeline when
/// the destination is the program counter); MSR overwrites the selected
/// fields of it from the second operand, with the control byte protected
/// in user mode.
pub open spec fn psr_rel(c0: Cpu, c1: Cpu, instr: u32) -> bool {
    let mode = c0.spec_mode();
    let opcode = (instr >> 21) & 0b111_1111;
    let psr = psr_slot(if (opcode >> 1) & 1 == 1 {
        mode
    } else {
        Mode::User
    });
    let regs2 = if opcode & 1 == 1 {
        let o2 = spec_operand2(c0, instr);
        let v0 = c0.regs@[psr];
        let v1 = if bit32(instr, 16) && mode != Mode::User {
            (v0 & !0b11011111u32) | (o2.0 & 0b11011111)
        } else {
            v0
        };
        let v2 = if bit32(instr, 17) {
            (v1 & !0xFF00u32) | (o2.0 & 0xFF00)
        } else {
            v1
        };
        let v3 = if bit32(instr, 19) {
            (v2 & !0xFF000000u32) | (o2.0 & 0xFF000000)
        } else {
            v2
        };
        c0.regs@.update(psr, v3)
    } else {
        c0.regs@.update(reg_slot(mode, (instr >> 12) & 0xF), c0.regs@[psr])
    };
    let pc_write = opcode & 1 != 1 && reg_slot(mode, (instr >> 12) & 0xF) == 15;
    let regs3 = if pc_write {
        regs2
    } else {
        regs2.update(15, regs2[15].wrapping_add(4))
    };
    &&& c1.regs@ == regs3.update(15, crate::cpu::pc_fix(regs3[31], regs3[15]))
    &&& c1.decode_stage == if pc_write {
        NOP
    } else {
        c0.decode_stage
    }
    &&& c1.execute_stage == if pc_write {
        NOP
    } else {
        c0.execute_stage
    }
    &&& c1.debug == c0.debug
    &&& c1.irq_input == c0.irq_input
    &&& c1.fiq_input == c0.fiq_input
}

/// Executes a status-register move.
pub fn exec_psr(cpu: &mut Cpu, mode: Mode, instr: u32)
    requires
        old(cpu).wf(),
        mode == old(cpu).spec_mode(),
    ensures
        final(cpu).wf(),
        psr_rel(*old(cpu), *final(cpu), instr),
{
    let opcode = (instr >> 21) & 0b111_1111;
    let psr_index = if 1 == (opcode >> 1) & 1 {
        cpu.get_psr_index(mode)
    } else {
        crate::cpu::REG_CPSR
    };
    let mut branching = false;
    if 1 == opcode & 1 {
        let (op2, _sc) = arm_operand2(cpu, mode, instr);
        let mut value = cpu.regs[psr_index];
        if 1 == (instr >> 16) & 1 && mode != Mode::User {
            value = (value & !0b11011111u32) | (op2 & 0b11011111);
        }
        if 1 == (instr >> 17) & 1 {
            value = (value & !0xFF00u32) | (op2 & 0xFF00);
        }
        if 1 == (instr >> 19) & 1 {
            value = (value & !0xFF000000u32) | (op2 & 0xFF000000);
        }
        cpu.regs[psr_index] = value;
    } else {
        let rd_index = cpu.get_register_index(mode, (instr >> 12) & 0xF);
        let v = cpu.regs[psr_index];
        cpu.regs[rd_index] = v;
        if rd_index == 15 {
            branching = true;
            cpu.decode_stage = NOP;
            cpu.execute_stage = NOP;
        }
    }
    if !branching {
        let pc = cpu.regs[15];
        cpu.regs[15] = pc.wrapping_add(4);
    }
    cpu.align_pc();
    proof {
        let mode0 = old(cpu).spec_mode();
        let opcode_s = (instr >> 21) & 0b111_1111;
        assert(psr_index == psr_slot(if (opcode_s >> 1) & 1 == 1 {
            mode0
        } else {
            Mode::User
        }));
        let regs2 = if opcode_s & 1 == 1 {
            let o2 = spec_operand2(*old(cpu), instr);
            let v0 = old(cpu).regs@[psr_index as int];
            let v1 = if bit32(instr, 16) && mode0 != Mode::User {
                (v0 & !0b11011111u32) | (o2.0 & 0b11011111)
            } else {
                v0
            };
            let v2 = if bit32(instr, 17) {
                (v1 & !0xFF00u32) | (o2.0 & 0xFF00)
            } else {
                v1
            };
            let v3 = if bit32(instr, 19) {
                (v2 & !0xFF000000u32) | (o2.0 & 0xFF000000)
            } else {
                v2
            };
            old(cpu).regs@.update(psr_index as int, v3)
        } else {
            old(cpu).regs@.update(reg_slot(mode0, (instr >> 12) & 0xF), old(cpu).regs@[psr_index as int])
        };
        let pc_write = opcode_s & 1 != 1 && reg_slot(mode0, (instr >> 12) & 0xF) == 15;
        let regs3 = if pc_write {
            regs2
        } else {
            regs2.update(15, regs2[15].wrapping_add(4))
        };
        assert(cpu.regs@ =~= regs3.update(15, crate::cpu::pc_fix(regs3[31], regs3[15])));
    }
}


/// A byte sign-extended to 32 bits.
pub open spec fn sext8(b: u8) -> u32 {
    if b >= 0x80 {
        (b as u32) | 0xFFFFFF00u32
    } else {
        b as u32
    }
}

/// A halfword sign-extended to 32 bits.
pub open spec fn sext16(h: u16) -> u32 {
    if h >= 0x8000 {
        (h as u32) | 0xFFFF0000u32
    } else {
        h as u32
    }
}

/// Sign-extends a byte to 32 bits.
pub fn sign_extend8(b: u8) -> (r: u32)
    ensures
        r == sext8(b),
{
    if b >= 0x80 {
        (b as u32) | 0xFFFFFF00u32
    } else {
        b as u32
    }
}

/// Sign-extends a halfword to 32 bits.
pub fn sign_extend16(h: u16) -> (r: u32)
    ensures
        r == sext16(h),
{
    if h >= 0x8000 {
        (h as u32) | 0xFFFF0000u32
    } else {
        h as u32
    }
}

/// The offset of a single transfer: a 12-bit immediate, or a register run
/// through the shifter's offset table.
pub open spec fn spec_ls_offset(c: Cpu, instr: u32) -> u32 {
    let mode = c.spec_mode();
    if !bit32(instr, 25) {
        instr & 0xfff
    } else {
        let rm_raw = c.regs@[reg_slot(mode, instr & 0xF)];
        let rm = if bit32(instr, 4) && instr & 0xF == 0xF {
            rm_raw.wrapping_add(4)
        } else {
            rm_raw
        };
        let rs_val = c.regs@[reg_slot(mode, (instr >> 8) & 0xF)];
        let amt = if bit32(instr, 4) {
            rs_val & 0xff
        } else {
            (instr >> 7) & 0b11111
        };
        spec_ls_shift((instr >> 5) & 0b11, rm, amt, bit32(instr, 4), bit32(c.cpsr(), BIT_C as u32))
    }
}

/// The single-transfer transition: a load reads a byte, or the aligned
/// word rotated right by eight bits per byte of misalignment; a store
/// writes the source register, observing the program counter four bytes
/// on. A store into the word at or just below the program counter flushes
/// the pipeline and backs the program counter up to refetch. Post-indexed
/// and write-back forms update the base register afterwards; a load of
/// the program counter, or a write-back naming it, flushes the pipeline.
pub open spec fn single_transfer_rel(c0: Cpu, m0: Seq<u8>, c1: Cpu, m1: Seq<u8>, instr: u32) -> bool {
    let mode = c0.spec_mode();
    let rn_slot = reg_slot(mode, (instr >> 16) & 0xF);
    let rd_slot = reg_slot(mode, (instr >> 12) & 0xF);
    let rn = c0.regs@[rn_slot];
    let offset = spec_ls_offset(c0, instr);
    let offset_address = if bit32(instr, 23) {
        rn.wrapping_add(offset)
    } else {
        rn.wrapping_sub(offset)
    };
    let addr = if bit32(instr, 24) {
        offset_address
    } else {
        rn
    };
    let load = bit32(instr, 20);
    let byte_q = bit32(instr, 22);
    let self_mod = !load && (addr == c0.regs@[15].wrapping_sub(4) || addr == c0.regs@[15]);
    let wb = bit32(instr, 21) || !bit32(instr, 24);
    let branching = (load && rd_slot == 15) || self_mod || (wb && rn_slot == 15);
    let regs1 = if load {
        let v = if byte_q {
            crate::mem::spec_read_byte(m0, addr as int) as u32
        } else {
            ror32(
                crate::mem::spec_read_word(m0, addr as int - (addr as int) % 4),
                ((addr % 4) * 8) as u32,
            )
        };
        c0.regs@.update(rd_slot, v)
    } else if self_mod {
        c0.regs@.update(15, c0.regs@[15].wrapping_sub(8))
    } else {
        c0.regs@
    };
    let regs2 = if wb {
        regs1.update(rn_slot, offset_address)
    } else {
        regs1
    };
    let regs3 = if branching {
        regs2
    } else {
        regs2.update(15, regs2[15].wrapping_add(4))
    };
    let data = if rd_slot == 15 {
        c0.regs@[rd_slot].wrapping_add(4)
    } else {
        c0.regs@[rd_slot]
    };
    &&& c1.regs@ == regs3.update(15, crate::cpu::pc_fix(regs3[31], regs3[15]))
    &&& m1 == if load {
        m0
    } else if byte_q {
        crate::mem::spec_write_byte(m0, addr as int, (data & 0xff) as u8)
    } else {
        crate::mem::spec_write_word(m0, addr as int, data)
    }
    &&& c1.decode_stage == if branching {
        NOP
    } else {
        c0.decode_stage
    }
    &&& c1.execute_stage == if branching {
        NOP
    } else {
        c0.execute_stage
    }
    &&& c1.debug == c0.debug
    &&& c1.irq_input == c0.irq_input
    &&& c1.fiq_input == c0.fiq_input
}

/// Computes the offset of a single transfer.
pub fn ls_offset(cpu: &Cpu, mode: Mode, instr: u32) -> (r: u32)
    requires
        cpu.regs@.len() == 37,
        mode == cpu.spec_mode(),
    ensures
        r == spec_ls_offset(*cpu, instr),
{
    if 1 != (instr >> 25) & 1 {
        instr & 0xfff
    } else {
        let c_in = cpu.get_status_bit(BIT_C);
        let rm_raw = cpu.regs[cpu.get_register_index(mode, instr & 0xF)];
        let rm = if 1 == (instr >> 4) & 1 && instr & 0xF == 0xF {
            rm_raw.wrapping_add(4)
        } else {
            rm_raw
        };
        let rs_val = cpu.regs[cpu.get_register_index(mode, (instr >> 8) & 0xF)];
        let amt = if 1 == (instr >> 4) & 1 {
            rs_val & 0xff
        } else {
            (instr >> 7) & 0b11111
        };
        ls_shift((instr >> 5) & 0b11, rm, amt, 1 == (instr >> 4) & 1, c_in)
    }
}

/// Executes a single byte or word transfer.
#[verifier::rlimit(100)]
pub fn exec_single_transfer(cpu: &mut Cpu, ram: &mut Mem, mode: Mode, instr: u32)
    requires
        old(cpu).wf(),
        mode == old(cpu).spec_mode(),
    ensures
        final(cpu).wf(),
        single_transfer_rel(*old(cpu), old(ram)@, *final(cpu), final(ram)@, instr),
{
    let rn_index = cpu.get_register_index(mode, (instr >> 16) & 0xF);
    let rd_index = cpu.get_register_index(mode, (instr >> 12) & 0xF);
    let rn = cpu.regs[rn_index];

    let offset = ls_offset(cpu, mode, instr);
    let offset_address = if 1 == (instr >> 23) & 1 {
        rn.wrapping_add(offset)
    } else {
        rn.wrapping_sub(offset)
    };
    let memory_address = if 1 == (instr >> 24) & 1 {
        offset_address
    } else {
        rn
    };
    let mut branching = false;
    if 1 == (instr >> 20) & 1 {
        if 1 == (instr >> 22) & 1 {
            let b = ram.read_byte(memory_address);
            cpu.regs[rd_index] = b as u32;
        } else {
            let word = ram.read_word(memory_address - memory_address % 4);
            cpu.regs[rd_index] = rotate_right32(word, (memory_address % 4) * 8);
        }
        if rd_index == 15 {
            branching = true;
            cpu.decode_stage = NOP;
            cpu.execute_stage = NOP;
        }
    } else {
        let data = if rd_index == 15 {
            cpu.regs[rd_index].wrapping_add(4)
        } else {
            cpu.regs[rd_index]
        };
        if 1 == (instr >> 22) & 1 {
            ram.write_byte(memory_address, (data & 0xff) as u8);
        } else {
            ram.write_word(memory_address, data);
        }
        if memory_address == cpu.regs[15].wrapping_sub(4) || memory_address == cpu.regs[15] {
            cpu.decode_stage = NOP;
            cpu.execute_stage = NOP;
            branching = true;
            let pc = cpu.regs[15];
            cpu.regs[15] = pc.wrapping_sub(8);
        }
    }
    if 1 == (instr >> 21) & 1 || 1 != (instr >> 24) & 1 {
        cpu.regs[rn_index] = offset_address;
        if rn_index == 15 {
            branching = true;
            cpu.decode_stage = NOP;
            cpu.execute_stage = NOP;
        }
    }
    if !branching {
        let pc = cpu.regs[15];
        cpu.regs[15] = pc.wrapping_add(4);
    }
    cpu.align_pc();
    proof {
        let c0 = *old(cpu);
        let m0 = old(ram)@;
        let mode0 = c0.spec_mode();
        let rn_slot = reg_slot(mode0, (instr >> 16) & 0xF);
        let rd_slot = reg_slot(mode0, (instr >> 12) & 0xF);
        let rn_s = c0.regs@[rn_slot];
        let offset_s = spec_ls_offset(c0, instr);
        assert(offset == offset_s);
        let offset_address_s = if bit32(instr, 23) {
            rn_s.wrapping_add(offset_s)
        } else {
            rn_s.wrapping_sub(offset_s)
        };
        let addr = if bit32(instr, 24) {
            offset_address_s
        } else {
            rn_s
        };
        let load = bit32(instr, 20);
        let byte_q = bit32(instr, 22);
        let self_mod = !load && (addr == c0.regs@[15].wrapping_sub(4) || addr == c0.regs@[15]);
        let wb = bit32(instr, 21) || !bit32(instr, 24);
        let branching_s = (load && rd_slot == 15) || self_mod || (wb && rn_slot == 15);
        assert(branching == branching_s);
        let regs1 = if load {
            let v = if byte_q {
                crate::mem::spec_read_byte(m0, addr as int) as u32
            } else {
                ror32(
                    crate::mem::spec_read_word(m0, addr as int - (addr as int) % 4),
                    ((addr % 4) * 8) as u32,
                )
            };
            c0.regs@.update(rd_slot, v)
        } else if self_mod {
            c0.regs@.update(15, c0.regs@[15].wrapping_sub(8))
        } else {
            c0.regs@
        };
        let regs2 = if wb {
            regs1.update(rn_slot, offset_address_s)
        } else {
            regs1
        };
        let regs3 = if branching_s {
            regs2
        } else {
            regs2.update(15, regs2[15].wrapping_add(4))
        };
        assert(cpu.regs@ =~= regs3.update(15, crate::cpu::pc_fix(regs3[31], regs3[15])));
    }
}

/// The halfword / signed-byte transfer transition: loads an unsigned
/// halfword, a sign-extended byte or a sign-extended halfword, or stores
/// the low halfword of the source register; the offset is a split 8-bit
/// immediate or a register, pre- or post-indexed with optional write-back.
/// A load of the program counter, or a write-back naming it, flushes the
/// pipeline.
pub open spec fn halfword_rel(c0: Cpu, m0: Seq<u8>, c1: Cpu, m1: Seq<u8>, instr: u32) -> bool {
    let mode = c0.spec_mode();
    let rn_slot = reg_slot(mode, (instr >> 16) & 0xF);
    let rd_slot = reg_slot(mode, (instr >> 12) & 0xF);
    let rn = c0.regs@[rn_slot];
    let offset = if bit32(instr, 22) {
        ((instr >> 4) & 0xF0) | (instr & 0xF)
    } else {
        c0.regs@[reg_slot(mode, instr & 0xF)]
    };
    let offset_address = if bit32(instr, 23) {
        rn.wrapping_add(offset)
    } else {
        rn.wrapping_sub(offset)
    };
    let addr = if bit32(instr, 24) {
        offset_address
    } else {
        rn
    };
    let sh = (instr >> 5) & 0b11;
    let load = bit32(instr, 20);
    let wb = bit32(instr, 21) || !bit32(instr, 24);
    let branching = (load && rd_slot == 15) || (wb && rn_slot == 15);
    let regs1 = if load {
        let v = if sh == 1 {
            crate::mem::spec_read_hw(m0, addr as int) as u32
        } else if sh == 2 {
            sext8(crate::mem::spec_read_byte(m0, addr as int))
        } else {
            sext16(crate::mem::spec_read_hw(m0, addr as int))
        };
        c0.regs@.update(rd_slot, v)
    } else {
        c0.regs@
    };
    let regs2 = if wb {
        regs1.update(rn_slot, offset_address)
    } else {
        regs1
    };
    let regs3 = if branching {
        regs2
    } else {
        regs2.update(15, regs2[15].wrapping_add(4))
    };
    let data = (if rd_slot == 15 {
        c0.regs@[rd_slot].wrapping_add(4)
    } else {
        c0.regs@[rd_slot]
    } & 0xffff) as u16;
    &&& c1.regs@ == regs3.update(15, crate::cpu::pc_fix(regs3[31], regs3[15]))
    &&& m1 == if load {
        m0
    } else {
        crate::mem::spec_write_hw(m0, addr as int, data)
    }
    &&& c1.decode_stage == if branching {
        NOP
    } else {
        c0.decode_stage
    }
    &&& c1.execute_stage == if branching {
        NOP
    } else {
        c0.execute_stage
    }
    &&& c1.debug == c0.debug
    &&& c1.irq_input == c0.irq_input
    &&& c1.fiq_input == c0.fiq_input
}

/// Executes a halfword or signed-byte transfer.
#[verifier::rlimit(100)]
pub fn exec_halfword_transfer(cpu: &mut Cpu, ram: &mut Mem, mode: Mode, instr: u32)
    requires
        old(cpu).wf(),
        mode == old(cpu).spec_mode(),
        (instr >> 5) & 0b11 != 0,
    ensures
        final(cpu).wf(),
        halfword_rel(*old(cpu), old(ram)@, *final(cpu), final(ram)@, instr),
{
    let rn_index = cpu.get_register_index(mode, (instr >> 16) & 0xF);
    let rd_index = cpu.get_register_index(mode, (instr >> 12) & 0xF);
    let rn = cpu.regs[rn_index];
    let sh = (instr >> 5) & 0b11;
    let offset = if 1 == (instr >> 22) & 1 {
        ((instr >> 4) & 0xF0) | (instr & 0xF)
    } else {
        cpu.regs[cpu.get_register_index(mode, instr & 0xF)]
    };
    let offset_address = if 1 == (instr >> 23) & 1 {
        rn.wrapping_add(offset)
    } else {
        rn.wrapping_sub(offset)
    };
    let memory_address = if 1 == (instr >> 24) & 1 {
        offset_address
    } else {
        rn
    };
    let mut branching = false;
    if 1 == (instr >> 20) & 1 {
        if sh == 1 {
            let h = ram.read_halfword(memory_address);
            cpu.regs[rd_index] = h as u32;
        } else if sh == 2 {
            let b = ram.read_byte(memory_address);
            cpu.regs[rd_index] = sign_extend8(b);
        } else {
            let h = ram.read_halfword(memory_address);
            cpu.regs[rd_index] = sign_extend16(h);
        }
        if rd_index == 15 {
            branching = true;
            cpu.decode_stage = NOP;
            cpu.execute_stage = NOP;
        }
    } else {
        let data = ((if rd_index == 15 {
            cpu.regs[rd_index].wrapping_add(4)
        } else {
            cpu.regs[rd_index]
        }) & 0xffff) as u16;
        ram.write_halfword(memory_address, data);
    }
    if 1 == (instr >> 21) & 1 || 1 != (instr >> 24) & 1 {
        cpu.regs[rn_index] = offset_address;
        if rn_index == 15 {
            branching = true;
            cpu.decode_stage = NOP;
            cpu.execute_stage = NOP;
        }
    }
    if !branching {
        let pc = cpu.regs[15];
        cpu.regs[15] = pc.wrapping_add(4);
    }
    cpu.align_pc();
    proof {
        let c0 = *old(cpu);
        let mode0 = c0.spec_mode();
        let rn_slot = reg_slot(mode0, (instr >> 16) & 0xF);
        let rd_slot = reg_slot(mode0, (instr >> 12) & 0xF);
        let rn_s = c0.regs@[rn_slot];
        let offset_s = if bit32(instr, 22) {
            ((instr >> 4) & 0xF0) | (instr & 0xF)
        } else {
            c0.regs@[reg_slot(mode0, instr & 0xF)]
        };
        let offset_address_s = if bit32(instr, 23) {
            rn_s.wrapping_add(offset_s)
        } else {
            rn_s.wrapping_sub(offset_s)
        };
        let addr = if bit32(instr, 24) {
            offset_address_s
        } else {
            rn_s
        };
        let load = bit32(instr, 20);
        let wb = bit32(instr, 21) || !bit32(instr, 24);
        let branching_s = (load && rd_slot == 15) || (wb && rn_slot == 15);
        let sh_s = (instr >> 5) & 0b11;
        let regs1 = if load {
            let v = if sh_s == 1 {
                crate::mem::spec_read_hw(old(ram)@, addr as int) as u32
            } else if sh_s == 2 {
                sext8(crate::mem::spec_read_byte(old(ram)@, addr as int))
            } else {
                sext16(crate::mem::spec_read_hw(old(ram)@, addr as int))
            };
            c0.regs@.update(rd_slot, v)
        } else {
            c0.regs@
        };
        let regs2 = if wb {
            regs1.update(rn_slot, offset_address_s)
        } else {
            regs1
        };
        let regs3 = if branching_s {
            regs2
        } else {
            regs2.update(15, regs2[15].wrapping_add(4))
        };
        assert(cpu.regs@ =~= regs3.update(15, crate::cpu::pc_fix(regs3[31], regs3[15])));
    }
}

/// The atomic-swap transition: the destination register takes the old
/// memory value and the memory takes the source register, as a byte or a
/// word; a destination naming the program counter flushes the pipeline.
pub open spec fn swap_rel(c0: Cpu, m0: Seq<u8>, c1: Cpu, m1: Seq<u8>, instr: u32) -> bool {
    let mode = c0.spec_mode();
    let rn = c0.regs@[reg_slot(mode, (instr >> 16) & 0xF)];
    let rd_slot = reg_slot(mode, (instr >> 12) & 0xF);
    let rm = c0.regs@[reg_slot(mode, instr & 0xF)];
    let byte_q = bit32(instr, 22);
    let regs1 = if byte_q {
        c0.regs@.update(rd_slot, crate::mem::spec_read_byte(m0, rn as int) as u32)
    } else {
        c0.regs@.update(rd_slot, crate::mem::spec_read_word(m0, rn as int))
    };
    let pc_write = rd_slot == 15;
    let regs3 = if pc_write {
        regs1
    } else {
        regs1.update(15, regs1[15].wrapping_add(4))
    };
    &&& c1.regs@ == regs3.update(15, crate::cpu::pc_fix(regs3[31], regs3[15]))
    &&& m1 == if byte_q {
        crate::mem::spec_write_byte(m0, rn as int, (rm & 0xff) as u8)
    } else {
        crate::mem::spec_write_word(m0, rn as int, rm)
    }
    &&& c1.decode_stage == if pc_write {
        NOP
    } else {
        c0.decode_stage
    }
    &&& c1.execute_stage == if pc_write {
        NOP
    } else {
        c0.execute_stage
    }
    &&& c1.debug == c0.debug
    &&& c1.irq_input == c0.irq_input
    &&& c1.fiq_input == c0.fiq_input
}

/// Executes an atomic swap.
pub fn exec_swap(cpu: &mut Cpu, ram: &mut Mem, mode: Mode, instr: u32)
    requires
        old(cpu).wf(),
        mode == old(cpu).spec_mode(),
    ensures
        final(cpu).wf(),
        swap_rel(*old(cpu), old(ram)@, *final(cpu), final(ram)@, instr),
{
    let rn = cpu.regs[cpu.get_register_index(mode, (instr >> 16) & 0xF)];
    let rd_index = cpu.get_register_index(mode, (instr >> 12) & 0xF);
    let rm = cpu.regs[cpu.get_register_index(mode, instr & 0xF)];
    if 1 == (instr >> 22) & 1 {
        let b = ram.read_byte(rn);
        cpu.regs[rd_index] = b as u32;
        ram.write_byte(rn, (rm & 0xff) as u8);
    } else {
        let w = ram.read_word(rn);
        cpu.regs[rd_index] = w;
        ram.write_word(rn, rm);
    }
    if rd_index == 15 {
        cpu.decode_stage = NOP;
        cpu.execute_stage = NOP;
    } else {
        let pc = cpu.regs[15];
        cpu.regs[15] = pc.wrapping_add(4);
    }
    cpu.align_pc();
    proof {
        let c0 = *old(cpu);
        let mode0 = c0.spec_mode();
        let rn_s = c0.regs@[reg_slot(mode0, (instr >> 16) & 0xF)];
        let rd_slot = reg_slot(mode0, (instr >> 12) & 0xF);
        let regs1 = if bit32(instr, 22) {
            c0.regs@.update(rd_slot, crate::mem::spec_read_byte(old(ram)@, rn_s as int) as u32)
        } else {
            c0.regs@.update(rd_slot, crate::mem::spec_read_word(old(ram)@, rn_s as int))
        };
        let regs3 = if rd_slot == 15 {
            regs1
        } else {
            regs1.update(15, regs1[15].wrapping_add(4))
        };
        assert(cpu.regs@ =~= regs3.update(15, crate::cpu::pc_fix(regs3[31], regs3[15])));
    }
}


/// The number of set bits among the low `k` bits of `m`.
pub open spec fn count_bits(m: u32, k: int) -> int
    decreases k,
{
    if k <= 0 {
        0
    } else {
        count_bits(m, k - 1) + if bit32(m, (k - 1) as u32) {
            1int
        } else {
            0int
        }
    }
}

/// A bit count is never negative.
pub proof fn lemma_count_bits_nonneg(m: u32, k: int)
    ensures
        count_bits(m, k) >= 0,
    decreases k,
{
    if k > 0 {
        lemma_count_bits_nonneg(m, k - 1);
    }
}

/// The register file and running address after the loads of a block
/// transfer for the registers below bit `k`: registers are loaded in
/// ascending order from consecutive words. With the user-bank bit set and
/// the program counter not in the mask, the user-bank registers are loaded
/// instead of the banked ones.
pub open spec fn ldm_step(
    regs: Seq<u32>,
    m: Seq<u8>,
    mode: Mode,
    instr: u32,
    k: int,
    addr: u32,
) -> (Seq<u32>, u32)
    decreases k,
{
    if k <= 0 {
        (regs, addr)
    } else {
        let prev = ldm_step(regs, m, mode, instr, k - 1, addr);
        if bit32(instr, (k - 1) as u32) {
            let idx = if bit32(instr, 22) && !bit32(instr, 15) {
                k - 1
            } else {
                reg_slot(mode, (k - 1) as u32)
            };
            (prev.0.update(idx, crate::mem::spec_read_word(m, prev.1 as int)), prev.1.wrapping_add(4))
        } else {
            prev
        }
    }
}

/// The memory and running address after the stores of a block transfer for
/// the registers below bit `k`: registers are stored in ascending order;
/// the base register stores its pre-write-back value when it is the lowest
/// register in the mask, and the program counter stores four bytes beyond
/// its pipeline value.
pub open spec fn stm_step(
    regs: Seq<u32>,
    old_rn: u32,
    rn_slot: int,
    m: Seq<u8>,
    mode: Mode,
    instr: u32,
    k: int,
    addr: u32,
) -> (Seq<u8>, u32)
    decreases k,
{
    if k <= 0 {
        (m, addr)
    } else {
        let prev = stm_step(regs, old_rn, rn_slot, m, mode, instr, k - 1, addr);
        if bit32(instr, (k - 1) as u32) {
            let slot = if bit32(instr, 22) {
                k - 1
            } else {
                reg_slot(mode, (k - 1) as u32)
            };
            let base = regs[slot];
            let bumped = if k - 1 == 15 {
                base.wrapping_add(4)
            } else {
                base
            };
            let data = if count_bits(instr, k - 1) == 0 && reg_slot(mode, (k - 1) as u32)
                == rn_slot {
                old_rn
            } else {
                bumped
            };
            (crate::mem::spec_write_word(prev.0, prev.1 as int, data), prev.1.wrapping_add(4))
        } else {
            prev
        }
    }
}

/// The first address of a block transfer, from the up/down and pre/post
/// bits and the register count.
pub open spec fn spec_block_base(rn: u32, up: bool, pre: bool, n: u32) -> u32 {
    if up {
        if pre {
            rn.wrapping_add(4)
        } else {
            rn
        }
    } else {
        if pre {
            rn.wrapping_sub(n.wrapping_mul(4))
        } else {
            rn.wrapping_sub(n.wrapping_mul(4)).wrapping_add(4)
        }
    }
}

/// The block-transfer transition. The base register is written back first
/// when asked; loads then proceed in ascending register order (a load of
/// the program counter flushes the pipeline, and the user-bank form with
/// the program counter in the mask also restores the saved status word);
/// stores write the (written-back) registers, except that the base stores
/// its old value when it is the lowest register in the mask. A write-back
/// naming the program counter flushes the pipeline.
pub open spec fn block_rel(c0: Cpu, m0: Seq<u8>, c1: Cpu, m1: Seq<u8>, instr: u32) -> bool {
    let mode = c0.spec_mode();
    let rn_slot = reg_slot(mode, (instr >> 16) & 0xF);
    let rn = c0.regs@[rn_slot];
    let up = bit32(instr, 23);
    let pre = bit32(instr, 24);
    let n = count_bits(instr & 0xffff, 16) as u32;
    let addr0 = spec_block_base(rn, up, pre, n);
    let load = bit32(instr, 20);
    let regs_wb = if bit32(instr, 21) {
        c0.regs@.update(rn_slot, if up {
            rn.wrapping_add(n.wrapping_mul(4))
        } else {
            rn.wrapping_sub(n.wrapping_mul(4))
        })
    } else {
        c0.regs@
    };
    let wb_pc = bit32(instr, 21) && rn_slot == 15;
    let branching = (load && bit32(instr, 15)) || wb_pc;
    if load {
        let after = ldm_step(regs_wb, m0, mode, instr, 16, addr0);
        let regs2 = if bit32(instr, 22) && bit32(instr, 15) {
            after.0.update(31, after.0[psr_slot(mode)])
        } else {
            after.0
        };
        let regs3 = if branching {
            regs2
        } else {
            regs2.update(15, regs2[15].wrapping_add(4))
        };
        &&& c1.regs@ == regs3.update(15, crate::cpu::pc_fix(regs3[31], regs3[15]))
        &&& m1 == m0
        &&& c1.decode_stage == if branching {
            NOP
        } else {
            c0.decode_stage
        }
        &&& c1.execute_stage == if branching {
            NOP
        } else {
            c0.execute_stage
        }
        &&& c1.debug == c0.debug
        &&& c1.irq_input == c0.irq_input
        &&& c1.fiq_input == c0.fiq_input
    } else {
        let after = stm_step(regs_wb, rn, rn_slot, m0, mode, instr, 16, addr0);
        let regs3 = if wb_pc {
            regs_wb
        } else {
            regs_wb.update(15, regs_wb[15].wrapping_add(4))
        };
        &&& c1.regs@ == regs3.update(15, crate::cpu::pc_fix(regs3[31], regs3[15]))
        &&& m1 == after.0
        &&& c1.decode_stage == if wb_pc {
            NOP
        } else {
            c0.decode_stage
        }
        &&& c1.execute_stage == if wb_pc {
            NOP
        } else {
            c0.execute_stage
        }
        &&& c1.debug == c0.debug
        &&& c1.irq_input == c0.irq_input
        &&& c1.fiq_input == c0.fiq_input
    }
}

/// Counts the registers named in the low 16 bits of the mask.
pub fn count_mask_registers(instr: u32) -> (r: u32)
    ensures
        r == count_bits(instr & 0xffff, 16),
        r <= 16,
{
    let mask = instr & 0xffff;
    let mut n: u32 = 0;
    let mut b: u32 = 0;
    while b < 16
        invariant
            b <= 16,
            n == count_bits(mask, b as int),
            n <= b,
        decreases 16 - b,
    {
        if 1 == (mask >> b) & 1 {
            n = n + 1;
        }
        b = b + 1;
    }
    n
}

/// Executes a block transfer.
#[verifier::rlimit(100)]
#[verifier::loop_isolation(false)]
pub fn exec_block_transfer(cpu: &mut Cpu, ram: &mut Mem, mode: Mode, instr: u32)
    requires
        old(cpu).wf(),
        mode == old(cpu).spec_mode(),
    ensures
        final(cpu).wf(),
        block_rel(*old(cpu), old(ram)@, *final(cpu), final(ram)@, instr),
{
    let rn_index = cpu.get_register_index(mode, (instr >> 16) & 0xF);
    let rn = cpu.regs[rn_index];
    let up = 1 == (instr >> 23) & 1;
    let pre = 1 == (instr >> 24) & 1;
    let load_psr = 1 == (instr >> 22) & 1;
    let write_back = 1 == (instr >> 21) & 1;
    let num_regs = count_mask_registers(instr);

    let mut memory_address = if up {
        if pre {
            rn.wrapping_add(4)
        } else {
            rn
        }
    } else {
        if pre {
            rn.wrapping_sub(num_regs.wrapping_mul(4))
        } else {
            rn.wrapping_sub(num_regs.wrapping_mul(4)).wrapping_add(4)
        }
    };

    let old_rn = rn;
    if write_back {
        cpu.regs[rn_index] = if up {
            rn.wrapping_add(num_regs.wrapping_mul(4))
        } else {
            rn.wrapping_sub(num_regs.wrapping_mul(4))
        };
    }
    let ghost regs_wb = cpu.regs@;
    let ghost addr0 = memory_address;
    let ghost m0 = ram@;

    let mut branching = false;
    if 1 == (instr >> 20) & 1 {
        let mut bit: u32 = 0;
        while bit < 16
            invariant
                bit <= 16,
                cpu.regs@.len() == 37,
                mode == old(cpu).spec_mode(),
                ram@ == m0,
                cpu.decode_stage == old(cpu).decode_stage,
                cpu.execute_stage == old(cpu).execute_stage,
                cpu.debug == old(cpu).debug,
                cpu.irq_input == old(cpu).irq_input,
                cpu.fiq_input == old(cpu).fiq_input,
                (cpu.regs@, memory_address) == ldm_step(regs_wb, m0, mode, instr, bit as int, addr0),
            decreases 16 - bit,
        {
            if 1 == (instr >> bit) & 1 {
                let index = if load_psr && 1 != (instr >> 15) & 1 {
                    bit as usize
                } else {
                    cpu.get_register_index(mode, bit)
                };
                let w = ram.read_word(memory_address);
                cpu.regs[index] = w;
                memory_address = memory_address.wrapping_add(4);
            }
            proof {
                assert(ldm_step(regs_wb, m0, mode, instr, bit as int + 1, addr0) == (cpu.regs@,
                memory_address));
            }
            bit = bit + 1;
        }
        if 1 == (instr >> 15) & 1 || (write_back && rn_index == 15) {
            branching = true;
            cpu.decode_stage = crate::cpu::NOP;
            cpu.execute_stage = crate::cpu::NOP;
        }
        if load_psr && 1 == (instr >> 15) & 1 {
            let psr_idx = cpu.get_psr_index(mode);
            let v = cpu.regs[psr_idx];
            cpu.regs[crate::cpu::REG_CPSR] = v;
        }
    } else {
        let mut first = true;
        let mut bit: u32 = 0;
        while bit < 16
            invariant
                bit <= 16,
                cpu.regs@ == regs_wb,
                cpu.regs@.len() == 37,
                mode == old(cpu).spec_mode(),
                cpu.decode_stage == old(cpu).decode_stage,
                cpu.execute_stage == old(cpu).execute_stage,
                cpu.debug == old(cpu).debug,
                cpu.irq_input == old(cpu).irq_input,
                cpu.fiq_input == old(cpu).fiq_input,
                first == (count_bits(instr, bit as int) == 0),
                (ram@, memory_address) == stm_step(
                    regs_wb,
                    old_rn,
                    rn_index as int,
                    m0,
                    mode,
                    instr,
                    bit as int,
                    addr0,
                ),
            decreases 16 - bit,
        {
            if 1 == (instr >> bit) & 1 {
                let slot = if load_psr {
                    bit as usize
                } else {
                    cpu.get_register_index(mode, bit)
                };
                let mut data = cpu.regs[slot];
                if bit == 15 {
                    data = data.wrapping_add(4);
                }
                if first && cpu.get_register_index(mode, bit) == rn_index {
                    data = old_rn;
                }
                ram.write_word(memory_address, data);
                memory_address = memory_address.wrapping_add(4);
                first = false;
            }
            proof {
                reveal_with_fuel(count_bits, 2);
                reveal_with_fuel(stm_step, 2);
                lemma_count_bits_nonneg(instr, bit as int);
                assert(count_bits(instr, bit as int + 1) == count_bits(instr, bit as int) + (
                if bit32(instr, bit) {
                    1int
                } else {
                    0int
                }));
                assert(stm_step(regs_wb, old_rn, rn_index as int, m0, mode, instr, bit as int + 1,
                addr0) == (ram@, memory_address));
            }
            bit = bit + 1;
        }
        if write_back && rn_index == 15 {
            branching = true;
            cpu.decode_stage = crate::cpu::NOP;
            cpu.execute_stage = crate::cpu::NOP;
        }
    }
    if !branching {
        let pc = cpu.regs[15];
        cpu.regs[15] = pc.wrapping_add(4);
    }
    cpu.align_pc();
    proof {
        let c0 = *old(cpu);
        let mode0 = c0.spec_mode();
        let rn_slot = reg_slot(mode0, (instr >> 16) & 0xF);
        let load = bit32(instr, 20);
        let wb_pc = bit32(instr, 21) && rn_slot == 15;
        if load {
            let after = ldm_step(regs_wb, m0, mode0, instr, 16, addr0);
            let regs2 = if bit32(instr, 22) && bit32(instr, 15) {
                after.0.update(31, after.0[psr_slot(mode0)])
            } else {
                after.0
            };
            let regs3 = if (load && bit32(instr, 15)) || wb_pc {
                regs2
            } else {
                regs2.update(15, regs2[15].wrapping_add(4))
            };
            assert(cpu.regs@ =~= regs3.update(15, crate::cpu::pc_fix(regs3[31], regs3[15])));
        } else {
            let regs3 = if wb_pc {
                regs_wb
            } else {
                regs_wb.update(15, regs_wb[15].wrapping_add(4))
            };
            assert(cpu.regs@ =~= regs3.update(15, crate::cpu::pc_fix(regs3[31], regs3[15])));
        }
    }
}



/// A flag-setting data-processing write to the program counter copies the
/// current mode's saved status word back into the status word.
pub proof fn lemma_exception_return_restores_status(cb: Cpu, c2: Cpu, instr: u32)
    requires
        cb.regs@.len() == 37,
        dp_rel(cb, c2, instr),
        bit32(instr, 20),
        (instr >> 12) & 0xF == 15,
    ensures
        c2.cpsr() == cb.regs@[psr_slot(cb.spec_mode())],
{
    let mode = cb.spec_mode();
    assert(reg_slot(mode, (instr >> 12) & 0xF) == 15);
}

/// Entering an exception and later returning from it through a
/// flag-setting data-processing write to the program counter restores the
/// pre-exception status word exactly, provided the handler left the saved
/// status word alone.
pub proof fn lemma_saved_status_full_round_trip(
    c0: Cpu,
    c1: Cpu,
    mode: Mode,
    vector: u32,
    link: u32,
    to_arm: bool,
    set_f: bool,
    cb: Cpu,
    c2: Cpu,
    instr: u32,
)
    requires
        c0.regs@.len() == 37,
        mode != Mode::User && mode != Mode::Sys,
        crate::cpu::exception_entry(c0, c1, mode, vector, link, to_arm, set_f),
        cb.regs@.len() == 37,
        cb.spec_mode() == mode,
        cb.regs@[psr_slot(mode)] == c1.regs@[psr_slot(mode)],
        dp_rel(cb, c2, instr),
        bit32(instr, 20),
        (instr >> 12) & 0xF == 15,
    ensures
        c2.cpsr() == c0.cpsr(),
{
    lemma_exception_return_restores_status(cb, c2, instr);
}

} // verus!
