//! T-mode (16-bit) instruction execution: one function per family, each
//! verified against a relation stating the whole transition. The flag
//! rules mirror A-mode data processing; arithmetic always sets flags.
use vstd::prelude::*;

use crate::arm::{count_bits, sext16, sext8, spec_dp_compute, spec_dp_flags};
use crate::cpu::{bit32, pc_fix, reg_slot, with_bit, Cpu, Mode, BIT_C, BIT_N, BIT_V, BIT_Z, NOP};
use crate::mem::Mem;
use crate::shifter::{ror32, rotate_right32, shift_with_carry, spec_shift};

verus! {

broadcast use crate::cpu::lemma_and_mask_bound;

/// Writes the condition flags of a flag-setting T-mode operation: C, N and
/// Z from the result, V forced high on signed overflow.
pub fn apply_flags(cpu: &mut Cpu, result: u32, c: bool, v_set: bool)
    requires
        old(cpu).regs@.len() == 37,
    ensures
        final(cpu).regs@ == old(cpu).regs@.update(
            31,
            spec_dp_flags(old(cpu).cpsr(), result, c, v_set),
        ),
        final(cpu).decode_stage == old(cpu).decode_stage,
        final(cpu).execute_stage == old(cpu).execute_stage,
        final(cpu).debug == old(cpu).debug,
        final(cpu).irq_input == old(cpu).irq_input,
        final(cpu).fiq_input == old(cpu).fiq_input,
{
    cpu.set_status_bit(BIT_C, c);
    cpu.set_status_bit(BIT_N, 1 == (result >> 31) & 1);
    cpu.set_status_bit(BIT_Z, result == 0);
    if v_set {
        cpu.set_status_bit(BIT_V, true);
    }
    proof {
        assert(cpu.regs@ =~= old(cpu).regs@.update(
            31,
            spec_dp_flags(old(cpu).cpsr(), result, c, v_set),
        ));
    }
}

/// The shifted-move transition: logical left, logical right or arithmetic
/// right by a five-bit immediate, with the architectural reading of a zero
/// amount; the flags are always written.
pub open spec fn t_shifted_move_rel(c0: Cpu, c1: Cpu, instr: u32) -> bool {
    let opcode = instr >> 11;
    let rs = c0.regs@[((instr >> 3) & 0b111) as int];
    let amt = (instr >> 6) & 0b11111;
    let cin = bit32(c0.cpsr(), BIT_C as u32);
    let sh = if opcode == 0 {
        if amt == 0 {
            (rs, cin)
        } else {
            spec_shift(0, rs, amt, false, cin)
        }
    } else if opcode == 1 {
        spec_shift(1, rs, amt, false, cin)
    } else {
        spec_shift(2, rs, amt, false, cin)
    };
    let regs1 = c0.regs@.update((instr & 0b111) as int, sh.0);
    let regs2 = regs1.update(31, spec_dp_flags(c0.cpsr(), sh.0, sh.1, false));
    let regs3 = regs2.update(15, regs2[15].wrapping_add(2));
    &&& c1.regs@ == regs3.update(15, pc_fix(regs3[31], regs3[15]))
    &&& c1.decode_stage == c0.decode_stage
    &&& c1.execute_stage == c0.execute_stage
    &&& c1.debug == c0.debug
    &&& c1.irq_input == c0.irq_input
    &&& c1.fiq_input == c0.fiq_input
}

/// Executes a T-mode shifted move.
pub fn exec_t_shifted_move(cpu: &mut Cpu, instr: u32)
    requires
        old(cpu).wf(),
        instr >> 11 < 3,
    ensures
        final(cpu).wf(),
        t_shifted_move_rel(*old(cpu), *final(cpu), instr),
{
    let opcode = instr >> 11;
    let rd_index = (instr & 0b111) as usize;
    let rs = cpu.regs[((instr >> 3) & 0b111) as usize];
    let amt = (instr >> 6) & 0b11111;
    let cin = cpu.get_status_bit(BIT_C);
    let (result, c) = if opcode == 0 {
        if amt == 0 {
            (rs, cin)
        } else {
            shift_with_carry(0, rs, amt, false, cin)
        }
    } else if opcode == 1 {
        shift_with_carry(1, rs, amt, false, cin)
    } else {
        shift_with_carry(2, rs, amt, false, cin)
    };
    cpu.regs[rd_index] = result;
    apply_flags(cpu, result, c, false);
    let pc = cpu.regs[15];
    cpu.regs[15] = pc.wrapping_add(2);
    cpu.align_pc();
    proof {
        let c0 = *old(cpu);
        let sh = t_shifted_move_spec_sh(c0, instr);
        let regs1 = c0.regs@.update((instr & 0b111) as int, sh.0);
        let regs2 = regs1.update(31, spec_dp_flags(c0.cpsr(), sh.0, sh.1, false));
        let regs3 = regs2.update(15, regs2[15].wrapping_add(2));
        assert(cpu.regs@ =~= regs3.update(15, pc_fix(regs3[31], regs3[15])));
    }
}

/// The shift and carry selected by a shifted move.
pub open spec fn t_shifted_move_spec_sh(c0: Cpu, instr: u32) -> (u32, bool) {
    let opcode = instr >> 11;
    let rs = c0.regs@[((instr >> 3) & 0b111) as int];
    let amt = (instr >> 6) & 0b11111;
    let cin = bit32(c0.cpsr(), BIT_C as u32);
    if opcode == 0 {
        if amt == 0 {
            (rs, cin)
        } else {
            spec_shift(0, rs, amt, false, cin)
        }
    } else if opcode == 1 {
        spec_shift(1, rs, amt, false, cin)
    } else {
        spec_shift(2, rs, amt, false, cin)
    }
}

/// The add/subtract transition: a register or three-bit immediate is added
/// to or subtracted from the source register, with all four flags written.
pub open spec fn t_add_sub_rel(c0: Cpu, c1: Cpu, instr: u32) -> bool {
    let rs = c0.regs@[((instr >> 3) & 0b111) as int];
    let field = (instr >> 6) & 0b111;
    let value = if bit32(instr, 10) {
        field
    } else {
        c0.regs@[field as int]
    };
    let op = if bit32(instr, 9) {
        10u32
    } else {
        11u32
    };
    let dp = spec_dp_compute(op, rs, value, false, false);
    let regs1 = c0.regs@.update((instr & 0b111) as int, dp.0);
    let regs2 = regs1.update(31, spec_dp_flags(c0.cpsr(), dp.0, dp.2, dp.3));
    let regs3 = regs2.update(15, regs2[15].wrapping_add(2));
    &&& c1.regs@ == regs3.update(15, pc_fix(regs3[31], regs3[15]))
    &&& c1.decode_stage == c0.decode_stage
    &&& c1.execute_stage == c0.execute_stage
    &&& c1.debug == c0.debug
    &&& c1.irq_input == c0.irq_input
    &&& c1.fiq_input == c0.fiq_input
}

/// Executes a T-mode add or subtract.
pub fn exec_t_add_sub(cpu: &mut Cpu, instr: u32)
    requires
        old(cpu).wf(),
    ensures
        final(cpu).wf(),
        t_add_sub_rel(*old(cpu), *final(cpu), instr),
{
    let rd_index = (instr & 0b111) as usize;
    let rs = cpu.regs[((instr >> 3) & 0b111) as usize];
    let field = (instr >> 6) & 0b111;
    let value = if 1 == (instr >> 10) & 1 {
        field
    } else {
        cpu.regs[field as usize]
    };
    let op: u32 = if 1 == (instr >> 9) & 1 {
        10
    } else {
        11
    };
    let (result, _wb, c, v_set) = crate::arm::dp_compute(op, rs, value, false, false);
    cpu.regs[rd_index] = result;
    apply_flags(cpu, result, c, v_set);
    let pc = cpu.regs[15];
    cpu.regs[15] = pc.wrapping_add(2);
    cpu.align_pc();
    proof {
        let c0 = *old(cpu);
        let rs_s = c0.regs@[((instr >> 3) & 0b111) as int];
        let field_s = (instr >> 6) & 0b111;
        let value_s = if bit32(instr, 10) {
            field_s
        } else {
            c0.regs@[field_s as int]
        };
        let op_s = if bit32(instr, 9) {
            10u32
        } else {
            11u32
        };
        let dp = spec_dp_compute(op_s, rs_s, value_s, false, false);
        let regs1 = c0.regs@.update((instr & 0b111) as int, dp.0);
        let regs2 = regs1.update(31, spec_dp_flags(c0.cpsr(), dp.0, dp.2, dp.3));
        let regs3 = regs2.update(15, regs2[15].wrapping_add(2));
        assert(cpu.regs@ =~= regs3.update(15, pc_fix(regs3[31], regs3[15])));
    }
}

/// The immediate-operation transition: move, compare, add or subtract of
/// an eight-bit immediate against a low register, flags always written.
pub open spec fn t_imm_op_rel(c0: Cpu, c1: Cpu, instr: u32) -> bool {
    let opcode = (instr >> 11) & 0b11;
    let rd_slot = ((instr >> 8) & 0b111) as int;
    let rd = c0.regs@[rd_slot];
    let imm = instr & 0xff;
    let cin = bit32(c0.cpsr(), BIT_C as u32);
    let dp = if opcode == 0 {
        (imm, true, cin, false)
    } else if opcode == 1 {
        spec_dp_compute(10, rd, imm, false, cin)
    } else if opcode == 2 {
        spec_dp_compute(11, rd, imm, false, cin)
    } else {
        spec_dp_compute(10, rd, imm, false, cin)
    };
    let write_back = opcode != 1;
    let regs1 = c0.regs@.update(31, spec_dp_flags(c0.cpsr(), dp.0, dp.2, dp.3));
    let regs2 = if write_back {
        regs1.update(rd_slot, dp.0)
    } else {
        regs1
    };
    let regs3 = regs2.update(15, regs2[15].wrapping_add(2));
    &&& c1.regs@ == regs3.update(15, pc_fix(regs3[31], regs3[15]))
    &&& c1.decode_stage == c0.decode_stage
    &&& c1.execute_stage == c0.execute_stage
    &&& c1.debug == c0.debug
    &&& c1.irq_input == c0.irq_input
    &&& c1.fiq_input == c0.fiq_input
}

/// Executes a T-mode immediate move, compare, add or subtract.
pub fn exec_t_imm_op(cpu: &mut Cpu, instr: u32)
    requires
        old(cpu).wf(),
    ensures
        final(cpu).wf(),
        t_imm_op_rel(*old(cpu), *final(cpu), instr),
{
    let opcode = (instr >> 11) & 0b11;
    let rd_index = ((instr >> 8) & 0b111) as usize;
    let rd = cpu.regs[rd_index];
    let imm = instr & 0xff;
    let cin = cpu.get_status_bit(BIT_C);
    let (result, _wb, c, v_set) = if opcode == 0 {
        (imm, true, cin, false)
    } else if opcode == 1 {
        crate::arm::dp_compute(10, rd, imm, false, cin)
    } else if opcode == 2 {
        crate::arm::dp_compute(11, rd, imm, false, cin)
    } else {
        crate::arm::dp_compute(10, rd, imm, false, cin)
    };
    apply_flags(cpu, result, c, v_set);
    if opcode != 1 {
        cpu.regs[rd_index] = result;
    }
    let pc = cpu.regs[15];
    cpu.regs[15] = pc.wrapping_add(2);
    cpu.align_pc();
    proof {
        let c0 = *old(cpu);
        let rd_slot = ((instr >> 8) & 0b111) as int;
        let rd_s = c0.regs@[rd_slot];
        let imm_s = instr & 0xff;
        let cin_s = bit32(c0.cpsr(), BIT_C as u32);
        let dp = if opcode == 0 {
            (imm_s, true, cin_s, false)
        } else if opcode == 1 {
            spec_dp_compute(10, rd_s, imm_s, false, cin_s)
        } else if opcode == 2 {
            spec_dp_compute(11, rd_s, imm_s, false, cin_s)
        } else {
            spec_dp_compute(10, rd_s, imm_s, false, cin_s)
        };
        let regs1 = c0.regs@.update(31, spec_dp_flags(c0.cpsr(), dp.0, dp.2, dp.3));
        let regs2 = if opcode != 1 {
            regs1.update(rd_slot, dp.0)
        } else {
            regs1
        };
        let regs3 = regs2.update(15, regs2[15].wrapping_add(2));
        assert(cpu.regs@ =~= regs3.update(15, pc_fix(regs3[31], regs3[15])));
    }
}

/// The result, carry and sticky-overflow of one register-ALU operation;
/// register-specified shifts take their amount from the low byte of the
/// source register, as A-mode does.
pub open spec fn spec_t_alu(op: u32, rd: u32, rs: u32, cin: bool) -> (u32, bool, bool) {
    if op == 0 {
        (rd & rs, cin, false)
    } else if op == 1 {
        (rd ^ rs, cin, false)
    } else if op == 2 {
        let sh = spec_shift(0, rd, rs & 0xff, true, cin);
        (sh.0, sh.1, false)
    } else if op == 3 {
        let sh = spec_shift(1, rd, rs & 0xff, true, cin);
        (sh.0, sh.1, false)
    } else if op == 4 {
        let sh = spec_shift(2, rd, rs & 0xff, true, cin);
        (sh.0, sh.1, false)
    } else if op == 5 {
        let dp = spec_dp_compute(5, rd, rs, cin, cin);
        (dp.0, dp.2, dp.3)
    } else if op == 6 {
        let dp = spec_dp_compute(6, rd, rs, cin, cin);
        (dp.0, dp.2, dp.3)
    } else if op == 7 {
        let sh = spec_shift(3, rd, rs & 0xff, true, cin);
        (sh.0, sh.1, false)
    } else if op == 8 {
        (rd & rs, cin, false)
    } else if op == 9 {
        let dp = spec_dp_compute(3, rs, 0, cin, cin);
        (dp.0, dp.2, dp.3)
    } else if op == 10 {
        let dp = spec_dp_compute(10, rd, rs, cin, cin);
        (dp.0, dp.2, dp.3)
    } else if op == 11 {
        let dp = spec_dp_compute(11, rd, rs, cin, cin);
        (dp.0, dp.2, dp.3)
    } else if op == 12 {
        (rd | rs, cin, false)
    } else if op == 13 {
        (rd.wrapping_mul(rs), cin, false)
    } else if op == 14 {
        (rd & !rs, cin, false)
    } else {
        (!rs, cin, false)
    }
}

/// Computes one register-ALU operation.
pub fn t_alu_compute(op: u32, rd: u32, rs: u32, cin: bool) -> (r: (u32, bool, bool))
    requires
        op < 16,
    ensures
        r == spec_t_alu(op, rd, rs, cin),
{
    if op == 0 {
        (rd & rs, cin, false)
    } else if op == 1 {
        (rd ^ rs, cin, false)
    } else if op == 2 {
        let sh = shift_with_carry(0, rd, rs & 0xff, true, cin);
        (sh.0, sh.1, false)
    } else if op == 3 {
        let sh = shift_with_carry(1, rd, rs & 0xff, true, cin);
        (sh.0, sh.1, false)
    } else if op == 4 {
        let sh = shift_with_carry(2, rd, rs & 0xff, true, cin);
        (sh.0, sh.1, false)
    } else if op == 5 {
        let dp = crate::arm::dp_compute(5, rd, rs, cin, cin);
        (dp.0, dp.2, dp.3)
    } else if op == 6 {
        let dp = crate::arm::dp_compute(6, rd, rs, cin, cin);
        (dp.0, dp.2, dp.3)
    } else if op == 7 {
        let sh = shift_with_carry(3, rd, rs & 0xff, true, cin);
        (sh.0, sh.1, false)
    } else if op == 8 {
        (rd & rs, cin, false)
    } else if op == 9 {
        let dp = crate::arm::dp_compute(3, rs, 0, cin, cin);
        (dp.0, dp.2, dp.3)
    } else if op == 10 {
        let dp = crate::arm::dp_compute(10, rd, rs, cin, cin);
        (dp.0, dp.2, dp.3)
    } else if op == 11 {
        let dp = crate::arm::dp_compute(11, rd, rs, cin, cin);
        (dp.0, dp.2, dp.3)
    } else if op == 12 {
        (rd | rs, cin, false)
    } else if op == 13 {
        (rd.wrapping_mul(rs), cin, false)
    } else if op == 14 {
        (rd & !rs, cin, false)
    } else {
        (!rs, cin, false)
    }
}

/// The register-ALU transition: sixteen register-to-register operations
/// with the A-mode shifter edge cases; TST, CMP and CMN write flags only.
pub open spec fn t_alu_rel(c0: Cpu, c1: Cpu, instr: u32) -> bool {
    let op = (instr >> 6) & 0xF;
    let rd_slot = (instr & 0b111) as int;
    let rd = c0.regs@[rd_slot];
    let rs = c0.regs@[((instr >> 3) & 0b111) as int];
    let cin = bit32(c0.cpsr(), BIT_C as u32);
    let a = spec_t_alu(op, rd, rs, cin);
    let write_back = op != 8 && op != 10 && op != 11;
    let regs1 = c0.regs@.update(31, spec_dp_flags(c0.cpsr(), a.0, a.1, a.2));
    let regs2 = if write_back {
        regs1.update(rd_slot, a.0)
    } else {
        regs1
    };
    let regs3 = regs2.update(15, regs2[15].wrapping_add(2));
    &&& c1.regs@ == regs3.update(15, pc_fix(regs3[31], regs3[15]))
    &&& c1.decode_stage == c0.decode_stage
    &&& c1.execute_stage == c0.execute_stage
    &&& c1.debug == c0.debug
    &&& c1.irq_input == c0.irq_input
    &&& c1.fiq_input == c0.fiq_input
}

/// Executes a T-mode register-ALU operation.
pub fn exec_t_alu(cpu: &mut Cpu, instr: u32)
    requires
        old(cpu).wf(),
    ensures
        final(cpu).wf(),
        t_alu_rel(*old(cpu), *final(cpu), instr),
{
    let op = (instr >> 6) & 0xF;
    let rd_index = (instr & 0b111) as usize;
    let rd = cpu.regs[rd_index];
    let rs = cpu.regs[((instr >> 3) & 0b111) as usize];
    let cin = cpu.get_status_bit(BIT_C);
    let (result, c, v_set) = t_alu_compute(op, rd, rs, cin);
    apply_flags(cpu, result, c, v_set);
    if op != 8 && op != 10 && op != 11 {
        cpu.regs[rd_index] = result;
    }
    let pc = cpu.regs[15];
    cpu.regs[15] = pc.wrapping_add(2);
    cpu.align_pc();
    proof {
        let c0 = *old(cpu);
        let rd_slot = (instr & 0b111) as int;
        let a = spec_t_alu(
            op,
            c0.regs@[rd_slot],
            c0.regs@[((instr >> 3) & 0b111) as int],
            bit32(c0.cpsr(), BIT_C as u32),
        );
        let regs1 = c0.regs@.update(31, spec_dp_flags(c0.cpsr(), a.0, a.1, a.2));
        let regs2 = if op != 8 && op != 10 && op != 11 {
            regs1.update(rd_slot, a.0)
        } else {
            regs1
        };
        let regs3 = regs2.update(15, regs2[15].wrapping_add(2));
        assert(cpu.regs@ =~= regs3.update(15, pc_fix(regs3[31], regs3[15])));
    }
}

/// The high-register transition: add, compare or move between registers
/// that may name the banked upper file, or branch-and-exchange through a
/// register. Only the compare writes flags; branch-and-exchange, and any
/// add or move whose destination is the program counter, flushes the
/// pipeline.
pub open spec fn t_hi_reg_rel(c0: Cpu, c1: Cpu, instr: u32) -> bool {
    let mode = c0.spec_mode();
    let rd_slot = if bit32(instr, 7) {
        reg_slot(mode, ((instr & 0b111) + 8) as u32)
    } else {
        (instr & 0b111) as int
    };
    let rs_slot = if bit32(instr, 6) {
        reg_slot(mode, (((instr >> 3) & 0b111) + 8) as u32)
    } else {
        ((instr >> 3) & 0b111) as int
    };
    let op = (instr >> 8) & 0b11;
    let branching = op == 3 || ((op == 0 || op == 2) && rd_slot == 15);
    let regs2 = if op == 0 {
        c0.regs@.update(rd_slot, c0.regs@[rd_slot].wrapping_add(c0.regs@[rs_slot]))
    } else if op == 1 {
        let dp = spec_dp_compute(10, c0.regs@[rd_slot], c0.regs@[rs_slot], false, false);
        c0.regs@.update(31, spec_dp_flags(c0.cpsr(), dp.0, dp.2, dp.3))
    } else if op == 2 {
        c0.regs@.update(rd_slot, c0.regs@[rs_slot])
    } else {
        let rs = c0.regs@[rs_slot];
        c0.regs@.update(15, (rs - rs % 2) as u32).update(
            31,
            with_bit(c0.cpsr(), crate::cpu::BIT_T as u32, rs & 1 == 1),
        )
    };
    let regs3 = if branching {
        regs2
    } else {
        regs2.update(15, regs2[15].wrapping_add(2))
    };
    &&& c1.regs@ == regs3.update(15, pc_fix(regs3[31], regs3[15]))
    &&& c1.decode_stage == if branching {
        NOP
    } else {
        c0.decode_stage
    }
    &&& c1.execute_stage == if branching {
        NOP
    } else {
        c0.execute_stage
    }
    &&& c1.debug == c0.debug
    &&& c1.irq_input == c0.irq_input
    &&& c1.fiq_input == c0.fiq_input
}

/// Executes a T-mode high-register operation or branch-and-exchange.
#[verifier::rlimit(100)]
pub fn exec_t_hi_reg(cpu: &mut Cpu, mode: Mode, instr: u32)
    requires
        old(cpu).wf(),
        mode == old(cpu).spec_mode(),
    ensures
        final(cpu).wf(),
        t_hi_reg_rel(*old(cpu), *final(cpu), instr),
{
    let rd_index = if 1 == (instr >> 7) & 1 {
        cpu.get_register_index(mode, (instr & 0b111) + 8)
    } else {
        (instr & 0b111) as usize
    };
    let rs_index = if 1 == (instr >> 6) & 1 {
        cpu.get_register_index(mode, ((instr >> 3) & 0b111) + 8)
    } else {
        ((instr >> 3) & 0b111) as usize
    };
    let op = (instr >> 8) & 0b11;
    let mut branching = false;
    if op == 0 {
        let a = cpu.regs[rd_index];
        let b = cpu.regs[rs_index];
        cpu.regs[rd_index] = a.wrapping_add(b);
        if rd_index == 15 {
            branching = true;
            cpu.decode_stage = NOP;
            cpu.execute_stage = NOP;
        }
    } else if op == 1 {
        let a = cpu.regs[rd_index];
        let b = cpu.regs[rs_index];
        let (result, _wb, c, v_set) = crate::arm::dp_compute(10, a, b, false, false);
        apply_flags(cpu, result, c, v_set);
    } else if op == 2 {
        let b = cpu.regs[rs_index];
        cpu.regs[rd_index] = b;
        if rd_index == 15 {
            branching = true;
            cpu.decode_stage = NOP;
            cpu.execute_stage = NOP;
        }
    } else {
        let rs = cpu.regs[rs_index];
        cpu.regs[15] = rs - rs % 2;
        branching = true;
        cpu.decode_stage = NOP;
        cpu.execute_stage = NOP;
        cpu.set_thumb_bit(1 == rs & 1);
    }
    if !branching {
        let pc = cpu.regs[15];
        cpu.regs[15] = pc.wrapping_add(2);
    }
    cpu.align_pc();
    proof {
        let c0 = *old(cpu);
        let mode0 = c0.spec_mode();
        let rd_slot = if bit32(instr, 7) {
            reg_slot(mode0, ((instr & 0b111) + 8) as u32)
        } else {
            (instr & 0b111) as int
        };
        let rs_slot = if bit32(instr, 6) {
            reg_slot(mode0, (((instr >> 3) & 0b111) + 8) as u32)
        } else {
            ((instr >> 3) & 0b111) as int
        };
        let regs2 = if op == 0 {
            c0.regs@.update(rd_slot, c0.regs@[rd_slot].wrapping_add(c0.regs@[rs_slot]))
        } else if op == 1 {
            let dp = spec_dp_compute(10, c0.regs@[rd_slot], c0.regs@[rs_slot], false, false);
            c0.regs@.update(31, spec_dp_flags(c0.cpsr(), dp.0, dp.2, dp.3))
        } else if op == 2 {
            c0.regs@.update(rd_slot, c0.regs@[rs_slot])
        } else {
            let rs = c0.regs@[rs_slot];
            c0.regs@.update(15, (rs - rs % 2) as u32).update(
                31,
                with_bit(c0.cpsr(), crate::cpu::BIT_T as u32, rs & 1 == 1),
            )
        };
        let regs3 = if op == 3 || ((op == 0 || op == 2) && rd_slot == 15) {
            regs2
        } else {
            regs2.update(15, regs2[15].wrapping_add(2))
        };
        assert(cpu.regs@ =~= regs3.update(15, pc_fix(regs3[31], regs3[15])));
    }
}


/// The PC-relative-load transition: a word is read at the word-aligned
/// program counter plus a scaled eight-bit immediate.
pub open spec fn t_pc_load_rel(c0: Cpu, m0: Seq<u8>, c1: Cpu, instr: u32) -> bool {
    let pc = c0.regs@[15];
    let addr = ((instr & 0xff) << 2).wrapping_add((pc - pc % 4) as u32);
    let regs1 = c0.regs@.update(
        ((instr >> 8) & 0b111) as int,
        crate::mem::spec_read_word(m0, addr as int),
    );
    let regs3 = regs1.update(15, regs1[15].wrapping_add(2));
    &&& c1.regs@ == regs3.update(15, pc_fix(regs3[31], regs3[15]))
    &&& c1.decode_stage == c0.decode_stage
    &&& c1.execute_stage == c0.execute_stage
    &&& c1.debug == c0.debug
    &&& c1.irq_input == c0.irq_input
    &&& c1.fiq_input == c0.fiq_input
}

/// Executes a T-mode PC-relative load.
pub fn exec_t_pc_load(cpu: &mut Cpu, ram: &Mem, instr: u32)
    requires
        old(cpu).wf(),
    ensures
        final(cpu).wf(),
        t_pc_load_rel(*old(cpu), ram@, *final(cpu), instr),
{
    let rd_index = ((instr >> 8) & 0b111) as usize;
    let pc = cpu.regs[15];
    let addr = ((instr & 0xff) << 2).wrapping_add(pc - pc % 4);
    let w = ram.read_word(addr);
    cpu.regs[rd_index] = w;
    let pc2 = cpu.regs[15];
    cpu.regs[15] = pc2.wrapping_add(2);
    cpu.align_pc();
    proof {
        let c0 = *old(cpu);
        let pc_s = c0.regs@[15];
        let addr_s = ((instr & 0xff) << 2).wrapping_add((pc_s - pc_s % 4) as u32);
        let regs1 = c0.regs@.update(
            ((instr >> 8) & 0b111) as int,
            crate::mem::spec_read_word(ram@, addr_s as int),
        );
        let regs3 = regs1.update(15, regs1[15].wrapping_add(2));
        assert(cpu.regs@ =~= regs3.update(15, pc_fix(regs3[31], regs3[15])));
    }
}

/// The single-transfer transition shared by the register-offset,
/// immediate-offset, halfword and sign-extended forms: `kind` selects the
/// access width and extension, `addr` the already-computed address.
/// Word loads rotate a misaligned word right by eight bits per byte of
/// misalignment; halfword and byte stores write the low bits of the
/// source.
pub open spec fn t_transfer_regs(c0: Cpu, m0: Seq<u8>, kind: int, addr: u32, rd_slot: int) -> Seq<
    u32,
> {
    if kind == 0 {
        c0.regs@.update(
            rd_slot,
            ror32(
                crate::mem::spec_read_word(m0, addr as int - (addr as int) % 4),
                ((addr % 4) * 8) as u32,
            ),
        )
    } else if kind == 1 {
        c0.regs@.update(rd_slot, crate::mem::spec_read_byte(m0, addr as int) as u32)
    } else if kind == 2 {
        c0.regs@.update(rd_slot, crate::mem::spec_read_hw(m0, addr as int) as u32)
    } else if kind == 3 {
        c0.regs@.update(rd_slot, sext8(crate::mem::spec_read_byte(m0, addr as int)))
    } else if kind == 4 {
        c0.regs@.update(rd_slot, sext16(crate::mem::spec_read_hw(m0, addr as int)))
    } else if kind == 5 {
        c0.regs@.update(rd_slot, crate::mem::spec_read_word(m0, addr as int))
    } else {
        c0.regs@
    }
}

/// The memory after a T-mode store: `kind` 6 stores a word, 7 a byte, 8 a
/// halfword; loads leave memory unchanged.
pub open spec fn t_transfer_mem(c0: Cpu, m0: Seq<u8>, kind: int, addr: u32, rd_slot: int) -> Seq<
    u8,
> {
    let data = c0.regs@[rd_slot];
    if kind == 6 {
        crate::mem::spec_write_word(m0, addr as int, data)
    } else if kind == 7 {
        crate::mem::spec_write_byte(m0, addr as int, (data & 0xff) as u8)
    } else if kind == 8 {
        crate::mem::spec_write_hw(m0, addr as int, (data & 0xffff) as u16)
    } else {
        m0
    }
}

/// One T-mode load or store of the given kind at the given address, with
/// the program counter then advancing.
pub open spec fn t_transfer_rel(
    c0: Cpu,
    m0: Seq<u8>,
    c1: Cpu,
    m1: Seq<u8>,
    kind: int,
    addr: u32,
    rd_slot: int,
) -> bool {
    let regs1 = t_transfer_regs(c0, m0, kind, addr, rd_slot);
    let regs3 = regs1.update(15, regs1[15].wrapping_add(2));
    &&& c1.regs@ == regs3.update(15, pc_fix(regs3[31], regs3[15]))
    &&& m1 == t_transfer_mem(c0, m0, kind, addr, rd_slot)
    &&& c1.decode_stage == c0.decode_stage
    &&& c1.execute_stage == c0.execute_stage
    &&& c1.debug == c0.debug
    &&& c1.irq_input == c0.irq_input
    &&& c1.fiq_input == c0.fiq_input
}

/// Performs one T-mode load or store of the given kind.
pub fn t_transfer(cpu: &mut Cpu, ram: &mut Mem, kind: u32, addr: u32, rd_index: usize)
    requires
        old(cpu).wf(),
        kind <= 8,
        rd_index < 8,
    ensures
        final(cpu).wf(),
        t_transfer_rel(
            *old(cpu),
            old(ram)@,
            *final(cpu),
            final(ram)@,
            kind as int,
            addr,
            rd_index as int,
        ),
{
    if kind == 0 {
        let w = ram.read_word(addr - addr % 4);
        cpu.regs[rd_index] = rotate_right32(w, (addr % 4) * 8);
    } else if kind == 1 {
        let b = ram.read_byte(addr);
        cpu.regs[rd_index] = b as u32;
    } else if kind == 2 {
        let h = ram.read_halfword(addr);
        cpu.regs[rd_index] = h as u32;
    } else if kind == 3 {
        let b = ram.read_byte(addr);
        cpu.regs[rd_index] = crate::arm::sign_extend8(b);
    } else if kind == 4 {
        let h = ram.read_halfword(addr);
        cpu.regs[rd_index] = crate::arm::sign_extend16(h);
    } else if kind == 5 {
        let w = ram.read_word(addr);
        cpu.regs[rd_index] = w;
    } else if kind == 6 {
        let data = cpu.regs[rd_index];
        ram.write_word(addr, data);
    } else if kind == 7 {
        let data = cpu.regs[rd_index];
        ram.write_byte(addr, (data & 0xff) as u8);
    } else {
        let data = cpu.regs[rd_index];
        ram.write_halfword(addr, (data & 0xffff) as u16);
    }
    let pc = cpu.regs[15];
    cpu.regs[15] = pc.wrapping_add(2);
    cpu.align_pc();
    proof {
        let c0 = *old(cpu);
        let regs1 = t_transfer_regs(c0, old(ram)@, kind as int, addr, rd_index as int);
        let regs3 = regs1.update(15, regs1[15].wrapping_add(2));
        assert(cpu.regs@ =~= regs3.update(15, pc_fix(regs3[31], regs3[15])));
    }
}

/// The load-address transition: the destination takes the word-aligned
/// program counter or the stack pointer, plus a scaled immediate.
pub open spec fn t_load_addr_rel(c0: Cpu, c1: Cpu, instr: u32) -> bool {
    let mode = c0.spec_mode();
    let base = if bit32(instr, 11) {
        c0.regs@[reg_slot(mode, 13)]
    } else {
        let pc = c0.regs@[15];
        (pc - pc % 4) as u32
    };
    let regs1 = c0.regs@.update(
        ((instr >> 8) & 0b111) as int,
        ((instr & 0xff) << 2).wrapping_add(base),
    );
    let regs3 = regs1.update(15, regs1[15].wrapping_add(2));
    &&& c1.regs@ == regs3.update(15, pc_fix(regs3[31], regs3[15]))
    &&& c1.decode_stage == c0.decode_stage
    &&& c1.execute_stage == c0.execute_stage
    &&& c1.debug == c0.debug
    &&& c1.irq_input == c0.irq_input
    &&& c1.fiq_input == c0.fiq_input
}

/// Executes a T-mode load-address.
pub fn exec_t_load_addr(cpu: &mut Cpu, mode: Mode, instr: u32)
    requires
        old(cpu).wf(),
        mode == old(cpu).spec_mode(),
    ensures
        final(cpu).wf(),
        t_load_addr_rel(*old(cpu), *final(cpu), instr),
{
    let rd_index = ((instr >> 8) & 0b111) as usize;
    let base = if 1 == (instr >> 11) & 1 {
        cpu.regs[cpu.get_register_index(mode, 13)]
    } else {
        let pc = cpu.regs[15];
        pc - pc % 4
    };
    cpu.regs[rd_index] = ((instr & 0xff) << 2).wrapping_add(base);
    let pc2 = cpu.regs[15];
    cpu.regs[15] = pc2.wrapping_add(2);
    cpu.align_pc();
    proof {
        let c0 = *old(cpu);
        let mode0 = c0.spec_mode();
        let base_s = if bit32(instr, 11) {
            c0.regs@[reg_slot(mode0, 13)]
        } else {
            let pc = c0.regs@[15];
            (pc - pc % 4) as u32
        };
        let regs1 = c0.regs@.update(
            ((instr >> 8) & 0b111) as int,
            ((instr & 0xff) << 2).wrapping_add(base_s),
        );
        let regs3 = regs1.update(15, regs1[15].wrapping_add(2));
        assert(cpu.regs@ =~= regs3.update(15, pc_fix(regs3[31], regs3[15])));
    }
}

/// The stack-adjust transition: a scaled seven-bit immediate is added to
/// or subtracted from the stack pointer.
pub open spec fn t_sp_adjust_rel(c0: Cpu, c1: Cpu, instr: u32) -> bool {
    let mode = c0.spec_mode();
    let sp_slot = reg_slot(mode, 13);
    let offset = (instr & 0b111_1111) << 2;
    let regs1 = c0.regs@.update(sp_slot, if bit32(instr, 7) {
        c0.regs@[sp_slot].wrapping_sub(offset)
    } else {
        c0.regs@[sp_slot].wrapping_add(offset)
    });
    let regs3 = regs1.update(15, regs1[15].wrapping_add(2));
    &&& c1.regs@ == regs3.update(15, pc_fix(regs3[31], regs3[15]))
    &&& c1.decode_stage == c0.decode_stage
    &&& c1.execute_stage == c0.execute_stage
    &&& c1.debug == c0.debug
    &&& c1.irq_input == c0.irq_input
    &&& c1.fiq_input == c0.fiq_input
}

/// Executes a T-mode stack adjustment.
pub fn exec_t_sp_adjust(cpu: &mut Cpu, mode: Mode, instr: u32)
    requires
        old(cpu).wf(),
        mode == old(cpu).spec_mode(),
    ensures
        final(cpu).wf(),
        t_sp_adjust_rel(*old(cpu), *final(cpu), instr),
{
    let sp_index = cpu.get_register_index(mode, 13);
    let offset = (instr & 0b111_1111) << 2;
    let sp = cpu.regs[sp_index];
    cpu.regs[sp_index] = if 1 == (instr >> 7) & 1 {
        sp.wrapping_sub(offset)
    } else {
        sp.wrapping_add(offset)
    };
    let pc = cpu.regs[15];
    cpu.regs[15] = pc.wrapping_add(2);
    cpu.align_pc();
    proof {
        let c0 = *old(cpu);
        let mode0 = c0.spec_mode();
        let sp_slot = reg_slot(mode0, 13);
        let offset_s = (instr & 0b111_1111) << 2;
        let regs1 = c0.regs@.update(sp_slot, if bit32(instr, 7) {
            c0.regs@[sp_slot].wrapping_sub(offset_s)
        } else {
            c0.regs@[sp_slot].wrapping_add(offset_s)
        });
        let regs3 = regs1.update(15, regs1[15].wrapping_add(2));
        assert(cpu.regs@ =~= regs3.update(15, pc_fix(regs3[31], regs3[15])));
    }
}

/// The conditional-branch condition: the fourteen A-mode predicates; the
/// two reserved codes never branch.
pub open spec fn spec_t_cond(cpsr: u32, code: u32) -> bool {
    code < 14 && crate::cpu::spec_cond_passes(cpsr, code)
}

/// The conditional-branch transition: a sign-extended, doubled eight-bit
/// offset is added to the program counter when the condition passes;
/// otherwise only the program counter advances.
pub open spec fn t_cond_branch_rel(c0: Cpu, c1: Cpu, instr: u32) -> bool {
    let taken = spec_t_cond(c0.cpsr(), (instr >> 8) & 0xF);
    let offset = crate::shifter::asr32(instr << 24, 23);
    let regs3 = if taken {
        c0.regs@.update(15, c0.regs@[15].wrapping_add(offset))
    } else {
        c0.regs@.update(15, c0.regs@[15].wrapping_add(2))
    };
    &&& c1.regs@ == regs3.update(15, pc_fix(regs3[31], regs3[15]))
    &&& c1.decode_stage == if taken {
        NOP
    } else {
        c0.decode_stage
    }
    &&& c1.execute_stage == if taken {
        NOP
    } else {
        c0.execute_stage
    }
    &&& c1.debug == c0.debug
    &&& c1.irq_input == c0.irq_input
    &&& c1.fiq_input == c0.fiq_input
}

/// Executes a T-mode conditional branch.
pub fn exec_t_cond_branch(cpu: &mut Cpu, instr: u32)
    requires
        old(cpu).wf(),
    ensures
        final(cpu).wf(),
        t_cond_branch_rel(*old(cpu), *final(cpu), instr),
{
    let code = (instr >> 8) & 0xF;
    let taken = code < 14 && cpu.should_execute_arm(code << 28);
    proof {
        let w = code;
        assert(w < 16 ==> (w << 28) >> 28 == w) by (bit_vector);
    }
    if taken {
        let x = instr << 24;
        let offset = if 1 == (x >> 31) & 1 {
            (x >> 23) | !(!0u32 >> 23)
        } else {
            x >> 23
        };
        let pc = cpu.regs[15];
        cpu.regs[15] = pc.wrapping_add(offset);
        cpu.decode_stage = NOP;
        cpu.execute_stage = NOP;
    } else {
        let pc = cpu.regs[15];
        cpu.regs[15] = pc.wrapping_add(2);
    }
    cpu.align_pc();
    proof {
        let c0 = *old(cpu);
        let taken_s = spec_t_cond(c0.cpsr(), (instr >> 8) & 0xF);
        assert(taken == taken_s);
        let offset_s = crate::shifter::asr32(instr << 24, 23);
        let regs3 = if taken_s {
            c0.regs@.update(15, c0.regs@[15].wrapping_add(offset_s))
        } else {
            c0.regs@.update(15, c0.regs@[15].wrapping_add(2))
        };
        assert(cpu.regs@ =~= regs3.update(15, pc_fix(regs3[31], regs3[15])));
    }
}

/// The unconditional-branch transition: a sign-extended, doubled
/// eleven-bit offset is added to the program counter and the pipeline is
/// flushed.
pub open spec fn t_branch_rel(c0: Cpu, c1: Cpu, instr: u32) -> bool {
    let offset = crate::shifter::asr32(instr << 21, 20);
    let regs3 = c0.regs@.update(15, c0.regs@[15].wrapping_add(offset));
    &&& c1.regs@ == regs3.update(15, pc_fix(regs3[31], regs3[15]))
    &&& c1.decode_stage == NOP
    &&& c1.execute_stage == NOP
    &&& c1.debug == c0.debug
    &&& c1.irq_input == c0.irq_input
    &&& c1.fiq_input == c0.fiq_input
}

/// Executes a T-mode unconditional branch.
pub fn exec_t_branch(cpu: &mut Cpu, instr: u32)
    requires
        old(cpu).wf(),
    ensures
        final(cpu).wf(),
        t_branch_rel(*old(cpu), *final(cpu), instr),
{
    let x = instr << 21;
    let offset = if 1 == (x >> 31) & 1 {
        (x >> 20) | !(!0u32 >> 20)
    } else {
        x >> 20
    };
    let pc = cpu.regs[15];
    cpu.regs[15] = pc.wrapping_add(offset);
    cpu.decode_stage = NOP;
    cpu.execute_stage = NOP;
    cpu.align_pc();
    proof {
        let c0 = *old(cpu);
        let regs3 = c0.regs@.update(
            15,
            c0.regs@[15].wrapping_add(crate::shifter::asr32(instr << 21, 20)),
        );
        assert(cpu.regs@ =~= regs3.update(15, pc_fix(regs3[31], regs3[15])));
    }
}

/// The long-branch-with-link transition. The first half stores the
/// sign-extended upper offset plus the program counter in the link
/// register; the second half jumps to the link register plus the doubled
/// lower offset, leaving the return address, with its low bit set, in the
/// link register.
pub open spec fn t_long_branch_rel(c0: Cpu, c1: Cpu, instr: u32) -> bool {
    let mode = c0.spec_mode();
    let lr_slot = reg_slot(mode, 14);
    if bit32(instr, 11) {
        let upper = c0.regs@[lr_slot];
        let regs1 = c0.regs@.update(lr_slot, (c0.regs@[15].wrapping_sub(2)) | 1);
        let regs3 = regs1.update(15, upper.wrapping_add((instr << 1) & 0xfff));
        &&& c1.regs@ == regs3.update(15, pc_fix(regs3[31], regs3[15]))
        &&& c1.decode_stage == NOP
        &&& c1.execute_stage == NOP
        &&& c1.debug == c0.debug
        &&& c1.irq_input == c0.irq_input
        &&& c1.fiq_input == c0.fiq_input
    } else {
        let regs1 = c0.regs@.update(
            lr_slot,
            c0.regs@[15].wrapping_add(crate::shifter::asr32(instr << 21, 9)),
        );
        let regs3 = regs1.update(15, regs1[15].wrapping_add(2));
        &&& c1.regs@ == regs3.update(15, pc_fix(regs3[31], regs3[15]))
        &&& c1.decode_stage == c0.decode_stage
        &&& c1.execute_stage == c0.execute_stage
        &&& c1.debug == c0.debug
        &&& c1.irq_input == c0.irq_input
        &&& c1.fiq_input == c0.fiq_input
    }
}

/// Executes one half of a T-mode long branch with link.
pub fn exec_t_long_branch(cpu: &mut Cpu, mode: Mode, instr: u32)
    requires
        old(cpu).wf(),
        mode == old(cpu).spec_mode(),
    ensures
        final(cpu).wf(),
        t_long_branch_rel(*old(cpu), *final(cpu), instr),
{
    let lr_index = cpu.get_register_index(mode, 14);
    if 1 == (instr >> 11) & 1 {
        let upper = cpu.regs[lr_index];
        let pc = cpu.regs[15];
        cpu.regs[lr_index] = (pc.wrapping_sub(2)) | 1;
        cpu.regs[15] = upper.wrapping_add((instr << 1) & 0xfff);
        cpu.decode_stage = NOP;
        cpu.execute_stage = NOP;
    } else {
        let x = instr << 21;
        let offset = if 1 == (x >> 31) & 1 {
            (x >> 9) | !(!0u32 >> 9)
        } else {
            x >> 9
        };
        let pc = cpu.regs[15];
        cpu.regs[lr_index] = pc.wrapping_add(offset);
        let pc2 = cpu.regs[15];
        cpu.regs[15] = pc2.wrapping_add(2);
    }
    cpu.align_pc();
    proof {
        let c0 = *old(cpu);
        let mode0 = c0.spec_mode();
        let lr_slot = reg_slot(mode0, 14);
        if bit32(instr, 11) {
            let upper = c0.regs@[lr_slot];
            let regs1 = c0.regs@.update(lr_slot, (c0.regs@[15].wrapping_sub(2)) | 1);
            let regs3 = regs1.update(15, upper.wrapping_add((instr << 1) & 0xfff));
            assert(cpu.regs@ =~= regs3.update(15, pc_fix(regs3[31], regs3[15])));
        } else {
            let regs1 = c0.regs@.update(
                lr_slot,
                c0.regs@[15].wrapping_add(crate::shifter::asr32(instr << 21, 9)),
            );
            let regs3 = regs1.update(15, regs1[15].wrapping_add(2));
            assert(cpu.regs@ =~= regs3.update(15, pc_fix(regs3[31], regs3[15])));
        }
    }
}


/// The push/pop transition. Pop loads ascending low registers from the
/// stack, optionally follows with the program counter (flushing the
/// pipeline), and writes the final address back to the stack pointer.
/// Push first drops the stack pointer by the register count, then stores
/// the low registers ascending, optionally followed by the link register.
pub open spec fn t_push_pop_rel(c0: Cpu, m0: Seq<u8>, c1: Cpu, m1: Seq<u8>, instr: u32) -> bool {
    let mode = c0.spec_mode();
    let sp_slot = reg_slot(mode, 13);
    let sp = c0.regs@[sp_slot];
    let pc_lr = bit32(instr, 8);
    if bit32(instr, 11) {
        let after = crate::arm::ldm_step(c0.regs@, m0, mode, instr, 8, sp);
        let regs1 = if pc_lr {
            after.0.update(15, crate::mem::spec_read_word(m0, after.1 as int))
        } else {
            after.0
        };
        let addr1 = if pc_lr {
            after.1.wrapping_add(4)
        } else {
            after.1
        };
        let regs2 = regs1.update(sp_slot, addr1);
        let regs3 = if pc_lr {
            regs2
        } else {
            regs2.update(15, regs2[15].wrapping_add(2))
        };
        &&& c1.regs@ == regs3.update(15, pc_fix(regs3[31], regs3[15]))
        &&& m1 == m0
        &&& c1.decode_stage == if pc_lr {
            NOP
        } else {
            c0.decode_stage
        }
        &&& c1.execute_stage == if pc_lr {
            NOP
        } else {
            c0.execute_stage
        }
        &&& c1.debug == c0.debug
        &&& c1.irq_input == c0.irq_input
        &&& c1.fiq_input == c0.fiq_input
    } else {
        let n = (count_bits(instr, 8) + if pc_lr {
            1int
        } else {
            0int
        }) as u32;
        let addr0 = sp.wrapping_sub(n.wrapping_mul(4));
        let regs1 = c0.regs@.update(sp_slot, addr0);
        let after = crate::arm::stm_step(regs1, sp, sp_slot, m0, mode, instr, 8, addr0);
        let m2 = if pc_lr {
            crate::mem::spec_write_word(after.0, after.1 as int, regs1[reg_slot(mode, 14)])
        } else {
            after.0
        };
        let regs3 = regs1.update(15, regs1[15].wrapping_add(2));
        &&& c1.regs@ == regs3.update(15, pc_fix(regs3[31], regs3[15]))
        &&& m1 == m2
        &&& c1.decode_stage == c0.decode_stage
        &&& c1.execute_stage == c0.execute_stage
        &&& c1.debug == c0.debug
        &&& c1.irq_input == c0.irq_input
        &&& c1.fiq_input == c0.fiq_input
    }
}

/// Counts the registers named in the low eight bits of the mask.
pub fn count_low_mask(instr: u32) -> (r: u32)
    ensures
        r == count_bits(instr, 8),
        r <= 8,
{
    let mut n: u32 = 0;
    let mut b: u32 = 0;
    while b < 8
        invariant
            b <= 8,
            n == count_bits(instr, b as int),
            n <= b,
        decreases 8 - b,
    {
        if 1 == (instr >> b) & 1 {
            n = n + 1;
        }
        b = b + 1;
    }
    n
}

/// Executes a T-mode push or pop.
#[verifier::rlimit(100)]
#[verifier::loop_isolation(false)]
pub fn exec_t_push_pop(cpu: &mut Cpu, ram: &mut Mem, mode: Mode, instr: u32)
    requires
        old(cpu).wf(),
        mode == old(cpu).spec_mode(),
    ensures
        final(cpu).wf(),
        t_push_pop_rel(*old(cpu), old(ram)@, *final(cpu), final(ram)@, instr),
{
    let sp_index = cpu.get_register_index(mode, 13);
    let pc_lr = 1 == (instr >> 8) & 1;
    let ghost m0 = ram@;
    let ghost c0 = *old(cpu);
    if 1 == (instr >> 11) & 1 {
        let mut memory_address = cpu.regs[sp_index];
        let ghost sp0 = memory_address;
        let mut bit: u32 = 0;
        while bit < 8
            invariant
                bit <= 8,
                cpu.regs@.len() == 37,
                ram@ == m0,
                cpu.decode_stage == c0.decode_stage,
                cpu.execute_stage == c0.execute_stage,
                cpu.debug == c0.debug,
                cpu.irq_input == c0.irq_input,
                cpu.fiq_input == c0.fiq_input,
                (cpu.regs@, memory_address) == crate::arm::ldm_step(
                    c0.regs@,
                    m0,
                    mode,
                    instr,
                    bit as int,
                    sp0,
                ),
            decreases 8 - bit,
        {
            if 1 == (instr >> bit) & 1 {
                let w = ram.read_word(memory_address);
                cpu.regs[bit as usize] = w;
                memory_address = memory_address.wrapping_add(4);
            }
            bit = bit + 1;
        }
        if pc_lr {
            let w = ram.read_word(memory_address);
            cpu.regs[15] = w;
            memory_address = memory_address.wrapping_add(4);
            cpu.decode_stage = NOP;
            cpu.execute_stage = NOP;
        }
        cpu.regs[sp_index] = memory_address;
        if !pc_lr {
            let pc = cpu.regs[15];
            cpu.regs[15] = pc.wrapping_add(2);
        }
        cpu.align_pc();
        proof {
            let mode0 = c0.spec_mode();
            let sp_slot = reg_slot(mode0, 13);
            let after = crate::arm::ldm_step(c0.regs@, m0, mode0, instr, 8, sp0);
            let regs1 = if pc_lr {
                after.0.update(15, crate::mem::spec_read_word(m0, after.1 as int))
            } else {
                after.0
            };
            let addr1 = if pc_lr {
                after.1.wrapping_add(4)
            } else {
                after.1
            };
            let regs2 = regs1.update(sp_slot, addr1);
            let regs3 = if pc_lr {
                regs2
            } else {
                regs2.update(15, regs2[15].wrapping_add(2))
            };
            assert(cpu.regs@ =~= regs3.update(15, pc_fix(regs3[31], regs3[15])));
        }
    } else {
        let n0 = count_low_mask(instr);
        let num_regs = if pc_lr {
            n0 + 1
        } else {
            n0
        };
        let sp = cpu.regs[sp_index];
        let addr0 = sp.wrapping_sub(num_regs.wrapping_mul(4));
        cpu.regs[sp_index] = addr0;
        let ghost regs1 = cpu.regs@;
        let mut memory_address = addr0;
        let mut bit: u32 = 0;
        while bit < 8
            invariant
                bit <= 8,
                cpu.regs@ == regs1,
                cpu.regs@.len() == 37,
                cpu.decode_stage == c0.decode_stage,
                cpu.execute_stage == c0.execute_stage,
                cpu.debug == c0.debug,
                cpu.irq_input == c0.irq_input,
                cpu.fiq_input == c0.fiq_input,
                (ram@, memory_address) == crate::arm::stm_step(
                    regs1,
                    sp,
                    reg_slot(mode, 13),
                    m0,
                    mode,
                    instr,
                    bit as int,
                    addr0,
                ),
            decreases 8 - bit,
        {
            if 1 == (instr >> bit) & 1 {
                let data = cpu.regs[bit as usize];
                ram.write_word(memory_address, data);
                memory_address = memory_address.wrapping_add(4);
            }
            proof {
                crate::arm::lemma_count_bits_nonneg(instr, bit as int);
            }
            bit = bit + 1;
        }
        if pc_lr {
            let data = cpu.regs[cpu.get_register_index(mode, 14)];
            ram.write_word(memory_address, data);
        }
        let pc = cpu.regs[15];
        cpu.regs[15] = pc.wrapping_add(2);
        cpu.align_pc();
        proof {
            let regs3 = regs1.update(15, regs1[15].wrapping_add(2));
            assert(cpu.regs@ =~= regs3.update(15, pc_fix(regs3[31], regs3[15])));
        }
    }
}

/// The T-mode block-transfer transition: ascending loads or stores of the
/// low registers from a base register, which takes the final address
/// unless it was itself loaded; a stored base register stores its old
/// value when it is the lowest register in the mask.
pub open spec fn t_ldm_stm_rel(c0: Cpu, m0: Seq<u8>, c1: Cpu, m1: Seq<u8>, instr: u32) -> bool {
    let mode = c0.spec_mode();
    let rb_slot = ((instr >> 8) & 0b111) as int;
    let addr0 = c0.regs@[rb_slot];
    if bit32(instr, 11) {
        let after = crate::arm::ldm_step(c0.regs@, m0, mode, instr, 8, addr0);
        let regs1 = if (instr >> (((instr >> 8) & 0b111) as u32)) & 1 == 0 {
            after.0.update(rb_slot, after.1)
        } else {
            after.0
        };
        let regs3 = regs1.update(15, regs1[15].wrapping_add(2));
        &&& c1.regs@ == regs3.update(15, pc_fix(regs3[31], regs3[15]))
        &&& m1 == m0
        &&& c1.decode_stage == c0.decode_stage
        &&& c1.execute_stage == c0.execute_stage
        &&& c1.debug == c0.debug
        &&& c1.irq_input == c0.irq_input
        &&& c1.fiq_input == c0.fiq_input
    } else {
        let n = count_bits(instr, 8) as u32;
        let regs1 = c0.regs@.update(rb_slot, addr0.wrapping_add(n.wrapping_mul(4)));
        let after = crate::arm::stm_step(regs1, addr0, rb_slot, m0, mode, instr, 8, addr0);
        let regs3 = regs1.update(15, regs1[15].wrapping_add(2));
        &&& c1.regs@ == regs3.update(15, pc_fix(regs3[31], regs3[15]))
        &&& m1 == after.0
        &&& c1.decode_stage == c0.decode_stage
        &&& c1.execute_stage == c0.execute_stage
        &&& c1.debug == c0.debug
        &&& c1.irq_input == c0.irq_input
        &&& c1.fiq_input == c0.fiq_input
    }
}

/// Executes a T-mode block transfer.
#[verifier::rlimit(100)]
#[verifier::loop_isolation(false)]
pub fn exec_t_ldm_stm(cpu: &mut Cpu, ram: &mut Mem, mode: Mode, instr: u32)
    requires
        old(cpu).wf(),
        mode == old(cpu).spec_mode(),
    ensures
        final(cpu).wf(),
        t_ldm_stm_rel(*old(cpu), old(ram)@, *final(cpu), final(ram)@, instr),
{
    let rb_bits: u32 = (instr >> 8) & 0b111;
    let rb_index = rb_bits as usize;
    let ghost m0 = ram@;
    let ghost c0 = *old(cpu);
    let addr_start = cpu.regs[rb_index];
    let mut memory_address = addr_start;
    if 1 == (instr >> 11) & 1 {
        let mut bit: u32 = 0;
        while bit < 8
            invariant
                bit <= 8,
                cpu.regs@.len() == 37,
                ram@ == m0,
                cpu.decode_stage == c0.decode_stage,
                cpu.execute_stage == c0.execute_stage,
                cpu.debug == c0.debug,
                cpu.irq_input == c0.irq_input,
                cpu.fiq_input == c0.fiq_input,
                (cpu.regs@, memory_address) == crate::arm::ldm_step(
                    c0.regs@,
                    m0,
                    mode,
                    instr,
                    bit as int,
                    addr_start,
                ),
            decreases 8 - bit,
        {
            if 1 == (instr >> bit) & 1 {
                let w = ram.read_word(memory_address);
                cpu.regs[bit as usize] = w;
                memory_address = memory_address.wrapping_add(4);
            }
            bit = bit + 1;
        }
        if 0 == (instr >> rb_bits) & 1 {
            cpu.regs[rb_index] = memory_address;
        }
        let pc = cpu.regs[15];
        cpu.regs[15] = pc.wrapping_add(2);
        cpu.align_pc();
        proof {
            let mode0 = c0.spec_mode();
            let rb_slot = ((instr >> 8) & 0b111) as int;
            let after = crate::arm::ldm_step(c0.regs@, m0, mode0, instr, 8, addr_start);
            let regs1 = if (instr >> (((instr >> 8) & 0b111) as u32)) & 1 == 0 {
                after.0.update(rb_slot, after.1)
            } else {
                after.0
            };
            let regs3 = regs1.update(15, regs1[15].wrapping_add(2));
            assert(cpu.regs@ =~= regs3.update(15, pc_fix(regs3[31], regs3[15])));
        }
    } else {
        let n = count_low_mask(instr);
        cpu.regs[rb_index] = addr_start.wrapping_add(n.wrapping_mul(4));
        let ghost regs1 = cpu.regs@;
        let mut bit: u32 = 0;
        while bit < 8
            invariant
                bit <= 8,
                cpu.regs@ == regs1,
                cpu.regs@.len() == 37,
                cpu.decode_stage == c0.decode_stage,
                cpu.execute_stage == c0.execute_stage,
                cpu.debug == c0.debug,
                cpu.irq_input == c0.irq_input,
                cpu.fiq_input == c0.fiq_input,
                (ram@, memory_address) == crate::arm::stm_step(
                    regs1,
                    addr_start,
                    ((instr >> 8) & 0b111) as int,
                    m0,
                    mode,
                    instr,
                    bit as int,
                    addr_start,
                ),
            decreases 8 - bit,
        {
            if 1 == (instr >> bit) & 1 {
                let mut data = cpu.regs[bit as usize];
                proof {
                    crate::arm::lemma_count_bits_nonneg(instr, bit as int);
                }
                if count_low_mask_below(instr, bit) == 0 && bit as usize == rb_index {
                    data = addr_start;
                }
                ram.write_word(memory_address, data);
                memory_address = memory_address.wrapping_add(4);
            }
            bit = bit + 1;
        }
        let pc = cpu.regs[15];
        cpu.regs[15] = pc.wrapping_add(2);
        cpu.align_pc();
        proof {
            let regs3 = regs1.update(15, regs1[15].wrapping_add(2));
            assert(cpu.regs@ =~= regs3.update(15, pc_fix(regs3[31], regs3[15])));
        }
    }
}

/// Counts the set mask bits below bit `b`.
pub fn count_low_mask_below(instr: u32, b: u32) -> (r: u32)
    requires
        b <= 8,
    ensures
        r == count_bits(instr, b as int),
        r <= b,
{
    let mut n: u32 = 0;
    let mut k: u32 = 0;
    while k < b
        invariant
            b <= 8,
            k <= b,
            n == count_bits(instr, k as int),
            n <= k,
        decreases b - k,
    {
        if 1 == (instr >> k) & 1 {
            n = n + 1;
        }
        k = k + 1;
    }
    n
}

} // verus!
