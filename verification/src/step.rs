//! One processor tick: pipeline advance, interrupt sampling and entry,
//! sentinel and halt handling, and dispatch into the A-mode and T-mode
//! instruction families. `step_rel` states the whole transition.
use vstd::prelude::*;

use crate::arm::{
    block_rel, branch_rel, bx_rel, dp_rel, exec_block_transfer, exec_branch, exec_bx, exec_dp,
    exec_halfword_transfer, exec_mul, exec_psr, exec_single_transfer, exec_swap, halfword_rel,
    mul_rel, psr_rel, single_transfer_rel, swap_rel,
};
use crate::cpu::{
    bit32, exception_entry, pc_fix, spec_cond_passes, Cpu, Mode, State, BIT_F, BIT_I, NOP,
    THUMB_NOP,
};
use crate::mem::Mem;
use crate::thumb::{
    exec_t_add_sub, exec_t_alu, exec_t_branch, exec_t_cond_branch, exec_t_hi_reg, exec_t_imm_op,
    exec_t_ldm_stm, exec_t_load_addr, exec_t_long_branch, exec_t_pc_load, exec_t_push_pop,
    exec_t_shifted_move, exec_t_sp_adjust, t_add_sub_rel, t_alu_rel, t_branch_rel,
    t_cond_branch_rel, t_hi_reg_rel, t_imm_op_rel, t_ldm_stm_rel, t_load_addr_rel,
    t_long_branch_rel, t_pc_load_rel, t_push_pop_rel, t_shifted_move_rel, t_sp_adjust_rel,
    t_transfer, t_transfer_rel,
};

verus! {

broadcast use crate::cpu::lemma_and_mask_bound;

/// The interrupt-request input as sampled from memory at tick start: any
/// pending bit in the two-byte acknowledge register, with the master
/// enable set.
pub open spec fn spec_irq_in(m0: Seq<u8>) -> bool {
    crate::mem::spec_read_hw(m0, 0x4000202) != 0 && crate::mem::spec_read_byte(m0, 0x4000208)
        & 1 == 1
}

/// The address of the instruction now executing: the program counter runs
/// two fetches ahead, eight bytes in A-mode and four in T-mode.
pub open spec fn spec_pc_of(c: Cpu) -> u32 {
    let arm = c.spec_state() == State::Arm;
    if c.regs@[15] >= 8 {
        (c.regs@[15] - if arm {
            8int
        } else {
            4int
        }) as u32
    } else {
        0
    }
}

/// The processor after the pipeline advance at tick start: the decoded
/// word moves to execute, a fresh word is fetched from the program
/// counter, and the interrupt input is re-sampled from memory.
pub open spec fn advanced(c0: Cpu, m0: Seq<u8>) -> Cpu {
    Cpu {
        decode_stage: crate::mem::spec_read_word(m0, c0.regs@[15] as int),
        execute_stage: c0.decode_stage,
        irq_input: spec_irq_in(m0),
        regs: c0.regs,
        debug: c0.debug,
        fiq_input: c0.fiq_input,
    }
}

/// Whether this tick enters an exception instead of executing: a fast
/// interrupt with the F mask clear, or an interrupt request with the I
/// mask clear.
pub open spec fn spec_takes_interrupt(c0: Cpu, m0: Seq<u8>) -> bool {
    (c0.fiq_input && !bit32(c0.cpsr(), BIT_F as u32)) || (spec_irq_in(m0) && !bit32(
        c0.cpsr(),
        BIT_I as u32,
    ))
}

/// The A-mode family dispatch cases, in recognition order.
pub open spec fn arm_is_und(instr: u32) -> bool {
    ((instr >> 21) & 0b111_1111) >> 4 == 3 && (instr >> 4) & 1 == 1
}

/// Branch-and-exchange recognition: a fixed pattern over bits 27 to 4.
pub open spec fn arm_is_bx(instr: u32) -> bool {
    (instr << 4) >> 8 == 0b0001_0010_1111_1111_1111_0001
}

/// Multiply recognition.
pub open spec fn arm_is_mul(instr: u32) -> bool {
    ((instr >> 21) & 0b111_1111) >> 3 == 0 && (instr >> 4) & 0b1111 == 0b1001
}

/// Halfword-transfer recognition.
pub open spec fn arm_is_halfword(instr: u32) -> bool {
    ((instr >> 21) & 0b111_1111) >> 4 == 0 && (instr >> 5) & 0b11 != 0 && (instr >> 4) & 0b1001
        == 0b1001
}

/// Atomic-swap recognition.
pub open spec fn arm_is_swap(instr: u32) -> bool {
    ((instr >> 21) & 0b111_1111) >> 2 == 2 && (instr >> 4) & 0b1111 == 0b1001
}

/// Status-register-move recognition: a data-processing-shaped encoding
/// with the flag bit clear.
pub open spec fn arm_is_psr(instr: u32) -> bool {
    ((instr >> 21) & 0b111_1111) >> 5 == 0 && ((instr >> 21) & 0b111_1111) & 0b1100 == 0b1000
        && !bit32(instr, 20)
}

/// Data-processing recognition.
pub open spec fn arm_is_dp(instr: u32) -> bool {
    ((instr >> 21) & 0b111_1111) >> 5 == 0
}

/// Branch recognition.
pub open spec fn arm_is_branch(instr: u32) -> bool {
    ((instr >> 21) & 0b111_1111) >> 4 == 0b101
}

/// Single-transfer recognition.
pub open spec fn arm_is_single(instr: u32) -> bool {
    ((instr >> 21) & 0b111_1111) >> 5 == 1
}

/// Block-transfer recognition.
pub open spec fn arm_is_block(instr: u32) -> bool {
    ((instr >> 21) & 0b111_1111) >> 4 == 4
}

/// Software-interrupt recognition.
pub open spec fn arm_is_swi(instr: u32) -> bool {
    ((instr >> 21) & 0b111_1111) >> 3 == 15
}

/// The step transition when only the program counter advances: the
/// sentinel path and the failed-condition path.
pub open spec fn advance_only_rel(cm: Cpu, c1: Cpu, width: u32) -> bool {
    let regs3 = cm.regs@.update(15, cm.regs@[15].wrapping_add(width));
    &&& c1.regs@ == regs3.update(15, pc_fix(regs3[31], regs3[15]))
    &&& c1.decode_stage == cm.decode_stage
    &&& c1.execute_stage == cm.execute_stage
    &&& c1.debug == cm.debug
    &&& c1.irq_input == cm.irq_input
    &&& c1.fiq_input == cm.fiq_input
}

/// The A-mode dispatch relation: the families in their recognition order,
/// a fall-through that only advances, and the three exception entries.
pub open spec fn arm_dispatch_rel(cm: Cpu, m0: Seq<u8>, c1: Cpu, m1: Seq<u8>, instr: u32) -> bool {
    if !spec_cond_passes(cm.cpsr(), instr >> 28) {
        advance_only_rel(cm, c1, 4) && m1 == m0
    } else if arm_is_und(instr) {
        exception_entry(cm, c1, Mode::Und, 4, cm.regs@[15].wrapping_sub(4), false, false) && m1
            == m0
    } else if arm_is_bx(instr) {
        bx_rel(cm, c1, instr) && m1 == m0
    } else if arm_is_mul(instr) {
        mul_rel(cm, c1, instr) && m1 == m0
    } else if arm_is_halfword(instr) {
        halfword_rel(cm, m0, c1, m1, instr)
    } else if arm_is_swap(instr) {
        swap_rel(cm, m0, c1, m1, instr)
    } else if arm_is_psr(instr) {
        psr_rel(cm, c1, instr) && m1 == m0
    } else if arm_is_dp(instr) {
        dp_rel(cm, c1, instr) && m1 == m0
    } else if arm_is_branch(instr) {
        branch_rel(cm, c1, instr) && m1 == m0
    } else if arm_is_single(instr) {
        single_transfer_rel(cm, m0, c1, m1, instr)
    } else if arm_is_block(instr) {
        block_rel(cm, m0, c1, m1, instr)
    } else if arm_is_swi(instr) {
        exception_entry(cm, c1, Mode::Svc, 8, cm.regs@[15].wrapping_sub(4), false, false) && m1
            == m0
    } else {
        advance_only_rel(cm, c1, 4) && m1 == m0
    }
}

/// The T-mode dispatch relation: the families selected by the top five
/// bits of the halfword.
pub open spec fn thumb_dispatch_rel(cm: Cpu, m0: Seq<u8>, c1: Cpu, m1: Seq<u8>, t: u32) -> bool {
    let opcode = t >> 11;
    if opcode == 3 {
        t_add_sub_rel(cm, c1, t) && m1 == m0
    } else if opcode >> 2 == 0 {
        t_shifted_move_rel(cm, c1, t) && m1 == m0
    } else if opcode >> 2 == 1 {
        t_imm_op_rel(cm, c1, t) && m1 == m0
    } else if opcode == 8 && !bit32(t, 10) {
        t_alu_rel(cm, c1, t) && m1 == m0
    } else if opcode == 8 {
        t_hi_reg_rel(cm, c1, t) && m1 == m0
    } else if opcode == 9 {
        t_pc_load_rel(cm, m0, c1, t) && m1 == m0
    } else if opcode >> 1 == 5 && !bit32(t, 9) {
        let addr = cm.regs@[((t >> 3) & 0b111) as int].wrapping_add(
            cm.regs@[((t >> 6) & 0b111) as int],
        );
        let kind: int = if bit32(t, 11) {
            if bit32(t, 10) {
                1
            } else {
                0
            }
        } else {
            if bit32(t, 10) {
                7
            } else {
                6
            }
        };
        t_transfer_rel(cm, m0, c1, m1, kind, addr, (t & 0b111) as int)
    } else if opcode >> 1 == 5 {
        let addr = cm.regs@[((t >> 3) & 0b111) as int].wrapping_add(
            cm.regs@[((t >> 6) & 0b111) as int],
        );
        let op = (t >> 10) & 0b11;
        let kind: int = if op == 0 {
            8
        } else if op == 1 {
            3
        } else if op == 2 {
            2
        } else {
            4
        };
        t_transfer_rel(cm, m0, c1, m1, kind, addr, (t & 0b111) as int)
    } else if opcode >> 2 == 3 {
        let byte = bit32(t, 12);
        let offset = if byte {
            (t >> 6) & 0b11111
        } else {
            ((t >> 6) & 0b11111) << 2
        };
        let addr = cm.regs@[((t >> 3) & 0b111) as int].wrapping_add(offset);
        let kind: int = if bit32(t, 11) {
            if byte {
                1
            } else {
                0
            }
        } else {
            if byte {
                7
            } else {
                6
            }
        };
        t_transfer_rel(cm, m0, c1, m1, kind, addr, (t & 0b111) as int)
    } else if opcode >> 1 == 8 {
        let addr = cm.regs@[((t >> 3) & 0b111) as int].wrapping_add(((t >> 6) & 0b11111) << 1);
        let kind: int = if bit32(t, 11) {
            2
        } else {
            8
        };
        t_transfer_rel(cm, m0, c1, m1, kind, addr, (t & 0b111) as int)
    } else if opcode >> 1 == 9 {
        let addr = cm.regs@[crate::cpu::reg_slot(cm.spec_mode(), 13)].wrapping_add(
            (t & 0xff) << 2,
        );
        let kind: int = if bit32(t, 11) {
            5
        } else {
            6
        };
        t_transfer_rel(cm, m0, c1, m1, kind, addr, ((t >> 8) & 0b111) as int)
    } else if opcode >> 1 == 10 {
        t_load_addr_rel(cm, c1, t) && m1 == m0
    } else if opcode >> 1 == 11 && (t >> 8) & 0xF == 0 {
        t_sp_adjust_rel(cm, c1, t) && m1 == m0
    } else if opcode >> 1 == 11 {
        t_push_pop_rel(cm, m0, c1, m1, t)
    } else if opcode >> 1 == 12 {
        t_ldm_stm_rel(cm, m0, c1, m1, t)
    } else if opcode >> 1 == 13 && (t >> 8) & 0b11111 == 0b11111 {
        exception_entry(cm, c1, Mode::Svc, 8, cm.regs@[15].wrapping_sub(2), true, false) && m1
            == m0
    } else if opcode >> 1 == 13 {
        t_cond_branch_rel(cm, c1, t) && m1 == m0
    } else if opcode >> 1 == 14 {
        t_branch_rel(cm, c1, t) && m1 == m0
    } else {
        t_long_branch_rel(cm, c1, t) && m1 == m0
    }
}

/// The whole tick. An interrupt, when taken, enters its mode with the
/// return address banked and nothing executed; the do-nothing sentinel
/// only advances the program counter; a zero word halts; otherwise the
/// word in the execute stage is dispatched to its family.
pub open spec fn step_rel(c0: Cpu, m0: Seq<u8>, c1: Cpu, m1: Seq<u8>, r: Option<()>) -> bool {
    let cm = advanced(c0, m0);
    let instr = c0.execute_stage;
    let arm = c0.spec_state() == State::Arm;
    if spec_takes_interrupt(c0, m0) {
        let md = if c0.fiq_input {
            Mode::Fiq
        } else {
            Mode::Irq
        };
        let vector: u32 = if c0.fiq_input {
            0x1C
        } else {
            0x18
        };
        &&& r is Some
        &&& m1 == m0
        &&& exception_entry(
            cm,
            c1,
            md,
            vector,
            (spec_pc_of(c0) + 4) as u32,
            true,
            c0.fiq_input,
        )
    } else if instr == NOP || instr == THUMB_NOP {
        &&& r is Some
        &&& m1 == m0
        &&& c1.regs@ == cm.regs@.update(15, cm.regs@[15].wrapping_add(if arm {
            4u32
        } else {
            2u32
        }))
        &&& c1.decode_stage == cm.decode_stage
        &&& c1.execute_stage == cm.execute_stage
        &&& c1.debug == cm.debug
        &&& c1.irq_input == cm.irq_input
        &&& c1.fiq_input == cm.fiq_input
    } else if instr == 0 {
        &&& r is None
        &&& m1 == m0
        &&& c1.regs@ == cm.regs@
        &&& c1.decode_stage == cm.decode_stage
        &&& c1.execute_stage == cm.execute_stage
        &&& c1.debug == cm.debug
        &&& c1.irq_input == cm.irq_input
        &&& c1.fiq_input == cm.fiq_input
    } else if arm {
        r is Some && arm_dispatch_rel(cm, m0, c1, m1, instr)
    } else {
        r is Some && thumb_dispatch_rel(cm, m0, c1, m1, instr & 0xffff)
    }
}

impl Cpu {
    /// Advances the program counter by `width` and rounds it, leaving all
    /// else unchanged.
    fn advance_pc(&mut self, width: u32)
        requires
            old(self).regs@.len() == 37,
        ensures
            advance_only_rel(*old(self), *final(self), width),
            final(self).regs@.len() == 37,
    {
        let pc = self.regs[15];
        self.regs[15] = pc.wrapping_add(width);
        self.align_pc();
        proof {
            let regs3 = old(self).regs@.update(15, old(self).regs@[15].wrapping_add(width));
            assert(self.regs@ =~= regs3.update(15, pc_fix(regs3[31], regs3[15])));
        }
    }
}

/// Dispatches one A-mode word to its family, in recognition order; the
/// condition nibble is tested first.
#[verifier::rlimit(100)]
pub fn arm_dispatch(cpu: &mut Cpu, ram: &mut Mem, mode: Mode, instr: u32)
    requires
        old(cpu).wf(),
        mode == old(cpu).spec_mode(),
    ensures
        final(cpu).wf(),
        arm_dispatch_rel(*old(cpu), old(ram)@, *final(cpu), final(ram)@, instr),
{
    if !cpu.should_execute_arm(instr) {
        cpu.advance_pc(4);
        return ;
    }
    let opcode = (instr >> 21) & 0b111_1111;
    if opcode >> 4 == 3 && (instr >> 4) & 1 == 1 {
        let link = cpu.regs[15].wrapping_sub(4);
        cpu.enter_exception(Mode::Und, 4, link, false, false);
    } else if (instr << 4) >> 8 == 0b0001_0010_1111_1111_1111_0001 {
        exec_bx(cpu, mode, instr);
    } else if opcode >> 3 == 0 && (instr >> 4) & 0b1111 == 0b1001 {
        exec_mul(cpu, mode, instr);
    } else if opcode >> 4 == 0 && (instr >> 5) & 0b11 != 0 && (instr >> 4) & 0b1001 == 0b1001 {
        exec_halfword_transfer(cpu, ram, mode, instr);
    } else if opcode >> 2 == 2 && (instr >> 4) & 0b1111 == 0b1001 {
        exec_swap(cpu, ram, mode, instr);
    } else if opcode >> 5 == 0 && opcode & 0b1100 == 0b1000 && 1 != (instr >> 20) & 1 {
        exec_psr(cpu, mode, instr);
    } else if opcode >> 5 == 0 {
        exec_dp(cpu, mode, instr);
    } else if opcode >> 4 == 0b101 {
        exec_branch(cpu, mode, instr);
    } else if opcode >> 5 == 1 {
        exec_single_transfer(cpu, ram, mode, instr);
    } else if opcode >> 4 == 4 {
        exec_block_transfer(cpu, ram, mode, instr);
    } else if opcode >> 3 == 15 {
        let link = cpu.regs[15].wrapping_sub(4);
        cpu.enter_exception(Mode::Svc, 8, link, false, false);
    } else {
        cpu.advance_pc(4);
    }
}

/// Dispatches one T-mode halfword to its family by its top five bits.
#[verifier::rlimit(100)]
pub fn thumb_dispatch(cpu: &mut Cpu, ram: &mut Mem, mode: Mode, t: u32)
    requires
        old(cpu).wf(),
        mode == old(cpu).spec_mode(),
        t <= 0xFFFF,
    ensures
        final(cpu).wf(),
        thumb_dispatch_rel(*old(cpu), old(ram)@, *final(cpu), final(ram)@, t),
{
    let opcode = t >> 11;
    if opcode == 3 {
        exec_t_add_sub(cpu, t);
    } else if opcode >> 2 == 0 {
        proof {
            assert((t >> 11) >> 2 == 0 ==> t >> 11 < 4) by (bit_vector);
        }
        exec_t_shifted_move(cpu, t);
    } else if opcode >> 2 == 1 {
        exec_t_imm_op(cpu, t);
    } else if opcode == 8 && 1 != (t >> 10) & 1 {
        exec_t_alu(cpu, t);
    } else if opcode == 8 {
        exec_t_hi_reg(cpu, mode, t);
    } else if opcode == 9 {
        exec_t_pc_load(cpu, ram, t);
    } else if opcode >> 1 == 5 && 1 != (t >> 9) & 1 {
        let addr = cpu.regs[((t >> 3) & 0b111) as usize].wrapping_add(
            cpu.regs[((t >> 6) & 0b111) as usize],
        );
        let kind: u32 = if 1 == (t >> 11) & 1 {
            if 1 == (t >> 10) & 1 {
                1
            } else {
                0
            }
        } else {
            if 1 == (t >> 10) & 1 {
                7
            } else {
                6
            }
        };
        t_transfer(cpu, ram, kind, addr, (t & 0b111) as usize);
    } else if opcode >> 1 == 5 {
        let addr = cpu.regs[((t >> 3) & 0b111) as usize].wrapping_add(
            cpu.regs[((t >> 6) & 0b111) as usize],
        );
        let op = (t >> 10) & 0b11;
        let kind: u32 = if op == 0 {
            8
        } else if op == 1 {
            3
        } else if op == 2 {
            2
        } else {
            4
        };
        t_transfer(cpu, ram, kind, addr, (t & 0b111) as usize);
    } else if opcode >> 2 == 3 {
        let byte = 1 == (t >> 12) & 1;
        let offset = if byte {
            (t >> 6) & 0b11111
        } else {
            ((t >> 6) & 0b11111) << 2
        };
        let addr = cpu.regs[((t >> 3) & 0b111) as usize].wrapping_add(offset);
        let kind: u32 = if 1 == (t >> 11) & 1 {
            if byte {
                1
            } else {
                0
            }
        } else {
            if byte {
                7
            } else {
                6
            }
        };
        t_transfer(cpu, ram, kind, addr, (t & 0b111) as usize);
    } else if opcode >> 1 == 8 {
        let addr = cpu.regs[((t >> 3) & 0b111) as usize].wrapping_add(((t >> 6) & 0b11111) << 1);
        let kind: u32 = if 1 == (t >> 11) & 1 {
            2
        } else {
            8
        };
        t_transfer(cpu, ram, kind, addr, (t & 0b111) as usize);
    } else if opcode >> 1 == 9 {
        let sp = cpu.regs[cpu.get_register_index(mode, 13)];
        let addr = sp.wrapping_add((t & 0xff) << 2);
        let kind: u32 = if 1 == (t >> 11) & 1 {
            5
        } else {
            6
        };
        t_transfer(cpu, ram, kind, addr, ((t >> 8) & 0b111) as usize);
    } else if opcode >> 1 == 10 {
        exec_t_load_addr(cpu, mode, t);
    } else if opcode >> 1 == 11 && (t >> 8) & 0xF == 0 {
        exec_t_sp_adjust(cpu, mode, t);
    } else if opcode >> 1 == 11 {
        exec_t_push_pop(cpu, ram, mode, t);
    } else if opcode >> 1 == 12 {
        exec_t_ldm_stm(cpu, ram, mode, t);
    } else if opcode >> 1 == 13 && (t >> 8) & 0b11111 == 0b11111 {
        let link = cpu.regs[15].wrapping_sub(2);
        cpu.enter_exception(Mode::Svc, 8, link, true, false);
    } else if opcode >> 1 == 13 {
        exec_t_cond_branch(cpu, t);
    } else if opcode >> 1 == 14 {
        exec_t_branch(cpu, t);
    } else {
        exec_t_long_branch(cpu, mode, t);
    }
}

impl Cpu {
    /// One tick: advances the pipeline, samples the interrupt inputs, and
    /// either enters an exception, skips the sentinel, halts on a zero
    /// word, or executes the word in the execute stage. Returns `None`
    /// exactly on the zero-word soft halt.
    #[verifier::rlimit(100)]
    pub fn step(&mut self, ram: &mut Mem, cycle: usize) -> (r: Option<()>)
        requires
            old(self).wf(),
        ensures
            final(self).wf(),
            step_rel(*old(self), old(ram)@, *final(self), final(ram)@, r),
    {
        let ghost c0 = *old(self);
        let ghost m0 = ram@;
        let state = self.get_state();
        let mode = self.get_mode();

        let instruction = self.execute_stage;
        self.execute_stage = self.decode_stage;
        let fetched = ram.read_word(self.regs[15]);
        self.decode_stage = fetched;

        let pc = if self.regs[15] >= 8 {
            let w = self.regs[15];
            w - (if let State::Arm = state {
                8
            } else {
                4
            })
        } else {
            0
        };

        self.irq_input = ram.read_halfword(0x4000202) != 0 && ram.read_byte(0x4000208) & 1 == 1;

        proof {
            assert(*self =~= advanced(c0, m0));
            assert(pc == spec_pc_of(c0));
        }

        if (self.fiq_input && !self.get_status_bit(BIT_F)) || (self.irq_input
            && !self.get_status_bit(BIT_I)) {
            let fiq = self.fiq_input;
            let md = if fiq {
                Mode::Fiq
            } else {
                Mode::Irq
            };
            let vector: u32 = if fiq {
                0x1C
            } else {
                0x18
            };
            self.enter_exception(md, vector, pc + 4, true, fiq);
            return Some(());
        }
        if instruction == NOP || instruction == THUMB_NOP {
            let w = self.regs[15];
            self.regs[15] = w.wrapping_add(if let State::Arm = state {
                4
            } else {
                2
            });
            return Some(());
        }
        if instruction == 0 {
            return None;
        }

        if let State::Arm = state {
            arm_dispatch(self, ram, mode, instruction);
        } else {
            thumb_dispatch(self, ram, mode, instruction & 0xffff);
        }
        Some(())
    }
}


/// The program counter visible inside a handler reads two instruction
/// widths past the executing instruction: eight bytes ahead in A-mode and
/// four in T-mode. Operand reads of register 15 observe exactly this
/// value.
pub proof fn lemma_pc_visible(c: Cpu)
    requires
        c.regs@.len() == 37,
        c.regs@[15] >= 8,
    ensures
        c.spec_state() == State::Arm ==> c.regs@[15] == spec_pc_of(c) + 8,
        c.spec_state() != State::Arm ==> c.regs@[15] == spec_pc_of(c) + 4,
{
}

/// The steps whose program-counter write is not sequential fetch
/// advancement, by the same recognition chain the dispatcher uses: an
/// interrupt entry, an undefined-instruction or software-interrupt entry,
/// a branch or branch-exchange, any instruction naming the program
/// counter as a destination or write-back base, a store into the fetch
/// window, or a taken T-mode branch, stack pop of the program counter, or
/// long-branch jump.
pub open spec fn flushing_step(c0: Cpu, m0: Seq<u8>) -> bool {
    let instr = c0.execute_stage;
    let t = instr & 0xffff;
    let arm = c0.spec_state() == State::Arm;
    if spec_takes_interrupt(c0, m0) {
        true
    } else if instr == NOP || instr == THUMB_NOP || instr == 0 {
        false
    } else if arm {
        let cm = advanced(c0, m0);
        let mode = cm.spec_mode();
        if !spec_cond_passes(c0.cpsr(), instr >> 28) {
            false
        } else if arm_is_und(instr) {
            true
        } else if arm_is_bx(instr) {
            true
        } else if arm_is_mul(instr) {
            crate::cpu::reg_slot(mode, (instr >> 16) & 0xF) == 15 || ((((instr >> 21)
                & 0b111_1111) >> 2) & 1 == 1 && crate::cpu::reg_slot(mode, (instr >> 12) & 0xF)
                == 15)
        } else if arm_is_halfword(instr) {
            (bit32(instr, 20) && crate::cpu::reg_slot(mode, (instr >> 12) & 0xF) == 15) || ((
            bit32(instr, 21) || !bit32(instr, 24)) && crate::cpu::reg_slot(
                mode,
                (instr >> 16) & 0xF,
            ) == 15)
        } else if arm_is_swap(instr) {
            crate::cpu::reg_slot(mode, (instr >> 12) & 0xF) == 15
        } else if arm_is_psr(instr) {
            ((instr >> 21) & 0b111_1111) & 1 != 1 && crate::cpu::reg_slot(
                mode,
                (instr >> 12) & 0xF,
            ) == 15
        } else if arm_is_dp(instr) {
            (instr >> 12) & 0xF == 15 && (instr >> 21) & 0xF != 8 && (instr >> 21) & 0xF != 9
                && (instr >> 21) & 0xF != 10 && (instr >> 21) & 0xF != 11
        } else if arm_is_branch(instr) {
            true
        } else if arm_is_single(instr) {
            let rn_slot = crate::cpu::reg_slot(mode, (instr >> 16) & 0xF);
            let rn = cm.regs@[rn_slot];
            let offset = crate::arm::spec_ls_offset(cm, instr);
            let offset_address = if bit32(instr, 23) {
                rn.wrapping_add(offset)
            } else {
                rn.wrapping_sub(offset)
            };
            let addr = if bit32(instr, 24) {
                offset_address
            } else {
                rn
            };
            let load = bit32(instr, 20);
            let self_mod = !load && (addr == cm.regs@[15].wrapping_sub(4) || addr
                == cm.regs@[15]);
            (load && crate::cpu::reg_slot(mode, (instr >> 12) & 0xF) == 15) || self_mod || ((
            bit32(instr, 21) || !bit32(instr, 24)) && rn_slot == 15)
        } else if arm_is_block(instr) {
            (bit32(instr, 20) && bit32(instr, 15)) || (bit32(instr, 21) && crate::cpu::reg_slot(
                mode,
                (instr >> 16) & 0xF,
            ) == 15)
        } else if arm_is_swi(instr) {
            true
        } else {
            false
        }
    } else {
        let opcode = t >> 11;
        if opcode == 3 || opcode >> 2 == 0 || opcode >> 2 == 1 {
            false
        } else if opcode == 8 && !bit32(t, 10) {
            false
        } else if opcode == 8 {
            (t >> 8) & 0b11 == 3 || (((t >> 8) & 0b11 == 0 || (t >> 8) & 0b11 == 2) && bit32(
                t,
                7,
            ) && t & 0b111 == 0b111)
        } else if opcode == 9 || opcode >> 1 == 5 || opcode >> 2 == 3 || opcode >> 1 == 8
            || opcode >> 1 == 9 || opcode >> 1 == 10 {
            false
        } else if opcode >> 1 == 11 && (t >> 8) & 0xF == 0 {
            false
        } else if opcode >> 1 == 11 {
            bit32(t, 11) && bit32(t, 8)
        } else if opcode >> 1 == 12 {
            false
        } else if opcode >> 1 == 13 && (t >> 8) & 0b11111 == 0b11111 {
            true
        } else if opcode >> 1 == 13 {
            crate::thumb::spec_t_cond(c0.cpsr(), (t >> 8) & 0xF)
        } else if opcode >> 1 == 14 {
            true
        } else {
            bit32(t, 11)
        }
    }
}

/// After any write to the program counter that is not sequential fetch
/// advancement, both pipeline slots hold the do-nothing sentinel: every
/// flushing step leaves the pipeline holding two bubbles.
pub proof fn lemma_flush_on_pc_write(c0: Cpu, m0: Seq<u8>, c1: Cpu, m1: Seq<u8>, r: Option<()>)
    requires
        step_rel(c0, m0, c1, m1, r),
        flushing_step(c0, m0),
    ensures
        c1.decode_stage == NOP,
        c1.execute_stage == NOP,
{
    let cm = advanced(c0, m0);
    let instr = c0.execute_stage;
    if !spec_takes_interrupt(c0, m0) && c0.spec_state() == State::Arm && !arm_is_und(instr)
        && !arm_is_bx(instr) && !arm_is_mul(instr) && !arm_is_halfword(instr) && !arm_is_swap(
        instr,
    ) && !arm_is_psr(instr) && arm_is_dp(instr) && spec_cond_passes(c0.cpsr(), instr >> 28)
        && instr != NOP && instr != THUMB_NOP && instr != 0 {
        let mode = cm.spec_mode();
        assert(crate::cpu::reg_slot(mode, (instr >> 12) & 0xF) == 15);
    }
}

} // verus!
