//! Processor state: the 37-slot banked register file, the two-word
//! prefetch pipeline, privilege modes, status-word access and exception
//! entry.
//!
//! Slots 0-15 are the user-visible registers (15 is the program counter),
//! 16-20 bank registers 8-12 for fast-interrupt mode, 21-30 bank the stack
//! pointer and link register of the five privileged modes, 31 is the
//! current status word and 32-36 the five saved status words.
use vstd::prelude::*;

verus! {

/// Register-file slot of the current program status word.
pub const REG_CPSR: usize = 31;

/// Saved-status slot for fast-interrupt mode.
pub const REG_SPSR_FIQ: usize = 32;

/// Saved-status slot for supervisor mode.
pub const REG_SPSR_SVC: usize = 33;

/// Saved-status slot for abort mode.
pub const REG_SPSR_ABT: usize = 34;

/// Saved-status slot for interrupt mode.
pub const REG_SPSR_IRQ: usize = 35;

/// Saved-status slot for undefined mode.
pub const REG_SPSR_UND: usize = 36;

/// Overflow flag bit of the status word.
pub const BIT_V: u8 = 28;

/// Carry flag bit of the status word.
pub const BIT_C: u8 = 29;

/// Zero flag bit of the status word.
pub const BIT_Z: u8 = 30;

/// Negative flag bit of the status word.
pub const BIT_N: u8 = 31;

/// Normal-interrupt mask bit of the status word.
pub const BIT_I: u8 = 7;

/// Fast-interrupt mask bit of the status word.
pub const BIT_F: u8 = 6;

/// Instruction-set state bit of the status word.
pub const BIT_T: u8 = 5;

/// The architectural do-nothing word in A-mode (`MOV R0, R0`).
pub const NOP: u32 = 0xE1A00000;

/// The architectural do-nothing word in T-mode.
pub const THUMB_NOP: u32 = 0x46C0;

/// The processor: register file, prefetch pipeline and interrupt inputs.
pub struct Cpu {
    pub regs: Vec<u32>,
    pub decode_stage: u32,
    pub execute_stage: u32,
    pub debug: bool,
    pub irq_input: bool,
    pub fiq_input: bool,
}

/// The seven privilege modes.
#[derive(Copy, Clone, PartialEq, Eq, Structural, Debug)]
pub enum Mode {
    User,
    Svc,
    Irq,
    Fiq,
    Und,
    Abt,
    Sys,
}

/// The two instruction-set states: A-mode (32-bit words) and T-mode
/// (16-bit halfwords).
#[derive(Copy, Clone, PartialEq, Eq, Structural, Debug)]
pub enum State {
    Arm,
    Thumb,
}

/// Whether bit `b` of `w` is set.
pub open spec fn bit32(w: u32, b: u32) -> bool {
    (w >> b) & 1 == 1
}

/// Masking can only lower a value: `x & m <= m`. Broadcast so that the
/// bit-field extractions all over the decoder stay in range.
pub broadcast proof fn lemma_and_mask_bound(x: u32, m: u32)
    ensures
        #[trigger] (x & m) <= m,
{
    assert(x & m <= m) by (bit_vector);
}

/// Masking with `m` also bounds 16-bit fields: `x & m <= m`.
pub broadcast proof fn lemma_and_mask_bound_u16(x: u16, m: u16)
    ensures
        #[trigger] (x & m) <= m,
{
    assert(x & m <= m) by (bit_vector);
}

/// `w` with bit `b` forced to `high`.
pub open spec fn with_bit(w: u32, b: u32, high: bool) -> u32 {
    if high {
        w | (1u32 << b)
    } else {
        w & !(1u32 << b)
    }
}

/// The fixed mode encoding held in the low five status-word bits.
pub open spec fn spec_mode_bits(mode: Mode) -> u32 {
    match mode {
        Mode::User => 0b10000,
        Mode::Fiq => 0b10001,
        Mode::Irq => 0b10010,
        Mode::Svc => 0b10011,
        Mode::Abt => 0b10111,
        Mode::Und => 0b11011,
        Mode::Sys => 0b11111,
    }
}

/// Whether the low five bits of a status word encode a mode.
pub open spec fn valid_mode_bits(b: u32) -> bool {
    b == 0b10000 || b == 0b10001 || b == 0b10010 || b == 0b10011 || b == 0b10111 || b == 0b11011
        || b == 0b11111
}

/// The mode encoded by a status word; bit patterns that encode no mode
/// read as system mode, which shares the user-mode register file.
pub open spec fn spec_mode_of(cpsr: u32) -> Mode {
    let b = cpsr & 0b11111;
    if b == 0b10000 {
        Mode::User
    } else if b == 0b10001 {
        Mode::Fiq
    } else if b == 0b10010 {
        Mode::Irq
    } else if b == 0b10011 {
        Mode::Svc
    } else if b == 0b10111 {
        Mode::Abt
    } else if b == 0b11011 {
        Mode::Und
    } else {
        Mode::Sys
    }
}

/// The instruction-set state encoded by a status word.
pub open spec fn spec_state_of(cpsr: u32) -> State {
    if cpsr & 0b100000 == 0 {
        State::Arm
    } else {
        State::Thumb
    }
}

/// The register-file slot backing logical register `index` in `mode`.
pub open spec fn reg_slot(mode: Mode, index: u32) -> int {
    if 8 <= index <= 12 && mode == Mode::Fiq {
        index - 8 + 16
    } else if index == 13 || index == 14 {
        match mode {
            Mode::User | Mode::Sys => index as int,
            Mode::Fiq => index - 13 + 21,
            Mode::Svc => index - 13 + 23,
            Mode::Abt => index - 13 + 25,
            Mode::Irq => index - 13 + 27,
            Mode::Und => index - 13 + 29,
        }
    } else {
        index as int
    }
}

/// The slot holding the saved status word of `mode`; user and system mode
/// alias the current status word.
pub open spec fn psr_slot(mode: Mode) -> int {
    match mode {
        Mode::User | Mode::Sys => 31,
        Mode::Svc => 33,
        Mode::Irq => 35,
        Mode::Fiq => 32,
        Mode::Und => 36,
        Mode::Abt => 34,
    }
}

/// The fifteen condition predicates over the {N,Z,C,V} flags, selected by
/// the top instruction nibble; the reserved sixteenth code never passes.
pub open spec fn spec_cond_passes(cpsr: u32, code: u32) -> bool {
    let n = bit32(cpsr, 31);
    let z = bit32(cpsr, 30);
    let c = bit32(cpsr, 29);
    let v = bit32(cpsr, 28);
    if code == 0 {
        z
    } else if code == 1 {
        !z
    } else if code == 2 {
        c
    } else if code == 3 {
        !c
    } else if code == 4 {
        n
    } else if code == 5 {
        !n
    } else if code == 6 {
        v
    } else if code == 7 {
        !v
    } else if code == 8 {
        c && !z
    } else if code == 9 {
        !c || z
    } else if code == 10 {
        n == v
    } else if code == 11 {
        n != v
    } else if code == 12 {
        !z && n == v
    } else if code == 13 {
        z || n != v
    } else if code == 14 {
        true
    } else {
        false
    }
}

impl Cpu {
    /// Well-formedness: the register file has its 37 slots.
    pub open spec fn wf(&self) -> bool {
        self.regs@.len() == 37
    }

    /// The current program status word.
    pub open spec fn cpsr(&self) -> u32 {
        self.regs@[31]
    }

    /// The current privilege mode.
    pub open spec fn spec_mode(&self) -> Mode {
        spec_mode_of(self.cpsr())
    }

    /// The current instruction-set state.
    pub open spec fn spec_state(&self) -> State {
        spec_state_of(self.cpsr())
    }

    /// The value of logical register `index` as seen in `mode`.
    pub open spec fn reg(&self, mode: Mode, index: u32) -> u32 {
        self.regs@[reg_slot(mode, index)]
    }

    /// A fresh processor: zeroed register file, pipeline holding the
    /// do-nothing sentinel. The zeroed status word does not yet encode a
    /// mode: `reset` establishes well-formedness.
    pub fn new() -> (r: Self)
        ensures
            r.regs@.len() == 37,
            forall|i: int| 0 <= i < 37 ==> r.regs@[i] == 0,
            r.decode_stage == NOP,
            r.execute_stage == NOP,
            r.debug == false,
            r.irq_input == false,
            r.fiq_input == false,
    {
        let mut regs: Vec<u32> = Vec::new();
        let mut n: usize = 0;
        while n < 37
            invariant
                n <= 37,
                regs@.len() == n,
                forall|i: int| 0 <= i < n ==> regs@[i] == 0,
            decreases 37 - n,
        {
            regs.push(0);
            n = n + 1;
        }
        Cpu { regs, decode_stage: NOP, execute_stage: NOP, debug: false, irq_input: false, fiq_input: false }
    }

    /// Reset: saves the status word and program counter into the supervisor
    /// bank, enters supervisor mode with interrupts masked, and restarts at
    /// address zero.
    pub fn reset(&mut self)
        requires
            old(self).regs@.len() == 37,
        ensures
            final(self).wf(),
            final(self).regs@ == old(self).regs@.update(REG_SPSR_SVC as int, old(self).cpsr())
                .update(24, old(self).regs@[15]).update(REG_CPSR as int, 0b11010011u32).update(
                15,
                0u32,
            ),
            final(self).decode_stage == old(self).decode_stage,
            final(self).execute_stage == old(self).execute_stage,
            final(self).debug == old(self).debug,
            final(self).irq_input == old(self).irq_input,
            final(self).fiq_input == old(self).fiq_input,
    {
        let saved = self.regs[REG_CPSR];
        self.regs[REG_SPSR_SVC] = saved;
        let pc = self.regs[15];
        self.regs[24] = pc;
        self.regs[REG_CPSR] = 0b11010011;
        self.regs[15] = 0;
        proof {
            assert(valid_mode_bits(0b11010011u32 & 0b11111)) by (bit_vector);
        }
    }

    /// Toggles instruction tracing.
    pub fn toggle_debug(&mut self)
        ensures
            final(self).debug == !old(self).debug,
            final(self).regs@ == old(self).regs@,
            final(self).decode_stage == old(self).decode_stage,
            final(self).execute_stage == old(self).execute_stage,
            final(self).irq_input == old(self).irq_input,
            final(self).fiq_input == old(self).fiq_input,
    {
        self.debug = !self.debug;
    }

    /// Raises the fast-interrupt input.
    pub fn fiq(&mut self)
        ensures
            final(self).fiq_input == true,
            final(self).regs@ == old(self).regs@,
            final(self).decode_stage == old(self).decode_stage,
            final(self).execute_stage == old(self).execute_stage,
            final(self).debug == old(self).debug,
            final(self).irq_input == old(self).irq_input,
    {
        self.fiq_input = true;
    }

    /// The backing slot of logical register `index` in `mode`.
    pub fn get_register_index(&self, mode: Mode, index: u32) -> (r: usize)
        requires
            index < 16,
        ensures
            r == reg_slot(mode, index),
            r < 31,
    {
        if 8 <= index && index <= 12 && mode == Mode::Fiq {
            (index - 8 + 16) as usize
        } else if index == 13 || index == 14 {
            match mode {
                Mode::User | Mode::Sys => index as usize,
                Mode::Fiq => (index - 13 + 21) as usize,
                Mode::Svc => (index - 13 + 23) as usize,
                Mode::Abt => (index - 13 + 25) as usize,
                Mode::Irq => (index - 13 + 27) as usize,
                Mode::Und => (index - 13 + 29) as usize,
            }
        } else {
            index as usize
        }
    }

    /// The saved-status slot of `mode`.
    pub fn get_psr_index(&self, mode: Mode) -> (r: usize)
        ensures
            r == psr_slot(mode),
            31 <= r < 37,
    {
        match mode {
            Mode::User | Mode::Sys => REG_CPSR,
            Mode::Svc => REG_SPSR_SVC,
            Mode::Irq => REG_SPSR_IRQ,
            Mode::Fiq => REG_SPSR_FIQ,
            Mode::Und => REG_SPSR_UND,
            Mode::Abt => REG_SPSR_ABT,
        }
    }

    /// Whether bit `bit` of the status word is set.
    pub fn get_status_bit(&self, bit: u8) -> (r: bool)
        requires
            self.regs@.len() == 37,
            bit < 32,
        ensures
            r == bit32(self.cpsr(), bit as u32),
    {
        1 == (self.regs[REG_CPSR] >> (bit as u32)) & 1
    }

    /// Forces bit `bit` of the status word to `high`.
    pub fn set_status_bit(&mut self, bit: u8, high: bool)
        requires
            old(self).regs@.len() == 37,
            bit < 32,
        ensures
            final(self).regs@ == old(self).regs@.update(
                31,
                with_bit(old(self).cpsr(), bit as u32, high),
            ),
            final(self).decode_stage == old(self).decode_stage,
            final(self).execute_stage == old(self).execute_stage,
            final(self).debug == old(self).debug,
            final(self).irq_input == old(self).irq_input,
            final(self).fiq_input == old(self).fiq_input,
    {
        if high {
            let v = self.regs[REG_CPSR];
            self.regs[REG_CPSR] = v | (1u32 << (bit as u32));
        } else {
            let v = self.regs[REG_CPSR];
            self.regs[REG_CPSR] = v & !(1u32 << (bit as u32));
        }
    }

    /// The current privilege mode, decoded from the status word.
    pub fn get_mode(&self) -> (r: Mode)
        requires
            self.regs@.len() == 37,
        ensures
            r == self.spec_mode(),
    {
        let b = self.regs[REG_CPSR] & 0b11111;
        if b == 0b10000 {
            Mode::User
        } else if b == 0b10001 {
            Mode::Fiq
        } else if b == 0b10010 {
            Mode::Irq
        } else if b == 0b10011 {
            Mode::Svc
        } else if b == 0b10111 {
            Mode::Abt
        } else if b == 0b11011 {
            Mode::Und
        } else {
            Mode::Sys
        }
    }

    /// Writes the mode encoding into the low five status-word bits.
    pub fn set_mode(&mut self, mode: Mode)
        requires
            old(self).regs@.len() == 37,
        ensures
            final(self).regs@ == old(self).regs@.update(
                31,
                (old(self).cpsr() & !0b11111u32) | spec_mode_bits(mode),
            ),
            final(self).decode_stage == old(self).decode_stage,
            final(self).execute_stage == old(self).execute_stage,
            final(self).debug == old(self).debug,
            final(self).irq_input == old(self).irq_input,
            final(self).fiq_input == old(self).fiq_input,
            valid_mode_bits(final(self).cpsr() & 0b11111),
            final(self).spec_mode() == mode,
    {
        let bits: u32 = match mode {
            Mode::User => 0b10000,
            Mode::Fiq => 0b10001,
            Mode::Irq => 0b10010,
            Mode::Svc => 0b10011,
            Mode::Abt => 0b10111,
            Mode::Und => 0b11011,
            Mode::Sys => 0b11111,
        };
        let v = self.regs[REG_CPSR];
        self.regs[REG_CPSR] = (v & !0b11111u32) | bits;
        proof {
            let w = old(self).cpsr();
            let b = bits;
            assert(b < 32 ==> ((w & !0b11111u32) | b) & 0b11111 == b) by (bit_vector);
        }
    }

    /// The current instruction-set state, read from the T bit.
    pub fn get_state(&self) -> (r: State)
        requires
            self.regs@.len() == 37,
        ensures
            r == self.spec_state(),
    {
        if self.regs[REG_CPSR] & 0b100000 == 0 {
            State::Arm
        } else {
            State::Thumb
        }
    }

    /// Sets the instruction-set state by writing the T bit.
    pub fn set_state(&mut self, state: State)
        requires
            old(self).regs@.len() == 37,
        ensures
            final(self).regs@ == old(self).regs@.update(
                31,
                with_bit(old(self).cpsr(), BIT_T as u32, state == State::Thumb),
            ),
            final(self).decode_stage == old(self).decode_stage,
            final(self).execute_stage == old(self).execute_stage,
            final(self).debug == old(self).debug,
            final(self).irq_input == old(self).irq_input,
            final(self).fiq_input == old(self).fiq_input,
    {
        self.set_status_bit(BIT_T, state == State::Thumb);
    }

    /// Sets the instruction-set state from a branch-exchange target's low
    /// bit.
    pub fn set_thumb_bit(&mut self, thumb: bool)
        requires
            old(self).regs@.len() == 37,
        ensures
            final(self).regs@ == old(self).regs@.update(
                31,
                with_bit(old(self).cpsr(), BIT_T as u32, thumb),
            ),
            final(self).decode_stage == old(self).decode_stage,
            final(self).execute_stage == old(self).execute_stage,
            final(self).debug == old(self).debug,
            final(self).irq_input == old(self).irq_input,
            final(self).fiq_input == old(self).fiq_input,
    {
        self.set_status_bit(BIT_T, thumb);
    }

    /// Whether the condition nibble of an A-mode instruction passes against
    /// the current flags.
    pub fn should_execute_arm(&self, instruction: u32) -> (r: bool)
        requires
            self.regs@.len() == 37,
        ensures
            r == spec_cond_passes(self.cpsr(), instruction >> 28),
    {
        let v = 1 == (self.regs[REG_CPSR] >> 28) & 1;
        let c = 1 == (self.regs[REG_CPSR] >> 29) & 1;
        let z = 1 == (self.regs[REG_CPSR] >> 30) & 1;
        let n = 1 == (self.regs[REG_CPSR] >> 31) & 1;
        let code = instruction >> 28;
        if code == 0b0000 {
            z
        } else if code == 0b0001 {
            !z
        } else if code == 0b0010 {
            c
        } else if code == 0b0011 {
            !c
        } else if code == 0b0100 {
            n
        } else if code == 0b0101 {
            !n
        } else if code == 0b0110 {
            v
        } else if code == 0b0111 {
            !v
        } else if code == 0b1000 {
            c && !z
        } else if code == 0b1001 {
            !c || z
        } else if code == 0b1010 {
            n == v
        } else if code == 0b1011 {
            n != v
        } else if code == 0b1100 {
            !z && (n == v)
        } else if code == 0b1101 {
            z || (n != v)
        } else if code == 0b1110 {
            true
        } else {
            false
        }
    }
}

/// The status word after an exception entry into `mode`: the mode bits are
/// replaced, the T bit cleared when `to_arm` holds, the I mask set, and the
/// F mask set too when `set_f` holds.
pub open spec fn entry_cpsr(cpsr0: u32, mode: Mode, to_arm: bool, set_f: bool) -> u32 {
    let w1 = (cpsr0 & !0b11111u32) | spec_mode_bits(mode);
    let w2 = if to_arm {
        with_bit(w1, BIT_T as u32, false)
    } else {
        w1
    };
    let w3 = with_bit(w2, BIT_I as u32, true);
    if set_f {
        with_bit(w3, BIT_F as u32, true)
    } else {
        w3
    }
}

/// `x` rounded down to the instruction width of the state that `cpsr`
/// encodes: four bytes in A-mode, two in T-mode. This fix-up is applied
/// to the program counter after every executed instruction, so a write
/// that violates alignment is silently rounded down.
pub open spec fn pc_fix(cpsr: u32, x: u32) -> u32 {
    if cpsr & 0b100000 == 0 {
        (x - x % 4) as u32
    } else {
        (x - x % 2) as u32
    }
}

impl Cpu {
    /// Rounds the program counter down to the instruction width of the
    /// current state, as the pipeline does after every executed
    /// instruction.
    pub fn align_pc(&mut self)
        requires
            old(self).regs@.len() == 37,
        ensures
            final(self).regs@ == old(self).regs@.update(
                15,
                pc_fix(old(self).regs@[31], old(self).regs@[15]),
            ),
            final(self).decode_stage == old(self).decode_stage,
            final(self).execute_stage == old(self).execute_stage,
            final(self).debug == old(self).debug,
            final(self).irq_input == old(self).irq_input,
            final(self).fiq_input == old(self).fiq_input,
    {
        let v = self.regs[15];
        if self.regs[REG_CPSR] & 0b100000 == 0 {
            self.regs[15] = v - v % 4;
        } else {
            self.regs[15] = v - v % 2;
        }
        proof {
            assert(self.regs@ =~= old(self).regs@.update(
                15,
                pc_fix(old(self).regs@[31], old(self).regs@[15]),
            ));
        }
    }
}

/// The status word produced by an exception entry still carries the target
/// mode in its low five bits, and the T bit is clear when the entry forces
/// A-mode.
pub proof fn lemma_entry_cpsr_mode(cpsr0: u32, mode: Mode, to_arm: bool, set_f: bool)
    ensures
        entry_cpsr(cpsr0, mode, to_arm, set_f) & 0b11111 == spec_mode_bits(mode),
        to_arm ==> entry_cpsr(cpsr0, mode, to_arm, set_f) & 0b100000 == 0,
{
    let b = spec_mode_bits(mode);
    let w = cpsr0;
    assert({
        &&& (((w & !0b11111u32) | b) | (1u32 << 7)) & 0b11111 == b
        &&& ((((w & !0b11111u32) | b) | (1u32 << 7)) | (1u32 << 6)) & 0b11111 == b
        &&& ((((w & !0b11111u32) | b) & !(1u32 << 5)) | (1u32 << 7)) & 0b11111 == b
        &&& (((((w & !0b11111u32) | b) & !(1u32 << 5)) | (1u32 << 7)) | (1u32 << 6)) & 0b11111
            == b
        &&& ((((w & !0b11111u32) | b) & !(1u32 << 5)) | (1u32 << 7)) & 0b100000 == 0
        &&& (((((w & !0b11111u32) | b) & !(1u32 << 5)) | (1u32 << 7)) | (1u32 << 6)) & 0b100000
            == 0
    }) by (bit_vector)
        requires
            b <= 0b11111,
    ;
}

/// The exception-entry transition: the old status word is saved into the
/// target mode's saved-status slot, the return address into its banked link
/// register, the pipeline is flushed, and execution restarts at `vector`.
/// Every other register-file slot is unchanged.
pub open spec fn exception_entry(
    c0: Cpu,
    c1: Cpu,
    mode: Mode,
    vector: u32,
    link: u32,
    to_arm: bool,
    set_f: bool,
) -> bool {
    &&& c1.regs@.len() == 37
    &&& c1.regs@[psr_slot(mode)] == c0.cpsr()
    &&& c1.regs@[reg_slot(mode, 14)] == link
    &&& c1.regs@[31] == entry_cpsr(c0.cpsr(), mode, to_arm, set_f)
    &&& c1.regs@[15] == vector
    &&& forall|i: int|
        0 <= i < 37 && i != psr_slot(mode) && i != reg_slot(mode, 14) && i != 31 && i != 15
            ==> c1.regs@[i] == c0.regs@[i]
    &&& c1.decode_stage == NOP
    &&& c1.execute_stage == NOP
    &&& c1.debug == c0.debug
    &&& c1.irq_input == c0.irq_input
    &&& c1.fiq_input == c0.fiq_input
}

impl Cpu {
    /// Enters an exception: saves the status word, banks the return
    /// address, switches mode, masks interrupts, flushes the pipeline and
    /// jumps to the vector.
    pub fn enter_exception(&mut self, mode: Mode, vector: u32, link: u32, to_arm: bool, set_f: bool)
        requires
            old(self).regs@.len() == 37,
            mode != Mode::User && mode != Mode::Sys,
        ensures
            exception_entry(*old(self), *final(self), mode, vector, link, to_arm, set_f),
            final(self).spec_mode() == mode,
            valid_mode_bits(final(self).cpsr() & 0b11111),
    {
        let cpsr0 = self.regs[REG_CPSR];
        let psr_idx = self.get_psr_index(mode);
        self.regs[psr_idx] = cpsr0;
        let lr_idx = self.get_register_index(mode, 14);
        self.regs[lr_idx] = link;
        self.set_mode(mode);
        if to_arm {
            self.set_state(State::Arm);
        }
        self.decode_stage = NOP;
        self.execute_stage = NOP;
        self.regs[15] = vector;
        self.set_status_bit(BIT_I, true);
        if set_f {
            self.set_status_bit(BIT_F, true);
        }
        proof {
            lemma_entry_cpsr_mode(old(self).cpsr(), mode, to_arm, set_f);
        }
    }
}

/// Entering and leaving a privileged mode preserves the user-mode values of
/// R13 and R14: exception entry into a privileged mode touches only that
/// mode's banked slots, never slots 13 and 14, which user and system mode
/// read.
pub proof fn lemma_banking_preserves_user_regs(
    c0: Cpu,
    c1: Cpu,
    mode: Mode,
    vector: u32,
    link: u32,
    to_arm: bool,
    set_f: bool,
)
    requires
        c0.regs@.len() == 37,
        mode != Mode::User && mode != Mode::Sys,
        exception_entry(c0, c1, mode, vector, link, to_arm, set_f),
    ensures
        c1.reg(Mode::User, 13) == c0.reg(Mode::User, 13),
        c1.reg(Mode::User, 14) == c0.reg(Mode::User, 14),
        forall|i: u32| 0 <= i < 13 && !(8 <= i && mode == Mode::Fiq) ==> c1.reg(Mode::User, i)
            == c0.reg(Mode::User, i),
{
}

/// An exception entry leaves the pre-exception status word in the target
/// mode's saved-status slot, so a later copy of that slot back into the
/// status word restores it exactly.
pub proof fn lemma_saved_status_round_trip(
    c0: Cpu,
    c1: Cpu,
    mode: Mode,
    vector: u32,
    link: u32,
    to_arm: bool,
    set_f: bool,
)
    requires
        c0.regs@.len() == 37,
        mode != Mode::User && mode != Mode::Sys,
        exception_entry(c0, c1, mode, vector, link, to_arm, set_f),
    ensures
        c1.regs@[psr_slot(spec_mode_of(c1.cpsr()))] == c0.cpsr(),
{
    lemma_entry_cpsr_mode(c0.cpsr(), mode, to_arm, set_f);
}

} // verus!
