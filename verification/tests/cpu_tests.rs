use gba_core::codec::{HalfWord, Word};
use gba_core::cpu::Cpu;
use gba_core::mem::{Interrupt, Mem};

const NOP: u32 = 0xE1A00000;

fn fresh_cpu() -> Cpu {
    let mut cpu = Cpu::new();
    cpu.reset();
    cpu
}

/// The program counter runs two fetch widths ahead of the executing
/// instruction: executing from 0x100 in A-mode, the register file holds
/// 0x108.
#[test]
fn mov_immediate_advances_pc() {
    let mut cpu = fresh_cpu();
    let mut mem = Mem::new(0);
    cpu.regs[15] = 0x108; // executing address 0x100
    cpu.execute_stage = 0xE3A00001; // MOV R0, #1
    let r = cpu.step(&mut mem, 0);
    assert!(r.is_some());
    assert_eq!(cpu.regs[0], 1);
    // the executing address advanced from 0x100 to 0x104
    assert_eq!(cpu.regs[15], 0x10C);
}

#[test]
fn adds_sets_negative_and_overflow() {
    let mut cpu = fresh_cpu();
    let mut mem = Mem::new(0);
    cpu.regs[15] = 0x108;
    cpu.regs[1] = 0x7FFFFFFF;
    cpu.regs[2] = 1;
    cpu.execute_stage = 0xE0910002; // ADDS R0, R1, R2
    cpu.step(&mut mem, 0);
    assert_eq!(cpu.regs[0], 0x80000000);
    let cpsr = cpu.regs[31];
    assert_eq!((cpsr >> 31) & 1, 1, "N");
    assert_eq!((cpsr >> 30) & 1, 0, "Z");
    assert_eq!((cpsr >> 29) & 1, 0, "C");
    assert_eq!((cpsr >> 28) & 1, 1, "V");
}

#[test]
fn ldr_unaligned_rotates_the_aligned_word() {
    let mut cpu = fresh_cpu();
    let mut mem = Mem::new(0x2000010);
    mem.set_word(0x2000000, Word::from_u32_le(0xAABBCCDD));
    cpu.regs[15] = 0x108;
    cpu.regs[1] = 0x02000001;
    cpu.execute_stage = 0xE5910000; // LDR R0, [R1]
    cpu.step(&mut mem, 0);
    assert_eq!(cpu.regs[0], 0xDDAABBCC);
}

#[test]
fn bx_switches_to_thumb_and_flushes() {
    let mut cpu = fresh_cpu();
    let mut mem = Mem::new(0);
    cpu.regs[15] = 0x108;
    cpu.regs[0] = 0x08000001;
    cpu.execute_stage = 0xE12FFF10; // BX R0
    cpu.step(&mut mem, 0);
    assert_eq!(cpu.regs[15], 0x08000000);
    assert_eq!((cpu.regs[31] >> 5) & 1, 1, "T bit");
    assert_eq!(cpu.decode_stage, NOP);
    assert_eq!(cpu.execute_stage, NOP);
}

#[test]
fn interrupt_request_enters_irq_mode() {
    let mut cpu = fresh_cpu();
    let mut mem = Mem::new(0x4000210);
    mem.set_byte(0x4000208, 1);
    mem.set_byte(0x4000200, 1);
    mem.request_irq(Interrupt::VBlank);
    cpu.regs[31] &= !(1 << 7); // clear the I mask
    cpu.regs[15] = 0x108;
    cpu.execute_stage = 0xE3A00001; // never executed: the interrupt wins
    let r = cpu.step(&mut mem, 0);
    assert!(r.is_some());
    assert_eq!(cpu.regs[31] & 0b11111, 0b10010, "IRQ mode");
    assert_eq!(cpu.regs[15], 0x18, "IRQ vector");
    assert_eq!((cpu.regs[31] >> 7) & 1, 1, "I mask set");
    assert_eq!((cpu.regs[31] >> 5) & 1, 0, "A-mode");
    assert_eq!(cpu.regs[28], 0x104, "banked link register");
    assert_eq!(cpu.decode_stage, NOP);
    assert_eq!(cpu.execute_stage, NOP);
    assert_eq!(cpu.regs[0], 0, "nothing executed");
}

#[test]
fn stmfd_stores_ascending_and_writes_back() {
    let mut cpu = fresh_cpu();
    let mut mem = Mem::new(0x200);
    cpu.regs[15] = 0x108;
    cpu.regs[23] = 0x100; // supervisor stack pointer
    cpu.regs[0] = 0x11111111;
    cpu.regs[4] = 0x44444444;
    cpu.regs[24] = 0xEEEEEEEE; // supervisor link register
    cpu.execute_stage = 0xE92D4011; // STMFD SP!, {R0, R4, LR}
    cpu.step(&mut mem, 0);
    assert_eq!(cpu.regs[23], 0x0F4);
    assert_eq!(mem.get_word(0x0F4).little_endian(), 0x11111111);
    assert_eq!(mem.get_word(0x0F8).little_endian(), 0x44444444);
    assert_eq!(mem.get_word(0x0FC).little_endian(), 0xEEEEEEEE);
}

/// A branch is not sequential advancement, so both pipeline slots hold
/// the do-nothing sentinel afterwards.
#[test]
fn branch_flushes_pipeline() {
    let mut cpu = fresh_cpu();
    let mut mem = Mem::new(0);
    cpu.regs[15] = 0x108;
    cpu.decode_stage = 0x12345678;
    cpu.execute_stage = 0xEA000010; // B +0x40
    cpu.step(&mut mem, 0);
    assert_eq!(cpu.regs[15], 0x108 + 0x40);
    assert_eq!(cpu.decode_stage, NOP);
    assert_eq!(cpu.execute_stage, NOP);
}

#[test]
fn branch_with_link_stores_return_address() {
    let mut cpu = fresh_cpu();
    let mut mem = Mem::new(0);
    cpu.regs[15] = 0x108;
    cpu.execute_stage = 0xEB000010; // BL +0x40
    cpu.step(&mut mem, 0);
    // supervisor-banked link register holds the following instruction
    assert_eq!(cpu.regs[24], 0x104);
    assert_eq!(cpu.regs[15], 0x148);
}

/// Entering an exception and returning through a flag-setting move to the
/// program counter restores the status word exactly.
#[test]
fn saved_status_round_trip() {
    let mut cpu = fresh_cpu();
    let mut mem = Mem::new(0x4000210);
    mem.set_byte(0x4000208, 1);
    mem.set_byte(0x4000200, 1);
    mem.request_irq(Interrupt::VBlank);
    cpu.regs[31] &= !(1 << 7);
    cpu.regs[15] = 0x108;
    let cpsr_before = cpu.regs[31];
    cpu.step(&mut mem, 0); // interrupt entry
    assert_ne!(cpu.regs[31], cpsr_before);
    // drop the pending request so the handler can run
    mem.set_byte(0x4000202, 0xFF);
    cpu.execute_stage = 0xE1B0F00E; // MOVS PC, LR
    cpu.step(&mut mem, 0);
    assert_eq!(cpu.regs[31], cpsr_before);
    assert_eq!(cpu.regs[15], 0x104);
}

/// Entering and leaving a privileged mode preserves the user-mode values
/// of R13 and R14.
#[test]
fn banking_preserves_user_sp_and_lr() {
    let mut cpu = fresh_cpu();
    let mut mem = Mem::new(0x4000210);
    cpu.regs[13] = 0xCAFE0000;
    cpu.regs[14] = 0xCAFE0004;
    mem.set_byte(0x4000208, 1);
    mem.set_byte(0x4000200, 1);
    mem.request_irq(Interrupt::VBlank);
    cpu.regs[31] &= !(1 << 7);
    cpu.regs[15] = 0x108;
    cpu.step(&mut mem, 0); // interrupt entry
    assert_eq!(cpu.regs[13], 0xCAFE0000);
    assert_eq!(cpu.regs[14], 0xCAFE0004);
    mem.set_byte(0x4000202, 0xFF);
    cpu.execute_stage = 0xE1B0F00E; // MOVS PC, LR: leave the handler
    cpu.step(&mut mem, 0);
    assert_eq!(cpu.regs[13], 0xCAFE0000);
    assert_eq!(cpu.regs[14], 0xCAFE0004);
}

#[test]
fn sentinel_only_advances() {
    let mut cpu = fresh_cpu();
    let mut mem = Mem::new(0);
    cpu.regs[15] = 0x108;
    cpu.execute_stage = NOP;
    cpu.regs[0] = 7;
    cpu.step(&mut mem, 0);
    assert_eq!(cpu.regs[15], 0x10C);
    assert_eq!(cpu.regs[0], 7);
}

#[test]
fn zero_word_halts() {
    let mut cpu = fresh_cpu();
    let mut mem = Mem::new(0);
    cpu.regs[15] = 0x108;
    cpu.execute_stage = 0;
    let r = cpu.step(&mut mem, 0);
    assert!(r.is_none());
    assert_eq!(cpu.regs[15], 0x108);
}

#[test]
fn failed_condition_only_advances() {
    let mut cpu = fresh_cpu();
    let mut mem = Mem::new(0);
    cpu.regs[15] = 0x108;
    // Z is clear after reset, so the equal condition fails
    cpu.execute_stage = 0x03A00001; // MOVEQ R0, #1
    cpu.step(&mut mem, 0);
    assert_eq!(cpu.regs[0], 0);
    assert_eq!(cpu.regs[15], 0x10C);
}

#[test]
fn software_interrupt_enters_supervisor() {
    let mut cpu = fresh_cpu();
    let mut mem = Mem::new(0);
    cpu.regs[31] = (cpu.regs[31] & !0b11111) | 0b10000; // user mode
    cpu.regs[15] = 0x108;
    cpu.execute_stage = 0xEF000000; // SWI 0
    cpu.step(&mut mem, 0);
    assert_eq!(cpu.regs[31] & 0b11111, 0b10011, "supervisor mode");
    assert_eq!(cpu.regs[15], 0x8);
    assert_eq!(cpu.regs[24], 0x104, "supervisor link register");
    assert_eq!((cpu.regs[31] >> 7) & 1, 1, "I mask set");
}

#[test]
fn mul_wraps() {
    let mut cpu = fresh_cpu();
    let mut mem = Mem::new(0);
    cpu.regs[15] = 0x108;
    cpu.regs[1] = 0x10000;
    cpu.regs[2] = 0x10001;
    cpu.execute_stage = 0xE0000291; // MUL R0, R1, R2
    cpu.step(&mut mem, 0);
    assert_eq!(cpu.regs[0], 0x10000u32.wrapping_mul(0x10001));
}

#[test]
fn thumb_mov_immediate() {
    let mut cpu = fresh_cpu();
    let mut mem = Mem::new(0);
    cpu.regs[31] |= 1 << 5; // T-mode
    cpu.regs[15] = 0x104;
    cpu.execute_stage = 0x2042; // MOV R0, #0x42
    cpu.step(&mut mem, 0);
    assert_eq!(cpu.regs[0], 0x42);
    assert_eq!(cpu.regs[15], 0x106);
}

#[test]
fn thumb_add_registers() {
    let mut cpu = fresh_cpu();
    let mut mem = Mem::new(0);
    cpu.regs[31] |= 1 << 5;
    cpu.regs[15] = 0x104;
    cpu.regs[1] = 2;
    cpu.regs[2] = 3;
    cpu.execute_stage = 0x1888; // ADD R0, R1, R2
    cpu.step(&mut mem, 0);
    assert_eq!(cpu.regs[0], 5);
    assert_eq!((cpu.regs[31] >> 30) & 1, 0, "Z clear");
}

#[test]
fn thumb_push_then_pop() {
    let mut cpu = fresh_cpu();
    let mut mem = Mem::new(0x200);
    cpu.regs[31] |= 1 << 5;
    cpu.regs[15] = 0x104;
    cpu.regs[23] = 0x100; // supervisor stack pointer
    cpu.regs[0] = 0xDEAD0001;
    cpu.execute_stage = 0xB401; // PUSH {R0}
    cpu.step(&mut mem, 0);
    assert_eq!(cpu.regs[23], 0xFC);
    assert_eq!(mem.get_word(0xFC).little_endian(), 0xDEAD0001);
    cpu.regs[0] = 0;
    cpu.execute_stage = 0xBC01; // POP {R0}
    cpu.step(&mut mem, 0);
    assert_eq!(cpu.regs[0], 0xDEAD0001);
    assert_eq!(cpu.regs[23], 0x100);
}

#[test]
fn thumb_conditional_branch_taken_flushes() {
    let mut cpu = fresh_cpu();
    let mut mem = Mem::new(0);
    cpu.regs[31] |= 1 << 5;
    cpu.regs[31] |= 1 << 30; // set Z
    cpu.regs[15] = 0x104;
    cpu.decode_stage = 0x9999;
    cpu.execute_stage = 0xD002; // BEQ +4
    cpu.step(&mut mem, 0);
    assert_eq!(cpu.regs[15], 0x104 + 4);
    assert_eq!(cpu.decode_stage, NOP);
    assert_eq!(cpu.execute_stage, NOP);
}

#[test]
fn ldrh_loads_a_halfword() {
    let mut cpu = fresh_cpu();
    let mut mem = Mem::new(0x100);
    mem.set_halfword(0x40, HalfWord::from_u16_le(0x1234));
    cpu.regs[15] = 0x108;
    cpu.regs[1] = 0x40;
    cpu.execute_stage = 0xE1D100B0; // LDRH R0, [R1]
    cpu.step(&mut mem, 0);
    assert_eq!(cpu.regs[0], 0x1234);
}

#[test]
fn undefined_encoding_enters_undefined_mode() {
    let mut cpu = fresh_cpu();
    let mut mem = Mem::new(0);
    cpu.regs[15] = 0x108;
    cpu.execute_stage = 0xE7F000F0; // a reserved encoding
    cpu.step(&mut mem, 0);
    assert_eq!(cpu.regs[31] & 0b11111, 0b11011, "undefined mode");
    assert_eq!(cpu.regs[15], 0x4, "undefined vector");
}

#[test]
fn thumb_store_then_load_register_offset() {
    let mut cpu = fresh_cpu();
    let mut mem = Mem::new(0x100);
    cpu.regs[31] |= 1 << 5;
    cpu.regs[15] = 0x104;
    cpu.regs[0] = 0xFEEDF00D;
    cpu.regs[1] = 0x40;
    cpu.regs[2] = 8;
    cpu.execute_stage = 0x5088; // STR R0, [R1, R2]
    cpu.step(&mut mem, 0);
    assert_eq!(mem.get_word(0x48).little_endian(), 0xFEEDF00D);
    cpu.execute_stage = 0x588B; // LDR R3, [R1, R2]
    cpu.step(&mut mem, 0);
    assert_eq!(cpu.regs[3], 0xFEEDF00D);
}

#[test]
fn thumb_long_branch_with_link() {
    let mut cpu = fresh_cpu();
    let mut mem = Mem::new(0);
    cpu.regs[31] |= 1 << 5;
    cpu.regs[15] = 0x104;
    cpu.execute_stage = 0xF000; // first half: upper offset zero
    cpu.step(&mut mem, 0);
    assert_eq!(cpu.regs[24], 0x104, "upper target in link register");
    assert_eq!(cpu.regs[15], 0x106);
    cpu.execute_stage = 0xF801; // second half: lower offset one, doubled
    cpu.step(&mut mem, 0);
    assert_eq!(cpu.regs[15], 0x106);
    assert_eq!(cpu.regs[24], 0x105, "return address with its low bit set");
}

#[test]
fn ldmia_loads_ascending_and_writes_back() {
    let mut cpu = fresh_cpu();
    let mut mem = Mem::new(0x100);
    mem.set_word(0x40, Word::from_u32_le(0x111));
    mem.set_word(0x44, Word::from_u32_le(0x222));
    cpu.regs[15] = 0x108;
    cpu.regs[1] = 0x40;
    cpu.execute_stage = 0xE8B10005; // LDMIA R1!, {R0, R2}
    cpu.step(&mut mem, 0);
    assert_eq!(cpu.regs[0], 0x111);
    assert_eq!(cpu.regs[2], 0x222);
    assert_eq!(cpu.regs[1], 0x48);
}

#[test]
fn mrs_reads_the_status_word() {
    let mut cpu = fresh_cpu();
    let mut mem = Mem::new(0);
    cpu.regs[15] = 0x108;
    let cpsr = cpu.regs[31];
    cpu.execute_stage = 0xE10F0000; // MRS R0, CPSR
    cpu.step(&mut mem, 0);
    assert_eq!(cpu.regs[0], cpsr);
}

#[test]
fn shifter_lsr_zero_reads_as_thirty_two() {
    let mut cpu = fresh_cpu();
    let mut mem = Mem::new(0);
    cpu.regs[15] = 0x108;
    cpu.regs[1] = 0x80000000;
    cpu.execute_stage = 0xE1B00021; // MOVS R0, R1, LSR #32
    cpu.step(&mut mem, 0);
    assert_eq!(cpu.regs[0], 0);
    assert_eq!((cpu.regs[31] >> 29) & 1, 1, "carry from bit 31");
    assert_eq!((cpu.regs[31] >> 30) & 1, 1, "zero");
}

#[test]
fn shifter_ror_zero_rotates_through_carry() {
    let mut cpu = fresh_cpu();
    let mut mem = Mem::new(0);
    cpu.regs[15] = 0x108;
    cpu.regs[1] = 3;
    // carry is clear after reset
    cpu.execute_stage = 0xE1B00061; // MOVS R0, R1, RRX
    cpu.step(&mut mem, 0);
    assert_eq!(cpu.regs[0], 1);
    assert_eq!((cpu.regs[31] >> 29) & 1, 1, "carry from bit 0");
}

#[test]
fn shifter_register_lsl_beyond_thirty_two_clears() {
    let mut cpu = fresh_cpu();
    let mut mem = Mem::new(0);
    cpu.regs[31] |= 1 << 5; // T-mode
    cpu.regs[31] |= 1 << 29; // carry set beforehand
    cpu.regs[15] = 0x104;
    cpu.regs[0] = 0xFFFFFFFF;
    cpu.regs[1] = 33;
    cpu.execute_stage = 0x4088; // LSL R0, R1
    cpu.step(&mut mem, 0);
    assert_eq!(cpu.regs[0], 0);
    assert_eq!((cpu.regs[31] >> 29) & 1, 0, "carry cleared");
    assert_eq!((cpu.regs[31] >> 30) & 1, 1, "zero");
}

/// Interrupt kinds stored in the high acknowledge byte wake the
/// processor too.
#[test]
fn interrupt_in_high_acknowledge_byte_is_taken() {
    let mut cpu = fresh_cpu();
    let mut mem = Mem::new(0x4000210);
    mem.set_byte(0x4000208, 1);
    mem.set_halfword(0x4000200, HalfWord::from_u16_le(1 << 12));
    mem.request_irq(Interrupt::Keypad); // pending bit 12, byte 0x4000203
    assert_eq!(mem.get_byte(0x4000202), 0);
    assert_eq!(mem.get_byte(0x4000203), 1 << 4);
    cpu.regs[31] &= !(1 << 7);
    cpu.regs[15] = 0x108;
    cpu.execute_stage = 0xE3A00001;
    cpu.step(&mut mem, 0);
    assert_eq!(cpu.regs[31] & 0b11111, 0b10010, "IRQ mode");
    assert_eq!(cpu.regs[15], 0x18);
    assert_eq!(cpu.regs[0], 0, "nothing executed");
}

/// An A-mode write to the program counter is rounded down to the
/// four-byte instruction width.
#[test]
fn pc_write_rounds_to_word_in_a_mode() {
    let mut cpu = fresh_cpu();
    let mut mem = Mem::new(0);
    cpu.regs[15] = 0x108;
    cpu.regs[1] = 0x102;
    cpu.execute_stage = 0xE1A0F001; // MOV PC, R1
    cpu.step(&mut mem, 0);
    assert_eq!(cpu.regs[15], 0x100);
    assert_eq!(cpu.decode_stage, NOP);
    assert_eq!(cpu.execute_stage, NOP);
}

/// A T-mode high-register move into the program counter is a
/// non-sequential write, so it flushes the pipeline.
#[test]
fn thumb_hi_mov_to_pc_flushes() {
    let mut cpu = fresh_cpu();
    let mut mem = Mem::new(0);
    cpu.regs[31] |= 1 << 5;
    cpu.regs[15] = 0x104;
    cpu.regs[1] = 0x200;
    cpu.decode_stage = 0x7777;
    cpu.execute_stage = 0x468F; // MOV PC, R1
    cpu.step(&mut mem, 0);
    assert_eq!(cpu.regs[15], 0x200);
    assert_eq!(cpu.decode_stage, NOP);
    assert_eq!(cpu.execute_stage, NOP);
}

/// T-mode register-specified shifts take their amount from the low byte
/// of the source register, as A-mode does.
#[test]
fn thumb_register_shift_uses_low_byte() {
    let mut cpu = fresh_cpu();
    let mut mem = Mem::new(0);
    cpu.regs[31] |= 1 << 5;
    cpu.regs[15] = 0x104;
    cpu.regs[0] = 0x12345678;
    cpu.regs[1] = 0x100; // low byte zero: the value passes through
    cpu.execute_stage = 0x4088; // LSL R0, R1
    cpu.step(&mut mem, 0);
    assert_eq!(cpu.regs[0], 0x12345678);
}
