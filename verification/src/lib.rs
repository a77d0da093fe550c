//! Core of an emulator for a handheld game console: a dual-instruction-set
//! processor model, a mirrored memory bus with I/O side effects, a scanline
//! frame compositor, and the register-driven audio channel state machines.
pub mod apu;
pub mod arm;
pub mod codec;
pub mod cpu;
pub mod gpu;
pub mod mem;
pub mod shifter;
pub mod step;
pub mod thumb;
