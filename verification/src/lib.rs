//! An instruction-level emulator core for a 6502-family processor and the
//! memory bus it is wired to.
//!
//! The bus partitions the 16-bit address space among memory-backed devices
//! with pairwise disjoint address ranges. The processor decodes one
//! instruction per step from the bytes at its program counter and applies it
//! to its registers and to the memory behind the bus.
pub mod bus;
pub mod cpu;
pub mod nes;
