//! Execution core of a Game Boy (DMG): the SM83 interpreter, the memory
//! bus with its cartridge mappers, the interrupt controller and the timer.

pub mod bits;
pub mod hex;
pub mod register;
pub mod alu;
pub mod interupt;
pub mod timer;
pub mod error;
pub mod memory_bank;
pub mod memory;
pub mod mmu;
pub mod cpu;
