//! A CHIP-8 interpreter core: memory, display buffer, timers, the instruction
//! engine and the scheduler that paces instructions against timer ticks.

pub mod cpu;
pub mod emulator;
pub mod gpu;
pub mod instruction;
pub mod ram;
pub mod run_loop;
pub mod semantics;
pub mod system_bus;
pub mod timer;
