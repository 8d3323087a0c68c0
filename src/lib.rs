pub mod opcodes;
pub mod ppu;
pub mod memory;
pub mod semantics;
pub mod emulation;
pub mod cpu;
pub mod system;
pub mod trace;
pub mod laws;

pub use memory::Memory;
pub use cpu::Cpu;
pub use ppu::Ppu;
pub use system::System;
