pub mod bit;
pub mod cpu;
pub mod gameboy;
pub mod input;
pub mod mmu;
pub mod ppu;
pub mod registers;
pub mod timer;

pub use registers::{Clock, CpuFlag, Registers};
