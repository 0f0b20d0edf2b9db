//! A verified core of an 8-bit game-console emulator: the 6502-class CPU
//! instruction engine, its interrupt protocol, the memory-mapped bus router,
//! the opcode decode table, the audio frame sequencer, and the master cycle
//! scheduler that keeps the CPU, pixel processor and audio sequencer in a
//! fixed 1:3 clock ratio.

pub mod types;
pub mod cpu_registers;
pub mod square;
pub mod triangle;
pub mod noise;
pub mod apu;
pub mod ppu_registers;
pub mod dma;
pub mod bus;
pub mod instructions;
pub mod opcode;
pub mod cpu;
pub mod context;
