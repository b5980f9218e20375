pub mod apu;
pub mod bits;
pub mod bus;
pub mod cartridge;
pub mod cpu;
pub mod mirroring;
