//! A Nintendo Entertainment System emulator core: the 6502 CPU, the memory
//! bus, cartridge mappers and the audio channels.
pub mod cli;
pub mod nes;
pub mod screen;
