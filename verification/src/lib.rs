pub mod controller;
pub mod cpu;
pub mod emulator;
pub mod ines;
pub mod mapper;
pub mod memory;
pub mod ppu;
