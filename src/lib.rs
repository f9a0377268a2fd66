//! The core of an 8-bit console emulator: a 6502-family CPU interpreter and the
//! memory-mapping subsystem that routes its accesses through cartridge mappers.
pub mod alu;
pub mod bus;
pub mod cartridge;
pub mod controller;
pub mod cpu;
pub mod data;
pub mod error;
pub mod header;
pub mod mapper0;
pub mod mapper2;
pub mod mapper3;
pub mod opcodes;
pub mod pager;
pub mod utils;
pub mod vram;
