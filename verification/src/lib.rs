//! A cycle-approximate core for a classic 8-bit console: 6502-family CPU,
//! picture processor, pulse sound generator, gamepad, cartridge mapper and
//! the bus that ties them together. Every public function carries a contract
//! over the plain-data model of the machine.

pub mod error;
pub mod rom;
pub mod mapper;
pub mod controller;
pub mod ppu;
pub mod apu;
pub mod bus;
pub mod opcodes;
pub mod cpu;
pub mod timing;
pub mod nes;
