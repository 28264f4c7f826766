//! A cycle-stepped emulator core for an 8-bit home computer: the address-space
//! router with its devices, the master clock's rate division, and the CPU's
//! register file, dispatch table and instruction timing.
pub mod bus;
pub mod clock;
pub mod common;
pub mod cpu;
pub mod device;
pub mod memory;
pub mod ula;
