//! A soft emulator core for a 32-bit little-endian RISC-style integer CPU.
//!
//! The crate provides the instruction decoder, the linear byte-addressable
//! memory, the control/status register (CSR) bus with its peripherals, and
//! the fetch/decode/execute engine. A host program wires the core to a
//! display window, a terminal dashboard and a physical keyboard.

mod channel;
pub mod character_printer;
pub mod cpu;
pub mod cpu_state;
pub mod csrs;
pub mod ddi;
pub mod debug_display;
pub mod display;
pub mod fault;
mod fps;
pub mod heap;
pub mod instruction_formats;
pub mod keyboard;
pub mod memory;

pub use fault::Fault;
