//! A CHIP-8 virtual machine: instruction decoding, the CPU state machine with
//! its memory, registers, call stack, timers, keypad and framebuffer, and the
//! proofs that tie the executable code to a mathematical model of the machine.

pub mod bits;
pub mod instruction;
pub mod state;
pub mod font;
pub mod cpu;
pub mod keypad;
pub mod laws;

pub use bits::{get_nth_nibble, wrap_add, wrap_sub};
pub use cpu::Cpu;
pub use instruction::{decode, Instruction};
pub use keypad::keycode_to_index;
pub use state::CpuError;
