//! A CHIP-8 interpreter core: memory, registers, framebuffer and the
//! fetch-decode-execute step, each with a machine-checked contract.

pub mod chip;
pub mod display;
pub mod instruction;
pub mod keypad;
pub mod laws;
pub mod memory;

pub use chip::{Chip, Fault, MachineView};
pub use display::{get_bit_at, right_rotate, Display};
pub use instruction::{decode, Instruction};
pub use keypad::key_code;
pub use memory::{LoadError, Memory, Registers};
