//! A CHIP-8 virtual machine: memory, registers, call stack, timers and a
//! 64x32 monochrome framebuffer, with a verified instruction cycle.
//!
//! [`chip8::Chip8`] is the machine. [`state`] holds its mathematical model,
//! in whose terms every contract is stated, [`instruction`] the decoding of
//! instruction words, [`sprite`] the placement of sprites on the display,
//! [`keyboard`] the keypad layout, [`display`] the way from the framebuffer
//! to the screen, and [`laws`] what holds of every machine.

pub mod chip8;
pub mod config;
pub mod display;
pub mod instruction;
pub mod keyboard;
pub mod laws;
pub mod random;
pub mod sprite;
pub mod state;

pub use crate::chip8::{Chip8, LoadError};
pub use crate::config::Config;
pub use crate::display::{draw_pixels, Rect};
pub use crate::instruction::{decode, Instruction};
pub use crate::keyboard::{is_hex_key_pressed, scancode_to_value, Scancode};
pub use crate::state::Fault;
