//! A CHIP-8 virtual machine: memory model, instruction set and framebuffer,
//! with every operation stated as a contract over a mathematical model of the
//! machine state.
//!
//! [`chip8::Chip8`] is the machine. Its view is a [`machine::Machine`], on
//! which each instruction is a function from state to state; the methods of
//! the machine are proved to compute those functions. A caller loads the font
//! and a program, and then takes turns with the machine: it fetches two bytes,
//! has them decoded and executed, and shows the display when the machine has
//! drawn on it. The machine never waits and never fails for good: what it
//! cannot do it reports as a [`error::Chip8Error`] and stays as it was.
//!
//! The keypad is sampled by the caller and handed in as a
//! [`keypad::Keypad`]. The timers are counted down by the caller.

pub mod bits;
pub mod chip8;
pub mod draw;
pub mod emu_utils;
pub mod error;
pub mod execute;
pub mod font;
pub mod glyph;
pub mod instruction;
pub mod keypad;
pub mod laws;
pub mod layout;
pub mod machine;
mod random;
pub mod screen;
