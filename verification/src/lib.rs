//! A CHIP-8 interpreter core.
//!
//! The crate holds the machine state, the fetch-decode-execute cycle, the
//! timer driver and the accessors a host front end needs. Every operation is
//! specified against a mathematical model of the machine ([`model::State`])
//! and proved to follow it.

pub mod error;
pub mod quirks;
pub mod opcode;
pub mod font;
pub mod display;
pub mod model;
pub mod semantics;
mod entropy;
pub mod laws;
pub mod machine;

pub use display::{SCREEN_HEIGHT, SCREEN_WIDTH};
pub use error::Chip8Error;
pub use machine::Emu;
pub use opcode::{decode, Instruction};
pub use model::State;
pub use quirks::Quirks;
