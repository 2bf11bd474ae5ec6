//! Bit-precise reads and writes on fixed-width integers.
//!
//! An integer of 8, 16, 32 or 64 bits, signed or unsigned, is seen as a row
//! of bits, bit 0 being the least significant. [`BitManipulator`] gives every
//! such integer two accessors: `bits()` reads single bits and ranges of bits,
//! `bits_mut()` also writes them and applies an operator to a range in place.
//! A range is half-open: `4..8` is bits 4, 5, 6 and 7.

pub mod error;
pub mod integer;
pub mod laws;
pub mod manipulator;
pub mod model;
pub mod reader;
pub mod word;
pub mod writer;

pub use error::BitError;
pub use integer::{num_bits, BitInt};
pub use manipulator::BitManipulator;
pub use reader::{BitGetIndex, BitGetRange, BitManipulatorImpl};
pub use writer::{BitManipulatorImplMut, BitSetIndex, BitSetRange};
