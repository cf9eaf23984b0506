//! Simple devices for the emulator.
pub mod buffer_output;
