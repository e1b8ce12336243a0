//! Support for user mode drivers.
pub mod memory;
