//! The user mode driver of a GDMA device.
pub mod bnic_driver;
