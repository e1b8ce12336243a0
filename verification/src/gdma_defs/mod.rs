//! Definitions shared by the device and its driver.
pub mod bnic;
