//! The configuration of test VMs.
pub mod boot_image_type;
pub mod builder;
pub mod config;
pub mod firmware;
pub mod log_levels;
pub mod name;
