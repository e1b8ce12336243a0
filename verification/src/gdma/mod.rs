//! The emulated GDMA device.
pub mod bnic;
pub mod device;
pub mod hwc;
pub mod slots;
pub mod txrx;
