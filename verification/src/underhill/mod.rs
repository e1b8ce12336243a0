//! Parts of the paravisor.
pub mod options;
pub mod saved_state;
pub mod vf_manager;
