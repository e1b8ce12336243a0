//! State units and their transitions.
pub mod transition;
pub mod units;
