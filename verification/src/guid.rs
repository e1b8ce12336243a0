//! Globally unique IDs.
use vstd::prelude::*;

verus! {

/// A globally unique ID.
#[derive(Debug, Clone, Copy, PartialEq, Eq, Structural)]
pub struct Guid {
    /// The first part.
    pub data1: u32,
    /// The second part.
    pub data2: u16,
    /// The third part.
    pub data3: u16,
    /// The last eight bytes, the first one highest.
    pub data4: u64,
}

} // verus!
