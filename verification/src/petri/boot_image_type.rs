//! The types of boot images.
use vstd::prelude::*;

verus! {

/// Seals the set of boot image types.
pub trait Sealed {

}

/// A type of boot image.
pub trait BootImageType: Sealed {

}

/// A VHD file.
#[derive(Debug, Clone, Copy)]
pub struct Vhd;

/// An ISO file.
#[derive(Debug, Clone, Copy)]
pub struct Iso;

impl Sealed for Vhd {

}

impl Sealed for Iso {

}

impl BootImageType for Vhd {

}

impl BootImageType for Iso {

}

} // verus!
