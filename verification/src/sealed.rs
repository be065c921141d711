//! The marker that closes [`crate::common::PixelType`] to the sample types of
//! this crate.

use vstd::prelude::*;

verus! {

/// Marker implemented only for the supported sample types.
pub trait Sealed {
}

impl Sealed for u8 {
}

impl Sealed for u16 {
}

} // verus!
