//! Sealing of the device-marker traits.

use vstd::prelude::*;

use crate::ic;

verus! {

/// Sealed trait: only the markers in [`crate::ic`] may implement the
/// device-variant traits.
pub trait Sealed {

}

impl Sealed for ic::Lm75 {

}

impl Sealed for ic::Pct2075 {

}

} // verus!
