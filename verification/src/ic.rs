//! Device markers: the driver supports a closed set of IC variants.

use vstd::prelude::*;

verus! {

/// LM75 marker.
pub struct Lm75;

/// PCT2075 marker.
pub struct Pct2075;

} // verus!
