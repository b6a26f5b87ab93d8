//! The seal that keeps reply shapes closed to this crate.
use vstd::prelude::*;

verus! {

/// Implemented only by the reply shapes of this crate.
pub trait Sealed {

}

} // verus!
