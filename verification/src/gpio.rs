//! The level of a digital output pin.

use vstd::prelude::*;

verus! {

/// The level of a digital output pin.
#[derive(Clone, Copy, Debug, PartialEq, Eq, Structural)]
pub enum Level {
    Low,
    High,
}

} // verus!
