//! Why a set of generation parameters is refused.

use vstd::prelude::*;

verus! {

/// A parameter with which no noise field can be built.
#[derive(Clone, Copy, Debug, PartialEq, Eq, Structural)]
pub enum ConfigError {
    /// The number of octaves is below zero.
    NegativeOctaves,
    /// The frequency is infinite or a NaN.
    NonFiniteFrequency,
    /// A scale is infinite or a NaN.
    NonFiniteScale,
    /// A noise map has not the size that the parameters ask for.
    MapSize,
}

} // verus!
