//! The errors of the model.

use vstd::prelude::*;

verus! {

/// The stage of the pipeline at which a run failed. The count of the
/// fragments is no stage of failure: a run without a usable count has no
/// fragments, and succeeds.
#[derive(Clone, Copy, Debug, PartialEq, Eq, Structural)]
pub enum Stage {
    Length,
    Area,
    AmRatio,
    Mass,
    Velocity,
}

/// Why a stage failed.
#[derive(Clone, Copy, Debug, PartialEq, Eq, Structural)]
pub enum Cause {
    /// The power-law exponent is -1, so the inverse of `n + 1` does not exist.
    DegenerateExponent,
    /// The host had no finite value to give, or gave one of the wrong shape.
    Undefined,
    /// An exact result has no fixed-point representation.
    OutOfRange,
    /// A value that the next stage divides by or takes a logarithm of is not
    /// positive.
    NotPositive,
}

/// What can go wrong at the boundary of the model and inside a run.
#[derive(Clone, Copy, Debug, PartialEq, Eq, Structural)]
pub enum ModelError {
    /// An object-class code other than 0, 1 or 2.
    InvalidSatKind(i32),
    /// An event was asked for from the wrong number of satellites, or from a
    /// satellite with a field beyond the accepted range.
    InvalidEvent,
    /// A run failed at the given stage.
    Failed { stage: Stage, cause: Cause },
}

} // verus!
