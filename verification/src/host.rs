//! What the model asks of its host, and what the host answers.
//!
//! Powers with a fractional exponent, logarithms, normal draws and random
//! directions have no exact fixed-point form. The model names each such
//! operation with its arguments; the host performs it and hands the outcome
//! back.

use crate::satellite::Vector3;
use vstd::prelude::*;

verus! {

/// One operation for the host to perform.
#[derive(Clone, Copy, Debug, PartialEq, Eq, Structural)]
pub enum Request {
    /// A draw from the uniform distribution on `[0, 1]`.
    Uniform,
    /// A draw from the normal distribution with this mean and this standard
    /// deviation.
    Normal { mean: i64, std_dev: i64 },
    /// `base` raised to `exponent`.
    Power { base: i64, exponent: i64 },
    /// `base` raised to `exponent`, to eighteen places: the answer is a
    /// `Reply::Fine`.
    FinePower { base: i64, exponent: i64 },
    /// The logarithm of `value` to base 10.
    Log10 { value: i64 },
    /// A direction drawn uniformly from the unit sphere.
    Direction,
}

/// The outcome of one operation.
#[derive(Clone, Copy, Debug, PartialEq, Eq, Structural)]
pub enum Reply {
    /// A number, rounded to a whole billionth.
    Value(i64),
    /// A number, rounded to a whole `1e-18`.
    Fine(i128),
    /// A vector, each component rounded to a whole billionth.
    Vector(Vector3),
    /// The operation has no finite outcome that fixed point can hold.
    Undefined,
}

} // verus!
