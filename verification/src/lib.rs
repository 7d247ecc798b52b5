//! A fragmentation-event simulator in the style of the standard orbital-debris
//! breakup model, in exact fixed-point arithmetic.
//!
//! The library holds every rule of the model: the calibration tables, the
//! regime choices, the event scalars and the order of the pipeline. What it
//! cannot compute in integers (powers, logarithms, normal draws, directions)
//! it asks of its host, one request at a time.

pub mod am_ratio;
pub mod error;
pub mod event;
pub mod fixed;
pub mod host;
pub mod model;
pub mod regression;
pub mod sampler;
pub mod satellite;
pub mod soundness;
pub mod steps;
pub mod velocity;
