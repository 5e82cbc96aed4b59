//! Monte Carlo analysis of mechanical tolerance stacks.
//!
//! A stack is an ordered chain of dimensions, each either a simple linear
//! offset or a floating hole/pin clearance pair.  The library validates the
//! dimension parameters, keeps the stack description, and plans the parallel
//! simulation: how the requested trials are split over workers and which seed
//! each worker's random stream starts from.  Dimension parameters are carried
//! as IEEE-754 binary64 bit patterns, so the validation rules are stated and
//! proved on plain integers.

pub mod float_bits;
pub mod plan;
pub mod stack;

pub use crate::plan::{plan_simulation, plan_simulation_entropy, SimulationPlan};
pub use crate::stack::{Dimension, Float, Hole, Linear, Pin, PushDim, TolStack};

use vstd::prelude::*;

verus! {

/// Why a request was rejected.
#[derive(Clone, Copy, Debug, PartialEq, Eq, Structural)]
pub enum StackError {
    /// A dimension's tolerance or sigma ratio is outside the valid domain.
    InvalidParameter,
    /// A simulation was requested with zero trials.
    InvalidArgument,
}

} // verus!
