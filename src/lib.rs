//! Epoch-based input coordination for resumable streaming dataflows.
use vstd::prelude::*;

pub mod coordinator;
pub mod runs;
pub mod manual;
pub mod model;
pub mod seq_input;
pub mod source;

verus! {

} // verus!
