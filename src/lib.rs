//! Moves a path to the system trash after validating it and, for directories,
//! asking for confirmation.
//!
//! The decisions of one invocation live in [`session::Session`], a state
//! machine that is driven by the events its caller reports (what kind of path
//! was found, the line the user typed, what the trash service answered).
use vstd::prelude::*;

pub mod answer;
pub mod session;
pub mod laws;

verus! {

} // verus!
