pub mod exercise;
pub mod generation;
pub mod laws;
pub mod templates;

pub use exercise::Exercise;
pub use generation::{Action, Event, Generation, GenerationError, Operation, Stage, TestingError};
use vstd::prelude::*;

verus! {

/// Runs the test suite of exercise `number` under `root`. There is no suite runner
/// yet: this always succeeds and touches nothing.
pub fn test(root: &str, number: &str) -> (r: Result<(), TestingError>)
    ensures
        r is Ok,
{
    Ok(())
}

} // verus!
