//! The work items of the example program and the computation it performs.
use vstd::prelude::*;

verus! {

/// Initialization data that a producer hands to its consumers.
#[derive(Debug, Clone, Copy, PartialEq, Eq, Structural)]
pub struct Init {
    pub id: u32,
}

/// A unit of work.
#[derive(Debug, Clone, Copy, PartialEq, Eq, Structural)]
pub struct WorkDefinition {
    pub id: u32,
}

/// The result of a unit of work.
#[derive(Debug, Clone, Copy, PartialEq, Eq, Structural)]
pub struct WorkResult {
    pub id: u32,
}

/// Processes a unit of work: the result's id is twice the input's id.
pub fn process(input: WorkDefinition) -> (r: WorkResult)
    requires
        2 * input.id <= u32::MAX,
    ensures
        r.id == 2 * input.id,
{
    WorkResult { id: 2 * input.id }
}

} // verus!
