use vstd::prelude::*;

verus! {

/// How a transformation treats the information it carries.
#[derive(Debug, Clone, Copy, PartialEq, Eq, Structural)]
pub enum PreservationProtocol {
    Conservative,
    Creative,
    Destructive,
    Transmutative,
}

/// A descriptive record of the space a state lives in.
pub struct StateSpace {
    pub dimension: usize,
    pub topology: String,
    pub algebra: String,
}

} // verus!
