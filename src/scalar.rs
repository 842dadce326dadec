use vstd::prelude::*;

verus! {

/// Millionths in one whole unit.
pub const UNIT: i64 = 1_000_000;

/// A real quantity held exactly as a whole number of millionths.
#[derive(Debug, Clone, Copy, PartialEq, Eq, Structural)]
pub struct Scalar {
    pub millionths: i64,
}

impl Scalar {
    /// The whole unit, `1.0`.
    pub open spec fn spec_one() -> Scalar {
        Scalar { millionths: UNIT }
    }

    pub fn one() -> (r: Scalar)
        ensures
            r == Scalar::spec_one(),
    {
        Scalar { millionths: UNIT }
    }

    pub fn from_millionths(millionths: i64) -> (r: Scalar)
        ensures
            r.millionths == millionths,
    {
        Scalar { millionths }
    }

    /// `whole` units.
    pub fn from_units(whole: i32) -> (r: Scalar)
        ensures
            r.millionths == whole * UNIT,
    {
        Scalar { millionths: whole as i64 * UNIT }
    }
}

} // verus!
