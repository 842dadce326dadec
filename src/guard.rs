use vstd::prelude::*;
use crate::scalar::{Scalar, UNIT};

verus! {

/// Caps a signal at a ceiling, discounting it by a feedback gain when it
/// goes over.
pub struct SymbioticGuard {
    pub max_neural_load: Scalar,
    pub asi_feedback_gain: Scalar,
}

/// `ceiling * (1 - gain)` in millionths, the quotient truncated toward zero.
pub open spec fn discounted(ceiling: int, gain: int) -> int {
    let p = ceiling * (UNIT - gain);
    if p >= 0 {
        p / (UNIT as int)
    } else {
        -((-p) / (UNIT as int))
    }
}

/// The value of a signal after regulation.
pub open spec fn regulated(guard: SymbioticGuard, signal: Scalar) -> Scalar {
    if signal.millionths > guard.max_neural_load.millionths {
        Scalar {
            millionths: discounted(
                guard.max_neural_load.millionths as int,
                guard.asi_feedback_gain.millionths as int,
            ) as i64,
        }
    } else {
        signal
    }
}

impl SymbioticGuard {
    /// Replaces a signal above the ceiling by the discounted ceiling and
    /// says whether it did; leaves any other signal as it is.
    pub fn regulate_flow(&self, signal: &mut Scalar) -> (clamped: bool)
        requires
            old(signal).millionths > self.max_neural_load.millionths ==> i64::MIN <= discounted(
                self.max_neural_load.millionths as int,
                self.asi_feedback_gain.millionths as int,
            ) <= i64::MAX,
        ensures
            clamped == (old(signal).millionths > self.max_neural_load.millionths),
            *final(signal) == regulated(*self, *old(signal)),
    {
        if signal.millionths > self.max_neural_load.millionths {
            let c = self.max_neural_load.millionths as i128;
            let k = (UNIT as i128) - (self.asi_feedback_gain.millionths as i128);
            assert(-0x8000_0000_0000_0000 <= c < 0x8000_0000_0000_0000);
            assert(-0x8000_0000_0000_0000 < k <= 0x8000_0000_0000_0000 + UNIT);
            assert(-0x7fff_ffff_ffff_ffff_ffff_ffff_ffff_ffff <= c * k <= 0x7fff_ffff_ffff_ffff_ffff_ffff_ffff_ffff)
                by (nonlinear_arith)
                requires
                    -0x8000_0000_0000_0000 <= c < 0x8000_0000_0000_0000,
                    -0x8000_0000_0000_0000 < k <= 0x8000_0000_0000_0000 + UNIT,
            ;
            let p = c * k;
            let q = p / (UNIT as i128);
            signal.millionths = q as i64;
            true
        } else {
            false
        }
    }
}

/// A plain record of a field state.
pub struct PlasmaState {
    pub density: [Scalar; 3],
    pub temperature: [Scalar; 2],
    pub b_field: [Scalar; 3],
    pub e_field: [Scalar; 3],
}

} // verus!
