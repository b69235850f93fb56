//! Gain control.

use crate::shadow::{all_in_window, RegWrite};
use vstd::prelude::*;

verus! {

/// How the gain of the tuner is set.
#[derive(Clone, Copy, Debug, PartialEq, Eq, Structural)]
pub enum TunerGainMode {
    /// The tuner regulates LNA and mixer gain itself.
    Auto,
    /// A fixed gain, in tenths of a dB.
    Manual(i32),
}

/// The register writes for automatic gain: LNA gain automatic, mixer gain
/// automatic, and the VGA fixed at 26.5 dB.
pub open spec fn spec_auto_gain_plan() -> Seq<RegWrite> {
    seq![
        RegWrite { reg: 0x05, val: 0x00, mask: 0x10 },
        RegWrite { reg: 0x07, val: 0x10, mask: 0x10 },
        RegWrite { reg: 0x0c, val: 0x0b, mask: 0x9f },
    ]
}

/// Lists the register writes for automatic gain.
pub fn auto_gain_plan() -> (plan: Vec<RegWrite>)
    ensures
        plan@ == spec_auto_gain_plan(),
        all_in_window(plan@),
{
    vec![
        RegWrite { reg: 0x05, val: 0x00, mask: 0x10 },
        RegWrite { reg: 0x07, val: 0x10, mask: 0x10 },
        RegWrite { reg: 0x0c, val: 0x0b, mask: 0x9f },
    ]
}

} // verus!
