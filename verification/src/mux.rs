//! Routing of the RF front end: which registers a target frequency sets.

use crate::ranges::{
    select_range, spec_select_range, spec_xtal_cap_byte, xtal_cap_byte, CrystalCapMode,
};
use crate::shadow::{all_in_window, RegWrite};
use vstd::prelude::*;

verus! {

/// The register writes that route the front end for `freq_hz`, in the order
/// in which they are sent: open drain, RF mux and polyphase filter, the whole
/// tracking-filter byte, crystal capacitor and drive, and last the two
/// registers whose low six bits are cleared before the synthesizer retunes.
pub open spec fn spec_mux_plan(freq_hz: u32, mode: CrystalCapMode) -> Seq<RegWrite> {
    let range = spec_select_range(freq_hz);
    seq![
        RegWrite { reg: 0x17, val: range.open_drain, mask: 0x08 },
        RegWrite { reg: 0x1a, val: range.rf_mux_poly, mask: 0xc3 },
        RegWrite { reg: 0x1b, val: range.tf_band, mask: 0xff },
        RegWrite { reg: 0x10, val: spec_xtal_cap_byte(range, mode), mask: 0x0b },
        RegWrite { reg: 0x08, val: 0x00, mask: 0x3f },
        RegWrite { reg: 0x09, val: 0x00, mask: 0x3f },
    ]
}

/// Lists the register writes that route the front end for `freq_hz`.
pub fn mux_plan(freq_hz: u32, mode: CrystalCapMode) -> (plan: Vec<RegWrite>)
    ensures
        plan@ == spec_mux_plan(freq_hz, mode),
        all_in_window(plan@),
{
    let range = select_range(freq_hz);
    let cap = xtal_cap_byte(&range, mode);
    vec![
        RegWrite { reg: 0x17, val: range.open_drain, mask: 0x08 },
        RegWrite { reg: 0x1a, val: range.rf_mux_poly, mask: 0xc3 },
        RegWrite { reg: 0x1b, val: range.tf_band, mask: 0xff },
        RegWrite { reg: 0x10, val: cap, mask: 0x0b },
        RegWrite { reg: 0x08, val: 0x00, mask: 0x3f },
        RegWrite { reg: 0x09, val: 0x00, mask: 0x3f },
    ]
}

} // verus!
