//! Choice of the IF filters and of the intermediate frequency for a
//! requested channel bandwidth.

use crate::shadow::{all_in_window, RegWrite};
use vstd::prelude::*;

verus! {

/// Allowance for the first high-pass corner, in Hz.
pub const FILT_HP_BW1: u32 = 350_000;

/// Allowance for the second high-pass corner, in Hz.
pub const FILT_HP_BW2: u32 = 380_000;

/// Number of low-pass filter settings.
pub const NUM_LOW_PASS: usize = 10;

/// Bandwidths of the low-pass filter settings in Hz, widest first.
pub const LOW_PASS_BW: [u32; 10] = [
    1_700_000,
    1_600_000,
    1_550_000,
    1_450_000,
    1_200_000,
    900_000,
    700_000,
    550_000,
    450_000,
    350_000,
];

/// Intermediate frequency of the two widest channel settings, in Hz.
pub const IF_WIDE: u32 = 4_570_000;

/// Intermediate frequency of the 6 MHz channel setting, in Hz.
pub const IF_MEDIUM: u32 = 3_570_000;

/// Intermediate frequency that the narrow settings start from, in Hz.
pub const IF_NARROW: u32 = 2_300_000;

/// The filter registers and the intermediate frequency chosen for a bandwidth.
#[derive(Clone, Copy, Debug, PartialEq, Eq, Structural)]
pub struct FilterChoice {
    /// Centre of the IF signal, in Hz.
    pub if_freq: u32,
    /// Value for the filter register `0x0a`, written under mask `0x10`.
    pub reg_0a: u8,
    /// Value for the filter register `0x0b`, written under mask `0xef`.
    pub reg_0b: u8,
}

/// The narrowest low-pass setting at or below `top` that still passes
/// `budget` Hz; setting 0 when there is none.
pub open spec fn spec_low_pass_from(budget: int, top: int) -> int
    decreases top,
{
    if top <= 0 {
        0
    } else if LOW_PASS_BW[top] >= budget {
        top
    } else {
        spec_low_pass_from(budget, top - 1)
    }
}

/// The low-pass setting for a bandwidth budget: the narrowest one that the
/// budget does not exceed, or the widest when the budget exceeds them all.
pub open spec fn spec_low_pass_index(budget: int) -> int {
    spec_low_pass_from(budget, NUM_LOW_PASS - 1)
}

/// The choice for a bandwidth that the low-pass filters cover.
///
/// A budget above the widest low-pass setting plus the first corner
/// allowance gives up the second allowance; what is then still above the
/// widest setting gives up the first. Each allowance given up moves the IF
/// up by as much; each one kept sets its high-pass enable bit. The low-pass
/// setting for the rest enters the register as `15 - index`, and the IF is
/// centred half the total bandwidth below.
pub open spec fn spec_narrow_choice(bw: int) -> FilterChoice {
    let second = bw > LOW_PASS_BW[0] + FILT_HP_BW1;
    let after_second = if second {
        bw - FILT_HP_BW2
    } else {
        bw
    };
    let first = after_second > LOW_PASS_BW[0];
    let budget = if first {
        after_second - FILT_HP_BW1
    } else {
        after_second
    };
    let corners = (if second {
        FILT_HP_BW2 as int
    } else {
        0
    }) + (if first {
        FILT_HP_BW1 as int
    } else {
        0
    });
    let index = spec_low_pass_index(budget);
    let real_bw = corners + LOW_PASS_BW[index];
    FilterChoice {
        if_freq: (IF_NARROW + corners - real_bw / 2) as u32,
        reg_0a: 0x00,
        reg_0b: (0x80 + (if second {
            0x00int
        } else {
            0x20
        }) + (if first {
            0x00int
        } else {
            0x40
        }) + (15 - index)) as u8,
    }
}

/// The choice for a requested bandwidth in Hz.
pub open spec fn spec_select_bandwidth(bw: u32) -> FilterChoice {
    if bw > 7_000_000 {
        FilterChoice { if_freq: IF_WIDE, reg_0a: 0x10, reg_0b: 0x0b }
    } else if bw > 6_000_000 {
        FilterChoice { if_freq: IF_WIDE, reg_0a: 0x10, reg_0b: 0x2a }
    } else if bw > LOW_PASS_BW[0] + FILT_HP_BW1 + FILT_HP_BW2 {
        FilterChoice { if_freq: IF_MEDIUM, reg_0a: 0x10, reg_0b: 0x6b }
    } else {
        spec_narrow_choice(bw as int)
    }
}

/// The low-pass bandwidths strictly descend.
pub proof fn lemma_low_pass_descends(i: int, j: int)
    requires
        0 <= i < j < NUM_LOW_PASS,
    ensures
        LOW_PASS_BW[i] > LOW_PASS_BW[j],
    decreases j - i,
{
    if i + 1 < j {
        lemma_low_pass_descends(i, j - 1);
    }
    assert(LOW_PASS_BW[j - 1] > LOW_PASS_BW[j]);
}

/// A setting that passes `budget`, while all narrower ones up to `top` do
/// not, is the one the scan from `top` finds.
proof fn lemma_low_pass_from(budget: int, top: int, k: int)
    requires
        0 <= k <= top < NUM_LOW_PASS,
        k == 0 || LOW_PASS_BW[k] >= budget,
        forall|j: int| k < j <= top ==> LOW_PASS_BW[j] < budget,
    ensures
        spec_low_pass_from(budget, top) == k,
    decreases top,
{
    if top > k {
        lemma_low_pass_from(budget, top - 1, k);
    }
}

/// The scan from `top` stops on a setting in the table, and every setting it
/// passed over is too narrow for `budget`.
proof fn lemma_low_pass_scan(budget: int, top: int)
    requires
        0 <= top < NUM_LOW_PASS,
    ensures
        0 <= spec_low_pass_from(budget, top) <= top,
        spec_low_pass_from(budget, top) > 0 ==> LOW_PASS_BW[spec_low_pass_from(budget, top)]
            >= budget,
        forall|j: int| spec_low_pass_from(budget, top) < j <= top ==> LOW_PASS_BW[j] < budget,
    decreases top,
{
    if top > 0 && LOW_PASS_BW[top] < budget {
        lemma_low_pass_scan(budget, top - 1);
    }
}

/// What the low-pass choice means: a budget within the widest setting gets
/// the narrowest setting that it does not exceed; a larger one gets the
/// widest.
pub proof fn lemma_low_pass_narrowest(budget: int)
    ensures
        0 <= spec_low_pass_index(budget) < NUM_LOW_PASS,
        budget <= LOW_PASS_BW[0] ==> LOW_PASS_BW[spec_low_pass_index(budget)] >= budget,
        budget <= LOW_PASS_BW[0] ==> forall|j: int|
            0 <= j < NUM_LOW_PASS && #[trigger] LOW_PASS_BW[j] >= budget ==> LOW_PASS_BW[j]
                >= LOW_PASS_BW[spec_low_pass_index(budget)],
        budget > LOW_PASS_BW[0] ==> spec_low_pass_index(budget) == 0,
{
    lemma_low_pass_scan(budget, NUM_LOW_PASS - 1);
    let k = spec_low_pass_index(budget);
    if budget <= LOW_PASS_BW[0] {
        assert forall|j: int| 0 <= j < NUM_LOW_PASS && #[trigger] LOW_PASS_BW[j] >= budget implies
            LOW_PASS_BW[j] >= LOW_PASS_BW[k] by {
            if j < k {
                lemma_low_pass_descends(j, k);
            }
        }
    } else {
        if k > 0 {
            lemma_low_pass_descends(0, k);
        }
    }
}

/// Finds the narrowest low-pass setting that `budget` Hz does not exceed.
pub fn low_pass_index(budget: u32) -> (index: usize)
    ensures
        index == spec_low_pass_index(budget as int),
        index < NUM_LOW_PASS,
{
    let mut index: usize = 0;
    while index + 1 < NUM_LOW_PASS && budget <= LOW_PASS_BW[index + 1]
        invariant
            index < NUM_LOW_PASS,
            index == 0 || LOW_PASS_BW[index as int] >= budget,
        decreases NUM_LOW_PASS - index,
    {
        index = index + 1;
    }
    proof {
        assert forall|j: int| index < j <= NUM_LOW_PASS - 1 implies LOW_PASS_BW[j] < budget by {
            if j > index + 1 {
                lemma_low_pass_descends(index + 1, j);
            }
        }
        lemma_low_pass_from(budget as int, NUM_LOW_PASS - 1, index as int);
    }
    index
}

/// Chooses the filter registers and the intermediate frequency for a
/// requested bandwidth in Hz. The sample rate plays no part in the choice.
pub fn select_bandwidth(bw: u32, _rate: u32) -> (choice: FilterChoice)
    ensures
        choice == spec_select_bandwidth(bw),
{
    if bw > 7_000_000 {
        FilterChoice { if_freq: IF_WIDE, reg_0a: 0x10, reg_0b: 0x0b }
    } else if bw > 6_000_000 {
        FilterChoice { if_freq: IF_WIDE, reg_0a: 0x10, reg_0b: 0x2a }
    } else if bw > LOW_PASS_BW[0] + FILT_HP_BW1 + FILT_HP_BW2 {
        FilterChoice { if_freq: IF_MEDIUM, reg_0a: 0x10, reg_0b: 0x6b }
    } else {
        let mut budget: u32 = bw;
        let mut if_freq: u32 = IF_NARROW;
        let mut real_bw: u32 = 0;
        let mut reg_0b: u8 = 0x80;
        if budget > LOW_PASS_BW[0] + FILT_HP_BW1 {
            budget = budget - FILT_HP_BW2;
            if_freq = if_freq + FILT_HP_BW2;
            real_bw = real_bw + FILT_HP_BW2;
        } else {
            reg_0b = reg_0b + 0x20;
        }
        if budget > LOW_PASS_BW[0] {
            budget = budget - FILT_HP_BW1;
            if_freq = if_freq + FILT_HP_BW1;
            real_bw = real_bw + FILT_HP_BW1;
        } else {
            reg_0b = reg_0b + 0x40;
        }
        let index: usize = low_pass_index(budget);
        reg_0b = reg_0b + (15 - index as u8);
        real_bw = real_bw + LOW_PASS_BW[index];
        if_freq = if_freq - real_bw / 2;
        FilterChoice { if_freq, reg_0a: 0x00, reg_0b }
    }
}

/// The register writes that put a filter choice into effect.
pub open spec fn spec_filter_plan(choice: FilterChoice) -> Seq<RegWrite> {
    seq![
        RegWrite { reg: 0x0a, val: choice.reg_0a, mask: 0x10 },
        RegWrite { reg: 0x0b, val: choice.reg_0b, mask: 0xef },
    ]
}

/// Lists the register writes that put a filter choice into effect.
pub fn filter_plan(choice: &FilterChoice) -> (plan: Vec<RegWrite>)
    ensures
        plan@ == spec_filter_plan(*choice),
        all_in_window(plan@),
{
    vec![
        RegWrite { reg: 0x0a, val: choice.reg_0a, mask: 0x10 },
        RegWrite { reg: 0x0b, val: choice.reg_0b, mask: 0xef },
    ]
}

} // verus!
