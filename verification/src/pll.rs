//! Frequency synthesis: from a local-oscillator target to the divider and
//! modulator values of the phase-locked loop.

use crate::error::TunerError;
use crate::shadow::{all_in_window, RegWrite};
use vstd::arithmetic::div_mod::lemma_fundamental_div_mod;
use vstd::prelude::*;

verus! {

/// Lowest frequency the VCO runs at, in kHz. It covers one octave from here.
pub const VCO_MIN_KHZ: u32 = 1_770_000;

/// Reference point of the VCO fine-tune indicator.
pub const VCO_POWER_REF: u8 = 2;

/// Smallest integer divider ratio the divider register can hold.
pub const NINT_MIN: u8 = 13;

/// Largest integer divider ratio the loop accepts at this VCO power setting.
pub const NINT_MAX: u8 = 128 / VCO_POWER_REF - 1;

/// Largest mixer divider.
pub const MIX_DIV_MAX: u8 = 64;

/// A frequency in Hz, rounded to the nearest kHz.
pub open spec fn spec_khz(hz: int) -> int {
    (hz + 500) / 1000
}

/// Rounds a frequency in Hz to the nearest kHz.
pub fn to_khz(hz: u32) -> (khz: u32)
    ensures
        khz == spec_khz(hz as int),
{
    ((hz as u64 + 500) / 1000) as u32
}

/// Whether the VCO can run at `div` times `freq_khz`.
pub open spec fn in_vco_window(freq_khz: int, div: int) -> bool {
    VCO_MIN_KHZ <= freq_khz * div < 2 * VCO_MIN_KHZ
}

/// The mixer divider for a target in kHz: the smallest of 2, 4, 8, 16, 32 and
/// 64 that brings the VCO into its window, if there is one.
pub open spec fn spec_mix_div(freq_khz: int) -> Option<u8> {
    if in_vco_window(freq_khz, 2) {
        Some(2u8)
    } else if in_vco_window(freq_khz, 4) {
        Some(4u8)
    } else if in_vco_window(freq_khz, 8) {
        Some(8u8)
    } else if in_vco_window(freq_khz, 16) {
        Some(16u8)
    } else if in_vco_window(freq_khz, 32) {
        Some(32u8)
    } else if in_vco_window(freq_khz, 64) {
        Some(64u8)
    } else {
        None
    }
}

/// Whether `d` is one of the mixer dividers 2, 4, 8, 16, 32, 64.
pub open spec fn is_mix_div(d: int) -> bool {
    d == 2 || d == 4 || d == 8 || d == 16 || d == 32 || d == 64
}

/// Searches the mixer dividers in ascending order and returns the first that
/// brings the VCO into its window, or `None` when the target cannot be reached.
pub fn find_mix_div(freq_khz: u32) -> (r: Option<u8>)
    ensures
        r == spec_mix_div(freq_khz as int),
        r matches Some(d) ==> is_mix_div(d as int) && in_vco_window(freq_khz as int, d as int),
        r is None ==> forall|d: int|
            is_mix_div(d) ==> !#[trigger] in_vco_window(freq_khz as int, d),
{
    let mut mix_div: u8 = 2;
    while mix_div <= MIX_DIV_MAX
        invariant
            is_mix_div(mix_div as int) || mix_div == 128,
            forall|d: int|
                is_mix_div(d) && d < mix_div ==> !#[trigger] in_vco_window(freq_khz as int, d),
        decreases 128 - mix_div,
    {
        assert(freq_khz as int * mix_div as int <= freq_khz as int * 64) by (nonlinear_arith)
            requires
                0 <= mix_div <= 64,
        ;
        let vco_khz: u64 = freq_khz as u64 * mix_div as u64;
        if vco_khz >= VCO_MIN_KHZ as u64 && vco_khz < 2 * VCO_MIN_KHZ as u64 {
            return Some(mix_div);
        }
        mix_div = mix_div * 2;
    }
    None
}

/// The divider-select code of a mixer divider: how often it can be halved
/// before it reaches 2.
pub open spec fn spec_div_num(mix_div: int) -> int
    decreases mix_div,
{
    if mix_div <= 2 {
        0
    } else {
        1 + spec_div_num(mix_div / 2)
    }
}

/// The divider-select code of a byte is between 0 and 7.
pub proof fn lemma_div_num_range(mix_div: int)
    requires
        mix_div <= 255,
    ensures
        0 <= spec_div_num(mix_div) <= 7,
{
    reveal_with_fuel(spec_div_num, 9);
}

/// Counts the halvings that take `mix_div` down to 2.
pub fn div_num_of(mix_div: u8) -> (n: u8)
    ensures
        n == spec_div_num(mix_div as int),
        n <= 7,
{
    let mut div_buf: u8 = mix_div;
    let mut div_num: u8 = 0;
    proof {
        lemma_div_num_range(mix_div as int);
    }
    while div_buf > 2
        invariant
            div_num + spec_div_num(div_buf as int) == spec_div_num(mix_div as int),
            spec_div_num(mix_div as int) <= 7,
        decreases div_buf,
    {
        proof {
            lemma_div_num_range(div_buf as int / 2);
        }
        div_buf = div_buf / 2;
        div_num = div_num + 1;
    }
    div_num
}

/// The VCO fine-tune indicator: bits 5 and 4 of the fifth status register.
pub open spec fn spec_vco_fine_tune(status: u8) -> u8 {
    (status & 0x30) >> 4
}

/// Extracts the VCO fine-tune indicator from the fifth status register.
pub fn vco_fine_tune(status: u8) -> (r: u8)
    ensures
        r == spec_vco_fine_tune(status),
        r <= 3,
{
    let r: u8 = (status & 0x30) >> 4;
    assert(r <= 3) by (bit_vector)
        requires
            r == (status & 0x30) >> 4,
    ;
    r
}

/// The divider-select code after compensation for the VCO's tuning range: one
/// less when the fine-tune indicator reads above its reference, one more when
/// it reads below. The code is a three-bit field of a register and is taken
/// modulo 8. Only one input of a tuning attempt wraps: code 0, which belongs
/// to mixer divider 2, with the indicator above its reference gives 7, the
/// field that the chip is then sent. Every other code moves by at most one.
pub open spec fn spec_adjust_div_num(div_num: int, fine_tune: int) -> int {
    if fine_tune > VCO_POWER_REF {
        (div_num + 7) % 8
    } else if fine_tune < VCO_POWER_REF {
        (div_num + 1) % 8
    } else {
        div_num % 8
    }
}

/// Compensates a divider-select code for the VCO's tuning range.
pub fn adjust_div_num(div_num: u8, fine_tune: u8) -> (r: u8)
    ensures
        r == spec_adjust_div_num(div_num as int, fine_tune as int),
        r <= 7,
{
    let code: u8 = div_num % 8;
    if fine_tune > VCO_POWER_REF {
        if code == 0 {
            7
        } else {
            code - 1
        }
    } else if fine_tune < VCO_POWER_REF {
        if code == 7 {
            0
        } else {
            code + 1
        }
    } else {
        code
    }
}

/// Integer and fractional part of the divider ratio between the VCO and
/// twice the crystal reference.
#[derive(Clone, Copy, Debug, PartialEq, Eq, Structural)]
pub struct PllRatio {
    /// The integer divider ratio `N`.
    pub nint: u8,
    /// What `N` leaves of the VCO frequency, in kHz.
    pub vco_fra_khz: u32,
}

/// The VCO frequency in Hz for a target and its mixer divider.
pub open spec fn spec_vco_hz(lo_hz: int, mix_div: int) -> int {
    lo_hz * mix_div
}

/// The integer divider ratio: the VCO frequency over twice the reference,
/// rounded down.
pub open spec fn spec_nint(lo_hz: int, mix_div: int, xtal_hz: int) -> int {
    spec_vco_hz(lo_hz, mix_div) / (2 * xtal_hz)
}

/// Whether the loop can be programmed for this target: there is a reference,
/// and the integer ratio fits the divider register.
pub open spec fn spec_ratio_valid(lo_hz: int, mix_div: int, xtal_hz: int) -> bool {
    xtal_hz > 0 && NINT_MIN <= spec_nint(lo_hz, mix_div, xtal_hz) <= NINT_MAX
}

/// The part of the VCO frequency that the integer ratio leaves to the
/// modulator, in whole kHz.
pub open spec fn spec_vco_fra_khz(lo_hz: int, mix_div: int, xtal_hz: int) -> int {
    (spec_vco_hz(lo_hz, mix_div) - 2 * xtal_hz * spec_nint(lo_hz, mix_div, xtal_hz)) / 1000
}

/// Computes the divider ratio for a target, or fails when the ratio is
/// outside what the divider register holds or there is no reference.
pub fn pll_ratio(lo_hz: u32, mix_div: u8, xtal_hz: u32) -> (r: Result<PllRatio, TunerError>)
    ensures
        r is Ok <==> spec_ratio_valid(lo_hz as int, mix_div as int, xtal_hz as int),
        r is Err ==> r == Err::<PllRatio, TunerError>(TunerError::FrequencyOutOfRange),
        r matches Ok(p) ==> p.nint == spec_nint(lo_hz as int, mix_div as int, xtal_hz as int)
            && p.vco_fra_khz == spec_vco_fra_khz(lo_hz as int, mix_div as int, xtal_hz as int),
{
    if xtal_hz == 0 {
        return Err(TunerError::FrequencyOutOfRange);
    }
    assert(lo_hz as int * mix_div as int <= 0xffff_ffff * 0xff) by (nonlinear_arith)
        requires
            0 <= lo_hz <= 0xffff_ffff,
            0 <= mix_div <= 0xff,
    ;
    let vco: u64 = lo_hz as u64 * mix_div as u64;
    let ref2: u64 = 2 * xtal_hz as u64;
    let n: u64 = vco / ref2;
    if n < NINT_MIN as u64 || n > NINT_MAX as u64 {
        return Err(TunerError::FrequencyOutOfRange);
    }
    let rem: u64 = vco % ref2;
    proof {
        lemma_fundamental_div_mod(vco as int, ref2 as int);
    }
    Ok(PllRatio { nint: n as u8, vco_fra_khz: (rem / 1000) as u32 })
}

/// What the integer ratio and the kHz remainder restore of the VCO
/// frequency: all of it but less than one kHz.
pub proof fn lemma_ratio_restores_vco(lo_hz: int, mix_div: int, xtal_hz: int)
    requires
        0 <= lo_hz,
        0 <= mix_div,
        0 < xtal_hz,
    ensures
        0 <= spec_vco_hz(lo_hz, mix_div) - (spec_nint(lo_hz, mix_div, xtal_hz) * (2 * xtal_hz)
            + spec_vco_fra_khz(lo_hz, mix_div, xtal_hz) * 1000) < 1000,
        0 <= spec_vco_fra_khz(lo_hz, mix_div, xtal_hz) * 1000 < 2 * xtal_hz,
{
    let vco = spec_vco_hz(lo_hz, mix_div);
    assert(0 <= vco) by (nonlinear_arith)
        requires
            vco == lo_hz * mix_div,
            0 <= lo_hz,
            0 <= mix_div,
    ;
    lemma_fundamental_div_mod(vco, 2 * xtal_hz);
    let n = spec_nint(lo_hz, mix_div, xtal_hz);
    assert(2 * xtal_hz * n == (2 * xtal_hz) * (vco / (2 * xtal_hz)));
    assert(n * (2 * xtal_hz) == (2 * xtal_hz) * n) by (nonlinear_arith);
}

/// The byte of the divider register for an integer ratio `N`: `(N - 13) / 4`
/// in the low bits and `(N - 13) % 4` in bits 7 and 6.
pub open spec fn spec_nint_byte(nint: int) -> int {
    (nint - NINT_MIN) / 4 + ((nint - NINT_MIN) % 4) * 64
}

/// Computes the byte of the divider register for an integer ratio.
pub(crate) fn nint_byte(nint: u8) -> (r: u8)
    requires
        NINT_MIN <= nint <= NINT_MAX,
    ensures
        r == spec_nint_byte(nint as int),
{
    let ni: u8 = (nint - NINT_MIN) / 4;
    let si: u8 = nint - 4 * ni - NINT_MIN;
    ni + si * 64
}

/// A modulator word computation: the word so far, the number of steps
/// taken, and, once it has ended, what it left of the fraction.
pub struct SdmRun {
    pub word: int,
    pub steps: int,
    pub rest_khz: int,
}

/// The modulator word computation from the step with divisor `n_sdm` on.
/// Each step compares what is left of the fraction with the threshold
/// `ref2_khz / n_sdm`; where the fraction is larger, the step's weight enters
/// the word and the threshold leaves the fraction. The divisor doubles and
/// the weight halves from step to step. The computation ends when at most one
/// kHz is left or the divisor has passed `0x8000`, and records what is left.
pub open spec fn spec_sdm_from(
    fra_khz: int,
    ref2_khz: int,
    n_sdm: int,
    weight: int,
    run: SdmRun,
) -> SdmRun
    decreases weight,
{
    if fra_khz <= 1 || n_sdm > 0x8000 || weight < 2 {
        SdmRun { rest_khz: fra_khz, ..run }
    } else if fra_khz > ref2_khz / n_sdm {
        spec_sdm_from(
            fra_khz - ref2_khz / n_sdm,
            ref2_khz,
            2 * n_sdm,
            weight / 2,
            SdmRun { word: run.word + weight, steps: run.steps + 1, ..run },
        )
    } else {
        spec_sdm_from(
            fra_khz,
            ref2_khz,
            2 * n_sdm,
            weight / 2,
            SdmRun { steps: run.steps + 1, ..run },
        )
    }
}

/// The modulator word computation for a fraction of `fra_khz` against a
/// reference of `ref_khz`: it starts at divisor 2 with weight `0x8000`.
pub open spec fn spec_sdm(fra_khz: int, ref_khz: int) -> SdmRun {
    spec_sdm_from(fra_khz, 2 * ref_khz, 2, 0x8000, SdmRun { word: 0, steps: 0, rest_khz: 0 })
}

/// The weights of the modulator word's bits, with the 1 that ends their
/// sequence.
pub open spec fn is_sdm_weight(w: int) -> bool {
    w == 0x8000 || w == 0x4000 || w == 0x2000 || w == 0x1000 || w == 0x800 || w == 0x400 || w
        == 0x200 || w == 0x100 || w == 0x80 || w == 0x40 || w == 0x20 || w == 0x10 || w == 8 || w
        == 4 || w == 2 || w == 1
}

/// How many times `weight` can be halved before it drops below 2.
pub open spec fn spec_halvings(weight: int) -> int
    decreases weight,
{
    if weight < 2 {
        0
    } else {
        1 + spec_halvings(weight / 2)
    }
}

/// Bounds of a modulator word computation under way: with weight `w` still
/// to come, the word grows by at most `2 * w - 2` and the steps by at most
/// the number of halvings that `w` allows.
pub proof fn lemma_sdm_from_bounds(
    fra_khz: int,
    ref2_khz: int,
    n_sdm: int,
    weight: int,
    run: SdmRun,
)
    requires
        0 <= weight,
    ensures
        run.word <= spec_sdm_from(fra_khz, ref2_khz, n_sdm, weight, run).word,
        spec_sdm_from(fra_khz, ref2_khz, n_sdm, weight, run).word <= run.word + (if weight < 2 {
            0
        } else {
            2 * weight - 2
        }),
        run.steps <= spec_sdm_from(fra_khz, ref2_khz, n_sdm, weight, run).steps <= run.steps
            + spec_halvings(weight),
    decreases weight,
{
    if fra_khz <= 1 || n_sdm > 0x8000 || weight < 2 {
        if weight >= 2 {
            lemma_halvings_nonnegative(weight / 2);
        }
    } else if fra_khz > ref2_khz / n_sdm {
        lemma_sdm_from_bounds(
            fra_khz - ref2_khz / n_sdm,
            ref2_khz,
            2 * n_sdm,
            weight / 2,
            SdmRun { word: run.word + weight, steps: run.steps + 1, ..run },
        );
    } else {
        lemma_sdm_from_bounds(
            fra_khz,
            ref2_khz,
            2 * n_sdm,
            weight / 2,
            SdmRun { steps: run.steps + 1, ..run },
        );
    }
}

proof fn lemma_halvings_nonnegative(weight: int)
    ensures
        0 <= spec_halvings(weight),
    decreases weight,
{
    if weight >= 2 {
        lemma_halvings_nonnegative(weight / 2);
    }
}

/// The modulator word computation ends within the sixteen steps that the
/// width of the word allows, whatever the fraction and the reference, and its
/// word fits sixteen bits.
pub proof fn lemma_sdm_terminates(fra_khz: int, ref_khz: int)
    ensures
        0 <= spec_sdm(fra_khz, ref_khz).steps <= 16,
        0 <= spec_sdm(fra_khz, ref_khz).word <= 0xffff,
{
    let start = SdmRun { word: 0, steps: 0, rest_khz: 0 };
    lemma_sdm_from_bounds(fra_khz, 2 * ref_khz, 2, 0x8000, start);
    assert(spec_halvings(0x8000) == 15) by {
        reveal_with_fuel(spec_halvings, 17);
    }
}

/// How a step's threshold and weight compare: the weight over `0x10000` of
/// the doubled reference is the threshold, up to the kHz lost in rounding
/// the threshold down.
proof fn lemma_sdm_step_weight(ref2_khz: int, n_sdm: int, weight: int)
    by (nonlinear_arith)
    requires
        0 <= ref2_khz,
        0 < n_sdm,
        0 < weight,
        n_sdm * weight == 0x10000,
    ensures
        0x10000 * (ref2_khz / n_sdm) <= weight * ref2_khz < 0x10000 * (ref2_khz / n_sdm + 1),
        (2 * ref2_khz) / n_sdm <= 2 * (ref2_khz / n_sdm) + 1,
        (2 * ref2_khz) / (2 * n_sdm) == ref2_khz / n_sdm,
        0 <= ref2_khz / n_sdm,
{
}

/// What a modulator word computation under way adds to the word stands for
/// what it takes off the fraction, up to one kHz for each step; and it leaves
/// little of a fraction that was within reach of its first step, up to
/// `slack`.
proof fn lemma_sdm_from_accuracy(
    fra_khz: int,
    ref2_khz: int,
    n_sdm: int,
    weight: int,
    run: SdmRun,
    slack: int,
)
    requires
        0 <= fra_khz,
        0 <= ref2_khz,
        is_sdm_weight(weight),
        n_sdm * weight == 0x10000,
        1 <= slack,
        fra_khz <= (2 * ref2_khz) / n_sdm + slack,
    ensures
        ({
            let end = spec_sdm_from(fra_khz, ref2_khz, n_sdm, weight, run);
            let taken = fra_khz - end.rest_khz;
            &&& 0 <= end.rest_khz <= fra_khz
            &&& 0x10000 * taken <= (end.word - run.word) * ref2_khz
            &&& (end.word - run.word) * ref2_khz <= 0x10000 * (taken + (end.steps - run.steps))
            &&& end.rest_khz <= ref2_khz / 0x8000 + slack + spec_halvings(weight)
        }),
    decreases weight,
{
    let end = spec_sdm_from(fra_khz, ref2_khz, n_sdm, weight, run);
    lemma_halvings_nonnegative(weight);
    assert(n_sdm > 0) by (nonlinear_arith)
        requires
            n_sdm * weight == 0x10000,
            weight > 0,
    ;
    if fra_khz <= 1 || n_sdm > 0x8000 || weight < 2 {
        assert(0 <= ref2_khz / 0x8000);
        assert((end.word - run.word) * ref2_khz == 0) by (nonlinear_arith)
            requires
                end.word == run.word,
        ;
        if fra_khz > 1 {
            assert(n_sdm == 0x10000 && weight == 1) by (nonlinear_arith)
                requires
                    n_sdm * weight == 0x10000,
                    is_sdm_weight(weight),
                    n_sdm > 0x8000 || weight < 2,
            ;
            assert((2 * ref2_khz) / 0x10000 == ref2_khz / 0x8000);
        }
    } else {
        let step = ref2_khz / n_sdm;
        lemma_sdm_next_step(n_sdm, weight);
        lemma_sdm_step_weight(ref2_khz, n_sdm, weight);
        assert(spec_halvings(weight) == 1 + spec_halvings(weight / 2));
        if fra_khz > step {
            let next = SdmRun { word: run.word + weight, steps: run.steps + 1, ..run };
            lemma_sdm_from_accuracy(
                fra_khz - step,
                ref2_khz,
                2 * n_sdm,
                weight / 2,
                next,
                slack + 1,
            );
            assert((end.word - run.word) * ref2_khz == (end.word - next.word) * ref2_khz + weight
                * ref2_khz) by (nonlinear_arith)
                requires
                    next.word == run.word + weight,
            ;
        } else {
            let next = SdmRun { steps: run.steps + 1, ..run };
            lemma_sdm_from_accuracy(fra_khz, ref2_khz, 2 * n_sdm, weight / 2, next, slack + 1);
        }
    }
}

/// How well the modulator word stands for the fraction. Scaled back to kHz,
/// that is times twice the reference over `0x10000`, the word is no less than
/// the part of the fraction that the steps took, and exceeds it by at most
/// one kHz for each step. What the steps left of the fraction is at most
/// sixteen kHz more than the last threshold. This holds for every fraction
/// that a divider ratio can leave: up to twice the reference, and the one
/// kHz more that rounding the reference to kHz may cost.
pub proof fn lemma_sdm_accuracy(fra_khz: int, ref_khz: int)
    requires
        0 <= ref_khz,
        0 <= fra_khz <= 2 * ref_khz + 1,
    ensures
        ({
            let end = spec_sdm(fra_khz, ref_khz);
            &&& 0 <= end.rest_khz <= (2 * ref_khz) / 0x8000 + 16
            &&& 0x10000 * (fra_khz - end.rest_khz) <= end.word * (2 * ref_khz)
            &&& end.word * (2 * ref_khz) <= 0x10000 * (fra_khz - end.rest_khz + end.steps)
            &&& end.steps <= 15
        }),
{
    let start = SdmRun { word: 0, steps: 0, rest_khz: 0 };
    assert((2 * (2 * ref_khz)) / 2 == 2 * ref_khz);
    lemma_sdm_from_accuracy(fra_khz, 2 * ref_khz, 2, 0x8000, start, 1);
    lemma_sdm_from_bounds(fra_khz, 2 * ref_khz, 2, 0x8000, start);
    assert(spec_halvings(0x8000) == 15) by {
        reveal_with_fuel(spec_halvings, 17);
    }
}

/// A divisor and its weight multiply to `0x10000`, before and after a step.
proof fn lemma_sdm_next_step(n_sdm: int, weight: int)
    by (nonlinear_arith)
    requires
        is_sdm_weight(weight),
        weight >= 2,
        n_sdm * weight == 0x10000,
    ensures
        2 <= n_sdm <= 0x8000,
        is_sdm_weight(weight / 2),
        (2 * n_sdm) * (weight / 2) == 0x10000,
{
}

/// Computes the sixteen-bit modulator word for a fraction of `vco_fra_khz`
/// against a reference of `pll_ref_khz`.
pub fn sdm_word(vco_fra_khz: u32, pll_ref_khz: u32) -> (sdm: u16)
    ensures
        sdm == spec_sdm(vco_fra_khz as int, pll_ref_khz as int).word,
{
    let ref2_khz: u64 = 2 * pll_ref_khz as u64;
    let mut fra: u32 = vco_fra_khz;
    let mut n_sdm: u64 = 2;
    let mut weight: u32 = 0x8000;
    let mut sdm: u32 = 0;
    let ghost mut steps: int = 0;
    while fra > 1 && weight >= 2
        invariant
            ref2_khz == 2 * pll_ref_khz,
            is_sdm_weight(weight as int),
            n_sdm * weight == 0x10000,
            sdm + 2 * weight <= 0x10000,
            spec_sdm(vco_fra_khz as int, pll_ref_khz as int) == spec_sdm_from(
                fra as int,
                ref2_khz as int,
                n_sdm as int,
                weight as int,
                SdmRun { word: sdm as int, steps: steps, rest_khz: 0 },
            ),
        decreases weight,
    {
        proof {
            lemma_sdm_next_step(n_sdm as int, weight as int);
        }
        let step: u64 = ref2_khz / n_sdm;
        if fra as u64 > step {
            sdm = sdm + weight;
            fra = (fra as u64 - step) as u32;
        }
        n_sdm = 2 * n_sdm;
        weight = weight / 2;
        proof {
            steps = steps + 1;
        }
    }
    sdm as u16
}

/// Whether the third status register reports that the loop has locked.
pub open spec fn spec_pll_locked(status: u8) -> bool {
    status & 0x40 != 0
}

/// Reads the lock flag from the third status register.
pub fn pll_locked(status: u8) -> (r: bool)
    ensures
        r == spec_pll_locked(status),
{
    status & 0x40 != 0
}

/// A tuning attempt that has found its mixer divider and waits for the VCO
/// fine-tune indicator to be read back.
#[derive(Clone, Copy, Debug, PartialEq, Eq, Structural)]
pub struct PllSearch {
    /// The local-oscillator target, in Hz.
    pub lo_freq: u32,
    /// The mixer divider that brings the VCO into its window for the target.
    pub mix_div: u8,
}

/// A tuning attempt whose dividers are programmed and which waits for the
/// lock flag to be read back.
#[derive(Clone, Copy, Debug, PartialEq, Eq, Structural)]
pub struct PllProgram {
    /// The integer divider ratio that was programmed.
    pub nint: u8,
    /// The modulator word that was programmed.
    pub sdm: u16,
    /// Whether the lock flag has been polled once without success.
    pub retried: bool,
}

/// What a poll of the lock flag leads to, short of failure.
#[derive(Clone, Copy, Debug, PartialEq, Eq, Structural)]
pub enum PllLock {
    /// The loop has locked; the attempt is over.
    Locked,
    /// The loop has not locked yet; the VCO current was raised and the flag
    /// is to be polled once more.
    Retry(PllProgram),
}

/// VCO current setting, used when an attempt starts and again before the
/// second poll of the lock flag.
pub const VCO_CURRENT_MAX: u8 = 0x06;

/// The register writes that open a tuning attempt: reference divider off,
/// wide auto-tune for acquisition, and the VCO current.
pub open spec fn spec_start_plan() -> Seq<RegWrite> {
    seq![
        RegWrite { reg: 0x10, val: 0x00, mask: 0x10 },
        RegWrite { reg: 0x1a, val: 0x00, mask: 0x0c },
        RegWrite { reg: 0x12, val: VCO_CURRENT_MAX, mask: 0xff },
    ]
}

/// Lists the register writes that open a tuning attempt.
pub fn start_plan() -> (plan: Vec<RegWrite>)
    ensures
        plan@ == spec_start_plan(),
        all_in_window(plan@),
{
    vec![
        RegWrite { reg: 0x10, val: 0x00, mask: 0x10 },
        RegWrite { reg: 0x1a, val: 0x00, mask: 0x0c },
        RegWrite { reg: 0x12, val: VCO_CURRENT_MAX, mask: 0xff },
    ]
}

/// How an attempt for `lo_freq` starts: with the mixer divider for the target
/// rounded to kHz, or not at all when no divider reaches it.
pub open spec fn spec_start_search(lo_freq: u32) -> Result<PllSearch, TunerError> {
    match spec_mix_div(spec_khz(lo_freq as int)) {
        Some(mix_div) => Ok(PllSearch { lo_freq, mix_div }),
        None => Err(TunerError::FrequencyOutOfRange),
    }
}

/// Finds the mixer divider for a local-oscillator target in Hz.
pub fn start_search(lo_freq: u32) -> (r: Result<PllSearch, TunerError>)
    ensures
        r == spec_start_search(lo_freq),
{
    match find_mix_div(to_khz(lo_freq)) {
        Some(mix_div) => Ok(PllSearch { lo_freq, mix_div }),
        None => Err(TunerError::FrequencyOutOfRange),
    }
}

/// The divider-select code for an attempt, given the fifth status register.
pub open spec fn spec_div_code(search: PllSearch, status: u8) -> int {
    spec_adjust_div_num(spec_div_num(search.mix_div as int), spec_vco_fine_tune(status) as int)
}

/// What programming the dividers leads to: the attempt goes on with the
/// integer ratio and the modulator word, or ends because the ratio does not
/// fit.
pub open spec fn spec_divider_outcome(search: PllSearch, xtal_hz: u32) -> Result<
    PllProgram,
    TunerError,
> {
    let lo = search.lo_freq as int;
    let mix = search.mix_div as int;
    let xtal = xtal_hz as int;
    if spec_ratio_valid(lo, mix, xtal) {
        Ok(
            PllProgram {
                nint: spec_nint(lo, mix, xtal) as u8,
                sdm: spec_sdm(spec_vco_fra_khz(lo, mix, xtal), spec_khz(xtal)).word as u16,
                retried: false,
            },
        )
    } else {
        Err(TunerError::FrequencyOutOfRange)
    }
}

/// The register writes that program the dividers, in the order in which they
/// are sent. The divider-select code goes first, into bits 7 to 5 of its
/// register. Where the integer ratio fits, its byte follows, then the mode
/// bit, which is set when the ratio leaves no fraction, then the high and the
/// low byte of the modulator word.
pub open spec fn spec_divider_plan(search: PllSearch, xtal_hz: u32, status: u8) -> Seq<RegWrite> {
    let select = seq![
        RegWrite { reg: 0x10, val: (spec_div_code(search, status) * 32) as u8, mask: 0xe0 },
    ];
    match spec_divider_outcome(search, xtal_hz) {
        Ok(program) => {
            let fra = spec_vco_fra_khz(
                search.lo_freq as int,
                search.mix_div as int,
                xtal_hz as int,
            );
            select + seq![
                RegWrite { reg: 0x14, val: spec_nint_byte(program.nint as int) as u8, mask: 0xff },
                RegWrite {
                    reg: 0x12,
                    val: if fra == 0 {
                        0x08u8
                    } else {
                        0x00u8
                    },
                    mask: 0x08,
                },
                RegWrite { reg: 0x16, val: (program.sdm / 256) as u8, mask: 0xff },
                RegWrite { reg: 0x15, val: (program.sdm % 256) as u8, mask: 0xff },
            ]
        },
        Err(_) => select,
    }
}

/// Works out the register writes that program the dividers for an attempt,
/// and how the attempt goes on.
pub fn divider_plan(search: &PllSearch, xtal_hz: u32, status: u8) -> (r: (
    Vec<RegWrite>,
    Result<PllProgram, TunerError>,
))
    ensures
        r.0@ == spec_divider_plan(*search, xtal_hz, status),
        r.1 == spec_divider_outcome(*search, xtal_hz),
        all_in_window(r.0@),
{
    let div_num = adjust_div_num(div_num_of(search.mix_div), vco_fine_tune(status));
    let mut plan: Vec<RegWrite> = vec![RegWrite { reg: 0x10, val: div_num * 32, mask: 0xe0 }];
    match pll_ratio(search.lo_freq, search.mix_div, xtal_hz) {
        Err(e) => (plan, Err(e)),
        Ok(ratio) => {
            let sdm = sdm_word(ratio.vco_fra_khz, to_khz(xtal_hz));
            let mode: u8 = if ratio.vco_fra_khz == 0 {
                0x08
            } else {
                0x00
            };
            plan.push(RegWrite { reg: 0x14, val: nint_byte(ratio.nint), mask: 0xff });
            plan.push(RegWrite { reg: 0x12, val: mode, mask: 0x08 });
            plan.push(RegWrite { reg: 0x16, val: (sdm / 256) as u8, mask: 0xff });
            plan.push(RegWrite { reg: 0x15, val: (sdm % 256) as u8, mask: 0xff });
            proof {
                assert(plan@ =~= spec_divider_plan(*search, xtal_hz, status));
            }
            (plan, Ok(PllProgram { nint: ratio.nint, sdm, retried: false }))
        },
    }
}

/// What a poll of the lock flag leads to, given the third status register: a
/// locked loop, one more poll after the first failure, or failure after the
/// second.
pub open spec fn spec_lock_outcome(program: PllProgram, status: u8) -> Result<PllLock, TunerError> {
    if spec_pll_locked(status) {
        Ok(PllLock::Locked)
    } else if !program.retried {
        Ok(PllLock::Retry(PllProgram { retried: true, ..program }))
    } else {
        Err(TunerError::PllLockFailure)
    }
}

/// The register writes that follow a poll of the lock flag: narrow auto-tune
/// for tracking once the loop has locked, the VCO current before the second
/// poll, and nothing once the attempt has failed.
pub open spec fn spec_lock_plan(program: PllProgram, status: u8) -> Seq<RegWrite> {
    if spec_pll_locked(status) {
        seq![RegWrite { reg: 0x1a, val: 0x08, mask: 0x08 }]
    } else if !program.retried {
        seq![RegWrite { reg: 0x12, val: VCO_CURRENT_MAX, mask: 0xff }]
    } else {
        Seq::empty()
    }
}

/// Works out the register writes that follow a poll of the lock flag, and
/// how the attempt goes on.
pub fn lock_plan(program: &PllProgram, status: u8) -> (r: (
    Vec<RegWrite>,
    Result<PllLock, TunerError>,
))
    ensures
        r.0@ == spec_lock_plan(*program, status),
        r.1 == spec_lock_outcome(*program, status),
        all_in_window(r.0@),
{
    if pll_locked(status) {
        (vec![RegWrite { reg: 0x1a, val: 0x08, mask: 0x08 }], Ok(PllLock::Locked))
    } else if !program.retried {
        (
            vec![RegWrite { reg: 0x12, val: VCO_CURRENT_MAX, mask: 0xff }],
            Ok(PllLock::Retry(PllProgram { nint: program.nint, sdm: program.sdm, retried: true })),
        )
    } else {
        (Vec::new(), Err(TunerError::PllLockFailure))
    }
}

/// An attempt polls the lock flag at most twice: the poll that follows a
/// retry ends the attempt, locked or not.
pub proof fn lemma_at_most_two_polls(program: PllProgram, first: u8, second: u8)
    requires
        !program.retried,
    ensures
        spec_lock_outcome(program, first) matches Ok(PllLock::Retry(next)) ==> {
            &&& next == (PllProgram { retried: true, ..program })
            &&& !(spec_lock_outcome(next, second) matches Ok(PllLock::Retry(_)))
            &&& spec_lock_outcome(next, second) is Err <==> !spec_pll_locked(second)
        },
        spec_lock_outcome(program, first) is Ok,
{
}

/// The mixer divider that the search accepts brings the VCO into its window,
/// no smaller divider does, and no other divider does either: the windows of
/// the dividers do not overlap.
pub proof fn lemma_mix_div_only_choice(freq_khz: int, d: int)
    requires
        0 <= freq_khz,
        is_mix_div(d),
    ensures
        in_vco_window(freq_khz, d) <==> spec_mix_div(freq_khz) == Some(d as u8),
{
    if d == 2 {
        assert(freq_khz * d == freq_khz * 2);
    } else if d == 4 {
        assert(freq_khz * d == freq_khz * 4);
    } else if d == 8 {
        assert(freq_khz * d == freq_khz * 8);
    } else if d == 16 {
        assert(freq_khz * d == freq_khz * 16);
    } else if d == 32 {
        assert(freq_khz * d == freq_khz * 32);
    } else {
        assert(freq_khz * d == freq_khz * 64);
    }
}

/// The compensated divider-select code of a tuning attempt is the code of its
/// mixer divider, or one next to it, on every input but the one that wraps.
pub proof fn lemma_div_code_moves_by_one(mix_div: int, fine_tune: int)
    requires
        is_mix_div(mix_div),
        !(mix_div == 2 && fine_tune > VCO_POWER_REF),
    ensures
        spec_div_num(mix_div) - 1 <= spec_adjust_div_num(spec_div_num(mix_div), fine_tune)
            <= spec_div_num(mix_div) + 1,
        0 <= spec_adjust_div_num(spec_div_num(mix_div), fine_tune) <= 6,
        fine_tune == VCO_POWER_REF ==> spec_adjust_div_num(spec_div_num(mix_div), fine_tune)
            == spec_div_num(mix_div),
{
    reveal_with_fuel(spec_div_num, 7);
}

/// Address of the first status register. Reads of the chip start here.
pub const STATUS_REG: u8 = 0x00;

/// Number of status registers to read for the VCO fine-tune indicator.
pub const VCO_STATUS_LEN: usize = 5;

/// Number of status registers to read for the lock flag.
pub const LOCK_STATUS_LEN: usize = 3;

/// The frames that ask for the status registers: one frame that holds the
/// address of the first of them when `wanted`, none otherwise.
pub open spec fn spec_status_request(wanted: bool) -> Seq<Seq<u8>> {
    if wanted {
        seq![seq![STATUS_REG]]
    } else {
        Seq::empty()
    }
}

/// Whether the loop counts as locked after a poll: a poll that ends the
/// attempt settles it, one that leads to another poll leaves it as it was.
pub open spec fn spec_locked_after(before: bool, outcome: Result<PllLock, TunerError>) -> bool {
    match outcome {
        Ok(PllLock::Locked) => true,
        Ok(PllLock::Retry(_)) => before,
        Err(_) => false,
    }
}

} // verus!
