//! The table of RF bands and the rule that picks a band for a frequency.

use vstd::prelude::*;

verus! {

/// Front-end settings of one RF band: they apply from `threshold_mhz` upwards,
/// until the next band of the table takes over.
#[derive(Clone, Copy, Debug, PartialEq, Eq, Structural)]
pub struct FrequencyRange {
    /// Lowest frequency of the band, in MHz.
    pub threshold_mhz: u32,
    /// Open-drain setting.
    pub open_drain: u8,
    /// RF mux and polyphase filter setting.
    pub rf_mux_poly: u8,
    /// Tracking filter band.
    pub tf_band: u8,
    /// Crystal capacitor trim used with the 30 pF and 20 pF settings.
    pub xtal_cap_20p: u8,
    /// Crystal capacitor trim used with the 10 pF setting.
    pub xtal_cap_10p: u8,
    /// Crystal capacitor trim used with the 0 pF settings.
    pub xtal_cap_0p: u8,
}

/// Which crystal load capacitance the board is built for.
#[derive(Clone, Copy, Debug, PartialEq, Eq, Structural)]
pub enum CrystalCapMode {
    Low30p,
    Low20p,
    Low10p,
    Low0p,
    High0p,
}

/// Number of bands in the table.
pub const NUM_RANGES: usize = 21;

/// Lowest frequency of each band, in MHz, ascending.
pub const THRESHOLD_MHZ: [u32; 21] = [
    0, 50, 55, 60, 65, 70, 75, 80, 90, 100, 110, 120, 140, 180, 220, 250, 280, 310, 450, 588, 650,
];

/// Open-drain setting of each band.
pub const OPEN_DRAIN: [u8; 21] = [
    0x08, 0x08, 0x08, 0x08, 0x08, 0x08, 0x00, 0x00, 0x00, 0x00, 0x00, 0x00, 0x00, 0x00, 0x00, 0x00,
    0x00, 0x00, 0x00, 0x00, 0x00,
];

/// RF mux and polyphase filter setting of each band.
pub const RF_MUX_POLY: [u8; 21] = [
    0x02, 0x02, 0x02, 0x02, 0x02, 0x02, 0x02, 0x02, 0x02, 0x02, 0x02, 0x02, 0x02, 0x02, 0x02, 0x02,
    0x02, 0x41, 0x41, 0x40, 0x40,
];

/// Tracking filter band of each band.
pub const TF_BAND: [u8; 21] = [
    0xdf, 0xbe, 0x8b, 0x7b, 0x69, 0x58, 0x44, 0x44, 0x34, 0x34, 0x24, 0x24, 0x14, 0x13, 0x13, 0x11,
    0x00, 0x00, 0x00, 0x00, 0x00,
];

/// Crystal capacitor trim of each band for the 30 pF and 20 pF settings.
pub const XTAL_CAP_20P: [u8; 21] = [
    0x02, 0x02, 0x02, 0x02, 0x02, 0x02, 0x02, 0x02, 0x01, 0x01, 0x01, 0x01, 0x01, 0x00, 0x00, 0x00,
    0x00, 0x00, 0x00, 0x00, 0x00,
];

/// Crystal capacitor trim of each band for the 10 pF setting.
pub const XTAL_CAP_10P: [u8; 21] = [
    0x01, 0x01, 0x01, 0x01, 0x01, 0x01, 0x01, 0x01, 0x01, 0x01, 0x01, 0x01, 0x01, 0x00, 0x00, 0x00,
    0x00, 0x00, 0x00, 0x00, 0x00,
];

/// Crystal capacitor trim of each band for the 0 pF settings.
pub const XTAL_CAP_0P: [u8; 21] = [
    0x00, 0x00, 0x00, 0x00, 0x00, 0x00, 0x00, 0x00, 0x00, 0x00, 0x00, 0x00, 0x00, 0x00, 0x00, 0x00,
    0x00, 0x00, 0x00, 0x00, 0x00,
];

/// Band `i` of the table.
pub open spec fn spec_range_at(i: int) -> FrequencyRange {
    FrequencyRange {
        threshold_mhz: THRESHOLD_MHZ[i],
        open_drain: OPEN_DRAIN[i],
        rf_mux_poly: RF_MUX_POLY[i],
        tf_band: TF_BAND[i],
        xtal_cap_20p: XTAL_CAP_20P[i],
        xtal_cap_10p: XTAL_CAP_10P[i],
        xtal_cap_0p: XTAL_CAP_0P[i],
    }
}

/// The highest band at or below `top` whose threshold does not exceed `mhz`;
/// band 0 when there is none.
pub open spec fn spec_band_from(mhz: int, top: int) -> int
    decreases top,
{
    if top <= 0 {
        0
    } else if THRESHOLD_MHZ[top] <= mhz {
        top
    } else {
        spec_band_from(mhz, top - 1)
    }
}

/// Index of the band that serves a frequency given in MHz.
pub open spec fn spec_band_index(mhz: int) -> int {
    spec_band_from(mhz, NUM_RANGES - 1)
}

/// The band that serves a frequency given in Hz.
pub open spec fn spec_select_range(freq_hz: u32) -> FrequencyRange {
    spec_range_at(spec_band_index(freq_hz as int / 1_000_000))
}

/// The thresholds of the table strictly ascend.
pub proof fn lemma_thresholds_ascend(i: int, j: int)
    requires
        0 <= i < j < NUM_RANGES,
    ensures
        THRESHOLD_MHZ[i] < THRESHOLD_MHZ[j],
    decreases j - i,
{
    if i + 1 < j {
        lemma_thresholds_ascend(i, j - 1);
    }
    assert(THRESHOLD_MHZ[j - 1] < THRESHOLD_MHZ[j]);
}

/// A band whose threshold does not exceed `mhz`, while all bands above it up
/// to `top` start higher, is the one the scan from `top` finds.
proof fn lemma_band_from(mhz: int, top: int, k: int)
    requires
        0 <= k <= top < NUM_RANGES,
        THRESHOLD_MHZ[k] <= mhz,
        forall|j: int| k < j <= top ==> THRESHOLD_MHZ[j] > mhz,
    ensures
        spec_band_from(mhz, top) == k,
    decreases top,
{
    if top > k {
        lemma_band_from(mhz, top - 1, k);
    }
}

/// What band selection means: for every frequency, the selected band is the
/// one with the greatest threshold that does not exceed the frequency in MHz.
pub proof fn lemma_select_range_greatest(freq_hz: u32)
    ensures
        0 <= spec_band_index(freq_hz as int / 1_000_000) < NUM_RANGES,
        spec_select_range(freq_hz).threshold_mhz <= freq_hz as int / 1_000_000,
        forall|j: int|
            0 <= j < NUM_RANGES && THRESHOLD_MHZ[j] <= freq_hz as int / 1_000_000
                ==> THRESHOLD_MHZ[j] <= spec_select_range(freq_hz).threshold_mhz,
{
    let mhz = freq_hz as int / 1_000_000;
    lemma_band_scan(mhz, NUM_RANGES - 1);
    let k = spec_band_index(mhz);
    assert forall|j: int| 0 <= j < NUM_RANGES && THRESHOLD_MHZ[j] <= mhz implies THRESHOLD_MHZ[j]
        <= THRESHOLD_MHZ[k] by {
        if j > k {
            assert(THRESHOLD_MHZ[j] > mhz);
        } else if j < k {
            lemma_thresholds_ascend(j, k);
        }
    }
}

/// The scan from `top` stops on a band that does not start above `mhz`, and
/// every band it passed over does.
proof fn lemma_band_scan(mhz: int, top: int)
    requires
        0 <= mhz,
        0 <= top < NUM_RANGES,
    ensures
        0 <= spec_band_from(mhz, top) <= top,
        THRESHOLD_MHZ[spec_band_from(mhz, top)] <= mhz,
        forall|j: int| spec_band_from(mhz, top) < j <= top ==> THRESHOLD_MHZ[j] > mhz,
    decreases top,
{
    if top > 0 && THRESHOLD_MHZ[top] > mhz {
        lemma_band_scan(mhz, top - 1);
    }
}

/// Queried exactly at the threshold of band `i`, selection returns band `i`.
pub proof fn lemma_select_range_at_threshold(i: int)
    requires
        0 <= i < NUM_RANGES,
    ensures
        THRESHOLD_MHZ[i] * 1_000_000 <= u32::MAX,
        spec_select_range((THRESHOLD_MHZ[i] * 1_000_000) as u32) == spec_range_at(i),
{
    if i < NUM_RANGES - 1 {
        lemma_thresholds_ascend(i, NUM_RANGES - 1);
    }
    let t = THRESHOLD_MHZ[i] as int;
    assert(t <= 650);
    assert((t * 1_000_000) / 1_000_000 == t);
    assert forall|j: int| i < j <= NUM_RANGES - 1 implies THRESHOLD_MHZ[j] > t by {
        lemma_thresholds_ascend(i, j);
    }
    lemma_band_from(t, NUM_RANGES - 1, i);
}

fn range_at(i: usize) -> (r: FrequencyRange)
    requires
        i < NUM_RANGES,
    ensures
        r == spec_range_at(i as int),
{
    FrequencyRange {
        threshold_mhz: THRESHOLD_MHZ[i],
        open_drain: OPEN_DRAIN[i],
        rf_mux_poly: RF_MUX_POLY[i],
        tf_band: TF_BAND[i],
        xtal_cap_20p: XTAL_CAP_20P[i],
        xtal_cap_10p: XTAL_CAP_10P[i],
        xtal_cap_0p: XTAL_CAP_0P[i],
    }
}

/// Picks the band for a frequency in Hz: the band with the greatest threshold
/// that does not exceed the frequency. Frequencies above the last threshold
/// get the last band.
pub fn select_range(freq_hz: u32) -> (r: FrequencyRange)
    ensures
        r == spec_select_range(freq_hz),
        r.threshold_mhz <= freq_hz / 1_000_000,
        forall|j: int|
            0 <= j < NUM_RANGES && THRESHOLD_MHZ[j] <= freq_hz / 1_000_000 ==> THRESHOLD_MHZ[j]
                <= r.threshold_mhz,
{
    let mhz: u32 = freq_hz / 1_000_000;
    let mut k: usize = 0;
    while k + 1 < NUM_RANGES && THRESHOLD_MHZ[k + 1] <= mhz
        invariant
            k < NUM_RANGES,
            THRESHOLD_MHZ[k as int] <= mhz,
        decreases NUM_RANGES - k,
    {
        k = k + 1;
    }
    proof {
        assert forall|j: int| k < j <= NUM_RANGES - 1 implies THRESHOLD_MHZ[j] > mhz by {
            if j > k + 1 {
                lemma_thresholds_ascend(k + 1, j);
            }
        }
        lemma_band_from(mhz as int, NUM_RANGES - 1, k as int);
        lemma_select_range_greatest(freq_hz);
    }
    range_at(k)
}

/// The crystal capacitor and drive byte for a band: the 30 pF and 20 pF
/// settings share one trim, the 10 pF setting has its own, and the two 0 pF
/// settings share the third; every setting but `High0p` adds the drive bit.
pub open spec fn spec_xtal_cap_byte(range: FrequencyRange, mode: CrystalCapMode) -> u8 {
    match mode {
        CrystalCapMode::Low30p | CrystalCapMode::Low20p => range.xtal_cap_20p | 0x08,
        CrystalCapMode::Low10p => range.xtal_cap_10p | 0x08,
        CrystalCapMode::Low0p => range.xtal_cap_0p | 0x08,
        CrystalCapMode::High0p => range.xtal_cap_0p,
    }
}

/// Computes the crystal capacitor and drive byte for a band.
pub fn xtal_cap_byte(range: &FrequencyRange, mode: CrystalCapMode) -> (r: u8)
    ensures
        r == spec_xtal_cap_byte(*range, mode),
{
    match mode {
        CrystalCapMode::Low30p | CrystalCapMode::Low20p => range.xtal_cap_20p | 0x08,
        CrystalCapMode::Low10p => range.xtal_cap_10p | 0x08,
        CrystalCapMode::Low0p => range.xtal_cap_0p | 0x08,
        CrystalCapMode::High0p => range.xtal_cap_0p,
    }
}

} // verus!
