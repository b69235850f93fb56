use r820t::error::TunerError;
use r820t::pll::{
    adjust_div_num, div_num_of, divider_plan, find_mix_div, lock_plan, pll_locked, pll_ratio,
    sdm_word, start_plan, start_search, to_khz, vco_fine_tune, PllLock, PllProgram, PllRatio,
    PllSearch,
};
use r820t::shadow::RegWrite;

#[test]
fn to_khz_rounds_to_nearest() {
    assert_eq!(to_khz(0), 0);
    assert_eq!(to_khz(499), 0);
    assert_eq!(to_khz(500), 1);
    assert_eq!(to_khz(1_499), 1);
    assert_eq!(to_khz(103_570_000), 103_570);
    assert_eq!(to_khz(28_800_000), 28_800);
    assert_eq!(to_khz(u32::MAX), 4_294_967);
}

#[test]
fn find_mix_div_selects_8_where_only_8_fits() {
    assert_eq!(find_mix_div(221_250), Some(8));
    assert_eq!(find_mix_div(300_000), Some(8));
    assert_eq!(find_mix_div(442_499), Some(8));
    assert!(300_000u32 * 2 < 1_770_000 && 300_000u32 * 4 < 1_770_000);
}

#[test]
fn find_mix_div_window_edges() {
    assert_eq!(find_mix_div(1_770_000), None);
    assert_eq!(find_mix_div(1_769_999), Some(2));
    assert_eq!(find_mix_div(885_000), Some(2));
    assert_eq!(find_mix_div(884_999), Some(4));
    assert_eq!(find_mix_div(442_500), Some(4));
    assert_eq!(find_mix_div(103_570), Some(32));
    assert_eq!(find_mix_div(27_657), Some(64));
    assert_eq!(find_mix_div(27_656), None);
    assert_eq!(find_mix_div(0), None);
    assert_eq!(find_mix_div(u32::MAX), None);
}

#[test]
fn find_mix_div_is_the_first_candidate_in_the_window() {
    for khz in (0..2_000_000u32).step_by(997) {
        let mut expect = None;
        for d in [2u64, 4, 8, 16, 32, 64] {
            let vco = khz as u64 * d;
            if vco >= 1_770_000 && vco < 3_540_000 {
                expect = Some(d as u8);
                break;
            }
        }
        assert_eq!(find_mix_div(khz), expect);
    }
}

#[test]
fn div_num_counts_halvings() {
    assert_eq!(div_num_of(2), 0);
    assert_eq!(div_num_of(4), 1);
    assert_eq!(div_num_of(8), 2);
    assert_eq!(div_num_of(16), 3);
    assert_eq!(div_num_of(32), 4);
    assert_eq!(div_num_of(64), 5);
    assert_eq!(div_num_of(0), 0);
    assert_eq!(div_num_of(255), 7);
}

#[test]
fn fine_tune_is_bits_5_and_4() {
    assert_eq!(vco_fine_tune(0x00), 0);
    assert_eq!(vco_fine_tune(0x10), 1);
    assert_eq!(vco_fine_tune(0x20), 2);
    assert_eq!(vco_fine_tune(0x30), 3);
    assert_eq!(vco_fine_tune(0xcf), 0);
    assert_eq!(vco_fine_tune(0xff), 3);
}

#[test]
fn adjust_div_num_moves_by_one() {
    assert_eq!(adjust_div_num(4, 2), 4);
    assert_eq!(adjust_div_num(4, 3), 3);
    assert_eq!(adjust_div_num(4, 1), 5);
    assert_eq!(adjust_div_num(4, 0), 5);
    assert_eq!(adjust_div_num(5, 0), 6);
    assert_eq!(adjust_div_num(0, 2), 0);
    assert_eq!(adjust_div_num(0, 3), 7);
    assert_eq!(adjust_div_num(7, 1), 0);
}

#[test]
fn pll_ratio_of_the_fm_target() {
    assert_eq!(
        pll_ratio(103_570_000, 32, 28_800_000),
        Ok(PllRatio { nint: 57, vco_fra_khz: 31_040 })
    );
    assert_eq!(
        pll_ratio(100_000_000, 32, 28_800_000),
        Ok(PllRatio { nint: 55, vco_fra_khz: 32_000 })
    );
    assert_eq!(pll_ratio(115_200_000, 16, 28_800_000), Ok(PllRatio { nint: 32, vco_fra_khz: 0 }));
}

#[test]
fn pll_ratio_rejects_what_the_register_cannot_hold() {
    assert_eq!(pll_ratio(100_000_000, 32, 0), Err(TunerError::FrequencyOutOfRange));
    // N = 64
    assert_eq!(pll_ratio(115_200_000, 32, 28_800_000), Err(TunerError::FrequencyOutOfRange));
    // N = 63
    assert_eq!(
        pll_ratio(113_400_000, 32, 28_800_000),
        Ok(PllRatio { nint: 63, vco_fra_khz: 0 })
    );
    // N = 12 and N = 13
    assert_eq!(pll_ratio(21_600_000, 32, 28_800_000), Err(TunerError::FrequencyOutOfRange));
    assert_eq!(pll_ratio(23_400_000, 32, 28_800_000), Ok(PllRatio { nint: 13, vco_fra_khz: 0 }));
    assert_eq!(pll_ratio(u32::MAX, 255, 1), Err(TunerError::FrequencyOutOfRange));
}

#[test]
fn sdm_word_known_values() {
    assert_eq!(sdm_word(31_040, 28_800), 35_318);
    assert_eq!(sdm_word(32_000, 28_800), 36_408);
    assert_eq!(sdm_word(0, 28_800), 0);
    assert_eq!(sdm_word(1, 28_800), 0);
    assert_eq!(sdm_word(28_801, 28_800), 0x8000);
    assert_eq!(sdm_word(28_800, 28_800), 0x7ffe);
    assert_eq!(sdm_word(57_599, 28_800), 0xfffe);
    assert_eq!(sdm_word(u32::MAX, 0), 0xfffe);
    assert_eq!(sdm_word(u32::MAX, u32::MAX), 0x7ffe);
}

#[test]
fn sdm_word_approximates_the_fraction() {
    let ref2: u64 = 57_600;
    for fra in (2..57_600u32).step_by(37) {
        let word = sdm_word(fra, 28_800) as u64;
        let back = word * ref2 / 65_536;
        let diff = if back > fra as u64 { back - fra as u64 } else { fra as u64 - back };
        assert!(diff <= 20, "fra {} word {} back {}", fra, word, back);
    }
}

#[test]
fn sdm_word_ends_for_every_remainder() {
    // every fraction below twice the reference, and the one kHz above it
    for fra in 1..=57_601u32 {
        let word = sdm_word(fra, 28_800) as u64;
        assert_eq!(word % 2, 0);
        // never more than the fraction, up to one kHz for each of 15 steps
        assert!(word * 57_600 <= 65_536 * (fra as u64 + 15));
        // never less, up to what is left: the last threshold and 16 kHz
        assert!(word * 57_600 + 65_536 * 17 >= 65_536 * fra as u64);
    }
}

#[test]
fn lock_flag_is_bit_6() {
    assert!(pll_locked(0x40));
    assert!(pll_locked(0xff));
    assert!(!pll_locked(0x00));
    assert!(!pll_locked(0xbf));
}

#[test]
fn start_plan_opens_the_attempt() {
    assert_eq!(
        start_plan(),
        vec![
            RegWrite { reg: 0x10, val: 0x00, mask: 0x10 },
            RegWrite { reg: 0x1a, val: 0x00, mask: 0x0c },
            RegWrite { reg: 0x12, val: 0x06, mask: 0xff },
        ]
    );
}

#[test]
fn start_search_finds_or_fails() {
    assert_eq!(start_search(103_570_000), Ok(PllSearch { lo_freq: 103_570_000, mix_div: 32 }));
    assert_eq!(start_search(300_000_000), Ok(PllSearch { lo_freq: 300_000_000, mix_div: 8 }));
    assert_eq!(start_search(1_770_000_000), Err(TunerError::FrequencyOutOfRange));
    assert_eq!(start_search(27_000_000), Err(TunerError::FrequencyOutOfRange));
    assert_eq!(start_search(u32::MAX), Err(TunerError::FrequencyOutOfRange));
}

#[test]
fn divider_plan_for_the_fm_target() {
    let search = PllSearch { lo_freq: 103_570_000, mix_div: 32 };
    let (plan, outcome) = divider_plan(&search, 28_800_000, 0x20);
    assert_eq!(outcome, Ok(PllProgram { nint: 57, sdm: 35_318, retried: false }));
    assert_eq!(
        plan,
        vec![
            RegWrite { reg: 0x10, val: 0x80, mask: 0xe0 },
            RegWrite { reg: 0x14, val: 0x0b, mask: 0xff },
            RegWrite { reg: 0x12, val: 0x00, mask: 0x08 },
            RegWrite { reg: 0x16, val: 0x89, mask: 0xff },
            RegWrite { reg: 0x15, val: 0xf6, mask: 0xff },
        ]
    );
    let (plan, _) = divider_plan(&search, 28_800_000, 0x30);
    assert_eq!(plan[0], RegWrite { reg: 0x10, val: 0x60, mask: 0xe0 });
    let (plan, _) = divider_plan(&search, 28_800_000, 0x00);
    assert_eq!(plan[0], RegWrite { reg: 0x10, val: 0xa0, mask: 0xe0 });
}

#[test]
fn divider_plan_integer_mode() {
    let search = PllSearch { lo_freq: 115_200_000, mix_div: 16 };
    let (plan, outcome) = divider_plan(&search, 28_800_000, 0x20);
    assert_eq!(outcome, Ok(PllProgram { nint: 32, sdm: 0, retried: false }));
    assert_eq!(
        plan,
        vec![
            RegWrite { reg: 0x10, val: 0x60, mask: 0xe0 },
            RegWrite { reg: 0x14, val: 0xc4, mask: 0xff },
            RegWrite { reg: 0x12, val: 0x08, mask: 0x08 },
            RegWrite { reg: 0x16, val: 0x00, mask: 0xff },
            RegWrite { reg: 0x15, val: 0x00, mask: 0xff },
        ]
    );
}

#[test]
fn divider_plan_stops_after_the_select_code_when_n_does_not_fit() {
    let search = PllSearch { lo_freq: 103_570_000, mix_div: 32 };
    let (plan, outcome) = divider_plan(&search, 0, 0x20);
    assert_eq!(outcome, Err(TunerError::FrequencyOutOfRange));
    assert_eq!(plan, vec![RegWrite { reg: 0x10, val: 0x80, mask: 0xe0 }]);
    let (plan, outcome) = divider_plan(&search, 10_000_000, 0x20);
    assert_eq!(outcome, Err(TunerError::FrequencyOutOfRange));
    assert_eq!(plan.len(), 1);
}

#[test]
fn lock_plan_outcomes() {
    let first = PllProgram { nint: 57, sdm: 35_318, retried: false };
    let second = PllProgram { nint: 57, sdm: 35_318, retried: true };
    assert_eq!(
        lock_plan(&first, 0x40),
        (vec![RegWrite { reg: 0x1a, val: 0x08, mask: 0x08 }], Ok(PllLock::Locked))
    );
    assert_eq!(
        lock_plan(&second, 0x40),
        (vec![RegWrite { reg: 0x1a, val: 0x08, mask: 0x08 }], Ok(PllLock::Locked))
    );
    assert_eq!(
        lock_plan(&first, 0x00),
        (vec![RegWrite { reg: 0x12, val: 0x06, mask: 0xff }], Ok(PllLock::Retry(second)))
    );
    assert_eq!(lock_plan(&second, 0x00), (vec![], Err(TunerError::PllLockFailure)));
}
