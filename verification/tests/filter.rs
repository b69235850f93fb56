use r820t::filter::{
    filter_plan, low_pass_index, select_bandwidth, FilterChoice, LOW_PASS_BW, NUM_LOW_PASS,
};
use r820t::shadow::RegWrite;

fn choice(if_freq: u32, reg_0a: u8, reg_0b: u8) -> FilterChoice {
    FilterChoice { if_freq, reg_0a, reg_0b }
}

#[test]
fn select_bandwidth_wide_bands() {
    assert_eq!(select_bandwidth(8_000_000, 2_048_000), choice(4_570_000, 0x10, 0x0b));
    assert_eq!(select_bandwidth(7_000_001, 0), choice(4_570_000, 0x10, 0x0b));
    assert_eq!(select_bandwidth(7_000_000, 0), choice(4_570_000, 0x10, 0x2a));
    assert_eq!(select_bandwidth(6_000_001, 0), choice(4_570_000, 0x10, 0x2a));
    assert_eq!(select_bandwidth(6_000_000, 0), choice(3_570_000, 0x10, 0x6b));
    assert_eq!(select_bandwidth(2_430_001, 0), choice(3_570_000, 0x10, 0x6b));
    assert_eq!(select_bandwidth(u32::MAX, 0), choice(4_570_000, 0x10, 0x0b));
}

#[test]
fn select_bandwidth_narrow_bands() {
    assert_eq!(select_bandwidth(2_430_000, 0), choice(1_815_000, 0x00, 0x8f));
    assert_eq!(select_bandwidth(2_050_001, 0), choice(1_640_000, 0x00, 0xcf));
    assert_eq!(select_bandwidth(2_050_000, 0), choice(1_625_000, 0x00, 0xaf));
    assert_eq!(select_bandwidth(2_048_000, 2_048_000), choice(1_625_000, 0x00, 0xaf));
    assert_eq!(select_bandwidth(1_700_001, 0), choice(1_750_000, 0x00, 0xac));
    assert_eq!(select_bandwidth(1_700_000, 0), choice(1_450_000, 0x00, 0xef));
    assert_eq!(select_bandwidth(1_600_000, 0), choice(1_500_000, 0x00, 0xee));
    assert_eq!(select_bandwidth(1_000_000, 0), choice(1_700_000, 0x00, 0xeb));
    assert_eq!(select_bandwidth(350_000, 0), choice(2_125_000, 0x00, 0xe6));
    assert_eq!(select_bandwidth(0, 0), choice(2_125_000, 0x00, 0xe6));
}

#[test]
fn select_bandwidth_ignores_the_sample_rate() {
    for bw in [0u32, 900_000, 2_048_000, 2_400_000, 6_500_000, 9_000_000] {
        assert_eq!(select_bandwidth(bw, 1), select_bandwidth(bw, 3_200_000));
    }
}

#[test]
fn low_pass_index_picks_the_narrowest_setting_that_passes() {
    assert_eq!(NUM_LOW_PASS, 10);
    for budget in (0..=1_700_000u32).step_by(12_500) {
        let index = low_pass_index(budget);
        assert!(LOW_PASS_BW[index] >= budget);
        if index + 1 < NUM_LOW_PASS {
            assert!(LOW_PASS_BW[index + 1] < budget);
        }
    }
    assert_eq!(low_pass_index(1_700_001), 0);
    assert_eq!(low_pass_index(u32::MAX), 0);
    assert_eq!(low_pass_index(1_700_000), 0);
    assert_eq!(low_pass_index(1_600_000), 1);
    assert_eq!(low_pass_index(1_600_001), 0);
    assert_eq!(low_pass_index(350_000), 9);
    assert_eq!(low_pass_index(350_001), 8);
    assert_eq!(low_pass_index(0), 9);
}

#[test]
fn filter_plan_writes_both_registers() {
    let c = select_bandwidth(2_048_000, 2_048_000);
    assert_eq!(
        filter_plan(&c),
        vec![
            RegWrite { reg: 0x0a, val: 0x00, mask: 0x10 },
            RegWrite { reg: 0x0b, val: 0xaf, mask: 0xef },
        ]
    );
}
