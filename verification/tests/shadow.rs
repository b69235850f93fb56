use r820t::error::TunerError;
use r820t::shadow::{merge, MAX_I2C_MSG_LEN, NUM_REGS, REG_INIT, REG_SHADOW_START};
use r820t::tuner::R820T;

fn reassemble(frames: &[Vec<u8>]) -> Vec<u8> {
    let mut bytes = Vec::new();
    for f in frames {
        bytes.extend_from_slice(&f[1..]);
    }
    bytes
}

fn read_back(tuner: &R820T, reg: u8, len: usize) -> Vec<u8> {
    (0..len).map(|i| tuner.read_cache_reg(reg + i as u8).unwrap()).collect()
}

#[test]
fn merge_takes_masked_bits_from_the_value() {
    assert_eq!(merge(0x00, 0x10, 0x10), 0x10);
    assert_eq!(merge(0xff, 0x00, 0x10), 0xef);
    assert_eq!(merge(0xf5, 0x0b, 0x9f), 0x6b);
    assert_eq!(merge(0xa5, 0x5a, 0xff), 0x5a);
    assert_eq!(merge(0xa5, 0x5a, 0x00), 0xa5);
    assert_eq!(merge(0xa5, 0xff, 0x0f), 0xaf);
}

#[test]
fn masked_write_is_idempotent_and_keeps_other_bits() {
    for prior in [0x00u8, 0xff, 0xa5, 0x3c] {
        for val in [0x00u8, 0xff, 0x5a, 0x81] {
            for mask in [0x00u8, 0xff, 0x0f, 0x10, 0xc3, 0x9f] {
                let mut tuner = R820T::new(28_800_000);
                let mut out = Vec::new();
                tuner.write_regs(&mut out, 0x0c, &[prior]).unwrap();
                tuner.write_reg_mask(&mut out, 0x0c, val, mask).unwrap();
                let once = tuner.read_cache_reg(0x0c).unwrap();
                tuner.write_reg_mask(&mut out, 0x0c, val, mask).unwrap();
                let twice = tuner.read_cache_reg(0x0c).unwrap();
                assert_eq!(once, twice);
                assert_eq!(once & !mask, prior & !mask);
                assert_eq!(once & mask, val & mask);
                assert_eq!(out[1], vec![0x0c, once]);
                assert_eq!(out[2], vec![0x0c, once]);
            }
        }
    }
}

#[test]
fn masked_write_is_sent_even_when_nothing_changes() {
    let mut tuner = R820T::new(28_800_000);
    let mut out = Vec::new();
    tuner.write_reg_mask(&mut out, 0x1a, 0x08, 0x08).unwrap();
    tuner.write_reg_mask(&mut out, 0x1a, 0x08, 0x08).unwrap();
    tuner.write_reg_mask(&mut out, 0x1a, 0xff, 0x00).unwrap();
    assert_eq!(out, vec![vec![0x1a, 0x08], vec![0x1a, 0x08], vec![0x1a, 0x08]]);
}

#[test]
fn masked_write_on_a_fresh_register_merges_against_zero() {
    let mut tuner = R820T::new(28_800_000);
    let mut out = Vec::new();
    assert_eq!(tuner.read_cache_reg(0x0c), Err(TunerError::Uninitialized));
    tuner.write_reg_mask(&mut out, 0x0c, 0xff, 0x9f).unwrap();
    assert_eq!(tuner.read_cache_reg(0x0c), Ok(0x9f));
    assert_eq!(out, vec![vec![0x0c, 0x9f]]);
}

#[test]
fn masked_write_leaves_other_registers_alone() {
    let mut tuner = R820T::new(28_800_000);
    let mut out = Vec::new();
    tuner.write_regs(&mut out, REG_SHADOW_START, &REG_INIT).unwrap();
    tuner.write_reg_mask(&mut out, 0x10, 0xff, 0x0b).unwrap();
    for i in 0..REG_INIT.len() {
        let reg = REG_SHADOW_START + i as u8;
        let expect = if reg == 0x10 { REG_INIT[i] | 0x0b } else { REG_INIT[i] };
        assert_eq!(tuner.read_cache_reg(reg), Ok(expect));
    }
}

#[test]
fn register_window_bounds() {
    let mut tuner = R820T::new(28_800_000);
    let mut out = Vec::new();
    assert_eq!(NUM_REGS, 30);
    assert_eq!(REG_SHADOW_START, 5);
    assert_eq!(tuner.read_cache_reg(4), Err(TunerError::OutOfRange));
    assert_eq!(tuner.read_cache_reg(0), Err(TunerError::OutOfRange));
    assert_eq!(tuner.read_cache_reg(35), Err(TunerError::OutOfRange));
    assert_eq!(tuner.read_cache_reg(255), Err(TunerError::OutOfRange));
    assert_eq!(tuner.read_cache_reg(5), Err(TunerError::Uninitialized));
    assert_eq!(tuner.read_cache_reg(34), Err(TunerError::Uninitialized));
    assert_eq!(tuner.write_reg_mask(&mut out, 4, 1, 1), Err(TunerError::OutOfRange));
    assert_eq!(tuner.write_reg_mask(&mut out, 35, 1, 1), Err(TunerError::OutOfRange));
    assert_eq!(tuner.write_regs(&mut out, 4, &[1, 2]), Err(TunerError::OutOfRange));
    assert_eq!(tuner.write_regs(&mut out, 34, &[1, 2]), Err(TunerError::OutOfRange));
    assert_eq!(tuner.write_regs(&mut out, 5, &[0u8; 31]), Err(TunerError::OutOfRange));
    assert_eq!(tuner.shadow_store(36, &[]), Err(TunerError::OutOfRange));
    assert_eq!(tuner.shadow_store(4, &[]), Err(TunerError::OutOfRange));
    assert!(out.is_empty());
    for reg in 5..35u8 {
        assert_eq!(tuner.read_cache_reg(reg), Err(TunerError::Uninitialized));
    }
    assert_eq!(tuner.write_reg_mask(&mut out, 5, 1, 1), Ok(()));
    assert_eq!(tuner.write_reg_mask(&mut out, 34, 1, 1), Ok(()));
    assert_eq!(tuner.write_regs(&mut out, 33, &[7, 8]), Ok(()));
    assert_eq!(tuner.write_regs(&mut out, 5, &[0u8; 30]), Ok(()));
    assert_eq!(tuner.shadow_store(35, &[]), Ok(()));
}

#[test]
fn shadow_store_records_without_sending() {
    let mut tuner = R820T::new(28_800_000);
    assert_eq!(tuner.shadow_store(0x10, &[1, 2, 3]), Ok(()));
    assert_eq!(tuner.read_cache_reg(0x0f), Err(TunerError::Uninitialized));
    assert_eq!(tuner.read_cache_reg(0x10), Ok(1));
    assert_eq!(tuner.read_cache_reg(0x11), Ok(2));
    assert_eq!(tuner.read_cache_reg(0x12), Ok(3));
    assert_eq!(tuner.read_cache_reg(0x13), Err(TunerError::Uninitialized));
}

#[test]
fn bulk_write_of_the_init_block() {
    let mut tuner = R820T::new(28_800_000);
    let mut out = Vec::new();
    tuner.write_regs(&mut out, 0x05, &REG_INIT).unwrap();
    assert_eq!(
        out,
        vec![
            vec![0x05, 0x83, 0x32, 0x75, 0xc0, 0x40, 0xd6, 0x6c],
            vec![0x0c, 0xf5, 0x63, 0x75, 0x68, 0x6c, 0x83, 0x80],
            vec![0x13, 0x00, 0x0f, 0x00, 0xc0, 0x30, 0x48, 0xcc],
            vec![0x1a, 0x60, 0x00, 0x54, 0xae, 0x4a, 0xc0],
        ]
    );
    assert_eq!(read_back(&tuner, 0x05, 27), REG_INIT.to_vec());
    assert_eq!(reassemble(&out), REG_INIT.to_vec());
}

#[test]
fn bulk_write_round_trip_for_every_length() {
    for len in 0..=NUM_REGS {
        let bytes: Vec<u8> = (0..len).map(|i| (i * 7 + 3) as u8).collect();
        let mut tuner = R820T::new(28_800_000);
        let mut out = Vec::new();
        assert_eq!(tuner.write_regs(&mut out, 5, &bytes), Ok(()));
        assert_eq!(out.len(), (len + MAX_I2C_MSG_LEN - 2) / (MAX_I2C_MSG_LEN - 1));
        for (k, f) in out.iter().enumerate() {
            assert!(f.len() >= 2 && f.len() <= MAX_I2C_MSG_LEN);
            assert_eq!(f[0] as usize, 5 + k * (MAX_I2C_MSG_LEN - 1));
        }
        assert_eq!(reassemble(&out), bytes);
        assert_eq!(read_back(&tuner, 5, len), bytes);
    }
}

#[test]
fn bulk_write_chunk_boundaries() {
    let mut tuner = R820T::new(28_800_000);
    let mut out = Vec::new();
    tuner.write_regs(&mut out, 0x08, &[1, 2, 3, 4, 5, 6, 7]).unwrap();
    assert_eq!(out, vec![vec![0x08, 1, 2, 3, 4, 5, 6, 7]]);
    out.clear();
    tuner.write_regs(&mut out, 0x08, &[1, 2, 3, 4, 5, 6, 7, 8]).unwrap();
    assert_eq!(out, vec![vec![0x08, 1, 2, 3, 4, 5, 6, 7], vec![0x0f, 8]]);
    out.clear();
    tuner.write_regs(&mut out, 0x08, &[9]).unwrap();
    assert_eq!(out, vec![vec![0x08, 9]]);
    out.clear();
    tuner.write_regs(&mut out, 0x08, &[]).unwrap();
    assert!(out.is_empty());
    assert_eq!(read_back(&tuner, 0x08, 8), vec![9, 2, 3, 4, 5, 6, 7, 8]);
}

#[test]
fn refused_bulk_write_changes_nothing() {
    let mut tuner = R820T::new(28_800_000);
    let mut out = vec![vec![0xaa]];
    tuner.write_regs(&mut out, 0x20, &[1, 2]).unwrap();
    assert_eq!(tuner.write_regs(&mut out, 0x20, &[9, 9, 9, 9]), Err(TunerError::OutOfRange));
    assert_eq!(out, vec![vec![0xaa], vec![0x20, 1, 2]]);
    assert_eq!(tuner.read_cache_reg(0x20), Ok(1));
    assert_eq!(tuner.read_cache_reg(0x21), Ok(2));
    assert_eq!(tuner.read_cache_reg(0x22), Err(TunerError::Uninitialized));
}

#[test]
fn read_reg_reverses_every_byte() {
    assert_eq!(R820T::read_reg(&[]), Vec::<u8>::new());
    assert_eq!(R820T::read_reg(&[0x01, 0x80, 0x0f, 0xa5, 0x04]), vec![0x80, 0x01, 0xf0, 0xa5, 0x20]);
    assert_eq!(R820T::read_reg(&[0x96]), vec![0x69]);
}
