use rtlsdr_pure::r82xx::{
    R82xx, R82xxKind, bandwidth_config, bitrev, gain_indices, mask_reg8, mux_range, pll_divider,
    split_i2c_write, INIT_ARRAY,
};
use rtlsdr_pure::Error;

#[test]
fn bitrev_reverses_bit_order() {
    assert_eq!(bitrev(0x01), 0x80);
    assert_eq!(bitrev(0x20), 0x04);
    assert_eq!(bitrev(0xa0), 0x05);
    assert_eq!(bitrev(0x0f), 0xf0);
    for b in 0..=255u8 {
        assert_eq!(bitrev(bitrev(b)), b);
    }
}

#[test]
fn mask_reg8_replaces_only_masked_bits() {
    assert_eq!(mask_reg8(0xff, 0x00, 0x0f), 0xf0);
    assert_eq!(mask_reg8(0x00, 0xff, 0x30), 0x30);
    assert_eq!(mask_reg8(0x5a, 0xa5, 0x00), 0x5a);
}

#[test]
fn gain_indices_alternate_lna_and_mixer() {
    assert_eq!(gain_indices(0), (0, 0));
    assert_eq!(gain_indices(-100), (0, 0));
    assert_eq!(gain_indices(9), (1, 0));
    assert_eq!(gain_indices(10), (1, 1));
    assert_eq!(gain_indices(500), (15, 15));
}

#[test]
fn bandwidth_config_follows_the_filter_table() {
    assert_eq!(bandwidth_config(8_000_000, 0), (0x10, 0x0b, 4_570_000));
    assert_eq!(bandwidth_config(6_500_000, 0), (0x10, 0x2a, 4_570_000));
    assert_eq!(bandwidth_config(3_000_000, 0), (0x10, 0x6b, 3_570_000));
    assert_eq!(bandwidth_config(0, 2_048_000), (0x00, 0xaf, 1_625_000));
}

#[test]
fn mux_range_picks_the_band_below() {
    let r = mux_range(103_570_000);
    assert_eq!(r.freq_mhz, 100);
    assert_eq!(r.tf_c, 0x34);
    let top = mux_range(1_000_000_000);
    assert_eq!(top.freq_mhz, 650);
    assert_eq!(mux_range(0).freq_mhz, 0);
}

#[test]
fn pll_divider_finds_vco_range() {
    assert_eq!(pll_divider(103_570_000).unwrap(), (32, 4));
    assert_eq!(pll_divider(56_000_000).unwrap(), (32, 4));
    assert!(matches!(pll_divider(4_000_000_000), Err(Error::InvalidFrequency(4_000_000_000))));
}

#[test]
fn split_i2c_write_chunks_of_seven() {
    let msgs = split_i2c_write(0x05, &INIT_ARRAY, 8);
    assert_eq!(msgs.len(), 5);
    assert_eq!(msgs[0][0], 0x05);
    assert_eq!(msgs[1][0], 0x0c);
    assert_eq!(msgs[4], vec![0x21, 0x00, 0x00]);
    let flat: Vec<u8> = msgs.iter().flat_map(|m| m[1..].to_vec()).collect();
    assert_eq!(flat, INIT_ARRAY.to_vec());
}

#[test]
fn shadow_reads_back_stored_values() {
    let mut t = R82xx::new(R82xxKind::R820T, 28_800_000, false);
    assert_eq!(t.kind(), R82xxKind::R820T);
    assert_eq!(t.read_cache_reg(0x05).unwrap(), 0);
    assert!(matches!(t.read_cache_reg(0x04), Err(Error::ArithmeticOverflow)));
    assert!(matches!(t.read_cache_reg(0x23), Err(Error::ArithmeticOverflow)));
    t.shadow_store(0x05, &INIT_ARRAY);
    assert_eq!(t.read_cache_reg(0x05).unwrap(), 0x83);
    assert!(t.shadow_equal(0x05, &INIT_ARRAY));
    let w = t.reg_window::<7>(0x10, 7).unwrap();
    assert_eq!(w.to_vec(), INIT_ARRAY[11..18].to_vec());
    assert!(matches!(t.reg_window::<7>(0x20, 7), Err(Error::ArithmeticOverflow)));
}

#[test]
fn shadow_equal_after_store_only_for_the_stored_values() {
    let mut t = R82xx::new(R82xxKind::R828D, 16_000_000, false);
    t.shadow_store(0x10, &[1, 2, 3]);
    assert!(t.shadow_equal(0x10, &[1, 2, 3]));
    assert!(!t.shadow_equal(0x10, &[1, 2, 4]));
    assert!(!t.shadow_equal(0x10, &[0, 2, 3]));
    assert_eq!(t.kind(), R82xxKind::R828D);
}

#[test]
fn split_i2c_write_allows_long_messages() {
    let values: Vec<u8> = (0..300u32).map(|i| i as u8).collect();
    let msgs = split_i2c_write(0x10, &values, 301);
    assert_eq!(msgs.len(), 1);
    assert_eq!(msgs[0].len(), 301);
    let msgs = split_i2c_write(0xf0, &values, 257);
    assert_eq!(msgs.len(), 2);
    assert_eq!(msgs[0][0], 0xf0);
    assert_eq!(msgs[1][0], 0xf0);
    assert_eq!(msgs[1].len(), 45);
}
