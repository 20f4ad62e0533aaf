use vstd::prelude::*;
use vstd::arithmetic::div_mod::lemma_mod_multiples_vanish;

use crate::error::Error;
use crate::rtl_usb::{
    Cmd, CmdV, OpStep, OpStepV, Output, OutputV, bytes_of, output_into_bytes,
    output_result_view, step_view, wm, wr, write_mask, write_reg,
};

verus! {

pub const R82XX_CHECK_ADDR: u8 = 0x00;
pub const R82XX_CHECK_VAL: u8 = 0x69;
pub const R82XX_IF_FREQ: u32 = 3_570_000;

/// The first tuner register that the shadow copy covers.
pub const REG_SHADOW_START: u8 = 5;
/// How many registers the shadow copy covers.
pub const NUM_REGS: usize = 30;
pub const VER_NUM: u8 = 49;

pub const MHZ: u32 = 1_000_000;
pub const HF: u8 = 1;
pub const VHF: u8 = 2;
pub const UHF: u8 = 3;

/// The register values written at initialisation, starting at register 0x05.
pub const INIT_ARRAY: [u8; 30] = [
    0x83, 0x32, 0x75, 0xc0, 0x40, 0xd6, 0x6c, 0xf5, 0x63, 0x75, 0x68, 0x6c, 0x83, 0x80, 0x00, 0x0f,
    0x00, 0xc0, 0x30, 0x48, 0xcc, 0x60, 0x00, 0x54, 0xae, 0x4a, 0xc0, 0x00, 0x00, 0x00,
];

/// The IF low-pass filter widths, widest first.
pub const IF_LOW_PASS_BW_TABLE: [u32; 10] = [
    1_700_000, 1_600_000, 1_550_000, 1_450_000, 1_200_000, 900_000, 700_000, 550_000, 450_000,
    350_000,
];

/// Gain added by each LNA step, in tenths of a dB.
pub const LNA_GAIN_STEPS: [i32; 16] = [0, 9, 13, 40, 38, 13, 31, 22, 26, 31, 26, 14, 19, 5, 35, 13];
/// Gain added by each mixer step, in tenths of a dB.
pub const MIXER_GAIN_STEPS: [i32; 16] = [0, 5, 10, 10, 19, 9, 10, 25, 17, 10, 8, 16, 13, 6, 3, -8];

/// The lower edge, in MHz, of each band of the RF multiplexer table.
pub const FREQ_RANGE_MHZ: [u32; 21] = [
    0, 50, 55, 60, 65, 70, 75, 80, 90, 100, 110, 120, 140, 180, 220, 250, 280, 310, 450, 588, 650,
];
pub const FREQ_RANGE_OPEN_D: [u8; 21] = [
    0x08, 0x08, 0x08, 0x08, 0x08, 0x08, 0, 0, 0, 0, 0, 0, 0, 0, 0, 0, 0, 0, 0, 0, 0,
];
pub const FREQ_RANGE_RF_MUX_PLOY: [u8; 21] = [
    0x02, 0x02, 0x02, 0x02, 0x02, 0x02, 0x02, 0x02, 0x02, 0x02, 0x02, 0x02, 0x02, 0x02, 0x02, 0x02,
    0x02, 0x41, 0x41, 0x40, 0x40,
];
pub const FREQ_RANGE_TF_C: [u8; 21] = [
    0xdf, 0xbe, 0x8b, 0x7b, 0x69, 0x58, 0x44, 0x44, 0x34, 0x34, 0x24, 0x24, 0x14, 0x13, 0x13, 0x11,
    0x00, 0x00, 0x00, 0x00, 0x00,
];
pub const FREQ_RANGE_XTAL_CAP20P: [u8; 21] = [
    0x02, 0x02, 0x02, 0x02, 0x02, 0x02, 0x02, 0x02, 0x01, 0x01, 0x01, 0x01, 0x01, 0, 0, 0, 0, 0, 0,
    0, 0,
];
pub const FREQ_RANGE_XTAL_CAP10P: [u8; 21] = [
    0x01, 0x01, 0x01, 0x01, 0x01, 0x01, 0x01, 0x01, 0x01, 0x01, 0x01, 0x01, 0x01, 0, 0, 0, 0, 0, 0,
    0, 0,
];
pub const FREQ_RANGE_XTAL_CAP0P: [u8; 21] = [
    0, 0, 0, 0, 0, 0, 0, 0, 0, 0, 0, 0, 0, 0, 0, 0, 0, 0, 0, 0, 0,
];

/// One band of the RF multiplexer table.
#[derive(Clone, Copy, Debug, PartialEq, Eq, Structural)]
pub struct FreqRange {
    pub freq_mhz: u32,
    pub open_d: u8,
    pub rf_mux_ploy: u8,
    pub tf_c: u8,
    pub xtal_cap20p: u8,
    pub xtal_cap10p: u8,
    pub xtal_cap0p: u8,
}

// ---------------------------------------------------------------------------
// Register arithmetic
// ---------------------------------------------------------------------------

/// `reg` with the bits selected by `mask` taken from `value`.
pub open spec fn masked(reg: u8, value: u8, mask: u8) -> u8 {
    (reg & !mask) | (value & mask)
}

/// Replaces the bits of `reg` selected by `mask` with those of `value`.
pub fn mask_reg8(reg: u8, value: u8, mask: u8) -> (r: u8)
    ensures
        r == masked(reg, value, mask),
{
    (reg & !mask) | (value & mask)
}

/// Bit `i` of `r` is bit `7 - i` of `b`, for every bit.
pub open spec fn is_bit_reversal(b: u8, r: u8) -> bool {
    forall|i: u8| i < 8 ==> #[trigger] ((r >> i) & 1) == (b >> (7 - i) as u8) & 1
}

/// `b` with its bit order reversed.
pub open spec fn bit_reversed(b: u8) -> u8 {
    ((b & 0x01) << 7u8) | ((b & 0x02) << 5u8) | ((b & 0x04) << 3u8) | ((b & 0x08) << 1u8) | ((b
        & 0x10) >> 1u8) | ((b & 0x20) >> 3u8) | ((b & 0x40) >> 5u8) | ((b & 0x80) >> 7u8)
}

/// The tuner sends register contents least significant bit first.
pub fn bitrev(byte: u8) -> (r: u8)
    ensures
        is_bit_reversal(byte, r),
        r == bit_reversed(byte),
{
    let r: u8 = ((byte & 0x01) << 7u8) | ((byte & 0x02) << 5u8) | ((byte & 0x04) << 3u8) | ((
    byte & 0x08) << 1u8) | ((byte & 0x10) >> 1u8) | ((byte & 0x20) >> 3u8) | ((byte & 0x40)
        >> 5u8) | ((byte & 0x80) >> 7u8);
    assert(forall|i: u8| i < 8 ==> #[trigger] ((r >> i) & 1) == (byte >> (7 - i) as u8) & 1)
        by (bit_vector)
        requires
            r == ((byte & 0x01) << 7u8) | ((byte & 0x02) << 5u8) | ((byte & 0x04) << 3u8) | ((
            byte & 0x08) << 1u8) | ((byte & 0x10) >> 1u8) | ((byte & 0x20) >> 3u8) | ((byte
                & 0x40) >> 5u8) | ((byte & 0x80) >> 7u8),
    ;
    r
}

// ---------------------------------------------------------------------------
// Manual gain
// ---------------------------------------------------------------------------

/// Gain of the first `n` LNA steps.
pub open spec fn lna_gain_sum(n: int) -> int
    decreases n,
{
    if n <= 0 {
        0
    } else {
        lna_gain_sum(n - 1) + LNA_GAIN_STEPS@[n] as int
    }
}

/// Gain of the first `n` mixer steps.
pub open spec fn mixer_gain_sum(n: int) -> int
    decreases n,
{
    if n <= 0 {
        0
    } else {
        mixer_gain_sum(n - 1) + MIXER_GAIN_STEPS@[n] as int
    }
}

/// Gain reached after `k` increments that alternate LNA, mixer, LNA, ...
pub open spec fn gain_after(k: int) -> int {
    lna_gain_sum((k + 1) / 2) + mixer_gain_sum(k / 2)
}

/// The first number of increments, from `k` on and at most 30, whose gain reaches `target`.
pub open spec fn gain_steps_from(target: int, k: int) -> int
    decreases 30 - k,
{
    if k >= 30 || gain_after(k) >= target {
        k
    } else {
        gain_steps_from(target, k + 1)
    }
}

/// How many alternating increments manual gain makes for `target` tenths of a dB.
pub open spec fn gain_steps(target: int) -> int {
    gain_steps_from(target, 0)
}

proof fn lemma_gain_step_bounds(i: int)
    requires
        0 <= i < 16,
    ensures
        0 <= LNA_GAIN_STEPS@[i] <= 40,
        -8 <= MIXER_GAIN_STEPS@[i] <= 25,
{
    assert(LNA_GAIN_STEPS@ =~= seq![0i32, 9, 13, 40, 38, 13, 31, 22, 26, 31, 26, 14, 19, 5, 35, 13]);
    assert(MIXER_GAIN_STEPS@ =~= seq![0i32, 5, 10, 10, 19, 9, 10, 25, 17, 10, 8, 16, 13, 6, 3, -8i32]);
}

proof fn lemma_gain_sum_bounds(n: int)
    requires
        0 <= n <= 15,
    ensures
        0 <= lna_gain_sum(n) <= 40 * n,
        -8 * n <= mixer_gain_sum(n) <= 25 * n,
    decreases n,
{
    if n > 0 {
        lemma_gain_sum_bounds(n - 1);
        lemma_gain_step_bounds(n);
    }
}

/// The LNA and mixer gain indices that manual gain selects for `gain_tenths_db`:
/// steps are added alternately, LNA first, until the gain reaches the target or
/// fifteen of each have been added.
pub fn gain_indices(gain_tenths_db: i32) -> (r: (u8, u8))
    ensures
        r.0 == (gain_steps(gain_tenths_db as int) + 1) / 2,
        r.1 == gain_steps(gain_tenths_db as int) / 2,
{
    let ghost target = gain_tenths_db as int;
    let mut total_gain: i32 = 0;
    let mut mix_index: u8 = 0;
    let mut lna_index: u8 = 0;
    let mut it: u8 = 0;
    proof {
        lemma_gain_sum_bounds(0);
    }
    while it < 15
        invariant
            it <= 15,
            lna_index == it,
            mix_index == it,
            total_gain == gain_after(2 * it),
            gain_steps(target) == gain_steps_from(target, 2 * it),
            -8 * it <= total_gain <= 65 * it,
            target == gain_tenths_db,
        decreases 15 - it,
    {
        if total_gain >= gain_tenths_db {
            return (lna_index, mix_index);
        }
        proof {
            lemma_gain_sum_bounds(it as int + 1);
            lemma_gain_sum_bounds(it as int);
        }
        assert(gain_steps_from(target, 2 * it) == gain_steps_from(target, 2 * it + 1));
        lna_index = lna_index + 1;
        total_gain = total_gain + LNA_GAIN_STEPS[lna_index as usize];
        assert(total_gain == gain_after(2 * it + 1));
        if total_gain >= gain_tenths_db {
            assert(gain_steps_from(target, 2 * it + 1) == 2 * it + 1);
            return (lna_index, mix_index);
        }
        assert(gain_steps_from(target, 2 * it + 1) == gain_steps_from(target, 2 * it + 2));
        mix_index = mix_index + 1;
        total_gain = total_gain + MIXER_GAIN_STEPS[mix_index as usize];
        it = it + 1;
        assert(total_gain == gain_after(2 * it));
    }
    (lna_index, mix_index)
}

// ---------------------------------------------------------------------------
// IF filter bandwidth
// ---------------------------------------------------------------------------

/// The first filter index, from `i` on, whose width is below `bw`; 10 if none is.
pub open spec fn lpf_insertion(bw: int, i: int) -> int
    decreases 10 - i,
{
    if i >= 10 {
        10
    } else if bw > IF_LOW_PASS_BW_TABLE@[i] {
        i
    } else {
        lpf_insertion(bw, i + 1)
    }
}

/// The narrowest filter of the table that is at least `bw` wide (the widest if none is).
pub open spec fn lpf_index(bw: int) -> int {
    let ins = lpf_insertion(bw, 0);
    if ins == 0 {
        0
    } else {
        ins - 1
    }
}

/// The filter registers 0x0a and 0x0b and the intermediate frequency chosen for a bandwidth,
/// where a bandwidth of 0 stands for the sample rate.
pub open spec fn bandwidth_setting(bandwidth_hz: u32, sample_rate_hz: u32) -> (u8, u8, u32) {
    let bw = if bandwidth_hz == 0 {
        sample_rate_hz as int
    } else {
        bandwidth_hz as int
    };
    if bw > 7_000_000 {
        (0x10, 0x0b, 4_570_000)
    } else if bw > 6_000_000 {
        (0x10, 0x2a, 4_570_000)
    } else if bw > 2_430_000 {
        (0x10, 0x6b, 3_570_000)
    } else {
        let wide = bw > 2_050_000;
        let bw1 = if wide {
            bw - 380_000
        } else {
            bw
        };
        let mid = bw1 > 1_700_000;
        let bw2 = if mid {
            bw1 - 350_000
        } else {
            bw1
        };
        let idx = lpf_index(bw2);
        let reg_0b: u8 = ((0x80u8 | (if wide {
            0u8
        } else {
            0x20u8
        })) | (if mid {
            0u8
        } else {
            0x40u8
        })) | ((15 - idx) as u8);
        let shifted = (if wide {
            380_000int
        } else {
            0
        }) + (if mid {
            350_000int
        } else {
            0
        });
        let real_bw = shifted + IF_LOW_PASS_BW_TABLE@[idx] as int;
        (0x00, reg_0b, (2_300_000 + shifted - real_bw / 2) as u32)
    }
}

proof fn lemma_lpf_insertion_range(bw: int, i: int)
    requires
        0 <= i <= 10,
    ensures
        i <= lpf_insertion(bw, i) <= 10,
    decreases 10 - i,
{
    if i < 10 {
        lemma_lpf_insertion_range(bw, i + 1);
    }
}

proof fn lemma_lpf_table()
    ensures
        IF_LOW_PASS_BW_TABLE@ =~= seq![
            1_700_000u32, 1_600_000, 1_550_000, 1_450_000, 1_200_000, 900_000, 700_000, 550_000,
            450_000, 350_000,
        ],
{
}

/// Register 0x0a, register 0x0b and the new intermediate frequency for a bandwidth.
pub fn bandwidth_config(bandwidth_hz: u32, sample_rate_hz: u32) -> (r: (u8, u8, u32))
    ensures
        r == bandwidth_setting(bandwidth_hz, sample_rate_hz),
{
    let mut bw: u32 = if bandwidth_hz == 0 {
        sample_rate_hz
    } else {
        bandwidth_hz
    };
    if bw > 7_000_000 {
        (0x10, 0x0b, 4_570_000)
    } else if bw > 6_000_000 {
        (0x10, 0x2a, 4_570_000)
    } else if bw > IF_LOW_PASS_BW_TABLE[0] + 350_000 + 380_000 {
        (0x10, 0x6b, 3_570_000)
    } else {
        proof {
            lemma_lpf_table();
        }
        let wide = bw > IF_LOW_PASS_BW_TABLE[0] + 350_000;
        let mut shifted: u32 = 0;
        if wide {
            bw = bw - 380_000;
            shifted = shifted + 380_000;
        }
        let mid = bw > IF_LOW_PASS_BW_TABLE[0];
        if mid {
            bw = bw - 350_000;
            shifted = shifted + 350_000;
        }
        let mut insertion: usize = 0;
        while insertion < 10 && !(bw > IF_LOW_PASS_BW_TABLE[insertion])
            invariant
                insertion <= 10,
                lpf_insertion(bw as int, insertion as int) == lpf_insertion(bw as int, 0),
            decreases 10 - insertion,
        {
            insertion = insertion + 1;
        }
        let idx: usize = if insertion == 0 {
            0
        } else {
            insertion - 1
        };
        proof {
            lemma_lpf_insertion_range(bw as int, 0);
        }
        let reg_0b: u8 = ((0x80u8 | (if wide {
            0u8
        } else {
            0x20u8
        })) | (if mid {
            0u8
        } else {
            0x40u8
        })) | (15 - idx as u8);
        let real_bw: u32 = shifted + IF_LOW_PASS_BW_TABLE[idx];
        let int_freq: u32 = 2_300_000 + shifted - real_bw / 2;
        (0x00, reg_0b, int_freq)
    }
}

// ---------------------------------------------------------------------------
// RF multiplexer
// ---------------------------------------------------------------------------

/// The band of the multiplexer table, from `i` on, that holds `freq_mhz`: the first whose
/// successor starts above it, or the last band.
pub open spec fn mux_index_from(freq_mhz: int, i: int) -> int
    decreases 20 - i,
{
    if i >= 20 {
        20
    } else if freq_mhz < FREQ_RANGE_MHZ@[i + 1] {
        i
    } else {
        mux_index_from(freq_mhz, i + 1)
    }
}

pub open spec fn mux_index(freq_mhz: int) -> int {
    mux_index_from(freq_mhz, 0)
}

pub open spec fn freq_range_at(i: int) -> FreqRange {
    FreqRange {
        freq_mhz: FREQ_RANGE_MHZ@[i],
        open_d: FREQ_RANGE_OPEN_D@[i],
        rf_mux_ploy: FREQ_RANGE_RF_MUX_PLOY@[i],
        tf_c: FREQ_RANGE_TF_C@[i],
        xtal_cap20p: FREQ_RANGE_XTAL_CAP20P@[i],
        xtal_cap10p: FREQ_RANGE_XTAL_CAP10P@[i],
        xtal_cap0p: FREQ_RANGE_XTAL_CAP0P@[i],
    }
}

proof fn lemma_mux_index_range(freq_mhz: int, i: int)
    requires
        0 <= i <= 20,
    ensures
        i <= mux_index_from(freq_mhz, i) <= 20,
    decreases 20 - i,
{
    if i < 20 {
        lemma_mux_index_range(freq_mhz, i + 1);
    }
}

/// The multiplexer band for an LO frequency in Hz.
pub fn mux_range(freq_hz: u32) -> (r: FreqRange)
    ensures
        r == freq_range_at(mux_index(freq_hz as int / 1_000_000)),
{
    let freq_mhz = freq_hz / MHZ;
    let mut i: usize = 0;
    while i < 20 && !(freq_mhz < FREQ_RANGE_MHZ[i + 1])
        invariant
            i <= 20,
            mux_index_from(freq_mhz as int, i as int) == mux_index(freq_mhz as int),
        decreases 20 - i,
    {
        i = i + 1;
    }
    proof {
        lemma_mux_index_range(freq_mhz as int, 0);
    }
    FreqRange {
        freq_mhz: FREQ_RANGE_MHZ[i],
        open_d: FREQ_RANGE_OPEN_D[i],
        rf_mux_ploy: FREQ_RANGE_RF_MUX_PLOY[i],
        tf_c: FREQ_RANGE_TF_C[i],
        xtal_cap20p: FREQ_RANGE_XTAL_CAP20P[i],
        xtal_cap10p: FREQ_RANGE_XTAL_CAP10P[i],
        xtal_cap0p: FREQ_RANGE_XTAL_CAP0P[i],
    }
}

// ---------------------------------------------------------------------------
// PLL
// ---------------------------------------------------------------------------

/// The two kinds of R82xx tuner that the driver can run.
#[derive(Debug, Clone, Copy, PartialEq, Eq, Structural)]
pub enum R82xxKind {
    R820T,
    R828D,
}

pub open spec fn two_pow(e: nat) -> nat
    decreases e,
{
    if e == 0 {
        1
    } else {
        2 * two_pow((e - 1) as nat)
    }
}

proof fn lemma_two_pow_small()
    ensures
        two_pow(1) == 2,
        two_pow(2) == 4,
        two_pow(3) == 8,
        two_pow(4) == 16,
        two_pow(5) == 32,
        two_pow(6) == 64,
        two_pow(7) == 128,
{
    reveal_with_fuel(two_pow, 8);
}

/// The PLL works in kHz, rounded to the nearest.
pub open spec fn pll_khz(freq_hz: u32) -> int {
    (freq_hz as int + 500) / 1000
}

/// The VCO must run between 1.77 and 3.54 GHz.
pub open spec fn vco_in_range(vco_khz: int) -> bool {
    1_770_000 <= vco_khz < 3_540_000
}

/// The first exponent, from `e` to 6, whose mixer divider `2^e` puts the VCO in range.
pub open spec fn pll_div_exponent_from(khz: int, e: nat) -> Option<nat>
    decreases 7 - e,
{
    if e > 6 {
        None
    } else if vco_in_range(khz * two_pow(e)) {
        Some(e)
    } else {
        pll_div_exponent_from(khz, e + 1)
    }
}

/// The exponent of the smallest mixer divider among 2, 4, ..., 64 that puts the VCO in range.
pub open spec fn pll_div_exponent(freq_hz: u32) -> Option<nat> {
    pll_div_exponent_from(pll_khz(freq_hz), 1)
}

/// The mixer divider and its register code (`log2(divider) - 1`) for an LO frequency,
/// or `InvalidFrequency` where no divider up to 64 brings the VCO into range.
pub fn pll_divider(freq_hz: u32) -> (r: Result<(u32, u8), Error>)
    ensures
        match pll_div_exponent(freq_hz) {
            Some(e) => r == Ok::<(u32, u8), Error>((two_pow(e) as u32, (e - 1) as u8)),
            None => r == Err::<(u32, u8), Error>(Error::InvalidFrequency(freq_hz)),
        },
        r matches Ok((m, _)) ==> 2 <= m <= 64,
{
    let freq_khz: u32 = ((freq_hz as u64 + 500) / 1000) as u32;
    let vco_min: u32 = 1_770_000;
    let vco_max: u32 = vco_min * 2;
    let mut mix_div: u32 = 2;
    let mut div_num: u8 = 0;
    proof {
        lemma_two_pow_small();
    }
    loop
        invariant
            1 <= div_num + 1 <= 6,
            mix_div == two_pow((div_num + 1) as nat),
            freq_khz == pll_khz(freq_hz),
            freq_khz <= 4_294_968,
            vco_min == 1_770_000,
            vco_max == 3_540_000,
            pll_div_exponent(freq_hz) == pll_div_exponent_from(freq_khz as int, (div_num + 1) as nat),
        decreases 6 - div_num,
    {
        proof {
            lemma_two_pow_small();
        }
        assert(freq_khz * mix_div <= 4_294_968 * 64) by (nonlinear_arith)
            requires
                freq_khz <= 4_294_968,
                mix_div <= 64,
        ;
        let vco = freq_khz * mix_div;
        if vco >= vco_min && vco < vco_max {
            return Ok((mix_div, div_num));
        }
        mix_div = mix_div * 2;
        if mix_div > 64 {
            assert(div_num + 1 == 6);
            assert(pll_div_exponent_from(freq_khz as int, 7) == None::<nat>);
            return Err(Error::InvalidFrequency(freq_hz));
        }
        div_num = div_num + 1;
    }
}

/// The VCO power reference that the PLL calibration compares against.
pub open spec fn vco_power_ref(kind: R82xxKind) -> u8 {
    if kind == R82xxKind::R828D {
        1
    } else {
        2
    }
}

/// The divider code corrected by the VCO fine-tune bits (bits 4-5 of status register 4).
pub open spec fn adjusted_div_num(kind: R82xxKind, div_num: u8, status: u8) -> u8 {
    let fine_tune = (status & 0x30) >> 4u8;
    if fine_tune > vco_power_ref(kind) {
        if div_num == 0 {
            0
        } else {
            (div_num - 1) as u8
        }
    } else if fine_tune < vco_power_ref(kind) {
        if div_num == 255 {
            255
        } else {
            (div_num + 1) as u8
        }
    } else {
        div_num
    }
}

/// The fractional-N divider word: `(ref + 65536 * vco) / (2 * ref)`, rounded.
pub open spec fn pll_vco_div(xtal_hz: u32, freq_hz: u32, mix_div: u32) -> u64 {
    ((xtal_hz as int + 65_536 * (freq_hz as int * mix_div as int)) / (2 * xtal_hz as int)) as u64
}

/// Integer part of the divider, as the 8-bit register sees it.
pub open spec fn pll_nint(xtal_hz: u32, freq_hz: u32, mix_div: u32) -> u8 {
    (pll_vco_div(xtal_hz, freq_hz, mix_div) / 65_536) as u8
}

/// Sigma-delta (fractional) part of the divider.
pub open spec fn pll_sdm(xtal_hz: u32, freq_hz: u32, mix_div: u32) -> u16 {
    (pll_vco_div(xtal_hz, freq_hz, mix_div) % 65_536) as u16
}

/// The PLL registers 0x10..0x16 after programming: `window` is the shadow of those
/// registers with the first two masks applied, `status` the fifth status byte read back.
pub open spec fn pll_register_values(
    window: Seq<u8>,
    kind: R82xxKind,
    xtal_hz: u32,
    freq_hz: u32,
    mix_div: u32,
    div_num: u8,
    status: u8,
) -> Result<Seq<u8>, Error> {
    let dn = adjusted_div_num(kind, div_num, status);
    let nint = pll_nint(xtal_hz, freq_hz, mix_div);
    let sdm = pll_sdm(xtal_hz, freq_hz, mix_div);
    if nint < 13 || nint > 128u8 / vco_power_ref(kind) - 1 {
        Err(Error::InvalidFrequency(freq_hz))
    } else {
        let ni = ((nint - 13) / 4) as u8;
        let si = (nint - 4 * ni - 13) as u8;
        Ok(
            window.update(0, masked(window[0], dn << 5u8, 0xe0)).update(
                2,
                masked(
                    window[2],
                    if sdm == 0 {
                        0x08
                    } else {
                        0x00
                    },
                    0x08,
                ),
            ).update(4, (ni + (si << 6u8)) as u8).update(5, (sdm & 0xff) as u8).update(
                6,
                (sdm >> 8u16) as u8,
            ),
        )
    }
}

/// Computes the PLL registers from the prepared window, the divider and the status byte.
pub fn pll_registers(
    window: [u8; 7],
    kind: R82xxKind,
    xtal_hz: u32,
    freq_hz: u32,
    mix_div: u32,
    div_num: u8,
    status: u8,
) -> (r: Result<[u8; 7], Error>)
    requires
        xtal_hz > 0,
        mix_div <= 64,
    ensures
        match pll_register_values(window@, kind, xtal_hz, freq_hz, mix_div, div_num, status) {
            Ok(s) => r matches Ok(a) && a@ == s,
            Err(e) => r == Err::<[u8; 7], Error>(e),
        },
{
    let mut regs = window;
    let vco_power_ref: u8 = if kind == R82xxKind::R828D {
        1
    } else {
        2
    };
    let fine_tune = (status & 0x30) >> 4u8;
    let mut dn = div_num;
    if fine_tune > vco_power_ref {
        dn = if dn == 0 {
            0
        } else {
            dn - 1
        };
    } else if fine_tune < vco_power_ref {
        dn = if dn == 255 {
            255
        } else {
            dn + 1
        };
    }
    regs[0] = mask_reg8(regs[0], dn << 5u8, 0xe0);
    let pll_ref = xtal_hz as u64;
    assert(freq_hz as u64 * mix_div as u64 <= 0xffff_ffff * 64) by (nonlinear_arith)
        requires
            mix_div <= 64,
    ;
    let vco_freq = freq_hz as u64 * mix_div as u64;
    let vco_div = (pll_ref + 65_536 * vco_freq) / (2 * pll_ref);
    let nint = (vco_div / 65_536) as u8;
    let sdm = (vco_div % 65_536) as u16;
    if nint < 13 || nint > (128 / vco_power_ref) - 1 {
        return Err(Error::InvalidFrequency(freq_hz));
    }
    let ni = (nint - 13) / 4;
    let si = nint - 4 * ni - 13;
    assert(si < 4);
    assert((si << 6u8) as int == si * 64) by (bit_vector)
        requires
            si < 4,
    ;
    regs[4] = ni + (si << 6u8);
    regs[2] = mask_reg8(
        regs[2],
        if sdm == 0 {
            0x08
        } else {
            0x00
        },
        0x08,
    );
    regs[5] = (sdm & 0xff) as u8;
    regs[6] = (sdm >> 8u16) as u8;
    assert(regs@ =~= pll_register_values(
        window@,
        kind,
        xtal_hz,
        freq_hz,
        mix_div,
        div_num,
        status,
    )->Ok_0);
    Ok(regs)
}

// ---------------------------------------------------------------------------
// Tuner state and its register shadow
// ---------------------------------------------------------------------------

#[derive(Debug, Clone, Copy, PartialEq, Eq, Structural)]
pub enum XtalCap {
    High0,
}

/// An R820T or R828D tuner: its configuration and a shadow of registers 0x05..0x22.
#[derive(Debug)]
pub struct R82xx {
    kind: R82xxKind,
    i2c_addr: u8,
    xtal_hz: u32,
    max_i2c_msg_len: usize,
    regs: [u8; NUM_REGS],
    xtal_cap_sel: XtalCap,
    int_freq: u32,
    fil_cal_code: u8,
    input: u8,
    has_lock: bool,
    is_blog_v4: bool,
}

/// What a tuner holds, as plain values.
pub struct R82xxView {
    pub kind: R82xxKind,
    pub i2c_addr: u8,
    pub xtal_hz: u32,
    pub max_i2c_msg_len: usize,
    pub regs: Seq<u8>,
    pub int_freq: u32,
    pub fil_cal_code: u8,
    pub input: u8,
    pub has_lock: bool,
    pub is_blog_v4: bool,
}

impl View for R82xx {
    type V = R82xxView;

    closed spec fn view(&self) -> R82xxView {
        R82xxView {
            kind: self.kind,
            i2c_addr: self.i2c_addr,
            xtal_hz: self.xtal_hz,
            max_i2c_msg_len: self.max_i2c_msg_len,
            regs: self.regs@,
            int_freq: self.int_freq,
            fil_cal_code: self.fil_cal_code,
            input: self.input,
            has_lock: self.has_lock,
            is_blog_v4: self.is_blog_v4,
        }
    }
}

/// The I2C address of each tuner kind.
pub open spec fn r82xx_i2c_addr(kind: R82xxKind) -> u8 {
    match kind {
        R82xxKind::R820T => 0x34,
        R82xxKind::R828D => 0x74,
    }
}

/// The shadow index of register `reg`.
pub open spec fn shadow_index(reg: u8) -> int {
    reg as int - REG_SHADOW_START as int
}

/// The shadow after storing `values` from register `reg` on: the values that fall on
/// shadowed registers replace them, the others are dropped.
pub open spec fn stored_regs(regs: Seq<u8>, reg: u8, values: Seq<u8>) -> Seq<u8> {
    Seq::new(
        regs.len(),
        |i: int|
            if 0 <= i - shadow_index(reg) < values.len() {
                values[i - shadow_index(reg)]
            } else {
                regs[i]
            },
    )
}

/// Whether the shadow holds `values` from register `reg` on.
pub open spec fn shadow_holds(regs: Seq<u8>, reg: u8, values: Seq<u8>) -> bool {
    in_shadow(reg, values.len() as int) && regs.subrange(
        shadow_index(reg),
        shadow_index(reg) + values.len(),
    ) == values
}

/// Whether every register of `values` is shadowed.
pub open spec fn in_shadow(reg: u8, len: int) -> bool {
    shadow_index(reg) >= 0 && shadow_index(reg) + len <= NUM_REGS
}

impl R82xx {
    #[verifier::type_invariant]
    spec fn inv(self) -> bool {
        &&& self.max_i2c_msg_len == 8
        &&& self.regs@.len() == NUM_REGS
    }

    /// The shadow covers exactly the registers 0x05..0x22: it has `NUM_REGS` entries.
    pub proof fn lemma_shadow_len(&self)
        ensures
            self@.regs.len() == NUM_REGS,
    {
    }

    /// A tuner of the given kind with an all-zero shadow, not yet locked.
    pub fn new(kind: R82xxKind, xtal_hz: u32, is_blog_v4: bool) -> (r: R82xx)
        ensures
            r@ == (R82xxView {
                kind,
                i2c_addr: r82xx_i2c_addr(kind),
                xtal_hz,
                max_i2c_msg_len: 8,
                regs: Seq::new(NUM_REGS as nat, |i: int| 0u8),
                int_freq: R82XX_IF_FREQ,
                fil_cal_code: 0,
                input: 0,
                has_lock: false,
                is_blog_v4,
            }),
    {
        let i2c_addr: u8 = match kind {
            R82xxKind::R820T => 0x34,
            R82xxKind::R828D => 0x74,
        };
        let r = R82xx {
            kind,
            i2c_addr,
            xtal_hz,
            max_i2c_msg_len: 8,
            regs: [0u8; 30],
            xtal_cap_sel: XtalCap::High0,
            int_freq: R82XX_IF_FREQ,
            fil_cal_code: 0,
            input: 0,
            has_lock: false,
            is_blog_v4,
        };
        assert(r.regs@ =~= Seq::new(NUM_REGS as nat, |i: int| 0u8));
        r
    }

    pub fn kind(&self) -> (r: R82xxKind)
        ensures
            r == self@.kind,
    {
        self.kind
    }

    /// The shadowed value of register `reg`, or `ArithmeticOverflow` for a register
    /// outside the shadow.
    pub fn read_cache_reg(&self, reg: u8) -> (r: Result<u8, Error>)
        ensures
            in_shadow(reg, 1) ==> r == Ok::<u8, Error>(self@.regs[shadow_index(reg)]),
            !in_shadow(reg, 1) ==> r == Err::<u8, Error>(Error::ArithmeticOverflow),
    {
        if reg < REG_SHADOW_START {
            return Err(Error::ArithmeticOverflow);
        }
        let idx = (reg - REG_SHADOW_START) as usize;
        if idx < NUM_REGS {
            Ok(self.regs[idx])
        } else {
            Err(Error::ArithmeticOverflow)
        }
    }

    /// The shadowed values of `len` registers from `reg` on, or `ArithmeticOverflow`
    /// where they do not all lie in the shadow.
    pub fn reg_window<const N: usize>(&self, reg: u8, len: usize) -> (r: Result<[u8; N], Error>)
        requires
            N == len,
        ensures
            in_shadow(reg, len as int) ==> (r matches Ok(a) && a@ == self@.regs.subrange(
                shadow_index(reg),
                shadow_index(reg) + len,
            )),
            !in_shadow(reg, len as int) ==> r == Err::<[u8; N], Error>(Error::ArithmeticOverflow),
    {
        if reg < REG_SHADOW_START {
            return Err(Error::ArithmeticOverflow);
        }
        let idx = (reg - REG_SHADOW_START) as usize;
        if idx > NUM_REGS || len > NUM_REGS - idx {
            return Err(Error::ArithmeticOverflow);
        }
        let mut out = [0u8; N];
        let mut i: usize = 0;
        while i < len
            invariant
                i <= len,
                N == len,
                idx + len <= NUM_REGS,
                idx == shadow_index(reg),
                forall|j: int| 0 <= j < i ==> out@[j] == self.regs@[idx + j],
            decreases len - i,
        {
            out[i] = self.regs[idx + i];
            i = i + 1;
        }
        assert(out@ =~= self@.regs.subrange(shadow_index(reg), shadow_index(reg) + len));
        Ok(out)
    }

    /// Whether the shadow already holds `values` from register `reg` on.
    pub fn shadow_equal(&self, reg: u8, values: &[u8]) -> (r: bool)
        ensures
            r == shadow_holds(self@.regs, reg, values@),
    {
        if reg < REG_SHADOW_START {
            return false;
        }
        let start = (reg - REG_SHADOW_START) as usize;
        if start > NUM_REGS || values.len() > NUM_REGS - start {
            return false;
        }
        let mut i: usize = 0;
        while i < values.len()
            invariant
                i <= values.len(),
                start + values.len() <= NUM_REGS,
                start == shadow_index(reg),
                forall|j: int| 0 <= j < i ==> self.regs@[start + j] == values@[j],
            decreases values.len() - i,
        {
            if self.regs[start + i] != values[i] {
                assert(self@.regs.subrange(shadow_index(reg), shadow_index(reg) + values@.len())[i as int]
                    != values@[i as int]);
                return false;
            }
            i = i + 1;
        }
        assert(self@.regs.subrange(shadow_index(reg), shadow_index(reg) + values@.len()) =~= values@);
        true
    }

    /// Records in the shadow the values written from register `reg` on.
    pub fn shadow_store(&mut self, reg: u8, values: &[u8])
        ensures
            final(self)@ == (R82xxView { regs: stored_regs(old(self)@.regs, reg, values@), ..old(self)@ }),
    {
        proof {
            use_type_invariant(&*self);
        }
        let ghost old_regs = self.regs@;
        let mut source_start: usize = 0;
        let mut len: usize = values.len();
        let start: usize;
        if reg < REG_SHADOW_START {
            let skip = (REG_SHADOW_START - reg) as usize;
            if skip >= len {
                assert(stored_regs(old_regs, reg, values@) =~= old_regs);
                return;
            }
            source_start = skip;
            len = len - skip;
            start = 0;
        } else {
            start = (reg - REG_SHADOW_START) as usize;
        }
        if start >= NUM_REGS {
            assert(stored_regs(old_regs, reg, values@) =~= old_regs);
            return;
        }
        if len > NUM_REGS - start {
            len = NUM_REGS - start;
        }
        let mut i: usize = 0;
        while i < len
            invariant
                i <= len,
                start + len <= NUM_REGS,
                source_start + len <= values.len(),
                start - source_start == shadow_index(reg),
                start == 0 || source_start == 0,
                len == values.len() - source_start || start + len == NUM_REGS,
                forall|j: int| 0 <= j < NUM_REGS ==> self.regs@[j] == if start <= j < start + i {
                    values@[j - shadow_index(reg)]
                } else {
                    old_regs[j]
                },
                self.kind == old(self).kind,
                self.i2c_addr == old(self).i2c_addr,
                self.xtal_hz == old(self).xtal_hz,
                self.max_i2c_msg_len == old(self).max_i2c_msg_len,
                self.max_i2c_msg_len == 8,
                self.int_freq == old(self).int_freq,
                self.fil_cal_code == old(self).fil_cal_code,
                self.input == old(self).input,
                self.has_lock == old(self).has_lock,
                self.is_blog_v4 == old(self).is_blog_v4,
                old_regs == old(self).regs@,
            decreases len - i,
        {
            self.regs[start + i] = values[source_start + i];
            i = i + 1;
        }
        assert(self.regs@ =~= stored_regs(old_regs, reg, values@));
    }
}

// ---------------------------------------------------------------------------
// I2C writes
// ---------------------------------------------------------------------------

/// The I2C messages of a register write of `values` from `reg` on, and the shadow after it:
/// nothing is sent when the shadow already holds the values.
pub open spec fn write_effect(regs: Seq<u8>, reg: u8, values: Seq<u8>) -> (Seq<u8>, Seq<Seq<u8>>) {
    if shadow_holds(regs, reg, values) {
        (regs, seq![])
    } else {
        (stored_regs(regs, reg, values), i2c_messages(reg, values, 7))
    }
}

impl R82xx {
    pub fn i2c_addr(&self) -> (r: u8)
        ensures
            r == self@.i2c_addr,
    {
        self.i2c_addr
    }

    /// Prepares a register write: skips it when the shadow already holds the values,
    /// else records them in the shadow and returns the I2C messages that carry them.
    pub fn prepare_write(&mut self, reg: u8, values: &[u8]) -> (msgs: Vec<Vec<u8>>)
        ensures
            final(self)@ == (R82xxView {
                regs: write_effect(old(self)@.regs, reg, values@).0,
                ..old(self)@
            }),
            messages_view(msgs@) == write_effect(old(self)@.regs, reg, values@).1,
    {
        proof {
            use_type_invariant(&*self);
        }
        if self.shadow_equal(reg, values) {
            let out: Vec<Vec<u8>> = Vec::new();
            assert(messages_view(out@) =~= Seq::<Seq<u8>>::empty());
            return out;
        }
        self.shadow_store(reg, values);
        split_i2c_write(reg, values, self.max_i2c_msg_len)
    }

    /// Prepares a masked write of one register from its shadowed value; a register
    /// outside the shadow gives `ArithmeticOverflow`.
    pub fn prepare_write_mask(&mut self, reg: u8, value: u8, mask: u8) -> (r: Result<
        Vec<Vec<u8>>,
        Error,
    >)
        ensures
            !in_shadow(reg, 1) ==> r == Err::<Vec<Vec<u8>>, Error>(Error::ArithmeticOverflow)
                && final(self)@ == old(self)@,
            in_shadow(reg, 1) ==> ({
                let v = masked(old(self)@.regs[shadow_index(reg)], value, mask);
                &&& r matches Ok(msgs)
                &&& messages_view(msgs@) == write_effect(old(self)@.regs, reg, seq![v]).1
                &&& final(self)@ == (R82xxView {
                    regs: write_effect(old(self)@.regs, reg, seq![v]).0,
                    ..old(self)@
                })
            }),
    {
        let current = match self.read_cache_reg(reg) {
            Ok(c) => c,
            Err(e) => {
                return Err(e);
            },
        };
        let v = mask_reg8(current, value, mask);
        let data: [u8; 1] = [v];
        assert(data@ =~= seq![v]);
        Ok(self.prepare_write(reg, &data))
    }
}

/// The I2C messages that write `values` from register `reg` on: each holds a start
/// register and at most `chunk` values; the register address wraps at 256.
pub open spec fn i2c_messages(reg: u8, values: Seq<u8>, chunk: nat) -> Seq<Seq<u8>>
    decreases values.len(),
{
    if values.len() == 0 || chunk == 0 {
        seq![]
    } else {
        let n = if values.len() < chunk {
            values.len()
        } else {
            chunk
        };
        seq![seq![reg] + values.take(n as int)] + i2c_messages(
            ((reg + n) % 256) as u8,
            values.skip(n as int),
            chunk,
        )
    }
}

pub open spec fn messages_view(msgs: Seq<Vec<u8>>) -> Seq<Seq<u8>> {
    msgs.map_values(|m: Vec<u8>| m@)
}

/// Splits a register write into I2C messages of at most `max_len` bytes.
#[verifier::spinoff_prover]
#[verifier::rlimit(40)]
pub fn split_i2c_write(start_reg: u8, values: &[u8], max_len: usize) -> (r: Vec<Vec<u8>>)
    requires
        2 <= max_len,
    ensures
        messages_view(r@) == i2c_messages(start_reg, values@, (max_len - 1) as nat),
{
    let chunk = max_len - 1;
    let mut out: Vec<Vec<u8>> = Vec::new();
    let mut pos: usize = 0;
    let mut reg = start_reg;
    assert(values@.skip(0) =~= values@);
    assert(messages_view(out@) =~= Seq::<Seq<u8>>::empty());
    while pos < values.len()
        invariant
            pos <= values.len(),
            chunk == max_len - 1,
            1 <= chunk,
            messages_view(out@) + i2c_messages(reg, values@.skip(pos as int), chunk as nat)
                == i2c_messages(start_reg, values@, chunk as nat),
        decreases values.len() - pos,
    {
        let size = if chunk < values.len() - pos {
            chunk
        } else {
            values.len() - pos
        };
        let mut buf: Vec<u8> = Vec::new();
        buf.push(reg);
        let mut k: usize = 0;
        while k < size
            invariant
                k <= size,
                pos + size <= values.len(),
                buf@ == seq![reg] + values@.subrange(pos as int, (pos + k) as int),
            decreases size - k,
        {
            buf.push(values[pos + k]);
            k = k + 1;
            assert(buf@ =~= seq![reg] + values@.subrange(pos as int, (pos + k) as int));
        }
        let ghost rest = values@.skip(pos as int);
        assert(rest.take(size as int) =~= values@.subrange(pos as int, (pos + size) as int));
        assert(rest.skip(size as int) =~= values@.skip((pos + size) as int));
        let ghost prev = messages_view(out@);
        out.push(buf);
        assert(messages_view(out@) =~= prev.push(buf@));
        assert(i2c_messages(reg, rest, chunk as nat) =~= seq![buf@] + i2c_messages(
            ((reg + size) % 256) as u8,
            values@.skip((pos + size) as int),
            chunk as nat,
        ));
        let ghost tail = i2c_messages(
            ((reg + size) % 256) as u8,
            values@.skip((pos + size) as int),
            chunk as nat,
        );
        assert(prev + (seq![buf@] + tail) =~= prev.push(buf@) + tail);
        let step = (size % 256) as u8;
        assert(((reg + size) % 256) as u8 == ((reg + step) % 256) as u8) by {
            lemma_mod_multiples_vanish((size / 256) as int, (reg + step) as int, 256);
            assert(reg + size == 256 * (size / 256) + (reg + step));
        }
        reg = reg.wrapping_add(step);
        pos = pos + size;
    }
    assert(values@.skip(pos as int) =~= Seq::<u8>::empty());
    out
}


// ---------------------------------------------------------------------------
// Programming the PLL
// ---------------------------------------------------------------------------

#[derive(Debug, Clone, Copy, PartialEq, Eq, Structural)]
pub enum PllStage {
    Start,
    Gated,
    Calibrating,
    FirstLockCheck,
    SecondLockCheck,
    Enabling,
    Over,
}

/// Tunes the PLL to an LO frequency: gates it, chooses the divider, reads the VCO
/// calibration, writes the divider registers and checks the lock twice at most.
#[derive(Debug)]
pub struct PllOp {
    freq_hz: u32,
    stage: PllStage,
    window: [u8; 7],
    mix_div: u32,
    div_num: u8,
}

pub struct PllOpV {
    pub freq_hz: u32,
    pub stage: PllStage,
    pub window: Seq<u8>,
    pub mix_div: u32,
    pub div_num: u8,
}

impl View for PllOp {
    type V = PllOpV;

    closed spec fn view(&self) -> PllOpV {
        PllOpV {
            freq_hz: self.freq_hz,
            stage: self.stage,
            window: self.window@,
            mix_div: self.mix_div,
            div_num: self.div_num,
        }
    }
}

/// The PLL registers 0x10..0x16 from the shadow, with the first two masks applied.
pub open spec fn pll_window(regs: Seq<u8>) -> Seq<u8> {
    let w = regs.subrange(11, 18);
    w.update(0, masked(w[0], 0x00, 0x10)).update(2, masked(w[2], 0x80, 0xe0))
}

/// Whether status bytes read back show the PLL locked.
pub open spec fn pll_locked(status: Seq<u8>) -> bool {
    status[2] & 0x40 != 0
}

pub open spec fn pll_lock_read() -> CmdV {
    CmdV::TunerRead { reg: 0x00, len: 3 }
}

/// A PLL programming that has not started.
pub open spec fn pll_fresh(freq_hz: u32) -> PllOpV {
    PllOpV {
        freq_hz,
        stage: PllStage::Start,
        window: Seq::new(7, |i: int| 0u8),
        mix_div: 2,
        div_num: 0,
    }
}

/// A PLL programming that has just gated the PLL.
pub open spec fn pll_started(freq_hz: u32) -> PllOpV {
    PllOpV { stage: PllStage::Gated, ..pll_fresh(freq_hz) }
}

/// The batch that starts a PLL programming.
pub open spec fn pll_gate_batch() -> Seq<CmdV> {
    seq![wm(0x1a, 0x00, 0x0c)]
}

/// One move of the PLL programming: the operation's next state, the tuner's, and what
/// it asks for next.
#[verifier::opaque]
pub open spec fn pll_next(s: PllOpV, tv: R82xxView, outcome: Result<OutputV, Error>) -> (
    PllOpV,
    R82xxView,
    OpStepV<()>,
) {
    let over = PllOpV { stage: PllStage::Over, ..s };
    match outcome {
        Err(e) => (over, tv, OpStepV::Done(Err(e))),
        Ok(o) => {
            let d = bytes_of(o);
            match s.stage {
                PllStage::Gated => match pll_div_exponent(s.freq_hz) {
                    None => (over, tv, OpStepV::Done(Err(Error::InvalidFrequency(s.freq_hz)))),
                    Some(e) => (
                        PllOpV {
                            stage: PllStage::Calibrating,
                            window: pll_window(tv.regs),
                            mix_div: two_pow(e) as u32,
                            div_num: (e - 1) as u8,
                            ..s
                        },
                        tv,
                        OpStepV::Run(seq![CmdV::TunerRead { reg: 0x00, len: 5 }]),
                    ),
                },
                PllStage::Calibrating => if d.len() < 5 {
                    (
                        over,
                        tv,
                        OpStepV::Done(
                            Err(Error::ShortTransfer { expected: 5, actual: d.len() as usize }),
                        ),
                    )
                } else if tv.xtal_hz == 0 {
                    (over, tv, OpStepV::Done(Err(Error::ArithmeticOverflow)))
                } else {
                    match pll_register_values(
                        s.window,
                        tv.kind,
                        tv.xtal_hz,
                        s.freq_hz,
                        s.mix_div,
                        s.div_num,
                        d[4],
                    ) {
                        Err(e) => (over, tv, OpStepV::Done(Err(e))),
                        Ok(regs) => (
                            PllOpV { stage: PllStage::FirstLockCheck, ..s },
                            tv,
                            OpStepV::Run(
                                seq![CmdV::TunerWrite { reg: 0x10, values: regs }, pll_lock_read()],
                            ),
                        ),
                    }
                },
                PllStage::FirstLockCheck | PllStage::SecondLockCheck => if d.len() < 3 {
                    (
                        over,
                        tv,
                        OpStepV::Done(
                            Err(Error::ShortTransfer { expected: 3, actual: d.len() as usize }),
                        ),
                    )
                } else if pll_locked(d) {
                    (
                        PllOpV { stage: PllStage::Enabling, ..s },
                        R82xxView { has_lock: true, ..tv },
                        OpStepV::Run(seq![wm(0x1a, 0x08, 0x08)]),
                    )
                } else if s.stage == PllStage::FirstLockCheck {
                    (
                        PllOpV { stage: PllStage::SecondLockCheck, ..s },
                        tv,
                        OpStepV::Run(seq![wm(0x12, 0x60, 0xe0), pll_lock_read()]),
                    )
                } else {
                    (over, R82xxView { has_lock: false, ..tv }, OpStepV::Done(Ok(())))
                },
                _ => (over, tv, OpStepV::Done(Ok(()))),
            }
        },
    }
}

impl PllOp {
    #[verifier::type_invariant]
    spec fn inv(self) -> bool {
        self.mix_div <= 64
    }

    pub fn new(freq_hz: u32) -> (r: PllOp)
        ensures
            r@ == pll_fresh(freq_hz),
    {
        let r = PllOp { freq_hz, stage: PllStage::Start, window: [0u8; 7], mix_div: 2, div_num: 0 };
        assert(r.window@ =~= Seq::new(7, |i: int| 0u8));
        r
    }

    pub fn freq_hz(&self) -> (r: u32)
        ensures
            r == self@.freq_hz,
    {
        self.freq_hz
    }

    /// Gates the PLL before programming it.
    pub fn start(&mut self) -> (r: OpStep<()>)
        requires
            old(self)@.stage == PllStage::Start,
        ensures
            step_view(r) == OpStepV::<()>::Run(pll_gate_batch()),
            final(self)@ == (PllOpV { stage: PllStage::Gated, ..old(self)@ }),
    {
        proof {
            use_type_invariant(&*self);
        }
        self.stage = PllStage::Gated;
        let v = vec![write_mask(0x1a, 0x00, 0x0c)];
        assert(crate::rtl_usb::cmds_view(v@) =~= seq![wm(0x1a, 0x00, 0x0c)]);
        OpStep::Run(v)
    }

    /// Continues with the outcome of the batch asked for last.
    pub fn resume(&mut self, t: &mut R82xx, outcome: Result<Output, Error>) -> (r: OpStep<()>)
        requires
            old(self)@.stage != PllStage::Start,
            old(self)@.stage != PllStage::Over,
        ensures
            (final(self)@, final(t)@, step_view(r)) == pll_next(
                old(self)@,
                old(t)@,
                output_result_view(outcome),
            ),
            r is Run ==> final(self)@.stage != PllStage::Start && final(self)@.stage
                != PllStage::Over,
    {
        proof {
            reveal(pll_next);
        }
        proof {
            use_type_invariant(&*self);
            use_type_invariant(&*t);
        }
        let out = match outcome {
            Err(e) => {
                self.stage = PllStage::Over;
                return OpStep::Done(Err(e));
            },
            Ok(o) => o,
        };
        match self.stage {
            PllStage::Gated => {
                proof {
                    use_type_invariant(&*t);
                }
                let window = match t.reg_window::<7>(0x10, 7) {
                    Ok(w) => w,
                    Err(e) => {
                        self.stage = PllStage::Over;
                        return OpStep::Done(Err(e));
                    },
                };
                let mut w = window;
                w[0] = mask_reg8(w[0], 0x00, 0x10);
                w[2] = mask_reg8(w[2], 0x80, 0xe0);
                assert(w@ =~= pll_window(t@.regs));
                match pll_divider(self.freq_hz) {
                    Err(e) => {
                        self.stage = PllStage::Over;
                        OpStep::Done(Err(e))
                    },
                    Ok((mix_div, div_num)) => {
                        self.window = w;
                        self.mix_div = mix_div;
                        self.div_num = div_num;
                        self.stage = PllStage::Calibrating;
                        let v = vec![Cmd::TunerRead { reg: 0x00, len: 5 }];
                        assert(crate::rtl_usb::cmds_view(v@) =~= seq![CmdV::TunerRead { reg: 0x00, len: 5 }]);
                        OpStep::Run(v)
                    },
                }
            },
            PllStage::Calibrating => {
                let d = output_into_bytes(out);
                if d.len() < 5 {
                    self.stage = PllStage::Over;
                    return OpStep::Done(Err(Error::ShortTransfer { expected: 5, actual: d.len() }));
                }
                if t.xtal_hz == 0 {
                    self.stage = PllStage::Over;
                    return OpStep::Done(Err(Error::ArithmeticOverflow));
                }
                match pll_registers(
                    self.window,
                    t.kind,
                    t.xtal_hz,
                    self.freq_hz,
                    self.mix_div,
                    self.div_num,
                    d[4],
                ) {
                    Err(e) => {
                        self.stage = PllStage::Over;
                        OpStep::Done(Err(e))
                    },
                    Ok(regs) => {
                        let mut values: Vec<u8> = Vec::new();
                        let mut i: usize = 0;
                        while i < 7
                            invariant
                                i <= 7,
                                values@ == regs@.subrange(0, i as int),
                            decreases 7 - i,
                        {
                            values.push(regs[i]);
                            i = i + 1;
                            assert(values@ =~= regs@.subrange(0, i as int));
                        }
                        assert(regs@.subrange(0, 7) =~= regs@);
                        self.stage = PllStage::FirstLockCheck;
                        let ghost vv = values@;
                        let v = vec![
                            Cmd::TunerWrite { reg: 0x10, values },
                            Cmd::TunerRead { reg: 0x00, len: 3 },
                        ];
                        assert(crate::rtl_usb::cmds_view(v@) =~= seq![
                            CmdV::TunerWrite { reg: 0x10, values: vv },
                            pll_lock_read(),
                        ]);
                        OpStep::Run(v)
                    },
                }
            },
            PllStage::FirstLockCheck | PllStage::SecondLockCheck => {
                let d = output_into_bytes(out);
                if d.len() < 3 {
                    self.stage = PllStage::Over;
                    return OpStep::Done(Err(Error::ShortTransfer { expected: 3, actual: d.len() }));
                }
                if d[2] & 0x40 != 0 {
                    t.has_lock = true;
                    self.stage = PllStage::Enabling;
                    let v = vec![write_mask(0x1a, 0x08, 0x08)];
                    assert(crate::rtl_usb::cmds_view(v@) =~= seq![wm(0x1a, 0x08, 0x08)]);
                    OpStep::Run(v)
                } else if self.stage == PllStage::FirstLockCheck {
                    self.stage = PllStage::SecondLockCheck;
                    let v = vec![write_mask(0x12, 0x60, 0xe0), Cmd::TunerRead { reg: 0x00, len: 3 }];
                    assert(crate::rtl_usb::cmds_view(v@) =~= seq![wm(0x12, 0x60, 0xe0), pll_lock_read()]);
                    OpStep::Run(v)
                } else {
                    t.has_lock = false;
                    self.stage = PllStage::Over;
                    OpStep::Done(Ok(()))
                }
            },
            _ => {
                self.stage = PllStage::Over;
                OpStep::Done(Ok(()))
            },
        }
    }
}


// ---------------------------------------------------------------------------
// Command batches of the tuner
// ---------------------------------------------------------------------------

/// The multiplexer, tracking filter and crystal capacitor settings for an LO frequency.
pub open spec fn mux_batch(freq_hz: u32) -> Seq<CmdV> {
    let r = freq_range_at(mux_index(freq_hz as int / 1_000_000));
    seq![
        wm(0x17, r.open_d, 0x08),
        wm(0x1a, r.rf_mux_ploy, 0xc3),
        wr(0x1b, r.tf_c),
        wm(0x10, r.xtal_cap0p, 0x0b),
        wm(0x08, 0x00, 0x3f),
        wm(0x09, 0x00, 0x3f),
    ]
}

pub fn mux_commands(freq_hz: u32) -> (r: Vec<Cmd>)
    ensures
        crate::rtl_usb::cmds_view(r@) == mux_batch(freq_hz),
{
    let range = mux_range(freq_hz);
    let v = vec![
        write_mask(0x17, range.open_d, 0x08),
        write_mask(0x1a, range.rf_mux_ploy, 0xc3),
        write_reg(0x1b, range.tf_c),
        write_mask(0x10, range.xtal_cap0p, 0x0b),
        write_mask(0x08, 0x00, 0x3f),
        write_mask(0x09, 0x00, 0x3f),
    ];
    assert(crate::rtl_usb::cmds_view(v@) =~= mux_batch(freq_hz));
    v
}

/// The gain commands: automatic gain, or the LNA and mixer indices of a manual gain.
pub open spec fn gain_batch(manual: bool, gain_tenths_db: i32) -> Seq<CmdV> {
    if manual {
        let k = gain_steps(gain_tenths_db as int);
        seq![
            wm(0x05, 0x10, 0x10),
            wm(0x07, 0x00, 0x10),
            CmdV::TunerRead { reg: 0x00, len: 4 },
            wm(0x0c, 0x08, 0x9f),
            wm(0x05, ((k + 1) / 2) as u8, 0x0f),
            wm(0x07, (k / 2) as u8, 0x0f),
        ]
    } else {
        seq![wm(0x05, 0x00, 0x10), wm(0x07, 0x10, 0x10), wm(0x0c, 0x0b, 0x9f)]
    }
}

pub fn gain_commands(manual: bool, gain_tenths_db: i32) -> (r: Vec<Cmd>)
    ensures
        crate::rtl_usb::cmds_view(r@) == gain_batch(manual, gain_tenths_db),
{
    if manual {
        let (lna_index, mix_index) = gain_indices(gain_tenths_db);
        let v = vec![
            write_mask(0x05, 0x10, 0x10),
            write_mask(0x07, 0x00, 0x10),
            Cmd::TunerRead { reg: 0x00, len: 4 },
            write_mask(0x0c, 0x08, 0x9f),
            write_mask(0x05, lna_index, 0x0f),
            write_mask(0x07, mix_index, 0x0f),
        ];
        assert(crate::rtl_usb::cmds_view(v@) =~= gain_batch(manual, gain_tenths_db));
        v
    } else {
        let v = vec![
            write_mask(0x05, 0x00, 0x10),
            write_mask(0x07, 0x10, 0x10),
            write_mask(0x0c, 0x0b, 0x9f),
        ];
        assert(crate::rtl_usb::cmds_view(v@) =~= gain_batch(manual, gain_tenths_db));
        v
    }
}

/// The filter commands of a bandwidth setting.
pub open spec fn bandwidth_batch(bandwidth_hz: u32, sample_rate_hz: u32) -> Seq<CmdV> {
    let (reg_0a, reg_0b, _) = bandwidth_setting(bandwidth_hz, sample_rate_hz);
    seq![wm(0x0a, reg_0a, 0x10), wm(0x0b, reg_0b, 0xef)]
}

impl R82xx {
    /// Chooses the IF filter for a bandwidth (0 stands for the sample rate): records the
    /// new intermediate frequency and returns it with the commands that set the filter.
    pub fn set_bandwidth(&mut self, bandwidth_hz: u32, sample_rate_hz: u32) -> (r: (Vec<Cmd>, u32))
        ensures
            crate::rtl_usb::cmds_view(r.0@) == bandwidth_batch(bandwidth_hz, sample_rate_hz),
            r.1 == bandwidth_setting(bandwidth_hz, sample_rate_hz).2,
            final(self)@ == (R82xxView {
                int_freq: bandwidth_setting(bandwidth_hz, sample_rate_hz).2,
                ..old(self)@
            }),
    {
        proof {
            use_type_invariant(&*self);
        }
        let (reg_0a, reg_0b, int_freq) = bandwidth_config(bandwidth_hz, sample_rate_hz);
        self.int_freq = int_freq;
        let v = vec![write_mask(0x0a, reg_0a, 0x10), write_mask(0x0b, reg_0b, 0xef)];
        assert(crate::rtl_usb::cmds_view(v@) =~= bandwidth_batch(bandwidth_hz, sample_rate_hz));
        (v, self.int_freq)
    }

    pub fn int_freq(&self) -> (r: u32)
        ensures
            r == self@.int_freq,
    {
        self.int_freq
    }

    pub fn has_lock(&self) -> (r: bool)
        ensures
            r == self@.has_lock,
    {
        self.has_lock
    }
}

// ---------------------------------------------------------------------------
// TV standard setup and filter calibration
// ---------------------------------------------------------------------------

pub open spec fn tv_preset_batch() -> Seq<CmdV> {
    seq![wm(0x0c, 0x00, 0x0f), wm(0x13, VER_NUM, 0x3f), wm(0x1d, 0x00, 0x38)]
}

pub open spec fn tv_loop_batch() -> Seq<CmdV> {
    seq![wm(0x0b, 0x6b, 0x60), wm(0x0f, 0x04, 0x04), wm(0x10, 0x00, 0x03)]
}

pub open spec fn tv_calibrate_batch() -> Seq<CmdV> {
    seq![
        wm(0x0b, 0x10, 0x10),
        wm(0x0b, 0x00, 0x10),
        wm(0x0f, 0x00, 0x04),
        CmdV::TunerRead { reg: 0x00, len: 5 },
    ]
}

pub open spec fn tv_final_batch(fil_cal_code: u8) -> Seq<CmdV> {
    seq![
        wm(0x0a, 0x10 | fil_cal_code, 0x1f),
        wm(0x0b, 0x6b, 0xef),
        wm(0x07, 0x00, 0x80),
        wm(0x06, 0x10, 0x30),
        wm(0x1e, 0x60, 0x60),
        wm(0x05, 0x01, 0x80),
        wm(0x1f, 0x00, 0x80),
        wm(0x0f, 0x00, 0x80),
        wm(0x19, 0x60, 0x60),
    ]
}

/// The LO frequency used for the filter calibration.
pub const FILT_CAL_LO: u32 = 56_000_000;

#[derive(Debug, Clone, Copy, PartialEq, Eq, Structural)]
pub enum TvStage {
    Start,
    Preset,
    LoopHead,
    InPll,
    Calibrating,
    Finishing,
    Over,
}

/// Sets the tuner up for its TV standard and calibrates the IF filter, trying the
/// calibration twice at most.
#[derive(Debug)]
pub struct TvStandardOp {
    stage: TvStage,
    second: bool,
    pll: PllOp,
}

pub struct TvStandardOpV {
    pub stage: TvStage,
    pub second: bool,
    pub pll: PllOpV,
}

impl View for TvStandardOp {
    type V = TvStandardOpV;

    closed spec fn view(&self) -> TvStandardOpV {
        TvStandardOpV { stage: self.stage, second: self.second, pll: self.pll@ }
    }
}

pub open spec fn tv_fresh() -> TvStandardOpV {
    TvStandardOpV { stage: TvStage::Start, second: false, pll: pll_fresh(FILT_CAL_LO) }
}

/// The calibration code kept from a status byte: 0x0f, like 0, means a failed calibration.
pub open spec fn kept_cal_code(code: u8) -> u8 {
    if code == 0x0f {
        0
    } else {
        code
    }
}

/// One move of the TV standard setup.
#[verifier::opaque]
pub open spec fn tv_next(s: TvStandardOpV, tv: R82xxView, outcome: Result<OutputV, Error>) -> (
    TvStandardOpV,
    R82xxView,
    OpStepV<()>,
) {
    let over = TvStandardOpV { stage: TvStage::Over, ..s };
    if s.stage == TvStage::InPll {
        let (p2, t2, st) = pll_next(s.pll, tv, outcome);
        match st {
            OpStepV::Run(c) => (TvStandardOpV { pll: p2, ..s }, t2, OpStepV::Run(c)),
            OpStepV::Done(Err(e)) => (TvStandardOpV { pll: p2, ..over }, t2, OpStepV::Done(Err(e))),
            OpStepV::Done(Ok(_)) => if !t2.has_lock {
                (TvStandardOpV { pll: p2, ..over }, t2, OpStepV::Done(Err(Error::PllDidNotLock)))
            } else {
                (
                    TvStandardOpV { stage: TvStage::Calibrating, pll: p2, ..s },
                    t2,
                    OpStepV::Run(tv_calibrate_batch()),
                )
            },
        }
    } else {
        match outcome {
            Err(e) => (over, tv, OpStepV::Done(Err(e))),
            Ok(o) => {
                let d = bytes_of(o);
                match s.stage {
                    TvStage::Preset => (
                        TvStandardOpV { stage: TvStage::LoopHead, ..s },
                        R82xxView { int_freq: 3_570_000, ..tv },
                        OpStepV::Run(tv_loop_batch()),
                    ),
                    TvStage::LoopHead => (
                        TvStandardOpV {
                            stage: TvStage::InPll,
                            pll: pll_started(FILT_CAL_LO),
                            ..s
                        },
                        tv,
                        OpStepV::Run(pll_gate_batch()),
                    ),
                    TvStage::Calibrating => if d.len() < 5 {
                        (
                            over,
                            tv,
                            OpStepV::Done(
                                Err(Error::ShortTransfer { expected: 5, actual: d.len() as usize }),
                            ),
                        )
                    } else {
                        let code = d[4] & 0x0f;
                        if (code != 0 && code != 0x0f) || s.second {
                            (
                                TvStandardOpV { stage: TvStage::Finishing, ..s },
                                R82xxView { fil_cal_code: kept_cal_code(code), ..tv },
                                OpStepV::Run(tv_final_batch(kept_cal_code(code))),
                            )
                        } else {
                            (
                                TvStandardOpV { stage: TvStage::LoopHead, second: true, ..s },
                                R82xxView { fil_cal_code: code, ..tv },
                                OpStepV::Run(tv_loop_batch()),
                            )
                        }
                    },
                    _ => (over, tv, OpStepV::Done(Ok(()))),
                }
            },
        }
    }
}

/// The PLL programming that a TV setup waits on is under way.
pub open spec fn tv_wf(s: TvStandardOpV) -> bool {
    s.stage == TvStage::InPll ==> (s.pll.stage != PllStage::Start && s.pll.stage != PllStage::Over)
}

impl TvStandardOp {
    pub fn new() -> (r: TvStandardOp)
        ensures
            r@ == tv_fresh(),
            tv_wf(r@),
    {
        TvStandardOp { stage: TvStage::Start, second: false, pll: PllOp::new(FILT_CAL_LO) }
    }

    /// Loads the initial register values into the shadow and presets the standard.
    pub fn start(&mut self, t: &mut R82xx) -> (r: OpStep<()>)
        requires
            old(self)@.stage == TvStage::Start,
        ensures
            final(self)@ == (TvStandardOpV { stage: TvStage::Preset, ..old(self)@ }),
            final(t)@ == (R82xxView { regs: INIT_ARRAY@, ..old(t)@ }),
            step_view(r) == OpStepV::<()>::Run(tv_preset_batch()),
            tv_wf(final(self)@),
    {
        proof {
            use_type_invariant(&*t);
        }
        t.regs = INIT_ARRAY;
        self.stage = TvStage::Preset;
        let v = vec![
            write_mask(0x0c, 0x00, 0x0f),
            write_mask(0x13, VER_NUM, 0x3f),
            write_mask(0x1d, 0x00, 0x38),
        ];
        assert(crate::rtl_usb::cmds_view(v@) =~= tv_preset_batch());
        OpStep::Run(v)
    }

    pub fn resume(&mut self, t: &mut R82xx, outcome: Result<Output, Error>) -> (r: OpStep<()>)
        requires
            old(self)@.stage != TvStage::Start,
            old(self)@.stage != TvStage::Over,
            tv_wf(old(self)@),
        ensures
            (final(self)@, final(t)@, step_view(r)) == tv_next(
                old(self)@,
                old(t)@,
                output_result_view(outcome),
            ),
            r is Run ==> final(self)@.stage != TvStage::Start && final(self)@.stage
                != TvStage::Over,
            tv_wf(final(self)@),
    {
        proof {
            reveal(tv_next);
        }
        proof {
            use_type_invariant(&*t);
        }
        if self.stage == TvStage::InPll {
            let st = self.pll.resume(t, outcome);
            return match st {
                OpStep::Run(c) => OpStep::Run(c),
                OpStep::Done(Err(e)) => {
                    self.stage = TvStage::Over;
                    OpStep::Done(Err(e))
                },
                OpStep::Done(Ok(_)) => {
                    if !t.has_lock {
                        self.stage = TvStage::Over;
                        OpStep::Done(Err(Error::PllDidNotLock))
                    } else {
                        self.stage = TvStage::Calibrating;
                        let v = vec![
                            write_mask(0x0b, 0x10, 0x10),
                            write_mask(0x0b, 0x00, 0x10),
                            write_mask(0x0f, 0x00, 0x04),
                            Cmd::TunerRead { reg: 0x00, len: 5 },
                        ];
                        assert(crate::rtl_usb::cmds_view(v@) =~= tv_calibrate_batch());
                        OpStep::Run(v)
                    }
                },
            };
        }
        let out = match outcome {
            Err(e) => {
                self.stage = TvStage::Over;
                return OpStep::Done(Err(e));
            },
            Ok(o) => o,
        };
        match self.stage {
            TvStage::Preset => {
                t.int_freq = 3_570_000;
                self.stage = TvStage::LoopHead;
                let v = vec![
                    write_mask(0x0b, 0x6b, 0x60),
                    write_mask(0x0f, 0x04, 0x04),
                    write_mask(0x10, 0x00, 0x03),
                ];
                assert(crate::rtl_usb::cmds_view(v@) =~= tv_loop_batch());
                OpStep::Run(v)
            },
            TvStage::LoopHead => {
                let mut pll = PllOp::new(FILT_CAL_LO);
                let st = pll.start();
                self.pll = pll;
                self.stage = TvStage::InPll;
                st
            },
            TvStage::Calibrating => {
                let d = output_into_bytes(out);
                if d.len() < 5 {
                    self.stage = TvStage::Over;
                    return OpStep::Done(Err(Error::ShortTransfer { expected: 5, actual: d.len() }));
                }
                let code = d[4] & 0x0f;
                t.fil_cal_code = code;
                if (code != 0 && code != 0x0f) || self.second {
                    if t.fil_cal_code == 0x0f {
                        t.fil_cal_code = 0;
                    }
                    self.stage = TvStage::Finishing;
                    let c = t.fil_cal_code;
                    let v = vec![
                        write_mask(0x0a, 0x10 | c, 0x1f),
                        write_mask(0x0b, 0x6b, 0xef),
                        write_mask(0x07, 0x00, 0x80),
                        write_mask(0x06, 0x10, 0x30),
                        write_mask(0x1e, 0x60, 0x60),
                        write_mask(0x05, 0x01, 0x80),
                        write_mask(0x1f, 0x00, 0x80),
                        write_mask(0x0f, 0x00, 0x80),
                        write_mask(0x19, 0x60, 0x60),
                    ];
                    assert(crate::rtl_usb::cmds_view(v@) =~= tv_final_batch(c));
                    OpStep::Run(v)
                } else {
                    self.second = true;
                    self.stage = TvStage::LoopHead;
                    let v = vec![
                        write_mask(0x0b, 0x6b, 0x60),
                        write_mask(0x0f, 0x04, 0x04),
                        write_mask(0x10, 0x00, 0x03),
                    ];
                    assert(crate::rtl_usb::cmds_view(v@) =~= tv_loop_batch());
                    OpStep::Run(v)
                }
            },
            _ => {
                self.stage = TvStage::Over;
                OpStep::Done(Ok(()))
            },
        }
    }
}


// ---------------------------------------------------------------------------
// Initialisation
// ---------------------------------------------------------------------------

/// The first part of the system frequency selection, up to the input selection.
pub open spec fn sysfreq_batch_a() -> Seq<CmdV> {
    seq![wm(0x1d, 0xe5, 0xc7), wm(0x1c, 0x24, 0xf8), wr(0x0d, 0x53), wr(0x0e, 0x75)]
}

/// The rest of the system frequency selection.
pub open spec fn sysfreq_batch_b() -> Seq<CmdV> {
    seq![
        wm(0x05, 0x00, 0x60),
        wm(0x06, 0x00, 0x08),
        wm(0x11, 0x38, 0x38),
        wm(0x17, 0x30, 0x30),
        wm(0x0a, 0x40, 0x60),
        wm(0x1d, 0x00, 0x38),
        wm(0x1c, 0x00, 0x04),
        wm(0x06, 0x00, 0x40),
        wm(0x1a, 0x30, 0x30),
        wm(0x1d, 0x18, 0x38),
        wm(0x1c, 0x24, 0x04),
        wm(0x1e, 14, 0x1f),
        wm(0x1a, 0x20, 0x30),
    ]
}

#[derive(Debug, Clone, Copy, PartialEq, Eq, Structural)]
pub enum InitStage {
    Start,
    Loaded,
    InTv,
    SysFreqA,
    SysFreqB,
    Over,
}

/// Initialises the tuner: writes the initial registers, sets the TV standard up and
/// selects the system frequency settings.
#[derive(Debug)]
pub struct InitOp {
    stage: InitStage,
    tv: TvStandardOp,
}

pub struct InitOpV {
    pub stage: InitStage,
    pub tv: TvStandardOpV,
}

impl View for InitOp {
    type V = InitOpV;

    closed spec fn view(&self) -> InitOpV {
        InitOpV { stage: self.stage, tv: self.tv@ }
    }
}

pub open spec fn init_wf(s: InitOpV) -> bool {
    &&& tv_wf(s.tv)
    &&& s.stage == InitStage::Loaded ==> s.tv.stage == TvStage::Start
    &&& s.stage == InitStage::InTv ==> (s.tv.stage != TvStage::Start && s.tv.stage
        != TvStage::Over)
}

pub open spec fn init_fresh() -> InitOpV {
    InitOpV { stage: InitStage::Start, tv: tv_fresh() }
}

/// The first batch of an initialisation: the initial register values from 0x05 on.
pub open spec fn init_load_batch() -> Seq<CmdV> {
    seq![CmdV::TunerWrite { reg: 0x05, values: INIT_ARRAY@ }]
}

/// One move of the initialisation.
#[verifier::opaque]
pub open spec fn init_next(s: InitOpV, tv: R82xxView, outcome: Result<OutputV, Error>) -> (
    InitOpV,
    R82xxView,
    OpStepV<()>,
) {
    let over = InitOpV { stage: InitStage::Over, ..s };
    if s.stage == InitStage::InTv {
        let (v2, t2, st) = tv_next(s.tv, tv, outcome);
        match st {
            OpStepV::Run(c) => (InitOpV { tv: v2, ..s }, t2, OpStepV::Run(c)),
            OpStepV::Done(Err(e)) => (InitOpV { tv: v2, ..over }, t2, OpStepV::Done(Err(e))),
            OpStepV::Done(Ok(_)) => (
                InitOpV { stage: InitStage::SysFreqA, tv: v2 },
                t2,
                OpStepV::Run(sysfreq_batch_a()),
            ),
        }
    } else {
        match outcome {
            Err(e) => (over, tv, OpStepV::Done(Err(e))),
            Ok(_) => match s.stage {
                InitStage::Loaded => (
                    InitOpV {
                        stage: InitStage::InTv,
                        tv: TvStandardOpV { stage: TvStage::Preset, ..s.tv },
                    },
                    R82xxView { regs: INIT_ARRAY@, ..tv },
                    OpStepV::Run(tv_preset_batch()),
                ),
                InitStage::SysFreqA => (
                    InitOpV { stage: InitStage::SysFreqB, ..s },
                    R82xxView { input: 0, ..tv },
                    OpStepV::Run(sysfreq_batch_b()),
                ),
                _ => (over, tv, OpStepV::Done(Ok(()))),
            },
        }
    }
}

impl InitOp {
    pub fn new() -> (r: InitOp)
        ensures
            r@ == init_fresh(),
            init_wf(r@),
    {
        InitOp { stage: InitStage::Start, tv: TvStandardOp::new() }
    }

    /// Clears the shadow and writes the initial register values.
    pub fn start(&mut self, t: &mut R82xx) -> (r: OpStep<()>)
        requires
            old(self)@ == init_fresh(),
        ensures
            final(self)@ == (InitOpV { stage: InitStage::Loaded, ..old(self)@ }),
            final(t)@ == (R82xxView { regs: Seq::new(NUM_REGS as nat, |i: int| 0u8), ..old(t)@ }),
            step_view(r) == OpStepV::<()>::Run(init_load_batch()),
            init_wf(final(self)@),
    {
        proof {
            use_type_invariant(&*t);
        }
        t.xtal_cap_sel = XtalCap::High0;
        t.regs = [0u8; 30];
        assert(t.regs@ =~= Seq::new(NUM_REGS as nat, |i: int| 0u8));
        self.stage = InitStage::Loaded;
        let mut values: Vec<u8> = Vec::new();
        let mut i: usize = 0;
        while i < 30
            invariant
                i <= 30,
                values@ == INIT_ARRAY@.subrange(0, i as int),
            decreases 30 - i,
        {
            values.push(INIT_ARRAY[i]);
            i = i + 1;
            assert(values@ =~= INIT_ARRAY@.subrange(0, i as int));
        }
        assert(INIT_ARRAY@.subrange(0, 30) =~= INIT_ARRAY@);
        let ghost vv = values@;
        let v = vec![Cmd::TunerWrite { reg: 0x05, values }];
        assert(crate::rtl_usb::cmds_view(v@) =~= init_load_batch());
        OpStep::Run(v)
    }

    pub fn resume(&mut self, t: &mut R82xx, outcome: Result<Output, Error>) -> (r: OpStep<()>)
        requires
            old(self)@.stage != InitStage::Start,
            old(self)@.stage != InitStage::Over,
            init_wf(old(self)@),
        ensures
            (final(self)@, final(t)@, step_view(r)) == init_next(
                old(self)@,
                old(t)@,
                output_result_view(outcome),
            ),
            r is Run ==> final(self)@.stage != InitStage::Start && final(self)@.stage
                != InitStage::Over,
            init_wf(final(self)@),
    {
        proof {
            reveal(init_next);
        }
        proof {
            use_type_invariant(&*t);
        }
        if self.stage == InitStage::InTv {
            let st = self.tv.resume(t, outcome);
            return match st {
                OpStep::Run(c) => OpStep::Run(c),
                OpStep::Done(Err(e)) => {
                    self.stage = InitStage::Over;
                    OpStep::Done(Err(e))
                },
                OpStep::Done(Ok(_)) => {
                    self.stage = InitStage::SysFreqA;
                    let v = vec![
                        write_mask(0x1d, 0xe5, 0xc7),
                        write_mask(0x1c, 0x24, 0xf8),
                        write_reg(0x0d, 0x53),
                        write_reg(0x0e, 0x75),
                    ];
                    assert(crate::rtl_usb::cmds_view(v@) =~= sysfreq_batch_a());
                    OpStep::Run(v)
                },
            };
        }
        match outcome {
            Err(e) => {
                self.stage = InitStage::Over;
                return OpStep::Done(Err(e));
            },
            Ok(_) => {},
        }
        match self.stage {
            InitStage::Loaded => {
                self.stage = InitStage::InTv;
                self.tv.start(t)
            },
            InitStage::SysFreqA => {
                t.input = 0;
                self.stage = InitStage::SysFreqB;
                let v = vec![
                    write_mask(0x05, 0x00, 0x60),
                    write_mask(0x06, 0x00, 0x08),
                    write_mask(0x11, 0x38, 0x38),
                    write_mask(0x17, 0x30, 0x30),
                    write_mask(0x0a, 0x40, 0x60),
                    write_mask(0x1d, 0x00, 0x38),
                    write_mask(0x1c, 0x00, 0x04),
                    write_mask(0x06, 0x00, 0x40),
                    write_mask(0x1a, 0x30, 0x30),
                    write_mask(0x1d, 0x18, 0x38),
                    write_mask(0x1c, 0x24, 0x04),
                    write_mask(0x1e, 14, 0x1f),
                    write_mask(0x1a, 0x20, 0x30),
                ];
                assert(crate::rtl_usb::cmds_view(v@) =~= sysfreq_batch_b());
                OpStep::Run(v)
            },
            _ => {
                self.stage = InitStage::Over;
                OpStep::Done(Ok(()))
            },
        }
    }
}

// ---------------------------------------------------------------------------
// Tuning
// ---------------------------------------------------------------------------

/// The frequency that the RTL-SDR Blog V4 actually tunes to: HF is up-converted by 28.8 MHz.
pub open spec fn upconverted(is_blog_v4: bool, freq_hz: u32) -> int {
    if is_blog_v4 && freq_hz < 28_800_000 {
        freq_hz + 28_800_000
    } else {
        freq_hz as int
    }
}

/// The Blog V4 notch filter setting: open (0x00) around the broadcast bands, else 0x08.
pub open spec fn blog_open_d(freq_hz: u32) -> u8 {
    if freq_hz <= 2_200_000 || (85 * MHZ <= freq_hz <= 112 * MHZ) || (172 * MHZ <= freq_hz <= 242
        * MHZ) {
        0x00
    } else {
        0x08
    }
}

/// The Blog V4 input band of a frequency.
pub open spec fn blog_band(freq_hz: u32) -> u8 {
    if freq_hz <= 28_800_000 {
        HF
    } else if freq_hz < 250 * MHZ {
        VHF
    } else {
        UHF
    }
}

/// The Blog V4 commands that switch to an input band.
pub open spec fn blog_input_batch(band: u8) -> Seq<CmdV> {
    let cable_2_in: u8 = if band == HF {
        0x08
    } else {
        0x00
    };
    seq![
        wm(0x06, cable_2_in, 0x08),
        CmdV::GpioOutput { bit: 0x20 },
        CmdV::GpioBit { bit: 0x20, enabled: cable_2_in == 0 },
        wm(
            0x05,
            if band == VHF {
                0x40
            } else {
                0x00
            },
            0x40,
        ),
        wm(
            0x05,
            if band == UHF {
                0x00
            } else {
                0x20
            },
            0x20,
        ),
    ]
}

/// The R828D input for a frequency: the air input above 345 MHz, else cable 1.
pub open spec fn r828d_input(freq_hz: u32) -> u8 {
    if freq_hz > 345 * MHZ {
        0x00
    } else {
        0x60
    }
}

#[derive(Debug, Clone, Copy, PartialEq, Eq, Structural)]
pub enum FreqStage {
    Start,
    Muxed,
    InPll,
    OpenD,
    Inputs,
    Over,
}

/// Tunes the tuner to a frequency: sets the multiplexer for the LO frequency, programs
/// the PLL, and switches inputs where the board needs it.
#[derive(Debug)]
pub struct SetFreqOp {
    freq_hz: u32,
    stage: FreqStage,
    pll: PllOp,
}

pub struct SetFreqOpV {
    pub freq_hz: u32,
    pub stage: FreqStage,
    pub pll: PllOpV,
}

impl View for SetFreqOp {
    type V = SetFreqOpV;

    closed spec fn view(&self) -> SetFreqOpV {
        SetFreqOpV { freq_hz: self.freq_hz, stage: self.stage, pll: self.pll@ }
    }
}

pub open spec fn set_freq_wf(s: SetFreqOpV) -> bool {
    &&& s.stage == FreqStage::InPll ==> (s.pll.stage != PllStage::Start && s.pll.stage
        != PllStage::Over)
    &&& s.stage == FreqStage::Muxed ==> s.pll.stage == PllStage::Start
}

/// The LO frequency for a requested frequency: the (up-converted) frequency plus the IF.
pub open spec fn lo_freq(tv: R82xxView, freq_hz: u32) -> int {
    upconverted(tv.is_blog_v4, freq_hz) + tv.int_freq
}

/// How a tuning starts: it fails on an LO frequency past `u32::MAX`, else sets the
/// multiplexer for it.
pub open spec fn set_freq_start(freq_hz: u32, tv: R82xxView) -> (SetFreqOpV, OpStepV<()>) {
    let lo = lo_freq(tv, freq_hz);
    if lo > u32::MAX {
        (
            SetFreqOpV { freq_hz, stage: FreqStage::Over, pll: pll_fresh(0) },
            OpStepV::Done(Err(Error::ArithmeticOverflow)),
        )
    } else {
        (
            SetFreqOpV { freq_hz, stage: FreqStage::Muxed, pll: pll_fresh(lo as u32) },
            OpStepV::Run(mux_batch(lo as u32)),
        )
    }
}

/// What a tuning does once the PLL is programmed and locked.
pub open spec fn set_freq_after_lock(s: SetFreqOpV, tv: R82xxView) -> (SetFreqOpV, R82xxView, OpStepV<()>) {
    let over = SetFreqOpV { stage: FreqStage::Over, ..s };
    if tv.is_blog_v4 {
        (
            SetFreqOpV { stage: FreqStage::OpenD, ..s },
            tv,
            OpStepV::Run(seq![wm(0x17, blog_open_d(s.freq_hz), 0x08)]),
        )
    } else if tv.kind == R82xxKind::R828D && r828d_input(s.freq_hz) != tv.input {
        (
            SetFreqOpV { stage: FreqStage::Inputs, ..s },
            R82xxView { input: r828d_input(s.freq_hz), ..tv },
            OpStepV::Run(seq![wm(0x05, r828d_input(s.freq_hz), 0x60)]),
        )
    } else {
        (over, tv, OpStepV::Done(Ok(())))
    }
}

/// One move of a tuning.
#[verifier::opaque]
pub open spec fn set_freq_next(s: SetFreqOpV, tv: R82xxView, outcome: Result<OutputV, Error>) -> (
    SetFreqOpV,
    R82xxView,
    OpStepV<()>,
) {
    let over = SetFreqOpV { stage: FreqStage::Over, ..s };
    if s.stage == FreqStage::InPll {
        let (p2, t2, st) = pll_next(s.pll, tv, outcome);
        match st {
            OpStepV::Run(c) => (SetFreqOpV { pll: p2, ..s }, t2, OpStepV::Run(c)),
            OpStepV::Done(Err(e)) => (SetFreqOpV { pll: p2, ..over }, t2, OpStepV::Done(Err(e))),
            OpStepV::Done(Ok(_)) => if !t2.has_lock {
                (SetFreqOpV { pll: p2, ..over }, t2, OpStepV::Done(Err(Error::PllDidNotLock)))
            } else {
                set_freq_after_lock(SetFreqOpV { pll: p2, ..s }, t2)
            },
        }
    } else {
        match outcome {
            Err(e) => (over, tv, OpStepV::Done(Err(e))),
            Ok(_) => match s.stage {
                FreqStage::Muxed => (
                    SetFreqOpV { stage: FreqStage::InPll, pll: PllOpV { stage: PllStage::Gated, ..s.pll }, ..s },
                    tv,
                    OpStepV::Run(pll_gate_batch()),
                ),
                FreqStage::OpenD => if blog_band(s.freq_hz) != tv.input {
                    (
                        SetFreqOpV { stage: FreqStage::Inputs, ..s },
                        R82xxView { input: blog_band(s.freq_hz), ..tv },
                        OpStepV::Run(blog_input_batch(blog_band(s.freq_hz))),
                    )
                } else {
                    (over, tv, OpStepV::Done(Ok(())))
                },
                _ => (over, tv, OpStepV::Done(Ok(()))),
            },
        }
    }
}

/// A tuning that has not started.
pub open spec fn set_freq_idle(freq_hz: u32) -> SetFreqOpV {
    SetFreqOpV { freq_hz, stage: FreqStage::Start, pll: pll_fresh(0) }
}

impl SetFreqOp {
    pub fn idle(freq_hz: u32) -> (r: SetFreqOp)
        ensures
            r@ == set_freq_idle(freq_hz),
            set_freq_wf(r@),
    {
        SetFreqOp { freq_hz, stage: FreqStage::Start, pll: PllOp::new(0) }
    }

    /// Starts tuning to `freq_hz`.
    pub fn start(t: &R82xx, freq_hz: u32) -> (r: (SetFreqOp, OpStep<()>))
        ensures
            (r.0@, step_view(r.1)) == set_freq_start(freq_hz, t@),
            set_freq_wf(r.0@),
            r.1 is Run ==> r.0@.stage != FreqStage::Start && r.0@.stage != FreqStage::Over,
    {
        let upconvert_freq: u32 = if t.is_blog_v4 && freq_hz < 28_800_000 {
            freq_hz + 28_800_000
        } else {
            freq_hz
        };
        let lo = match upconvert_freq.checked_add(t.int_freq) {
            Some(lo) => lo,
            None => {
                let op = SetFreqOp { freq_hz, stage: FreqStage::Over, pll: PllOp::new(0) };
                return (op, OpStep::Done(Err(Error::ArithmeticOverflow)));
            },
        };
        let op = SetFreqOp { freq_hz, stage: FreqStage::Muxed, pll: PllOp::new(lo) };
        (op, OpStep::Run(mux_commands(lo)))
    }

    fn after_lock(&mut self, t: &mut R82xx) -> (r: OpStep<()>)
        ensures
            (final(self)@, final(t)@, step_view(r)) == set_freq_after_lock(old(self)@, old(t)@),
    {
        proof {
            use_type_invariant(&*t);
        }
        if t.is_blog_v4 {
            let open_d: u8 = if self.freq_hz <= 2_200_000 || (85 * MHZ <= self.freq_hz
                && self.freq_hz <= 112 * MHZ) || (172 * MHZ <= self.freq_hz && self.freq_hz <= 242
                * MHZ) {
                0x00
            } else {
                0x08
            };
            self.stage = FreqStage::OpenD;
            let v = vec![write_mask(0x17, open_d, 0x08)];
            assert(crate::rtl_usb::cmds_view(v@) =~= seq![wm(0x17, blog_open_d(self.freq_hz), 0x08)]);
            OpStep::Run(v)
        } else if t.kind == R82xxKind::R828D {
            let air_cable1_in: u8 = if self.freq_hz > 345 * MHZ {
                0x00
            } else {
                0x60
            };
            if air_cable1_in != t.input {
                t.input = air_cable1_in;
                self.stage = FreqStage::Inputs;
                let v = vec![write_mask(0x05, air_cable1_in, 0x60)];
                assert(crate::rtl_usb::cmds_view(v@) =~= seq![wm(0x05, air_cable1_in, 0x60)]);
                OpStep::Run(v)
            } else {
                self.stage = FreqStage::Over;
                OpStep::Done(Ok(()))
            }
        } else {
            self.stage = FreqStage::Over;
            OpStep::Done(Ok(()))
        }
    }

    pub fn resume(&mut self, t: &mut R82xx, outcome: Result<Output, Error>) -> (r: OpStep<()>)
        requires
            old(self)@.stage != FreqStage::Start,
            old(self)@.stage != FreqStage::Over,
            set_freq_wf(old(self)@),
        ensures
            (final(self)@, final(t)@, step_view(r)) == set_freq_next(
                old(self)@,
                old(t)@,
                output_result_view(outcome),
            ),
            r is Run ==> final(self)@.stage != FreqStage::Start && final(self)@.stage
                != FreqStage::Over,
            set_freq_wf(final(self)@),
    {
        proof {
            reveal(set_freq_next);
        }
        proof {
            use_type_invariant(&*t);
        }
        if self.stage == FreqStage::InPll {
            let st = self.pll.resume(t, outcome);
            return match st {
                OpStep::Run(c) => OpStep::Run(c),
                OpStep::Done(Err(e)) => {
                    self.stage = FreqStage::Over;
                    OpStep::Done(Err(e))
                },
                OpStep::Done(Ok(_)) => {
                    if !t.has_lock {
                        self.stage = FreqStage::Over;
                        OpStep::Done(Err(Error::PllDidNotLock))
                    } else {
                        self.after_lock(t)
                    }
                },
            };
        }
        match outcome {
            Err(e) => {
                self.stage = FreqStage::Over;
                return OpStep::Done(Err(e));
            },
            Ok(_) => {},
        }
        match self.stage {
            FreqStage::Muxed => {
                self.stage = FreqStage::InPll;
                self.pll.start()
            },
            FreqStage::OpenD => {
                let band: u8 = if self.freq_hz <= 28_800_000 {
                    HF
                } else if self.freq_hz < 250 * MHZ {
                    VHF
                } else {
                    UHF
                };
                if band != t.input {
                    t.input = band;
                    self.stage = FreqStage::Inputs;
                    let cable_2_in: u8 = if band == HF {
                        0x08
                    } else {
                        0x00
                    };
                    let cable_1_in: u8 = if band == VHF {
                        0x40
                    } else {
                        0x00
                    };
                    let air_in: u8 = if band == UHF {
                        0x00
                    } else {
                        0x20
                    };
                    let v = vec![
                        write_mask(0x06, cable_2_in, 0x08),
                        Cmd::GpioOutput { bit: 1u16 << 5u16 },
                        Cmd::GpioBit { bit: 1u16 << 5u16, enabled: cable_2_in == 0 },
                        write_mask(0x05, cable_1_in, 0x40),
                        write_mask(0x05, air_in, 0x20),
                    ];
                    assert(1u16 << 5u16 == 0x20) by (bit_vector);
                    assert(crate::rtl_usb::cmds_view(v@) =~= blog_input_batch(band));
                    OpStep::Run(v)
                } else {
                    self.stage = FreqStage::Over;
                    OpStep::Done(Ok(()))
                }
            },
            _ => {
                self.stage = FreqStage::Over;
                OpStep::Done(Ok(()))
            },
        }
    }
}

} // verus!
