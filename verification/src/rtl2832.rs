use vstd::prelude::*;

use crate::error::Error;
use crate::r82xx::{
    FreqStage, InitOp, InitOpV, InitStage, NUM_REGS, R82XX_CHECK_ADDR, R82XX_CHECK_VAL,
    R82XX_IF_FREQ, R82xx, R82xxKind, R82xxView, SetFreqOp, SetFreqOpV, bandwidth_batch,
    bandwidth_setting, gain_batch, gain_commands, init_fresh, init_load_batch, init_next, init_wf,
    r82xx_i2c_addr, set_freq_idle, set_freq_next, set_freq_start, set_freq_wf,
};
use crate::rtl_usb::{
    Cmd, CmdV, DEMOD_CTL, DEMOD_CTL_1, OpStep, OpStepV, Output, OutputV, Reply, RunStep, Runner,
    SYSB, USBB, USB_EPA_CTL, USB_EPA_MAXPKT, USB_SYSCTL, bytes_of, cmds_view, output_into_bytes,
    output_result_view, runner_moves, step_view,
};

verus! {

pub const DEFAULT_SAMPLE_RATE: u32 = 2_048_000;

/// The RTL2832U crystal.
pub const DEF_RTL_XTAL_FREQ: u32 = 28_800_000;
pub const DEFAULT_READ_LENGTH: usize = 16 * 32 * 512;

pub const E4K_I2C_ADDR: u8 = 0xc8;
pub const E4K_CHECK_ADDR: u8 = 0x02;
pub const E4K_CHECK_VAL: u8 = 0x40;

pub const FC0012_I2C_ADDR: u8 = 0xc6;
pub const FC0012_CHECK_ADDR: u8 = 0x00;
pub const FC0012_CHECK_VAL: u8 = 0xa1;

pub const FC0013_I2C_ADDR: u8 = 0xc6;
pub const FC0013_CHECK_ADDR: u8 = 0x00;
pub const FC0013_CHECK_VAL: u8 = 0xa3;

pub const FC2580_I2C_ADDR: u8 = 0xac;
pub const FC2580_CHECK_ADDR: u8 = 0x01;
pub const FC2580_CHECK_VAL: u8 = 0x56;

pub const R820T_I2C_ADDR: u8 = 0x34;
pub const R828D_I2C_ADDR: u8 = 0x74;
pub const R828D_XTAL_FREQ: u32 = 16_000_000;

/// The default FIR filter of the demodulator.
pub const FIR_DEFAULT: [i16; 16] = [
    -54, -36, -41, -40, -32, -14, 14, 53, 101, 156, 215, 273, 327, 372, 404, 421,
];

/// A dongle that the driver knows by its USB ids.
#[derive(Debug, Clone, Copy, PartialEq, Eq)]
pub struct KnownDevice {
    pub vendor_id: u16,
    pub product_id: u16,
    pub name: &'static str,
}

/// The dongles that the driver knows.
pub open spec fn known_device_table() -> Seq<KnownDevice> {
    seq![
        KnownDevice { vendor_id: 0x0bda, product_id: 0x2832, name: "Generic RTL2832U" },
        KnownDevice { vendor_id: 0x0bda, product_id: 0x2838, name: "Generic RTL2832U OEM" },
        KnownDevice { vendor_id: 0x0413, product_id: 0x6680, name: "DigitalNow Quad DVB-T PCI-E card" },
        KnownDevice { vendor_id: 0x0413, product_id: 0x6f0f, name: "Leadtek WinFast DTV Dongle mini D" },
        KnownDevice { vendor_id: 0x0458, product_id: 0x707f, name: "Genius TVGo DVB-T03 USB dongle (Ver. B)" },
        KnownDevice { vendor_id: 0x0ccd, product_id: 0x00a9, name: "Terratec Cinergy T Stick Black (rev 1)" },
        KnownDevice { vendor_id: 0x0ccd, product_id: 0x00b3, name: "Terratec NOXON DAB/DAB+ USB dongle (rev 1)" },
        KnownDevice { vendor_id: 0x0ccd, product_id: 0x00b4, name: "Terratec Deutschlandradio DAB Stick" },
        KnownDevice { vendor_id: 0x0ccd, product_id: 0x00b5, name: "Terratec NOXON DAB Stick - Radio Energy" },
        KnownDevice { vendor_id: 0x0ccd, product_id: 0x00b7, name: "Terratec Media Broadcast DAB Stick" },
        KnownDevice { vendor_id: 0x0ccd, product_id: 0x00b8, name: "Terratec BR DAB Stick" },
        KnownDevice { vendor_id: 0x0ccd, product_id: 0x00b9, name: "Terratec WDR DAB Stick" },
        KnownDevice { vendor_id: 0x0ccd, product_id: 0x00c0, name: "Terratec MuellerVerlag DAB Stick" },
        KnownDevice { vendor_id: 0x0ccd, product_id: 0x00c6, name: "Terratec Fraunhofer DAB Stick" },
        KnownDevice { vendor_id: 0x0ccd, product_id: 0x00d3, name: "Terratec Cinergy T Stick RC (Rev.3)" },
        KnownDevice { vendor_id: 0x0ccd, product_id: 0x00d7, name: "Terratec T Stick PLUS" },
        KnownDevice { vendor_id: 0x0ccd, product_id: 0x00e0, name: "Terratec NOXON DAB/DAB+ USB dongle (rev 2)" },
        KnownDevice { vendor_id: 0x1554, product_id: 0x5020, name: "PixelView PV-DT235U(RN)" },
        KnownDevice { vendor_id: 0x15f4, product_id: 0x0131, name: "Astrometa DVB-T/DVB-T2" },
        KnownDevice { vendor_id: 0x15f4, product_id: 0x0133, name: "HanfTek DAB+FM+DVB-T" },
        KnownDevice { vendor_id: 0x185b, product_id: 0x0620, name: "Compro Videomate U620F" },
        KnownDevice { vendor_id: 0x185b, product_id: 0x0650, name: "Compro Videomate U650F" },
        KnownDevice { vendor_id: 0x185b, product_id: 0x0680, name: "Compro Videomate U680F" },
        KnownDevice { vendor_id: 0x1b80, product_id: 0xd393, name: "GIGABYTE GT-U7300" },
        KnownDevice { vendor_id: 0x1b80, product_id: 0xd394, name: "DIKOM USB-DVBT HD" },
        KnownDevice { vendor_id: 0x1b80, product_id: 0xd395, name: "Peak 102569AGPK" },
        KnownDevice { vendor_id: 0x1b80, product_id: 0xd397, name: "KWorld KW-UB450-T USB DVB-T Pico TV" },
        KnownDevice { vendor_id: 0x1b80, product_id: 0xd398, name: "Zaapa ZT-MINDVBZP" },
        KnownDevice { vendor_id: 0x1b80, product_id: 0xd39d, name: "SVEON STV20 DVB-T USB & FM" },
        KnownDevice { vendor_id: 0x1b80, product_id: 0xd3a4, name: "Twintech UT-40" },
        KnownDevice { vendor_id: 0x1b80, product_id: 0xd3a8, name: "ASUS U3100MINI_PLUS_V2" },
        KnownDevice { vendor_id: 0x1b80, product_id: 0xd3af, name: "SVEON STV27 DVB-T USB & FM" },
        KnownDevice { vendor_id: 0x1b80, product_id: 0xd3b0, name: "SVEON STV21 DVB-T USB & FM" },
        KnownDevice { vendor_id: 0x1d19, product_id: 0x1101, name: "Dexatek DK DVB-T Dongle (Logilink VG0002A)" },
        KnownDevice { vendor_id: 0x1d19, product_id: 0x1102, name: "Dexatek DK DVB-T Dongle (MSI DigiVox mini II V3.0)" },
        KnownDevice { vendor_id: 0x1d19, product_id: 0x1103, name: "Dexatek Technology Ltd. DK 5217 DVB-T Dongle" },
        KnownDevice { vendor_id: 0x1d19, product_id: 0x1104, name: "MSI DigiVox Micro HD" },
        KnownDevice { vendor_id: 0x1f4d, product_id: 0xa803, name: "Sweex DVB-T USB" },
        KnownDevice { vendor_id: 0x1f4d, product_id: 0xb803, name: "GTek T803" },
        KnownDevice { vendor_id: 0x1f4d, product_id: 0xc803, name: "Lifeview LV5TDeluxe" },
        KnownDevice { vendor_id: 0x1f4d, product_id: 0xd286, name: "MyGica TD312" },
        KnownDevice { vendor_id: 0x1f4d, product_id: 0xd803, name: "PROlectrix DV107669" },
    ]
}

/// The dongles that the driver knows, in the order they are searched.
pub fn known_devices() -> (r: Vec<KnownDevice>)
    ensures
        r@ == known_device_table(),
{
    let v = vec![
        KnownDevice { vendor_id: 0x0bda, product_id: 0x2832, name: "Generic RTL2832U" },
        KnownDevice { vendor_id: 0x0bda, product_id: 0x2838, name: "Generic RTL2832U OEM" },
        KnownDevice { vendor_id: 0x0413, product_id: 0x6680, name: "DigitalNow Quad DVB-T PCI-E card" },
        KnownDevice { vendor_id: 0x0413, product_id: 0x6f0f, name: "Leadtek WinFast DTV Dongle mini D" },
        KnownDevice { vendor_id: 0x0458, product_id: 0x707f, name: "Genius TVGo DVB-T03 USB dongle (Ver. B)" },
        KnownDevice { vendor_id: 0x0ccd, product_id: 0x00a9, name: "Terratec Cinergy T Stick Black (rev 1)" },
        KnownDevice { vendor_id: 0x0ccd, product_id: 0x00b3, name: "Terratec NOXON DAB/DAB+ USB dongle (rev 1)" },
        KnownDevice { vendor_id: 0x0ccd, product_id: 0x00b4, name: "Terratec Deutschlandradio DAB Stick" },
        KnownDevice { vendor_id: 0x0ccd, product_id: 0x00b5, name: "Terratec NOXON DAB Stick - Radio Energy" },
        KnownDevice { vendor_id: 0x0ccd, product_id: 0x00b7, name: "Terratec Media Broadcast DAB Stick" },
        KnownDevice { vendor_id: 0x0ccd, product_id: 0x00b8, name: "Terratec BR DAB Stick" },
        KnownDevice { vendor_id: 0x0ccd, product_id: 0x00b9, name: "Terratec WDR DAB Stick" },
        KnownDevice { vendor_id: 0x0ccd, product_id: 0x00c0, name: "Terratec MuellerVerlag DAB Stick" },
        KnownDevice { vendor_id: 0x0ccd, product_id: 0x00c6, name: "Terratec Fraunhofer DAB Stick" },
        KnownDevice { vendor_id: 0x0ccd, product_id: 0x00d3, name: "Terratec Cinergy T Stick RC (Rev.3)" },
        KnownDevice { vendor_id: 0x0ccd, product_id: 0x00d7, name: "Terratec T Stick PLUS" },
        KnownDevice { vendor_id: 0x0ccd, product_id: 0x00e0, name: "Terratec NOXON DAB/DAB+ USB dongle (rev 2)" },
        KnownDevice { vendor_id: 0x1554, product_id: 0x5020, name: "PixelView PV-DT235U(RN)" },
        KnownDevice { vendor_id: 0x15f4, product_id: 0x0131, name: "Astrometa DVB-T/DVB-T2" },
        KnownDevice { vendor_id: 0x15f4, product_id: 0x0133, name: "HanfTek DAB+FM+DVB-T" },
        KnownDevice { vendor_id: 0x185b, product_id: 0x0620, name: "Compro Videomate U620F" },
        KnownDevice { vendor_id: 0x185b, product_id: 0x0650, name: "Compro Videomate U650F" },
        KnownDevice { vendor_id: 0x185b, product_id: 0x0680, name: "Compro Videomate U680F" },
        KnownDevice { vendor_id: 0x1b80, product_id: 0xd393, name: "GIGABYTE GT-U7300" },
        KnownDevice { vendor_id: 0x1b80, product_id: 0xd394, name: "DIKOM USB-DVBT HD" },
        KnownDevice { vendor_id: 0x1b80, product_id: 0xd395, name: "Peak 102569AGPK" },
        KnownDevice { vendor_id: 0x1b80, product_id: 0xd397, name: "KWorld KW-UB450-T USB DVB-T Pico TV" },
        KnownDevice { vendor_id: 0x1b80, product_id: 0xd398, name: "Zaapa ZT-MINDVBZP" },
        KnownDevice { vendor_id: 0x1b80, product_id: 0xd39d, name: "SVEON STV20 DVB-T USB & FM" },
        KnownDevice { vendor_id: 0x1b80, product_id: 0xd3a4, name: "Twintech UT-40" },
        KnownDevice { vendor_id: 0x1b80, product_id: 0xd3a8, name: "ASUS U3100MINI_PLUS_V2" },
        KnownDevice { vendor_id: 0x1b80, product_id: 0xd3af, name: "SVEON STV27 DVB-T USB & FM" },
        KnownDevice { vendor_id: 0x1b80, product_id: 0xd3b0, name: "SVEON STV21 DVB-T USB & FM" },
        KnownDevice { vendor_id: 0x1d19, product_id: 0x1101, name: "Dexatek DK DVB-T Dongle (Logilink VG0002A)" },
        KnownDevice { vendor_id: 0x1d19, product_id: 0x1102, name: "Dexatek DK DVB-T Dongle (MSI DigiVox mini II V3.0)" },
        KnownDevice { vendor_id: 0x1d19, product_id: 0x1103, name: "Dexatek Technology Ltd. DK 5217 DVB-T Dongle" },
        KnownDevice { vendor_id: 0x1d19, product_id: 0x1104, name: "MSI DigiVox Micro HD" },
        KnownDevice { vendor_id: 0x1f4d, product_id: 0xa803, name: "Sweex DVB-T USB" },
        KnownDevice { vendor_id: 0x1f4d, product_id: 0xb803, name: "GTek T803" },
        KnownDevice { vendor_id: 0x1f4d, product_id: 0xc803, name: "Lifeview LV5TDeluxe" },
        KnownDevice { vendor_id: 0x1f4d, product_id: 0xd286, name: "MyGica TD312" },
        KnownDevice { vendor_id: 0x1f4d, product_id: 0xd803, name: "PROlectrix DV107669" },
    ];
    assert(v@ =~= known_device_table());
    v
}

/// The name of the first table entry from `i` on with these ids, if any.
pub open spec fn known_name_from(table: Seq<KnownDevice>, vendor_id: u16, product_id: u16, i: int) -> Option<&'static str>
    decreases table.len() - i,
{
    if i < 0 || i >= table.len() {
        None
    } else if table[i].vendor_id == vendor_id && table[i].product_id == product_id {
        Some(table[i].name)
    } else {
        known_name_from(table, vendor_id, product_id, i + 1)
    }
}

/// The name under which the driver knows a dongle, if it does.
pub open spec fn known_name_of(vendor_id: u16, product_id: u16) -> Option<&'static str> {
    known_name_from(known_device_table(), vendor_id, product_id, 0)
}

/// Looks a dongle up by its USB ids.
pub fn known_device_name(vendor_id: u16, product_id: u16) -> (r: Option<&'static str>)
    ensures
        r == known_name_of(vendor_id, product_id),
{
    let table = known_devices();
    let mut i: usize = 0;
    while i < table.len()
        invariant
            i <= table.len(),
            table@ == known_device_table(),
            known_name_from(table@, vendor_id, product_id, i as int) == known_name_of(vendor_id, product_id),
        decreases table.len() - i,
    {
        let d = table[i];
        if d.vendor_id == vendor_id && d.product_id == product_id {
            return Some(d.name);
        }
        i = i + 1;
    }
    None
}

/// The index of the first of the listed ids that the driver knows.
pub open spec fn first_known_from(ids: Seq<(u16, u16)>, i: int) -> Option<int>
    decreases ids.len() - i,
{
    if i < 0 || i >= ids.len() {
        None
    } else if known_name_of(ids[i].0, ids[i].1) is Some {
        Some(i)
    } else {
        first_known_from(ids, i + 1)
    }
}

/// Picks, among the USB ids of the devices present, the first that the driver knows.
pub fn first_known_device(ids: &[(u16, u16)]) -> (r: Option<usize>)
    ensures
        match first_known_from(ids@, 0) {
            Some(i) => r == Some(i as usize),
            None => r is None,
        },
{
    let mut i: usize = 0;
    while i < ids.len()
        invariant
            i <= ids.len(),
            first_known_from(ids@, i as int) == first_known_from(ids@, 0),
        decreases ids.len() - i,
    {
        let (v, p) = ids[i];
        if known_device_name(v, p).is_some() {
            return Some(i);
        }
        i = i + 1;
    }
    None
}

/// Whether the dongle with these USB ids is one the driver knows.
pub open spec fn is_known(ids: (u16, u16)) -> bool {
    known_name_of(ids.0, ids.1) is Some
}

/// The positions of the known dongles among the listed ids, in order.
pub open spec fn known_positions(ids: Seq<(u16, u16)>) -> Seq<int>
    decreases ids.len(),
{
    if ids.len() == 0 {
        seq![]
    } else {
        let rest = known_positions(ids.drop_last());
        if is_known(ids.last()) {
            rest.push(ids.len() - 1)
        } else {
            rest
        }
    }
}

/// Picks, among the USB ids of the devices present (in enumeration order), the indexes of
/// those that the driver knows: all of them, each once, in the same order.
pub fn known_device_indexes(ids: &[(u16, u16)]) -> (r: Vec<usize>)
    ensures
        forall|k: int| 0 <= k < r.len() ==> #[trigger] r[k] < ids.len() && is_known(ids@[r[k] as int]),
        forall|k: int, l: int| 0 <= k < l < r.len() ==> r[k] < r[l],
        forall|j: int|
            0 <= j < ids.len() && is_known(#[trigger] ids@[j]) ==> exists|k: int|
                0 <= k < r.len() && r[k] == j,
        r.len() == known_positions(ids@).len(),
        forall|k: int| 0 <= k < r.len() ==> r[k] == known_positions(ids@)[k],
{
    let mut out: Vec<usize> = Vec::new();
    let mut i: usize = 0;
    while i < ids.len()
        invariant
            i <= ids.len(),
            forall|k: int| 0 <= k < out.len() ==> #[trigger] out[k] < i && is_known(ids@[out[k] as int]),
            forall|k: int, l: int| 0 <= k < l < out.len() ==> out[k] < out[l],
            forall|j: int|
                0 <= j < i && is_known(#[trigger] ids@[j]) ==> exists|k: int|
                    0 <= k < out.len() && out[k] == j,
            out.len() == known_positions(ids@.take(i as int)).len(),
            forall|k: int| 0 <= k < out.len() ==> out[k] == known_positions(ids@.take(i as int))[k],
        decreases ids.len() - i,
    {
        let (v, p) = ids[i];
        assert(ids@.take(i + 1).drop_last() =~= ids@.take(i as int));
        assert(ids@.take(i + 1).last() == ids@[i as int]);
        if known_device_name(v, p).is_some() {
            let ghost before = out@;
            out.push(i);
            assert(out[out.len() - 1] == i);
            assert(is_known(ids@[i as int]));
            assert forall|k: int| 0 <= k < out.len() implies #[trigger] out[k] < i + 1 && is_known(
                ids@[out[k] as int],
            ) by {
                if k < before.len() {
                    assert(out[k] == before[k]);
                }
            }
            assert forall|k: int, l: int| 0 <= k < l < out.len() implies out[k] < out[l] by {
                assert(out[k] == before[k]);
                if l < before.len() {
                    assert(out[l] == before[l]);
                }
            }
            assert forall|j: int| 0 <= j < i + 1 && is_known(#[trigger] ids@[j]) implies exists|k: int|
                0 <= k < out.len() && out[k] == j by {
                if j < i {
                    let k = choose|k: int| 0 <= k < before.len() && before[k] == j;
                    assert(out[k] == j);
                } else {
                    assert(out[out.len() - 1] == j);
                }
            }
        }
        i = i + 1;
    }
    assert(ids@.take(ids.len() as int) =~= ids@);
    out
}

/// A known dongle that is present.
#[derive(Debug, Clone, PartialEq, Eq)]
pub struct DeviceDescription {
    pub vendor_id: u16,
    pub product_id: u16,
    pub name: Option<&'static str>,
    pub manufacturer: Option<String>,
    pub product: Option<String>,
}

/// Describes a present device; `None` for one that the driver does not know.
pub fn describe_device(
    vendor_id: u16,
    product_id: u16,
    manufacturer: Option<String>,
    product: Option<String>,
) -> (r: Option<DeviceDescription>)
    ensures
        known_name_of(vendor_id, product_id) is None ==> r is None,
        known_name_of(vendor_id, product_id) is Some ==> r == Some(
            DeviceDescription {
                vendor_id,
                product_id,
                name: known_name_of(vendor_id, product_id),
                manufacturer,
                product,
            },
        ),
{
    let name = known_device_name(vendor_id, product_id);
    if name.is_none() {
        return None;
    }
    Some(DeviceDescription { vendor_id, product_id, name, manufacturer, product })
}

/// The description of the `k`-th known dongle among `ids`, with the USB strings read for it.
pub open spec fn listed_description(
    ids: Seq<(u16, u16)>,
    strings: Seq<(Option<String>, Option<String>)>,
    k: int,
) -> DeviceDescription {
    let p = known_positions(ids)[k];
    DeviceDescription {
        vendor_id: ids[p].0,
        product_id: ids[p].1,
        name: known_name_of(ids[p].0, ids[p].1),
        manufacturer: strings[k].0,
        product: strings[k].1,
    }
}

fn copy_string(s: &Option<String>) -> (r: Option<String>)
    ensures
        r == *s,
{
    match s {
        Some(v) => Some(v.clone()),
        None => None,
    }
}

/// Describes the known dongles among the devices present: one description per known
/// dongle, in enumeration order, each with the manufacturer and product strings read for
/// it (`strings[k]` for the `k`-th known one).
pub fn describe_devices(
    ids: &[(u16, u16)],
    strings: &Vec<(Option<String>, Option<String>)>,
) -> (r: Vec<DeviceDescription>)
    requires
        strings.len() == known_positions(ids@).len(),
    ensures
        r.len() == strings.len(),
        forall|k: int| 0 <= k < r.len() ==> r[k] == listed_description(ids@, strings@, k),
{
    let positions = known_device_indexes(ids);
    let mut out: Vec<DeviceDescription> = Vec::new();
    let mut k: usize = 0;
    while k < positions.len()
        invariant
            k <= positions.len(),
            positions.len() == strings.len(),
            positions.len() == known_positions(ids@).len(),
            forall|m: int| 0 <= m < positions.len() ==> positions[m] == known_positions(ids@)[m],
            forall|m: int| 0 <= m < positions.len() ==> #[trigger] positions[m] < ids.len(),
            out.len() == k,
            forall|m: int| 0 <= m < k ==> out[m] == listed_description(ids@, strings@, m),
        decreases positions.len() - k,
    {
        let p = positions[k];
        let (vendor_id, product_id) = ids[p];
        let name = known_device_name(vendor_id, product_id);
        let manufacturer = copy_string(&strings[k].0);
        let product = copy_string(&strings[k].1);
        out.push(DeviceDescription { vendor_id, product_id, name, manufacturer, product });
        k = k + 1;
    }
    out
}

/// The tuner chips that the probe can recognise.
#[derive(Debug, Clone, Copy, PartialEq, Eq, Structural)]
pub enum TunerKind {
    Unknown,
    E4000,
    Fc0012,
    Fc0013,
    Fc2580,
    R820T,
    R828D,
}

impl TunerKind {
    /// Only the R82xx family can be tuned by this driver.
    pub fn is_supported(self) -> (r: bool)
        ensures
            r == (self == TunerKind::R820T || self == TunerKind::R828D),
    {
        match self {
            TunerKind::R820T | TunerKind::R828D => true,
            _ => false,
        }
    }
}

// ---------------------------------------------------------------------------
// Demodulator arithmetic
// ---------------------------------------------------------------------------

/// Integer division rounding toward zero, as the hardware arithmetic does.
pub open spec fn trunc_div(a: int, b: int) -> int {
    if a >= 0 {
        a / b
    } else {
        -((-a) / b)
    }
}

/// The sample rates the RTL2832U resampler accepts: 225-300 kHz and 900 kHz-3.2 MHz.
pub open spec fn sample_rate_valid(rate: u32) -> bool {
    !(rate <= 225_000 || rate > 3_200_000 || (rate > 300_000 && rate <= 900_000))
}

/// The crystal frequency scaled by 2^22.
pub open spec fn xtal_scaled() -> int {
    DEF_RTL_XTAL_FREQ as int * 0x40_0000
}

/// The resampler ratio register value for a sample rate (its two low bits cleared).
pub open spec fn resampler_ratio(rate: u32) -> u64 {
    ((xtal_scaled() / rate as int) as u64) & 0x0fff_fffc
}

/// The ratio the hardware really applies: bit 27 is also taken as bit 28.
pub open spec fn applied_ratio(ratio: u64) -> u64 {
    ratio | ((ratio & 0x0800_0000) << 1u64)
}

/// The sample rate that results from a ratio.
pub open spec fn real_sample_rate(ratio: u64) -> u32 {
    (xtal_scaled() / applied_ratio(ratio) as int) as u32
}

/// The ratio and the resulting rate for a requested sample rate, or `InvalidSampleRate`.
pub open spec fn sample_rate_plan(rate: u32) -> Result<(u64, u32), Error> {
    if !sample_rate_valid(rate) || resampler_ratio(rate) == 0 {
        Err(Error::InvalidSampleRate(rate))
    } else {
        Ok((resampler_ratio(rate), real_sample_rate(resampler_ratio(rate))))
    }
}

/// Computes the resampler ratio and the rate it gives.
pub fn sample_rate_ratio(sample_rate_hz: u32) -> (r: Result<(u64, u32), Error>)
    ensures
        r == sample_rate_plan(sample_rate_hz),
{
    if sample_rate_hz <= 225_000 || sample_rate_hz > 3_200_000 || (sample_rate_hz > 300_000
        && sample_rate_hz <= 900_000) {
        return Err(Error::InvalidSampleRate(sample_rate_hz));
    }
    let numerator: u64 = (DEF_RTL_XTAL_FREQ as u64) * 0x40_0000;
    let mut ratio = numerator / sample_rate_hz as u64;
    ratio = ratio & 0x0fff_fffc;
    if ratio == 0 {
        return Err(Error::InvalidSampleRate(sample_rate_hz));
    }
    let real_ratio = ratio | ((ratio & 0x0800_0000) << 1u64);
    assert(real_ratio >= ratio) by (bit_vector)
        requires
            real_ratio == ratio | ((ratio & 0x0800_0000) << 1u64),
    ;
    let real_rate = (numerator / real_ratio) as u32;
    Ok((ratio, real_rate))
}

/// The demodulator's IF word for an intermediate frequency: `-(f * 2^22 / xtal)`.
pub open spec fn if_word(frequency_hz: u32) -> i64 {
    (-((frequency_hz as int * 0x40_0000) / DEF_RTL_XTAL_FREQ as int)) as i64
}

/// The three IF register bytes (0x19, 0x1a, 0x1b) for an intermediate frequency.
pub open spec fn if_register_values(frequency_hz: u32) -> (u16, u16, u16) {
    let w = if_word(frequency_hz);
    (((w >> 16u64) & 0x3f) as u16, ((w >> 8u64) & 0xff) as u16, (w & 0xff) as u16)
}

pub fn if_values(frequency_hz: u32) -> (r: (u16, u16, u16))
    ensures
        r == if_register_values(frequency_hz),
{
    let ratio: i64 = ((frequency_hz as i64) * 0x40_0000) / DEF_RTL_XTAL_FREQ as i64;
    let if_freq: i64 = -ratio;
    (((if_freq >> 16u64) & 0x3f) as u16, ((if_freq >> 8u64) & 0xff) as u16, (if_freq & 0xff) as u16)
}

/// The sample clock offset for a correction in ppm: `-ppm * 2^24 / 10^6`, toward zero.
pub open spec fn correction_offset(ppm: i32) -> i64 {
    trunc_div(-(ppm as int) * 0x100_0000, 1_000_000) as i64
}

/// The two correction register bytes (0x3f, 0x3e).
pub open spec fn correction_register_values(ppm: i32) -> (u16, u16) {
    let off = correction_offset(ppm);
    ((off & 0xff) as u16, ((off >> 8u64) & 0x3f) as u16)
}

pub fn correction_values(ppm: i32) -> (r: (u16, u16))
    ensures
        r == correction_register_values(ppm),
{
    let offset: i64 = ((ppm as i64) * -1 * 0x100_0000) / 1_000_000;
    ((offset & 0xff) as u16, ((offset >> 8u64) & 0x3f) as u16)
}

/// Byte `i` of the packed FIR coefficients: the first eight as 8-bit values, the other
/// eight as 12-bit values packed in pairs into three bytes.
pub open spec fn fir_byte(c: Seq<i16>, i: int) -> u8 {
    if i < 8 {
        (c[i] as i8) as u8
    } else {
        let k = (i - 8) / 3;
        let v0 = c[8 + 2 * k];
        let v1 = c[9 + 2 * k];
        if (i - 8) % 3 == 0 {
            (v0 >> 4u16) as u8
        } else if (i - 8) % 3 == 1 {
            ((v0 << 4u16) as u8) | (((v1 >> 8u16) as u8) & 0x0f)
        } else {
            v1 as u8
        }
    }
}

pub open spec fn fir_packed(c: Seq<i16>) -> Seq<u8> {
    Seq::new(20, |i: int| fir_byte(c, i))
}

/// Packs the default FIR coefficients into the 20 register bytes.
pub fn fir_bytes() -> (r: [u8; 20])
    ensures
        r@ == fir_packed(FIR_DEFAULT@),
{
    let mut fir = [0u8; 20];
    let mut i: usize = 0;
    while i < 8
        invariant
            i <= 8,
            forall|j: int| 0 <= j < i ==> fir@[j] == fir_byte(FIR_DEFAULT@, j),
        decreases 8 - i,
    {
        fir[i] = FIR_DEFAULT[i] as i8 as u8;
        i = i + 1;
    }
    let mut k: usize = 0;
    while k < 4
        invariant
            k <= 4,
            forall|j: int| 0 <= j < 8 + 3 * k ==> fir@[j] == fir_byte(FIR_DEFAULT@, j),
        decreases 4 - k,
    {
        let val0 = FIR_DEFAULT[8 + 2 * k];
        let val1 = FIR_DEFAULT[8 + 2 * k + 1];
        let out = 8 + k * 3;
        fir[out] = (val0 >> 4u16) as u8;
        fir[out + 1] = ((val0 << 4u16) as u8) | (((val1 >> 8u16) as u8) & 0x0f);
        fir[out + 2] = val1 as u8;
        assert((out - 8) / 3 == k && (out - 8) % 3 == 0);
        assert((out + 1 - 8) / 3 == k && (out + 1 - 8) % 3 == 1);
        assert((out + 2 - 8) / 3 == k && (out + 2 - 8) % 3 == 2);
        k = k + 1;
    }
    assert(fir@ =~= fir_packed(FIR_DEFAULT@));
    fir
}

/// What the probe found behind the I2C repeater.
#[derive(Debug)]
pub enum TunerState {
    Unknown,
    Unsupported(TunerKind),
    R82xx(R82xx),
}


/// What the probe found, as plain values.
pub enum TunerV {
    Unknown,
    Unsupported(TunerKind),
    R82xx(R82xxView),
}

pub open spec fn tuner_view(t: TunerState) -> TunerV {
    match t {
        TunerState::Unknown => TunerV::Unknown,
        TunerState::Unsupported(k) => TunerV::Unsupported(k),
        TunerState::R82xx(r) => TunerV::R82xx(r@),
    }
}

/// How a gain is chosen.
#[derive(Debug, Clone, Copy, PartialEq, Eq, Structural)]
pub enum GainMode {
    Auto,
    ManualTenthsDb(i32),
}

/// The state of an RTL2832U dongle: its identity, its tuner, and its settings.
#[derive(Debug)]
pub struct RtlSdr {
    vendor_id: u16,
    product_id: u16,
    manufacturer: Option<String>,
    product: Option<String>,
    tuner: TunerState,
    sample_rate_hz: u32,
    center_freq_hz: Option<u32>,
    bandwidth_hz: Option<u32>,
    freq_correction_ppm: i32,
}

pub struct RtlSdrView {
    pub vendor_id: u16,
    pub product_id: u16,
    pub manufacturer: Option<Seq<char>>,
    pub product: Option<Seq<char>>,
    pub tuner: TunerV,
    pub sample_rate_hz: u32,
    pub center_freq_hz: Option<u32>,
    pub bandwidth_hz: Option<u32>,
    pub freq_correction_ppm: i32,
}

pub open spec fn string_view(s: Option<String>) -> Option<Seq<char>> {
    match s {
        Some(v) => Some(v@),
        None => None,
    }
}

impl View for RtlSdr {
    type V = RtlSdrView;

    closed spec fn view(&self) -> RtlSdrView {
        RtlSdrView {
            vendor_id: self.vendor_id,
            product_id: self.product_id,
            manufacturer: string_view(self.manufacturer),
            product: string_view(self.product),
            tuner: tuner_view(self.tuner),
            sample_rate_hz: self.sample_rate_hz,
            center_freq_hz: self.center_freq_hz,
            bandwidth_hz: self.bandwidth_hz,
            freq_correction_ppm: self.freq_correction_ppm,
        }
    }
}

/// The tuner kind that the probe reported.
pub open spec fn tuner_kind_of(t: TunerV) -> TunerKind {
    match t {
        TunerV::Unknown => TunerKind::Unknown,
        TunerV::Unsupported(k) => k,
        TunerV::R82xx(r) => match r.kind {
            R82xxKind::R820T => TunerKind::R820T,
            R82xxKind::R828D => TunerKind::R828D,
        },
    }
}

/// The RTL-SDR Blog V4 is recognised by its USB strings.
pub open spec fn is_blog_v4_view(v: RtlSdrView) -> bool {
    v.manufacturer == Some("RTLSDRBlog"@) && v.product == Some("Blog V4"@)
}

fn str_option(s: &Option<String>) -> (r: Option<&str>)
    ensures
        match *s {
            Some(v) => r matches Some(x) && x@ == v@,
            None => r is None,
        },
{
    match s {
        Some(v) => Some(v.as_str()),
        None => None,
    }
}

fn string_is(s: &Option<String>, expected: &str) -> (r: bool)
    ensures
        r == (string_view(*s) == Some(expected@)),
{
    match s {
        Some(v) => {
            let e = expected.to_owned();
            *v == e
        },
        None => false,
    }
}

impl RtlSdr {
    /// The shadow of an R82xx tuner, once found, has `NUM_REGS` entries.
    pub proof fn lemma_tuner_shadow_len(&self)
        ensures
            self@.tuner matches TunerV::R82xx(t) ==> t.regs.len() == NUM_REGS,
    {
        match &self.tuner {
            TunerState::R82xx(t) => t.lemma_shadow_len(),
            _ => {},
        }
    }

    /// A dongle that has just been opened: no tuner known yet, nothing set.
    pub fn new(
        vendor_id: u16,
        product_id: u16,
        manufacturer: Option<String>,
        product: Option<String>,
    ) -> (r: RtlSdr)
        ensures
            r@ == (RtlSdrView {
                vendor_id,
                product_id,
                manufacturer: string_view(manufacturer),
                product: string_view(product),
                tuner: TunerV::Unknown,
                sample_rate_hz: 0,
                center_freq_hz: None,
                bandwidth_hz: None,
                freq_correction_ppm: 0,
            }),
    {
        RtlSdr {
            vendor_id,
            product_id,
            manufacturer,
            product,
            tuner: TunerState::Unknown,
            sample_rate_hz: 0,
            center_freq_hz: None,
            bandwidth_hz: None,
            freq_correction_ppm: 0,
        }
    }

    pub fn vendor_id(&self) -> (r: u16)
        ensures
            r == self@.vendor_id,
    {
        self.vendor_id
    }

    pub fn product_id(&self) -> (r: u16)
        ensures
            r == self@.product_id,
    {
        self.product_id
    }

    /// The name under which the driver knows this dongle.
    pub fn known_name(&self) -> (r: Option<&'static str>)
        ensures
            r == known_name_of(self@.vendor_id, self@.product_id),
    {
        known_device_name(self.vendor_id, self.product_id)
    }

    pub fn manufacturer(&self) -> (r: Option<&str>)
        ensures
            match self@.manufacturer {
                Some(m) => r matches Some(x) && x@ == m,
                None => r is None,
            },
    {
        str_option(&self.manufacturer)
    }

    pub fn product(&self) -> (r: Option<&str>)
        ensures
            match self@.product {
                Some(m) => r matches Some(x) && x@ == m,
                None => r is None,
            },
    {
        str_option(&self.product)
    }

    pub fn tuner_kind(&self) -> (r: TunerKind)
        ensures
            r == tuner_kind_of(self@.tuner),
    {
        match &self.tuner {
            TunerState::Unknown => TunerKind::Unknown,
            TunerState::Unsupported(kind) => *kind,
            TunerState::R82xx(tuner) => match tuner.kind() {
                R82xxKind::R820T => TunerKind::R820T,
                R82xxKind::R828D => TunerKind::R828D,
            },
        }
    }

    pub fn sample_rate(&self) -> (r: u32)
        ensures
            r == self@.sample_rate_hz,
    {
        self.sample_rate_hz
    }

    pub fn center_frequency(&self) -> (r: Option<u32>)
        ensures
            r == self@.center_freq_hz,
    {
        self.center_freq_hz
    }

    pub fn frequency_correction(&self) -> (r: i32)
        ensures
            r == self@.freq_correction_ppm,
    {
        self.freq_correction_ppm
    }

    pub fn bandwidth(&self) -> (r: Option<u32>)
        ensures
            r == self@.bandwidth_hz,
    {
        self.bandwidth_hz
    }

    /// Whether this is an RTL-SDR Blog V4, which up-converts HF and switches inputs.
    pub fn is_blog_v4(&self) -> (r: bool)
        ensures
            r == is_blog_v4_view(self@),
    {
        string_is(&self.manufacturer, "RTLSDRBlog") && string_is(&self.product, "Blog V4")
    }
}


// ---------------------------------------------------------------------------
// Command batches of the demodulator
// ---------------------------------------------------------------------------

/// A demodulator register write.
pub open spec fn dw(page: u8, addr: u16, value: u16, len: usize) -> CmdV {
    CmdV::DemodWrite { page, addr, value, len }
}

/// A USB or system register write.
pub open spec fn rw(block: u8, addr: u16, value: u16, len: usize) -> CmdV {
    CmdV::WriteReg { block, addr, value, len }
}

fn demod_write(page: u8, addr: u16, value: u16, len: usize) -> (c: Cmd)
    ensures
        c@ == dw(page, addr, value, len),
{
    Cmd::DemodWrite { page, addr, value, len }
}

fn reg_write(block: u8, addr: u16, value: u16, len: usize) -> (c: Cmd)
    ensures
        c@ == rw(block, addr, value, len),
{
    Cmd::WriteReg { block, addr, value, len }
}

proof fn lemma_cmds_view_add(a: Seq<Cmd>, b: Seq<Cmd>)
    ensures
        cmds_view(a + b) == cmds_view(a) + cmds_view(b),
{
    assert(cmds_view(a + b) =~= cmds_view(a) + cmds_view(b));
}

fn append_cmds(v: &mut Vec<Cmd>, mut w: Vec<Cmd>)
    ensures
        cmds_view(final(v)@) == cmds_view(old(v)@) + cmds_view(w@),
{
    let ghost a = v@;
    let ghost b = w@;
    v.append(&mut w);
    proof {
        lemma_cmds_view_add(a, b);
    }
}

/// Opens (0x18) or closes (0x10) the I2C repeater to the tuner.
pub open spec fn repeater_batch(on: bool) -> Seq<CmdV> {
    seq![
        dw(
            1,
            0x01,
            if on {
                0x18
            } else {
                0x10
            },
            1,
        ),
    ]
}

pub fn repeater_commands(on: bool) -> (r: Vec<Cmd>)
    ensures
        cmds_view(r@) == repeater_batch(on),
{
    let v = vec![demod_write(1, 0x01, if on { 0x18 } else { 0x10 }, 1)];
    assert(cmds_view(v@) =~= repeater_batch(on));
    v
}

/// Sets the demodulator's intermediate frequency.
pub open spec fn if_freq_batch(frequency_hz: u32) -> Seq<CmdV> {
    let (a, b, c) = if_register_values(frequency_hz);
    seq![dw(1, 0x19, a, 1), dw(1, 0x1a, b, 1), dw(1, 0x1b, c, 1)]
}

pub fn if_freq_commands(frequency_hz: u32) -> (r: Vec<Cmd>)
    ensures
        cmds_view(r@) == if_freq_batch(frequency_hz),
{
    let (a, b, c) = if_values(frequency_hz);
    let v = vec![demod_write(1, 0x19, a, 1), demod_write(1, 0x1a, b, 1), demod_write(1, 0x1b, c, 1)];
    assert(cmds_view(v@) =~= if_freq_batch(frequency_hz));
    v
}

/// Sets the sample clock correction.
pub open spec fn correction_batch(ppm: i32) -> Seq<CmdV> {
    let (lo, hi) = correction_register_values(ppm);
    seq![dw(1, 0x3f, lo, 1), dw(1, 0x3e, hi, 1)]
}

pub fn correction_commands(ppm: i32) -> (r: Vec<Cmd>)
    ensures
        cmds_view(r@) == correction_batch(ppm),
{
    let (lo, hi) = correction_values(ppm);
    let v = vec![demod_write(1, 0x3f, lo, 1), demod_write(1, 0x3e, hi, 1)];
    assert(cmds_view(v@) =~= correction_batch(ppm));
    v
}

/// Soft-resets the demodulator.
pub open spec fn reset_demod_batch() -> Seq<CmdV> {
    seq![dw(1, 0x01, 0x14, 1), dw(1, 0x01, 0x10, 1)]
}

pub fn reset_demod_commands() -> (r: Vec<Cmd>)
    ensures
        cmds_view(r@) == reset_demod_batch(),
{
    let v = vec![demod_write(1, 0x01, 0x14, 1), demod_write(1, 0x01, 0x10, 1)];
    assert(cmds_view(v@) =~= reset_demod_batch());
    v
}

/// Loads the FIR filter: one byte per register from 0x1c on.
pub open spec fn fir_batch() -> Seq<CmdV> {
    Seq::new(20, |i: int| dw(1, (0x1c + i) as u16, fir_packed(FIR_DEFAULT@)[i] as u16, 1))
}

pub fn fir_commands() -> (r: Vec<Cmd>)
    ensures
        cmds_view(r@) == fir_batch(),
{
    let fir = fir_bytes();
    let mut v: Vec<Cmd> = Vec::new();
    let mut offset: usize = 0;
    while offset < 20
        invariant
            offset <= 20,
            fir@ == fir_packed(FIR_DEFAULT@),
            cmds_view(v@) == fir_batch().subrange(0, offset as int),
        decreases 20 - offset,
    {
        let ghost before = cmds_view(v@);
        v.push(demod_write(1, 0x1c + offset as u16, fir[offset] as u16, 1));
        assert(cmds_view(v@) =~= before.push(fir_batch()[offset as int]));
        offset = offset + 1;
        assert(cmds_view(v@) =~= fir_batch().subrange(0, offset as int));
    }
    assert(fir_batch().subrange(0, 20) =~= fir_batch());
    v
}

/// Clears the six demodulator registers from 0x16 on.
pub open spec fn clear_batch() -> Seq<CmdV> {
    Seq::new(6, |i: int| dw(1, (0x16 + i) as u16, 0x00, 1))
}

/// Brings the RTL2832U baseband up: USB and system setup, demodulator defaults, FIR filter.
pub open spec fn baseband_batch() -> Seq<CmdV> {
    seq![
        rw(USBB, USB_SYSCTL, 0x09, 1),
        rw(USBB, USB_EPA_MAXPKT, 0x0002, 2),
        rw(USBB, USB_EPA_CTL, 0x1002, 2),
        rw(SYSB, DEMOD_CTL_1, 0x22, 1),
        rw(SYSB, DEMOD_CTL, 0xe8, 1),
    ] + reset_demod_batch() + seq![dw(1, 0x15, 0x00, 1), dw(1, 0x16, 0x0000, 2)] + clear_batch()
        + fir_batch() + seq![
        dw(0, 0x19, 0x05, 1),
        dw(1, 0x93, 0xf0, 1),
        dw(1, 0x94, 0x0f, 1),
        dw(1, 0x11, 0x00, 1),
        dw(1, 0x04, 0x00, 1),
        dw(0, 0x61, 0x60, 1),
        dw(0, 0x06, 0x80, 1),
        dw(1, 0xb1, 0x1b, 1),
        dw(0, 0x0d, 0x83, 1),
    ]
}

pub fn baseband_commands() -> (r: Vec<Cmd>)
    ensures
        cmds_view(r@) == baseband_batch(),
{
    let mut v = vec![
        reg_write(USBB, USB_SYSCTL, 0x09, 1),
        reg_write(USBB, USB_EPA_MAXPKT, 0x0002, 2),
        reg_write(USBB, USB_EPA_CTL, 0x1002, 2),
        reg_write(SYSB, DEMOD_CTL_1, 0x22, 1),
        reg_write(SYSB, DEMOD_CTL, 0xe8, 1),
    ];
    let ghost p0 = cmds_view(v@);
    append_cmds(&mut v, reset_demod_commands());
    let w = vec![demod_write(1, 0x15, 0x00, 1), demod_write(1, 0x16, 0x0000, 2)];
    let ghost p1 = cmds_view(w@);
    append_cmds(&mut v, w);
    let mut c: Vec<Cmd> = Vec::new();
    let mut offset: usize = 0;
    while offset < 6
        invariant
            offset <= 6,
            cmds_view(c@) == clear_batch().subrange(0, offset as int),
        decreases 6 - offset,
    {
        let ghost before = cmds_view(c@);
        c.push(demod_write(1, 0x16 + offset as u16, 0x00, 1));
        assert(cmds_view(c@) =~= before.push(clear_batch()[offset as int]));
        offset = offset + 1;
        assert(cmds_view(c@) =~= clear_batch().subrange(0, offset as int));
    }
    assert(clear_batch().subrange(0, 6) =~= clear_batch());
    append_cmds(&mut v, c);
    append_cmds(&mut v, fir_commands());
    let tail = vec![
        demod_write(0, 0x19, 0x05, 1),
        demod_write(1, 0x93, 0xf0, 1),
        demod_write(1, 0x94, 0x0f, 1),
        demod_write(1, 0x11, 0x00, 1),
        demod_write(1, 0x04, 0x00, 1),
        demod_write(0, 0x61, 0x60, 1),
        demod_write(0, 0x06, 0x80, 1),
        demod_write(1, 0xb1, 0x1b, 1),
        demod_write(0, 0x0d, 0x83, 1),
    ];
    let ghost p2 = cmds_view(tail@);
    append_cmds(&mut v, tail);
    assert(p0 =~= seq![
        rw(USBB, USB_SYSCTL, 0x09, 1),
        rw(USBB, USB_EPA_MAXPKT, 0x0002, 2),
        rw(USBB, USB_EPA_CTL, 0x1002, 2),
        rw(SYSB, DEMOD_CTL_1, 0x22, 1),
        rw(SYSB, DEMOD_CTL, 0xe8, 1),
    ]);
    assert(p1 =~= seq![dw(1, 0x15, 0x00, 1), dw(1, 0x16, 0x0000, 2)]);
    assert(p2 =~= seq![
        dw(0, 0x19, 0x05, 1),
        dw(1, 0x93, 0xf0, 1),
        dw(1, 0x94, 0x0f, 1),
        dw(1, 0x11, 0x00, 1),
        dw(1, 0x04, 0x00, 1),
        dw(0, 0x61, 0x60, 1),
        dw(0, 0x06, 0x80, 1),
        dw(1, 0xb1, 0x1b, 1),
        dw(0, 0x0d, 0x83, 1),
    ]);
    v
}

/// Resets the USB bulk FIFO.
pub open spec fn reset_buffer_batch() -> Seq<CmdV> {
    seq![rw(USBB, USB_EPA_CTL, 0x1002, 2), rw(USBB, USB_EPA_CTL, 0x0000, 2)]
}

pub fn reset_buffer_commands() -> (r: Vec<Cmd>)
    ensures
        cmds_view(r@) == reset_buffer_batch(),
{
    let v = vec![reg_write(USBB, USB_EPA_CTL, 0x1002, 2), reg_write(USBB, USB_EPA_CTL, 0x0000, 2)];
    assert(cmds_view(v@) =~= reset_buffer_batch());
    v
}

/// Writes the resampler ratio, high and low word.
pub open spec fn ratio_batch(ratio: u64) -> Seq<CmdV> {
    seq![
        dw(1, 0x9f, ((ratio >> 16u64) & 0xffff) as u16, 2),
        dw(1, 0xa1, (ratio & 0xffff) as u16, 2),
    ]
}

pub fn ratio_commands(ratio: u64) -> (r: Vec<Cmd>)
    ensures
        cmds_view(r@) == ratio_batch(ratio),
{
    let v = vec![
        demod_write(1, 0x9f, ((ratio >> 16u64) & 0xffff) as u16, 2),
        demod_write(1, 0xa1, (ratio & 0xffff) as u16, 2),
    ];
    assert(cmds_view(v@) =~= ratio_batch(ratio));
    v
}

/// Prepares the demodulator for an R82xx tuner: IF input, 3.57 MHz IF, spectrum inversion.
pub open spec fn configure_batch() -> Seq<CmdV> {
    seq![dw(1, 0xb1, 0x1a, 1), dw(0, 0x08, 0x4d, 1)] + if_freq_batch(R82XX_IF_FREQ) + seq![
        dw(1, 0x15, 0x01, 1),
    ]
}

pub fn configure_commands() -> (r: Vec<Cmd>)
    ensures
        cmds_view(r@) == configure_batch(),
{
    let mut v = vec![demod_write(1, 0xb1, 0x1a, 1), demod_write(0, 0x08, 0x4d, 1)];
    let ghost p0 = cmds_view(v@);
    append_cmds(&mut v, if_freq_commands(R82XX_IF_FREQ));
    let w = vec![demod_write(1, 0x15, 0x01, 1)];
    let ghost p1 = cmds_view(w@);
    append_cmds(&mut v, w);
    assert(p0 =~= seq![dw(1, 0xb1, 0x1a, 1), dw(0, 0x08, 0x4d, 1)]);
    assert(p1 =~= seq![dw(1, 0x15, 0x01, 1)]);
    v
}

/// The demodulator part of a sample-rate change: the new IF where the tuner gave one,
/// the ratio, the clock correction, and a reset.
pub open spec fn rate_batch(new_if: Option<u32>, ratio: u64, ppm: i32) -> Seq<CmdV> {
    (match new_if {
        Some(f) => if_freq_batch(f),
        None => seq![],
    }) + ratio_batch(ratio) + correction_batch(ppm) + reset_demod_batch()
}

pub fn rate_commands(new_if: Option<u32>, ratio: u64, ppm: i32) -> (r: Vec<Cmd>)
    ensures
        cmds_view(r@) == rate_batch(new_if, ratio, ppm),
{
    let mut v: Vec<Cmd> = match new_if {
        Some(f) => if_freq_commands(f),
        None => Vec::new(),
    };
    let ghost p0 = cmds_view(v@);
    assert(p0 == (match new_if {
        Some(f) => if_freq_batch(f),
        None => seq![],
    })) by {
        if new_if is None {
            assert(p0 =~= Seq::<CmdV>::empty());
        }
    }
    append_cmds(&mut v, ratio_commands(ratio));
    append_cmds(&mut v, correction_commands(ppm));
    append_cmds(&mut v, reset_demod_commands());
    v
}


// ---------------------------------------------------------------------------
// Tuning the centre frequency
// ---------------------------------------------------------------------------

#[derive(Debug, Clone, Copy, PartialEq, Eq, Structural)]
pub enum CenterStage {
    Start,
    Opening,
    InTuner,
    Closing,
    Over,
}

/// Tunes to a centre frequency through the I2C repeater, which is closed again
/// whatever the tuner did.
#[derive(Debug)]
pub struct CenterFreqOp {
    freq_hz: u32,
    stage: CenterStage,
    tuning: SetFreqOp,
    pending: Result<(), Error>,
}

pub struct CenterFreqOpV {
    pub freq_hz: u32,
    pub stage: CenterStage,
    pub tuning: SetFreqOpV,
    pub pending: Result<(), Error>,
}

impl View for CenterFreqOp {
    type V = CenterFreqOpV;

    closed spec fn view(&self) -> CenterFreqOpV {
        CenterFreqOpV {
            freq_hz: self.freq_hz,
            stage: self.stage,
            tuning: self.tuning@,
            pending: self.pending,
        }
    }
}

pub open spec fn center_wf(s: CenterFreqOpV) -> bool {
    &&& set_freq_wf(s.tuning)
    &&& s.stage == CenterStage::InTuner ==> (s.tuning.stage != FreqStage::Start
        && s.tuning.stage != FreqStage::Over)
}

pub open spec fn center_fresh(freq_hz: u32) -> CenterFreqOpV {
    CenterFreqOpV { freq_hz, stage: CenterStage::Start, tuning: set_freq_idle(freq_hz), pending: Ok(()) }
}

/// How tuning to a centre frequency starts: 0 Hz is refused, else the repeater is opened.
pub open spec fn center_start(s: CenterFreqOpV) -> (CenterFreqOpV, OpStepV<()>) {
    if s.freq_hz == 0 {
        (
            CenterFreqOpV { stage: CenterStage::Over, ..s },
            OpStepV::Done(Err(Error::InvalidFrequency(s.freq_hz))),
        )
    } else {
        (CenterFreqOpV { stage: CenterStage::Opening, ..s }, OpStepV::Run(repeater_batch(true)))
    }
}

/// Closing the repeater after the tuner part, keeping its result.
pub open spec fn center_close(s: CenterFreqOpV, tuning: SetFreqOpV, res: Result<(), Error>) -> CenterFreqOpV {
    CenterFreqOpV { stage: CenterStage::Closing, tuning, pending: res, ..s }
}

/// One move of tuning to a centre frequency.
#[verifier::opaque]
pub open spec fn center_next(s: CenterFreqOpV, dv: RtlSdrView, outcome: Result<OutputV, Error>) -> (
    CenterFreqOpV,
    RtlSdrView,
    OpStepV<()>,
) {
    let over = CenterFreqOpV { stage: CenterStage::Over, ..s };
    let off = OpStepV::Run(repeater_batch(false));
    match s.stage {
        CenterStage::InTuner => match dv.tuner {
            TunerV::R82xx(tv) => {
                let (f2, t2, st) = set_freq_next(s.tuning, tv, outcome);
                let dv2 = RtlSdrView { tuner: TunerV::R82xx(t2), ..dv };
                match st {
                    OpStepV::Run(c) => (CenterFreqOpV { tuning: f2, ..s }, dv2, OpStepV::Run(c)),
                    OpStepV::Done(res) => (center_close(s, f2, res), dv2, off),
                }
            },
            _ => (center_close(s, s.tuning, Err(Error::TunerNotFound)), dv, off),
        },
        CenterStage::Opening => match outcome {
            Err(e) => (over, dv, OpStepV::Done(Err(e))),
            Ok(_) => match dv.tuner {
                TunerV::R82xx(tv) => {
                    let (f2, st) = set_freq_start(s.freq_hz, tv);
                    match st {
                        OpStepV::Run(c) => (
                            CenterFreqOpV { stage: CenterStage::InTuner, tuning: f2, ..s },
                            dv,
                            OpStepV::Run(c),
                        ),
                        OpStepV::Done(res) => (center_close(s, f2, res), dv, off),
                    }
                },
                TunerV::Unsupported(k) => (
                    center_close(s, s.tuning, Err(Error::UnsupportedTuner(k))),
                    dv,
                    off,
                ),
                TunerV::Unknown => (center_close(s, s.tuning, Err(Error::TunerNotFound)), dv, off),
            },
        },
        _ => {
            let fin = CenterFreqOpV { stage: CenterStage::Over, pending: Ok(()), ..s };
            match s.pending {
                Err(e) => (fin, dv, OpStepV::Done(Err(e))),
                Ok(_) => match outcome {
                    Err(e) => (fin, dv, OpStepV::Done(Err(e))),
                    Ok(_) => (
                        fin,
                        RtlSdrView { center_freq_hz: Some(s.freq_hz), ..dv },
                        OpStepV::Done(Ok(())),
                    ),
                },
            }
        },
    }
}

impl CenterFreqOp {
    pub fn new(freq_hz: u32) -> (r: CenterFreqOp)
        ensures
            r@ == center_fresh(freq_hz),
            center_wf(r@),
    {
        CenterFreqOp { freq_hz, stage: CenterStage::Start, tuning: SetFreqOp::idle(freq_hz), pending: Ok(()) }
    }

    pub fn start(&mut self) -> (r: OpStep<()>)
        requires
            old(self)@.stage == CenterStage::Start,
            center_wf(old(self)@),
        ensures
            (final(self)@, step_view(r)) == center_start(old(self)@),
            center_wf(final(self)@),
            r is Run ==> final(self)@.stage != CenterStage::Start && final(self)@.stage
                != CenterStage::Over,
    {
        if self.freq_hz == 0 {
            self.stage = CenterStage::Over;
            return OpStep::Done(Err(Error::InvalidFrequency(self.freq_hz)));
        }
        self.stage = CenterStage::Opening;
        OpStep::Run(repeater_commands(true))
    }

    fn close(&mut self, res: Result<(), Error>) -> (r: OpStep<()>)
        ensures
            final(self)@ == center_close(old(self)@, old(self)@.tuning, res),
            step_view(r) == OpStepV::<()>::Run(repeater_batch(false)),
    {
        self.pending = res;
        self.stage = CenterStage::Closing;
        OpStep::Run(repeater_commands(false))
    }

    pub fn resume(&mut self, sdr: &mut RtlSdr, outcome: Result<Output, Error>) -> (r: OpStep<()>)
        requires
            old(self)@.stage != CenterStage::Start,
            old(self)@.stage != CenterStage::Over,
            center_wf(old(self)@),
        ensures
            (final(self)@, final(sdr)@, step_view(r)) == center_next(
                old(self)@,
                old(sdr)@,
                output_result_view(outcome),
            ),
            center_wf(final(self)@),
            r is Run ==> final(self)@.stage != CenterStage::Start && final(self)@.stage
                != CenterStage::Over,
    {
        proof {
            reveal(center_next);
        }
        match self.stage {
            CenterStage::InTuner => {
                let st = match &mut sdr.tuner {
                    TunerState::R82xx(t) => self.tuning.resume(t, outcome),
                    _ => {
                        return self.close(Err(Error::TunerNotFound));
                    },
                };
                match st {
                    OpStep::Run(c) => OpStep::Run(c),
                    OpStep::Done(res) => self.close(res),
                }
            },
            CenterStage::Opening => {
                match outcome {
                    Err(e) => {
                        self.stage = CenterStage::Over;
                        return OpStep::Done(Err(e));
                    },
                    Ok(_) => {},
                }
                match &sdr.tuner {
                    TunerState::R82xx(t) => {
                        let (f2, st) = SetFreqOp::start(t, self.freq_hz);
                        self.tuning = f2;
                        match st {
                            OpStep::Run(c) => {
                                self.stage = CenterStage::InTuner;
                                OpStep::Run(c)
                            },
                            OpStep::Done(res) => self.close(res),
                        }
                    },
                    TunerState::Unsupported(k) => self.close(Err(Error::UnsupportedTuner(*k))),
                    TunerState::Unknown => self.close(Err(Error::TunerNotFound)),
                }
            },
            _ => {
                self.stage = CenterStage::Over;
                let mut pending: Result<(), Error> = Ok(());
                std::mem::swap(&mut pending, &mut self.pending);
                match pending {
                    Err(e) => OpStep::Done(Err(e)),
                    Ok(_) => match outcome {
                        Err(e) => OpStep::Done(Err(e)),
                        Ok(_) => {
                            sdr.center_freq_hz = Some(self.freq_hz);
                            OpStep::Done(Ok(()))
                        },
                    },
                }
            },
        }
    }
}


// ---------------------------------------------------------------------------
// Gain
// ---------------------------------------------------------------------------

/// Whether a gain mode asks for manual gain, and the gain it asks for.
pub open spec fn gain_request(gain: GainMode) -> (bool, i32) {
    match gain {
        GainMode::Auto => (false, 0),
        GainMode::ManualTenthsDb(g) => (true, g),
    }
}

#[derive(Debug, Clone, Copy, PartialEq, Eq, Structural)]
pub enum RepeaterStage {
    Start,
    Opening,
    InTuner,
    Closing,
    Over,
}

/// Sets the tuner gain through the I2C repeater, which is closed again whatever the
/// tuner did.
#[derive(Debug)]
pub struct GainOp {
    gain: GainMode,
    stage: RepeaterStage,
    pending: Result<(), Error>,
}

pub struct GainOpV {
    pub gain: GainMode,
    pub stage: RepeaterStage,
    pub pending: Result<(), Error>,
}

impl View for GainOp {
    type V = GainOpV;

    closed spec fn view(&self) -> GainOpV {
        GainOpV { gain: self.gain, stage: self.stage, pending: self.pending }
    }
}

/// How a gain setting starts: a manual gain outside -10..50 dB is refused.
pub open spec fn gain_start(s: GainOpV) -> (GainOpV, OpStepV<()>) {
    match s.gain {
        GainMode::ManualTenthsDb(g) if !(-100 <= g <= 500) => (
            GainOpV { stage: RepeaterStage::Over, ..s },
            OpStepV::Done(Err(Error::InvalidGain(g))),
        ),
        _ => (GainOpV { stage: RepeaterStage::Opening, ..s }, OpStepV::Run(repeater_batch(true))),
    }
}

#[verifier::opaque]
pub open spec fn gain_next(s: GainOpV, dv: RtlSdrView, outcome: Result<OutputV, Error>) -> (
    GainOpV,
    OpStepV<()>,
) {
    let over = GainOpV { stage: RepeaterStage::Over, ..s };
    let off = OpStepV::Run(repeater_batch(false));
    let close = |res: Result<(), Error>| GainOpV { stage: RepeaterStage::Closing, pending: res, ..s };
    match s.stage {
        RepeaterStage::Opening => match outcome {
            Err(e) => (over, OpStepV::Done(Err(e))),
            Ok(_) => match dv.tuner {
                TunerV::R82xx(_) => (
                    GainOpV { stage: RepeaterStage::InTuner, ..s },
                    OpStepV::Run(gain_batch(gain_request(s.gain).0, gain_request(s.gain).1)),
                ),
                TunerV::Unsupported(k) => (close(Err(Error::UnsupportedTuner(k))), off),
                TunerV::Unknown => (close(Err(Error::TunerNotFound)), off),
            },
        },
        RepeaterStage::InTuner => match outcome {
            Err(e) => (close(Err(e)), off),
            Ok(_) => (close(Ok(())), off),
        },
        _ => {
            let fin = GainOpV { stage: RepeaterStage::Over, pending: Ok(()), ..s };
            match s.pending {
                Err(e) => (fin, OpStepV::Done(Err(e))),
                Ok(_) => match outcome {
                    Err(e) => (fin, OpStepV::Done(Err(e))),
                    Ok(_) => (fin, OpStepV::Done(Ok(()))),
                },
            }
        },
    }
}

impl GainOp {
    pub fn new(gain: GainMode) -> (r: GainOp)
        ensures
            r@ == (GainOpV { gain, stage: RepeaterStage::Start, pending: Ok(()) }),
    {
        GainOp { gain, stage: RepeaterStage::Start, pending: Ok(()) }
    }

    pub fn start(&mut self) -> (r: OpStep<()>)
        requires
            old(self)@.stage == RepeaterStage::Start,
        ensures
            (final(self)@, step_view(r)) == gain_start(old(self)@),
            r is Run ==> final(self)@.stage != RepeaterStage::Start && final(self)@.stage
                != RepeaterStage::Over,
    {
        match self.gain {
            GainMode::ManualTenthsDb(g) => {
                if !(-100 <= g && g <= 500) {
                    self.stage = RepeaterStage::Over;
                    return OpStep::Done(Err(Error::InvalidGain(g)));
                }
            },
            GainMode::Auto => {},
        }
        self.stage = RepeaterStage::Opening;
        OpStep::Run(repeater_commands(true))
    }

    fn close(&mut self, res: Result<(), Error>) -> (r: OpStep<()>)
        ensures
            final(self)@ == (GainOpV { stage: RepeaterStage::Closing, pending: res, ..old(self)@ }),
            step_view(r) == OpStepV::<()>::Run(repeater_batch(false)),
    {
        self.pending = res;
        self.stage = RepeaterStage::Closing;
        OpStep::Run(repeater_commands(false))
    }

    pub fn resume(&mut self, sdr: &RtlSdr, outcome: Result<Output, Error>) -> (r: OpStep<()>)
        requires
            old(self)@.stage != RepeaterStage::Start,
            old(self)@.stage != RepeaterStage::Over,
        ensures
            (final(self)@, step_view(r)) == gain_next(old(self)@, sdr@, output_result_view(outcome)),
            r is Run ==> final(self)@.stage != RepeaterStage::Start && final(self)@.stage
                != RepeaterStage::Over,
    {
        proof {
            reveal(gain_next);
        }
        match self.stage {
            RepeaterStage::Opening => {
                match outcome {
                    Err(e) => {
                        self.stage = RepeaterStage::Over;
                        return OpStep::Done(Err(e));
                    },
                    Ok(_) => {},
                }
                match &sdr.tuner {
                    TunerState::R82xx(_) => {
                        self.stage = RepeaterStage::InTuner;
                        let (manual, gain) = match self.gain {
                            GainMode::Auto => (false, 0i32),
                            GainMode::ManualTenthsDb(g) => (true, g),
                        };
                        OpStep::Run(gain_commands(manual, gain))
                    },
                    TunerState::Unsupported(k) => self.close(Err(Error::UnsupportedTuner(*k))),
                    TunerState::Unknown => self.close(Err(Error::TunerNotFound)),
                }
            },
            RepeaterStage::InTuner => match outcome {
                Err(e) => self.close(Err(e)),
                Ok(_) => self.close(Ok(())),
            },
            _ => {
                self.stage = RepeaterStage::Over;
                let mut pending: Result<(), Error> = Ok(());
                std::mem::swap(&mut pending, &mut self.pending);
                match pending {
                    Err(e) => OpStep::Done(Err(e)),
                    Ok(_) => match outcome {
                        Err(e) => OpStep::Done(Err(e)),
                        Ok(_) => OpStep::Done(Ok(())),
                    },
                }
            },
        }
    }
}


// ---------------------------------------------------------------------------
// Bandwidth
// ---------------------------------------------------------------------------

#[derive(Debug, Clone, Copy, PartialEq, Eq, Structural)]
pub enum BandwidthStage {
    Start,
    Opening,
    InTuner,
    Closing,
    SettingIf,
    Retuning,
    Over,
}

/// Sets the IF filter bandwidth (`None`: follow the sample rate), then the new IF,
/// and retunes where a centre frequency is set.
#[derive(Debug)]
pub struct BandwidthOp {
    bandwidth_hz: Option<u32>,
    stage: BandwidthStage,
    new_if: u32,
    pending: Result<(), Error>,
    retune: CenterFreqOp,
}

pub struct BandwidthOpV {
    pub bandwidth_hz: Option<u32>,
    pub stage: BandwidthStage,
    pub new_if: u32,
    pub pending: Result<(), Error>,
    pub retune: CenterFreqOpV,
}

impl View for BandwidthOp {
    type V = BandwidthOpV;

    closed spec fn view(&self) -> BandwidthOpV {
        BandwidthOpV {
            bandwidth_hz: self.bandwidth_hz,
            stage: self.stage,
            new_if: self.new_if,
            pending: self.pending,
            retune: self.retune@,
        }
    }
}

/// A retune in progress is well formed and under way.
pub open spec fn retune_wf(retuning: bool, r: CenterFreqOpV) -> bool {
    &&& center_wf(r)
    &&& retuning ==> (r.stage != CenterStage::Start && r.stage != CenterStage::Over)
}

pub open spec fn bandwidth_wf(s: BandwidthOpV) -> bool {
    retune_wf(s.stage == BandwidthStage::Retuning, s.retune)
}

/// The bandwidth asked of the tuner: the one given, or the sample rate.
pub open spec fn requested_bandwidth(bandwidth_hz: Option<u32>, sample_rate_hz: u32) -> u32 {
    match bandwidth_hz {
        Some(b) => b,
        None => sample_rate_hz,
    }
}

/// How a bandwidth setting starts: it records the setting and opens the repeater.
pub open spec fn bandwidth_start(s: BandwidthOpV, dv: RtlSdrView) -> (BandwidthOpV, RtlSdrView, OpStepV<()>) {
    (
        BandwidthOpV { stage: BandwidthStage::Opening, ..s },
        RtlSdrView { bandwidth_hz: s.bandwidth_hz, ..dv },
        OpStepV::Run(repeater_batch(true)),
    )
}

/// How a retune to the set centre frequency starts, given the state that asks for it.
pub open spec fn retune_start(center: u32) -> (CenterFreqOpV, OpStepV<()>) {
    center_start(center_fresh(center))
}

#[verifier::opaque]
pub open spec fn bandwidth_next(s: BandwidthOpV, dv: RtlSdrView, outcome: Result<OutputV, Error>) -> (
    BandwidthOpV,
    RtlSdrView,
    OpStepV<()>,
) {
    let over = BandwidthOpV { stage: BandwidthStage::Over, ..s };
    let off = OpStepV::Run(repeater_batch(false));
    let close = |res: Result<(), Error>| BandwidthOpV { stage: BandwidthStage::Closing, pending: res, ..s };
    match s.stage {
        BandwidthStage::Opening => match outcome {
            Err(e) => (over, dv, OpStepV::Done(Err(e))),
            Ok(_) => match dv.tuner {
                TunerV::R82xx(tv) => {
                    let bw = requested_bandwidth(s.bandwidth_hz, dv.sample_rate_hz);
                    let setting = bandwidth_setting(bw, dv.sample_rate_hz);
                    (
                        BandwidthOpV { stage: BandwidthStage::InTuner, new_if: setting.2, ..s },
                        RtlSdrView { tuner: TunerV::R82xx(R82xxView { int_freq: setting.2, ..tv }), ..dv },
                        OpStepV::Run(bandwidth_batch(bw, dv.sample_rate_hz)),
                    )
                },
                TunerV::Unsupported(k) => (close(Err(Error::UnsupportedTuner(k))), dv, off),
                TunerV::Unknown => (close(Err(Error::TunerNotFound)), dv, off),
            },
        },
        BandwidthStage::InTuner => match outcome {
            Err(e) => (close(Err(e)), dv, off),
            Ok(_) => (close(Ok(())), dv, off),
        },
        BandwidthStage::Closing => {
            let fin = BandwidthOpV { stage: BandwidthStage::Over, pending: Ok(()), ..s };
            match s.pending {
                Err(e) => (fin, dv, OpStepV::Done(Err(e))),
                Ok(_) => match outcome {
                    Err(e) => (fin, dv, OpStepV::Done(Err(e))),
                    Ok(_) => (
                        BandwidthOpV { stage: BandwidthStage::SettingIf, pending: Ok(()), ..s },
                        dv,
                        OpStepV::Run(if_freq_batch(s.new_if)),
                    ),
                },
            }
        },
        BandwidthStage::SettingIf => match outcome {
            Err(e) => (over, dv, OpStepV::Done(Err(e))),
            Ok(_) => match dv.center_freq_hz {
                Some(c) => {
                    let (r2, st) = retune_start(c);
                    match st {
                        OpStepV::Run(cmds) => (
                            BandwidthOpV { stage: BandwidthStage::Retuning, retune: r2, ..s },
                            dv,
                            OpStepV::Run(cmds),
                        ),
                        OpStepV::Done(res) => (BandwidthOpV { retune: r2, ..over }, dv, OpStepV::Done(res)),
                    }
                },
                None => (over, dv, OpStepV::Done(Ok(()))),
            },
        },
        _ => {
            let (r2, dv2, st) = center_next(s.retune, dv, outcome);
            match st {
                OpStepV::Run(cmds) => (BandwidthOpV { retune: r2, ..s }, dv2, OpStepV::Run(cmds)),
                OpStepV::Done(res) => (BandwidthOpV { retune: r2, ..over }, dv2, OpStepV::Done(res)),
            }
        },
    }
}

impl BandwidthOp {
    pub fn new(bandwidth_hz: Option<u32>) -> (r: BandwidthOp)
        ensures
            r@ == (BandwidthOpV {
                bandwidth_hz,
                stage: BandwidthStage::Start,
                new_if: 0,
                pending: Ok(()),
                retune: center_fresh(0),
            }),
            bandwidth_wf(r@),
    {
        BandwidthOp {
            bandwidth_hz,
            stage: BandwidthStage::Start,
            new_if: 0,
            pending: Ok(()),
            retune: CenterFreqOp::new(0),
        }
    }

    pub fn start(&mut self, sdr: &mut RtlSdr) -> (r: OpStep<()>)
        requires
            old(self)@.stage == BandwidthStage::Start,
            bandwidth_wf(old(self)@),
        ensures
            (final(self)@, final(sdr)@, step_view(r)) == bandwidth_start(old(self)@, old(sdr)@),
            bandwidth_wf(final(self)@),
    {
        sdr.bandwidth_hz = self.bandwidth_hz;
        self.stage = BandwidthStage::Opening;
        OpStep::Run(repeater_commands(true))
    }

    fn close(&mut self, res: Result<(), Error>) -> (r: OpStep<()>)
        ensures
            final(self)@ == (BandwidthOpV { stage: BandwidthStage::Closing, pending: res, ..old(self)@ }),
            step_view(r) == OpStepV::<()>::Run(repeater_batch(false)),
    {
        self.pending = res;
        self.stage = BandwidthStage::Closing;
        OpStep::Run(repeater_commands(false))
    }

    pub fn resume(&mut self, sdr: &mut RtlSdr, outcome: Result<Output, Error>) -> (r: OpStep<()>)
        requires
            old(self)@.stage != BandwidthStage::Start,
            old(self)@.stage != BandwidthStage::Over,
            bandwidth_wf(old(self)@),
        ensures
            (final(self)@, final(sdr)@, step_view(r)) == bandwidth_next(
                old(self)@,
                old(sdr)@,
                output_result_view(outcome),
            ),
            bandwidth_wf(final(self)@),
            r is Run ==> final(self)@.stage != BandwidthStage::Start && final(self)@.stage
                != BandwidthStage::Over,
    {
        proof {
            reveal(bandwidth_next);
        }
        match self.stage {
            BandwidthStage::Opening => {
                match outcome {
                    Err(e) => {
                        self.stage = BandwidthStage::Over;
                        return OpStep::Done(Err(e));
                    },
                    Ok(_) => {},
                }
                let sample_rate = sdr.sample_rate_hz;
                let bw = match self.bandwidth_hz {
                    Some(b) => b,
                    None => sample_rate,
                };
                match &mut sdr.tuner {
                    TunerState::R82xx(t) => {
                        let (cmds, new_if) = t.set_bandwidth(bw, sample_rate);
                        self.new_if = new_if;
                        self.stage = BandwidthStage::InTuner;
                        OpStep::Run(cmds)
                    },
                    TunerState::Unsupported(k) => self.close(Err(Error::UnsupportedTuner(*k))),
                    TunerState::Unknown => self.close(Err(Error::TunerNotFound)),
                }
            },
            BandwidthStage::InTuner => match outcome {
                Err(e) => self.close(Err(e)),
                Ok(_) => self.close(Ok(())),
            },
            BandwidthStage::Closing => {
                let mut pending: Result<(), Error> = Ok(());
                std::mem::swap(&mut pending, &mut self.pending);
                match pending {
                    Err(e) => {
                        self.stage = BandwidthStage::Over;
                        OpStep::Done(Err(e))
                    },
                    Ok(_) => match outcome {
                        Err(e) => {
                            self.stage = BandwidthStage::Over;
                            OpStep::Done(Err(e))
                        },
                        Ok(_) => {
                            self.stage = BandwidthStage::SettingIf;
                            OpStep::Run(if_freq_commands(self.new_if))
                        },
                    },
                }
            },
            BandwidthStage::SettingIf => {
                match outcome {
                    Err(e) => {
                        self.stage = BandwidthStage::Over;
                        return OpStep::Done(Err(e));
                    },
                    Ok(_) => {},
                }
                match sdr.center_freq_hz {
                    Some(c) => {
                        let mut retune = CenterFreqOp::new(c);
                        let st = retune.start();
                        self.retune = retune;
                        match st {
                            OpStep::Run(cmds) => {
                                self.stage = BandwidthStage::Retuning;
                                OpStep::Run(cmds)
                            },
                            OpStep::Done(res) => {
                                self.stage = BandwidthStage::Over;
                                OpStep::Done(res)
                            },
                        }
                    },
                    None => {
                        self.stage = BandwidthStage::Over;
                        OpStep::Done(Ok(()))
                    },
                }
            },
            _ => {
                let st = self.retune.resume(sdr, outcome);
                match st {
                    OpStep::Run(cmds) => OpStep::Run(cmds),
                    OpStep::Done(res) => {
                        self.stage = BandwidthStage::Over;
                        OpStep::Done(res)
                    },
                }
            },
        }
    }
}

// ---------------------------------------------------------------------------
// Frequency correction
// ---------------------------------------------------------------------------

#[derive(Debug, Clone, Copy, PartialEq, Eq, Structural)]
pub enum CorrectionStage {
    Start,
    Writing,
    Retuning,
    Over,
}

/// Sets the frequency correction in ppm, and retunes where a centre frequency is set.
#[derive(Debug)]
pub struct CorrectionOp {
    ppm: i32,
    stage: CorrectionStage,
    retune: CenterFreqOp,
}

pub struct CorrectionOpV {
    pub ppm: i32,
    pub stage: CorrectionStage,
    pub retune: CenterFreqOpV,
}

impl View for CorrectionOp {
    type V = CorrectionOpV;

    closed spec fn view(&self) -> CorrectionOpV {
        CorrectionOpV { ppm: self.ppm, stage: self.stage, retune: self.retune@ }
    }
}

pub open spec fn correction_wf(s: CorrectionOpV) -> bool {
    retune_wf(s.stage == CorrectionStage::Retuning, s.retune)
}

pub open spec fn correction_start(s: CorrectionOpV, dv: RtlSdrView) -> (CorrectionOpV, RtlSdrView, OpStepV<()>) {
    (
        CorrectionOpV { stage: CorrectionStage::Writing, ..s },
        RtlSdrView { freq_correction_ppm: s.ppm, ..dv },
        OpStepV::Run(correction_batch(s.ppm)),
    )
}

#[verifier::opaque]
pub open spec fn correction_next(s: CorrectionOpV, dv: RtlSdrView, outcome: Result<OutputV, Error>) -> (
    CorrectionOpV,
    RtlSdrView,
    OpStepV<()>,
) {
    let over = CorrectionOpV { stage: CorrectionStage::Over, ..s };
    match s.stage {
        CorrectionStage::Writing => match outcome {
            Err(e) => (over, dv, OpStepV::Done(Err(e))),
            Ok(_) => match dv.center_freq_hz {
                Some(c) => {
                    let (r2, st) = retune_start(c);
                    match st {
                        OpStepV::Run(cmds) => (
                            CorrectionOpV { stage: CorrectionStage::Retuning, retune: r2, ..s },
                            dv,
                            OpStepV::Run(cmds),
                        ),
                        OpStepV::Done(res) => (CorrectionOpV { retune: r2, ..over }, dv, OpStepV::Done(res)),
                    }
                },
                None => (over, dv, OpStepV::Done(Ok(()))),
            },
        },
        _ => {
            let (r2, dv2, st) = center_next(s.retune, dv, outcome);
            match st {
                OpStepV::Run(cmds) => (CorrectionOpV { retune: r2, ..s }, dv2, OpStepV::Run(cmds)),
                OpStepV::Done(res) => (CorrectionOpV { retune: r2, ..over }, dv2, OpStepV::Done(res)),
            }
        },
    }
}

impl CorrectionOp {
    pub fn new(ppm: i32) -> (r: CorrectionOp)
        ensures
            r@ == (CorrectionOpV { ppm, stage: CorrectionStage::Start, retune: center_fresh(0) }),
            correction_wf(r@),
    {
        CorrectionOp { ppm, stage: CorrectionStage::Start, retune: CenterFreqOp::new(0) }
    }

    pub fn start(&mut self, sdr: &mut RtlSdr) -> (r: OpStep<()>)
        requires
            old(self)@.stage == CorrectionStage::Start,
            correction_wf(old(self)@),
        ensures
            (final(self)@, final(sdr)@, step_view(r)) == correction_start(old(self)@, old(sdr)@),
            correction_wf(final(self)@),
    {
        sdr.freq_correction_ppm = self.ppm;
        self.stage = CorrectionStage::Writing;
        OpStep::Run(correction_commands(self.ppm))
    }

    pub fn resume(&mut self, sdr: &mut RtlSdr, outcome: Result<Output, Error>) -> (r: OpStep<()>)
        requires
            old(self)@.stage != CorrectionStage::Start,
            old(self)@.stage != CorrectionStage::Over,
            correction_wf(old(self)@),
        ensures
            (final(self)@, final(sdr)@, step_view(r)) == correction_next(
                old(self)@,
                old(sdr)@,
                output_result_view(outcome),
            ),
            correction_wf(final(self)@),
            r is Run ==> final(self)@.stage != CorrectionStage::Start && final(self)@.stage
                != CorrectionStage::Over,
    {
        proof {
            reveal(correction_next);
        }
        match self.stage {
            CorrectionStage::Writing => {
                match outcome {
                    Err(e) => {
                        self.stage = CorrectionStage::Over;
                        return OpStep::Done(Err(e));
                    },
                    Ok(_) => {},
                }
                match sdr.center_freq_hz {
                    Some(c) => {
                        let mut retune = CenterFreqOp::new(c);
                        let st = retune.start();
                        self.retune = retune;
                        match st {
                            OpStep::Run(cmds) => {
                                self.stage = CorrectionStage::Retuning;
                                OpStep::Run(cmds)
                            },
                            OpStep::Done(res) => {
                                self.stage = CorrectionStage::Over;
                                OpStep::Done(res)
                            },
                        }
                    },
                    None => {
                        self.stage = CorrectionStage::Over;
                        OpStep::Done(Ok(()))
                    },
                }
            },
            _ => {
                let st = self.retune.resume(sdr, outcome);
                match st {
                    OpStep::Run(cmds) => OpStep::Run(cmds),
                    OpStep::Done(res) => {
                        self.stage = CorrectionStage::Over;
                        OpStep::Done(res)
                    },
                }
            },
        }
    }
}


// ---------------------------------------------------------------------------
// Sample rate
// ---------------------------------------------------------------------------

#[derive(Debug, Clone, Copy, PartialEq, Eq, Structural)]
pub enum RateStage {
    Start,
    Opening,
    InTuner,
    Closing,
    Programming,
    Retuning,
    Over,
}

/// Sets the sample rate: the tuner's filter (through the repeater) where it is an
/// R82xx, then the demodulator's IF, resampler ratio, clock correction and reset, and a
/// retune where the IF changed and a centre frequency is set. Gives the rate obtained.
#[derive(Debug)]
pub struct SampleRateOp {
    rate: u32,
    stage: RateStage,
    ratio: u64,
    real_rate: u32,
    bandwidth: u32,
    new_if: Option<u32>,
    pending: Result<(), Error>,
    retune: CenterFreqOp,
}

pub struct SampleRateOpV {
    pub rate: u32,
    pub stage: RateStage,
    pub ratio: u64,
    pub real_rate: u32,
    pub bandwidth: u32,
    pub new_if: Option<u32>,
    pub pending: Result<(), Error>,
    pub retune: CenterFreqOpV,
}

impl View for SampleRateOp {
    type V = SampleRateOpV;

    closed spec fn view(&self) -> SampleRateOpV {
        SampleRateOpV {
            rate: self.rate,
            stage: self.stage,
            ratio: self.ratio,
            real_rate: self.real_rate,
            bandwidth: self.bandwidth,
            new_if: self.new_if,
            pending: self.pending,
            retune: self.retune@,
        }
    }
}

pub open spec fn rate_wf(s: SampleRateOpV) -> bool {
    retune_wf(s.stage == RateStage::Retuning, s.retune)
}

pub open spec fn rate_fresh(rate: u32) -> SampleRateOpV {
    SampleRateOpV {
        rate,
        stage: RateStage::Start,
        ratio: 0,
        real_rate: 0,
        bandwidth: 0,
        new_if: None,
        pending: Ok(()),
        retune: center_fresh(0),
    }
}

/// How a sample-rate change starts: an invalid rate is refused; otherwise the repeater
/// is opened for an R82xx tuner, or the demodulator is programmed directly.
pub open spec fn rate_start(s: SampleRateOpV, dv: RtlSdrView) -> (SampleRateOpV, OpStepV<u32>) {
    match sample_rate_plan(s.rate) {
        Err(e) => (SampleRateOpV { stage: RateStage::Over, ..s }, OpStepV::Done(Err(e))),
        Ok((ratio, obtained)) => {
            let s2 = SampleRateOpV {
                ratio,
                real_rate: obtained,
                bandwidth: requested_bandwidth(dv.bandwidth_hz, obtained),
                ..s
            };
            if dv.tuner is R82xx {
                (SampleRateOpV { stage: RateStage::Opening, ..s2 }, OpStepV::Run(repeater_batch(true)))
            } else {
                (
                    SampleRateOpV { stage: RateStage::Programming, new_if: None, ..s2 },
                    OpStepV::Run(rate_batch(None, ratio, dv.freq_correction_ppm)),
                )
            }
        },
    }
}

#[verifier::opaque]
pub open spec fn rate_next(s: SampleRateOpV, dv: RtlSdrView, outcome: Result<OutputV, Error>) -> (
    SampleRateOpV,
    RtlSdrView,
    OpStepV<u32>,
) {
    let over = SampleRateOpV { stage: RateStage::Over, ..s };
    let off = OpStepV::Run(repeater_batch(false));
    let close = |res: Result<(), Error>| SampleRateOpV { stage: RateStage::Closing, pending: res, ..s };
    match s.stage {
        RateStage::Opening => match outcome {
            Err(e) => (over, dv, OpStepV::Done(Err(e))),
            Ok(_) => match dv.tuner {
                TunerV::R82xx(tv) => {
                    let setting = bandwidth_setting(s.bandwidth, s.real_rate);
                    (
                        SampleRateOpV { stage: RateStage::InTuner, new_if: Some(setting.2), ..s },
                        RtlSdrView { tuner: TunerV::R82xx(R82xxView { int_freq: setting.2, ..tv }), ..dv },
                        OpStepV::Run(bandwidth_batch(s.bandwidth, s.real_rate)),
                    )
                },
                _ => (close(Err(Error::TunerNotFound)), dv, off),
            },
        },
        RateStage::InTuner => match outcome {
            Err(e) => (close(Err(e)), dv, off),
            Ok(_) => (close(Ok(())), dv, off),
        },
        RateStage::Closing => {
            let fin = SampleRateOpV { stage: RateStage::Over, pending: Ok(()), ..s };
            match s.pending {
                Err(e) => (fin, dv, OpStepV::Done(Err(e))),
                Ok(_) => match outcome {
                    Err(e) => (fin, dv, OpStepV::Done(Err(e))),
                    Ok(_) => (
                        SampleRateOpV { stage: RateStage::Programming, pending: Ok(()), ..s },
                        dv,
                        OpStepV::Run(rate_batch(s.new_if, s.ratio, dv.freq_correction_ppm)),
                    ),
                },
            }
        },
        RateStage::Programming => match outcome {
            Err(e) => (over, dv, OpStepV::Done(Err(e))),
            Ok(_) => {
                let dv2 = RtlSdrView { sample_rate_hz: s.real_rate, ..dv };
                match dv.center_freq_hz {
                    Some(c) if s.new_if is Some => {
                        let (r2, st) = retune_start(c);
                        match st {
                            OpStepV::Run(cmds) => (
                                SampleRateOpV { stage: RateStage::Retuning, retune: r2, ..s },
                                dv2,
                                OpStepV::Run(cmds),
                            ),
                            OpStepV::Done(Err(e)) => (SampleRateOpV { retune: r2, ..over }, dv2, OpStepV::Done(Err(e))),
                            OpStepV::Done(Ok(_)) => (SampleRateOpV { retune: r2, ..over }, dv2, OpStepV::Done(Ok(s.real_rate))),
                        }
                    },
                    _ => (over, dv2, OpStepV::Done(Ok(s.real_rate))),
                }
            },
        },
        _ => {
            let (r2, dv2, st) = center_next(s.retune, dv, outcome);
            match st {
                OpStepV::Run(cmds) => (SampleRateOpV { retune: r2, ..s }, dv2, OpStepV::Run(cmds)),
                OpStepV::Done(Err(e)) => (SampleRateOpV { retune: r2, ..over }, dv2, OpStepV::Done(Err(e))),
                OpStepV::Done(Ok(_)) => (SampleRateOpV { retune: r2, ..over }, dv2, OpStepV::Done(Ok(s.real_rate))),
            }
        },
    }
}

impl SampleRateOp {
    pub fn new(rate: u32) -> (r: SampleRateOp)
        ensures
            r@ == rate_fresh(rate),
            rate_wf(r@),
    {
        SampleRateOp {
            rate,
            stage: RateStage::Start,
            ratio: 0,
            real_rate: 0,
            bandwidth: 0,
            new_if: None,
            pending: Ok(()),
            retune: CenterFreqOp::new(0),
        }
    }

    pub fn start(&mut self, sdr: &RtlSdr) -> (r: OpStep<u32>)
        requires
            old(self)@.stage == RateStage::Start,
            rate_wf(old(self)@),
        ensures
            (final(self)@, step_view(r)) == rate_start(old(self)@, sdr@),
            rate_wf(final(self)@),
            r is Run ==> final(self)@.stage != RateStage::Start && final(self)@.stage
                != RateStage::Over,
    {
        let (ratio, real_rate) = match sample_rate_ratio(self.rate) {
            Err(e) => {
                self.stage = RateStage::Over;
                return OpStep::Done(Err(e));
            },
            Ok(p) => p,
        };
        self.ratio = ratio;
        self.real_rate = real_rate;
        self.bandwidth = match sdr.bandwidth_hz {
            Some(b) => b,
            None => real_rate,
        };
        match &sdr.tuner {
            TunerState::R82xx(_) => {
                self.stage = RateStage::Opening;
                OpStep::Run(repeater_commands(true))
            },
            _ => {
                self.stage = RateStage::Programming;
                self.new_if = None;
                OpStep::Run(rate_commands(None, ratio, sdr.freq_correction_ppm))
            },
        }
    }

    fn close(&mut self, res: Result<(), Error>) -> (r: OpStep<u32>)
        ensures
            final(self)@ == (SampleRateOpV { stage: RateStage::Closing, pending: res, ..old(self)@ }),
            step_view(r) == OpStepV::<u32>::Run(repeater_batch(false)),
    {
        self.pending = res;
        self.stage = RateStage::Closing;
        OpStep::Run(repeater_commands(false))
    }

    pub fn resume(&mut self, sdr: &mut RtlSdr, outcome: Result<Output, Error>) -> (r: OpStep<u32>)
        requires
            old(self)@.stage != RateStage::Start,
            old(self)@.stage != RateStage::Over,
            rate_wf(old(self)@),
        ensures
            (final(self)@, final(sdr)@, step_view(r)) == rate_next(
                old(self)@,
                old(sdr)@,
                output_result_view(outcome),
            ),
            rate_wf(final(self)@),
            r is Run ==> final(self)@.stage != RateStage::Start && final(self)@.stage
                != RateStage::Over,
    {
        proof {
            reveal(rate_next);
        }
        match self.stage {
            RateStage::Opening => {
                match outcome {
                    Err(e) => {
                        self.stage = RateStage::Over;
                        return OpStep::Done(Err(e));
                    },
                    Ok(_) => {},
                }
                match &mut sdr.tuner {
                    TunerState::R82xx(t) => {
                        let (cmds, new_if) = t.set_bandwidth(self.bandwidth, self.real_rate);
                        self.new_if = Some(new_if);
                        self.stage = RateStage::InTuner;
                        OpStep::Run(cmds)
                    },
                    _ => self.close(Err(Error::TunerNotFound)),
                }
            },
            RateStage::InTuner => match outcome {
                Err(e) => self.close(Err(e)),
                Ok(_) => self.close(Ok(())),
            },
            RateStage::Closing => {
                let mut pending: Result<(), Error> = Ok(());
                std::mem::swap(&mut pending, &mut self.pending);
                match pending {
                    Err(e) => {
                        self.stage = RateStage::Over;
                        OpStep::Done(Err(e))
                    },
                    Ok(_) => match outcome {
                        Err(e) => {
                            self.stage = RateStage::Over;
                            OpStep::Done(Err(e))
                        },
                        Ok(_) => {
                            self.stage = RateStage::Programming;
                            OpStep::Run(rate_commands(self.new_if, self.ratio, sdr.freq_correction_ppm))
                        },
                    },
                }
            },
            RateStage::Programming => {
                match outcome {
                    Err(e) => {
                        self.stage = RateStage::Over;
                        return OpStep::Done(Err(e));
                    },
                    Ok(_) => {},
                }
                sdr.sample_rate_hz = self.real_rate;
                match sdr.center_freq_hz {
                    Some(c) => {
                        if self.new_if.is_some() {
                            let mut retune = CenterFreqOp::new(c);
                            let st = retune.start();
                            self.retune = retune;
                            return match st {
                                OpStep::Run(cmds) => {
                                    self.stage = RateStage::Retuning;
                                    OpStep::Run(cmds)
                                },
                                OpStep::Done(Err(e)) => {
                                    self.stage = RateStage::Over;
                                    OpStep::Done(Err(e))
                                },
                                OpStep::Done(Ok(_)) => {
                                    self.stage = RateStage::Over;
                                    OpStep::Done(Ok(self.real_rate))
                                },
                            };
                        }
                        self.stage = RateStage::Over;
                        OpStep::Done(Ok(self.real_rate))
                    },
                    None => {
                        self.stage = RateStage::Over;
                        OpStep::Done(Ok(self.real_rate))
                    },
                }
            },
            _ => {
                let st = self.retune.resume(sdr, outcome);
                match st {
                    OpStep::Run(cmds) => OpStep::Run(cmds),
                    OpStep::Done(Err(e)) => {
                        self.stage = RateStage::Over;
                        OpStep::Done(Err(e))
                    },
                    OpStep::Done(Ok(_)) => {
                        self.stage = RateStage::Over;
                        OpStep::Done(Ok(self.real_rate))
                    },
                }
            },
        }
    }
}


// ---------------------------------------------------------------------------
// Tuner probe
// ---------------------------------------------------------------------------

/// A check read of one register of a possible tuner.
pub open spec fn check_read(i2c_addr: u8, reg: u8) -> Seq<CmdV> {
    seq![CmdV::I2cReadReg { i2c_addr, reg }]
}

fn check_read_commands(i2c_addr: u8, reg: u8) -> (r: Vec<Cmd>)
    ensures
        cmds_view(r@) == check_read(i2c_addr, reg),
{
    let v = vec![Cmd::I2cReadReg { i2c_addr, reg }];
    assert(cmds_view(v@) =~= check_read(i2c_addr, reg));
    v
}

/// Whether a check read answered `value`; a failed read answers nothing.
pub open spec fn answered(outcome: Result<OutputV, Error>, value: u8) -> bool {
    outcome == Ok::<OutputV, Error>(OutputV::Byte(value))
}

fn answer(outcome: &Result<Output, Error>) -> (r: Option<u8>)
    ensures
        forall|v: u8| answered(output_result_view(*outcome), v) <==> r == Some(v),
{
    match outcome {
        Ok(Output::Byte(b)) => Some(*b),
        _ => None,
    }
}

/// The crystal of an R82xx tuner: the RTL2832U's, except on a plain R828D board.
pub open spec fn probe_xtal(kind: R82xxKind, blog_v4: bool) -> u32 {
    if kind == R82xxKind::R820T || blog_v4 {
        DEF_RTL_XTAL_FREQ
    } else {
        R828D_XTAL_FREQ
    }
}

/// A newly found R82xx tuner, before its initialisation.
pub open spec fn r82xx_found(kind: R82xxKind, xtal_hz: u32, blog_v4: bool) -> R82xxView {
    R82xxView {
        kind,
        i2c_addr: r82xx_i2c_addr(kind),
        xtal_hz,
        max_i2c_msg_len: 8,
        regs: Seq::new(NUM_REGS as nat, |i: int| 0u8),
        int_freq: R82XX_IF_FREQ,
        fil_cal_code: 0,
        input: 0,
        has_lock: false,
        is_blog_v4: blog_v4,
    }
}

/// Pulses GPIO 4, which resets the FC2580 and FC0012 on some boards.
pub open spec fn gpio_reset_batch() -> Seq<CmdV> {
    seq![
        CmdV::GpioOutput { bit: 0x10 },
        CmdV::GpioBit { bit: 0x10, enabled: true },
        CmdV::GpioBit { bit: 0x10, enabled: false },
    ]
}

#[derive(Debug, Clone, Copy, PartialEq, Eq, Structural)]
pub enum ProbeStage {
    Start,
    Opening,
    TryE4000,
    TryFc0013,
    TryR820t,
    TryR828d,
    GpioReset,
    TryFc2580,
    TryFc0012,
    Fc0012Gpio,
    Configuring,
    InInit,
    Closing,
    Over,
}

/// Finds the tuner behind the I2C repeater by reading each candidate's check register
/// in turn, and configures and initialises an R82xx; the repeater is closed again whatever
/// happened.
#[derive(Debug)]
pub struct ProbeOp {
    stage: ProbeStage,
    kind: R82xxKind,
    init: InitOp,
    pending: Result<(), Error>,
}

pub struct ProbeOpV {
    pub stage: ProbeStage,
    pub kind: R82xxKind,
    pub init: InitOpV,
    pub pending: Result<(), Error>,
}

impl View for ProbeOp {
    type V = ProbeOpV;

    closed spec fn view(&self) -> ProbeOpV {
        ProbeOpV { stage: self.stage, kind: self.kind, init: self.init@, pending: self.pending }
    }
}

pub open spec fn probe_wf(s: ProbeOpV) -> bool {
    &&& init_wf(s.init)
    &&& s.stage == ProbeStage::InInit ==> (s.init.stage != InitStage::Start && s.init.stage
        != InitStage::Over)
    &&& (s.stage != ProbeStage::InInit && s.stage != ProbeStage::Closing && s.stage
        != ProbeStage::Over) ==> s.init == init_fresh()
}

pub open spec fn probe_fresh() -> ProbeOpV {
    ProbeOpV { stage: ProbeStage::Start, kind: R82xxKind::R820T, init: init_fresh(), pending: Ok(()) }
}

#[verifier::opaque]
pub open spec fn probe_next(s: ProbeOpV, dv: RtlSdrView, outcome: Result<OutputV, Error>) -> (
    ProbeOpV,
    RtlSdrView,
    OpStepV<()>,
) {
    let over = ProbeOpV { stage: ProbeStage::Over, ..s };
    let off = OpStepV::Run(repeater_batch(false));
    let close = |res: Result<(), Error>| ProbeOpV { stage: ProbeStage::Closing, pending: res, ..s };
    let next = |stage: ProbeStage, batch: Seq<CmdV>| (ProbeOpV { stage, ..s }, dv, OpStepV::Run(batch));
    let found = |k: TunerKind| (close(Ok(())), RtlSdrView { tuner: TunerV::Unsupported(k), ..dv }, off);
    let configure = |kind: R82xxKind| (
        ProbeOpV { stage: ProbeStage::Configuring, kind, ..s },
        dv,
        OpStepV::Run(configure_batch()),
    );
    match s.stage {
        ProbeStage::Opening => match outcome {
            Err(e) => (over, dv, OpStepV::Done(Err(e))),
            Ok(_) => next(ProbeStage::TryE4000, check_read(E4K_I2C_ADDR, E4K_CHECK_ADDR)),
        },
        ProbeStage::TryE4000 => if answered(outcome, E4K_CHECK_VAL) {
            found(TunerKind::E4000)
        } else {
            next(ProbeStage::TryFc0013, check_read(FC0013_I2C_ADDR, FC0013_CHECK_ADDR))
        },
        ProbeStage::TryFc0013 => if answered(outcome, FC0013_CHECK_VAL) {
            found(TunerKind::Fc0013)
        } else {
            next(ProbeStage::TryR820t, check_read(R820T_I2C_ADDR, R82XX_CHECK_ADDR))
        },
        ProbeStage::TryR820t => if answered(outcome, R82XX_CHECK_VAL) {
            configure(R82xxKind::R820T)
        } else {
            next(ProbeStage::TryR828d, check_read(R828D_I2C_ADDR, R82XX_CHECK_ADDR))
        },
        ProbeStage::TryR828d => if answered(outcome, R82XX_CHECK_VAL) {
            configure(R82xxKind::R828D)
        } else {
            next(ProbeStage::GpioReset, gpio_reset_batch())
        },
        ProbeStage::GpioReset => match outcome {
            Err(e) => (close(Err(e)), dv, off),
            Ok(_) => next(ProbeStage::TryFc2580, check_read(FC2580_I2C_ADDR, FC2580_CHECK_ADDR)),
        },
        ProbeStage::TryFc2580 => if exists|v: u8| answered(outcome, v) && (v & 0x7f) == FC2580_CHECK_VAL {
            found(TunerKind::Fc2580)
        } else {
            next(ProbeStage::TryFc0012, check_read(FC0012_I2C_ADDR, FC0012_CHECK_ADDR))
        },
        ProbeStage::TryFc0012 => if answered(outcome, FC0012_CHECK_VAL) {
            next(ProbeStage::Fc0012Gpio, seq![CmdV::GpioOutput { bit: 0x40 }])
        } else {
            (close(Ok(())), RtlSdrView { tuner: TunerV::Unknown, ..dv }, off)
        },
        ProbeStage::Fc0012Gpio => match outcome {
            Err(e) => (close(Err(e)), dv, off),
            Ok(_) => found(TunerKind::Fc0012),
        },
        ProbeStage::Configuring => match outcome {
            Err(e) => (close(Err(e)), dv, off),
            Ok(_) => (
                ProbeOpV {
                    stage: ProbeStage::InInit,
                    init: InitOpV { stage: InitStage::Loaded, ..s.init },
                    ..s
                },
                RtlSdrView {
                    tuner: TunerV::R82xx(
                        r82xx_found(s.kind, probe_xtal(s.kind, is_blog_v4_view(dv)), is_blog_v4_view(dv)),
                    ),
                    ..dv
                },
                OpStepV::Run(init_load_batch()),
            ),
        },
        ProbeStage::InInit => match dv.tuner {
            TunerV::R82xx(tv) => {
                let (i2, t2, st) = init_next(s.init, tv, outcome);
                match st {
                    OpStepV::Run(c) => (
                        ProbeOpV { init: i2, ..s },
                        RtlSdrView { tuner: TunerV::R82xx(t2), ..dv },
                        OpStepV::Run(c),
                    ),
                    OpStepV::Done(Ok(_)) => (
                        ProbeOpV { stage: ProbeStage::Closing, init: i2, pending: Ok(()), ..s },
                        RtlSdrView { tuner: TunerV::R82xx(t2), ..dv },
                        off,
                    ),
                    OpStepV::Done(Err(e)) => (
                        ProbeOpV { stage: ProbeStage::Closing, init: i2, pending: Err(e), ..s },
                        RtlSdrView { tuner: TunerV::Unknown, ..dv },
                        off,
                    ),
                }
            },
            _ => (close(Err(Error::TunerNotFound)), dv, off),
        },
        _ => {
            let fin = ProbeOpV { stage: ProbeStage::Over, pending: Ok(()), ..s };
            match s.pending {
                Err(e) => (fin, dv, OpStepV::Done(Err(e))),
                Ok(_) => match outcome {
                    Err(e) => (fin, dv, OpStepV::Done(Err(e))),
                    Ok(_) => (fin, dv, OpStepV::Done(Ok(()))),
                },
            }
        },
    }
}

impl ProbeOp {
    pub fn new() -> (r: ProbeOp)
        ensures
            r@ == probe_fresh(),
            probe_wf(r@),
    {
        ProbeOp {
            stage: ProbeStage::Start,
            kind: R82xxKind::R820T,
            init: InitOp::new(),
            pending: Ok(()),
        }
    }

    /// Opens the repeater.
    pub fn start(&mut self) -> (r: OpStep<()>)
        requires
            old(self)@.stage == ProbeStage::Start,
            probe_wf(old(self)@),
        ensures
            final(self)@ == (ProbeOpV { stage: ProbeStage::Opening, ..old(self)@ }),
            step_view(r) == OpStepV::<()>::Run(repeater_batch(true)),
            probe_wf(final(self)@),
    {
        self.stage = ProbeStage::Opening;
        OpStep::Run(repeater_commands(true))
    }

    fn close(&mut self, res: Result<(), Error>) -> (r: OpStep<()>)
        ensures
            final(self)@ == (ProbeOpV { stage: ProbeStage::Closing, pending: res, ..old(self)@ }),
            step_view(r) == OpStepV::<()>::Run(repeater_batch(false)),
    {
        self.pending = res;
        self.stage = ProbeStage::Closing;
        OpStep::Run(repeater_commands(false))
    }

    fn next(&mut self, stage: ProbeStage, cmds: Vec<Cmd>) -> (r: OpStep<()>)
        ensures
            final(self)@ == (ProbeOpV { stage, ..old(self)@ }),
            step_view(r) == OpStepV::<()>::Run(cmds_view(cmds@)),
    {
        self.stage = stage;
        OpStep::Run(cmds)
    }

    pub fn resume(&mut self, sdr: &mut RtlSdr, outcome: Result<Output, Error>) -> (r: OpStep<()>)
        requires
            old(self)@.stage != ProbeStage::Start,
            old(self)@.stage != ProbeStage::Over,
            probe_wf(old(self)@),
        ensures
            (final(self)@, final(sdr)@, step_view(r)) == probe_next(
                old(self)@,
                old(sdr)@,
                output_result_view(outcome),
            ),
            probe_wf(final(self)@),
            r is Run ==> final(self)@.stage != ProbeStage::Start && final(self)@.stage
                != ProbeStage::Over,
    {
        proof {
            reveal(probe_next);
        }
        let got = answer(&outcome);
        match self.stage {
            ProbeStage::Opening => match outcome {
                Err(e) => {
                    self.stage = ProbeStage::Over;
                    OpStep::Done(Err(e))
                },
                Ok(_) => self.next(ProbeStage::TryE4000, check_read_commands(E4K_I2C_ADDR, E4K_CHECK_ADDR)),
            },
            ProbeStage::TryE4000 => if got == Some(E4K_CHECK_VAL) {
                sdr.tuner = TunerState::Unsupported(TunerKind::E4000);
                self.close(Ok(()))
            } else {
                self.next(ProbeStage::TryFc0013, check_read_commands(FC0013_I2C_ADDR, FC0013_CHECK_ADDR))
            },
            ProbeStage::TryFc0013 => if got == Some(FC0013_CHECK_VAL) {
                sdr.tuner = TunerState::Unsupported(TunerKind::Fc0013);
                self.close(Ok(()))
            } else {
                self.next(ProbeStage::TryR820t, check_read_commands(R820T_I2C_ADDR, R82XX_CHECK_ADDR))
            },
            ProbeStage::TryR820t => if got == Some(R82XX_CHECK_VAL) {
                self.kind = R82xxKind::R820T;
                self.next(ProbeStage::Configuring, configure_commands())
            } else {
                self.next(ProbeStage::TryR828d, check_read_commands(R828D_I2C_ADDR, R82XX_CHECK_ADDR))
            },
            ProbeStage::TryR828d => if got == Some(R82XX_CHECK_VAL) {
                self.kind = R82xxKind::R828D;
                self.next(ProbeStage::Configuring, configure_commands())
            } else {
                let v = vec![
                    Cmd::GpioOutput { bit: 0x10 },
                    Cmd::GpioBit { bit: 0x10, enabled: true },
                    Cmd::GpioBit { bit: 0x10, enabled: false },
                ];
                assert(cmds_view(v@) =~= gpio_reset_batch());
                self.next(ProbeStage::GpioReset, v)
            },
            ProbeStage::GpioReset => match outcome {
                Err(e) => self.close(Err(e)),
                Ok(_) => self.next(ProbeStage::TryFc2580, check_read_commands(FC2580_I2C_ADDR, FC2580_CHECK_ADDR)),
            },
            ProbeStage::TryFc2580 => {
                let hit = match got {
                    Some(v) => (v & 0x7f) == FC2580_CHECK_VAL,
                    None => false,
                };
                proof {
                    let o = output_result_view(outcome);
                    if hit {
                        let v = got->Some_0;
                        assert(answered(o, v));
                    } else {
                        assert forall|v: u8| answered(o, v) implies (v & 0x7f) != FC2580_CHECK_VAL by {
                            assert(got == Some(v));
                        }
                    }
                }
                if hit {
                    sdr.tuner = TunerState::Unsupported(TunerKind::Fc2580);
                    self.close(Ok(()))
                } else {
                    self.next(ProbeStage::TryFc0012, check_read_commands(FC0012_I2C_ADDR, FC0012_CHECK_ADDR))
                }
            },
            ProbeStage::TryFc0012 => if got == Some(FC0012_CHECK_VAL) {
                let v = vec![Cmd::GpioOutput { bit: 0x40 }];
                assert(cmds_view(v@) =~= seq![CmdV::GpioOutput { bit: 0x40 }]);
                self.next(ProbeStage::Fc0012Gpio, v)
            } else {
                sdr.tuner = TunerState::Unknown;
                self.close(Ok(()))
            },
            ProbeStage::Fc0012Gpio => match outcome {
                Err(e) => self.close(Err(e)),
                Ok(_) => {
                    sdr.tuner = TunerState::Unsupported(TunerKind::Fc0012);
                    self.close(Ok(()))
                },
            },
            ProbeStage::Configuring => match outcome {
                Err(e) => self.close(Err(e)),
                Ok(_) => {
                    let blog = sdr.is_blog_v4();
                    let xtal = if self.kind == R82xxKind::R820T || blog {
                        DEF_RTL_XTAL_FREQ
                    } else {
                        R828D_XTAL_FREQ
                    };
                    sdr.tuner = TunerState::R82xx(R82xx::new(self.kind, xtal, blog));
                    let st = match &mut sdr.tuner {
                        TunerState::R82xx(t) => self.init.start(t),
                        _ => {
                            return self.close(Err(Error::TunerNotFound));
                        },
                    };
                    self.stage = ProbeStage::InInit;
                    st
                },
            },
            ProbeStage::InInit => {
                let st = match &mut sdr.tuner {
                    TunerState::R82xx(t) => self.init.resume(t, outcome),
                    _ => {
                        return self.close(Err(Error::TunerNotFound));
                    },
                };
                match st {
                    OpStep::Run(c) => OpStep::Run(c),
                    OpStep::Done(Ok(_)) => self.close(Ok(())),
                    OpStep::Done(Err(e)) => {
                        sdr.tuner = TunerState::Unknown;
                        self.close(Err(e))
                    },
                }
            },
            _ => {
                self.stage = ProbeStage::Over;
                let mut pending: Result<(), Error> = Ok(());
                std::mem::swap(&mut pending, &mut self.pending);
                match pending {
                    Err(e) => OpStep::Done(Err(e)),
                    Ok(_) => match outcome {
                        Err(e) => OpStep::Done(Err(e)),
                        Ok(_) => OpStep::Done(Ok(())),
                    },
                }
            },
        }
    }
}


// ---------------------------------------------------------------------------
// Opening a dongle
// ---------------------------------------------------------------------------

/// The error of a failed step of the opening, named after the step.
pub open spec fn in_step(e: Error, operation: &'static str) -> Error {
    Error::Operation { operation, source: Box::new(e) }
}

#[derive(Debug, Clone, Copy, PartialEq, Eq, Structural)]
pub enum OpenStage {
    Start,
    Sysctl,
    Baseband,
    Probing,
    Rate,
    Fifo,
    Over,
}

/// Initialises a dongle that has just been opened: USB setup, baseband, tuner probe,
/// the default sample rate and a FIFO reset; a failure is named after the step.
#[derive(Debug)]
pub struct OpenOp {
    stage: OpenStage,
    probe: ProbeOp,
    rate: SampleRateOp,
}

pub struct OpenOpV {
    pub stage: OpenStage,
    pub probe: ProbeOpV,
    pub rate: SampleRateOpV,
}

impl View for OpenOp {
    type V = OpenOpV;

    closed spec fn view(&self) -> OpenOpV {
        OpenOpV { stage: self.stage, probe: self.probe@, rate: self.rate@ }
    }
}

pub open spec fn open_wf(s: OpenOpV) -> bool {
    &&& probe_wf(s.probe)
    &&& rate_wf(s.rate)
    &&& s.stage == OpenStage::Probing ==> (s.probe.stage != ProbeStage::Start && s.probe.stage
        != ProbeStage::Over)
    &&& s.stage == OpenStage::Rate ==> (s.rate.stage != RateStage::Start && s.rate.stage
        != RateStage::Over)
    &&& (s.stage == OpenStage::Start || s.stage == OpenStage::Sysctl || s.stage
        == OpenStage::Baseband) ==> s.probe == probe_fresh()
}

pub open spec fn open_fresh() -> OpenOpV {
    OpenOpV { stage: OpenStage::Start, probe: probe_fresh(), rate: rate_fresh(DEFAULT_SAMPLE_RATE) }
}

/// The opening's move once the sample rate is set.
pub open spec fn open_after_rate(s: OpenOpV, res: Result<u32, Error>) -> (OpenOpV, OpStepV<()>) {
    match res {
        Err(e) => (
            OpenOpV { stage: OpenStage::Over, ..s },
            OpStepV::Done(Err(in_step(e, "default sample-rate setup"))),
        ),
        Ok(_) => (OpenOpV { stage: OpenStage::Fifo, ..s }, OpStepV::Run(reset_buffer_batch())),
    }
}

#[verifier::opaque]
pub open spec fn open_next(s: OpenOpV, dv: RtlSdrView, outcome: Result<OutputV, Error>) -> (
    OpenOpV,
    RtlSdrView,
    OpStepV<()>,
) {
    let over = OpenOpV { stage: OpenStage::Over, ..s };
    match s.stage {
        OpenStage::Sysctl => match outcome {
            Err(e) => (over, dv, OpStepV::Done(Err(in_step(e, "initial USB_SYSCTL write")))),
            Ok(_) => (OpenOpV { stage: OpenStage::Baseband, ..s }, dv, OpStepV::Run(baseband_batch())),
        },
        OpenStage::Baseband => match outcome {
            Err(e) => (over, dv, OpStepV::Done(Err(in_step(e, "RTL2832 baseband initialization")))),
            Ok(_) => (
                OpenOpV {
                    stage: OpenStage::Probing,
                    probe: ProbeOpV { stage: ProbeStage::Opening, ..s.probe },
                    ..s
                },
                dv,
                OpStepV::Run(repeater_batch(true)),
            ),
        },
        OpenStage::Probing => {
            let (p2, dv2, st) = probe_next(s.probe, dv, outcome);
            match st {
                OpStepV::Run(c) => (OpenOpV { probe: p2, ..s }, dv2, OpStepV::Run(c)),
                OpStepV::Done(Err(e)) => (
                    OpenOpV { probe: p2, ..over },
                    dv2,
                    OpStepV::Done(Err(in_step(e, "tuner probe"))),
                ),
                OpStepV::Done(Ok(_)) => {
                    let (r2, rst) = rate_start(rate_fresh(DEFAULT_SAMPLE_RATE), dv2);
                    match rst {
                        OpStepV::Run(c) => (
                            OpenOpV { stage: OpenStage::Rate, probe: p2, rate: r2 },
                            dv2,
                            OpStepV::Run(c),
                        ),
                        OpStepV::Done(res) => {
                            let (o2, st2) = open_after_rate(OpenOpV { probe: p2, rate: r2, ..s }, res);
                            (o2, dv2, st2)
                        },
                    }
                },
            }
        },
        OpenStage::Rate => {
            let (r2, dv2, st) = rate_next(s.rate, dv, outcome);
            match st {
                OpStepV::Run(c) => (OpenOpV { rate: r2, ..s }, dv2, OpStepV::Run(c)),
                OpStepV::Done(res) => {
                    let (o2, st2) = open_after_rate(OpenOpV { rate: r2, ..s }, res);
                    (o2, dv2, st2)
                },
            }
        },
        _ => match outcome {
            Err(e) => (over, dv, OpStepV::Done(Err(in_step(e, "USB FIFO reset")))),
            Ok(_) => (over, dv, OpStepV::Done(Ok(()))),
        },
    }
}

impl OpenOp {
    pub fn new() -> (r: OpenOp)
        ensures
            r@ == open_fresh(),
            open_wf(r@),
    {
        OpenOp { stage: OpenStage::Start, probe: ProbeOp::new(), rate: SampleRateOp::new(DEFAULT_SAMPLE_RATE) }
    }

    /// Enables the USB block.
    pub fn start(&mut self) -> (r: OpStep<()>)
        requires
            old(self)@.stage == OpenStage::Start,
            open_wf(old(self)@),
        ensures
            final(self)@ == (OpenOpV { stage: OpenStage::Sysctl, ..old(self)@ }),
            step_view(r) == OpStepV::<()>::Run(seq![rw(USBB, USB_SYSCTL, 0x09, 1)]),
            open_wf(final(self)@),
    {
        self.stage = OpenStage::Sysctl;
        let v = vec![reg_write(USBB, USB_SYSCTL, 0x09, 1)];
        assert(cmds_view(v@) =~= seq![rw(USBB, USB_SYSCTL, 0x09, 1)]);
        OpStep::Run(v)
    }

    fn after_rate(&mut self, res: Result<u32, Error>) -> (r: OpStep<()>)
        ensures
            (final(self)@, step_view(r)) == open_after_rate(old(self)@, res),
    {
        match res {
            Err(e) => {
                self.stage = OpenStage::Over;
                OpStep::Done(Err(e.context("default sample-rate setup")))
            },
            Ok(_) => {
                self.stage = OpenStage::Fifo;
                OpStep::Run(reset_buffer_commands())
            },
        }
    }

    pub fn resume(&mut self, sdr: &mut RtlSdr, outcome: Result<Output, Error>) -> (r: OpStep<()>)
        requires
            old(self)@.stage != OpenStage::Start,
            old(self)@.stage != OpenStage::Over,
            open_wf(old(self)@),
        ensures
            (final(self)@, final(sdr)@, step_view(r)) == open_next(
                old(self)@,
                old(sdr)@,
                output_result_view(outcome),
            ),
            open_wf(final(self)@),
            r is Run ==> final(self)@.stage != OpenStage::Start && final(self)@.stage
                != OpenStage::Over,
    {
        proof {
            reveal(open_next);
        }
        match self.stage {
            OpenStage::Sysctl => match outcome {
                Err(e) => {
                    self.stage = OpenStage::Over;
                    OpStep::Done(Err(e.context("initial USB_SYSCTL write")))
                },
                Ok(_) => {
                    self.stage = OpenStage::Baseband;
                    OpStep::Run(baseband_commands())
                },
            },
            OpenStage::Baseband => match outcome {
                Err(e) => {
                    self.stage = OpenStage::Over;
                    OpStep::Done(Err(e.context("RTL2832 baseband initialization")))
                },
                Ok(_) => {
                    self.stage = OpenStage::Probing;
                    self.probe.start()
                },
            },
            OpenStage::Probing => {
                let st = self.probe.resume(sdr, outcome);
                match st {
                    OpStep::Run(c) => OpStep::Run(c),
                    OpStep::Done(Err(e)) => {
                        self.stage = OpenStage::Over;
                        OpStep::Done(Err(e.context("tuner probe")))
                    },
                    OpStep::Done(Ok(_)) => {
                        let mut rate = SampleRateOp::new(DEFAULT_SAMPLE_RATE);
                        let rst = rate.start(sdr);
                        self.rate = rate;
                        match rst {
                            OpStep::Run(c) => {
                                self.stage = OpenStage::Rate;
                                OpStep::Run(c)
                            },
                            OpStep::Done(res) => self.after_rate(res),
                        }
                    },
                }
            },
            OpenStage::Rate => {
                let st = self.rate.resume(sdr, outcome);
                match st {
                    OpStep::Run(c) => OpStep::Run(c),
                    OpStep::Done(res) => self.after_rate(res),
                }
            },
            _ => {
                self.stage = OpenStage::Over;
                match outcome {
                    Err(e) => OpStep::Done(Err(e.context("USB FIFO reset"))),
                    Ok(_) => OpStep::Done(Ok(())),
                }
            },
        }
    }
}


// ---------------------------------------------------------------------------
// Driver operations
// ---------------------------------------------------------------------------

/// What a finished operation gives back.
#[derive(Debug)]
pub enum Outcome {
    Done,
    SampleRate(u32),
    Bytes(Vec<u8>),
}

pub enum OutcomeV {
    Done,
    SampleRate(u32),
    Bytes(Seq<u8>),
}

pub open spec fn outcome_view(o: Outcome) -> OutcomeV {
    match o {
        Outcome::Done => OutcomeV::Done,
        Outcome::SampleRate(r) => OutcomeV::SampleRate(r),
        Outcome::Bytes(b) => OutcomeV::Bytes(b@),
    }
}

pub open spec fn outcome_step_view(s: OpStep<Outcome>) -> OpStepV<OutcomeV> {
    match s {
        OpStep::Run(c) => OpStepV::Run(cmds_view(c@)),
        OpStep::Done(Ok(o)) => OpStepV::Done(Ok(outcome_view(o))),
        OpStep::Done(Err(e)) => OpStepV::Done(Err(e)),
    }
}

/// An operation without a result value, seen as one with `Outcome::Done`.
pub open spec fn unit_step(s: OpStepV<()>) -> OpStepV<OutcomeV> {
    match s {
        OpStepV::Run(c) => OpStepV::Run(c),
        OpStepV::Done(Ok(_)) => OpStepV::Done(Ok(OutcomeV::Done)),
        OpStepV::Done(Err(e)) => OpStepV::Done(Err(e)),
    }
}

pub open spec fn rate_outcome_step(s: OpStepV<u32>) -> OpStepV<OutcomeV> {
    match s {
        OpStepV::Run(c) => OpStepV::Run(c),
        OpStepV::Done(Ok(r)) => OpStepV::Done(Ok(OutcomeV::SampleRate(r))),
        OpStepV::Done(Err(e)) => OpStepV::Done(Err(e)),
    }
}

fn unit_outcome(s: OpStep<()>) -> (r: OpStep<Outcome>)
    ensures
        outcome_step_view(r) == unit_step(step_view(s)),
{
    match s {
        OpStep::Run(c) => OpStep::Run(c),
        OpStep::Done(Ok(_)) => OpStep::Done(Ok(Outcome::Done)),
        OpStep::Done(Err(e)) => OpStep::Done(Err(e)),
    }
}

fn rate_outcome(s: OpStep<u32>) -> (r: OpStep<Outcome>)
    ensures
        outcome_step_view(r) == rate_outcome_step(step_view(s)),
{
    match s {
        OpStep::Run(c) => OpStep::Run(c),
        OpStep::Done(Ok(v)) => OpStep::Done(Ok(Outcome::SampleRate(v))),
        OpStep::Done(Err(e)) => OpStep::Done(Err(e)),
    }
}

/// An operation that runs one batch.
#[derive(Debug, Clone, Copy, PartialEq, Eq, Structural)]
pub enum SingleRequest {
    AgcMode(bool),
    TestMode(bool),
    ResetBuffer,
    ReadBytes(usize),
}

/// The one batch of a single-batch operation.
pub open spec fn single_batch(req: SingleRequest) -> Seq<CmdV> {
    match req {
        SingleRequest::AgcMode(enabled) => seq![
            dw(
                0,
                0x19,
                if enabled {
                    0x25
                } else {
                    0x05
                },
                1,
            ),
        ],
        SingleRequest::TestMode(enabled) => seq![
            dw(
                0,
                0x19,
                if enabled {
                    0x03
                } else {
                    0x05
                },
                1,
            ),
        ],
        SingleRequest::ResetBuffer => reset_buffer_batch(),
        SingleRequest::ReadBytes(len) => seq![
            CmdV::BulkRead {
                len: if len == 0 {
                    DEFAULT_READ_LENGTH
                } else {
                    len
                },
            },
        ],
    }
}

/// What a single-batch operation gives once its batch is over.
pub open spec fn single_result(req: SingleRequest, outcome: Result<OutputV, Error>) -> Result<OutcomeV, Error> {
    match outcome {
        Err(e) => Err(e),
        Ok(o) => match req {
            SingleRequest::ReadBytes(_) => Ok(OutcomeV::Bytes(bytes_of(o))),
            _ => Ok(OutcomeV::Done),
        },
    }
}

fn single_commands(req: SingleRequest) -> (r: Vec<Cmd>)
    ensures
        cmds_view(r@) == single_batch(req),
{
    match req {
        SingleRequest::AgcMode(enabled) => {
            let v = vec![demod_write(0, 0x19, if enabled { 0x25 } else { 0x05 }, 1)];
            assert(cmds_view(v@) =~= single_batch(req));
            v
        },
        SingleRequest::TestMode(enabled) => {
            let v = vec![demod_write(0, 0x19, if enabled { 0x03 } else { 0x05 }, 1)];
            assert(cmds_view(v@) =~= single_batch(req));
            v
        },
        SingleRequest::ResetBuffer => reset_buffer_commands(),
        SingleRequest::ReadBytes(len) => {
            let v = vec![Cmd::BulkRead { len: if len == 0 { DEFAULT_READ_LENGTH } else { len } }];
            assert(cmds_view(v@) =~= single_batch(req));
            v
        },
    }
}

/// A driver operation to run on a dongle.
#[derive(Debug, Clone, Copy, PartialEq, Eq, Structural)]
pub enum Request {
    Open,
    SetSampleRate(u32),
    SetCenterFrequency(u32),
    SetTunerGain(GainMode),
    SetBandwidth(Option<u32>),
    SetFrequencyCorrection(i32),
}

/// A driver operation in progress.
#[derive(Debug)]
pub enum Operation {
    Open(OpenOp),
    SampleRate(SampleRateOp),
    CenterFrequency(CenterFreqOp),
    TunerGain(GainOp),
    Bandwidth(BandwidthOp),
    FrequencyCorrection(CorrectionOp),
}

pub enum OperationV {
    Open(OpenOpV),
    SampleRate(SampleRateOpV),
    CenterFrequency(CenterFreqOpV),
    TunerGain(GainOpV),
    Bandwidth(BandwidthOpV),
    FrequencyCorrection(CorrectionOpV),
}

impl View for Operation {
    type V = OperationV;

    open spec fn view(&self) -> OperationV {
        match self {
            Operation::Open(o) => OperationV::Open(o@),
            Operation::SampleRate(o) => OperationV::SampleRate(o@),
            Operation::CenterFrequency(o) => OperationV::CenterFrequency(o@),
            Operation::TunerGain(o) => OperationV::TunerGain(o@),
            Operation::Bandwidth(o) => OperationV::Bandwidth(o@),
            Operation::FrequencyCorrection(o) => OperationV::FrequencyCorrection(o@),
        }
    }
}

/// The operation is waiting for the outcome of a batch it asked for.
pub open spec fn operation_running(o: OperationV) -> bool {
    match o {
        OperationV::Open(s) => open_wf(s) && s.stage != OpenStage::Start && s.stage != OpenStage::Over,
        OperationV::SampleRate(s) => rate_wf(s) && s.stage != RateStage::Start && s.stage != RateStage::Over,
        OperationV::CenterFrequency(s) => center_wf(s) && s.stage != CenterStage::Start && s.stage
            != CenterStage::Over,
        OperationV::TunerGain(s) => s.stage != RepeaterStage::Start && s.stage != RepeaterStage::Over,
        OperationV::Bandwidth(s) => bandwidth_wf(s) && s.stage != BandwidthStage::Start && s.stage
            != BandwidthStage::Over,
        OperationV::FrequencyCorrection(s) => correction_wf(s) && s.stage != CorrectionStage::Start
            && s.stage != CorrectionStage::Over,
    }
}

/// The operation of a request, before it starts.
pub open spec fn operation_fresh(req: Request) -> OperationV {
    match req {
        Request::Open => OperationV::Open(open_fresh()),
        Request::SetSampleRate(r) => OperationV::SampleRate(rate_fresh(r)),
        Request::SetCenterFrequency(f) => OperationV::CenterFrequency(center_fresh(f)),
        Request::SetTunerGain(g) => OperationV::TunerGain(
            GainOpV { gain: g, stage: RepeaterStage::Start, pending: Ok(()) },
        ),
        Request::SetBandwidth(b) => OperationV::Bandwidth(
            BandwidthOpV {
                bandwidth_hz: b,
                stage: BandwidthStage::Start,
                new_if: 0,
                pending: Ok(()),
                retune: center_fresh(0),
            },
        ),
        Request::SetFrequencyCorrection(p) => OperationV::FrequencyCorrection(
            CorrectionOpV { ppm: p, stage: CorrectionStage::Start, retune: center_fresh(0) },
        ),
    }
}

/// How the operation of a request starts on a dongle.
pub open spec fn operation_start(req: Request, dv: RtlSdrView) -> (OperationV, RtlSdrView, OpStepV<OutcomeV>) {
    match operation_fresh(req) {
        OperationV::Open(s) => (
            OperationV::Open(OpenOpV { stage: OpenStage::Sysctl, ..s }),
            dv,
            OpStepV::Run(seq![rw(USBB, USB_SYSCTL, 0x09, 1)]),
        ),
        OperationV::SampleRate(s) => {
            let (s2, st) = rate_start(s, dv);
            (OperationV::SampleRate(s2), dv, rate_outcome_step(st))
        },
        OperationV::CenterFrequency(s) => {
            let (s2, st) = center_start(s);
            (OperationV::CenterFrequency(s2), dv, unit_step(st))
        },
        OperationV::TunerGain(s) => {
            let (s2, st) = gain_start(s);
            (OperationV::TunerGain(s2), dv, unit_step(st))
        },
        OperationV::Bandwidth(s) => {
            let (s2, dv2, st) = bandwidth_start(s, dv);
            (OperationV::Bandwidth(s2), dv2, unit_step(st))
        },
        OperationV::FrequencyCorrection(s) => {
            let (s2, dv2, st) = correction_start(s, dv);
            (OperationV::FrequencyCorrection(s2), dv2, unit_step(st))
        },
    }
}

/// One move of an operation, given the outcome of the batch it asked for last.
#[verifier::opaque]
pub open spec fn operation_next(o: OperationV, dv: RtlSdrView, outcome: Result<OutputV, Error>) -> (
    OperationV,
    RtlSdrView,
    OpStepV<OutcomeV>,
) {
    match o {
        OperationV::Open(s) => {
            let (s2, dv2, st) = open_next(s, dv, outcome);
            (OperationV::Open(s2), dv2, unit_step(st))
        },
        OperationV::SampleRate(s) => {
            let (s2, dv2, st) = rate_next(s, dv, outcome);
            (OperationV::SampleRate(s2), dv2, rate_outcome_step(st))
        },
        OperationV::CenterFrequency(s) => {
            let (s2, dv2, st) = center_next(s, dv, outcome);
            (OperationV::CenterFrequency(s2), dv2, unit_step(st))
        },
        OperationV::TunerGain(s) => {
            let (s2, st) = gain_next(s, dv, outcome);
            (OperationV::TunerGain(s2), dv, unit_step(st))
        },
        OperationV::Bandwidth(s) => {
            let (s2, dv2, st) = bandwidth_next(s, dv, outcome);
            (OperationV::Bandwidth(s2), dv2, unit_step(st))
        },
        OperationV::FrequencyCorrection(s) => {
            let (s2, dv2, st) = correction_next(s, dv, outcome);
            (OperationV::FrequencyCorrection(s2), dv2, unit_step(st))
        },
    }
}

impl Operation {
    /// Starts the operation of a request: returns it, with the first batch it asks for or
    /// its result.
    pub fn start(req: Request, sdr: &mut RtlSdr) -> (r: (Operation, OpStep<Outcome>))
        ensures
            (r.0@, final(sdr)@, outcome_step_view(r.1)) == operation_start(req, old(sdr)@),
            r.1 is Run ==> operation_running(r.0@),
    {
        match req {
            Request::Open => {
                let mut op = OpenOp::new();
                let st = op.start();
                (Operation::Open(op), unit_outcome(st))
            },
            Request::SetSampleRate(rate) => {
                let mut op = SampleRateOp::new(rate);
                let st = op.start(sdr);
                (Operation::SampleRate(op), rate_outcome(st))
            },
            Request::SetCenterFrequency(f) => {
                let mut op = CenterFreqOp::new(f);
                let st = op.start();
                (Operation::CenterFrequency(op), unit_outcome(st))
            },
            Request::SetTunerGain(g) => {
                let mut op = GainOp::new(g);
                let st = op.start();
                (Operation::TunerGain(op), unit_outcome(st))
            },
            Request::SetBandwidth(b) => {
                let mut op = BandwidthOp::new(b);
                let st = op.start(sdr);
                (Operation::Bandwidth(op), unit_outcome(st))
            },
            Request::SetFrequencyCorrection(p) => {
                let mut op = CorrectionOp::new(p);
                let st = op.start(sdr);
                (Operation::FrequencyCorrection(op), unit_outcome(st))
            },
        }
    }

    /// Continues the operation with the outcome of the batch it asked for last.
    pub fn resume(&mut self, sdr: &mut RtlSdr, outcome: Result<Output, Error>) -> (r: OpStep<Outcome>)
        requires
            operation_running(old(self)@),
        ensures
            (final(self)@, final(sdr)@, outcome_step_view(r)) == operation_next(
                old(self)@,
                old(sdr)@,
                output_result_view(outcome),
            ),
            r is Run ==> operation_running(final(self)@),
    {
        proof {
            reveal(operation_next);
        }
        match self {
            Operation::Open(op) => unit_outcome(op.resume(sdr, outcome)),
            Operation::SampleRate(op) => rate_outcome(op.resume(sdr, outcome)),
            Operation::CenterFrequency(op) => unit_outcome(op.resume(sdr, outcome)),
            Operation::TunerGain(op) => unit_outcome(op.resume(sdr, outcome)),
            Operation::Bandwidth(op) => unit_outcome(op.resume(sdr, outcome)),
            Operation::FrequencyCorrection(op) => unit_outcome(op.resume(sdr, outcome)),
        }
    }
}

/// An operation that runs one batch that no tuner command is part of, so it needs
/// nothing of the dongle's state.
#[derive(Debug)]
pub struct SingleOp {
    pub request: SingleRequest,
}

impl SingleOp {
    pub fn request(&self) -> (r: SingleRequest)
        ensures
            r == self.request,
    {
        self.request
    }

    /// Starts the operation: it asks for its one batch.
    pub fn start(request: SingleRequest) -> (r: (SingleOp, OpStep<Outcome>))
        ensures
            r.0.request == request,
            outcome_step_view(r.1) == OpStepV::<OutcomeV>::Run(single_batch(request)),
    {
        (SingleOp { request }, OpStep::Run(single_commands(request)))
    }

    /// Ends the operation with the outcome of its batch.
    pub fn resume(&self, outcome: Result<Output, Error>) -> (r: OpStep<Outcome>)
        ensures
            outcome_step_view(r) == OpStepV::<OutcomeV>::Done(
                single_result(self.request, output_result_view(outcome)),
            ),
    {
        match outcome {
            Err(e) => OpStep::Done(Err(e)),
            Ok(o) => match self.request {
                SingleRequest::ReadBytes(_) => OpStep::Done(Ok(Outcome::Bytes(output_into_bytes(o)))),
                _ => OpStep::Done(Ok(Outcome::Done)),
            },
        }
    }
}

impl RtlSdr {
    /// A dongle state for a device just opened, with the operation that brings it up:
    /// baseband setup, tuner probe, the default sample rate and a FIFO reset.
    pub fn open(
        vendor_id: u16,
        product_id: u16,
        manufacturer: Option<String>,
        product: Option<String>,
    ) -> (r: (RtlSdr, Operation, OpStep<Outcome>))
        ensures
            (r.1@, r.0@, outcome_step_view(r.2)) == operation_start(
                Request::Open,
                RtlSdrView {
                    vendor_id,
                    product_id,
                    manufacturer: string_view(manufacturer),
                    product: string_view(product),
                    tuner: TunerV::Unknown,
                    sample_rate_hz: 0,
                    center_freq_hz: None,
                    bandwidth_hz: None,
                    freq_correction_ppm: 0,
                },
            ),
            r.2 is Run ==> operation_running(r.1@),
    {
        let mut sdr = RtlSdr::new(vendor_id, product_id, manufacturer, product);
        let (op, st) = Operation::start(Request::Open, &mut sdr);
        (sdr, op, st)
    }

    /// Starts setting the sample rate; the operation ends with the rate really set.
    pub fn set_sample_rate(&mut self, sample_rate_hz: u32) -> (r: (Operation, OpStep<Outcome>))
        ensures
            (r.0@, final(self)@, outcome_step_view(r.1)) == operation_start(Request::SetSampleRate(sample_rate_hz), old(self)@),
            r.1 is Run ==> operation_running(r.0@),
    {
        Operation::start(Request::SetSampleRate(sample_rate_hz), self)
    }

    /// Starts tuning to a center frequency.
    pub fn set_center_frequency(&mut self, frequency_hz: u32) -> (r: (Operation, OpStep<Outcome>))
        ensures
            (r.0@, final(self)@, outcome_step_view(r.1)) == operation_start(Request::SetCenterFrequency(frequency_hz), old(self)@),
            r.1 is Run ==> operation_running(r.0@),
    {
        Operation::start(Request::SetCenterFrequency(frequency_hz), self)
    }

    /// Starts setting the tuner gain.
    pub fn set_tuner_gain(&mut self, gain: GainMode) -> (r: (Operation, OpStep<Outcome>))
        ensures
            (r.0@, final(self)@, outcome_step_view(r.1)) == operation_start(Request::SetTunerGain(gain), old(self)@),
            r.1 is Run ==> operation_running(r.0@),
    {
        Operation::start(Request::SetTunerGain(gain), self)
    }

    /// Starts setting the IF filter bandwidth (`None`: the sample rate's).
    pub fn set_bandwidth(&mut self, bandwidth_hz: Option<u32>) -> (r: (Operation, OpStep<Outcome>))
        ensures
            (r.0@, final(self)@, outcome_step_view(r.1)) == operation_start(Request::SetBandwidth(bandwidth_hz), old(self)@),
            r.1 is Run ==> operation_running(r.0@),
    {
        Operation::start(Request::SetBandwidth(bandwidth_hz), self)
    }

    /// Starts setting the frequency correction in ppm.
    pub fn set_frequency_correction(&mut self, ppm: i32) -> (r: (Operation, OpStep<Outcome>))
        ensures
            (r.0@, final(self)@, outcome_step_view(r.1)) == operation_start(Request::SetFrequencyCorrection(ppm), old(self)@),
            r.1 is Run ==> operation_running(r.0@),
    {
        Operation::start(Request::SetFrequencyCorrection(ppm), self)
    }

    /// Starts switching the demodulator's AGC.
    pub fn set_agc_mode(&self, enabled: bool) -> (r: (SingleOp, OpStep<Outcome>))
        ensures
            r.0.request == SingleRequest::AgcMode(enabled),
            outcome_step_view(r.1) == OpStepV::<OutcomeV>::Run(single_batch(SingleRequest::AgcMode(enabled))),
    {
        SingleOp::start(SingleRequest::AgcMode(enabled))
    }

    /// Starts switching the demodulator's test mode.
    pub fn set_test_mode(&self, enabled: bool) -> (r: (SingleOp, OpStep<Outcome>))
        ensures
            r.0.request == SingleRequest::TestMode(enabled),
            outcome_step_view(r.1) == OpStepV::<OutcomeV>::Run(single_batch(SingleRequest::TestMode(enabled))),
    {
        SingleOp::start(SingleRequest::TestMode(enabled))
    }

    /// Starts resetting the USB FIFO.
    pub fn reset_buffer(&self) -> (r: (SingleOp, OpStep<Outcome>))
        ensures
            r.0.request == SingleRequest::ResetBuffer,
            outcome_step_view(r.1) == OpStepV::<OutcomeV>::Run(single_batch(SingleRequest::ResetBuffer)),
    {
        SingleOp::start(SingleRequest::ResetBuffer)
    }

    /// Starts reading `len` sample bytes (the default length for 0).
    pub fn read_bytes(&self, len: usize) -> (r: (SingleOp, OpStep<Outcome>))
        ensures
            r.0.request == SingleRequest::ReadBytes(len),
            outcome_step_view(r.1) == OpStepV::<OutcomeV>::Run(single_batch(SingleRequest::ReadBytes(len))),
    {
        SingleOp::start(SingleRequest::ReadBytes(len))
    }
}

impl RtlSdr {
    /// Advances a batch of commands on this dongle's tuner by one move.
    pub fn run(&mut self, runner: &mut Runner, reply: Option<Reply>) -> (r: RunStep)
        requires
            old(runner)@.wf(),
        ensures
            runner_moves(old(runner)@, old(self)@.tuner, reply, final(runner)@, final(self)@.tuner, r),
            final(self)@ == (RtlSdrView { tuner: final(self)@.tuner, ..old(self)@ }),
            !(r is Done) ==> final(runner)@.wf(),
    {
        runner.step(&mut self.tuner, reply)
    }
}

/// The number of bytes read for `sample_count` I/Q samples: two each, saturating.
pub fn iq_read_length(sample_count: usize) -> (r: usize)
    ensures
        r == if 2 * sample_count > usize::MAX {
            usize::MAX as int
        } else {
            2 * sample_count
        },
{
    if sample_count > usize::MAX / 2 {
        usize::MAX
    } else {
        sample_count * 2
    }
}

} // verus!
