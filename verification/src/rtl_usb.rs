use vstd::prelude::*;

use crate::error::{Error, UsbError};
use crate::r82xx::{
    R82xxView, bit_reversed, bitrev, in_shadow, masked, messages_view, shadow_index, write_effect,
};
use crate::rtl2832::{TunerState, TunerV, tuner_view};

verus! {

// Register blocks of the RTL2832U.
pub const USBB: u8 = 1;
pub const SYSB: u8 = 2;
pub const IICB: u8 = 6;

pub const USB_SYSCTL: u16 = 0x2000;
pub const USB_EPA_CTL: u16 = 0x2148;
pub const USB_EPA_MAXPKT: u16 = 0x2158;

pub const DEMOD_CTL: u16 = 0x3000;
pub const GPO: u16 = 0x3001;
pub const GPOE: u16 = 0x3003;
pub const GPD: u16 = 0x3004;
pub const DEMOD_CTL_1: u16 = 0x300b;

pub const DEFAULT_BULK_ENDPOINT: u8 = 0x81;

// ---------------------------------------------------------------------------
// Transfers
// ---------------------------------------------------------------------------

/// One USB transfer for the host to perform. Control transfers are vendor requests
/// to the device with `bRequest` 0.
#[derive(Debug)]
pub enum Transfer {
    ControlIn { value: u16, index: u16, length: u16 },
    ControlOut { value: u16, index: u16, data: Vec<u8> },
    BulkIn { endpoint: u8, length: usize },
}

pub enum TransferV {
    ControlIn { value: u16, index: u16, length: u16 },
    ControlOut { value: u16, index: u16, data: Seq<u8> },
    BulkIn { endpoint: u8, length: usize },
}

impl View for Transfer {
    type V = TransferV;

    open spec fn view(&self) -> TransferV {
        match self {
            Transfer::ControlIn { value, index, length } => TransferV::ControlIn {
                value: *value,
                index: *index,
                length: *length,
            },
            Transfer::ControlOut { value, index, data } => TransferV::ControlOut {
                value: *value,
                index: *index,
                data: data@,
            },
            Transfer::BulkIn { endpoint, length } => TransferV::BulkIn {
                endpoint: *endpoint,
                length: *length,
            },
        }
    }
}

/// What the host reports back for a transfer: the bytes an IN transfer brought, the
/// number of bytes an OUT transfer sent, or the failure.
#[derive(Debug)]
pub enum Reply {
    Received(Vec<u8>),
    Sent(usize),
    Failed(UsbError),
}

// ---------------------------------------------------------------------------
// Register encoding
// ---------------------------------------------------------------------------

/// The bytes of a register value of `len` bytes, most significant first.
pub open spec fn reg_value_seq(value: u16, len: usize) -> Result<Seq<u8>, Error> {
    if len == 1 {
        Ok(seq![(value & 0xff) as u8])
    } else if len == 2 {
        Ok(seq![(value >> 8u16) as u8, (value & 0xff) as u8])
    } else {
        Err(Error::InvalidTransferLength(len))
    }
}

/// Encodes a one- or two-byte register value; any other length is refused.
pub fn reg_value_bytes(value: u16, len: usize) -> (r: Result<Vec<u8>, Error>)
    ensures
        match reg_value_seq(value, len) {
            Ok(s) => r matches Ok(v) && v@ == s,
            Err(e) => r == Err::<Vec<u8>, Error>(e),
        },
{
    if len == 1 {
        let v = vec![(value & 0xff) as u8];
        Ok(v)
    } else if len == 2 {
        let v = vec![(value >> 8u16) as u8, (value & 0xff) as u8];
        Ok(v)
    } else {
        Err(Error::InvalidTransferLength(len))
    }
}

/// A register read back: one byte as is, two or more as a little-endian word of the
/// first two, nothing as 0.
pub open spec fn reg_value_of(data: Seq<u8>) -> u16 {
    if data.len() == 0 {
        0
    } else if data.len() == 1 {
        data[0] as u16
    } else {
        (data[1] as u16 * 256 + data[0] as u16) as u16
    }
}

pub fn decode_reg_value(data: &[u8]) -> (r: u16)
    ensures
        r == reg_value_of(data@),
{
    if data.len() == 0 {
        0
    } else if data.len() == 1 {
        data[0] as u16
    } else {
        let hi = data[1] as u16;
        let lo = data[0] as u16;
        assert(((hi << 8u16) | lo) == hi * 256 + lo) by (bit_vector)
            requires
                hi < 256,
                lo < 256,
        ;
        (hi << 8u16) | lo
    }
}

/// `wIndex` of a register read in `block`.
pub open spec fn read_index(block: u8) -> u16 {
    (block as u16) << 8u16
}

/// `wIndex` of a register write in `block`.
pub open spec fn write_index(block: u8) -> u16 {
    ((block as u16) << 8u16) | 0x10
}

/// `wValue` of a demodulator register access.
pub open spec fn demod_value(addr: u16) -> u16 {
    (addr << 8u16) | 0x20
}

/// `wIndex` of a demodulator register write on `page`.
pub open spec fn demod_write_index(page: u8) -> u16 {
    0x10 | page as u16
}

// ---------------------------------------------------------------------------
// Commands
// ---------------------------------------------------------------------------

/// A register-level operation; each runs as one or more transfers.
#[derive(Debug)]
pub enum Cmd {
    /// Writes a one- or two-byte value to a register of `block`.
    WriteReg { block: u8, addr: u16, value: u16, len: usize },
    /// Writes a demodulator register, then reads the demodulator back to sync.
    DemodWrite { page: u8, addr: u16, value: u16, len: usize },
    /// Reads one register of the I2C device at `i2c_addr`.
    I2cReadReg { i2c_addr: u8, reg: u8 },
    /// Makes the GPIO pins in `bit` outputs.
    GpioOutput { bit: u16 },
    /// Drives the GPIO pins in `bit` high or low.
    GpioBit { bit: u16, enabled: bool },
    /// Writes tuner registers from `reg` on, through the shadow.
    TunerWrite { reg: u8, values: Vec<u8> },
    /// Writes the `mask` bits of a tuner register from its shadowed value.
    TunerWriteMask { reg: u8, value: u8, mask: u8 },
    /// Reads `len` tuner registers from `reg` on.
    TunerRead { reg: u8, len: u16 },
    /// Reads `len` bytes of samples.
    BulkRead { len: usize },
}

pub enum CmdV {
    WriteReg { block: u8, addr: u16, value: u16, len: usize },
    DemodWrite { page: u8, addr: u16, value: u16, len: usize },
    I2cReadReg { i2c_addr: u8, reg: u8 },
    GpioOutput { bit: u16 },
    GpioBit { bit: u16, enabled: bool },
    TunerWrite { reg: u8, values: Seq<u8> },
    TunerWriteMask { reg: u8, value: u8, mask: u8 },
    TunerRead { reg: u8, len: u16 },
    BulkRead { len: usize },
}

impl View for Cmd {
    type V = CmdV;

    open spec fn view(&self) -> CmdV {
        match self {
            Cmd::WriteReg { block, addr, value, len } => CmdV::WriteReg {
                block: *block,
                addr: *addr,
                value: *value,
                len: *len,
            },
            Cmd::DemodWrite { page, addr, value, len } => CmdV::DemodWrite {
                page: *page,
                addr: *addr,
                value: *value,
                len: *len,
            },
            Cmd::I2cReadReg { i2c_addr, reg } => CmdV::I2cReadReg {
                i2c_addr: *i2c_addr,
                reg: *reg,
            },
            Cmd::GpioOutput { bit } => CmdV::GpioOutput { bit: *bit },
            Cmd::GpioBit { bit, enabled } => CmdV::GpioBit { bit: *bit, enabled: *enabled },
            Cmd::TunerWrite { reg, values } => CmdV::TunerWrite { reg: *reg, values: values@ },
            Cmd::TunerWriteMask { reg, value, mask } => CmdV::TunerWriteMask {
                reg: *reg,
                value: *value,
                mask: *mask,
            },
            Cmd::TunerRead { reg, len } => CmdV::TunerRead { reg: *reg, len: *len },
            Cmd::BulkRead { len } => CmdV::BulkRead { len: *len },
        }
    }
}

pub open spec fn cmds_view(cmds: Seq<Cmd>) -> Seq<CmdV> {
    cmds.map_values(|c: Cmd| c@)
}

/// One transfer of a command, with what is needed to check its reply.
#[derive(Debug)]
pub enum Micro {
    Out { value: u16, index: u16, data: Vec<u8>, operation: &'static str },
    In { value: u16, index: u16, length: u16, operation: &'static str },
    /// Writes back, as one byte, the register word read last with `set` bits set and
    /// `clear` bits cleared.
    OutWord { value: u16, index: u16, set: u16, clear: u16 },
    Bulk { endpoint: u8, length: usize },
}

pub enum MicroV {
    Out { value: u16, index: u16, data: Seq<u8>, operation: &'static str },
    In { value: u16, index: u16, length: u16, operation: &'static str },
    OutWord { value: u16, index: u16, set: u16, clear: u16 },
    Bulk { endpoint: u8, length: usize },
}

impl View for Micro {
    type V = MicroV;

    open spec fn view(&self) -> MicroV {
        match self {
            Micro::Out { value, index, data, operation } => MicroV::Out {
                value: *value,
                index: *index,
                data: data@,
                operation: *operation,
            },
            Micro::In { value, index, length, operation } => MicroV::In {
                value: *value,
                index: *index,
                length: *length,
                operation: *operation,
            },
            Micro::OutWord { value, index, set, clear } => MicroV::OutWord {
                value: *value,
                index: *index,
                set: *set,
                clear: *clear,
            },
            Micro::Bulk { endpoint, length } => MicroV::Bulk {
                endpoint: *endpoint,
                length: *length,
            },
        }
    }
}

pub open spec fn micros_view(ms: Seq<Micro>) -> Seq<MicroV> {
    ms.map_values(|m: Micro| m@)
}

/// How a command's result is made from the bytes read last.
#[derive(Debug, Clone, Copy, PartialEq, Eq, Structural)]
pub enum Finish {
    Nothing,
    FirstByte,
    Reversed,
    Raw,
}

/// What a command gives back.
#[derive(Debug)]
pub enum Output {
    Nothing,
    Byte(u8),
    Bytes(Vec<u8>),
}

pub enum OutputV {
    Nothing,
    Byte(u8),
    Bytes(Seq<u8>),
}

impl View for Output {
    type V = OutputV;

    open spec fn view(&self) -> OutputV {
        match self {
            Output::Nothing => OutputV::Nothing,
            Output::Byte(b) => OutputV::Byte(*b),
            Output::Bytes(v) => OutputV::Bytes(v@),
        }
    }
}

/// The control-out transfer of a register write to `block`.
pub open spec fn write_micro(block: u8, addr: u16, data: Seq<u8>) -> MicroV {
    MicroV::Out { value: addr, index: write_index(block), data, operation: "control_out" }
}

/// The control-in transfer of a register read from `block`.
pub open spec fn read_micro(block: u8, addr: u16, length: u16) -> MicroV {
    MicroV::In { value: addr, index: read_index(block), length, operation: "control_in" }
}

/// The transfers of the I2C messages of a tuner write.
pub open spec fn i2c_write_micros(i2c_addr: u8, msgs: Seq<Seq<u8>>) -> Seq<MicroV> {
    msgs.map_values(|m: Seq<u8>| write_micro(IICB, i2c_addr as u16, m))
}

/// The transfers of a command and how its result is made, given the tuner's state;
/// or the error that stops it before any transfer.
pub open spec fn cmd_script(cmd: CmdV, tuner: TunerV) -> Result<(Seq<MicroV>, Finish), Error> {
    match cmd {
        CmdV::WriteReg { block, addr, value, len } => match reg_value_seq(value, len) {
            Ok(d) => Ok((seq![write_micro(block, addr, d)], Finish::Nothing)),
            Err(e) => Err(e),
        },
        CmdV::DemodWrite { page, addr, value, len } => match reg_value_seq(value, len) {
            Ok(d) => Ok(
                (
                    seq![
                        MicroV::Out {
                            value: demod_value(addr),
                            index: demod_write_index(page),
                            data: d,
                            operation: "demod_control_out",
                        },
                        MicroV::In {
                            value: demod_value(0x01),
                            index: 0x0a,
                            length: 1,
                            operation: "demod_control_in",
                        },
                    ],
                    Finish::Nothing,
                ),
            ),
            Err(e) => Err(e),
        },
        CmdV::I2cReadReg { i2c_addr, reg } => Ok(
            (
                seq![
                    write_micro(IICB, i2c_addr as u16, seq![reg]),
                    read_micro(IICB, i2c_addr as u16, 1),
                ],
                Finish::FirstByte,
            ),
        ),
        CmdV::GpioOutput { bit } => Ok(
            (
                seq![
                    read_micro(SYSB, GPD, 1),
                    MicroV::OutWord { value: GPD, index: write_index(SYSB), set: 0, clear: bit },
                    read_micro(SYSB, GPOE, 1),
                    MicroV::OutWord { value: GPOE, index: write_index(SYSB), set: bit, clear: 0 },
                ],
                Finish::Nothing,
            ),
        ),
        CmdV::GpioBit { bit, enabled } => Ok(
            (
                seq![
                    read_micro(SYSB, GPO, 1),
                    MicroV::OutWord {
                        value: GPO,
                        index: write_index(SYSB),
                        set: if enabled {
                            bit
                        } else {
                            0
                        },
                        clear: if enabled {
                            0
                        } else {
                            bit
                        },
                    },
                ],
                Finish::Nothing,
            ),
        ),
        CmdV::TunerWrite { reg, values } => match tuner {
            TunerV::R82xx(t) => Ok(
                (
                    i2c_write_micros(t.i2c_addr, write_effect(t.regs, reg, values).1),
                    Finish::Nothing,
                ),
            ),
            _ => Err(Error::TunerNotFound),
        },
        CmdV::TunerWriteMask { reg, value, mask } => match tuner {
            TunerV::R82xx(t) => if in_shadow(reg, 1) {
                Ok(
                    (
                        i2c_write_micros(
                            t.i2c_addr,
                            write_effect(
                                t.regs,
                                reg,
                                seq![masked(t.regs[shadow_index(reg)], value, mask)],
                            ).1,
                        ),
                        Finish::Nothing,
                    ),
                )
            } else {
                Err(Error::ArithmeticOverflow)
            },
            _ => Err(Error::TunerNotFound),
        },
        CmdV::TunerRead { reg, len } => match tuner {
            TunerV::R82xx(t) => Ok(
                (
                    seq![
                        write_micro(IICB, t.i2c_addr as u16, seq![reg]),
                        read_micro(IICB, t.i2c_addr as u16, len),
                    ],
                    Finish::Reversed,
                ),
            ),
            _ => Err(Error::TunerNotFound),
        },
        CmdV::BulkRead { len } => Ok(
            (seq![MicroV::Bulk { endpoint: DEFAULT_BULK_ENDPOINT, length: len }], Finish::Raw),
        ),
    }
}

/// The tuner's shadow after a command has been started.
pub open spec fn cmd_tuner_regs(cmd: CmdV, t: R82xxView) -> Seq<u8> {
    match cmd {
        CmdV::TunerWrite { reg, values } => write_effect(t.regs, reg, values).0,
        CmdV::TunerWriteMask { reg, value, mask } => if in_shadow(reg, 1) {
            write_effect(t.regs, reg, seq![masked(t.regs[shadow_index(reg)], value, mask)]).0
        } else {
            t.regs
        },
        _ => t.regs,
    }
}

/// Starting a command changes at most the tuner's shadow.
pub open spec fn cmd_tuner_after(cmd: CmdV, t: TunerV) -> TunerV {
    match t {
        TunerV::R82xx(r) => TunerV::R82xx(R82xxView { regs: cmd_tuner_regs(cmd, r), ..r }),
        _ => t,
    }
}

fn i2c_write_transfers(i2c_addr: u8, msgs: Vec<Vec<u8>>) -> (r: Vec<Micro>)
    ensures
        micros_view(r@) == i2c_write_micros(i2c_addr, messages_view(msgs@)),
{
    let mut out: Vec<Micro> = Vec::new();
    let mut msgs = msgs;
    let ghost all = messages_view(msgs@);
    let ghost n = msgs@.len();
    let mut rest: Vec<Vec<u8>> = Vec::new();
    // Reverse first so that messages can be taken off the end in order.
    while msgs.len() > 0
        invariant
            messages_view(msgs@) + messages_view(rest@).reverse() == all,
        decreases msgs.len(),
    {
        let ghost before_msgs = messages_view(msgs@);
        let ghost before_rest = messages_view(rest@);
        let m = msgs.pop().unwrap();
        rest.push(m);
        assert(messages_view(msgs@) =~= before_msgs.drop_last());
        assert(messages_view(rest@) =~= before_rest.push(m@));
        assert(messages_view(rest@).reverse() =~= seq![m@] + before_rest.reverse());
        assert(before_msgs =~= before_msgs.drop_last().push(m@));
        assert(messages_view(msgs@) + messages_view(rest@).reverse() =~= before_msgs
            + before_rest.reverse());
    }
    assert(messages_view(msgs@) =~= Seq::<Seq<u8>>::empty());
    assert(messages_view(rest@).reverse() =~= all);
    while rest.len() > 0
        invariant
            micros_view(out@) + i2c_write_micros(i2c_addr, messages_view(rest@).reverse())
                == i2c_write_micros(i2c_addr, all),
        decreases rest.len(),
    {
        let ghost before_rest = messages_view(rest@);
        let ghost before_out = micros_view(out@);
        let m = rest.pop().unwrap();
        assert(messages_view(rest@) =~= before_rest.drop_last());
        assert(before_rest.reverse() =~= seq![m@] + messages_view(rest@).reverse());
        out.push(
            Micro::Out {
                value: i2c_addr as u16,
                index: ((IICB as u16) << 8u16) | 0x10,
                data: m,
                operation: "control_out",
            },
        );
        assert(micros_view(out@) =~= before_out.push(write_micro(IICB, i2c_addr as u16, m@)));
        assert(i2c_write_micros(i2c_addr, before_rest.reverse()) =~= seq![
            write_micro(IICB, i2c_addr as u16, m@),
        ] + i2c_write_micros(i2c_addr, messages_view(rest@).reverse()));
        assert(micros_view(out@) + i2c_write_micros(i2c_addr, messages_view(rest@).reverse())
            =~= before_out + i2c_write_micros(i2c_addr, before_rest.reverse()));
    }
    assert(messages_view(rest@).reverse() =~= Seq::<Seq<u8>>::empty());
    assert(i2c_write_micros(i2c_addr, Seq::<Seq<u8>>::empty()) =~= Seq::<MicroV>::empty());
    out
}

/// Starts a command: returns its transfers and result rule, and updates the tuner's
/// shadow for a tuner write.
pub fn expand(cmd: &Cmd, tuner: &mut TunerState) -> (r: Result<(Vec<Micro>, Finish), Error>)
    ensures
        tuner_view(*final(tuner)) == cmd_tuner_after(cmd@, tuner_view(*old(tuner))),
        match cmd_script(cmd@, tuner_view(*old(tuner))) {
            Ok((ms, f)) => r matches Ok((v, g)) && micros_view(v@) == ms && g == f,
            Err(e) => r == Err::<(Vec<Micro>, Finish), Error>(e),
        },
{
    match cmd {
        Cmd::WriteReg { block, addr, value, len } => {
            let data = match reg_value_bytes(*value, *len) {
                Ok(d) => d,
                Err(e) => {
                    return Err(e);
                },
            };
            let ghost d = data@;
            let ms = vec![Micro::Out { value: *addr, index: ((*block as u16) << 8u16) | 0x10, data, operation: "control_out" }];
            assert(micros_view(ms@) =~= seq![write_micro(*block, *addr, d)]);
            Ok((ms, Finish::Nothing))
        },
        Cmd::DemodWrite { page, addr, value, len } => {
            let data = match reg_value_bytes(*value, *len) {
                Ok(d) => d,
                Err(e) => {
                    return Err(e);
                },
            };
            let ghost d = data@;
            let ms = vec![
                Micro::Out {
                    value: (*addr << 8u16) | 0x20,
                    index: 0x10 | *page as u16,
                    data,
                    operation: "demod_control_out",
                },
                Micro::In {
                    value: (0x01u16 << 8u16) | 0x20,
                    index: 0x0a,
                    length: 1,
                    operation: "demod_control_in",
                },
            ];
            assert(micros_view(ms@) =~= cmd_script(cmd@, tuner_view(*old(tuner)))->Ok_0.0);
            Ok((ms, Finish::Nothing))
        },
        Cmd::I2cReadReg { i2c_addr, reg } => {
            let data = vec![*reg];
            assert(data@ =~= seq![*reg]);
            let ms = vec![
                Micro::Out { value: *i2c_addr as u16, index: ((IICB as u16) << 8u16) | 0x10, data, operation: "control_out" },
                Micro::In { value: *i2c_addr as u16, index: (IICB as u16) << 8u16, length: 1, operation: "control_in" },
            ];
            assert(micros_view(ms@) =~= cmd_script(cmd@, tuner_view(*old(tuner)))->Ok_0.0);
            Ok((ms, Finish::FirstByte))
        },
        Cmd::GpioOutput { bit } => {
            let ms = vec![
                Micro::In { value: GPD, index: (SYSB as u16) << 8u16, length: 1, operation: "control_in" },
                Micro::OutWord { value: GPD, index: ((SYSB as u16) << 8u16) | 0x10, set: 0, clear: *bit },
                Micro::In { value: GPOE, index: (SYSB as u16) << 8u16, length: 1, operation: "control_in" },
                Micro::OutWord { value: GPOE, index: ((SYSB as u16) << 8u16) | 0x10, set: *bit, clear: 0 },
            ];
            assert(micros_view(ms@) =~= cmd_script(cmd@, tuner_view(*old(tuner)))->Ok_0.0);
            Ok((ms, Finish::Nothing))
        },
        Cmd::GpioBit { bit, enabled } => {
            let set: u16 = if *enabled {
                *bit
            } else {
                0
            };
            let clear: u16 = if *enabled {
                0
            } else {
                *bit
            };
            let ms = vec![
                Micro::In { value: GPO, index: (SYSB as u16) << 8u16, length: 1, operation: "control_in" },
                Micro::OutWord { value: GPO, index: ((SYSB as u16) << 8u16) | 0x10, set, clear },
            ];
            assert(micros_view(ms@) =~= cmd_script(cmd@, tuner_view(*old(tuner)))->Ok_0.0);
            Ok((ms, Finish::Nothing))
        },
        Cmd::TunerWrite { reg, values } => match tuner {
            TunerState::R82xx(t) => {
                let msgs = t.prepare_write(*reg, values.as_slice());
                let ms = i2c_write_transfers(t.i2c_addr(), msgs);
                Ok((ms, Finish::Nothing))
            },
            _ => Err(Error::TunerNotFound),
        },
        Cmd::TunerWriteMask { reg, value, mask } => match tuner {
            TunerState::R82xx(t) => {
                let addr = t.i2c_addr();
                match t.prepare_write_mask(*reg, *value, *mask) {
                    Ok(msgs) => {
                        let ms = i2c_write_transfers(addr, msgs);
                        Ok((ms, Finish::Nothing))
                    },
                    Err(e) => Err(e),
                }
            },
            _ => Err(Error::TunerNotFound),
        },
        Cmd::TunerRead { reg, len } => match tuner {
            TunerState::R82xx(t) => {
                let addr = t.i2c_addr();
                let data = vec![*reg];
                assert(data@ =~= seq![*reg]);
                let ms = vec![
                    Micro::Out { value: addr as u16, index: ((IICB as u16) << 8u16) | 0x10, data, operation: "control_out" },
                    Micro::In { value: addr as u16, index: (IICB as u16) << 8u16, length: *len, operation: "control_in" },
                ];
                assert(micros_view(ms@) =~= cmd_script(cmd@, tuner_view(*old(tuner)))->Ok_0.0);
                Ok((ms, Finish::Reversed))
            },
            _ => Err(Error::TunerNotFound),
        },
        Cmd::BulkRead { len } => {
            let ms = vec![Micro::Bulk { endpoint: DEFAULT_BULK_ENDPOINT, length: *len }];
            assert(micros_view(ms@) =~= cmd_script(cmd@, tuner_view(*old(tuner)))->Ok_0.0);
            Ok((ms, Finish::Raw))
        },
    }
}

// ---------------------------------------------------------------------------
// Operations
// ---------------------------------------------------------------------------

/// What an operation asks for next: a batch of commands to run, whose outcome it is
/// then resumed with, or its result.
#[derive(Debug)]
pub enum OpStep<T> {
    Run(Vec<Cmd>),
    Done(Result<T, Error>),
}

/// What an operation asks for next, as plain values.
pub enum OpStepV<T> {
    Run(Seq<CmdV>),
    Done(Result<T, Error>),
}

pub open spec fn step_view<T>(s: OpStep<T>) -> OpStepV<T> {
    match s {
        OpStep::Run(c) => OpStepV::Run(cmds_view(c@)),
        OpStep::Done(r) => OpStepV::Done(r),
    }
}

/// The bytes a batch brought back, empty where it brought none.
pub open spec fn bytes_of(o: OutputV) -> Seq<u8> {
    match o {
        OutputV::Bytes(v) => v,
        OutputV::Byte(b) => seq![b],
        OutputV::Nothing => seq![],
    }
}

pub open spec fn output_bytes(o: Output) -> Seq<u8> {
    bytes_of(o@)
}

pub fn output_into_bytes(o: Output) -> (r: Vec<u8>)
    ensures
        r@ == output_bytes(o),
{
    match o {
        Output::Bytes(v) => v,
        Output::Byte(b) => {
            let v = vec![b];
            assert(v@ =~= seq![b]);
            v
        },
        Output::Nothing => Vec::new(),
    }
}

/// A masked write of one tuner register.
pub open spec fn wm(reg: u8, value: u8, mask: u8) -> CmdV {
    CmdV::TunerWriteMask { reg, value, mask }
}

pub fn write_mask(reg: u8, value: u8, mask: u8) -> (c: Cmd)
    ensures
        c@ == wm(reg, value, mask),
{
    Cmd::TunerWriteMask { reg, value, mask }
}

/// A one-byte write of a tuner register.
pub open spec fn wr(reg: u8, value: u8) -> CmdV {
    CmdV::TunerWrite { reg, values: seq![value] }
}

pub fn write_reg(reg: u8, value: u8) -> (c: Cmd)
    ensures
        c@ == wr(reg, value),
{
    let values = vec![value];
    assert(values@ =~= seq![value]);
    Cmd::TunerWrite { reg, values }
}

// ---------------------------------------------------------------------------
// Running a batch of commands
// ---------------------------------------------------------------------------

/// The transfer of a step, given the register word read last.
pub open spec fn micro_transfer(m: MicroV, word: u16) -> TransferV {
    match m {
        MicroV::Out { value, index, data, .. } => TransferV::ControlOut { value, index, data },
        MicroV::In { value, index, length, .. } => TransferV::ControlIn { value, index, length },
        MicroV::OutWord { value, index, set, clear } => TransferV::ControlOut {
            value,
            index,
            data: seq![(((word | set) & !clear) & 0xff) as u8],
        },
        MicroV::Bulk { endpoint, length } => TransferV::BulkIn { endpoint, length },
    }
}

/// A control-out step whose data does not fit a control transfer fails before it is sent.
pub open spec fn micro_too_long(m: MicroV) -> bool {
    m matches MicroV::Out { data, .. } && data.len() > 0xffff
}

/// The error of a failed control transfer.
pub open spec fn control_failure(e: UsbError, operation: &'static str, value: u16, index: u16) -> Error {
    Error::ControlTransfer { operation, value, index, source: Box::new(Error::Usb(e)) }
}

/// What the reply to a step gives: the bytes read, nothing for a complete OUT transfer,
/// or the error. A reply of the wrong kind, or none, counts as a failed transfer.
pub open spec fn micro_reply(m: MicroV, reply: Option<Reply>) -> Result<Option<Seq<u8>>, Error> {
    match m {
        MicroV::Out { value, index, data, operation } => match reply {
            Some(Reply::Sent(n)) => if n == data.len() {
                Ok(None)
            } else {
                Err(Error::ShortTransfer { expected: data.len() as usize, actual: n })
            },
            Some(Reply::Failed(e)) => Err(control_failure(e, operation, value, index)),
            _ => Err(control_failure(UsbError::TransferError, operation, value, index)),
        },
        MicroV::OutWord { value, index, .. } => match reply {
            Some(Reply::Sent(n)) => if n == 1 {
                Ok(None)
            } else {
                Err(Error::ShortTransfer { expected: 1, actual: n })
            },
            Some(Reply::Failed(e)) => Err(control_failure(e, "control_out", value, index)),
            _ => Err(control_failure(UsbError::TransferError, "control_out", value, index)),
        },
        MicroV::In { value, index, operation, .. } => match reply {
            Some(Reply::Received(d)) => Ok(Some(d@)),
            Some(Reply::Failed(e)) => Err(control_failure(e, operation, value, index)),
            _ => Err(control_failure(UsbError::TransferError, operation, value, index)),
        },
        MicroV::Bulk { .. } => match reply {
            Some(Reply::Received(d)) => Ok(Some(d@)),
            Some(Reply::Failed(e)) => Err(Error::Usb(e)),
            _ => Err(Error::Usb(UsbError::TransferError)),
        },
    }
}

/// A command's result, made from the bytes it read last.
pub open spec fn finish_output(f: Finish, data: Seq<u8>) -> Result<OutputV, Error> {
    match f {
        Finish::Nothing => Ok(OutputV::Nothing),
        Finish::FirstByte => if data.len() > 0 {
            Ok(OutputV::Byte(data[0]))
        } else {
            Err(Error::ShortTransfer { expected: 1, actual: 0 })
        },
        Finish::Reversed => Ok(OutputV::Bytes(data.map_values(|b: u8| bit_reversed(b)))),
        Finish::Raw => Ok(OutputV::Bytes(data)),
    }
}

pub open spec fn output_result_view(r: Result<Output, Error>) -> Result<OutputV, Error> {
    match r {
        Ok(o) => Ok(o@),
        Err(e) => Err(e),
    }
}

/// Runs a batch of commands one transfer at a time; the batch stops at the first failure.
pub struct Runner {
    cmds: Vec<Cmd>,
    next_cmd: usize,
    micros: Vec<Micro>,
    next_micro: usize,
    finish: Finish,
    data: Vec<u8>,
    word: u16,
    output: Output,
    awaiting: bool,
    active: bool,
}

pub struct RunnerV {
    pub cmds: Seq<CmdV>,
    pub next_cmd: int,
    pub micros: Seq<MicroV>,
    pub next_micro: int,
    pub finish: Finish,
    pub data: Seq<u8>,
    pub word: u16,
    pub output: OutputV,
    pub awaiting: bool,
    pub active: bool,
}

impl View for Runner {
    type V = RunnerV;

    closed spec fn view(&self) -> RunnerV {
        RunnerV {
            cmds: cmds_view(self.cmds@),
            next_cmd: self.next_cmd as int,
            micros: micros_view(self.micros@),
            next_micro: self.next_micro as int,
            finish: self.finish,
            data: self.data@,
            word: self.word,
            output: self.output@,
            awaiting: self.awaiting,
            active: self.active,
        }
    }
}

/// What a step of a batch gives.
#[derive(Debug)]
pub enum RunStep {
    /// Perform this transfer and hand its reply to the next step.
    Send(Transfer),
    /// Nothing to send; step again.
    Busy,
    /// The batch is over: the output of its last command, or the first failure.
    Done(Result<Output, Error>),
}

impl RunnerV {
    pub open spec fn wf(self) -> bool {
        &&& 0 <= self.next_cmd <= self.cmds.len()
        &&& 0 <= self.next_micro <= self.micros.len()
        &&& self.awaiting ==> self.active && self.next_micro < self.micros.len()
    }
}

fn copy_bytes(v: &Vec<u8>) -> (r: Vec<u8>)
    ensures
        r@ == v@,
{
    let mut out: Vec<u8> = Vec::new();
    let mut i: usize = 0;
    while i < v.len()
        invariant
            i <= v.len(),
            out@ == v@.subrange(0, i as int),
        decreases v.len() - i,
    {
        out.push(v[i]);
        i = i + 1;
        assert(out@ =~= v@.subrange(0, i as int));
    }
    assert(v@.subrange(0, v.len() as int) =~= v@);
    out
}

fn reversed_bytes(v: &Vec<u8>) -> (r: Vec<u8>)
    ensures
        r@ == v@.map_values(|b: u8| bit_reversed(b)),
{
    let mut out: Vec<u8> = Vec::new();
    let mut i: usize = 0;
    while i < v.len()
        invariant
            i <= v.len(),
            out@ == v@.subrange(0, i as int).map_values(|b: u8| bit_reversed(b)),
        decreases v.len() - i,
    {
        let b = bitrev(v[i]);
        out.push(b);
        i = i + 1;
        assert(out@ =~= v@.subrange(0, i as int).map_values(|b: u8| bit_reversed(b)));
    }
    assert(v@.subrange(0, v.len() as int) =~= v@);
    out
}

/// One move of a batch: from runner state `s` and tuner `t0`, given the reply to the
/// transfer sent last, to runner state `n` and tuner `t1`, giving `r`.
pub open spec fn runner_moves(
    s: RunnerV,
    t0: TunerV,
    reply: Option<Reply>,
    n: RunnerV,
    t1: TunerV,
    r: RunStep,
) -> bool {
    if s.awaiting {
        &&& t1 == t0
        &&& match micro_reply(s.micros[s.next_micro], reply) {
            Err(e) => r matches RunStep::Done(res) && res == Err::<Output, Error>(e),
            Ok(got) => {
                &&& r is Busy
                &&& n == (RunnerV {
                    awaiting: false,
                    next_micro: s.next_micro + 1,
                    data: match got {
                        Some(d) => d,
                        None => s.data,
                    },
                    word: match got {
                        Some(d) => reg_value_of(d),
                        None => s.word,
                    },
                    ..s
                })
            },
        }
    } else if s.active {
        &&& t1 == t0
        &&& if s.next_micro < s.micros.len() {
            let m = s.micros[s.next_micro];
            if micro_too_long(m) {
                r matches RunStep::Done(res) && res == Err::<Output, Error>(
                    Error::InvalidTransferLength(m->Out_data.len() as usize),
                )
            } else {
                &&& r matches RunStep::Send(t) && t@ == micro_transfer(m, s.word)
                &&& n == (RunnerV { awaiting: true, ..s })
            }
        } else {
            match finish_output(s.finish, s.data) {
                Err(e) => r matches RunStep::Done(res) && res == Err::<Output, Error>(e),
                Ok(o) => {
                    &&& r is Busy
                    &&& n == (RunnerV { active: false, output: o, ..s })
                },
            }
        }
    } else if s.next_cmd < s.cmds.len() {
        &&& t1 == cmd_tuner_after(s.cmds[s.next_cmd], t0)
        &&& match cmd_script(s.cmds[s.next_cmd], t0) {
            Err(e) => r matches RunStep::Done(res) && res == Err::<Output, Error>(e),
            Ok((ms, f)) => {
                &&& r is Busy
                &&& n == (RunnerV {
                    next_cmd: s.next_cmd + 1,
                    micros: ms,
                    next_micro: 0,
                    finish: f,
                    data: seq![],
                    word: 0,
                    active: true,
                    ..s
                })
            },
        }
    } else {
        &&& t1 == t0
        &&& r matches RunStep::Done(res) && output_result_view(res) == Ok::<
            OutputV,
            Error,
        >(s.output)
    }
}

impl Runner {
    /// A runner that has not started the batch yet.
    pub fn new(cmds: Vec<Cmd>) -> (r: Runner)
        ensures
            r@ == (RunnerV {
                cmds: cmds_view(cmds@),
                next_cmd: 0,
                micros: seq![],
                next_micro: 0,
                finish: Finish::Nothing,
                data: seq![],
                word: 0,
                output: OutputV::Nothing,
                awaiting: false,
                active: false,
            }),
            r@.wf(),
    {
        let r = Runner {
            cmds,
            next_cmd: 0,
            micros: Vec::new(),
            next_micro: 0,
            finish: Finish::Nothing,
            data: Vec::new(),
            word: 0,
            output: Output::Nothing,
            awaiting: false,
            active: false,
        };
        assert(micros_view(r.micros@) =~= seq![]);
        r
    }

    /// Advances a batch in which no command touches the tuner by one move.
    pub fn step_without_tuner(&mut self, reply: Option<Reply>) -> (r: RunStep)
        requires
            old(self)@.wf(),
        ensures
            runner_moves(old(self)@, TunerV::Unknown, reply, final(self)@, TunerV::Unknown, r),
            !(r is Done) ==> final(self)@.wf(),
    {
        let mut none = TunerState::Unknown;
        self.step(&mut none, reply)
    }

    /// Advances the batch by one move: checks the reply to the transfer sent last, sends
    /// the next transfer of the current command, finishes it, or starts the next command.
    pub fn step(&mut self, tuner: &mut TunerState, reply: Option<Reply>) -> (r: RunStep)
        requires
            old(self)@.wf(),
        ensures
            runner_moves(
                old(self)@,
                tuner_view(*old(tuner)),
                reply,
                final(self)@,
                tuner_view(*final(tuner)),
                r,
            ),
            !(r is Done) ==> final(self)@.wf(),
    {
        if self.awaiting {
            assert(micros_view(self.micros@).len() == self.micros@.len());
            assert(self.next_micro < self.micros.len());
            self.awaiting = false;
            let got: Option<Vec<u8>> = match &self.micros[self.next_micro] {
                Micro::Out { value, index, data, operation } => match reply {
                    Some(Reply::Sent(n)) => {
                        if n == data.len() {
                            None
                        } else {
                            return RunStep::Done(
                                Err(Error::ShortTransfer { expected: data.len(), actual: n }),
                            );
                        }
                    },
                    Some(Reply::Failed(e)) => {
                        return RunStep::Done(Err(Error::Usb(e).control(operation, *value, *index)));
                    },
                    _ => {
                        return RunStep::Done(
                            Err(Error::Usb(UsbError::TransferError).control(operation, *value, *index)),
                        );
                    },
                },
                Micro::OutWord { value, index, .. } => match reply {
                    Some(Reply::Sent(n)) => {
                        if n == 1 {
                            None
                        } else {
                            return RunStep::Done(
                                Err(Error::ShortTransfer { expected: 1, actual: n }),
                            );
                        }
                    },
                    Some(Reply::Failed(e)) => {
                        return RunStep::Done(Err(Error::Usb(e).control("control_out", *value, *index)));
                    },
                    _ => {
                        return RunStep::Done(
                            Err(Error::Usb(UsbError::TransferError).control("control_out", *value, *index)),
                        );
                    },
                },
                Micro::In { value, index, operation, .. } => match reply {
                    Some(Reply::Received(d)) => Some(d),
                    Some(Reply::Failed(e)) => {
                        return RunStep::Done(Err(Error::Usb(e).control(operation, *value, *index)));
                    },
                    _ => {
                        return RunStep::Done(
                            Err(Error::Usb(UsbError::TransferError).control(operation, *value, *index)),
                        );
                    },
                },
                Micro::Bulk { .. } => match reply {
                    Some(Reply::Received(d)) => Some(d),
                    Some(Reply::Failed(e)) => {
                        return RunStep::Done(Err(Error::Usb(e)));
                    },
                    _ => {
                        return RunStep::Done(Err(Error::Usb(UsbError::TransferError)));
                    },
                },
            };
            self.next_micro = self.next_micro + 1;
            match got {
                Some(d) => {
                    self.word = decode_reg_value(d.as_slice());
                    self.data = d;
                },
                None => {},
            }
            return RunStep::Busy;
        }
        if self.active {
            if self.next_micro < self.micros.len() {
                let t = match &self.micros[self.next_micro] {
                    Micro::Out { value, index, data, .. } => {
                        if data.len() > 0xffff {
                            return RunStep::Done(Err(Error::InvalidTransferLength(data.len())));
                        }
                        Transfer::ControlOut { value: *value, index: *index, data: copy_bytes(data) }
                    },
                    Micro::In { value, index, length, .. } => Transfer::ControlIn {
                        value: *value,
                        index: *index,
                        length: *length,
                    },
                    Micro::OutWord { value, index, set, clear } => {
                        let b = (((self.word | *set) & !*clear) & 0xff) as u8;
                        let data = vec![b];
                        assert(data@ =~= seq![b]);
                        Transfer::ControlOut { value: *value, index: *index, data }
                    },
                    Micro::Bulk { endpoint, length } => Transfer::BulkIn {
                        endpoint: *endpoint,
                        length: *length,
                    },
                };
                self.awaiting = true;
                return RunStep::Send(t);
            }
            let out = match self.finish {
                Finish::Nothing => Output::Nothing,
                Finish::FirstByte => {
                    if self.data.len() > 0 {
                        Output::Byte(self.data[0])
                    } else {
                        return RunStep::Done(Err(Error::ShortTransfer { expected: 1, actual: 0 }));
                    }
                },
                Finish::Reversed => Output::Bytes(reversed_bytes(&self.data)),
                Finish::Raw => Output::Bytes(copy_bytes(&self.data)),
            };
            self.active = false;
            self.output = out;
            return RunStep::Busy;
        }
        if self.next_cmd < self.cmds.len() {
            let started = expand(&self.cmds[self.next_cmd], tuner);
            match started {
                Err(e) => {
                    return RunStep::Done(Err(e));
                },
                Ok((ms, f)) => {
                    self.next_cmd = self.next_cmd + 1;
                    self.micros = ms;
                    self.next_micro = 0;
                    self.finish = f;
                    self.data = Vec::new();
                    self.word = 0;
                    self.active = true;
                    return RunStep::Busy;
                },
            }
        }
        let out = match &self.output {
            Output::Nothing => Output::Nothing,
            Output::Byte(b) => Output::Byte(*b),
            Output::Bytes(v) => Output::Bytes(copy_bytes(v)),
        };
        RunStep::Done(Ok(out))
    }
}

} // verus!
