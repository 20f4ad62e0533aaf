use vstd::prelude::*;

use crate::rtl2832::TunerKind;
use crate::text::{append_decimal, append_hex4, append_signed, decimal, hex4, signed_decimal};

verus! {

/// What a USB transfer can fail with: the same cases as the USB backend's
/// own error type, held as plain values.
#[derive(Debug, PartialEq, Eq)]
pub enum UsbError {
    DeviceNotFound,
    TransferError,
    CommunicationError(String),
    Disconnected,
    Invalid,
}

/// Everything that the driver can report.
#[derive(Debug)]
pub enum Error {
    Usb(UsbError),
    /// A failure reported by the browser's WebUSB implementation.
    WebUsb(String),
    DeviceNotFound,
    TunerNotFound,
    UnsupportedTuner(TunerKind),
    InvalidSampleRate(u32),
    InvalidFrequency(u32),
    InvalidGain(i32),
    InvalidTransferLength(usize),
    ShortTransfer { expected: usize, actual: usize },
    PllDidNotLock,
    ArithmeticOverflow,
    ControlTransfer { operation: &'static str, value: u16, index: u16, source: Box<Error> },
    Operation { operation: &'static str, source: Box<Error> },
}

impl Error {
    /// Wraps the error with the name of the driver operation that failed.
    pub fn context(self, operation: &'static str) -> (r: Error)
        ensures
            r == (Error::Operation { operation, source: Box::new(self) }),
    {
        Error::Operation { operation, source: Box::new(self) }
    }

    /// Wraps the error with the control transfer (its `wValue` and `wIndex`) that failed.
    pub fn control(self, operation: &'static str, value: u16, index: u16) -> (r: Error)
        ensures
            r == (Error::ControlTransfer { operation, value, index, source: Box::new(self) }),
    {
        Error::ControlTransfer { operation, value, index, source: Box::new(self) }
    }
}

/// Wraps the error of a failed result with the operation's name; a success passes unchanged.
pub fn with_context<T>(result: Result<T, Error>, operation: &'static str) -> (r: Result<T, Error>)
    ensures
        match result {
            Ok(v) => r == Ok::<T, Error>(v),
            Err(e) => r == Err::<T, Error>(Error::Operation { operation, source: Box::new(e) }),
        },
{
    match result {
        Ok(v) => Ok(v),
        Err(e) => Err(e.context(operation)),
    }
}

impl From<UsbError> for Error {
    fn from(value: UsbError) -> (r: Error) {
        Error::Usb(value)
    }
}

impl vstd::std_specs::convert::FromSpecImpl<UsbError> for Error {
    open spec fn obeys_from_spec() -> bool {
        true
    }

    open spec fn from_spec(v: UsbError) -> Error {
        Error::Usb(v)
    }
}

/// How the USB backend describes each of its errors.
pub open spec fn usb_error_text(e: UsbError) -> Seq<char> {
    match e {
        UsbError::DeviceNotFound => "device not found"@,
        UsbError::TransferError => "device transfer failed"@,
        UsbError::CommunicationError(_) => "device communication failed"@,
        UsbError::Disconnected => "device disconnected"@,
        UsbError::Invalid => "device no longer valid"@,
    }
}

/// The name of a tuner kind, as the enum spells it.
pub open spec fn tuner_kind_name(k: TunerKind) -> Seq<char> {
    match k {
        TunerKind::Unknown => "Unknown"@,
        TunerKind::E4000 => "E4000"@,
        TunerKind::Fc0012 => "Fc0012"@,
        TunerKind::Fc0013 => "Fc0013"@,
        TunerKind::Fc2580 => "Fc2580"@,
        TunerKind::R820T => "R820T"@,
        TunerKind::R828D => "R828D"@,
    }
}

/// The message that describes an error to a user; a wrapped error ends with the message
/// of the error it wraps.
pub open spec fn error_message(e: Error) -> Seq<char>
    decreases e,
{
    match e {
        Error::Usb(UsbError::CommunicationError(m)) => "USB communication failed: "@ + m@,
        Error::Usb(u) => "USB error: "@ + usb_error_text(u),
        Error::WebUsb(m) => "WebUSB error: "@ + m@,
        Error::DeviceNotFound => "no known RTL-SDR device found"@,
        Error::TunerNotFound => "no supported tuner was detected"@,
        Error::UnsupportedTuner(k) => "unsupported tuner: "@ + tuner_kind_name(k),
        Error::InvalidSampleRate(rate) => "invalid RTL2832 sample rate: "@ + decimal(rate as nat)
            + " Hz"@,
        Error::InvalidFrequency(freq) => "invalid frequency: "@ + decimal(freq as nat) + " Hz"@,
        Error::InvalidGain(gain) => "invalid tuner gain: "@ + signed_decimal(gain as int)
            + " tenths of a dB"@,
        Error::InvalidTransferLength(len) => "USB control transfer length is too large: "@
            + decimal(len as nat),
        Error::ShortTransfer { expected, actual } => "short USB transfer: expected "@ + decimal(
            expected as nat,
        ) + " bytes, got "@ + decimal(actual as nat),
        Error::PllDidNotLock => "R82xx tuner PLL did not lock"@,
        Error::ArithmeticOverflow => "integer overflow while configuring device"@,
        Error::ControlTransfer { operation, value, index, source } => operation@
            + " failed (value=0x"@ + hex4(value) + ", index=0x"@ + hex4(index) + "): "@
            + error_message(*source),
        Error::Operation { operation, source } => operation@ + " failed: "@ + error_message(
            *source,
        ),
    }
}

fn usb_error_str(e: &UsbError) -> (r: &'static str)
    ensures
        r@ == usb_error_text(*e),
{
    match e {
        UsbError::DeviceNotFound => "device not found",
        UsbError::TransferError => "device transfer failed",
        UsbError::CommunicationError(_) => "device communication failed",
        UsbError::Disconnected => "device disconnected",
        UsbError::Invalid => "device no longer valid",
    }
}

fn tuner_kind_str(k: TunerKind) -> (r: &'static str)
    ensures
        r@ == tuner_kind_name(k),
{
    match k {
        TunerKind::Unknown => "Unknown",
        TunerKind::E4000 => "E4000",
        TunerKind::Fc0012 => "Fc0012",
        TunerKind::Fc0013 => "Fc0013",
        TunerKind::Fc2580 => "Fc2580",
        TunerKind::R820T => "R820T",
        TunerKind::R828D => "R828D",
    }
}

impl Error {
    /// The message that describes the error to a user.
    pub fn message(&self) -> (r: String)
        ensures
            r@ == error_message(*self),
        decreases self,
    {
        let mut s = String::new();
        match self {
            Error::Usb(UsbError::CommunicationError(m)) => {
                s.append("USB communication failed: ");
                s.append(m.as_str());
            },
            Error::Usb(u) => {
                s.append("USB error: ");
                s.append(usb_error_str(u));
            },
            Error::WebUsb(m) => {
                s.append("WebUSB error: ");
                s.append(m.as_str());
            },
            Error::DeviceNotFound => s.append("no known RTL-SDR device found"),
            Error::TunerNotFound => s.append("no supported tuner was detected"),
            Error::UnsupportedTuner(k) => {
                s.append("unsupported tuner: ");
                s.append(tuner_kind_str(*k));
            },
            Error::InvalidSampleRate(rate) => {
                s.append("invalid RTL2832 sample rate: ");
                append_decimal(&mut s, *rate as u64);
                s.append(" Hz");
            },
            Error::InvalidFrequency(freq) => {
                s.append("invalid frequency: ");
                append_decimal(&mut s, *freq as u64);
                s.append(" Hz");
            },
            Error::InvalidGain(gain) => {
                s.append("invalid tuner gain: ");
                append_signed(&mut s, *gain as i64);
                s.append(" tenths of a dB");
            },
            Error::InvalidTransferLength(len) => {
                s.append("USB control transfer length is too large: ");
                append_decimal(&mut s, *len as u64);
            },
            Error::ShortTransfer { expected, actual } => {
                s.append("short USB transfer: expected ");
                append_decimal(&mut s, *expected as u64);
                s.append(" bytes, got ");
                append_decimal(&mut s, *actual as u64);
            },
            Error::PllDidNotLock => s.append("R82xx tuner PLL did not lock"),
            Error::ArithmeticOverflow => s.append("integer overflow while configuring device"),
            Error::ControlTransfer { operation, value, index, source } => {
                s.append(operation);
                s.append(" failed (value=0x");
                append_hex4(&mut s, *value);
                s.append(", index=0x");
                append_hex4(&mut s, *index);
                s.append("): ");
                let inner = source.message();
                s.append(inner.as_str());
            },
            Error::Operation { operation, source } => {
                s.append(operation);
                s.append(" failed: ");
                let inner = source.message();
                s.append(inner.as_str());
            },
        }
        proof {
            assert(s@ =~= error_message(*self));
        }
        s
    }
}

} // verus!
