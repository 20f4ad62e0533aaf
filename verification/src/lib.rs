//! An RTL2832U + R820T/R828D software-defined-radio driver as verified state machines.
//!
//! The driver's decisions live here: register encodings, the tuner's register shadow,
//! PLL, filter and gain arithmetic, and each driver operation as a state machine that asks
//! for batches of register commands and is resumed with their outcome. A [`Runner`] turns
//! a batch into USB transfers one at a time and checks every reply. Performing the
//! transfers is left to the host.
use vstd::prelude::*;

pub mod error;
pub mod laws;
pub mod r82xx;
pub mod rtl2832;
pub mod rtl_usb;
pub mod text;

pub use error::{Error, UsbError};
pub use rtl2832::{
    DEFAULT_SAMPLE_RATE, DeviceDescription, GainMode, KnownDevice, Operation, Outcome, Request,
    RtlSdr, SingleOp, SingleRequest, TunerKind, describe_device, describe_devices,
    first_known_device, iq_read_length, known_device_indexes, known_device_name, known_devices,
};
pub use rtl_usb::{Cmd, OpStep, Output, Reply, RunStep, Runner, Transfer};

verus! {

} // verus!
