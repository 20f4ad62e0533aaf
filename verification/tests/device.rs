use rtlsdr_pure::{
    Error, GainMode, OpStep, Operation, Outcome, Reply, Request, RtlSdr, RunStep, Runner,
    SingleOp, SingleRequest, Transfer, TunerKind, UsbError, DEFAULT_SAMPLE_RATE,
};

/// A dongle in memory: answers every transfer and records what was sent.
struct FakeDongle {
    /// The I2C address the tuner answers on, and the bytes its registers read as on the wire.
    tuner: Option<(u8, Vec<u8>)>,
    /// Fail every transfer from this one on (counted from 0).
    fail_from: Option<usize>,
    /// Report one byte fewer than asked for on control-out transfers.
    short_writes: bool,
    log: Vec<Transfer>,
}

const IIC_READ_INDEX: u16 = 0x0600;

impl FakeDongle {
    fn new(tuner: Option<(u8, Vec<u8>)>) -> Self {
        FakeDongle { tuner, fail_from: None, short_writes: false, log: Vec::new() }
    }

    fn r820t() -> Self {
        // Register 0 reads 0x69 (the R82xx id); register 2 carries the PLL lock bit
        // (0x40 once the bits are put back in order); register 4 a filter code.
        FakeDongle::new(Some((0x34, vec![0x69, 0x00, 0x02, 0x00, 0xa4])))
    }

    fn perform(&mut self, transfer: Transfer) -> Reply {
        let n = self.log.len();
        let reply = if self.fail_from.is_some_and(|f| n >= f) {
            Reply::Failed(UsbError::TransferError)
        } else {
            match &transfer {
                Transfer::ControlOut { data, .. } => {
                    if self.short_writes {
                        Reply::Sent(data.len() - 1)
                    } else {
                        Reply::Sent(data.len())
                    }
                }
                Transfer::ControlIn { value, index, length } => {
                    if *index == IIC_READ_INDEX {
                        match &self.tuner {
                            Some((addr, regs)) if *value == *addr as u16 => {
                                Reply::Received(regs.iter().copied().take(*length as usize).collect())
                            }
                            _ => Reply::Failed(UsbError::CommunicationError("no ack".to_string())),
                        }
                    } else {
                        Reply::Received(vec![0; *length as usize])
                    }
                }
                Transfer::BulkIn { length, .. } => {
                    Reply::Received((0..*length).map(|i| (i % 251) as u8).collect())
                }
            }
        };
        self.log.push(transfer);
        reply
    }
}

fn drive(state: &mut RtlSdr, dongle: &mut FakeDongle, request: Request) -> Result<Outcome, Error> {
    let (mut operation, mut step) = Operation::start(request, state);
    loop {
        let commands = match step {
            OpStep::Done(result) => return result,
            OpStep::Run(commands) => commands,
        };
        let mut runner = Runner::new(commands);
        let mut reply = None;
        let outcome = loop {
            match state.run(&mut runner, reply.take()) {
                RunStep::Send(transfer) => reply = Some(dongle.perform(transfer)),
                RunStep::Busy => {}
                RunStep::Done(outcome) => break outcome,
            }
        };
        step = operation.resume(state, outcome);
    }
}

fn drive_single(dongle: &mut FakeDongle, request: SingleRequest) -> Result<Outcome, Error> {
    let (operation, step) = SingleOp::start(request);
    let commands = match step {
        OpStep::Done(result) => return result,
        OpStep::Run(commands) => commands,
    };
    let mut runner = Runner::new(commands);
    let mut reply = None;
    let outcome = loop {
        match runner.step_without_tuner(reply.take()) {
            RunStep::Send(transfer) => reply = Some(dongle.perform(transfer)),
            RunStep::Busy => {}
            RunStep::Done(outcome) => break outcome,
        }
    };
    match operation.resume(outcome) {
        OpStep::Done(result) => result,
        OpStep::Run(_) => panic!("a single operation runs one batch"),
    }
}

fn new_state() -> RtlSdr {
    RtlSdr::new(0x0bda, 0x2838, Some("Realtek".to_string()), Some("RTL2838UHIDIR".to_string()))
}

fn opened(dongle: &mut FakeDongle) -> RtlSdr {
    let mut state = new_state();
    drive(&mut state, dongle, Request::Open).expect("open");
    state
}

#[test]
fn open_finds_r820t_and_sets_default_rate() {
    let mut dongle = FakeDongle::r820t();
    let state = opened(&mut dongle);
    assert_eq!(state.tuner_kind(), TunerKind::R820T);
    assert_eq!(state.sample_rate(), DEFAULT_SAMPLE_RATE);
    assert_eq!(state.center_frequency(), None);
    assert_eq!(state.frequency_correction(), 0);
    assert_eq!(state.known_name(), Some("Generic RTL2832U OEM"));
    // The first transfer is the USB_SYSCTL write of 0x09.
    match &dongle.log[0] {
        Transfer::ControlOut { value, index, data } => {
            assert_eq!(*value, 0x2000);
            assert_eq!(*index, 0x0110);
            assert_eq!(data, &vec![0x09]);
        }
        other => panic!("unexpected first transfer {:?}", other),
    }
}

#[test]
fn open_recognises_e4000_as_unsupported() {
    // The E4000 check reads one byte (register 2) and expects 0x40.
    let mut dongle = FakeDongle::new(Some((0xc8, vec![0x40])));
    let mut state = opened(&mut dongle);
    assert_eq!(state.tuner_kind(), TunerKind::E4000);
    let r = drive(&mut state, &mut dongle, Request::SetCenterFrequency(100_000_000));
    assert!(matches!(r, Err(Error::UnsupportedTuner(TunerKind::E4000))));
    assert_eq!(state.center_frequency(), None);
}

#[test]
fn open_without_tuner_leaves_it_unknown() {
    let mut dongle = FakeDongle::new(None);
    let mut state = opened(&mut dongle);
    assert_eq!(state.tuner_kind(), TunerKind::Unknown);
    let r = drive(&mut state, &mut dongle, Request::SetCenterFrequency(100_000_000));
    assert!(matches!(r, Err(Error::TunerNotFound)));
    let r = drive(&mut state, &mut dongle, Request::SetTunerGain(GainMode::Auto));
    assert!(matches!(r, Err(Error::TunerNotFound)));
}

#[test]
fn open_fails_when_pll_never_locks() {
    let mut dongle = FakeDongle::new(Some((0x34, vec![0x69, 0x00, 0x00, 0x00, 0xa4])));
    let mut state = new_state();
    let r = drive(&mut state, &mut dongle, Request::Open);
    match r {
        Err(Error::Operation { operation, source }) => {
            assert_eq!(operation, "tuner probe");
            assert!(matches!(*source, Error::PllDidNotLock));
        }
        other => panic!("unexpected result {:?}", other),
    }
}

#[test]
fn usb_failure_is_reported_with_context() {
    let mut dongle = FakeDongle::r820t();
    dongle.fail_from = Some(0);
    let mut state = new_state();
    match drive(&mut state, &mut dongle, Request::Open) {
        Err(Error::Operation { operation, source }) => {
            assert_eq!(operation, "initial USB_SYSCTL write");
            match *source {
                Error::ControlTransfer { value, index, source, .. } => {
                    assert_eq!(value, 0x2000);
                    assert_eq!(index, 0x0110);
                    assert!(matches!(*source, Error::Usb(UsbError::TransferError)));
                }
                other => panic!("unexpected source {:?}", other),
            }
        }
        other => panic!("unexpected result {:?}", other),
    }
    assert_eq!(dongle.log.len(), 1);
}

#[test]
fn short_control_write_is_reported() {
    let mut dongle = FakeDongle::r820t();
    dongle.short_writes = true;
    let mut state = new_state();
    match drive(&mut state, &mut dongle, Request::Open) {
        Err(Error::Operation { operation, source }) => {
            assert_eq!(operation, "initial USB_SYSCTL write");
            assert!(matches!(*source, Error::ShortTransfer { expected: 1, actual: 0 }));
        }
        other => panic!("unexpected result {:?}", other),
    }
}

#[test]
fn center_frequency_is_recorded_on_success() {
    let mut dongle = FakeDongle::r820t();
    let mut state = opened(&mut dongle);
    drive(&mut state, &mut dongle, Request::SetCenterFrequency(100_000_000)).expect("tune");
    assert_eq!(state.center_frequency(), Some(100_000_000));
}

#[test]
fn zero_frequency_is_refused_without_transfers() {
    let mut dongle = FakeDongle::r820t();
    let mut state = opened(&mut dongle);
    let before = dongle.log.len();
    let r = drive(&mut state, &mut dongle, Request::SetCenterFrequency(0));
    assert!(matches!(r, Err(Error::InvalidFrequency(0))));
    assert_eq!(dongle.log.len(), before);
    assert_eq!(state.center_frequency(), None);
}

#[test]
fn gain_out_of_range_is_refused() {
    let mut dongle = FakeDongle::r820t();
    let mut state = opened(&mut dongle);
    let before = dongle.log.len();
    let r = drive(&mut state, &mut dongle, Request::SetTunerGain(GainMode::ManualTenthsDb(501)));
    assert!(matches!(r, Err(Error::InvalidGain(501))));
    let r = drive(&mut state, &mut dongle, Request::SetTunerGain(GainMode::ManualTenthsDb(-101)));
    assert!(matches!(r, Err(Error::InvalidGain(-101))));
    assert_eq!(dongle.log.len(), before);
    drive(&mut state, &mut dongle, Request::SetTunerGain(GainMode::ManualTenthsDb(496))).expect("gain");
    drive(&mut state, &mut dongle, Request::SetTunerGain(GainMode::Auto)).expect("auto gain");
}

#[test]
fn sample_rate_reports_the_real_rate() {
    let mut dongle = FakeDongle::r820t();
    let mut state = opened(&mut dongle);
    match drive(&mut state, &mut dongle, Request::SetSampleRate(1_024_000)) {
        Ok(Outcome::SampleRate(rate)) => assert_eq!(rate, 1_024_000),
        other => panic!("unexpected result {:?}", other),
    }
    assert_eq!(state.sample_rate(), 1_024_000);
    match drive(&mut state, &mut dongle, Request::SetSampleRate(250_000)) {
        Ok(Outcome::SampleRate(rate)) => assert_eq!(rate, 250_000),
        other => panic!("unexpected result {:?}", other),
    }
}

#[test]
fn invalid_sample_rate_is_refused_without_transfers() {
    let mut dongle = FakeDongle::r820t();
    let mut state = opened(&mut dongle);
    let before = dongle.log.len();
    for rate in [0u32, 225_000, 300_001, 900_000, 3_200_001] {
        let r = drive(&mut state, &mut dongle, Request::SetSampleRate(rate));
        assert!(matches!(r, Err(Error::InvalidSampleRate(x)) if x == rate));
    }
    assert_eq!(dongle.log.len(), before);
    assert_eq!(state.sample_rate(), DEFAULT_SAMPLE_RATE);
}

#[test]
fn bandwidth_and_correction_are_kept() {
    let mut dongle = FakeDongle::r820t();
    let mut state = opened(&mut dongle);
    drive(&mut state, &mut dongle, Request::SetBandwidth(Some(1_000_000))).expect("bandwidth");
    assert_eq!(state.bandwidth(), Some(1_000_000));
    drive(&mut state, &mut dongle, Request::SetFrequencyCorrection(10)).expect("ppm");
    assert_eq!(state.frequency_correction(), 10);
}

#[test]
fn agc_mode_writes_the_demodulator() {
    let mut dongle = FakeDongle::r820t();
    drive_single(&mut dongle, SingleRequest::AgcMode(true)).expect("agc");
    match &dongle.log[0] {
        Transfer::ControlOut { value, index, data } => {
            assert_eq!(*value, 0x1920);
            assert_eq!(*index, 0x10);
            assert_eq!(data, &vec![0x25]);
        }
        other => panic!("unexpected transfer {:?}", other),
    }
}

#[test]
fn read_bytes_gives_what_the_bulk_transfer_brought() {
    let mut dongle = FakeDongle::r820t();
    match drive_single(&mut dongle, SingleRequest::ReadBytes(1000)) {
        Ok(Outcome::Bytes(bytes)) => {
            assert_eq!(bytes.len(), 1000);
            assert_eq!(bytes[300], (300 % 251) as u8);
        }
        other => panic!("unexpected result {:?}", other),
    }
    match &dongle.log[0] {
        Transfer::BulkIn { endpoint, length } => {
            assert_eq!(*endpoint, 0x81);
            assert_eq!(*length, 1000);
        }
        other => panic!("unexpected transfer {:?}", other),
    }
}

#[test]
fn read_bytes_zero_reads_the_default_length() {
    let mut dongle = FakeDongle::r820t();
    match drive_single(&mut dongle, SingleRequest::ReadBytes(0)) {
        Ok(Outcome::Bytes(bytes)) => assert_eq!(bytes.len(), 16 * 32 * 512),
        other => panic!("unexpected result {:?}", other),
    }
}

fn finish(
    state: &mut RtlSdr,
    dongle: &mut FakeDongle,
    started: (Operation, OpStep<Outcome>),
) -> Result<Outcome, Error> {
    let (mut operation, mut step) = started;
    loop {
        let commands = match step {
            OpStep::Done(result) => return result,
            OpStep::Run(commands) => commands,
        };
        let mut runner = Runner::new(commands);
        let mut reply = None;
        let outcome = loop {
            match state.run(&mut runner, reply.take()) {
                RunStep::Send(transfer) => reply = Some(dongle.perform(transfer)),
                RunStep::Busy => {}
                RunStep::Done(outcome) => break outcome,
            }
        };
        step = operation.resume(state, outcome);
    }
}

#[test]
fn named_operations_drive_the_dongle() {
    let mut dongle = FakeDongle::r820t();
    let (mut state, operation, step) =
        RtlSdr::open(0x0bda, 0x2832, None, Some("RTL2832U".to_string()));
    finish(&mut state, &mut dongle, (operation, step)).expect("open");
    assert_eq!(state.known_name(), Some("Generic RTL2832U"));
    assert_eq!(state.product(), Some("RTL2832U"));
    assert_eq!(state.manufacturer(), None);

    let started = state.set_sample_rate(2_048_000);
    match finish(&mut state, &mut dongle, started) {
        Ok(Outcome::SampleRate(rate)) => assert_eq!(rate, 2_048_000),
        other => panic!("unexpected result {:?}", other),
    }
    let started = state.set_center_frequency(433_920_000);
    finish(&mut state, &mut dongle, started).expect("tune");
    assert_eq!(state.center_frequency(), Some(433_920_000));
    let started = state.set_tuner_gain(GainMode::ManualTenthsDb(200));
    finish(&mut state, &mut dongle, started).expect("gain");
    let started = state.set_bandwidth(None);
    finish(&mut state, &mut dongle, started).expect("bandwidth");
    let started = state.set_frequency_correction(-5);
    finish(&mut state, &mut dongle, started).expect("ppm");
    assert_eq!(state.frequency_correction(), -5);

    let (op, step) = state.read_bytes(64);
    assert_eq!(op.request(), SingleRequest::ReadBytes(64));
    match step {
        OpStep::Run(commands) => assert_eq!(commands.len(), 1),
        OpStep::Done(_) => panic!("a read asks for a transfer"),
    }
}

#[test]
fn retuning_follows_a_rate_change() {
    // Same rate change on two dongles; only the first has a center frequency to restore.
    let mut tuned = FakeDongle::r820t();
    let mut tuned_state = opened(&mut tuned);
    drive(&mut tuned_state, &mut tuned, Request::SetCenterFrequency(100_000_000)).expect("tune");
    let mut untuned = FakeDongle::r820t();
    let mut untuned_state = opened(&mut untuned);

    let before_tuned = tuned.log.len();
    let before_untuned = untuned.log.len();
    drive(&mut tuned_state, &mut tuned, Request::SetSampleRate(2_400_000)).expect("rate");
    drive(&mut untuned_state, &mut untuned, Request::SetSampleRate(2_400_000)).expect("rate");
    let tuner_writes = |log: &[Transfer]| {
        log.iter()
            .filter(|t| matches!(t, Transfer::ControlOut { value: 0x34, index: 0x0610, .. }))
            .count()
    };
    assert!(tuner_writes(&tuned.log[before_tuned..]) > tuner_writes(&untuned.log[before_untuned..]));
    assert_eq!(tuned_state.center_frequency(), Some(100_000_000));
    assert_eq!(tuned_state.sample_rate(), 2_400_000);
    assert_eq!(untuned_state.center_frequency(), None);
}

#[test]
fn tuner_kind_stays_through_operations() {
    let mut dongle = FakeDongle::r820t();
    let mut state = opened(&mut dongle);
    drive(&mut state, &mut dongle, Request::SetCenterFrequency(90_000_000)).expect("tune");
    drive(&mut state, &mut dongle, Request::SetTunerGain(GainMode::ManualTenthsDb(100))).expect("gain");
    drive(&mut state, &mut dongle, Request::SetBandwidth(Some(300_000))).expect("bandwidth");
    drive(&mut state, &mut dongle, Request::SetSampleRate(1_200_000)).expect("rate");
    drive(&mut state, &mut dongle, Request::SetFrequencyCorrection(3)).expect("ppm");
    assert_eq!(state.tuner_kind(), TunerKind::R820T);
}
