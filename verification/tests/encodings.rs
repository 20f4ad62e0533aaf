use rtlsdr_pure::rtl2832::{correction_values, fir_bytes, if_values, sample_rate_ratio};
use rtlsdr_pure::rtl_usb::{decode_reg_value, reg_value_bytes};
use rtlsdr_pure::{
    describe_device, describe_devices, first_known_device, iq_read_length, known_device_indexes,
    known_device_name, known_devices, Error, TunerKind, UsbError,
};

#[test]
fn if_values_for_r82xx_intermediate_frequency() {
    assert_eq!(if_values(3_570_000), (0x38, 0x11, 0x12));
}

#[test]
fn sample_rate_ratio_for_common_rates() {
    assert!(matches!(sample_rate_ratio(2_048_000), Ok((58_982_400, 2_048_000))));
    assert!(matches!(sample_rate_ratio(1_024_000), Ok((117_964_800, 1_024_000))));
    assert!(matches!(sample_rate_ratio(900_000), Err(Error::InvalidSampleRate(900_000))));
    assert!(matches!(sample_rate_ratio(3_200_001), Err(Error::InvalidSampleRate(3_200_001))));
    assert!(matches!(sample_rate_ratio(225_000), Err(Error::InvalidSampleRate(225_000))));
}

#[test]
fn every_rate_in_the_bands_is_accepted() {
    for rate in [225_001u32, 250_000, 300_000, 900_001, 1_800_000, 2_400_000, 3_200_000] {
        assert!(sample_rate_ratio(rate).is_ok(), "rate {}", rate);
    }
}

#[test]
fn correction_values_for_ten_ppm() {
    assert_eq!(correction_values(10), (0x59, 0x3f));
    assert_eq!(correction_values(0), (0x00, 0x00));
}

#[test]
fn fir_coefficients_pack_into_twenty_bytes() {
    assert_eq!(
        fir_bytes(),
        [
            0xca, 0xdc, 0xd7, 0xd8, 0xe0, 0xf2, 0x0e, 0x35, 0x06, 0x50, 0x9c, 0x0d, 0x71, 0x11,
            0x14, 0x71, 0x74, 0x19, 0x41, 0xa5
        ]
    );
}

#[test]
fn register_values_encode_most_significant_first() {
    assert_eq!(reg_value_bytes(0x1234, 2).unwrap(), vec![0x12, 0x34]);
    assert_eq!(reg_value_bytes(0x1234, 1).unwrap(), vec![0x34]);
    assert!(matches!(reg_value_bytes(0x1234, 3), Err(Error::InvalidTransferLength(3))));
    assert!(matches!(reg_value_bytes(0x1234, 0), Err(Error::InvalidTransferLength(0))));
}

#[test]
fn register_values_decode_little_endian() {
    assert_eq!(decode_reg_value(&[]), 0);
    assert_eq!(decode_reg_value(&[0xab]), 0xab);
    assert_eq!(decode_reg_value(&[0x34, 0x12]), 0x1234);
    assert_eq!(decode_reg_value(&[0x34, 0x12, 0xff]), 0x1234);
}

#[test]
fn known_devices_are_found_by_id() {
    assert_eq!(known_device_name(0x0bda, 0x2838), Some("Generic RTL2832U OEM"));
    assert_eq!(known_device_name(0x0bda, 0x2832), Some("Generic RTL2832U"));
    assert_eq!(known_device_name(0x1234, 0x5678), None);
    let table = known_devices();
    assert_eq!(table.len(), 42);
    for d in &table {
        assert_eq!(known_device_name(d.vendor_id, d.product_id), Some(d.name));
    }
}

#[test]
fn first_known_device_skips_others() {
    let ids = [(0x1234u16, 0x5678u16), (0x0bda, 0x2838), (0x0bda, 0x2832)];
    assert_eq!(first_known_device(&ids), Some(1));
    assert_eq!(first_known_device(&ids[..1]), None);
    assert_eq!(first_known_device(&[]), None);
}

#[test]
fn description_only_for_known_devices() {
    let d = describe_device(0x0bda, 0x2838, Some("Realtek".to_string()), None).unwrap();
    assert_eq!(d.name, Some("Generic RTL2832U OEM"));
    assert_eq!(d.manufacturer, Some("Realtek".to_string()));
    assert_eq!(d.product, None);
    assert!(describe_device(0x1234, 0x5678, None, None).is_none());
}

#[test]
fn iq_sample_count_becomes_byte_count() {
    assert_eq!(iq_read_length(1000), 2000);
    assert_eq!(iq_read_length(0), 0);
}

#[test]
fn error_context_wraps_the_error() {
    match Error::TunerNotFound.context("tuner probe") {
        Error::Operation { operation, source } => {
            assert_eq!(operation, "tuner probe");
            assert!(matches!(*source, Error::TunerNotFound));
        }
        other => panic!("unexpected {:?}", other),
    }
    match Error::PllDidNotLock.control("control_out", 0x10, 0x610) {
        Error::ControlTransfer { operation, value, index, source } => {
            assert_eq!(operation, "control_out");
            assert_eq!(value, 0x10);
            assert_eq!(index, 0x610);
            assert!(matches!(*source, Error::PllDidNotLock));
        }
        other => panic!("unexpected {:?}", other),
    }
}

#[test]
fn known_device_indexes_keep_order_and_duplicates() {
    let ids = [
        (0x1234u16, 0x5678u16),
        (0x0bda, 0x2838),
        (0xffff, 0x0000),
        (0x0bda, 0x2832),
        (0x0bda, 0x2838),
    ];
    assert_eq!(known_device_indexes(&ids), vec![1, 3, 4]);
    assert_eq!(known_device_indexes(&ids[..1]), Vec::<usize>::new());
    assert_eq!(known_device_indexes(&[]), Vec::<usize>::new());
}

#[test]
fn describe_devices_lists_known_devices_in_order() {
    let ids = [(0x1234u16, 0x5678u16), (0x0bda, 0x2838), (0x0bda, 0x2832)];
    let strings = vec![
        (Some("Realtek".to_string()), Some("RTL2838UHIDIR".to_string())),
        (None, Some("RTL2832U".to_string())),
    ];
    let list = describe_devices(&ids, &strings);
    assert_eq!(list.len(), 2);
    assert_eq!(list[0].vendor_id, 0x0bda);
    assert_eq!(list[0].product_id, 0x2838);
    assert_eq!(list[0].name, Some("Generic RTL2832U OEM"));
    assert_eq!(list[0].manufacturer, Some("Realtek".to_string()));
    assert_eq!(list[1].product_id, 0x2832);
    assert_eq!(list[1].manufacturer, None);
    assert_eq!(list[1].product, Some("RTL2832U".to_string()));
}

#[test]
fn error_messages_read_as_documented() {
    let e = Error::Usb(UsbError::CommunicationError(
        "NetworkError: Failed to execute 'claimInterface' on 'USBDevice': Unable to claim interface"
            .to_string(),
    ));
    assert_eq!(
        e.message(),
        "USB communication failed: NetworkError: Failed to execute 'claimInterface' on 'USBDevice': Unable to claim interface"
    );
    assert_eq!(Error::Usb(UsbError::Disconnected).message(), "USB error: device disconnected");
    assert_eq!(Error::WebUsb("x".to_string()).message(), "WebUSB error: x");
    assert_eq!(Error::DeviceNotFound.message(), "no known RTL-SDR device found");
    assert_eq!(Error::TunerNotFound.message(), "no supported tuner was detected");
    assert_eq!(Error::UnsupportedTuner(TunerKind::Fc0012).message(), "unsupported tuner: Fc0012");
    assert_eq!(
        Error::InvalidSampleRate(900_000).message(),
        "invalid RTL2832 sample rate: 900000 Hz"
    );
    assert_eq!(Error::InvalidFrequency(0).message(), "invalid frequency: 0 Hz");
    assert_eq!(Error::InvalidGain(-101).message(), "invalid tuner gain: -101 tenths of a dB");
    assert_eq!(Error::InvalidGain(501).message(), "invalid tuner gain: 501 tenths of a dB");
    assert_eq!(
        Error::InvalidTransferLength(3).message(),
        "USB control transfer length is too large: 3"
    );
    assert_eq!(
        Error::ShortTransfer { expected: 5, actual: 2 }.message(),
        "short USB transfer: expected 5 bytes, got 2"
    );
    assert_eq!(Error::PllDidNotLock.message(), "R82xx tuner PLL did not lock");
    assert_eq!(
        Error::ArithmeticOverflow.message(),
        "integer overflow while configuring device"
    );
    let wrapped = Error::Usb(UsbError::TransferError)
        .control("control_out", 0x2000, 0x0110)
        .context("initial USB_SYSCTL write");
    assert_eq!(
        wrapped.message(),
        "initial USB_SYSCTL write failed: control_out failed (value=0x2000, index=0x0110): USB error: device transfer failed"
    );
    assert_eq!(
        Error::PllDidNotLock.control("c", 0xabcd, 0x1f).message(),
        "c failed (value=0xabcd, index=0x001f): R82xx tuner PLL did not lock"
    );
}
