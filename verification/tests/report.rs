use hwi::discovery::list_hardware_wallets;
use hwi::fingerprint::Fingerprint;
use hwi::report::{connected_summary, describe, device_summary, report};
use hwi::text::decimal_text;
use hwi::trezor::TrezorSimulator;
use hwi::{DeviceKind, Error, Version, HWI};

#[test]
fn summary_counts_the_devices() {
    assert_eq!(connected_summary(0), "0 device connected");
    assert_eq!(connected_summary(1), "1 device connected");
    assert_eq!(connected_summary(2), "2 devices connected");
    assert_eq!(connected_summary(10), "10 devices connected");
    assert_eq!(connected_summary(1203), "1203 devices connected");
}

#[test]
fn numbers_in_decimal() {
    assert_eq!(decimal_text(0), "0");
    assert_eq!(decimal_text(7), "7");
    assert_eq!(decimal_text(10), "10");
    assert_eq!(decimal_text(909), "909");
    assert_eq!(decimal_text(1234567890), "1234567890");
    assert_eq!(decimal_text(u64::MAX), u64::MAX.to_string());
}

#[test]
fn kinds_in_words() {
    assert_eq!(DeviceKind::Trezor.to_string(), "trezor");
    assert_eq!(DeviceKind::TrezorSimulator.to_string(), "trezor-simulator");
}

#[test]
fn versions_in_words() {
    let version = Version { major: 2, minor: 10, patch: 0, prerelease: None };
    assert_eq!(version.to_string(), "2.10.0");
    let version = Version { major: 0, minor: 0, patch: 41, prerelease: Some("rc1".to_string()) };
    assert_eq!(version.to_string(), "0.0.41-rc1");
    let version = Version { major: u32::MAX, minor: 1, patch: 2, prerelease: Some(String::new()) };
    assert_eq!(version.to_string(), "4294967295.1.2-");
}

#[test]
fn line_without_a_version() {
    let device = TrezorSimulator::try_connect().unwrap();
    let version = device.get_version();
    assert!(matches!(version, Err(Error::UnimplementedMethod)));
    let line = device_summary(
        device.device_kind(),
        &device.get_master_fingerprint().unwrap(),
        &version,
    );
    assert_eq!(line, "trezor-simulator (fingerprint: 00000000, version: unknown)");
    assert!(line.contains("version: unknown"));
}

#[test]
fn line_with_a_version() {
    let version = Ok(Version { major: 1, minor: 2, patch: 3, prerelease: None });
    let fingerprint = Fingerprint { bytes: [0x73, 0xc5, 0xda, 0x0a] };
    assert_eq!(
        device_summary(DeviceKind::Trezor, &fingerprint, &version),
        "trezor (fingerprint: 73c5da0a, version: 1.2.3)"
    );
    let failed = Err(Error::Device("timeout".to_string()));
    assert_eq!(
        device_summary(DeviceKind::Trezor, &fingerprint, &failed),
        "trezor (fingerprint: 73c5da0a, version: unknown)"
    );
}

#[test]
fn describes_a_device() {
    let device = TrezorSimulator::try_connect().unwrap();
    assert_eq!(
        describe(&device).unwrap(),
        "trezor-simulator (fingerprint: 00000000, version: unknown)"
    );
}

#[test]
fn report_of_all_devices() {
    let devices = list_hardware_wallets();
    assert_eq!(
        report(&devices).unwrap(),
        vec![
            "2 devices connected".to_string(),
            "trezor-simulator (fingerprint: 00000000, version: unknown)".to_string(),
            "trezor (fingerprint: 00000000, version: unknown)".to_string(),
        ]
    );
}
