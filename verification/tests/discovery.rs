use hwi::discovery::{collect, discover, list_hardware_wallets, record, Device};
use hwi::report::{connected_summary, report};
use hwi::trezor::{Trezor, TrezorSimulator};
use hwi::{DeviceKind, Error, HWI};

fn kinds(devices: &[Device]) -> Vec<DeviceKind> {
    devices.iter().map(|device| device.device_kind()).collect()
}

#[test]
fn every_supported_device_is_found_in_order() {
    let devices = list_hardware_wallets();
    assert_eq!(kinds(&devices), vec![DeviceKind::TrezorSimulator, DeviceKind::Trezor]);
    assert!(matches!(devices[0], Device::TrezorSimulator(_)));
    assert!(matches!(devices[1], Device::Trezor(_)));
    for device in &devices {
        assert!(device.is_connected().is_ok());
    }
}

#[test]
fn no_device_reachable() {
    let attempts: Vec<Result<Device, Error>> = vec![
        Err(Error::DeviceNotFound),
        Err(Error::Device("connection refused".to_string())),
    ];
    let devices = collect(attempts);
    assert!(devices.is_empty());
    assert_eq!(connected_summary(devices.len()), "0 device connected");
    assert_eq!(report(&devices).unwrap(), vec!["0 device connected".to_string()]);
}

#[test]
fn two_simulators_found_and_absent_hardware_left_out() {
    let attempts = vec![
        Ok("specter-simulator"),
        Err(Error::DeviceNotFound),
        Ok("trezor-simulator"),
    ];
    assert_eq!(collect(attempts), vec!["specter-simulator", "trezor-simulator"]);

    let attempts = vec![
        TrezorSimulator::try_connect().map(Device::TrezorSimulator),
        Err(Error::DeviceNotFound),
    ];
    let devices = collect(attempts);
    assert_eq!(kinds(&devices), vec![DeviceKind::TrezorSimulator]);
}

#[test]
fn as_many_devices_as_attempts_that_succeeded() {
    let failures = [
        || Error::DeviceNotFound,
        || Error::DeviceDidNotSign,
        || Error::UnimplementedMethod,
        || Error::Device("timeout".to_string()),
    ];
    for mask in 0u32..32 {
        for failure in failures {
            let attempts: Vec<Result<u32, Error>> = (0..5)
                .map(|i| if mask & (1 << i) != 0 { Ok(i) } else { Err(failure()) })
                .collect();
            let expected: Vec<u32> = (0..5).filter(|i| mask & (1 << i) != 0).collect();
            let devices = collect(attempts);
            assert_eq!(devices.len(), mask.count_ones() as usize);
            assert_eq!(devices, expected);
        }
    }
}

#[test]
fn a_failure_anywhere_changes_nothing() {
    let found = collect(vec![Ok(1), Ok(2), Ok(3)]);
    for at in 0..=3 {
        let mut attempts: Vec<Result<i32, Error>> = vec![Ok(1), Ok(2), Ok(3)];
        attempts.insert(at, Err(Error::Device("broken cable".to_string())));
        assert_eq!(collect(attempts), found);
    }
}

#[test]
fn record_keeps_devices_and_drops_failures() {
    let mut devices = vec![7];
    record(&mut devices, Ok(8));
    assert_eq!(devices, vec![7, 8]);
    record(&mut devices, Err(Error::DeviceNotFound));
    assert_eq!(devices, vec![7, 8]);
    record(&mut devices, Ok(9));
    assert_eq!(devices, vec![7, 8, 9]);
}

#[test]
fn a_handle_answers_as_its_device_does() {
    let device = Device::Trezor(Trezor::try_connect_usb().unwrap());
    assert_eq!(device.device_kind(), DeviceKind::Trezor);
    assert_eq!(device.get_master_fingerprint().unwrap().to_string(), "00000000");
    assert!(matches!(device.get_version(), Err(Error::UnimplementedMethod)));
    assert_eq!(device.register_wallet("name", "policy").unwrap(), None);
}

#[test]
fn discovery_with_no_endpoint_reachable_is_empty() {
    let devices = discover(
        Err(Error::Device("connection refused".to_string())),
        Err(Error::DeviceNotFound),
    );
    assert!(devices.is_empty());
    assert_eq!(report(&devices).unwrap(), vec!["0 device connected".to_string()]);
}

#[test]
fn discovery_leaves_out_the_attempt_that_failed() {
    let devices = discover(TrezorSimulator::try_connect(), Err(Error::DeviceNotFound));
    assert_eq!(kinds(&devices), vec![DeviceKind::TrezorSimulator]);
    let devices = discover(
        Err(Error::Device("connection refused".to_string())),
        Trezor::try_connect_usb(),
    );
    assert_eq!(kinds(&devices), vec![DeviceKind::Trezor]);
    let devices = discover(TrezorSimulator::try_connect(), Trezor::try_connect_usb());
    assert_eq!(kinds(&devices), vec![DeviceKind::TrezorSimulator, DeviceKind::Trezor]);
}

#[test]
fn absent_hardware_after_two_simulators_adds_no_handle() {
    let mut devices = vec![
        Device::TrezorSimulator(TrezorSimulator::try_connect().unwrap()),
        Device::TrezorSimulator(TrezorSimulator::try_connect().unwrap()),
    ];
    record(&mut devices, Err(Error::DeviceNotFound));
    assert_eq!(kinds(&devices), vec![DeviceKind::TrezorSimulator, DeviceKind::TrezorSimulator]);
}
