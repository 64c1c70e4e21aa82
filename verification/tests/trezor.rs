use std::str::FromStr;

use bitcoin::consensus::encode;
use bitcoin::util::bip32::{DerivationPath, ExtendedPubKey};
use bitcoin::util::psbt::PartiallySignedTransaction as Psbt;
use bitcoin::{PackedLockTime, Script, Transaction, TxIn, TxOut};

use hwi::fingerprint::Fingerprint;
use hwi::trezor::{
    connect_outcome, converted, fingerprint_outcome, TcpTransport, Transport, Trezor, TrezorError,
    TrezorSimulator, UsbTransport,
};
use hwi::{DeviceKind, Error, HWI};

fn unsigned_psbt() -> Psbt {
    let tx = Transaction {
        version: 2,
        lock_time: PackedLockTime(0),
        input: vec![TxIn::default()],
        output: vec![TxOut { value: 50_000, script_pubkey: Script::new() }],
    };
    Psbt::from_unsigned_tx(tx).unwrap()
}

#[test]
fn simulator_connects_and_answers() {
    let device = TrezorSimulator::try_connect().unwrap();
    assert_eq!(device.device_kind(), DeviceKind::TrezorSimulator);
    assert!(device.is_connected().is_ok());
}

#[test]
fn usb_device_connects_and_answers() {
    let device = Trezor::try_connect_usb().unwrap();
    assert_eq!(device.device_kind(), DeviceKind::Trezor);
    assert!(device.is_connected().is_ok());
}

#[test]
fn simulator_has_the_fixed_fingerprint() {
    let device = TrezorSimulator::try_connect().unwrap();
    assert!(device.is_connected().is_ok());
    let fingerprint = device.get_master_fingerprint().unwrap();
    assert_eq!(fingerprint, Fingerprint { bytes: [0, 0, 0, 0] });
    assert_eq!(fingerprint.to_string(), "00000000");
    assert_eq!(device.fingerprint().unwrap(), fingerprint);
}

#[test]
fn fingerprint_is_the_same_on_every_call() {
    let device = Trezor::try_connect_usb().unwrap();
    let first = device.get_master_fingerprint().unwrap();
    let second = device.get_master_fingerprint().unwrap();
    let third = device.fingerprint().unwrap();
    assert_eq!(first, second);
    assert_eq!(second, third);
}

#[test]
fn version_query_is_not_implemented() {
    let device = TrezorSimulator::try_connect().unwrap();
    assert!(matches!(device.get_version(), Err(Error::UnimplementedMethod)));
}

#[test]
fn no_extended_pubkey_is_shown() {
    let device = TrezorSimulator::try_connect().unwrap();
    let path = DerivationPath::from_str("m/48'/1'/0'/2'").unwrap();
    let expected = ExtendedPubKey::from_str("").unwrap_err().to_string();
    match device.get_extended_pubkey(&path) {
        Err(TrezorError::Device(message)) => assert_eq!(message, expected),
        other => panic!("{:?}", other),
    }
    for display in [false, true] {
        match HWI::get_extended_pubkey(&device, &path, display) {
            Err(Error::Device(message)) => {
                assert_eq!(message, expected);
                assert_eq!(message, "base58 encoding error");
            }
            other => panic!("{:?}", other),
        }
    }
}

#[test]
fn add_wallet_does_nothing() {
    let device = TrezorSimulator::try_connect().unwrap();
    assert!(device.add_wallet("wallet", "wsh(sortedmulti(2,@0/**,@1/**))").is_ok());
}

#[test]
fn register_wallet_gives_no_identifier_every_time() {
    let device = TrezorSimulator::try_connect().unwrap();
    let first = device.register_wallet("wallet", "wsh(sortedmulti(2,@0/**,@1/**))").unwrap();
    let second = device.register_wallet("wallet", "wsh(sortedmulti(2,@0/**,@1/**))").unwrap();
    assert_eq!(first, None);
    assert_eq!(first, second);
}

#[test]
fn sign_hands_back_no_transaction() {
    let device = Trezor::try_connect_usb().unwrap();
    let psbt = unsigned_psbt();
    let expected = encode::deserialize::<Psbt>(&[]).unwrap_err().to_string();
    match device.sign(&psbt) {
        Err(TrezorError::Device(message)) => {
            assert_eq!(message, expected);
            assert_eq!(message, "IO error");
        }
        other => panic!("{:?}", other),
    }
}

#[test]
fn device_that_does_not_sign_leaves_the_transaction() {
    let device = TrezorSimulator::try_connect().unwrap();
    let mut psbt = unsigned_psbt();
    let before = psbt.clone();
    assert!(matches!(device.sign_tx(&mut psbt), Err(Error::DeviceDidNotSign)));
    assert_eq!(psbt, before);
    assert_eq!(encode::serialize(&psbt), encode::serialize(&before));
}

#[test]
fn signing_twice_gives_the_same_bytes() {
    let device = Trezor::try_connect_usb().unwrap();
    let mut psbt = unsigned_psbt();
    let _ = device.sign_tx(&mut psbt);
    let once = encode::serialize(&psbt);
    let _ = device.sign_tx(&mut psbt);
    let twice = encode::serialize(&psbt);
    assert_eq!(once, twice);
}

#[test]
fn transaction_reads_back_after_signing() {
    let device = TrezorSimulator::try_connect().unwrap();
    let mut psbt = unsigned_psbt();
    let _ = device.sign_tx(&mut psbt);
    let bytes = encode::serialize(&psbt);
    let read: Psbt = encode::deserialize(&bytes).unwrap();
    assert_eq!(read, psbt);
}

#[test]
fn transports_answer_with_nothing() {
    assert_eq!(TcpTransport.request("ping").unwrap(), "");
    assert_eq!(UsbTransport.request("ping").unwrap(), "");
}

#[test]
fn usb_identifiers() {
    assert_eq!(UsbTransport::TREZOR_VID, 0x1209);
    assert_eq!(UsbTransport::TREZOR_PID, 0x53C1);
}

#[test]
fn trezor_errors_in_words() {
    assert_eq!(TrezorError::DeviceNotFound.to_string(), "Trezor not found");
    assert_eq!(TrezorError::DeviceDidNotSign.to_string(), "Trezor did not sign the psbt");
    assert_eq!(
        TrezorError::Device("unplugged".to_string()).to_string(),
        "Trezor error: unplugged"
    );
}

#[test]
fn trezor_errors_become_device_errors() {
    assert!(matches!(Error::from(TrezorError::DeviceNotFound), Error::DeviceNotFound));
    assert!(matches!(Error::from(TrezorError::DeviceDidNotSign), Error::DeviceDidNotSign));
    match Error::from(TrezorError::Device("unplugged".to_string())) {
        Error::Device(message) => assert_eq!(message, "unplugged"),
        other => panic!("{:?}", other),
    }
}

#[test]
fn device_that_answers_has_the_fixed_fingerprint() {
    for response in ["", "00000000", "deadbeef", "anything at all"] {
        let fingerprint = fingerprint_outcome(Ok(response.to_string())).unwrap();
        assert_eq!(fingerprint.bytes, [0, 0, 0, 0]);
    }
}

#[test]
fn failed_exchange_fails_the_fingerprint_query() {
    match fingerprint_outcome(Err(TrezorError::Device("connection refused".to_string()))) {
        Err(TrezorError::Device(message)) => assert_eq!(message, "connection refused"),
        other => panic!("{:?}", other),
    }
    match fingerprint_outcome(Err(TrezorError::DeviceNotFound)) {
        Err(TrezorError::Device(message)) => assert_eq!(message, "Trezor not found"),
        other => panic!("{:?}", other),
    }
    match fingerprint_outcome(Err(TrezorError::DeviceDidNotSign)) {
        Err(TrezorError::Device(message)) => assert_eq!(message, "Trezor did not sign the psbt"),
        other => panic!("{:?}", other),
    }
}

#[test]
fn vendor_results_become_device_results() {
    assert!(matches!(converted(Ok::<u8, TrezorError>(7)), Ok(7)));
    assert!(matches!(converted::<u8>(Err(TrezorError::DeviceNotFound)), Err(Error::DeviceNotFound)));
    assert!(matches!(
        converted::<u8>(Err(TrezorError::DeviceDidNotSign)),
        Err(Error::DeviceDidNotSign)
    ));
    match converted::<u8>(Err(TrezorError::Device("timeout".to_string()))) {
        Err(Error::Device(message)) => assert_eq!(message, "timeout"),
        other => panic!("{:?}", other),
    }
}

#[test]
fn connect_hands_out_the_device_that_answered() {
    let device = TrezorSimulator::try_connect().unwrap();
    let connected = connect_outcome(device, Ok(())).unwrap();
    assert_eq!(connected.device_kind(), DeviceKind::TrezorSimulator);
    let device = Trezor::try_connect_usb().unwrap();
    let connected = connect_outcome(device, Ok(())).unwrap();
    assert_eq!(connected.device_kind(), DeviceKind::Trezor);
}

#[test]
fn connect_to_a_simulator_that_is_not_there_gives_no_handle() {
    let device = TrezorSimulator::try_connect().unwrap();
    let failure = Error::from(TrezorError::Device("connection refused".to_string()));
    match connect_outcome(device, Err(failure)) {
        Err(Error::Device(message)) => assert_eq!(message, "connection refused"),
        other => panic!("{:?}", other),
    }
}

#[test]
fn connect_with_no_device_on_usb_gives_no_handle() {
    let device = Trezor::try_connect_usb().unwrap();
    assert!(matches!(
        connect_outcome(device, Err(Error::from(TrezorError::DeviceNotFound))),
        Err(Error::DeviceNotFound)
    ));
}
