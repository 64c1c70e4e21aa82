//! Trezor devices, over USB and as a simulator over TCP.

use vstd::prelude::*;
use vstd::std_specs::convert::FromSpec;
use std::fmt::Debug;
use bitcoin::consensus::encode;
use bitcoin::util::bip32::{DerivationPath, ExtendedPubKey};
use bitcoin::util::psbt::PartiallySignedTransaction as Psbt;
use crate::fingerprint::{hex_bytes, is_hex_text, Fingerprint};
use crate::{DeviceKind, Error as HWIError, Version, HWI};

verus! {

/// Why a Trezor failed.
#[derive(Debug)]
pub enum TrezorError {
    DeviceNotFound,
    DeviceDidNotSign,
    Device(String),
}

impl TrezorError {
    /// What `to_string` writes: the kind of failure, and after it the
    /// message where there is one.
    pub open spec fn text(&self) -> Seq<char> {
        match self {
            TrezorError::DeviceNotFound => "Trezor not found"@,
            TrezorError::DeviceDidNotSign => "Trezor did not sign the psbt"@,
            TrezorError::Device(e) => "Trezor error: "@ + e@,
        }
    }

    /// The error in words.
    pub fn to_string(&self) -> (s: String)
        ensures
            s@ == self.text(),
    {
        match self {
            TrezorError::DeviceNotFound => String::from_str("Trezor not found"),
            TrezorError::DeviceDidNotSign => String::from_str("Trezor did not sign the psbt"),
            TrezorError::Device(e) => String::from_str("Trezor error: ").concat(e.as_str()),
        }
    }
}

impl vstd::std_specs::convert::FromSpecImpl<TrezorError> for HWIError {
    open spec fn obeys_from_spec() -> bool {
        true
    }

    open spec fn from_spec(e: TrezorError) -> HWIError {
        match e {
            TrezorError::DeviceNotFound => HWIError::DeviceNotFound,
            TrezorError::DeviceDidNotSign => HWIError::DeviceDidNotSign,
            TrezorError::Device(e) => HWIError::Device(e),
        }
    }
}

impl From<TrezorError> for HWIError {
    /// Each kind of failure of a Trezor is one kind of failure of a device;
    /// a message is handed on as it is.
    fn from(e: TrezorError) -> (r: HWIError) {
        match e {
            TrezorError::DeviceNotFound => HWIError::DeviceNotFound,
            TrezorError::DeviceDidNotSign => HWIError::DeviceDidNotSign,
            TrezorError::Device(e) => HWIError::Device(e),
        }
    }
}

/// The conversion loses nothing: two failures of a Trezor that become the
/// same failure of a device were the same, and none becomes
/// `UnimplementedMethod`.
pub proof fn lemma_conversion_is_lossless(a: TrezorError, b: TrezorError)
    ensures
        !(HWIError::from_spec(a) is UnimplementedMethod),
        HWIError::from_spec(a) == HWIError::from_spec(b) ==> a == b,
{
}

/// A result of the vendor as a result of a device: what succeeded stays, and
/// a failure is converted.
pub open spec fn converted_result<V>(vendor: Result<V, TrezorError>) -> Result<V, HWIError> {
    match vendor {
        Ok(value) => Ok(value),
        Err(e) => Err(HWIError::from_spec(e)),
    }
}

/// Hands a result of the vendor on as a result of a device.
pub fn converted<V>(vendor: Result<V, TrezorError>) -> (r: Result<V, HWIError>)
    ensures
        r == converted_result(vendor),
{
    match vendor {
        Ok(value) => Ok(value),
        Err(e) => Err(HWIError::from(e)),
    }
}

/// One channel to one device: a request goes out, a response comes back.
pub trait Transport: Debug {
    fn request(&self, req: &str) -> (r: Result<String, TrezorError>);
}

/// The channel to a simulator.
#[derive(Debug)]
pub struct TcpTransport;

impl Transport for TcpTransport {
    fn request(&self, _req: &str) -> (r: Result<String, TrezorError>)
        ensures
            r is Ok,
            r->Ok_0@ == Seq::<char>::empty(),
    {
        Ok(String::new())
    }
}

/// The channel to a device on USB.
#[derive(Debug)]
pub struct UsbTransport;

impl UsbTransport {
    pub const TREZOR_VID: u16 = 0x1209;

    pub const TREZOR_PID: u16 = 0x53C1;
}

impl Transport for UsbTransport {
    fn request(&self, _req: &str) -> (r: Result<String, TrezorError>)
        ensures
            r is Ok,
            r->Ok_0@ == Seq::<char>::empty(),
    {
        Ok(String::new())
    }
}

/// What `bitcoin::util::bip32::ExtendedPubKey::from_str` says of a text that
/// it refuses.
pub uninterp spec fn xpub_error(s: Seq<char>) -> Seq<char>;

/// What `bitcoin::consensus::encode::deserialize` says of bytes that it
/// refuses to read as a transaction to sign.
pub uninterp spec fn psbt_error(data: Seq<u8>) -> Seq<char>;

/// What a Trezor says when it shows no key.
pub open spec fn no_key_message() -> Seq<char> {
    "base58 encoding error"@
}

/// What a Trezor says when it hands back no transaction.
pub open spec fn no_transaction_message() -> Seq<char> {
    "IO error"@
}

/// Calls `bitcoin::util::bip32::ExtendedPubKey::from_str`. It decodes the
/// text as base58 with a checksum of four bytes, so the empty text, which
/// decodes to no bytes at all, is refused as too short: an error of base58,
/// of which the `Display` of bitcoin built with `std` writes the words above
/// and no more. The text of any error is its `Display`.
#[verifier::external_body]
fn parse_xpub(s: &str) -> (r: Result<ExtendedPubKey, String>)
    ensures
        s@.len() == 0 ==> r is Err && r->Err_0@ == no_key_message(),
        r is Err ==> r->Err_0@ == xpub_error(s@),
{
    match <ExtendedPubKey as std::str::FromStr>::from_str(s) {
        Ok(key) => Ok(key),
        Err(e) => Err(e.to_string()),
    }
}

/// Calls `bitcoin::consensus::encode::deserialize` for a transaction to
/// sign. It starts by reading four bytes of magic, so no bytes at all are
/// refused at that read: an error of I/O, of which the `Display` of bitcoin
/// built with `std` writes the words above and no more. The text of any
/// error is its `Display`.
#[verifier::external_body]
fn decode_psbt(data: &[u8]) -> (r: Result<Psbt, String>)
    ensures
        data@.len() == 0 ==> r is Err && r->Err_0@ == no_transaction_message(),
        r is Err ==> r->Err_0@ == psbt_error(data@),
{
    match encode::deserialize::<Psbt>(data) {
        Ok(psbt) => Ok(psbt),
        Err(e) => Err(e.to_string()),
    }
}

/// The fingerprint every Trezor of this library answers with.
pub open spec fn fixed_fingerprint() -> Seq<u8> {
    seq![0u8, 0u8, 0u8, 0u8]
}

/// A Trezor behind the channel `T`.
#[derive(Debug)]
pub struct Trezor<T: Transport> {
    transport: T,
    kind: DeviceKind,
}

/// What a failed exchange is reported with: the channel's own message, or
/// the failure in words where it has no message.
pub open spec fn diagnostic(failure: TrezorError) -> Seq<char> {
    match failure {
        TrezorError::Device(message) => message@,
        _ => failure.text(),
    }
}

/// Reads the outcome of the exchange that asks for the fingerprint: a device
/// that answers has the fixed fingerprint, and a failed exchange is a
/// failure of the device with the channel's diagnostic.
pub fn fingerprint_outcome(answer: Result<String, TrezorError>) -> (r: Result<
    Fingerprint,
    TrezorError,
>)
    ensures
        answer is Ok ==> r is Ok && r->Ok_0@ == fixed_fingerprint(),
        answer is Err ==> r is Err && r->Err_0 is Device && r->Err_0->Device_0@ == diagnostic(
            answer->Err_0,
        ),
{
    match answer {
        Ok(_) => {
            proof {
                reveal_strlit("00000000");
                assert(is_hex_text("00000000"@));
                assert(hex_bytes("00000000"@) =~= fixed_fingerprint());
            }
            match Fingerprint::from_str("00000000") {
                Ok(fingerprint) => Ok(fingerprint),
                Err(e) => Err(TrezorError::Device(e)),
            }
        },
        Err(TrezorError::Device(message)) => Err(TrezorError::Device(message)),
        Err(failure) => Err(TrezorError::Device(failure.to_string())),
    }
}

/// What a connect attempt comes to, given the device over its newly bound
/// channel and the outcome of the liveness check on it.
pub open spec fn connect_result<T: Transport>(
    device: Trezor<T>,
    check: Result<(), HWIError>,
) -> Result<Trezor<T>, HWIError> {
    match check {
        Ok(_) => Ok(device),
        Err(e) => Err(e),
    }
}

/// Ends a connect attempt: the device is handed out where the liveness
/// check on it succeeded, and where it failed the failure is handed out and
/// no device.
pub fn connect_outcome<T: Transport>(device: Trezor<T>, check: Result<(), HWIError>) -> (r: Result<
    Trezor<T>,
    HWIError,
>)
    ensures
        r == connect_result(device, check),
        check is Ok ==> r == Ok::<Trezor<T>, HWIError>(device),
        check is Err ==> r == Err::<Trezor<T>, HWIError>(check->Err_0),
{
    match check {
        Ok(_) => Ok(device),
        Err(e) => Err(e),
    }
}

impl<T: Transport> Trezor<T> {
    /// The channel the device is behind.
    pub closed spec fn channel(&self) -> T {
        self.transport
    }

    /// Asks the device for the fingerprint of its master key: the request
    /// `fingerprint` goes over the channel, and the result is what
    /// `fingerprint_outcome` makes of the channel's answer. A device that
    /// answers has the same fingerprint on every Trezor and at every call;
    /// one that does not answer fails with the channel's diagnostic.
    pub fn fingerprint(&self) -> (r: Result<Fingerprint, TrezorError>)
        ensures
            exists|answer: Result<String, TrezorError>|
                {
                    &&& #[trigger] call_ensures(
                        T::request,
                        (&self.channel(), "fingerprint"),
                        answer,
                    )
                    &&& call_ensures(fingerprint_outcome, (answer,), r)
                },
            r is Ok ==> r->Ok_0@ == fixed_fingerprint(),
            r is Err ==> r->Err_0 is Device,
    {
        let answer = self.transport.request("fingerprint");
        let r = fingerprint_outcome(answer);
        proof {
            assert(call_ensures(T::request, (&self.channel(), "fingerprint"), answer));
            assert(call_ensures(fingerprint_outcome, (answer,), r));
        }
        r
    }

    /// No key is shown: the device is asked with an empty answer in hand,
    /// which is no extended public key.
    pub fn get_extended_pubkey(&self, _path: &DerivationPath) -> (r: Result<
        ExtendedPubKey,
        TrezorError,
    >)
        ensures
            r is Err,
            r->Err_0 is Device,
            r->Err_0->Device_0@ == no_key_message(),
    {
        proof {
            reveal_strlit("");
            assert(""@ =~= Seq::<char>::empty());
        }
        match parse_xpub("") {
            Ok(key) => Ok(key),
            Err(e) => Err(TrezorError::Device(e)),
        }
    }

    /// A Trezor keeps no wallets: there is nothing to do and nothing fails.
    pub fn add_wallet(&self, _name: &str, _policy: &str) -> (r: Result<(), TrezorError>)
        ensures
            r is Ok,
    {
        Ok(())
    }

    /// No signed transaction comes back: the device's answer is empty, which
    /// is no transaction.
    pub fn sign(&self, _psbt: &Psbt) -> (r: Result<Psbt, TrezorError>)
        ensures
            r is Err,
            r->Err_0 is Device,
            r->Err_0->Device_0@ == no_transaction_message(),
    {
        let answer: Vec<u8> = Vec::new();
        match decode_psbt(answer.as_slice()) {
            Ok(signed) => Ok(signed),
            Err(e) => Err(TrezorError::Device(e)),
        }
    }
}

impl<T: Transport> HWI for Trezor<T> {
    closed spec fn kind(&self) -> DeviceKind {
        self.kind
    }

    open spec fn master_fingerprint(&self) -> Seq<u8> {
        fixed_fingerprint()
    }

    open spec fn extended_pubkey(&self, path: DerivationPath) -> Option<ExtendedPubKey> {
        None
    }

    open spec fn key_refusal(&self, path: DerivationPath) -> Option<Seq<char>> {
        Some(no_key_message())
    }

    open spec fn wallet_id(&self, name: Seq<char>, policy: Seq<char>) -> Option<[u8; 32]> {
        None
    }

    open spec fn signed(&self, psbt: Psbt) -> Option<Psbt> {
        None
    }

    proof fn signing_is_idempotent(&self, psbt: Psbt) {
    }

    fn device_kind(&self) -> (kind: DeviceKind) {
        self.kind
    }

    fn get_version(&self) -> (r: Result<Version, HWIError>)
        ensures
            r is Err,
            r->Err_0 is UnimplementedMethod,
    {
        Err(HWIError::UnimplementedMethod)
    }

    /// The liveness check is the query for the fingerprint: it succeeds
    /// exactly when the query does, and a failure of the query is handed on,
    /// converted.
    fn is_connected(&self) -> (r: Result<(), HWIError>)
        ensures
            exists|f: Result<Fingerprint, TrezorError>|
                {
                    &&& #[trigger] call_ensures(Trezor::<T>::fingerprint, (self,), f)
                    &&& (r is Ok <==> f is Ok)
                    &&& (f is Err ==> r == Err::<(), HWIError>(HWIError::from_spec(f->Err_0)))
                },
            r is Err ==> r->Err_0 is Device,
    {
        let f = self.fingerprint();
        proof {
            assert(call_ensures(Trezor::<T>::fingerprint, (self,), f));
        }
        match converted(f) {
            Ok(_) => Ok(()),
            Err(e) => Err(e),
        }
    }

    /// The result of the vendor's query, a failure converted.
    fn get_master_fingerprint(&self) -> (r: Result<Fingerprint, HWIError>)
        ensures
            exists|f: Result<Fingerprint, TrezorError>|
                #[trigger] call_ensures(Trezor::<T>::fingerprint, (self,), f) && r
                    == converted_result(f),
    {
        let f = self.fingerprint();
        proof {
            assert(call_ensures(Trezor::<T>::fingerprint, (self,), f));
        }
        converted(f)
    }

    fn get_extended_pubkey(&self, path: &DerivationPath, _display: bool) -> (r: Result<
        ExtendedPubKey,
        HWIError,
    >)
    {
        converted(Trezor::get_extended_pubkey(self, path))
    }

    fn register_wallet(&self, name: &str, policy: &str) -> (r: Result<Option<[u8; 32]>, HWIError>)
        ensures
            r is Ok,
    {
        match converted(self.add_wallet(name, policy)) {
            Ok(_) => Ok(None),
            Err(e) => Err(e),
        }
    }

    fn sign_tx(&self, _psbt: &mut Psbt) -> (r: Result<(), HWIError>)
        ensures
            r is Err,
            r->Err_0 is DeviceDidNotSign,
    {
        Err(HWIError::from(TrezorError::DeviceDidNotSign))
    }
}

/// A Trezor simulator.
pub type TrezorSimulator = Trezor<TcpTransport>;

impl TrezorSimulator {
    /// Binds a channel to the simulator and asks it whether it is there:
    /// the result is what `connect_outcome` makes of the liveness check on
    /// the new handle. The channel of this library answers every request,
    /// so the simulator is handed out.
    pub fn try_connect() -> (r: Result<Self, HWIError>)
        ensures
            exists|device: TrezorSimulator, check: Result<(), HWIError>|
                {
                    &&& device.kind() == DeviceKind::TrezorSimulator
                    &&& call_ensures(<TrezorSimulator as HWI>::is_connected, (&device,), check)
                    &&& r == #[trigger] connect_result(device, check)
                },
            r is Ok,
            r->Ok_0.kind() == DeviceKind::TrezorSimulator,
    {
        let s = TrezorSimulator { transport: TcpTransport {  }, kind: DeviceKind::TrezorSimulator };
        let check = s.is_connected();
        proof {
            assert(call_ensures(<TrezorSimulator as HWI>::is_connected, (&s,), check));
            assert(connect_result(s, check) == connect_result(s, check));
            lemma_simulator_answers(&s, check);
        }
        connect_outcome(s, check)
    }
}

impl Trezor<UsbTransport> {
    /// Binds a channel to the device on USB and asks it whether it is
    /// there: the result is what `connect_outcome` makes of the liveness
    /// check on the new handle. The channel of this library answers every
    /// request, so the device is handed out.
    pub fn try_connect_usb() -> (r: Result<Self, HWIError>)
        ensures
            exists|device: Trezor<UsbTransport>, check: Result<(), HWIError>|
                {
                    &&& device.kind() == DeviceKind::Trezor
                    &&& call_ensures(<Trezor<UsbTransport> as HWI>::is_connected, (&device,), check)
                    &&& r == #[trigger] connect_result(device, check)
                },
            r is Ok,
            r->Ok_0.kind() == DeviceKind::Trezor,
    {
        let s = Trezor { transport: UsbTransport {  }, kind: DeviceKind::Trezor };
        let check = s.is_connected();
        proof {
            assert(call_ensures(<Trezor<UsbTransport> as HWI>::is_connected, (&s,), check));
            assert(connect_result(s, check) == connect_result(s, check));
            lemma_usb_device_answers(&s, check);
        }
        connect_outcome(s, check)
    }
}

/// A connect attempt hands out a device exactly where the liveness check on
/// it succeeded, and then it is the device that was checked; a failed check
/// gives that failure and no device.
pub proof fn lemma_connect_follows_the_check<T: Transport>(
    device: Trezor<T>,
    check: Result<(), HWIError>,
)
    ensures
        connect_result(device, check) is Ok <==> check is Ok,
        check is Ok ==> connect_result(device, check)->Ok_0 == device,
        check is Err ==> connect_result(device, check)->Err_0 == check->Err_0,
{
}

/// Whether the channel answers the request for the fingerprint, whenever
/// it is asked.
pub open spec fn channel_answers<T: Transport>(channel: T) -> bool {
    forall|answer: Result<String, TrezorError>| #[trigger]
        call_ensures(T::request, (&channel, "fingerprint"), answer) ==> answer is Ok
}

/// Behind a channel that answers, the query for the fingerprint succeeds
/// with the fixed fingerprint.
pub proof fn lemma_live_device_names_its_fingerprint<T: Transport>(
    device: &Trezor<T>,
    f: Result<Fingerprint, TrezorError>,
)
    requires
        channel_answers(device.channel()),
        call_ensures(Trezor::<T>::fingerprint, (device,), f),
    ensures
        f is Ok,
        f->Ok_0@ == fixed_fingerprint(),
{
}

/// Behind a channel that answers, the liveness check succeeds and the
/// device names the fixed fingerprint.
pub proof fn lemma_live_device_answers<T: Transport>(
    device: &Trezor<T>,
    check: Result<(), HWIError>,
    named: Result<Fingerprint, HWIError>,
)
    requires
        channel_answers(device.channel()),
        call_ensures(<Trezor<T> as HWI>::is_connected, (device,), check),
        call_ensures(<Trezor<T> as HWI>::get_master_fingerprint, (device,), named),
    ensures
        check is Ok,
        named is Ok,
        named->Ok_0@ == fixed_fingerprint(),
{
    let f = choose|f: Result<Fingerprint, TrezorError>|
        {
            &&& #[trigger] call_ensures(Trezor::<T>::fingerprint, (device,), f)
            &&& (check is Ok <==> f is Ok)
        };
    lemma_live_device_names_its_fingerprint(device, f);
    let g = choose|g: Result<Fingerprint, TrezorError>|
        #[trigger] call_ensures(Trezor::<T>::fingerprint, (device,), g) && named
            == converted_result(g);
    lemma_live_device_names_its_fingerprint(device, g);
}

/// Behind a channel that does not answer, the liveness check fails, with a
/// failure of the device.
pub proof fn lemma_dead_device_does_not_answer<T: Transport>(
    device: &Trezor<T>,
    check: Result<(), HWIError>,
)
    requires
        forall|answer: Result<String, TrezorError>| #[trigger]
            call_ensures(T::request, (&device.channel(), "fingerprint"), answer) ==> answer is Err,
        call_ensures(<Trezor<T> as HWI>::is_connected, (device,), check),
    ensures
        check is Err,
        check->Err_0 is Device,
{
    let f = choose|f: Result<Fingerprint, TrezorError>|
        {
            &&& #[trigger] call_ensures(Trezor::<T>::fingerprint, (device,), f)
            &&& (check is Ok <==> f is Ok)
        };
    assert(f is Err);
}

/// The simulator of this library answers the liveness check: its channel
/// answers every request.
pub proof fn lemma_simulator_answers(device: &TrezorSimulator, check: Result<(), HWIError>)
    requires
        call_ensures(<TrezorSimulator as HWI>::is_connected, (device,), check),
    ensures
        check is Ok,
{
    let f = choose|f: Result<Fingerprint, TrezorError>|
        {
            &&& #[trigger] call_ensures(Trezor::<TcpTransport>::fingerprint, (device,), f)
            &&& (check is Ok <==> f is Ok)
        };
    lemma_live_device_names_its_fingerprint(device, f);
}

/// The device on USB of this library answers the liveness check: its
/// channel answers every request.
pub proof fn lemma_usb_device_answers(device: &Trezor<UsbTransport>, check: Result<(), HWIError>)
    requires
        call_ensures(<Trezor<UsbTransport> as HWI>::is_connected, (device,), check),
    ensures
        check is Ok,
{
    let f = choose|f: Result<Fingerprint, TrezorError>|
        {
            &&& #[trigger] call_ensures(Trezor::<UsbTransport>::fingerprint, (device,), f)
            &&& (check is Ok <==> f is Ok)
        };
    lemma_live_device_names_its_fingerprint(device, f);
}

/// The simulator of this library names the fixed fingerprint whenever it is
/// asked.
pub proof fn lemma_simulator_names_its_fingerprint(
    device: &TrezorSimulator,
    named: Result<Fingerprint, HWIError>,
)
    requires
        call_ensures(<TrezorSimulator as HWI>::get_master_fingerprint, (device,), named),
    ensures
        named is Ok,
        named->Ok_0@ == fixed_fingerprint(),
{
    let f = choose|f: Result<Fingerprint, TrezorError>|
        #[trigger] call_ensures(Trezor::<TcpTransport>::fingerprint, (device,), f) && named
            == converted_result(f);
    lemma_live_device_names_its_fingerprint(device, f);
}

/// The device on USB of this library names the fixed fingerprint whenever
/// it is asked.
pub proof fn lemma_usb_device_names_its_fingerprint(
    device: &Trezor<UsbTransport>,
    named: Result<Fingerprint, HWIError>,
)
    requires
        call_ensures(<Trezor<UsbTransport> as HWI>::get_master_fingerprint, (device,), named),
    ensures
        named is Ok,
        named->Ok_0@ == fixed_fingerprint(),
{
    let f = choose|f: Result<Fingerprint, TrezorError>|
        #[trigger] call_ensures(Trezor::<UsbTransport>::fingerprint, (device,), f) && named
            == converted_result(f);
    lemma_live_device_names_its_fingerprint(device, f);
}

/// Whenever a Trezor names its fingerprint, it is the same four bytes.
pub proof fn lemma_fingerprint_never_changes<T: Transport>(
    device: &Trezor<T>,
    first: Result<Fingerprint, HWIError>,
    second: Result<Fingerprint, HWIError>,
)
    requires
        call_ensures(<Trezor<T> as HWI>::get_master_fingerprint, (device,), first),
        call_ensures(<Trezor<T> as HWI>::get_master_fingerprint, (device,), second),
        first is Ok,
        second is Ok,
    ensures
        first->Ok_0@ == fixed_fingerprint(),
        first->Ok_0 == second->Ok_0,
{
    assert(first->Ok_0.bytes =~= second->Ok_0.bytes);
}

/// Asked through the contract of all devices, a Trezor shows no key and
/// says why in the message of the vendor, unchanged.
pub proof fn lemma_no_key_is_shown<T: Transport>(
    device: &Trezor<T>,
    path: &DerivationPath,
    display: bool,
    answer: Result<ExtendedPubKey, HWIError>,
)
    requires
        call_ensures(<Trezor<T> as HWI>::get_extended_pubkey, (device, path, display), answer),
    ensures
        answer is Err,
        answer->Err_0 is Device,
        answer->Err_0->Device_0@ == no_key_message(),
{
}

} // verus!
