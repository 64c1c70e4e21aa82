//! One contract for signing devices of several vendors: the operations every
//! device answers, the errors they fail with, and the discovery of the devices
//! that are connected.

use vstd::prelude::*;
use bitcoin::util::bip32::{DerivationPath, ExtendedPubKey};
use bitcoin::util::psbt::PartiallySignedTransaction as Psbt;
use crate::fingerprint::Fingerprint;
use crate::text::{decimal, decimal_text};

pub mod fingerprint;
pub mod text;
pub mod trezor;
pub mod discovery;
pub mod report;

verus! {

/// `bitcoin::util::bip32::DerivationPath`, carried through unread.
#[verifier::external_type_specification]
#[verifier::external_body]
pub struct ExDerivationPath(bitcoin::util::bip32::DerivationPath);

/// `bitcoin::util::bip32::ExtendedPubKey`, carried through unread.
#[verifier::external_type_specification]
#[verifier::external_body]
pub struct ExExtendedPubKey(bitcoin::util::bip32::ExtendedPubKey);

/// `bitcoin::util::psbt::PartiallySignedTransaction`, carried through unread.
#[verifier::external_type_specification]
#[verifier::external_body]
pub struct ExPsbt(bitcoin::util::psbt::PartiallySignedTransaction);

/// Vendor and mode of a device. It is fixed when the handle is made and only
/// describes the device; no operation is chosen by it.
#[derive(Clone, Copy, Debug, PartialEq, Eq, Structural)]
pub enum DeviceKind {
    Trezor,
    TrezorSimulator,
}

impl DeviceKind {
    /// The name of the kind, as a report shows it.
    pub open spec fn name(self) -> Seq<char> {
        match self {
            DeviceKind::Trezor => "trezor"@,
            DeviceKind::TrezorSimulator => "trezor-simulator"@,
        }
    }

    /// The kind in words.
    pub fn to_string(&self) -> (s: String)
        ensures
            s@ == self.name(),
    {
        match self {
            DeviceKind::Trezor => String::from_str("trezor"),
            DeviceKind::TrezorSimulator => String::from_str("trezor-simulator"),
        }
    }
}

/// Firmware version of a device.
#[derive(Clone, Debug, PartialEq, Eq)]
pub struct Version {
    pub major: u32,
    pub minor: u32,
    pub patch: u32,
    pub prerelease: Option<String>,
}

impl Version {
    /// The version in words: the three numbers with dots between them, then
    /// a hyphen and the prerelease where there is one.
    pub open spec fn text(&self) -> Seq<char> {
        let numbers = decimal(self.major as nat) + "."@ + decimal(self.minor as nat) + "."@
            + decimal(self.patch as nat);
        match self.prerelease {
            Some(prerelease) => numbers + "-"@ + prerelease@,
            None => numbers,
        }
    }

    /// The version in words.
    pub fn to_string(&self) -> (s: String)
        ensures
            s@ == self.text(),
    {
        let mut s = decimal_text(self.major as u64);
        s.append(".");
        s.append(decimal_text(self.minor as u64).as_str());
        s.append(".");
        s.append(decimal_text(self.patch as u64).as_str());
        match &self.prerelease {
            Some(prerelease) => {
                s.append("-");
                s.append(prerelease.as_str());
            },
            None => {},
        }
        s
    }
}

/// Why an operation on a device failed.
#[derive(Debug)]
pub enum Error {
    /// The vendor has no such operation. The capability is absent; the device
    /// itself is in order.
    UnimplementedMethod,
    /// No device answered the liveness check.
    DeviceNotFound,
    /// Signing was attempted and no signature came back.
    DeviceDidNotSign,
    /// Any other failure, with the vendor's or the transport's own words.
    Device(String),
}

/// The operations every device answers, whatever its vendor and transport.
///
/// The spec functions say what a device answers with for as long as the
/// session lasts. A query may fail at any time, but two that succeed agree.
pub trait HWI {
    /// The tag given to the handle when it was made.
    spec fn kind(&self) -> DeviceKind;

    /// The bytes of the fingerprint of the device's master key.
    spec fn master_fingerprint(&self) -> Seq<u8>;

    /// The extended public key the device derives at `path`; `None` where it
    /// shows none.
    spec fn extended_pubkey(&self, path: DerivationPath) -> Option<ExtendedPubKey>;

    /// The message with which the device refuses the key at `path`, where it
    /// refuses with the same message every time; `None` where its refusals
    /// differ.
    spec fn key_refusal(&self, path: DerivationPath) -> Option<Seq<char>>;

    /// The identifier the device gives a wallet; `None` where the vendor has
    /// no identifiers.
    spec fn wallet_id(&self, name: Seq<char>, policy: Seq<char>) -> Option<[u8; 32]>;

    /// The transaction with the device's signatures added; `None` where the
    /// device adds none.
    spec fn signed(&self, psbt: Psbt) -> Option<Psbt>;

    /// A device adds nothing to a transaction that carries its signatures
    /// already: signed once more, it is refused or comes back as it is.
    proof fn signing_is_idempotent(&self, psbt: Psbt)
        ensures
            self.signed(psbt) is Some ==> self.signed(self.signed(psbt)->0) is None || self.signed(
                self.signed(psbt)->0,
            ) == self.signed(psbt),
    ;

    fn device_kind(&self) -> (kind: DeviceKind)
        ensures
            kind == self.kind(),
    ;

    fn get_version(&self) -> (r: Result<Version, Error>)
        ensures
            r is Err ==> r->Err_0 is UnimplementedMethod || r->Err_0 is Device,
    ;

    fn is_connected(&self) -> (r: Result<(), Error>)
        ensures
            r is Err ==> r->Err_0 is DeviceNotFound || r->Err_0 is Device,
    ;

    fn get_master_fingerprint(&self) -> (r: Result<Fingerprint, Error>)
        ensures
            r is Ok ==> r->Ok_0@ == self.master_fingerprint(),
            r is Err ==> r->Err_0 is Device,
    ;

    fn get_extended_pubkey(&self, path: &DerivationPath, display: bool) -> (r: Result<
        ExtendedPubKey,
        Error,
    >)
        ensures
            r is Ok ==> self.extended_pubkey(*path) == Some(r->Ok_0),
            r is Err ==> r->Err_0 is Device,
            r is Err && self.key_refusal(*path) is Some ==> r->Err_0->Device_0@
                == self.key_refusal(*path)->0,
    ;

    fn register_wallet(&self, name: &str, policy: &str) -> (r: Result<Option<[u8; 32]>, Error>)
        ensures
            r is Ok ==> r->Ok_0 == self.wallet_id(name@, policy@),
            r is Err ==> r->Err_0 is Device,
    ;

    fn sign_tx(&self, psbt: &mut Psbt) -> (r: Result<(), Error>)
        ensures
            r is Ok ==> self.signed(*old(psbt)) == Some(*final(psbt)),
            r is Err ==> *final(psbt) == *old(psbt),
            r is Err ==> r->Err_0 is DeviceDidNotSign || r->Err_0 is Device,
    ;
}

/// Within one session a device names one master fingerprint: two queries
/// that succeed return the same four bytes.
pub proof fn lemma_master_fingerprint_is_stable<D: HWI>(
    device: &D,
    first: Result<Fingerprint, Error>,
    second: Result<Fingerprint, Error>,
)
    requires
        call_ensures(D::get_master_fingerprint, (device,), first),
        call_ensures(D::get_master_fingerprint, (device,), second),
        first is Ok,
        second is Ok,
    ensures
        first->Ok_0@ == second->Ok_0@,
        first->Ok_0 == second->Ok_0,
{
    assert(first->Ok_0.bytes =~= second->Ok_0.bytes);
}

/// Within one session a device shows one key for a path, whether or not it
/// is asked to display it: two queries that succeed return the same key.
pub proof fn lemma_extended_pubkey_is_stable<D: HWI>(
    device: &D,
    path: &DerivationPath,
    shown: bool,
    shown_again: bool,
    first: Result<ExtendedPubKey, Error>,
    second: Result<ExtendedPubKey, Error>,
)
    requires
        call_ensures(D::get_extended_pubkey, (device, path, shown), first),
        call_ensures(D::get_extended_pubkey, (device, path, shown_again), second),
        first is Ok,
        second is Ok,
    ensures
        first->Ok_0 == second->Ok_0,
{
}

/// Registering one wallet twice gives one outcome: two registrations of the
/// same name and policy that succeed return the same identifier, or both
/// none.
pub proof fn lemma_register_wallet_is_deterministic<D: HWI>(
    device: &D,
    name: &str,
    policy: &str,
    first: Result<Option<[u8; 32]>, Error>,
    second: Result<Option<[u8; 32]>, Error>,
)
    requires
        call_ensures(D::register_wallet, (device, name, policy), first),
        call_ensures(D::register_wallet, (device, name, policy), second),
        first is Ok,
        second is Ok,
    ensures
        first->Ok_0 == second->Ok_0,
{
}

/// What `sign_tx` promises of one call: `before` and `after` are the
/// transaction as it was handed in and as it is handed back.
pub open spec fn signing_outcome<D: HWI>(
    device: &D,
    before: Psbt,
    result: Result<(), Error>,
    after: Psbt,
) -> bool {
    &&& result is Ok ==> device.signed(before) == Some(after)
    &&& result is Err ==> after == before
    &&& result is Err ==> result->Err_0 is DeviceDidNotSign || result->Err_0 is Device
}

/// Whether the device has nothing to add to the transaction: it signs
/// nothing of it, or leaves it as it is.
pub open spec fn fully_signed<D: HWI>(device: &D, psbt: Psbt) -> bool {
    device.signed(psbt) is None || device.signed(psbt) == Some(psbt)
}

/// A transaction that a device has signed is fully signed by it.
pub proof fn lemma_signed_is_fully_signed<D: HWI>(device: &D, unsigned: Psbt)
    requires
        device.signed(unsigned) is Some,
    ensures
        fully_signed(device, device.signed(unsigned)->0),
{
    device.signing_is_idempotent(unsigned);
}

/// Signing is idempotent. A fully signed transaction comes back from
/// `sign_tx` as it went in, the first time and the second, whether the
/// device reports success or that it did not sign.
pub proof fn lemma_signing_again_changes_nothing<D: HWI>(
    device: &D,
    psbt: Psbt,
    first: Result<(), Error>,
    once: Psbt,
    second: Result<(), Error>,
    twice: Psbt,
)
    requires
        fully_signed(device, psbt),
        signing_outcome(device, psbt, first, once),
        signing_outcome(device, once, second, twice),
    ensures
        once == psbt,
        twice == psbt,
{
}

} // verus!
