//! Discovery: every supported vendor and transport is tried, and the devices
//! that answered are handed out, in the order in which they were tried.

use vstd::prelude::*;
use bitcoin::util::bip32::{DerivationPath, ExtendedPubKey};
use bitcoin::util::psbt::PartiallySignedTransaction as Psbt;
use crate::fingerprint::Fingerprint;
use crate::trezor::{
    fixed_fingerprint, lemma_simulator_answers, lemma_simulator_names_its_fingerprint,
    lemma_usb_device_answers, lemma_usb_device_names_its_fingerprint, Trezor, TrezorSimulator,
    UsbTransport,
};
use crate::{DeviceKind, Error, Version, HWI};

verus! {

/// A connected device of any supported vendor and transport. It is used
/// through [`HWI`] alone.
#[derive(Debug)]
pub enum Device {
    TrezorSimulator(TrezorSimulator),
    Trezor(Trezor<UsbTransport>),
}

impl HWI for Device {
    open spec fn kind(&self) -> DeviceKind {
        match self {
            Device::TrezorSimulator(d) => d.kind(),
            Device::Trezor(d) => d.kind(),
        }
    }

    open spec fn master_fingerprint(&self) -> Seq<u8> {
        match self {
            Device::TrezorSimulator(d) => d.master_fingerprint(),
            Device::Trezor(d) => d.master_fingerprint(),
        }
    }

    open spec fn extended_pubkey(&self, path: DerivationPath) -> Option<ExtendedPubKey> {
        match self {
            Device::TrezorSimulator(d) => d.extended_pubkey(path),
            Device::Trezor(d) => d.extended_pubkey(path),
        }
    }

    open spec fn key_refusal(&self, path: DerivationPath) -> Option<Seq<char>> {
        match self {
            Device::TrezorSimulator(d) => d.key_refusal(path),
            Device::Trezor(d) => d.key_refusal(path),
        }
    }

    open spec fn wallet_id(&self, name: Seq<char>, policy: Seq<char>) -> Option<[u8; 32]> {
        match self {
            Device::TrezorSimulator(d) => d.wallet_id(name, policy),
            Device::Trezor(d) => d.wallet_id(name, policy),
        }
    }

    open spec fn signed(&self, psbt: Psbt) -> Option<Psbt> {
        match self {
            Device::TrezorSimulator(d) => d.signed(psbt),
            Device::Trezor(d) => d.signed(psbt),
        }
    }

    proof fn signing_is_idempotent(&self, psbt: Psbt) {
        match self {
            Device::TrezorSimulator(d) => d.signing_is_idempotent(psbt),
            Device::Trezor(d) => d.signing_is_idempotent(psbt),
        }
    }

    fn device_kind(&self) -> (kind: DeviceKind) {
        match self {
            Device::TrezorSimulator(d) => d.device_kind(),
            Device::Trezor(d) => d.device_kind(),
        }
    }

    fn get_version(&self) -> (r: Result<Version, Error>)
        ensures
            r is Err,
            r->Err_0 is UnimplementedMethod,
    {
        match self {
            Device::TrezorSimulator(d) => d.get_version(),
            Device::Trezor(d) => d.get_version(),
        }
    }

    /// The liveness check of the device behind the handle, which succeeds:
    /// the channels of both devices answer every request.
    fn is_connected(&self) -> (r: Result<(), Error>)
        ensures
            (match self {
                Device::TrezorSimulator(d) => call_ensures(
                    <TrezorSimulator as HWI>::is_connected,
                    (d,),
                    r,
                ),
                Device::Trezor(d) => call_ensures(
                    <Trezor<UsbTransport> as HWI>::is_connected,
                    (d,),
                    r,
                ),
            }),
            r is Ok,
    {
        match self {
            Device::TrezorSimulator(d) => {
                let r = d.is_connected();
                proof {
                    assert(call_ensures(<TrezorSimulator as HWI>::is_connected, (d,), r));
                    lemma_simulator_answers(d, r);
                }
                r
            },
            Device::Trezor(d) => {
                let r = d.is_connected();
                proof {
                    assert(call_ensures(<Trezor<UsbTransport> as HWI>::is_connected, (d,), r));
                    lemma_usb_device_answers(d, r);
                }
                r
            },
        }
    }

    /// The answer of the device behind the handle, which names the fixed
    /// fingerprint: the channels of both devices answer every request.
    fn get_master_fingerprint(&self) -> (r: Result<Fingerprint, Error>)
        ensures
            (match self {
                Device::TrezorSimulator(d) => call_ensures(
                    <TrezorSimulator as HWI>::get_master_fingerprint,
                    (d,),
                    r,
                ),
                Device::Trezor(d) => call_ensures(
                    <Trezor<UsbTransport> as HWI>::get_master_fingerprint,
                    (d,),
                    r,
                ),
            }),
            r is Ok,
            r->Ok_0@ == fixed_fingerprint(),
    {
        match self {
            Device::TrezorSimulator(d) => {
                let r = d.get_master_fingerprint();
                proof {
                    assert(call_ensures(<TrezorSimulator as HWI>::get_master_fingerprint, (d,), r));
                    lemma_simulator_names_its_fingerprint(d, r);
                }
                r
            },
            Device::Trezor(d) => {
                let r = d.get_master_fingerprint();
                proof {
                    assert(call_ensures(
                        <Trezor<UsbTransport> as HWI>::get_master_fingerprint,
                        (d,),
                        r,
                    ));
                    lemma_usb_device_names_its_fingerprint(d, r);
                }
                r
            },
        }
    }

    fn get_extended_pubkey(&self, path: &DerivationPath, display: bool) -> (r: Result<
        ExtendedPubKey,
        Error,
    >)
        ensures
            r is Err,
    {
        match self {
            Device::TrezorSimulator(d) => HWI::get_extended_pubkey(d, path, display),
            Device::Trezor(d) => HWI::get_extended_pubkey(d, path, display),
        }
    }

    fn register_wallet(&self, name: &str, policy: &str) -> (r: Result<Option<[u8; 32]>, Error>)
        ensures
            r is Ok,
    {
        match self {
            Device::TrezorSimulator(d) => d.register_wallet(name, policy),
            Device::Trezor(d) => d.register_wallet(name, policy),
        }
    }

    fn sign_tx(&self, psbt: &mut Psbt) -> (r: Result<(), Error>)
        ensures
            r is Err,
            r->Err_0 is DeviceDidNotSign,
    {
        match self {
            Device::TrezorSimulator(d) => d.sign_tx(psbt),
            Device::Trezor(d) => d.sign_tx(psbt),
        }
    }
}

/// The outcome of the attempt on the simulator, as an attempt on a device.
pub open spec fn as_simulator(attempt: Result<TrezorSimulator, Error>) -> Result<Device, Error> {
    match attempt {
        Ok(device) => Ok(Device::TrezorSimulator(device)),
        Err(e) => Err(e),
    }
}

/// The outcome of the attempt on the hardware, as an attempt on a device.
pub open spec fn as_hardware(attempt: Result<Trezor<UsbTransport>, Error>) -> Result<
    Device,
    Error,
> {
    match attempt {
        Ok(device) => Ok(Device::Trezor(device)),
        Err(e) => Err(e),
    }
}

/// The devices that discovery hands out, given how the two attempts ended:
/// those that answered, the simulator before the hardware it stands for.
pub open spec fn found(
    simulator: Result<TrezorSimulator, Error>,
    hardware: Result<Trezor<UsbTransport>, Error>,
) -> Seq<Device> {
    connected(seq![as_simulator(simulator), as_hardware(hardware)])
}

/// Gathers the devices of one round of discovery from the outcomes of its
/// attempts. A failed attempt is left out, whatever its failure, and keeps
/// no other device from the list.
pub fn discover(
    simulator: Result<TrezorSimulator, Error>,
    hardware: Result<Trezor<UsbTransport>, Error>,
) -> (devices: Vec<Device>)
    ensures
        devices@ == found(simulator, hardware),
{
    let mut attempts: Vec<Result<Device, Error>> = Vec::new();
    attempts.push(
        match simulator {
            Ok(device) => Ok(Device::TrezorSimulator(device)),
            Err(e) => Err(e),
        },
    );
    attempts.push(
        match hardware {
            Ok(device) => Ok(Device::Trezor(device)),
            Err(e) => Err(e),
        },
    );
    proof {
        assert(attempts@ =~= seq![as_simulator(simulator), as_hardware(hardware)]);
    }
    collect(attempts)
}

/// Tries every supported vendor and transport, simulators before the
/// hardware they stand for, and hands out the devices that answered, in
/// that order. An attempt that fails is left out and stops nothing: what
/// comes out is what `discover` makes of the outcomes of the two connects.
/// The channels of this library answer every request, so both devices are
/// found.
pub fn list_hardware_wallets() -> (devices: Vec<Device>)
    ensures
        exists|
            simulator: Result<TrezorSimulator, Error>,
            hardware: Result<Trezor<UsbTransport>, Error>,
        |
            {
                &&& call_ensures(TrezorSimulator::try_connect, (), simulator)
                &&& call_ensures(Trezor::<UsbTransport>::try_connect_usb, (), hardware)
                &&& devices@ == #[trigger] found(simulator, hardware)
            },
        devices@.len() == 2,
        devices@[0] is TrezorSimulator,
        devices@[0].kind() == DeviceKind::TrezorSimulator,
        devices@[1] is Trezor,
        devices@[1].kind() == DeviceKind::Trezor,
{
    let simulator = TrezorSimulator::try_connect();
    let hardware = Trezor::try_connect_usb();
    proof {
        assert(call_ensures(TrezorSimulator::try_connect, (), simulator));
        assert(call_ensures(Trezor::<UsbTransport>::try_connect_usb, (), hardware));
        lemma_found_at_most_two(simulator, hardware);
    }
    discover(simulator, hardware)
}

/// What discovery finds, case by case: both devices in order, the one that
/// answered, or none.
pub proof fn lemma_found_at_most_two(
    simulator: Result<TrezorSimulator, Error>,
    hardware: Result<Trezor<UsbTransport>, Error>,
)
    ensures
        found(simulator, hardware).len() <= 2,
        simulator is Ok && hardware is Ok ==> found(simulator, hardware) == seq![
            Device::TrezorSimulator(simulator->Ok_0),
            Device::Trezor(hardware->Ok_0),
        ],
        simulator is Ok && hardware is Err ==> found(simulator, hardware) == seq![
            Device::TrezorSimulator(simulator->Ok_0),
        ],
        simulator is Err && hardware is Ok ==> found(simulator, hardware) == seq![
            Device::Trezor(hardware->Ok_0),
        ],
        simulator is Err && hardware is Err ==> found(simulator, hardware) == Seq::<Device>::empty(),
{
    let attempts = seq![as_simulator(simulator), as_hardware(hardware)];
    let first = seq![as_simulator(simulator)];
    assert(attempts.drop_last() =~= first);
    assert(first.drop_last() =~= Seq::<Result<Device, Error>>::empty());
    assert(connected(Seq::<Result<Device, Error>>::empty()) =~= Seq::<Device>::empty());
    assert(connected(first) =~= (match as_simulator(simulator) {
        Ok(device) => seq![device],
        Err(_) => Seq::empty(),
    }));
    assert(connected(attempts) =~= (match as_hardware(hardware) {
        Ok(device) => connected(first).push(device),
        Err(_) => connected(first),
    }));
}

/// The devices that answered among `attempts`, in the order of the attempts.
pub open spec fn connected<D>(attempts: Seq<Result<D, Error>>) -> Seq<D>
    decreases attempts.len(),
{
    if attempts.len() == 0 {
        Seq::empty()
    } else {
        match attempts.last() {
            Ok(device) => connected(attempts.drop_last()).push(device),
            Err(_) => connected(attempts.drop_last()),
        }
    }
}

/// How many of `attempts` met a device.
pub open spec fn reachable<D>(attempts: Seq<Result<D, Error>>) -> nat
    decreases attempts.len(),
{
    if attempts.len() == 0 {
        0
    } else if attempts.last() is Ok {
        reachable(attempts.drop_last()) + 1
    } else {
        reachable(attempts.drop_last())
    }
}

/// Takes note of one attempt: a device that answered joins the list, a
/// failure leaves the list as it is and goes no further.
pub fn record<D>(devices: &mut Vec<D>, attempt: Result<D, Error>)
    ensures
        final(devices)@ == old(devices)@ + connected(seq![attempt]),
        attempt is Ok ==> final(devices)@ == old(devices)@.push(attempt->Ok_0),
        attempt is Err ==> final(devices)@ == old(devices)@,
{
    proof {
        assert(seq![attempt].drop_last() =~= Seq::<Result<D, Error>>::empty());
        assert(connected(Seq::<Result<D, Error>>::empty()) =~= Seq::<D>::empty());
        assert(connected(seq![attempt]) =~= (match attempt {
            Ok(device) => seq![device],
            Err(_) => Seq::empty(),
        }));
    }
    match attempt {
        Ok(device) => {
            devices.push(device);
        },
        Err(_) => {},
    }
}

/// The devices that answered among `attempts`, in the order of the attempts.
pub fn collect<D>(attempts: Vec<Result<D, Error>>) -> (devices: Vec<D>)
    ensures
        devices@ == connected(attempts@),
{
    let mut devices: Vec<D> = Vec::new();
    let ghost all = attempts@;
    for attempt in iter: attempts
        invariant
            iter.seq() == all,
            devices@ == connected(all.take(iter.index() as int)),
    {
        proof {
            let i = iter.index() as int;
            assert(all.take(i + 1).drop_last() =~= all.take(i));
            assert(all.take(i + 1).last() == attempt);
        }
        record(&mut devices, attempt);
    }
    proof {
        assert(all.take(all.len() as int) =~= all);
    }
    devices
}

/// With K of N attempts meeting a device, K devices are handed out.
pub proof fn lemma_as_many_as_reachable<D>(attempts: Seq<Result<D, Error>>)
    ensures
        connected(attempts).len() == reachable(attempts),
        reachable(attempts) <= attempts.len(),
    decreases attempts.len(),
{
    if attempts.len() > 0 {
        lemma_as_many_as_reachable(attempts.drop_last());
    }
}

/// A failure changes nothing, wherever among the attempts it stands and
/// whatever it is: with it or without it the same devices are handed out.
pub proof fn lemma_failure_is_isolated<D>(attempts: Seq<Result<D, Error>>, at: int, failure: Error)
    requires
        0 <= at <= attempts.len(),
    ensures
        connected(attempts.insert(at, Err(failure))) == connected(attempts),
    decreases attempts.len(),
{
    let with = attempts.insert(at, Err::<D, Error>(failure));
    if at == attempts.len() {
        assert(with.drop_last() =~= attempts);
    } else {
        lemma_failure_is_isolated(attempts.drop_last(), at, failure);
        assert(with.drop_last() =~= attempts.drop_last().insert(at, Err::<D, Error>(failure)));
        assert(with.last() == attempts.last());
    }
}

/// Which failures there were does not matter: two runs in which the same
/// attempts met the same devices hand out the same devices.
pub proof fn lemma_failures_do_not_matter<D>(a: Seq<Result<D, Error>>, b: Seq<Result<D, Error>>)
    requires
        a.len() == b.len(),
        forall|i: int| 0 <= i < a.len() ==> (a[i] is Ok <==> b[i] is Ok),
        forall|i: int| 0 <= i < a.len() && a[i] is Ok ==> a[i]->Ok_0 == b[i]->Ok_0,
    ensures
        connected(a) == connected(b),
    decreases a.len(),
{
    if a.len() > 0 {
        lemma_failures_do_not_matter(a.drop_last(), b.drop_last());
    }
}

/// The devices are handed out in the order of the attempts: each stands
/// where a successful attempt of the same rank stands, and ranks rise with
/// the attempts.
pub proof fn lemma_in_order_of_attempts<D>(attempts: Seq<Result<D, Error>>, i: int, j: int)
    requires
        0 <= i < j < attempts.len(),
        attempts[i] is Ok,
        attempts[j] is Ok,
    ensures
        reachable(attempts.take(i)) < reachable(attempts.take(j)) < connected(attempts).len(),
        connected(attempts)[reachable(attempts.take(i)) as int] == attempts[i]->Ok_0,
        connected(attempts)[reachable(attempts.take(j)) as int] == attempts[j]->Ok_0,
{
    lemma_place_of_device(attempts, i);
    lemma_place_of_device(attempts, j);
    lemma_reachable_grows(attempts.take(j), i + 1);
    assert(attempts.take(j).take(i + 1) =~= attempts.take(i + 1));
    assert(attempts.take(i + 1).drop_last() =~= attempts.take(i));
}

/// A device stands at the rank of its attempt among the successful ones.
pub proof fn lemma_place_of_device<D>(attempts: Seq<Result<D, Error>>, i: int)
    requires
        0 <= i < attempts.len(),
        attempts[i] is Ok,
    ensures
        reachable(attempts.take(i)) < connected(attempts).len(),
        connected(attempts)[reachable(attempts.take(i)) as int] == attempts[i]->Ok_0,
    decreases attempts.len(),
{
    lemma_as_many_as_reachable(attempts);
    lemma_as_many_as_reachable(attempts.drop_last());
    if i == attempts.len() - 1 {
        assert(attempts.take(i) =~= attempts.drop_last());
    } else {
        lemma_place_of_device(attempts.drop_last(), i);
        assert(attempts.drop_last().take(i) =~= attempts.take(i));
    }
}

/// Among the first attempts there are no more successes than among all.
pub proof fn lemma_reachable_grows<D>(attempts: Seq<Result<D, Error>>, n: int)
    requires
        0 <= n <= attempts.len(),
    ensures
        reachable(attempts.take(n)) <= reachable(attempts),
    decreases attempts.len(),
{
    if n == attempts.len() {
        assert(attempts.take(n) =~= attempts);
    } else {
        lemma_reachable_grows(attempts.drop_last(), n);
        assert(attempts.drop_last().take(n) =~= attempts.take(n));
    }
}

} // verus!
