//! What is reported of the devices that were found: how many there are, and
//! one line for each.

use vstd::prelude::*;
use crate::fingerprint::{hex_text, Fingerprint};
use crate::text::{decimal, decimal_text};
use crate::{DeviceKind, Error, Version, HWI};

verus! {

/// How many devices are connected, in words. One device or none is a
/// "device", more are "devices".
pub open spec fn summary(count: nat) -> Seq<char> {
    decimal(count) + " device"@ + (if count > 1 {
        "s"@
    } else {
        Seq::empty()
    }) + " connected"@
}

/// What is shown for a version query: the version, or "unknown" where the
/// query failed, for whatever reason.
pub open spec fn version_words(version: Result<Version, Error>) -> Seq<char> {
    match version {
        Ok(version) => version.text(),
        Err(_) => "unknown"@,
    }
}

/// The line that describes one device.
pub open spec fn device_line(
    kind: DeviceKind,
    fingerprint: Seq<u8>,
    version: Result<Version, Error>,
) -> Seq<char> {
    kind.name() + " (fingerprint: "@ + hex_text(fingerprint) + ", version: "@ + version_words(
        version,
    ) + ")"@
}

/// The first line of a report.
pub fn connected_summary(count: usize) -> (line: String)
    ensures
        line@ == summary(count as nat),
{
    let mut line = decimal_text(count as u64);
    line.append(" device");
    if count > 1 {
        line.append("s");
    }
    line.append(" connected");
    proof {
        assert(line@ =~= summary(count as nat));
    }
    line
}

/// The line of a report that describes one device, from its kind and its
/// answers to the queries for its fingerprint and its version.
pub fn device_summary(
    kind: DeviceKind,
    fingerprint: &Fingerprint,
    version: &Result<Version, Error>,
) -> (line: String)
    ensures
        line@ == device_line(kind, fingerprint@, *version),
{
    let mut line = kind.to_string();
    line.append(" (fingerprint: ");
    line.append(fingerprint.to_string().as_str());
    line.append(", version: ");
    match version {
        Ok(version) => {
            line.append(version.to_string().as_str());
        },
        Err(_) => {
            line.append("unknown");
        },
    }
    line.append(")");
    line
}

/// Whether `line` describes `device`: its kind, its fingerprint, and what
/// an answer of this device to a version query shows.
pub open spec fn describes<D: HWI>(line: Seq<char>, device: &D) -> bool {
    exists|version: Result<Version, Error>|
        call_ensures(D::get_version, (device,), version) && line == #[trigger] device_line(
            device.kind(),
            device.master_fingerprint(),
            version,
        )
}

/// Asks a device for its kind, its fingerprint and its version, and
/// describes it in one line. A device that does not name its fingerprint is
/// not described: its failure is handed back.
pub fn describe<D: HWI>(device: &D) -> (r: Result<String, Error>)
    ensures
        r is Ok ==> describes(r->Ok_0@, device),
        r is Err ==> r->Err_0 is Device,
{
    let kind = device.device_kind();
    match device.get_master_fingerprint() {
        Ok(fingerprint) => {
            let version = device.get_version();
            let line = device_summary(kind, &fingerprint, &version);
            assert(call_ensures(D::get_version, (device,), version));
            assert(line@ == device_line(device.kind(), device.master_fingerprint(), version));
            Ok(line)
        },
        Err(e) => Err(e),
    }
}

/// The whole report: the summary, then one line for each device, in the
/// order of the devices. The first device that does not name its
/// fingerprint ends it with that failure; with no device there is nothing
/// to fail, and the report is the summary alone.
pub fn report<D: HWI>(devices: &Vec<D>) -> (r: Result<Vec<String>, Error>)
    ensures
        devices@.len() == 0 ==> r is Ok,
        r is Ok ==> {
            &&& r->Ok_0@.len() == devices@.len() + 1
            &&& r->Ok_0@[0]@ == summary(devices@.len())
            &&& forall|i: int|
                0 <= i < devices@.len() ==> describes(#[trigger] r->Ok_0@[i + 1]@, &devices@[i])
        },
        r is Err ==> r->Err_0 is Device,
{
    let mut lines: Vec<String> = Vec::new();
    lines.push(connected_summary(devices.len()));
    let mut at: usize = 0;
    while at < devices.len()
        invariant
            at <= devices@.len(),
            lines@.len() == at + 1,
            lines@[0]@ == summary(devices@.len()),
            forall|i: int| 0 <= i < at ==> describes(#[trigger] lines@[i + 1]@, &devices@[i]),
        decreases devices@.len() - at,
    {
        match describe(&devices[at]) {
            Ok(line) => {
                lines.push(line);
            },
            Err(e) => {
                return Err(e);
            },
        }
        at = at + 1;
    }
    Ok(lines)
}

} // verus!
