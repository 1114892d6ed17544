//! Key hardware: which authenticator to use, and the checks that are made
//! before a flow depends on a device.

use crate::kinds::{Platform, TargetOs};
use crate::text::{join2, same_text};
use vstd::prelude::*;

verus! {

/// The authenticator that the user has picked; none means the first one found.
pub struct SelectedDevice {
    pub path: Option<String>,
}

/// Picks an authenticator.
pub fn set_selected_fido2_device(cell: &mut SelectedDevice, path: Option<String>)
    ensures
        final(cell).path == path,
{
    cell.path = path;
}

/// The authenticator last picked.
pub fn selected_fido2_device(cell: &SelectedDevice) -> (r: Option<String>)
    ensures
        match cell.path {
            Some(p) => r matches Some(q) && q@ == p@,
            None => r is None,
        },
{
    match &cell.path {
        Some(p) => Some(p.clone()),
        None => None,
    }
}

/// An authenticator as the system lists it.
pub struct Device {
    pub path: String,
    pub label: String,
}

/// The place of the device to select after a new enumeration: the one that was
/// selected, if it is still there, else the first.
pub open spec fn reselect(devices: Seq<Device>, previous: Option<Seq<char>>) -> Option<int> {
    if devices.len() == 0 {
        None
    } else if previous is Some && exists|i: int|
        0 <= i < devices.len() && (#[trigger] devices[i]).path@ == previous->0 {
        Some(first_with(devices, previous->0, 0))
    } else {
        Some(0)
    }
}

/// The place of the first device at `path`, from place `from` on.
pub open spec fn first_with(devices: Seq<Device>, path: Seq<char>, from: int) -> int
    decreases devices.len() - from,
{
    if from < 0 || from >= devices.len() || devices[from].path@ == path {
        from
    } else {
        first_with(devices, path, from + 1)
    }
}

/// Which of the freshly enumerated devices is selected.
pub fn reselect_device(devices: &Vec<Device>, previous: Option<&str>) -> (r: Option<usize>)
    ensures
        match reselect(
            devices@,
            match previous {
                Some(p) => Some(p@),
                None => None,
            },
        ) {
            Some(i) => r matches Some(k) && k == i && k < devices@.len(),
            None => r is None,
        },
{
    if devices.len() == 0 {
        return None;
    }
    if let Some(p) = previous {
        let mut i: usize = 0;
        while i < devices.len()
            invariant
                i <= devices@.len(),
                previous == Some(p),
                devices@.len() > 0,
                first_with(devices@, p@, 0) == first_with(devices@, p@, i as int),
                forall|k: int| 0 <= k < i ==> (#[trigger] devices@[k]).path@ != p@,
            decreases devices.len() - i,
        {
            if same_text(devices[i].path.as_str(), p) {
                assert(devices@[i as int].path@ == p@);
                return Some(i);
            }
            i = i + 1;
        }
    }
    Some(0)
}

/// The salt conventions to try on an authenticator keyslot, in order. The
/// system library of Windows transforms the salt in a way that cannot be
/// observed, so there the opposite convention is worth a second try.
pub open spec fn conventions(declared_prehash: bool, os: TargetOs) -> Seq<bool> {
    if os == TargetOs::Windows {
        seq![declared_prehash, !declared_prehash]
    } else {
        seq![declared_prehash]
    }
}

pub fn fido2_salt_conventions(declared_prehash: bool, os: TargetOs) -> (v: Vec<bool>)
    ensures
        v@ == conventions(declared_prehash, os),
{
    let mut v: Vec<bool> = Vec::new();
    v.push(declared_prehash);
    if os == TargetOs::Windows {
        v.push(!declared_prehash);
    }
    assert(v@ =~= conventions(declared_prehash, os));
    v
}

/// Whether a Secure Enclave flow can start. `probe` is what opening the
/// enclave said.
pub fn pre_check_sep(p: Platform, probe: Result<(), String>) -> (r: Result<(), String>)
    ensures
        r is Ok <==> p.hardware && probe is Ok,
        !p.hardware ==> (r matches Err(e) && e@
            == "Secure Enclave support not compiled in (rebuild with --features hardware)"@),
        p.hardware ==> (probe matches Err(cause) ==> r matches Err(e) && e@
            == "Secure Enclave unavailable, refusing to start a SEP-bound flow that wouldn't have its primary keyslot:\n\n"@
            + cause@),
{
    if !p.hardware {
        return Err(
            "Secure Enclave support not compiled in (rebuild with --features hardware)".to_owned(),
        );
    }
    match probe {
        Ok(()) => Ok(()),
        Err(cause) => Err(
            join2(
                "Secure Enclave unavailable, refusing to start a SEP-bound flow that wouldn't have its primary keyslot:\n\n",
                cause.as_str(),
            ),
        ),
    }
}

/// Whether a TPM flow can start. `probe` is what opening the chip said.
pub fn pre_check_tpm(p: Platform, probe: Result<(), String>) -> (r: Result<(), String>)
    ensures
        r is Ok <==> p.hardware && probe is Ok,
        !p.hardware ==> (r matches Err(e) && e@ == "TPM 2.0 hardware support not compiled in"@),
        p.hardware ==> (probe matches Err(cause) ==> r matches Err(e) && e@
            == "TPM 2.0 unavailable, refusing to start a TPM-bound flow that wouldn't have its primary keyslot:\n\n"@
            + cause@),
{
    if !p.hardware {
        return Err("TPM 2.0 hardware support not compiled in".to_owned());
    }
    match probe {
        Ok(()) => Ok(()),
        Err(cause) => Err(
            join2(
                "TPM 2.0 unavailable, refusing to start a TPM-bound flow that wouldn't have its primary keyslot:\n\n",
                cause.as_str(),
            ),
        ),
    }
}

/// Whether an authenticator flow can start, given how many authenticators a
/// fresh enumeration found.
pub fn pre_check_fido2(p: Platform, found: usize) -> (r: Result<(), String>)
    ensures
        r is Ok <==> p.hardware && found > 0,
        !p.hardware ==> (r matches Err(e) && e@ == "FIDO2 hardware support not compiled in"@),
        p.hardware && found == 0 ==> (r matches Err(e) && e@
            == "No FIDO2 authenticator detected. Plug in your security key (any CTAP2: YubiKey, Nitrokey, SoloKey, Token2, OnlyKey, etc.) or, on Windows / supported macOS, enable the platform authenticator (Windows Hello / Touch ID), then click Refresh."@),
{
    if !p.hardware {
        return Err("FIDO2 hardware support not compiled in".to_owned());
    }
    if found == 0 {
        return Err(
            "No FIDO2 authenticator detected. Plug in your security key (any CTAP2: YubiKey, Nitrokey, SoloKey, Token2, OnlyKey, etc.) or, on Windows / supported macOS, enable the platform authenticator (Windows Hello / Touch ID), then click Refresh.".to_owned(),
        );
    }
    Ok(())
}

/// After a new enumeration the device that was selected stays selected if it is
/// still there, and the first one is if it is not; without devices none is.
pub proof fn law_selected_device_stays(devices: Seq<Device>, previous: Option<Seq<char>>)
    ensures
        match reselect(devices, previous) {
            None => devices.len() == 0,
            Some(i) => {
                &&& 0 <= i < devices.len()
                &&& previous is Some && (exists|k: int|
                    0 <= k < devices.len() && (#[trigger] devices[k]).path@ == previous->0)
                    ==> devices[i].path@ == previous->0
                &&& previous is None || (forall|k: int|
                    0 <= k < devices.len() ==> (#[trigger] devices[k]).path@ != previous->0) ==> i
                    == 0
            },
        },
{
    if devices.len() > 0 && previous is Some && exists|k: int|
        0 <= k < devices.len() && (#[trigger] devices[k]).path@ == previous->0 {
        let k = choose|k: int|
            0 <= k < devices.len() && (#[trigger] devices[k]).path@ == previous->0;
        lemma_first_with(devices, previous->0, 0, k);
    }
}

proof fn lemma_first_with(devices: Seq<Device>, path: Seq<char>, from: int, k: int)
    requires
        0 <= from <= k < devices.len(),
        devices[k].path@ == path,
    ensures
        from <= first_with(devices, path, from) <= k,
        devices[first_with(devices, path, from)].path@ == path,
    decreases k - from,
{
    if devices[from].path@ != path {
        lemma_first_with(devices, path, from + 1, k);
    }
}

/// The convention that a keyslot declares is tried first; the other one is tried
/// after it under Windows, and nowhere else.
pub proof fn law_declared_convention_comes_first(declared_prehash: bool, os: TargetOs)
    ensures
        conventions(declared_prehash, os)[0] == declared_prehash,
        conventions(declared_prehash, os).len() == (if os == TargetOs::Windows {
            2nat
        } else {
            1
        }),
        os == TargetOs::Windows ==> conventions(declared_prehash, os)[1] != declared_prehash,
{
}

} // verus!
