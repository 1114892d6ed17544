//! Unlocking a deniable vault.
//!
//! Nothing in such a vault says what it is. The user names the kind of slot, the
//! passphrase finds it, and what its envelope holds says which device has to
//! do what.

use crate::kinds::{DeniableKindTag, Platform, UnlockMethod, unlock_method_name, unlock_method_text};
use crate::requests::{UnlockOpts, pick_seed_secret, seed_secret};
use crate::script::{Act, LineView, Script, probe, step, stop};
use crate::sidecar::{HybridEntry, entry_for, find_entry};
use crate::text::{decimal, decimal_text, join3};
use crate::unlock::{AnchorFile, Envelope, is_fido2, is_pq, is_sep, is_tpm, method_fido2, method_pq, method_sep, method_tpm};
use vstd::prelude::*;
use vstd::string::*;

verus! {

/// The kind of slot that a method looks for, where the platform has it.
pub open spec fn expected_kind(m: UnlockMethod, p: Platform) -> Option<DeniableKindTag> {
    if method_tpm(m) && !p.spec_has_tpm_flow() || method_sep(m) && !p.spec_has_sep_flow() {
        None
    } else {
        Some(
            match m {
                UnlockMethod::Passphrase => DeniableKindTag::Passphrase,
                UnlockMethod::Fido2 => DeniableKindTag::Fido2Passphrase,
                UnlockMethod::HybridPq => DeniableKindTag::HybridPqPassphrase,
                UnlockMethod::HybridPqFido2 => DeniableKindTag::HybridPqFido2Passphrase,
                UnlockMethod::Sep => DeniableKindTag::SepPassphrase,
                UnlockMethod::SepFido2 => DeniableKindTag::SepFido2Passphrase,
                UnlockMethod::HybridPqSep => DeniableKindTag::HybridPqSepPassphrase,
                UnlockMethod::HybridPqSepFido2 => DeniableKindTag::HybridPqSepFido2Passphrase,
                UnlockMethod::Tpm2 | UnlockMethod::Tpm2Pin => DeniableKindTag::TpmPassphrase,
                UnlockMethod::Tpm2Fido2 => DeniableKindTag::TpmFido2Passphrase,
                UnlockMethod::HybridPqTpm2 => DeniableKindTag::HybridPqTpmPassphrase,
                UnlockMethod::HybridPqTpm2Fido2 => DeniableKindTag::HybridPqTpmFido2Passphrase,
            },
        )
    }
}

fn expected_kind_of(m: UnlockMethod, p: Platform) -> (k: Option<DeniableKindTag>)
    ensures
        k == expected_kind(m, p),
{
    if (is_tpm(m) && !p.has_tpm_flow()) || (is_sep(m) && !p.has_sep_flow()) {
        return None;
    }
    Some(
        match m {
            UnlockMethod::Passphrase => DeniableKindTag::Passphrase,
            UnlockMethod::Fido2 => DeniableKindTag::Fido2Passphrase,
            UnlockMethod::HybridPq => DeniableKindTag::HybridPqPassphrase,
            UnlockMethod::HybridPqFido2 => DeniableKindTag::HybridPqFido2Passphrase,
            UnlockMethod::Sep => DeniableKindTag::SepPassphrase,
            UnlockMethod::SepFido2 => DeniableKindTag::SepFido2Passphrase,
            UnlockMethod::HybridPqSep => DeniableKindTag::HybridPqSepPassphrase,
            UnlockMethod::HybridPqSepFido2 => DeniableKindTag::HybridPqSepFido2Passphrase,
            UnlockMethod::Tpm2 | UnlockMethod::Tpm2Pin => DeniableKindTag::TpmPassphrase,
            UnlockMethod::Tpm2Fido2 => DeniableKindTag::TpmFido2Passphrase,
            UnlockMethod::HybridPqTpm2 => DeniableKindTag::HybridPqTpmPassphrase,
            UnlockMethod::HybridPqTpm2Fido2 => DeniableKindTag::HybridPqTpmFido2Passphrase,
        },
    )
}

pub open spec fn unsupported_text(m: UnlockMethod) -> Seq<char> {
    "unlock method "@ + unlock_method_text(m)
        + " not yet supported in deniable mode on this platform"@
}

fn unsupported(m: UnlockMethod) -> (s: Script)
    ensures
        s@ == seq![stop(unsupported_text(m))],
{
    let text = join3(
        "unlock method ",
        unlock_method_name(m),
        " not yet supported in deniable mode on this platform",
    );
    Script::refuse(text.as_str())
}

/// The first phase: find the slot.
pub open spec fn deniable_start_lines(o: UnlockOpts, p: Platform) -> Seq<LineView> {
    if o.header_path is Some {
        seq![stop("detached headers are not yet supported in deniable mode"@)]
    } else if o.passphrase is None {
        seq![stop("passphrase required for deniable v2 envelope discovery"@)]
    } else {
        match expected_kind(o.method, p) {
            None => seq![stop(unsupported_text(o.method))],
            Some(kind) => seq![step(Act::OpenEnvelope { kind }, ""@)],
        }
    }
}

pub fn deniable_start(o: &UnlockOpts, p: Platform) -> (s: Script)
    ensures
        s@ == deniable_start_lines(*o, p),
{
    if o.header_path.is_some() {
        return Script::refuse("detached headers are not yet supported in deniable mode");
    }
    if o.passphrase.is_none() {
        return Script::refuse("passphrase required for deniable v2 envelope discovery");
    }
    match expected_kind_of(o.method, p) {
        None => unsupported(o.method),
        Some(kind) => Script::new().step(Act::OpenEnvelope { kind }, ""),
    }
}

/// Why the envelope that was found cannot be completed.
pub open spec fn envelope_refusal(o: UnlockOpts, p: Platform, e: Envelope) -> Option<Seq<char>> {
    if expected_kind(o.method, p) != Some(e.kind) {
        Some("credential kind mismatch (vault expects a different variant)"@)
    } else if method_fido2(o.method) && !p.hardware {
        Some(unsupported_text(o.method))
    } else {
        None
    }
}

/// Reading what the ML-KEM factor needs.
pub open spec fn deniable_seed_lines(o: UnlockOpts) -> Seq<LineView> {
    if o.hybrid_kyber_path is None {
        seq![stop("hybrid-PQ deniable unlock requires the .kyber seed file path"@)]
    } else {
        seq![
            step(Act::ReadSeed { pw: seed_secret(o.hybrid_seed_pw) }, ""@),
            step(Act::RequireSidecar, ""@),
        ]
    }
}

/// What the TPM or the enclave has to do.
pub open spec fn unseal_lines(o: UnlockOpts, e: Envelope) -> Seq<LineView> {
    if method_tpm(o.method) {
        if o.method == UnlockMethod::Tpm2Pin && o.pin is None {
            seq![stop("TPM PIN required"@)]
        } else if e.blob_len == 0 {
            seq![stop("envelope tpm_blob is empty for TPM variant"@)]
        } else {
            seq![step(Act::UnsealEnvelopeTpm { pin: o.method == UnlockMethod::Tpm2Pin }, ""@)]
        }
    } else if method_sep(o.method) {
        if e.blob_len == 0 {
            seq![stop("envelope SEP blob is empty for the Secure Enclave variant"@)]
        } else {
            seq![step(Act::UnsealEnvelopeSep, ""@)]
        }
    } else {
        seq![]
    }
}

/// What the authenticator has to do, and the end of the open. An envelope does
/// not say which salt convention it was made under, so a failure to decrypt
/// under the current one is followed by a try under the former.
pub open spec fn completion_lines(o: UnlockOpts, e: Envelope) -> Seq<LineView> {
    if !method_fido2(o.method) {
        seq![step(Act::CompleteOpen { kind: e.kind }, ""@)]
    } else if !e.has_salt {
        seq![stop("envelope missing hmac_salt for FIDO2 variant"@)]
    } else if o.pin is None {
        seq![stop("FIDO2 PIN required"@)]
    } else if e.cred_len == 0 {
        seq![stop("envelope cred_id is empty for FIDO2 variant"@)]
    } else {
        seq![
            step(Act::DeriveEnvelopeHmac { prehash: true }, ""@),
            probe(Act::CompleteOpen { kind: e.kind }, ""@),
            step(Act::DeriveEnvelopeHmac { prehash: false }, ""@),
            step(Act::CompleteOpen { kind: e.kind }, ""@),
        ]
    }
}

/// The devices and the end of the open.
pub open spec fn deniable_finish_lines(o: UnlockOpts, e: Envelope) -> Seq<LineView> {
    unseal_lines(o, e) + completion_lines(o, e)
}

/// The phase that follows the opening of the envelope.
pub open spec fn envelope_lines(o: UnlockOpts, p: Platform, e: Envelope) -> Seq<LineView> {
    match envelope_refusal(o, p, e) {
        Some(text) => seq![stop(text)],
        None => if method_pq(o.method) {
            deniable_seed_lines(o)
        } else {
            deniable_finish_lines(o, e)
        },
    }
}

/// Unseals the TPM blob of the envelope.
fn deniable_tpm_unseal_from_bytes(o: &UnlockOpts, e: Envelope) -> (s: Script)
    requires
        method_tpm(o.method),
    ensures
        s@ == unseal_lines(*o, e),
{
    if o.method == UnlockMethod::Tpm2Pin && o.pin.is_none() {
        return Script::refuse("TPM PIN required");
    }
    if e.blob_len == 0 {
        return Script::refuse("envelope tpm_blob is empty for TPM variant");
    }
    Script::new().step(Act::UnsealEnvelopeTpm { pin: o.method == UnlockMethod::Tpm2Pin }, "")
}

/// Unseals the enclave blob of the envelope.
fn deniable_sep_unseal_from_bytes(o: &UnlockOpts, e: Envelope) -> (s: Script)
    requires
        method_sep(o.method),
        !method_tpm(o.method),
    ensures
        s@ == unseal_lines(*o, e),
{
    if e.blob_len == 0 {
        return Script::refuse("envelope SEP blob is empty for the Secure Enclave variant");
    }
    Script::new().step(Act::UnsealEnvelopeSep, "")
}

fn completion(o: &UnlockOpts, e: Envelope) -> (s: Script)
    ensures
        s@ == completion_lines(*o, e),
{
    if !is_fido2(o.method) {
        return Script::new().step(Act::CompleteOpen { kind: e.kind }, "");
    }
    if !e.has_salt {
        return Script::refuse("envelope missing hmac_salt for FIDO2 variant");
    }
    if o.pin.is_none() {
        return Script::refuse("FIDO2 PIN required");
    }
    if e.cred_len == 0 {
        return Script::refuse("envelope cred_id is empty for FIDO2 variant");
    }
    Script::new().step(Act::DeriveEnvelopeHmac { prehash: true }, "").probe(
        Act::CompleteOpen { kind: e.kind },
        "",
    ).step(Act::DeriveEnvelopeHmac { prehash: false }, "").step(
        Act::CompleteOpen { kind: e.kind },
        "",
    )
}

fn deniable_finish(o: &UnlockOpts, e: Envelope) -> (s: Script)
    ensures
        s@ == deniable_finish_lines(*o, e),
{
    let first = if is_tpm(o.method) {
        deniable_tpm_unseal_from_bytes(o, e)
    } else if is_sep(o.method) {
        deniable_sep_unseal_from_bytes(o, e)
    } else {
        Script::new()
    };
    first.append(completion(o, e))
}

/// Goes on once the envelope is open.
pub fn deniable_envelope(o: &UnlockOpts, p: Platform, e: Envelope) -> (s: Script)
    ensures
        s@ == envelope_lines(*o, p, e),
{
    let expected = expected_kind_of(o.method, p);
    if expected.is_none() || expected.unwrap() != e.kind {
        return Script::refuse("credential kind mismatch (vault expects a different variant)");
    }
    if is_fido2(o.method) && !p.hardware {
        return unsupported(o.method);
    }
    if is_pq(o.method) {
        if o.hybrid_kyber_path.is_none() {
            return Script::refuse("hybrid-PQ deniable unlock requires the .kyber seed file path");
        }
        return Script::new().step(Act::ReadSeed { pw: pick_seed_secret(&o.hybrid_seed_pw) }, "").step(
            Act::RequireSidecar,
            "",
        );
    }
    deniable_finish(o, e)
}

pub open spec fn no_entry_text(slot: u8) -> Seq<char> {
    "no .hybrid sidecar entry for slot "@ + decimal(slot as nat)
        + " (the deniable header resolved this slot but the matching ML-KEM (pk, ct) pair is missing from the sidecar)"@
}

/// The phase that follows the reading of the sidecar: the entry of the slot that
/// was found, not simply the first one, is decapsulated.
pub open spec fn deniable_entries_lines(
    o: UnlockOpts,
    e: Envelope,
    entries: Seq<HybridEntry>,
) -> Seq<LineView> {
    match entry_for(entries, e.slot) {
        None => seq![stop(no_entry_text(e.slot))],
        Some(k) => seq![step(Act::DecapsulateEntry { entry: k as usize }, ""@)]
            + deniable_finish_lines(o, e),
    }
}

/// The ML-KEM factor, and then the devices.
pub fn deniable_pq_decap(o: &UnlockOpts, e: Envelope, entries: &Vec<HybridEntry>) -> (s: Script)
    ensures
        s@ == deniable_entries_lines(*o, e, entries@),
{
    match find_entry(entries, e.slot) {
        None => {
            let text = join3(
                "no .hybrid sidecar entry for slot ",
                decimal_text(e.slot as u64).as_str(),
                " (the deniable header resolved this slot but the matching ML-KEM (pk, ct) pair is missing from the sidecar)",
            );
            Script::refuse(text.as_str())
        },
        Some(k) => Script::new().step(Act::DecapsulateEntry { entry: k }, "").append(
            deniable_finish(o, e),
        ),
    }
}

/// The length of a deniable anchor.
pub const DENIABLE_ANCHOR_SIZE: u64 = 256;

/// What is wrong with an anchor file before it is decrypted. The format reports
/// all of it as one opaque failure; the user, who picked the file, is told more.
pub open spec fn anchor_fault(path: Seq<char>, file: AnchorFile) -> Option<Seq<char>> {
    match file {
        AnchorFile::Unreadable { error } => Some(
            "Anchor file not readable at "@ + path + ": "@ + error@
                + ". Pick the .anchor file you exported when you created the vault, or open without an anchor to skip rollback detection."@,
        ),
        AnchorFile::SymbolicLink => Some(
            "Anchor path at "@ + path
                + " is a symbolic link. LUKSbox refuses to follow symlinks for anchor files (a real anchor is a 256-byte regular file). Pick the underlying file directly."@,
        ),
        AnchorFile::Special => Some(
            "Anchor path at "@ + path
                + " is not a regular file. A deniable anchor is a 256-byte file produced by luksbox; directories, devices, and sockets are rejected."@,
        ),
        AnchorFile::Regular { len } => if len != DENIABLE_ANCHOR_SIZE {
            Some(
                "Anchor file at "@ + path + " is "@ + decimal(len as nat)
                    + " bytes; a deniable anchor is exactly "@ + decimal(
                    DENIABLE_ANCHOR_SIZE as nat,
                )
                    + " bytes. The file is either not a LUKSbox deniable anchor, was truncated/padded by transfer, or belongs to a standard (non-deniable) vault. Re-export the anchor from this vault."@,
            )
        } else {
            None
        },
    }
}

/// Looks at an anchor file before it is used.
pub fn preflight_deniable_anchor(path: &str, file: &AnchorFile) -> (r: Result<(), String>)
    ensures
        match anchor_fault(path@, *file) {
            Some(text) => r matches Err(e) && e@ == text,
            None => r is Ok,
        },
{
    match file {
        AnchorFile::Unreadable { error } => {
            let mut s = join3("Anchor file not readable at ", path, ": ");
            s.append(error.as_str());
            s.append(
                ". Pick the .anchor file you exported when you created the vault, or open without an anchor to skip rollback detection.",
            );
            Err(s)
        },
        AnchorFile::SymbolicLink => Err(
            join3(
                "Anchor path at ",
                path,
                " is a symbolic link. LUKSbox refuses to follow symlinks for anchor files (a real anchor is a 256-byte regular file). Pick the underlying file directly.",
            ),
        ),
        AnchorFile::Special => Err(
            join3(
                "Anchor path at ",
                path,
                " is not a regular file. A deniable anchor is a 256-byte file produced by luksbox; directories, devices, and sockets are rejected.",
            ),
        ),
        AnchorFile::Regular { len } => {
            if *len != DENIABLE_ANCHOR_SIZE {
                let mut s = join3("Anchor file at ", path, " is ");
                s.append(decimal_text(*len).as_str());
                s.append(" bytes; a deniable anchor is exactly ");
                s.append(decimal_text(DENIABLE_ANCHOR_SIZE).as_str());
                s.append(
                    " bytes. The file is either not a LUKSbox deniable anchor, was truncated/padded by transfer, or belongs to a standard (non-deniable) vault. Re-export the anchor from this vault.",
                );
                Err(s)
            } else {
                Ok(())
            }
        },
    }
}

/// How a deniable anchor that does not decrypt is reported.
pub open spec fn anchor_mismatch_text(path: Seq<char>, error: Seq<char>) -> Seq<char> {
    "Anchor verification failed for "@ + path
        + ": the file is the right size but does not decrypt under this vault's master key. Likely causes: anchor belongs to a different vault, was exported with different cipher/KDF parameters, or has been tampered with. Re-export the anchor from this vault, or open without an anchor (skips rollback detection). (underlying error: "@
        + error + ")"@
}

/// The error of [`Act::SetAnchor`] in deniable mode, from the error underneath.
pub fn anchor_mismatch(path: &str, error: &str) -> (s: String)
    ensures
        s@ == anchor_mismatch_text(path@, error@),
{
    let mut s = join3(
        "Anchor verification failed for ",
        path,
        ": the file is the right size but does not decrypt under this vault's master key. Likely causes: anchor belongs to a different vault, was exported with different cipher/KDF parameters, or has been tampered with. Re-export the anchor from this vault, or open without an anchor (skips rollback detection). (underlying error: ",
    );
    s.append(error);
    s.append(")");
    s
}

} // verus!
