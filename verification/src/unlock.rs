//! Unlocking a vault.
//!
//! An unlock goes through phases, because what is to be done depends on what
//! has been read so far: the header, the deniable envelope, the sidecar. Each
//! phase is one script, given by [`unlock_vault`]; [`next_phase`] says which one
//! follows when the script is finished. A script that fails ends the unlock.

use crate::kinds::{DeniableKindTag, Platform, SlotKind, UnlockMethod};
use crate::requests::{UnlockOpts, filled, is_filled, pick_seed_secret, seed_secret};
use crate::script::{Act, LineView, Script, SecretRef, UnlockFactors, step, stop};
use crate::sidecar::HybridEntry;
use crate::slots::SlotFacts;
use crate::text::{decimal, decimal_text, join3};
use crate::unlock_deniable::{anchor_fault, deniable_entries_lines, deniable_envelope, deniable_pq_decap, deniable_start, deniable_start_lines, envelope_lines, preflight_deniable_anchor};
use crate::unlock_search::{Quest, hybrid_pq_lines, quest_lines, search, unlock_with_hybrid_pq};
use crate::unlock_sep::{any_in_scope, open_sep_common, sep_common_lines, sep_needs};
use vstd::prelude::*;
use vstd::string::*;

verus! {

/// The phases of an unlock.
#[derive(Clone, Copy, Debug, PartialEq, Eq, Structural)]
pub enum Phase {
    /// Nothing has been read.
    Start,
    /// The header has been read.
    Header,
    /// The deniable envelope has been opened.
    Envelope,
    /// The seed and the sidecar have been read.
    Entries,
    /// The container is open.
    Attach,
    /// The file system is open.
    Done,
}

/// What a deniable envelope says about its slot.
#[derive(Clone, Copy, Debug, PartialEq, Eq, Structural)]
pub struct Envelope {
    pub kind: DeniableKindTag,
    /// The index of the slot that the passphrase opened.
    pub slot: u8,
    pub cred_len: usize,
    pub has_salt: bool,
    /// The length of the blob that a TPM or an enclave sealed.
    pub blob_len: usize,
}

/// What stands at the path of an anchor.
pub enum AnchorFile {
    /// The system reports this error.
    Unreadable { error: String },
    SymbolicLink,
    /// Neither a link nor a regular file.
    Special,
    Regular { len: u64 },
}

/// What has been read in the course of an unlock.
pub struct Findings {
    pub slots: Vec<SlotFacts>,
    pub envelope: Envelope,
    pub entries: Vec<HybridEntry>,
    pub anchor: AnchorFile,
}

/// Whether a method uses an ML-KEM seed.
pub open spec fn method_pq(m: UnlockMethod) -> bool {
    match m {
        UnlockMethod::HybridPq
        | UnlockMethod::HybridPqFido2
        | UnlockMethod::HybridPqTpm2
        | UnlockMethod::HybridPqTpm2Fido2
        | UnlockMethod::HybridPqSep
        | UnlockMethod::HybridPqSepFido2 => true,
        _ => false,
    }
}

pub fn is_pq(m: UnlockMethod) -> (b: bool)
    ensures
        b == method_pq(m),
{
    match m {
        UnlockMethod::HybridPq
        | UnlockMethod::HybridPqFido2
        | UnlockMethod::HybridPqTpm2
        | UnlockMethod::HybridPqTpm2Fido2
        | UnlockMethod::HybridPqSep
        | UnlockMethod::HybridPqSepFido2 => true,
        _ => false,
    }
}

/// Whether a method uses the authenticator.
pub open spec fn method_fido2(m: UnlockMethod) -> bool {
    match m {
        UnlockMethod::Fido2
        | UnlockMethod::HybridPqFido2
        | UnlockMethod::Tpm2Fido2
        | UnlockMethod::HybridPqTpm2Fido2
        | UnlockMethod::SepFido2
        | UnlockMethod::HybridPqSepFido2 => true,
        _ => false,
    }
}

pub fn is_fido2(m: UnlockMethod) -> (b: bool)
    ensures
        b == method_fido2(m),
{
    match m {
        UnlockMethod::Fido2
        | UnlockMethod::HybridPqFido2
        | UnlockMethod::Tpm2Fido2
        | UnlockMethod::HybridPqTpm2Fido2
        | UnlockMethod::SepFido2
        | UnlockMethod::HybridPqSepFido2 => true,
        _ => false,
    }
}

/// Whether a method uses the TPM.
pub open spec fn method_tpm(m: UnlockMethod) -> bool {
    match m {
        UnlockMethod::Tpm2
        | UnlockMethod::Tpm2Pin
        | UnlockMethod::Tpm2Fido2
        | UnlockMethod::HybridPqTpm2
        | UnlockMethod::HybridPqTpm2Fido2 => true,
        _ => false,
    }
}

pub fn is_tpm(m: UnlockMethod) -> (b: bool)
    ensures
        b == method_tpm(m),
{
    match m {
        UnlockMethod::Tpm2
        | UnlockMethod::Tpm2Pin
        | UnlockMethod::Tpm2Fido2
        | UnlockMethod::HybridPqTpm2
        | UnlockMethod::HybridPqTpm2Fido2 => true,
        _ => false,
    }
}

/// Whether a method uses the Secure Enclave.
pub open spec fn method_sep(m: UnlockMethod) -> bool {
    match m {
        UnlockMethod::Sep
        | UnlockMethod::SepFido2
        | UnlockMethod::HybridPqSep
        | UnlockMethod::HybridPqSepFido2 => true,
        _ => false,
    }
}

pub fn is_sep(m: UnlockMethod) -> (b: bool)
    ensures
        b == method_sep(m),
{
    match m {
        UnlockMethod::Sep
        | UnlockMethod::SepFido2
        | UnlockMethod::HybridPqSep
        | UnlockMethod::HybridPqSepFido2 => true,
        _ => false,
    }
}

pub open spec fn phase_after(o: UnlockOpts, phase: Phase) -> Phase {
    match phase {
        Phase::Start => if o.use_deniable {
            Phase::Envelope
        } else if o.method == UnlockMethod::Passphrase {
            Phase::Attach
        } else if o.method == UnlockMethod::HybridPq {
            Phase::Entries
        } else {
            Phase::Header
        },
        Phase::Header | Phase::Envelope => if method_pq(o.method) {
            Phase::Entries
        } else {
            Phase::Attach
        },
        Phase::Entries => Phase::Attach,
        Phase::Attach | Phase::Done => Phase::Done,
    }
}

/// The phase that follows when the script of `phase` is finished.
pub fn next_phase(o: &UnlockOpts, phase: Phase) -> (r: Phase)
    ensures
        r == phase_after(*o, phase),
{
    match phase {
        Phase::Start => if o.use_deniable {
            Phase::Envelope
        } else if o.method == UnlockMethod::Passphrase {
            Phase::Attach
        } else if o.method == UnlockMethod::HybridPq {
            Phase::Entries
        } else {
            Phase::Header
        },
        Phase::Header | Phase::Envelope => if is_pq(o.method) {
            Phase::Entries
        } else {
            Phase::Attach
        },
        Phase::Entries => Phase::Attach,
        Phase::Attach | Phase::Done => Phase::Done,
    }
}

/// Why an unlock of a standard vault is refused before anything is read.
pub open spec fn unlock_refusal(o: UnlockOpts, p: Platform) -> Option<Seq<char>> {
    match o.method {
        UnlockMethod::Passphrase => if o.passphrase is None {
            Some("passphrase required"@)
        } else {
            None
        },
        UnlockMethod::Fido2 => if o.pin is None {
            Some("FIDO2 PIN required"@)
        } else if !p.hardware {
            Some("FIDO2 hardware support not compiled in"@)
        } else {
            None
        },
        UnlockMethod::HybridPq => if o.passphrase is None {
            Some("passphrase required"@)
        } else if o.hybrid_kyber_path is None {
            Some("hybrid-pq requires the .kyber seed file path"@)
        } else {
            None
        },
        UnlockMethod::Tpm2 => if !p.hardware {
            Some("TPM 2.0 hardware support not compiled in (rebuild with --features hardware)"@)
        } else {
            None
        },
        UnlockMethod::Tpm2Pin => if o.pin is None {
            Some("TPM PIN required for tpm2-pin unlock"@)
        } else if !p.hardware {
            Some("TPM 2.0 + PIN unlock requires --features hardware"@)
        } else {
            None
        },
        UnlockMethod::Tpm2Fido2 => if o.pin is None {
            Some("FIDO2 PIN required for tpm2-fido2 unlock"@)
        } else if !p.hardware {
            Some("TPM 2.0 + FIDO2 fused unlock requires --features hardware"@)
        } else {
            None
        },
        UnlockMethod::HybridPqTpm2 => if o.hybrid_kyber_path is None {
            Some("hybrid-pq-tpm2 requires the .kyber seed file path"@)
        } else if o.passphrase is None {
            Some("hybrid-pq-tpm2 requires the .kyber seed-file passphrase"@)
        } else if !p.hardware {
            Some("hybrid-pq-tpm2 unlock requires --features hardware"@)
        } else {
            None
        },
        UnlockMethod::HybridPqTpm2Fido2 => if o.hybrid_kyber_path is None {
            Some("hybrid-pq-tpm2-fido2 requires the .kyber seed file path"@)
        } else if o.passphrase is None {
            Some("hybrid-pq-tpm2-fido2 requires the .kyber seed-file passphrase"@)
        } else if o.pin is None {
            Some("FIDO2 PIN required"@)
        } else if !p.hardware {
            Some("hybrid-pq-tpm2-fido2 unlock requires --features hardware"@)
        } else {
            None
        },
        UnlockMethod::HybridPqFido2 => if o.passphrase is None {
            Some("hybrid-pq-fido2 needs the seed-file passphrase"@)
        } else if o.pin is None {
            Some("FIDO2 PIN required"@)
        } else if o.hybrid_kyber_path is None {
            Some("hybrid-pq-fido2 needs the .kyber seed file path"@)
        } else if !p.hardware {
            Some("FIDO2 hardware support not compiled in"@)
        } else {
            None
        },
        UnlockMethod::Sep => if !p.hardware {
            Some("Secure Enclave support not compiled in (rebuild with --features hardware)"@)
        } else {
            None
        },
        UnlockMethod::HybridPqSep => if o.hybrid_kyber_path is None {
            Some("hybrid-pq-sep requires the .kyber seed file path"@)
        } else if o.passphrase is None {
            Some("hybrid-pq-sep requires the .kyber seed-file passphrase"@)
        } else if !p.hardware {
            Some("hybrid-pq-sep unlock requires --features hardware (macOS Secure Enclave)"@)
        } else {
            None
        },
        UnlockMethod::SepFido2 | UnlockMethod::HybridPqSepFido2 => Some(
            "the SEP+FIDO2 unlock methods are used only in deniable mode; for a standard vault use the 'Secure Enclave' method, which collects every factor per slot"@,
        ),
    }
}

fn unlock_refusal_of(o: &UnlockOpts, p: Platform) -> (r: Option<&'static str>)
    ensures
        match unlock_refusal(*o, p) {
            Some(t) => r matches Some(s) && s@ == t,
            None => r is None,
        },
{
    match o.method {
        UnlockMethod::Passphrase => if o.passphrase.is_none() {
            Some("passphrase required")
        } else {
            None
        },
        UnlockMethod::Fido2 => if o.pin.is_none() {
            Some("FIDO2 PIN required")
        } else if !p.hardware {
            Some("FIDO2 hardware support not compiled in")
        } else {
            None
        },
        UnlockMethod::HybridPq => if o.passphrase.is_none() {
            Some("passphrase required")
        } else if o.hybrid_kyber_path.is_none() {
            Some("hybrid-pq requires the .kyber seed file path")
        } else {
            None
        },
        UnlockMethod::Tpm2 => if !p.hardware {
            Some("TPM 2.0 hardware support not compiled in (rebuild with --features hardware)")
        } else {
            None
        },
        UnlockMethod::Tpm2Pin => if o.pin.is_none() {
            Some("TPM PIN required for tpm2-pin unlock")
        } else if !p.hardware {
            Some("TPM 2.0 + PIN unlock requires --features hardware")
        } else {
            None
        },
        UnlockMethod::Tpm2Fido2 => if o.pin.is_none() {
            Some("FIDO2 PIN required for tpm2-fido2 unlock")
        } else if !p.hardware {
            Some("TPM 2.0 + FIDO2 fused unlock requires --features hardware")
        } else {
            None
        },
        UnlockMethod::HybridPqTpm2 => if o.hybrid_kyber_path.is_none() {
            Some("hybrid-pq-tpm2 requires the .kyber seed file path")
        } else if o.passphrase.is_none() {
            Some("hybrid-pq-tpm2 requires the .kyber seed-file passphrase")
        } else if !p.hardware {
            Some("hybrid-pq-tpm2 unlock requires --features hardware")
        } else {
            None
        },
        UnlockMethod::HybridPqTpm2Fido2 => if o.hybrid_kyber_path.is_none() {
            Some("hybrid-pq-tpm2-fido2 requires the .kyber seed file path")
        } else if o.passphrase.is_none() {
            Some("hybrid-pq-tpm2-fido2 requires the .kyber seed-file passphrase")
        } else if o.pin.is_none() {
            Some("FIDO2 PIN required")
        } else if !p.hardware {
            Some("hybrid-pq-tpm2-fido2 unlock requires --features hardware")
        } else {
            None
        },
        UnlockMethod::HybridPqFido2 => if o.passphrase.is_none() {
            Some("hybrid-pq-fido2 needs the seed-file passphrase")
        } else if o.pin.is_none() {
            Some("FIDO2 PIN required")
        } else if o.hybrid_kyber_path.is_none() {
            Some("hybrid-pq-fido2 needs the .kyber seed file path")
        } else if !p.hardware {
            Some("FIDO2 hardware support not compiled in")
        } else {
            None
        },
        UnlockMethod::Sep => if !p.hardware {
            Some("Secure Enclave support not compiled in (rebuild with --features hardware)")
        } else {
            None
        },
        UnlockMethod::HybridPqSep => if o.hybrid_kyber_path.is_none() {
            Some("hybrid-pq-sep requires the .kyber seed file path")
        } else if o.passphrase.is_none() {
            Some("hybrid-pq-sep requires the .kyber seed-file passphrase")
        } else if !p.hardware {
            Some("hybrid-pq-sep unlock requires --features hardware (macOS Secure Enclave)")
        } else {
            None
        },
        UnlockMethod::SepFido2 | UnlockMethod::HybridPqSepFido2 => Some(
            "the SEP+FIDO2 unlock methods are used only in deniable mode; for a standard vault use the 'Secure Enclave' method, which collects every factor per slot",
        ),
    }
}

/// The first phase for a standard vault.
pub open spec fn start_lines(o: UnlockOpts, p: Platform) -> Seq<LineView> {
    match unlock_refusal(o, p) {
        Some(text) => seq![stop(text)],
        None => match o.method {
            UnlockMethod::Passphrase => seq![
                step(Act::OpenWith { kind: UnlockFactors::Passphrase, slot: 0 }, ""@),
            ],
            UnlockMethod::HybridPq => seq![
                step(Act::ReadSeed { pw: seed_secret(o.hybrid_seed_pw) }, ""@),
                step(Act::RequireSidecar, ""@),
            ],
            _ => seq![step(Act::ReadHeader, ""@)],
        },
    }
}

fn unlock_start(o: &UnlockOpts, p: Platform) -> (s: Script)
    ensures
        s@ == start_lines(*o, p),
{
    match unlock_refusal_of(o, p) {
        Some(text) => Script::refuse(text),
        None => match o.method {
            UnlockMethod::Passphrase => Script::new().step(
                Act::OpenWith { kind: UnlockFactors::Passphrase, slot: 0 },
                "",
            ),
            UnlockMethod::HybridPq => Script::new().step(
                Act::ReadSeed { pw: pick_seed_secret(&o.hybrid_seed_pw) },
                "",
            ).step(Act::RequireSidecar, ""),
            _ => Script::new().step(Act::ReadHeader, ""),
        },
    }
}

pub open spec fn no_chip_lead() -> Seq<char> {
    "could not open local TPM 2.0 device: "@
}

/// Whether a keyslot of the given kind is there.
pub open spec fn has_kind(slots: Seq<SlotFacts>, kind: SlotKind) -> bool {
    exists|i: int| 0 <= i < slots.len() && (#[trigger] slots[i]).kind == kind
}

/// Whether a keyslot that `q` looks for is there.
pub open spec fn has_wanted(slots: Seq<SlotFacts>, q: Quest) -> bool {
    exists|i: int| 0 <= i < slots.len() && q.wants_spec(#[trigger] slots[i])
}

pub fn any_kind(slots: &Vec<SlotFacts>, kind: SlotKind) -> (b: bool)
    ensures
        b == has_kind(slots@, kind),
{
    let mut i: usize = 0;
    while i < slots.len()
        invariant
            i <= slots@.len(),
            forall|k: int| 0 <= k < i ==> (#[trigger] slots@[k]).kind != kind,
        decreases slots.len() - i,
    {
        if slots[i].kind == kind {
            assert(slots@[i as int].kind == kind);
            return true;
        }
        i = i + 1;
    }
    false
}

fn any_wanted(slots: &Vec<SlotFacts>, q: Quest) -> (b: bool)
    ensures
        b == has_wanted(slots@, q),
{
    let mut i: usize = 0;
    while i < slots.len()
        invariant
            i <= slots@.len(),
            forall|k: int| 0 <= k < i ==> !q.wants_spec(#[trigger] slots@[k]),
        decreases slots.len() - i,
    {
        if q.wants(&slots[i]) {
            assert(q.wants_spec(slots@[i as int]));
            return true;
        }
        i = i + 1;
    }
    false
}

/// Reading the seed and the sidecar that belongs to the header.
pub open spec fn bound_seed_lines(pw: SecretRef) -> Seq<LineView> {
    seq![
        step(Act::ReadSeed { pw }, "read kyber seed: "@),
        step(Act::ReadBoundSidecar, "read hybrid sidecar: "@),
    ]
}

pub open spec fn no_tpm_slot_text() -> Seq<char> {
    "this vault has no TPM 2.0 keyslot. Open with another method, then enroll one via Manage Keyslots -> Add TPM 2.0 keyslot."@
}

pub open spec fn no_tpm_pin_slot_text() -> Seq<char> {
    "this vault has no PIN-protected TPM 2.0 keyslot. Open with another method, then enroll one via Manage Keyslots -> Add TPM 2.0 + PIN."@
}

pub open spec fn no_tpm_fido2_slot_text() -> Seq<char> {
    "this vault has no fused TPM+FIDO2 keyslot. Open with another method, then enroll one via Manage Keyslots -> Add TPM 2.0 + FIDO2 keyslot."@
}

pub open spec fn no_hybrid_tpm_slot_text() -> Seq<char> {
    "this vault has no hybrid TPM + ML-KEM keyslot. Use a different unlock method or enroll one via Manage Keyslots."@
}

pub open spec fn no_hybrid_tpm_fido2_slot_text() -> Seq<char> {
    "this vault has no hybrid TPM + FIDO2 + ML-KEM keyslot."@
}

pub open spec fn no_sep_slot_text() -> Seq<char> {
    "this vault has no (non-hybrid) Secure Enclave keyslot. Open with another method, then enroll one via Manage Keyslots -> Add Secure Enclave keyslot."@
}

pub open spec fn no_hybrid_sep_slot_text() -> Seq<char> {
    "this vault has no hybrid Secure Enclave + ML-KEM keyslot. Use a different unlock method or enroll one via Manage Keyslots."@
}

/// A TPM whose slot the container looks for itself.
pub open spec fn tpm2_lines(slots: Seq<SlotFacts>) -> Seq<LineView> {
    if !has_kind(slots, SlotKind::Tpm2Sealed) {
        seq![stop(no_tpm_slot_text())]
    } else {
        seq![
            step(Act::OpenTpm, no_chip_lead()),
            step(Act::OpenWith { kind: UnlockFactors::Tpm2, slot: 0 }, ""@),
        ]
    }
}

/// Unlocks with the local TPM. A vault without such a slot is refused before
/// the chip is touched.
pub fn unlock_with_tpm2(slots: &Vec<SlotFacts>) -> (s: Script)
    ensures
        s@ == tpm2_lines(slots@),
{
    if !any_kind(slots, SlotKind::Tpm2Sealed) {
        return Script::refuse(
            "this vault has no TPM 2.0 keyslot. Open with another method, then enroll one via Manage Keyslots -> Add TPM 2.0 keyslot.",
        );
    }
    Script::new().step(Act::OpenTpm, "could not open local TPM 2.0 device: ").step(
        Act::OpenWith { kind: UnlockFactors::Tpm2, slot: 0 },
        "",
    )
}

pub open spec fn tpm2_pin_lines(slots: Seq<SlotFacts>) -> Seq<LineView> {
    if !has_kind(slots, SlotKind::Tpm2SealedPin) {
        seq![stop(no_tpm_pin_slot_text())]
    } else {
        seq![
            step(Act::OpenTpm, no_chip_lead()),
            step(Act::OpenWith { kind: UnlockFactors::Tpm2Pin, slot: 0 }, ""@),
        ]
    }
}

/// Unlocks with the local TPM and its PIN.
pub fn unlock_with_tpm2_pin(slots: &Vec<SlotFacts>) -> (s: Script)
    ensures
        s@ == tpm2_pin_lines(slots@),
{
    if !any_kind(slots, SlotKind::Tpm2SealedPin) {
        return Script::refuse(
            "this vault has no PIN-protected TPM 2.0 keyslot. Open with another method, then enroll one via Manage Keyslots -> Add TPM 2.0 + PIN.",
        );
    }
    Script::new().step(Act::OpenTpm, "could not open local TPM 2.0 device: ").step(
        Act::OpenWith { kind: UnlockFactors::Tpm2Pin, slot: 0 },
        "",
    )
}

/// Unlocks with the authenticator: every authenticator slot is tried.
pub fn unlock_with_fido2(p: Platform, slots: &Vec<SlotFacts>) -> (s: Script)
    requires
        slots@.len() <= 256,
    ensures
        s@ == quest_lines(seq![], Quest::Fido2, p, slots@, seq![]),
{
    let none: Vec<HybridEntry> = Vec::new();
    assert(none@ =~= seq![]);
    search(Script::new(), Quest::Fido2, p, slots, &none)
}

pub open spec fn tpm2_fido2_lines(p: Platform, slots: Seq<SlotFacts>) -> Seq<LineView> {
    if !has_kind(slots, SlotKind::Tpm2Fido2) {
        seq![stop(no_tpm_fido2_slot_text())]
    } else {
        quest_lines(
            seq![step(Act::OpenTpm, no_chip_lead())],
            Quest::Tpm2Fido2,
            p,
            slots,
            seq![],
        )
    }
}

/// Unlocks with the local TPM and the authenticator together.
pub fn unlock_with_tpm2_fido2(p: Platform, slots: &Vec<SlotFacts>) -> (s: Script)
    requires
        slots@.len() <= 256,
    ensures
        s@ == tpm2_fido2_lines(p, slots@),
{
    if !any_kind(slots, SlotKind::Tpm2Fido2) {
        return Script::refuse(
            "this vault has no fused TPM+FIDO2 keyslot. Open with another method, then enroll one via Manage Keyslots -> Add TPM 2.0 + FIDO2 keyslot.",
        );
    }
    let none: Vec<HybridEntry> = Vec::new();
    let first = Script::new().step(Act::OpenTpm, "could not open local TPM 2.0 device: ");
    proof {
        assert(none@ =~= seq![]);
        assert(first@ =~= seq![step(Act::OpenTpm, no_chip_lead())]);
    }
    search(first, Quest::Tpm2Fido2, p, slots, &none)
}

pub open spec fn hybrid_tpm_header_lines(
    o: UnlockOpts,
    slots: Seq<SlotFacts>,
    q: Quest,
) -> Seq<LineView> {
    if !has_wanted(slots, q) {
        seq![
            stop(
                if q == Quest::HybridPqTpm2 {
                    no_hybrid_tpm_slot_text()
                } else {
                    no_hybrid_tpm_fido2_slot_text()
                },
            ),
        ]
    } else {
        bound_seed_lines(seed_secret(o.hybrid_seed_pw)).push(step(Act::OpenTpm, no_chip_lead()))
    }
}

fn bound_seed(pw: SecretRef) -> (s: Script)
    ensures
        s@ == bound_seed_lines(pw),
{
    Script::new().step(Act::ReadSeed { pw }, "read kyber seed: ").step(
        Act::ReadBoundSidecar,
        "read hybrid sidecar: ",
    )
}

/// The TPM and an ML-KEM seed, once the header is known.
pub fn unlock_with_hybrid_pq_tpm2(o: &UnlockOpts, slots: &Vec<SlotFacts>) -> (s: Script)
    ensures
        s@ == hybrid_tpm_header_lines(*o, slots@, Quest::HybridPqTpm2),
{
    if !any_wanted(slots, Quest::HybridPqTpm2) {
        return Script::refuse(
            "this vault has no hybrid TPM + ML-KEM keyslot. Use a different unlock method or enroll one via Manage Keyslots.",
        );
    }
    bound_seed(pick_seed_secret(&o.hybrid_seed_pw)).step(
        Act::OpenTpm,
        "could not open local TPM 2.0 device: ",
    )
}

/// The TPM, the authenticator and an ML-KEM seed, once the header is known.
pub fn unlock_with_hybrid_pq_tpm2_fido2(o: &UnlockOpts, slots: &Vec<SlotFacts>) -> (s: Script)
    ensures
        s@ == hybrid_tpm_header_lines(*o, slots@, Quest::HybridPqTpm2Fido2),
{
    if !any_wanted(slots, Quest::HybridPqTpm2Fido2) {
        return Script::refuse("this vault has no hybrid TPM + FIDO2 + ML-KEM keyslot.");
    }
    bound_seed(pick_seed_secret(&o.hybrid_seed_pw)).step(
        Act::OpenTpm,
        "could not open local TPM 2.0 device: ",
    )
}

/// The authenticator and an ML-KEM seed, once the header is known.
pub fn unlock_with_hybrid_pq_fido2(o: &UnlockOpts) -> (s: Script)
    ensures
        s@ == seq![
            step(Act::ReadSeed { pw: seed_secret(o.hybrid_seed_pw) }, ""@),
            step(Act::RequireSidecar, ""@),
        ],
{
    Script::new().step(Act::ReadSeed { pw: pick_seed_secret(&o.hybrid_seed_pw) }, "").step(
        Act::RequireSidecar,
        "",
    )
}

pub open spec fn sep_lines(o: UnlockOpts, p: Platform, slots: Seq<SlotFacts>) -> Seq<LineView> {
    if !any_in_scope(slots, false) {
        seq![stop(no_sep_slot_text())]
    } else {
        sep_common_lines(
            p,
            slots,
            false,
            SecretRef::Passphrase,
            filled(o.passphrase),
            filled(o.pin),
            seq![],
        )
    }
}

/// Unlocks with the Secure Enclave and whatever else its slots bind.
pub fn unlock_via_sep(o: &UnlockOpts, p: Platform, slots: &Vec<SlotFacts>) -> (s: Script)
    requires
        slots@.len() <= 256,
    ensures
        s@ == sep_lines(*o, p, slots@),
{
    if !sep_needs(slots, false).any {
        return Script::refuse(
            "this vault has no (non-hybrid) Secure Enclave keyslot. Open with another method, then enroll one via Manage Keyslots -> Add Secure Enclave keyslot.",
        );
    }
    let none: Vec<HybridEntry> = Vec::new();
    assert(none@ =~= seq![]);
    open_sep_common(
        p,
        slots,
        false,
        SecretRef::Passphrase,
        is_filled(&o.passphrase),
        is_filled(&o.pin),
        &none,
    )
}

pub open spec fn hybrid_sep_header_lines(o: UnlockOpts, slots: Seq<SlotFacts>) -> Seq<LineView> {
    if !any_in_scope(slots, true) {
        seq![stop(no_hybrid_sep_slot_text())]
    } else {
        bound_seed_lines(seed_secret(o.hybrid_seed_pw))
    }
}

/// The Secure Enclave and an ML-KEM seed, once the header is known.
pub fn unlock_via_hybrid_pq_sep(o: &UnlockOpts, slots: &Vec<SlotFacts>) -> (s: Script)
    ensures
        s@ == hybrid_sep_header_lines(*o, slots@),
{
    if !sep_needs(slots, true).any {
        return Script::refuse(
            "this vault has no hybrid Secure Enclave + ML-KEM keyslot. Use a different unlock method or enroll one via Manage Keyslots.",
        );
    }
    bound_seed(pick_seed_secret(&o.hybrid_seed_pw))
}

/// The phase that follows the reading of a standard header.
pub open spec fn header_lines(o: UnlockOpts, p: Platform, slots: Seq<SlotFacts>) -> Seq<LineView> {
    match o.method {
        UnlockMethod::Fido2 => quest_lines(seq![], Quest::Fido2, p, slots, seq![]),
        UnlockMethod::Tpm2 => tpm2_lines(slots),
        UnlockMethod::Tpm2Pin => tpm2_pin_lines(slots),
        UnlockMethod::Tpm2Fido2 => tpm2_fido2_lines(p, slots),
        UnlockMethod::HybridPqTpm2 => hybrid_tpm_header_lines(o, slots, Quest::HybridPqTpm2),
        UnlockMethod::HybridPqTpm2Fido2 => hybrid_tpm_header_lines(o, slots, Quest::HybridPqTpm2Fido2),
        UnlockMethod::HybridPqFido2 => seq![
            step(Act::ReadSeed { pw: seed_secret(o.hybrid_seed_pw) }, ""@),
            step(Act::RequireSidecar, ""@),
        ],
        UnlockMethod::Sep => sep_lines(o, p, slots),
        UnlockMethod::HybridPqSep => hybrid_sep_header_lines(o, slots),
        _ => start_lines(o, p),
    }
}

fn unlock_header(o: &UnlockOpts, p: Platform, slots: &Vec<SlotFacts>) -> (s: Script)
    requires
        slots@.len() <= 256,
    ensures
        s@ == header_lines(*o, p, slots@),
{
    match o.method {
        UnlockMethod::Fido2 => unlock_with_fido2(p, slots),
        UnlockMethod::Tpm2 => unlock_with_tpm2(slots),
        UnlockMethod::Tpm2Pin => unlock_with_tpm2_pin(slots),
        UnlockMethod::Tpm2Fido2 => unlock_with_tpm2_fido2(p, slots),
        UnlockMethod::HybridPqTpm2 => unlock_with_hybrid_pq_tpm2(o, slots),
        UnlockMethod::HybridPqTpm2Fido2 => unlock_with_hybrid_pq_tpm2_fido2(o, slots),
        UnlockMethod::HybridPqFido2 => unlock_with_hybrid_pq_fido2(o),
        UnlockMethod::Sep => unlock_via_sep(o, p, slots),
        UnlockMethod::HybridPqSep => unlock_via_hybrid_pq_sep(o, slots),
        _ => unlock_start(o, p),
    }
}

/// The phase that follows the reading of the sidecar of a standard vault.
pub open spec fn entries_lines(
    o: UnlockOpts,
    p: Platform,
    slots: Seq<SlotFacts>,
    entries: Seq<HybridEntry>,
) -> Seq<LineView> {
    match o.method {
        UnlockMethod::HybridPq => hybrid_pq_lines(entries),
        UnlockMethod::HybridPqFido2 => quest_lines(seq![], Quest::HybridPqFido2, p, slots, entries),
        UnlockMethod::HybridPqTpm2 => quest_lines(seq![], Quest::HybridPqTpm2, p, slots, entries),
        UnlockMethod::HybridPqTpm2Fido2 => quest_lines(
            seq![],
            Quest::HybridPqTpm2Fido2,
            p,
            slots,
            entries,
        ),
        UnlockMethod::HybridPqSep => sep_common_lines(
            p,
            slots,
            true,
            SecretRef::Passphrase,
            filled(o.passphrase),
            filled(o.pin),
            entries,
        ),
        _ => start_lines(o, p),
    }
}

fn unlock_entries(
    o: &UnlockOpts,
    p: Platform,
    slots: &Vec<SlotFacts>,
    entries: &Vec<HybridEntry>,
) -> (s: Script)
    requires
        slots@.len() <= 256,
        entries@.len() <= usize::MAX / 2,
    ensures
        s@ == entries_lines(*o, p, slots@, entries@),
{
    match o.method {
        UnlockMethod::HybridPq => unlock_with_hybrid_pq(entries),
        UnlockMethod::HybridPqFido2 => search(
            Script::new(),
            Quest::HybridPqFido2,
            p,
            slots,
            entries,
        ),
        UnlockMethod::HybridPqTpm2 => search(Script::new(), Quest::HybridPqTpm2, p, slots, entries),
        UnlockMethod::HybridPqTpm2Fido2 => search(
            Script::new(),
            Quest::HybridPqTpm2Fido2,
            p,
            slots,
            entries,
        ),
        UnlockMethod::HybridPqSep => open_sep_common(
            p,
            slots,
            true,
            SecretRef::Passphrase,
            is_filled(&o.passphrase),
            is_filled(&o.pin),
            entries,
        ),
        _ => unlock_start(o, p),
    }
}

/// The last phase: attach the anchor, if there is one, open the file system, and
/// hold the vault against the anchor.
pub open spec fn attach_lines(o: UnlockOpts, anchor: AnchorFile) -> Seq<LineView> {
    let last = seq![step(Act::OpenVfs { tolerant: o.recovery_mode }, ""@)];
    match o.anchor_path {
        None => last,
        Some(path) => match anchor_fault(path@, anchor) {
            Some(text) if o.use_deniable => seq![stop(text)],
            _ => seq![step(Act::SetAnchor, ""@)] + last + seq![step(Act::CompareAnchor, ""@)],
        },
    }
}

fn unlock_attach(o: &UnlockOpts, anchor: &AnchorFile) -> (s: Script)
    ensures
        s@ == attach_lines(*o, *anchor),
{
    match &o.anchor_path {
        None => open_vfs_with_optional_recovery(Script::new(), o.recovery_mode),
        Some(path) => {
            if o.use_deniable {
                if let Err(text) = preflight_deniable_anchor(path.as_str(), anchor) {
                    return Script::refuse(text.as_str());
                }
            }
            open_vfs_with_optional_recovery(Script::new().step(Act::SetAnchor, ""), o.recovery_mode).step(
                Act::CompareAnchor,
                "",
            )
        },
    }
}

/// Adds the opening of the file system, which puts up with damage only in
/// recovery mode.
fn open_vfs_with_optional_recovery(s: Script, recovery_mode: bool) -> (r: Script)
    ensures
        r@ == s@.push(step(Act::OpenVfs { tolerant: recovery_mode }, ""@)),
{
    s.step(Act::OpenVfs { tolerant: recovery_mode }, "")
}

/// The script of a phase.
pub open spec fn unlock_lines(o: UnlockOpts, p: Platform, phase: Phase, f: Findings) -> Seq<
    LineView,
> {
    match phase {
        Phase::Start => if o.use_deniable {
            deniable_start_lines(o, p)
        } else {
            start_lines(o, p)
        },
        Phase::Header => header_lines(o, p, f.slots@),
        Phase::Envelope => envelope_lines(o, p, f.envelope),
        Phase::Entries => if o.use_deniable {
            deniable_entries_lines(o, f.envelope, f.entries@)
        } else {
            entries_lines(o, p, f.slots@, f.entries@)
        },
        Phase::Attach => attach_lines(o, f.anchor),
        Phase::Done => seq![],
    }
}

/// What is to be done in a phase of an unlock. Of `f`, only what the earlier
/// phases have read matters.
pub fn unlock_vault(o: &UnlockOpts, p: Platform, phase: Phase, f: &Findings) -> (s: Script)
    requires
        f.slots@.len() <= 256,
        f.entries@.len() <= usize::MAX / 2,
    ensures
        s@ == unlock_lines(*o, p, phase, *f),
{
    match phase {
        Phase::Start => if o.use_deniable {
            deniable_start(o, p)
        } else {
            unlock_start(o, p)
        },
        Phase::Header => unlock_header(o, p, &f.slots),
        Phase::Envelope => deniable_envelope(o, p, f.envelope),
        Phase::Entries => if o.use_deniable {
            deniable_pq_decap(o, f.envelope, &f.entries)
        } else {
            unlock_entries(o, p, &f.slots, &f.entries)
        },
        Phase::Attach => unlock_attach(o, &f.anchor),
        Phase::Done => Script::new(),
    }
}

/// How an anchor compares with the vault.
#[derive(Clone, Copy, Debug, PartialEq, Eq, Structural)]
pub enum VerificationOutcome {
    Current,
    /// The anchor lags behind, as after a crash between two writes.
    AnchorStale,
    RollbackDetected { anchor_gen: u64, metadata_gen: u64 },
}

/// How [`Act::CompareAnchor`] ends: the vault may be used, unless the anchor has
/// seen a newer one.
pub fn check_rollback(outcome: VerificationOutcome) -> (r: Result<(), String>)
    ensures
        match outcome {
            VerificationOutcome::RollbackDetected { anchor_gen, metadata_gen } => r matches Err(e)
                && e@ == "Rollback detected: anchor at gen "@ + decimal(anchor_gen as nat)
                + " > vault at gen "@ + decimal(metadata_gen as nat)
                + ". Open refused (someone may have substituted an old copy of the vault)."@,
            _ => r is Ok,
        },
{
    match outcome {
        VerificationOutcome::RollbackDetected { anchor_gen, metadata_gen } => {
            let mut s = join3(
                "Rollback detected: anchor at gen ",
                decimal_text(anchor_gen).as_str(),
                " > vault at gen ",
            );
            s.append(decimal_text(metadata_gen).as_str());
            s.append(". Open refused (someone may have substituted an old copy of the vault).");
            Err(s)
        },
        _ => Ok(()),
    }
}

/// What introduces the errors of unsealing a slot's blob while the container is
/// opened: first of a blob that cannot be read, then of the chip.
pub fn unseal_leads(kind: UnlockFactors) -> (r: (&'static str, &'static str))
    ensures
        r.0@ == (match kind {
            UnlockFactors::Tpm2 => "malformed TPM SealedBlob in keyslot: "@,
            UnlockFactors::Sep { .. } => ""@,
            _ => "malformed TPM SealedBlob: "@,
        }),
        r.1@ == (match kind {
            UnlockFactors::Tpm2Pin => "TPM unseal (with PIN): "@,
            UnlockFactors::Sep { .. } => ""@,
            _ => "TPM unseal: "@,
        }),
{
    match kind {
        UnlockFactors::Tpm2 => ("malformed TPM SealedBlob in keyslot: ", "TPM unseal: "),
        UnlockFactors::Tpm2Pin => ("malformed TPM SealedBlob: ", "TPM unseal (with PIN): "),
        UnlockFactors::Sep { .. } => ("", ""),
        _ => ("malformed TPM SealedBlob: ", "TPM unseal: "),
    }
}

} // verus!
