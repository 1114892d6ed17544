//! Creating a vault around a TPM or a Secure Enclave.

use crate::create::{register, register_lines};
use crate::kinds::{DeniableKindTag, Platform, PqParams, SlotKind, TpmBootstrapKind, kem_or_768, pq_params_or_768};
use crate::requests::{CreateOpts, size_flags, size_flags_of};
use crate::script::{Act, LineView, Script, SecretRef, devices_first, lemma_devices_first, needs_no_device, step, step_or, stop, writes_nothing};
use vstd::prelude::*;

verus! {

/// The refusal of TPM flows where there is no TPM support.
pub open spec fn no_tpm_text() -> Seq<char> {
    "TPM 2.0 is Linux-only today; Windows TPM is tracked as a follow-up"@
}

/// The refusal of Secure Enclave flows elsewhere than on macOS.
pub open spec fn no_sep_text() -> Seq<char> {
    "Secure Enclave is macOS-only"@
}

/// Sealing a fresh secret under the TPM.
pub open spec fn tpm_seal_lines(draw_lead: Seq<char>, pin: bool) -> Seq<LineView> {
    seq![
        step(Act::OpenTpm, "could not open local TPM 2.0 device: "@),
        step(Act::DrawSecret, draw_lead),
        step(Act::SealTpm { pin }, "TPM seal: "@),
    ]
}

pub fn tpm_seal(draw_lead: &str, pin: bool) -> (s: Script)
    ensures
        s@ == tpm_seal_lines(draw_lead@, pin),
{
    Script::new().step(Act::OpenTpm, "could not open local TPM 2.0 device: ").step(
        Act::DrawSecret,
        draw_lead,
    ).step(Act::SealTpm { pin }, "TPM seal: ")
}

/// Sealing for a deniable slot: the sealed blob goes into the slot itself.
pub fn tpm_seal_to_bytes_for_deniable(pin: bool) -> (s: Script)
    ensures
        s@ == tpm_seal_lines("OS RNG failure generating TPM secret: "@, pin),
{
    tpm_seal("OS RNG failure generating TPM secret: ", pin)
}

/// Removing the vault, and its detached header if it has one.
pub open spec fn remove_vault_and_header(o: CreateOpts) -> Seq<Act> {
    if o.header_path is Some {
        seq![Act::RemoveVault, Act::RemoveHeader]
    } else {
        seq![Act::RemoveVault]
    }
}

fn vault_and_header_removal(o: &CreateOpts) -> (v: Vec<Act>)
    ensures
        v@ == remove_vault_and_header(*o),
{
    let mut v: Vec<Act> = Vec::new();
    v.push(Act::RemoveVault);
    if o.header_path.is_some() {
        v.push(Act::RemoveHeader);
    }
    assert(v@ =~= remove_vault_and_header(*o));
    v
}

/// The last lines of a hardware-bound create: the anchor, then the file system.
pub open spec fn finish_lines(o: CreateOpts, undo: Seq<Act>) -> Seq<LineView> {
    if o.anchor_path is Some {
        seq![
            step_or(Act::InitAnchor, "anchor init failed: "@, undo),
            step(Act::OpenVfs { tolerant: false }, ""@),
        ]
    } else {
        seq![step(Act::OpenVfs { tolerant: false }, ""@)]
    }
}

pub fn finish(o: &CreateOpts, undo: Vec<Act>) -> (s: Script)
    ensures
        s@ == finish_lines(*o, undo@),
{
    if o.anchor_path.is_some() {
        Script::new().step_or(Act::InitAnchor, "anchor init failed: ", undo).step(
            Act::OpenVfs { tolerant: false },
            "",
        )
    } else {
        Script::new().step(Act::OpenVfs { tolerant: false }, "")
    }
}

/// The create line of a vault with the TPM as its only keyslot.
pub open spec fn tpm2_only_create(o: CreateOpts, pin: bool) -> LineView {
    let flags = size_flags(o);
    let act = if o.use_deniable {
        Act::CreateDeniable { kind: DeniableKindTag::TpmPassphrase, flags, kdf: o.kdf }
    } else if pin {
        Act::CreateVault { kind: SlotKind::Tpm2SealedPin, flags, kdf: o.kdf }
    } else {
        Act::CreateVault { kind: SlotKind::Tpm2Sealed, flags, kdf: o.kdf }
    };
    step_or(act, "TPM-only vault create failed: "@, remove_vault_and_header(o))
}

/// A vault with the TPM as its only keyslot.
pub open spec fn tpm2_only_lines(o: CreateOpts, pin: Option<Seq<char>>, p: Platform) -> Seq<
    LineView,
> {
    if !p.spec_has_tpm_flow() {
        seq![stop(no_tpm_text())]
    } else if pin is Some && pin->0.len() == 0 {
        seq![
            step(Act::OpenTpm, "could not open local TPM 2.0 device: "@),
            step(Act::DrawSecret, "OS RNG failure generating TPM KEK: "@),
            stop("PIN cannot be empty for the PIN-bound TPM kind"@),
        ]
    } else {
        let seal = tpm_seal_lines("OS RNG failure generating TPM KEK: "@, pin is Some);
        if o.use_deniable && o.passphrase is None {
            seal.push(stop("passphrase required for v2 deniable TPM envelope discovery"@))
        } else {
            seal + seq![tpm2_only_create(o, pin is Some)] + finish_lines(
                o,
                seq![Act::RemoveVault, Act::RemoveAnchor],
            )
        }
    }
}

/// Creates a vault whose only keyslot is the TPM: if the chip is lost, so is
/// the vault. The chip is opened before any file is made.
pub fn create_vault_tpm2_only(o: &CreateOpts, pin: Option<&str>, p: Platform) -> (s: Script)
    ensures
        s@ == tpm2_only_lines(
            *o,
            match pin {
                Some(t) => Some(t@),
                None => None,
            },
            p,
        ),
{
    if !p.has_tpm_flow() {
        return Script::refuse("TPM 2.0 is Linux-only today; Windows TPM is tracked as a follow-up");
    }
    let with_pin = match pin {
        Some(t) => {
            if t.is_empty() {
                return Script::new().step(
                    Act::OpenTpm,
                    "could not open local TPM 2.0 device: ",
                ).step(Act::DrawSecret, "OS RNG failure generating TPM KEK: ").stop(
                    "PIN cannot be empty for the PIN-bound TPM kind",
                );
            }
            true
        },
        None => false,
    };
    let seal = tpm_seal("OS RNG failure generating TPM KEK: ", with_pin);
    if o.use_deniable && o.passphrase.is_none() {
        return seal.stop("passphrase required for v2 deniable TPM envelope discovery");
    }
    let flags = size_flags_of(o);
    let act = if o.use_deniable {
        Act::CreateDeniable { kind: DeniableKindTag::TpmPassphrase, flags, kdf: o.kdf }
    } else if with_pin {
        Act::CreateVault { kind: SlotKind::Tpm2SealedPin, flags, kdf: o.kdf }
    } else {
        Act::CreateVault { kind: SlotKind::Tpm2Sealed, flags, kdf: o.kdf }
    };
    let undo: Vec<Act> = vec![Act::RemoveVault, Act::RemoveAnchor];
    assert(undo@ =~= seq![Act::RemoveVault, Act::RemoveAnchor]);
    let s = seal.step_or(act, "TPM-only vault create failed: ", vault_and_header_removal(o)).append(
        finish(o, undo),
    );
    assert(s@ =~= tpm2_only_lines(
        *o,
        match pin {
            Some(t) => Some(t@),
            None => None,
        },
        p,
    ));
    s
}

/// What the combined TPM kinds bind besides the TPM: whether an authenticator,
/// and which ML-KEM parameter set. None for the plain TPM kinds.
pub open spec fn tpm_factors(kind: TpmBootstrapKind) -> Option<(bool, Option<PqParams>)> {
    match kind {
        TpmBootstrapKind::Tpm2 => None,
        TpmBootstrapKind::Tpm2Pin { .. } => None,
        TpmBootstrapKind::Tpm2Fido2 { .. } => Some((true, None)),
        TpmBootstrapKind::HybridPqTpm2 { kem_size, .. } => Some((false, Some(kem_or_768(kem_size)))),
        TpmBootstrapKind::HybridPqTpm2Fido2 { kem_size, .. } => Some(
            (true, Some(kem_or_768(kem_size))),
        ),
    }
}

fn tpm_factors_of(kind: &TpmBootstrapKind) -> (f: Option<(bool, Option<PqParams>)>)
    ensures
        f == tpm_factors(*kind),
{
    match kind {
        TpmBootstrapKind::Tpm2 => None,
        TpmBootstrapKind::Tpm2Pin { .. } => None,
        TpmBootstrapKind::Tpm2Fido2 { .. } => Some((true, None)),
        TpmBootstrapKind::HybridPqTpm2 { kem_size, .. } => Some(
            (false, Some(pq_params_or_768(*kem_size))),
        ),
        TpmBootstrapKind::HybridPqTpm2Fido2 { kem_size, .. } => Some(
            (true, Some(pq_params_or_768(*kem_size))),
        ),
    }
}

/// The keyslot kind of a combination with the TPM.
pub open spec fn tpm_slot_kind(fido2: bool, kem: Option<PqParams>) -> SlotKind {
    match (fido2, kem) {
        (false, None) => SlotKind::Tpm2Sealed,
        (true, None) => SlotKind::Tpm2Fido2,
        (false, Some(PqParams::Ml768)) => SlotKind::HybridPqKemTpm2,
        (false, Some(PqParams::Ml1024)) => SlotKind::HybridPqKem1024Tpm2,
        (true, Some(PqParams::Ml768)) => SlotKind::HybridPqKemTpm2Fido2,
        (true, Some(PqParams::Ml1024)) => SlotKind::HybridPqKem1024Tpm2Fido2,
    }
}

pub fn tpm_slot_kind_of(fido2: bool, kem: Option<PqParams>) -> (k: SlotKind)
    ensures
        k == tpm_slot_kind(fido2, kem),
{
    match kem {
        None => if fido2 {
            SlotKind::Tpm2Fido2
        } else {
            SlotKind::Tpm2Sealed
        },
        Some(PqParams::Ml768) => if fido2 {
            SlotKind::HybridPqKemTpm2Fido2
        } else {
            SlotKind::HybridPqKemTpm2
        },
        Some(PqParams::Ml1024) => if fido2 {
            SlotKind::HybridPqKem1024Tpm2Fido2
        } else {
            SlotKind::HybridPqKem1024Tpm2
        },
    }
}

/// The same for a deniable slot.
pub open spec fn tpm_deniable_kind(fido2: bool, hybrid: bool) -> DeniableKindTag {
    match (fido2, hybrid) {
        (false, false) => DeniableKindTag::TpmPassphrase,
        (true, false) => DeniableKindTag::TpmFido2Passphrase,
        (false, true) => DeniableKindTag::HybridPqTpmPassphrase,
        (true, true) => DeniableKindTag::HybridPqTpmFido2Passphrase,
    }
}

pub fn tpm_deniable_kind_of(fido2: bool, hybrid: bool) -> (k: DeniableKindTag)
    ensures
        k == tpm_deniable_kind(fido2, hybrid),
{
    if hybrid {
        if fido2 {
            DeniableKindTag::HybridPqTpmFido2Passphrase
        } else {
            DeniableKindTag::HybridPqTpmPassphrase
        }
    } else if fido2 {
        DeniableKindTag::TpmFido2Passphrase
    } else {
        DeniableKindTag::TpmPassphrase
    }
}

/// Collecting the factors of a combined create, hardware first.
pub open spec fn collect_lines(
    draw_lead: Seq<char>,
    salt_lead: Seq<char>,
    fido2: bool,
    kem: Option<PqParams>,
) -> Seq<LineView> {
    let touch = if fido2 {
        register_lines(salt_lead)
    } else {
        seq![]
    };
    let pq = match kem {
        Some(k) => seq![step(Act::Encapsulate { kem: k }, ""@)],
        None => seq![],
    };
    tpm_seal_lines(draw_lead, false) + touch + pq
}

fn collect(draw_lead: &str, salt_lead: &str, fido2: bool, kem: Option<PqParams>) -> (s: Script)
    ensures
        s@ == collect_lines(draw_lead@, salt_lead@, fido2, kem),
{
    let mut s = tpm_seal(draw_lead, false);
    if fido2 {
        s = s.append(register(salt_lead));
    }
    if let Some(k) = kem {
        s = s.step(Act::Encapsulate { kem: k }, "");
    }
    assert(s@ =~= collect_lines(draw_lead@, salt_lead@, fido2, kem));
    s
}

/// Writing the ML-KEM files of a combined create; the vault goes if that fails.
pub open spec fn hybrid_file_lines(kem: Option<PqParams>) -> Seq<LineView> {
    match kem {
        Some(k) => {
            let undo = seq![Act::RemoveVault, Act::RemoveSidecar];
            seq![
                step_or(Act::WriteFirstSidecar { kem: k }, "hybrid sidecar write: "@, undo),
                step_or(Act::WriteSeed { pw: SecretRef::SeedPassphrase }, ".kyber write: "@, undo),
            ]
        },
        None => seq![],
    }
}

pub fn hybrid_files(kem: Option<PqParams>) -> (s: Script)
    ensures
        s@ == hybrid_file_lines(kem),
{
    match kem {
        Some(k) => {
            let undo: Vec<Act> = vec![Act::RemoveVault, Act::RemoveSidecar];
            assert(undo@ =~= seq![Act::RemoveVault, Act::RemoveSidecar]);
            let again: Vec<Act> = vec![Act::RemoveVault, Act::RemoveSidecar];
            assert(again@ =~= seq![Act::RemoveVault, Act::RemoveSidecar]);
            Script::new().step_or(
                Act::WriteFirstSidecar { kem: k },
                "hybrid sidecar write: ",
                undo,
            ).step_or(Act::WriteSeed { pw: SecretRef::SeedPassphrase }, ".kyber write: ", again)
        },
        None => Script::new(),
    }
}

/// What goes when the anchor of a combined create cannot be made.
pub open spec fn combined_anchor_undo(hybrid: bool) -> Seq<Act> {
    if hybrid {
        seq![Act::RemoveVault, Act::RemoveSidecar, Act::RemoveAnchor]
    } else {
        seq![Act::RemoveVault, Act::RemoveAnchor]
    }
}

pub fn combined_anchor_undo_of(hybrid: bool) -> (v: Vec<Act>)
    ensures
        v@ == combined_anchor_undo(hybrid),
{
    let mut v: Vec<Act> = Vec::new();
    v.push(Act::RemoveVault);
    if hybrid {
        v.push(Act::RemoveSidecar);
    }
    v.push(Act::RemoveAnchor);
    assert(v@ =~= combined_anchor_undo(hybrid));
    v
}

/// A deniable vault with one slot that binds the TPM and further factors.
pub open spec fn tpm_factors_deniable_lines(
    o: CreateOpts,
    fido2: bool,
    kem: Option<PqParams>,
) -> Seq<LineView> {
    let act = Act::CreateDeniable {
        kind: tpm_deniable_kind(fido2, kem is Some),
        flags: size_flags(o),
        kdf: o.kdf,
    };
    collect_lines("OS RNG failure generating TPM secret: "@, "OS RNG failure: "@, fido2, kem)
        + seq![step_or(act, "deniable 3-factor vault create failed: "@, seq![Act::RemoveVault])]
        + hybrid_file_lines(kem) + finish_lines(o, combined_anchor_undo(kem is Some))
}

/// Creates a deniable vault with a single slot that needs the TPM and every
/// further factor of `kind` at each unlock.
pub fn create_vault_with_tpm_factors_deniable(
    o: &CreateOpts,
    kind: &TpmBootstrapKind,
    p: Platform,
) -> (s: Script)
    ensures
        s@ == (if !p.spec_has_tpm_flow() {
            seq![stop(no_tpm_text())]
        } else if o.passphrase is None {
            seq![stop("passphrase required for v2 deniable TPM envelope discovery"@)]
        } else {
            match tpm_factors(*kind) {
                None => seq![
                    stop(
                        "internal: single-factor TPM kinds must go through create_vault_tpm2_only"@,
                    ),
                ],
                Some((fido2, kem)) => tpm_factors_deniable_lines(*o, fido2, kem),
            }
        }),
{
    if !p.has_tpm_flow() {
        return Script::refuse("TPM 2.0 is Linux-only today; Windows TPM is tracked as a follow-up");
    }
    if o.passphrase.is_none() {
        return Script::refuse("passphrase required for v2 deniable TPM envelope discovery");
    }
    match tpm_factors_of(kind) {
        None => Script::refuse(
            "internal: single-factor TPM kinds must go through create_vault_tpm2_only",
        ),
        Some((fido2, kem)) => {
            let act = Act::CreateDeniable {
                kind: tpm_deniable_kind_of(fido2, kem.is_some()),
                flags: size_flags_of(o),
                kdf: o.kdf,
            };
            let undo: Vec<Act> = vec![Act::RemoveVault];
            assert(undo@ =~= seq![Act::RemoveVault]);
            let s = collect(
                "OS RNG failure generating TPM secret: ",
                "OS RNG failure: ",
                fido2,
                kem,
            ).step_or(act, "deniable 3-factor vault create failed: ", undo).append(
                hybrid_files(kem),
            ).append(finish(o, combined_anchor_undo_of(kem.is_some())));
            assert(s@ =~= tpm_factors_deniable_lines(*o, fido2, kem));
            s
        },
    }
}

/// A vault with one keyslot that binds the TPM and further factors.
pub open spec fn tpm_factors_only_lines(
    o: CreateOpts,
    fido2: bool,
    kem: Option<PqParams>,
) -> Seq<LineView> {
    let act = Act::CreateVault {
        kind: tpm_slot_kind(fido2, kem),
        flags: size_flags(o),
        kdf: o.kdf,
    };
    collect_lines("OS RNG: "@, "OS RNG: "@, fido2, kem) + seq![
        step_or(act, "3-factor vault create failed: "@, remove_vault_and_header(o)),
    ] + hybrid_file_lines(kem) + finish_lines(o, combined_anchor_undo(kem is Some))
}

/// Creates a vault with a single keyslot that needs the TPM and every further
/// factor of `kind`. There is no passphrase to fall back on.
pub fn create_vault_with_tpm_factors_only(
    o: &CreateOpts,
    kind: &TpmBootstrapKind,
    p: Platform,
) -> (s: Script)
    ensures
        s@ == (if !p.spec_has_tpm_flow() {
            seq![stop(no_tpm_text())]
        } else {
            match tpm_factors(*kind) {
                None => seq![
                    stop(
                        "internal: single-factor TPM kinds must go through create_vault_tpm2_only"@,
                    ),
                ],
                Some((fido2, kem)) => tpm_factors_only_lines(*o, fido2, kem),
            }
        }),
{
    if !p.has_tpm_flow() {
        return Script::refuse("TPM 2.0 is Linux-only today; Windows TPM is tracked as a follow-up");
    }
    match tpm_factors_of(kind) {
        None => Script::refuse(
            "internal: single-factor TPM kinds must go through create_vault_tpm2_only",
        ),
        Some((fido2, kem)) => {
            let act = Act::CreateVault {
                kind: tpm_slot_kind_of(fido2, kem),
                flags: size_flags_of(o),
                kdf: o.kdf,
            };
            let s = collect("OS RNG: ", "OS RNG: ", fido2, kem).step_or(
                act,
                "3-factor vault create failed: ",
                vault_and_header_removal(o),
            ).append(hybrid_files(kem)).append(finish(o, combined_anchor_undo_of(kem.is_some())));
            assert(s@ =~= tpm_factors_only_lines(*o, fido2, kem));
            s
        },
    }
}

/// A missing TPM or authenticator leaves no file behind: both are asked before
/// a combined vault is created.
pub proof fn law_tpm_creates_ask_hardware_first(o: CreateOpts, fido2: bool, kem: Option<PqParams>)
    ensures
        devices_first(tpm_factors_deniable_lines(o, fido2, kem)),
        devices_first(tpm_factors_only_lines(o, fido2, kem)),
{
    let deniable = Act::CreateDeniable {
        kind: tpm_deniable_kind(fido2, kem is Some),
        flags: size_flags(o),
        kdf: o.kdf,
    };
    let standard = Act::CreateVault {
        kind: tpm_slot_kind(fido2, kem),
        flags: size_flags(o),
        kdf: o.kdf,
    };
    let rest = hybrid_file_lines(kem) + finish_lines(o, combined_anchor_undo(kem is Some));
    assert(needs_no_device(hybrid_file_lines(kem)));
    assert(needs_no_device(finish_lines(o, combined_anchor_undo(kem is Some))));
    assert(devices_first(hybrid_file_lines(kem)));
    lemma_devices_first(
        hybrid_file_lines(kem),
        finish_lines(o, combined_anchor_undo(kem is Some)),
    );
    let c1 = collect_lines(
        "OS RNG failure generating TPM secret: "@,
        "OS RNG failure: "@,
        fido2,
        kem,
    );
    let c2 = collect_lines("OS RNG: "@, "OS RNG: "@, fido2, kem);
    assert(writes_nothing(c1));
    assert(writes_nothing(c2));
    let l1 = seq![
        step_or(deniable, "deniable 3-factor vault create failed: "@, seq![Act::RemoveVault]),
    ];
    let l2 = seq![step_or(standard, "3-factor vault create failed: "@, remove_vault_and_header(o))];
    assert(devices_first(l1) && devices_first(l2));
    lemma_devices_first(c1, l1);
    lemma_devices_first(c2, l2);
    lemma_devices_first(c1 + l1, rest);
    lemma_devices_first(c2 + l2, rest);
    assert(tpm_factors_deniable_lines(o, fido2, kem) =~= c1 + l1 + rest);
    assert(tpm_factors_only_lines(o, fido2, kem) =~= c2 + l2 + rest);
}

} // verus!
