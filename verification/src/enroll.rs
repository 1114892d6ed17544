//! Adding keyslots to an open vault, and revoking them.

use crate::bootstrap::{no_tpm_text, tpm_deniable_kind, tpm_deniable_kind_of, tpm_seal, tpm_seal_lines, tpm_seal_to_bytes_for_deniable, tpm_slot_kind, tpm_slot_kind_of};
use crate::create::{hybrid_fido2_kind, hybrid_passphrase_kind, register, register_lines};
use crate::kinds::{DeniableKindTag, KdfStrength, Platform, PqParams, SepFactors, SlotKind, bad_kem, bad_kem_text, kem_of, pq_params};
use crate::script::{Act, LineView, Script, SecretRef, act_of, is_step, step, step_or, stop};
use crate::text::join2;
use vstd::prelude::*;

verus! {

/// Enrolling a slot whose material is complete: install, then persist.
pub open spec fn install_lines(install: Act) -> Seq<LineView> {
    seq![step(install, ""@), step(Act::PersistHeader, ""@)]
}

fn install(act: Act) -> (s: Script)
    ensures
        s@ == install_lines(act),
{
    Script::new().step(act, "").step(Act::PersistHeader, "")
}

/// Adds a passphrase keyslot.
pub fn enroll_passphrase(kdf: KdfStrength) -> (s: Script)
    ensures
        s@ == install_lines(Act::InstallPassphrase { kdf }),
{
    install(Act::InstallPassphrase { kdf })
}

/// Adds a passphrase slot to a deniable vault, at the index the user chose.
pub fn enroll_passphrase_deniable(slot: usize, kdf: KdfStrength) -> (s: Script)
    ensures
        s@ == install_lines(Act::InstallPassphraseDeniable { slot, kdf }),
{
    install(Act::InstallPassphraseDeniable { slot, kdf })
}

/// Revokes the keyslot at an index.
pub fn revoke_keyslot(slot: usize) -> (s: Script)
    ensures
        s@ == install_lines(Act::RevokeSlot { slot }),
{
    install(Act::RevokeSlot { slot })
}

/// An install act of a standard keyslot under the fixed KDF preset.
pub open spec fn slot_install(kind: SlotKind, passphrase: bool) -> Act {
    Act::InstallSlot { kind, kdf: KdfStrength::Interactive, passphrase }
}

fn slot_install_of(kind: SlotKind, passphrase: bool) -> (a: Act)
    ensures
        a == slot_install(kind, passphrase),
{
    Act::InstallSlot { kind, kdf: KdfStrength::Interactive, passphrase }
}

/// The lead of a random-generator error while a credential is enrolled.
pub open spec fn salt_lead() -> Seq<char> {
    "OS RNG failure generating FIDO2 hmac salt: "@
}

pub open spec fn enroll_fido2_lines(p: Platform) -> Seq<LineView> {
    if !p.hardware {
        seq![stop("FIDO2 hardware support not compiled in"@)]
    } else {
        register_lines(salt_lead()) + install_lines(slot_install(SlotKind::Fido2HmacSecret, false))
    }
}

/// Adds an authenticator keyslot.
pub fn enroll_fido2(p: Platform) -> (s: Script)
    ensures
        s@ == enroll_fido2_lines(p),
{
    if !p.hardware {
        return Script::refuse("FIDO2 hardware support not compiled in");
    }
    register("OS RNG failure generating FIDO2 hmac salt: ").append(
        install(slot_install_of(SlotKind::Fido2HmacSecret, false)),
    )
}

/// The refusal of a deniable slot without an envelope passphrase.
pub open spec fn no_envelope_text() -> Seq<char> {
    "v2 deniable enroll requires an envelope passphrase for the new slot"@
}

pub open spec fn enroll_fido2_deniable_lines(
    slot: usize,
    passphrase: Seq<char>,
    kdf: KdfStrength,
    p: Platform,
) -> Seq<LineView> {
    if !p.hardware {
        seq![stop("FIDO2 hardware support not compiled in"@)]
    } else if passphrase.len() == 0 {
        seq![stop(no_envelope_text())]
    } else {
        register_lines("OS RNG failure: "@) + install_lines(
            Act::InstallDeniable { kind: DeniableKindTag::Fido2Passphrase, slot, kdf },
        )
    }
}

/// Adds an authenticator slot to a deniable vault.
pub fn enroll_fido2_deniable(slot: usize, passphrase: &str, kdf: KdfStrength, p: Platform) -> (s:
    Script)
    ensures
        s@ == enroll_fido2_deniable_lines(slot, passphrase@, kdf, p),
{
    if !p.hardware {
        return Script::refuse("FIDO2 hardware support not compiled in");
    }
    if passphrase.is_empty() {
        return Script::refuse(
            "v2 deniable enroll requires an envelope passphrase for the new slot",
        );
    }
    register("OS RNG failure: ").append(
        install(Act::InstallDeniable { kind: DeniableKindTag::Fido2Passphrase, slot, kdf }),
    )
}

pub open spec fn enroll_tpm2_deniable_lines(
    slot: usize,
    passphrase: Seq<char>,
    kdf: KdfStrength,
    pin: Option<Seq<char>>,
    p: Platform,
) -> Seq<LineView> {
    if !p.spec_has_tpm_flow() {
        seq![stop(no_tpm_text())]
    } else if passphrase.len() == 0 {
        seq![stop(no_envelope_text())]
    } else if pin is Some && pin->0.len() == 0 {
        seq![stop("TPM PIN cannot be empty; pass None for the no-PIN variant"@)]
    } else {
        tpm_seal_lines("OS RNG failure generating TPM secret: "@, pin is Some) + install_lines(
            Act::InstallDeniable { kind: DeniableKindTag::TpmPassphrase, slot, kdf },
        )
    }
}

/// Adds a TPM slot to a deniable vault. The PIN, where there is one, is bound
/// to the sealed secret; the passphrase opens the slot's envelope.
pub fn enroll_tpm2_deniable(
    slot: usize,
    passphrase: &str,
    kdf: KdfStrength,
    pin: Option<&str>,
    p: Platform,
) -> (s: Script)
    ensures
        s@ == enroll_tpm2_deniable_lines(
            slot,
            passphrase@,
            kdf,
            match pin {
                Some(t) => Some(t@),
                None => None,
            },
            p,
        ),
{
    if !p.has_tpm_flow() {
        return Script::refuse("TPM 2.0 is Linux-only today; Windows TPM is tracked as a follow-up");
    }
    if passphrase.is_empty() {
        return Script::refuse(
            "v2 deniable enroll requires an envelope passphrase for the new slot",
        );
    }
    let with_pin = match pin {
        Some(t) => {
            if t.is_empty() {
                return Script::refuse(
                    "TPM PIN cannot be empty; pass None for the no-PIN variant",
                );
            }
            true
        },
        None => false,
    };
    tpm_seal_to_bytes_for_deniable(with_pin).append(
        install(Act::InstallDeniable { kind: DeniableKindTag::TpmPassphrase, slot, kdf }),
    )
}

/// Adding a combined TPM slot to a deniable vault: the slot is persisted
/// first, then the ML-KEM files of a hybrid one are written.
pub open spec fn tpm_combo_deniable_lines(
    slot: usize,
    passphrase: Seq<char>,
    kdf: KdfStrength,
    fido2: bool,
    kem: Option<PqParams>,
    p: Platform,
) -> Seq<LineView> {
    if !p.spec_has_tpm_flow() {
        seq![stop(no_tpm_text())]
    } else if passphrase.len() == 0 {
        seq![stop(no_envelope_text())]
    } else {
        let touch = if fido2 {
            register_lines("OS RNG failure: "@)
        } else {
            seq![]
        };
        let pq = match kem {
            Some(k) => seq![step(Act::Encapsulate { kem: k }, ""@)],
            None => seq![],
        };
        let files = match kem {
            Some(k) => seq![
                step(Act::ReadSidecar, ""@),
                step(Act::MergeSidecar { kem: k }, ""@),
                step(Act::WriteSeed { pw: SecretRef::SeedPassphrase }, ""@),
            ],
            None => seq![],
        };
        tpm_seal_lines("OS RNG failure generating TPM secret: "@, false) + touch + pq
            + install_lines(
            Act::InstallDeniable { kind: tpm_deniable_kind(fido2, kem is Some), slot, kdf },
        ) + files
    }
}

fn tpm_combo_deniable(
    slot: usize,
    passphrase: &str,
    kdf: KdfStrength,
    fido2: bool,
    kem: Option<PqParams>,
    p: Platform,
) -> (s: Script)
    ensures
        s@ == tpm_combo_deniable_lines(slot, passphrase@, kdf, fido2, kem, p),
{
    if !p.has_tpm_flow() {
        return Script::refuse("TPM 2.0 is Linux-only today; Windows TPM is tracked as a follow-up");
    }
    if passphrase.is_empty() {
        return Script::refuse(
            "v2 deniable enroll requires an envelope passphrase for the new slot",
        );
    }
    let mut s = tpm_seal_to_bytes_for_deniable(false);
    if fido2 {
        s = s.append(register("OS RNG failure: "));
    }
    if let Some(k) = kem {
        s = s.step(Act::Encapsulate { kem: k }, "");
    }
    s = s.append(
        install(
            Act::InstallDeniable { kind: tpm_deniable_kind_of(fido2, kem.is_some()), slot, kdf },
        ),
    );
    if let Some(k) = kem {
        s = s.step(Act::ReadSidecar, "").step(Act::MergeSidecar { kem: k }, "").step(
            Act::WriteSeed { pw: SecretRef::SeedPassphrase },
            "",
        );
    }
    assert(s@ =~= tpm_combo_deniable_lines(slot, passphrase@, kdf, fido2, kem, p));
    s
}

/// Adds a TPM + authenticator slot to a deniable vault.
pub fn enroll_tpm2_fido2_deniable(
    slot: usize,
    passphrase: &str,
    kdf: KdfStrength,
    p: Platform,
) -> (s: Script)
    ensures
        s@ == tpm_combo_deniable_lines(slot, passphrase@, kdf, true, None, p),
{
    tpm_combo_deniable(slot, passphrase, kdf, true, None, p)
}

/// Adds a TPM + ML-KEM slot to a deniable vault.
pub fn enroll_hybrid_pq_tpm2_deniable(
    slot: usize,
    passphrase: &str,
    kdf: KdfStrength,
    kem: PqParams,
    p: Platform,
) -> (s: Script)
    ensures
        s@ == tpm_combo_deniable_lines(slot, passphrase@, kdf, false, Some(kem), p),
{
    tpm_combo_deniable(slot, passphrase, kdf, false, Some(kem), p)
}

/// Adds a TPM + authenticator + ML-KEM slot to a deniable vault.
pub fn enroll_hybrid_pq_tpm2_fido2_deniable(
    slot: usize,
    passphrase: &str,
    kdf: KdfStrength,
    kem: PqParams,
    p: Platform,
) -> (s: Script)
    ensures
        s@ == tpm_combo_deniable_lines(slot, passphrase@, kdf, true, Some(kem), p),
{
    tpm_combo_deniable(slot, passphrase, kdf, true, Some(kem), p)
}

pub open spec fn enroll_tpm2_lines(p: Platform) -> Seq<LineView> {
    if !p.hardware {
        seq![stop("TPM 2.0 hardware support not compiled in"@)]
    } else {
        tpm_seal_lines("OS RNG failure generating TPM KEK: "@, false) + install_lines(
            slot_install(SlotKind::Tpm2Sealed, false),
        )
    }
}

/// Adds a TPM keyslot. The chip is opened before any secret is drawn.
pub fn enroll_tpm2(p: Platform) -> (s: Script)
    ensures
        s@ == enroll_tpm2_lines(p),
{
    if !p.hardware {
        return Script::refuse("TPM 2.0 hardware support not compiled in");
    }
    tpm_seal("OS RNG failure generating TPM KEK: ", false).append(
        install(slot_install_of(SlotKind::Tpm2Sealed, false)),
    )
}

pub open spec fn enroll_tpm2_pin_lines(pin: Seq<char>, p: Platform) -> Seq<LineView> {
    if !p.hardware {
        seq![stop("TPM 2.0 + PIN enroll requires --features hardware"@)]
    } else if pin.len() == 0 {
        seq![stop("PIN cannot be empty (use the no-PIN TPM kind instead)"@)]
    } else {
        tpm_seal_lines("OS RNG failure generating TPM PIN-bound KEK: "@, true) + install_lines(
            slot_install(SlotKind::Tpm2SealedPin, false),
        )
    }
}

/// Adds a TPM keyslot that the chip releases only for the PIN.
pub fn enroll_tpm2_pin(pin: &str, p: Platform) -> (s: Script)
    ensures
        s@ == enroll_tpm2_pin_lines(pin@, p),
{
    if !p.hardware {
        return Script::refuse("TPM 2.0 + PIN enroll requires --features hardware");
    }
    if pin.is_empty() {
        return Script::refuse("PIN cannot be empty (use the no-PIN TPM kind instead)");
    }
    tpm_seal("OS RNG failure generating TPM PIN-bound KEK: ", true).append(
        install(slot_install_of(SlotKind::Tpm2SealedPin, false)),
    )
}

/// Collecting TPM and authenticator together: the chip is opened, the
/// credential registered, then the two secrets made.
pub open spec fn tpm_fido2_lines(draw_lead: Seq<char>) -> Seq<LineView> {
    seq![
        step(Act::OpenTpm, "could not open local TPM 2.0 device: "@),
        step(Act::NewUserHandle, ""@),
        step(Act::RegisterCredential, ""@),
        step(Act::DrawSecret, draw_lead),
        step(Act::SealTpm { pin: false }, "TPM seal: "@),
        step(Act::DrawSalt, salt_lead()),
        step(Act::DeriveNewHmac, ""@),
    ]
}

fn tpm_fido2(draw_lead: &str) -> (s: Script)
    ensures
        s@ == tpm_fido2_lines(draw_lead@),
{
    Script::new().step(Act::OpenTpm, "could not open local TPM 2.0 device: ").step(
        Act::NewUserHandle,
        "",
    ).step(Act::RegisterCredential, "").step(Act::DrawSecret, draw_lead).step(
        Act::SealTpm { pin: false },
        "TPM seal: ",
    ).step(Act::DrawSalt, "OS RNG failure generating FIDO2 hmac salt: ").step(
        Act::DeriveNewHmac,
        "",
    )
}

pub open spec fn enroll_tpm2_fido2_lines(p: Platform) -> Seq<LineView> {
    if !p.hardware {
        seq![stop("TPM 2.0 + FIDO2 fused enroll requires --features hardware"@)]
    } else {
        tpm_fido2_lines("OS RNG failure generating TPM half: "@) + install_lines(
            slot_install(SlotKind::Tpm2Fido2, false),
        )
    }
}

/// Adds a keyslot that needs both the TPM and the authenticator.
pub fn enroll_tpm2_fido2(p: Platform) -> (s: Script)
    ensures
        s@ == enroll_tpm2_fido2_lines(p),
{
    if !p.hardware {
        return Script::refuse("TPM 2.0 + FIDO2 fused enroll requires --features hardware");
    }
    tpm_fido2("OS RNG failure generating TPM half: ").append(
        install(slot_install_of(SlotKind::Tpm2Fido2, false)),
    )
}

pub open spec fn sep_seal_lines(biometric: bool) -> Seq<LineView> {
    seq![
        step(Act::OpenSep, ""@),
        step(
            Act::SealSep { biometric },
            if biometric {
                "SEP seal (biometric): "@
            } else {
                "SEP seal: "@
            },
        ),
    ]
}

pub fn sep_seal(biometric: bool) -> (s: Script)
    ensures
        s@ == sep_seal_lines(biometric),
{
    let lead = if biometric {
        "SEP seal (biometric): "
    } else {
        "SEP seal: "
    };
    Script::new().step(Act::OpenSep, "").step(Act::SealSep { biometric }, lead)
}

pub open spec fn sep_kind(biometric: bool) -> SlotKind {
    if biometric {
        SlotKind::SepSealedBiometric
    } else {
        SlotKind::SepSealed
    }
}

pub open spec fn enroll_sep_lines(biometric: bool, p: Platform) -> Seq<LineView> {
    if !p.hardware {
        seq![stop("Secure Enclave enroll requires --features hardware (macOS Secure Enclave)"@)]
    } else {
        sep_seal_lines(biometric) + install_lines(slot_install(sep_kind(biometric), false))
    }
}

/// Adds a Secure Enclave keyslot, with or without Touch ID.
pub fn enroll_sep(biometric: bool, p: Platform) -> (s: Script)
    ensures
        s@ == enroll_sep_lines(biometric, p),
{
    if !p.hardware {
        return Script::refuse(
            "Secure Enclave enroll requires --features hardware (macOS Secure Enclave)",
        );
    }
    let kind = if biometric {
        SlotKind::SepSealedBiometric
    } else {
        SlotKind::SepSealed
    };
    sep_seal(biometric).append(install(slot_install_of(kind, false)))
}

/// Enrolling a hybrid slot so that a failure changes nothing: the slot is
/// installed in memory, then the sidecar and the seed are written, and only
/// then the header. Each line undoes what the earlier ones did.
pub open spec fn atomic_lines(install: Act, kem: PqParams, persist_lead: Seq<char>) -> Seq<
    LineView,
> {
    seq![
        step(install, ""@),
        step_or(Act::ReadSidecar, "read existing hybrid sidecar: "@, seq![Act::RevokeInstalled]),
        step_or(
            Act::AppendSidecar { kem },
            "write hybrid sidecar: "@,
            seq![Act::RevokeInstalled],
        ),
        step_or(
            Act::WriteSeed { pw: SecretRef::SeedPassphrase },
            "write kyber seed: "@,
            seq![Act::RevokeInstalled, Act::RollbackSidecar],
        ),
        step_or(
            Act::PersistHeader,
            persist_lead,
            seq![Act::RevokeInstalled, Act::RollbackSidecar, Act::RemoveSeed],
        ),
    ]
}

fn undo1(a: Act) -> (v: Vec<Act>)
    ensures
        v@ == seq![a],
{
    let mut v: Vec<Act> = Vec::new();
    v.push(a);
    assert(v@ =~= seq![a]);
    v
}

fn undo2(a: Act, b: Act) -> (v: Vec<Act>)
    ensures
        v@ == seq![a, b],
{
    let mut v: Vec<Act> = Vec::new();
    v.push(a);
    v.push(b);
    assert(v@ =~= seq![a, b]);
    v
}

fn undo3(a: Act, b: Act, c: Act) -> (v: Vec<Act>)
    ensures
        v@ == seq![a, b, c],
{
    let mut v: Vec<Act> = Vec::new();
    v.push(a);
    v.push(b);
    v.push(c);
    assert(v@ =~= seq![a, b, c]);
    v
}

fn atomic(install: Act, kem: PqParams, persist_lead: &str) -> (s: Script)
    ensures
        s@ == atomic_lines(install, kem, persist_lead@),
{
    Script::new().step(install, "").step_or(
        Act::ReadSidecar,
        "read existing hybrid sidecar: ",
        undo1(Act::RevokeInstalled),
    ).step_or(
        Act::AppendSidecar { kem },
        "write hybrid sidecar: ",
        undo1(Act::RevokeInstalled),
    ).step_or(
        Act::WriteSeed { pw: SecretRef::SeedPassphrase },
        "write kyber seed: ",
        undo2(Act::RevokeInstalled, Act::RollbackSidecar),
    ).step_or(
        Act::PersistHeader,
        persist_lead,
        undo3(Act::RevokeInstalled, Act::RollbackSidecar, Act::RemoveSeed),
    )
}

/// The same for a deniable slot, whose old sidecar entry is replaced.
pub open spec fn atomic_deniable_lines(install: Act, slot: usize, kem: PqParams) -> Seq<LineView> {
    let clear = Act::ClearDeniable { slot };
    seq![
        step(install, ""@),
        step_or(Act::ReadSidecar, "read existing hybrid sidecar: "@, seq![clear]),
        step_or(Act::MergeSidecar { kem }, "write hybrid sidecar: "@, seq![clear]),
        step_or(
            Act::WriteSeed { pw: SecretRef::SeedPassphrase },
            "write kyber seed: "@,
            seq![clear, Act::RollbackSidecar],
        ),
        step_or(
            Act::PersistHeader,
            ""@,
            seq![clear, Act::RollbackSidecar, Act::RemoveSeed],
        ),
    ]
}

fn atomic_deniable(install: Act, slot: usize, kem: PqParams) -> (s: Script)
    ensures
        s@ == atomic_deniable_lines(install, slot, kem),
{
    let clear = Act::ClearDeniable { slot };
    Script::new().step(install, "").step_or(
        Act::ReadSidecar,
        "read existing hybrid sidecar: ",
        undo1(clear),
    ).step_or(Act::MergeSidecar { kem }, "write hybrid sidecar: ", undo1(clear)).step_or(
        Act::WriteSeed { pw: SecretRef::SeedPassphrase },
        "write kyber seed: ",
        undo2(clear, Act::RollbackSidecar),
    ).step_or(
        Act::PersistHeader,
        "",
        undo3(clear, Act::RollbackSidecar, Act::RemoveSeed),
    )
}

/// Where the `.kyber` seed of a new hybrid slot goes.
pub struct SeedTarget {
    pub path: String,
    /// Whether something is there already.
    pub exists: bool,
}

/// Why a hybrid enroll is refused: its seed file exists, or its ML-KEM size
/// does not.
pub open spec fn hybrid_refusal(seed: SeedTarget, kem_size: u16) -> Option<Seq<char>> {
    if seed.exists {
        Some(seed.path@ + " already exists"@)
    } else if kem_of(kem_size) is None {
        Some(bad_kem_text(kem_size))
    } else {
        None
    }
}

fn hybrid_check(seed: &SeedTarget, kem_size: u16) -> (r: Result<PqParams, String>)
    ensures
        match hybrid_refusal(*seed, kem_size) {
            Some(t) => r matches Err(e) && e@ == t,
            None => r matches Ok(k) && kem_of(kem_size) == Some(k),
        },
{
    if seed.exists {
        return Err(join2(seed.path.as_str(), " already exists"));
    }
    match pq_params(kem_size) {
        Some(k) => Ok(k),
        None => Err(bad_kem(kem_size)),
    }
}

/// Encapsulating on behalf of an enroll.
pub open spec fn encapsulate_lines(kem: PqParams) -> Seq<LineView> {
    seq![step(Act::Encapsulate { kem }, "ML-KEM encapsulate: "@)]
}

fn encapsulate(kem: PqParams) -> (s: Script)
    ensures
        s@ == encapsulate_lines(kem),
{
    Script::new().step(Act::Encapsulate { kem }, "ML-KEM encapsulate: ")
}

pub open spec fn sep_hybrid_kind(kem: PqParams) -> SlotKind {
    match kem {
        PqParams::Ml768 => SlotKind::HybridPqKemSep,
        PqParams::Ml1024 => SlotKind::HybridPqKem1024Sep,
    }
}

pub open spec fn enroll_hybrid_pq_sep_lines(seed: SeedTarget, kem_size: u16, p: Platform) -> Seq<
    LineView,
> {
    if !p.hardware {
        seq![
            stop("hybrid-pq-sep enroll requires --features hardware (macOS Secure Enclave)"@),
        ]
    } else {
        match hybrid_refusal(seed, kem_size) {
            Some(t) => seq![stop(t)],
            None => {
                let kem = kem_of(kem_size)->0;
                sep_seal_lines(false) + encapsulate_lines(kem) + atomic_lines(
                    slot_install(sep_hybrid_kind(kem), false),
                    kem,
                    ""@,
                )
            },
        }
    }
}

/// Adds a Secure Enclave + ML-KEM keyslot.
pub fn enroll_hybrid_pq_sep(seed: &SeedTarget, kem_size: u16, p: Platform) -> (s: Script)
    ensures
        s@ == enroll_hybrid_pq_sep_lines(*seed, kem_size, p),
{
    if !p.hardware {
        return Script::refuse(
            "hybrid-pq-sep enroll requires --features hardware (macOS Secure Enclave)",
        );
    }
    match hybrid_check(seed, kem_size) {
        Err(t) => Script::refuse(t.as_str()),
        Ok(kem) => {
            let kind = match kem {
                PqParams::Ml768 => SlotKind::HybridPqKemSep,
                PqParams::Ml1024 => SlotKind::HybridPqKem1024Sep,
            };
            sep_seal(false).append(encapsulate(kem)).append(
                atomic(slot_install_of(kind, false), kem, ""),
            )
        },
    }
}

/// Collecting the factors of a fused Secure Enclave slot: the enclave is
/// opened, the credential registered, then the enclave seals.
pub open spec fn fused_collect_lines(fido2: bool) -> Seq<LineView> {
    let touch = if fido2 {
        register_lines(salt_lead())
    } else {
        seq![]
    };
    seq![step(Act::OpenSep, ""@)] + touch + seq![
        step(Act::SealSep { biometric: false }, "SEP seal: "@),
    ]
}

fn fused_collect(fido2: bool) -> (s: Script)
    ensures
        s@ == fused_collect_lines(fido2),
{
    let mut s = Script::new().step(Act::OpenSep, "");
    if fido2 {
        s = s.append(register("OS RNG failure generating FIDO2 hmac salt: "));
    }
    let r = s.step(Act::SealSep { biometric: false }, "SEP seal: ");
    assert(r@ =~= fused_collect_lines(fido2));
    r
}

pub open spec fn enroll_sep_fused_lines(
    factors: SepFactors,
    kem_size: Option<u16>,
    seed: Option<SeedTarget>,
    p: Platform,
) -> Seq<LineView> {
    if !p.hardware {
        seq![
            stop(
                "fused Secure Enclave enroll requires --features hardware (macOS Secure Enclave; FIDO2 kinds also need libfido2)"@,
            ),
        ]
    } else {
        match kem_size {
            None => fused_collect_lines(factors.binds_fido2()) + seq![
                step(slot_install(factors.fused_kind(None), factors.binds_passphrase()), ""@),
                step_or(Act::PersistHeader, "persist header: "@, seq![Act::RevokeInstalled]),
            ],
            Some(n) => if kem_of(n) is None {
                seq![stop(bad_kem_text(n))]
            } else if seed is None {
                seq![stop("hybrid SEP enroll requires a path to write the .kyber seed file"@)]
            } else if seed->0.exists {
                seq![stop(seed->0.path@ + " already exists"@)]
            } else {
                let kem = kem_of(n)->0;
                fused_collect_lines(factors.binds_fido2()) + encapsulate_lines(kem) + atomic_lines(
                    slot_install(factors.fused_kind(Some(kem)), factors.binds_passphrase()),
                    kem,
                    "persist header: "@,
                )
            },
        }
    }
}

/// Adds a Secure Enclave keyslot fused with further factors. All of them are
/// needed at every unlock.
pub fn enroll_sep_fused(
    factors: SepFactors,
    kem_size: Option<u16>,
    seed: Option<&SeedTarget>,
    p: Platform,
) -> (s: Script)
    ensures
        s@ == enroll_sep_fused_lines(
            factors,
            kem_size,
            match seed {
                Some(t) => Some(*t),
                None => None,
            },
            p,
        ),
{
    if !p.hardware {
        return Script::refuse(
            "fused Secure Enclave enroll requires --features hardware (macOS Secure Enclave; FIDO2 kinds also need libfido2)",
        );
    }
    let kind = match factors.slot_kind(kem_size) {
        Err(e) => {
            return Script::refuse(e.as_str());
        },
        Ok(k) => k,
    };
    let install = slot_install_of(kind, factors.has_passphrase());
    match kem_size {
        None => {
            let s = fused_collect(factors.has_fido2()).step(install, "").step_or(
                Act::PersistHeader,
                "persist header: ",
                undo1(Act::RevokeInstalled),
            );
            assert(s@ =~= enroll_sep_fused_lines(
                factors,
                kem_size,
                match seed {
                    Some(t) => Some(*t),
                    None => None,
                },
                p,
            ));
            s
        },
        Some(n) => {
            match seed {
                None => Script::refuse(
                    "hybrid SEP enroll requires a path to write the .kyber seed file",
                ),
                Some(t) => {
                    match hybrid_check(t, n) {
                        Err(e) => Script::refuse(e.as_str()),
                        Ok(kem) => {
                            fused_collect(factors.has_fido2()).append(encapsulate(kem)).append(
                                atomic(install, kem, "persist header: "),
                            )
                        },
                    }
                },
            }
        },
    }
}

pub open spec fn enroll_hybrid_pq_tpm2_lines(seed: SeedTarget, kem_size: u16, p: Platform) -> Seq<
    LineView,
> {
    if !p.hardware {
        seq![stop("hybrid-pq-tpm2 enroll requires --features hardware"@)]
    } else {
        match hybrid_refusal(seed, kem_size) {
            Some(t) => seq![stop(t)],
            None => {
                let kem = kem_of(kem_size)->0;
                tpm_seal_lines("OS RNG failure generating hybrid TPM KEK: "@, false)
                    + encapsulate_lines(kem) + atomic_lines(
                    slot_install(tpm_slot_kind(false, Some(kem)), false),
                    kem,
                    ""@,
                )
            },
        }
    }
}

/// Adds a TPM + ML-KEM keyslot.
pub fn enroll_hybrid_pq_tpm2(seed: &SeedTarget, kem_size: u16, p: Platform) -> (s: Script)
    ensures
        s@ == enroll_hybrid_pq_tpm2_lines(*seed, kem_size, p),
{
    if !p.hardware {
        return Script::refuse("hybrid-pq-tpm2 enroll requires --features hardware");
    }
    match hybrid_check(seed, kem_size) {
        Err(t) => Script::refuse(t.as_str()),
        Ok(kem) => {
            tpm_seal("OS RNG failure generating hybrid TPM KEK: ", false).append(
                encapsulate(kem),
            ).append(
                atomic(slot_install_of(tpm_slot_kind_of(false, Some(kem)), false), kem, ""),
            )
        },
    }
}

pub open spec fn enroll_hybrid_pq_tpm2_fido2_lines(
    seed: SeedTarget,
    kem_size: u16,
    p: Platform,
) -> Seq<LineView> {
    if !p.hardware {
        seq![stop("hybrid-pq-tpm2-fido2 enroll requires --features hardware"@)]
    } else {
        match hybrid_refusal(seed, kem_size) {
            Some(t) => seq![stop(t)],
            None => {
                let kem = kem_of(kem_size)->0;
                tpm_fido2_lines("OS RNG failure generating 3-factor TPM half: "@)
                    + encapsulate_lines(kem) + atomic_lines(
                    slot_install(tpm_slot_kind(true, Some(kem)), false),
                    kem,
                    ""@,
                )
            },
        }
    }
}

/// Adds a TPM + authenticator + ML-KEM keyslot.
pub fn enroll_hybrid_pq_tpm2_fido2(seed: &SeedTarget, kem_size: u16, p: Platform) -> (s: Script)
    ensures
        s@ == enroll_hybrid_pq_tpm2_fido2_lines(*seed, kem_size, p),
{
    if !p.hardware {
        return Script::refuse("hybrid-pq-tpm2-fido2 enroll requires --features hardware");
    }
    match hybrid_check(seed, kem_size) {
        Err(t) => Script::refuse(t.as_str()),
        Ok(kem) => {
            tpm_fido2("OS RNG failure generating 3-factor TPM half: ").append(
                encapsulate(kem),
            ).append(
                atomic(slot_install_of(tpm_slot_kind_of(true, Some(kem)), false), kem, ""),
            )
        },
    }
}

pub open spec fn enroll_hybrid_pq_passphrase_lines(
    slot_pw: Seq<char>,
    seed: SeedTarget,
    kem_size: u16,
) -> Seq<LineView> {
    if slot_pw.len() == 0 {
        seq![stop("slot passphrase must not be empty"@)]
    } else {
        match hybrid_refusal(seed, kem_size) {
            Some(t) => seq![stop(t)],
            None => {
                let kem = kem_of(kem_size)->0;
                encapsulate_lines(kem) + atomic_lines(
                    slot_install(hybrid_passphrase_kind(kem), true),
                    kem,
                    ""@,
                )
            },
        }
    }
}

fn hybrid_passphrase_kind_of(kem: PqParams) -> (k: SlotKind)
    ensures
        k == hybrid_passphrase_kind(kem),
{
    match kem {
        PqParams::Ml768 => SlotKind::HybridPqKemPassphrase,
        PqParams::Ml1024 => SlotKind::HybridPqKem1024Passphrase,
    }
}

/// Adds a passphrase + ML-KEM keyslot.
pub fn enroll_hybrid_pq_passphrase(slot_pw: &str, seed: &SeedTarget, kem_size: u16) -> (s: Script)
    ensures
        s@ == enroll_hybrid_pq_passphrase_lines(slot_pw@, *seed, kem_size),
{
    if slot_pw.is_empty() {
        return Script::refuse("slot passphrase must not be empty");
    }
    match hybrid_check(seed, kem_size) {
        Err(t) => Script::refuse(t.as_str()),
        Ok(kem) => {
            encapsulate(kem).append(
                atomic(slot_install_of(hybrid_passphrase_kind_of(kem), true), kem, ""),
            )
        },
    }
}

pub open spec fn enroll_hybrid_pq_fido2_lines(
    slot_pw: Seq<char>,
    seed: SeedTarget,
    kem_size: u16,
    p: Platform,
) -> Seq<LineView> {
    if !p.hardware {
        seq![stop("FIDO2 + ML-KEM enroll requires --features hardware"@)]
    } else {
        match hybrid_refusal(seed, kem_size) {
            Some(t) => seq![stop(t)],
            None => {
                let kem = kem_of(kem_size)->0;
                register_lines(salt_lead()) + encapsulate_lines(kem) + atomic_lines(
                    slot_install(hybrid_fido2_kind(kem), slot_pw.len() > 0),
                    kem,
                    ""@,
                )
            },
        }
    }
}

/// Adds an authenticator + ML-KEM keyslot. A slot passphrase is folded in
/// unless it is empty.
pub fn enroll_hybrid_pq_fido2(
    slot_pw: &str,
    seed: &SeedTarget,
    kem_size: u16,
    p: Platform,
) -> (s: Script)
    ensures
        s@ == enroll_hybrid_pq_fido2_lines(slot_pw@, *seed, kem_size, p),
{
    if !p.hardware {
        return Script::refuse("FIDO2 + ML-KEM enroll requires --features hardware");
    }
    match hybrid_check(seed, kem_size) {
        Err(t) => Script::refuse(t.as_str()),
        Ok(kem) => {
            let kind = match kem {
                PqParams::Ml768 => SlotKind::HybridPqKemFido2,
                PqParams::Ml1024 => SlotKind::HybridPqKem1024Fido2,
            };
            register("OS RNG failure generating FIDO2 hmac salt: ").append(
                encapsulate(kem),
            ).append(atomic(slot_install_of(kind, !slot_pw.is_empty()), kem, ""))
        },
    }
}

/// The deniable install act under the fixed KDF preset.
pub open spec fn deniable_install(kind: DeniableKindTag, slot: usize) -> Act {
    Act::InstallDeniable { kind, slot, kdf: KdfStrength::Interactive }
}

pub open spec fn enroll_hybrid_pq_passphrase_deniable_lines(
    slot: usize,
    envelope_pw: Seq<char>,
    seed: SeedTarget,
    kem_size: u16,
) -> Seq<LineView> {
    if envelope_pw.len() == 0 {
        seq![stop("v2 deniable enroll requires an envelope passphrase"@)]
    } else {
        match hybrid_refusal(seed, kem_size) {
            Some(t) => seq![stop(t)],
            None => {
                let kem = kem_of(kem_size)->0;
                encapsulate_lines(kem) + atomic_deniable_lines(
                    deniable_install(DeniableKindTag::HybridPqPassphrase, slot),
                    slot,
                    kem,
                )
            },
        }
    }
}

/// Adds a passphrase + ML-KEM slot to a deniable vault.
pub fn enroll_hybrid_pq_passphrase_deniable(
    slot: usize,
    envelope_pw: &str,
    seed: &SeedTarget,
    kem_size: u16,
) -> (s: Script)
    ensures
        s@ == enroll_hybrid_pq_passphrase_deniable_lines(slot, envelope_pw@, *seed, kem_size),
{
    if envelope_pw.is_empty() {
        return Script::refuse("v2 deniable enroll requires an envelope passphrase");
    }
    match hybrid_check(seed, kem_size) {
        Err(t) => Script::refuse(t.as_str()),
        Ok(kem) => {
            encapsulate(kem).append(
                atomic_deniable(
                    Act::InstallDeniable {
                        kind: DeniableKindTag::HybridPqPassphrase,
                        slot,
                        kdf: KdfStrength::Interactive,
                    },
                    slot,
                    kem,
                ),
            )
        },
    }
}

pub open spec fn enroll_hybrid_pq_fido2_deniable_lines(
    slot: usize,
    envelope_pw: Seq<char>,
    seed: SeedTarget,
    kem_size: u16,
    p: Platform,
) -> Seq<LineView> {
    if !p.hardware {
        seq![stop("deniable FIDO2 + ML-KEM enroll requires --features hardware"@)]
    } else if envelope_pw.len() == 0 {
        seq![stop("v2 deniable enroll requires an envelope passphrase"@)]
    } else {
        match hybrid_refusal(seed, kem_size) {
            Some(t) => seq![stop(t)],
            None => {
                let kem = kem_of(kem_size)->0;
                register_lines(salt_lead()) + encapsulate_lines(kem) + atomic_deniable_lines(
                    deniable_install(DeniableKindTag::HybridPqFido2Passphrase, slot),
                    slot,
                    kem,
                )
            },
        }
    }
}

/// Adds an authenticator + ML-KEM slot to a deniable vault.
pub fn enroll_hybrid_pq_fido2_deniable(
    slot: usize,
    envelope_pw: &str,
    seed: &SeedTarget,
    kem_size: u16,
    p: Platform,
) -> (s: Script)
    ensures
        s@ == enroll_hybrid_pq_fido2_deniable_lines(slot, envelope_pw@, *seed, kem_size, p),
{
    if !p.hardware {
        return Script::refuse("deniable FIDO2 + ML-KEM enroll requires --features hardware");
    }
    if envelope_pw.is_empty() {
        return Script::refuse("v2 deniable enroll requires an envelope passphrase");
    }
    match hybrid_check(seed, kem_size) {
        Err(t) => Script::refuse(t.as_str()),
        Ok(kem) => {
            register("OS RNG failure generating FIDO2 hmac salt: ").append(
                encapsulate(kem),
            ).append(
                atomic_deniable(
                    Act::InstallDeniable {
                        kind: DeniableKindTag::HybridPqFido2Passphrase,
                        slot,
                        kdf: KdfStrength::Interactive,
                    },
                    slot,
                    kem,
                ),
            )
        },
    }
}

/// Adding or revoking a keyslot by itself is done at once and then written back.
pub proof fn law_a_change_is_written_back(change: Act)
    ensures
        install_lines(change).len() == 2,
        is_step(install_lines(change)[0]) && act_of(install_lines(change)[0]) == change,
        is_step(install_lines(change)[1]) && act_of(install_lines(change)[1])
            == Act::PersistHeader,
{
}

} // verus!
