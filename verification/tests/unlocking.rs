//! Unlocking: what is asked of which device, in which order.

use luksbox_gui::kinds::{
    CipherSuite, DeniableKindTag, KdfStrength, Platform, PqParams, SepBootstrapKind, SepFactors, SlotKind,
    TargetOs, TpmBootstrapKind, UnlockMethod,
};
use luksbox_gui::opened::{opened_vault, OpenedBy, ToleratedInode};
use luksbox_gui::requests::UnlockOpts;
use luksbox_gui::rotate::{rotate_hint, rotate_slots};
use luksbox_gui::script::{Act, Directive, Job, Outcome, Script, SecretRef, UnlockFactors};
use luksbox_gui::sidecar::HybridEntry;
use luksbox_gui::slots::{
    active_slot_count, confirm_revoke, credential_line, header_has_fido2, header_has_hybrid_pq,
    header_has_tpm, inspect_slot_kinds, kdf_line, pill_label, pill_tone, PillTone, SlotFacts,
};
use luksbox_gui::unlock::{
    check_rollback, next_phase, unlock_vault, unseal_leads, AnchorFile, Envelope, Findings, Phase,
    VerificationOutcome,
};
use luksbox_gui::unlock_deniable::anchor_mismatch;

const LINUX: Platform = Platform { os: TargetOs::Linux, hardware: true };
const WINDOWS: Platform = Platform { os: TargetOs::Windows, hardware: true };
const MACOS: Platform = Platform { os: TargetOs::Macos, hardware: true };
const BARE: Platform = Platform { os: TargetOs::Linux, hardware: false };

fn request(method: UnlockMethod) -> UnlockOpts {
    UnlockOpts {
        path: "/v/a.lbx".to_string(),
        header_path: None,
        method,
        passphrase: Some("pw".to_string()),
        pin: Some("1234".to_string()),
        anchor_path: None,
        hybrid_kyber_path: Some("/usb/a.kyber".to_string()),
        hybrid_seed_pw: None,
        use_deniable: false,
        deniable_cipher: CipherSuite::Aes256GcmSiv,
        deniable_kdf: KdfStrength::Moderate,
        recovery_mode: false,
    }
}

fn slot(kind: SlotKind) -> SlotFacts {
    SlotFacts {
        kind,
        hybrid_pq: false,
        hybrid_pq_fido2: false,
        tpm2: false,
        sep: false,
        sep_fido2: false,
        sep_passphrase: false,
        tpm2_fido2_cred: false,
        cred_len: 0,
        salt_prehashed: true,
    }
}

fn hybrid(slot_idx: u8) -> HybridEntry {
    HybridEntry { slot_idx, level: PqParams::Ml768, pubkey: vec![], ciphertext: vec![] }
}

fn findings(slots: Vec<SlotFacts>, entries: Vec<HybridEntry>) -> Findings {
    Findings {
        slots,
        envelope: Envelope {
            kind: DeniableKindTag::Passphrase,
            slot: 0,
            cred_len: 0,
            has_salt: false,
            blob_len: 0,
        },
        entries,
        anchor: AnchorFile::Regular { len: 256 },
    }
}

/// Carries out the phases of an unlock; `fails` says which act fails, and
/// whether because decryption failed.
fn unlock(
    o: &UnlockOpts,
    p: Platform,
    f: &Findings,
    fails: fn(Act) -> Option<bool>,
) -> (Vec<Act>, Result<(), String>) {
    let mut done = Vec::new();
    let mut phase = Phase::Start;
    while phase != Phase::Done {
        let mut job = Job::start(unlock_vault(o, p, phase, f));
        loop {
            match job.directive() {
                Directive::Perform(act) => {
                    done.push(act);
                    job = job.report(match fails(act) {
                        None => Outcome::Done,
                        Some(true) => Outcome::Opaque { error: "opaque".to_string() },
                        Some(false) => Outcome::Failed { error: "boom".to_string() },
                    });
                }
                Directive::Undo(_) => panic!("an unlock has nothing to undo"),
                Directive::Finished => break,
                Directive::Failed(text) => return (done, Err(text)),
            }
        }
        phase = next_phase(o, phase);
    }
    (done, Ok(()))
}

fn all_well(_: Act) -> Option<bool> {
    None
}

fn refusal(o: &UnlockOpts, p: Platform, f: &Findings) -> String {
    let (_, result) = unlock(o, p, f, all_well);
    result.unwrap_err()
}

fn open(kind: UnlockFactors, slot: usize) -> Act {
    Act::OpenWith { kind, slot }
}

#[test]
fn a_passphrase_opens_without_reading_the_header_first() {
    let mut o = request(UnlockMethod::Passphrase);
    o.anchor_path = Some("/usb/a.anchor".to_string());
    o.recovery_mode = true;
    let (done, result) = unlock(&o, BARE, &findings(vec![], vec![]), all_well);
    assert_eq!(result, Ok(()));
    assert_eq!(
        done,
        [
            open(UnlockFactors::Passphrase, 0),
            Act::SetAnchor,
            Act::OpenVfs { tolerant: true },
            Act::CompareAnchor,
        ]
    );
    let (_, result) = unlock(&o, BARE, &findings(vec![], vec![]), |act| {
        if act == Act::CompareAnchor {
            Some(false)
        } else {
            None
        }
    });
    assert_eq!(result, Err("boom".to_string()));
    o.passphrase = None;
    assert_eq!(refusal(&o, BARE, &findings(vec![], vec![])), "passphrase required");
}

#[test]
fn every_authenticator_slot_is_tried_in_order() {
    let o = request(UnlockMethod::Fido2);
    let f = findings(
        vec![
            slot(SlotKind::Passphrase),
            slot(SlotKind::Fido2HmacSecret),
            slot(SlotKind::Fido2DerivedMvk),
        ],
        vec![],
    );
    let (done, result) = unlock(&o, LINUX, &f, |a| match a {
        Act::OpenWith { slot: 1, .. } => Some(false),
        _ => None,
    });
    assert_eq!(result, Ok(()));
    assert_eq!(
        done,
        [
            Act::ReadHeader,
            Act::DeriveSlotHmac { slot: 1, stored: false, prehash: true },
            open(UnlockFactors::Fido2, 1),
            Act::DeriveSlotHmac { slot: 2, stored: false, prehash: true },
            open(UnlockFactors::Fido2, 2),
            Act::OpenVfs { tolerant: false },
        ]
    );
    let (_, result) = unlock(&o, LINUX, &f, |a| match a {
        Act::DeriveSlotHmac { .. } => Some(false),
        _ => None,
    });
    assert_eq!(result, Err("FIDO2: boom".to_string()));
    let none = findings(vec![slot(SlotKind::Passphrase)], vec![]);
    assert_eq!(refusal(&o, LINUX, &none), "no FIDO2 keyslot in this vault");
    assert_eq!(refusal(&o, BARE, &none), "FIDO2 hardware support not compiled in");
}

#[test]
fn windows_tries_the_other_salt_convention_too() {
    let o = request(UnlockMethod::Fido2);
    let f = findings(vec![slot(SlotKind::Fido2HmacSecret)], vec![]);
    let (done, result) = unlock(&o, WINDOWS, &f, |a| match a {
        Act::DeriveSlotHmac { prehash: true, .. } => Some(false),
        _ => None,
    });
    assert_eq!(result, Ok(()));
    assert_eq!(
        done[1..4],
        [
            Act::DeriveSlotHmac { slot: 0, stored: false, prehash: true },
            Act::DeriveSlotHmac { slot: 0, stored: false, prehash: false },
            open(UnlockFactors::Fido2, 0),
        ]
    );
}

#[test]
fn hybrid_slots_need_their_sidecar_entry() {
    let o = request(UnlockMethod::HybridPqFido2);
    let mut s = slot(SlotKind::HybridPqKemFido2);
    s.hybrid_pq = true;
    s.hybrid_pq_fido2 = true;
    let f = findings(vec![s, s], vec![hybrid(1)]);
    let (done, result) = unlock(&o, LINUX, &f, all_well);
    assert_eq!(result, Ok(()));
    assert_eq!(
        done,
        [
            Act::ReadHeader,
            Act::ReadSeed { pw: SecretRef::Passphrase },
            Act::RequireSidecar,
            Act::DecapsulateEntry { entry: 0 },
            Act::DeriveSlotHmac { slot: 1, stored: false, prehash: true },
            open(UnlockFactors::HybridPqFido2, 1),
            Act::OpenVfs { tolerant: false },
        ]
    );
    let f = findings(vec![s], vec![]);
    assert_eq!(refusal(&o, LINUX, &f), "no sidecar entry for slot 0");
    let (_, result) = unlock(&o, LINUX, &findings(vec![s], vec![hybrid(0)]), |a| match a {
        Act::DecapsulateEntry { .. } => Some(false),
        _ => None,
    });
    assert_eq!(result, Err("decap slot 0 (Ml768): boom".to_string()));
}

#[test]
fn a_hybrid_passphrase_is_tried_on_every_entry() {
    let mut o = request(UnlockMethod::HybridPq);
    o.hybrid_seed_pw = Some("seed".to_string());
    let f = findings(vec![], vec![hybrid(2), hybrid(5)]);
    let (done, result) = unlock(&o, BARE, &f, |a| match a {
        Act::DecapsulateEntry { entry: 0 } => Some(false),
        _ => None,
    });
    assert_eq!(result, Ok(()));
    assert_eq!(
        done,
        [
            Act::ReadSeed { pw: SecretRef::SeedPassphrase },
            Act::RequireSidecar,
            Act::DecapsulateEntry { entry: 0 },
            Act::DecapsulateEntry { entry: 1 },
            open(UnlockFactors::HybridPqPassphrase, 5),
            Act::OpenVfs { tolerant: false },
        ]
    );
}

#[test]
fn the_seed_is_read_under_its_own_passphrase() {
    let mut fido2 = slot(SlotKind::HybridPqKemFido2);
    fido2.hybrid_pq = true;
    fido2.hybrid_pq_fido2 = true;
    let mut tpm = slot(SlotKind::HybridPqKemTpm2);
    tpm.tpm2 = true;
    let mut both = slot(SlotKind::HybridPqKem1024Tpm2Fido2);
    both.tpm2 = true;
    both.tpm2_fido2_cred = true;
    let mut sep = slot(SlotKind::HybridPqKemSep);
    sep.sep = true;
    sep.hybrid_pq = true;
    for (m, s, p) in [
        (UnlockMethod::HybridPqFido2, fido2, LINUX),
        (UnlockMethod::HybridPqTpm2, tpm, LINUX),
        (UnlockMethod::HybridPqTpm2Fido2, both, LINUX),
        (UnlockMethod::HybridPqSep, sep, MACOS),
    ] {
        let f = findings(vec![s], vec![hybrid(0)]);
        let mut o = request(m);
        let (done, result) = unlock(&o, p, &f, all_well);
        assert_eq!(result, Ok(()));
        assert!(done.contains(&Act::ReadSeed { pw: SecretRef::Passphrase }));
        o.hybrid_seed_pw = Some("seed".to_string());
        let (done, result) = unlock(&o, p, &f, all_well);
        assert_eq!(result, Ok(()));
        assert!(done.contains(&Act::ReadSeed { pw: SecretRef::SeedPassphrase }));
        assert!(!done.contains(&Act::ReadSeed { pw: SecretRef::Passphrase }));
    }
}

#[test]
fn the_chip_is_not_touched_without_a_slot_for_it() {
    for (m, kind) in [
        (UnlockMethod::Tpm2, SlotKind::Tpm2Sealed),
        (UnlockMethod::Tpm2Pin, SlotKind::Tpm2SealedPin),
        (UnlockMethod::Tpm2Fido2, SlotKind::Tpm2Fido2),
        (UnlockMethod::HybridPqTpm2, SlotKind::HybridPqKemTpm2),
        (UnlockMethod::HybridPqTpm2Fido2, SlotKind::HybridPqKem1024Tpm2Fido2),
    ] {
        let o = request(m);
        let (done, result) = unlock(&o, LINUX, &findings(vec![], vec![]), all_well);
        assert_eq!(done, [Act::ReadHeader]);
        assert!(result.unwrap_err().starts_with("this vault has no "));
        let mut s = slot(kind);
        s.tpm2 = true;
        s.tpm2_fido2_cred = true;
        let (done, result) = unlock(&o, LINUX, &findings(vec![s], vec![hybrid(0)]), all_well);
        assert_eq!(result, Ok(()));
        assert!(done.contains(&Act::OpenTpm));
        assert!(!done.iter().any(|a| matches!(a, Act::DeriveSlotHmac { stored: false, .. })));
        let (_, result) = unlock(&o, LINUX, &findings(vec![s], vec![hybrid(0)]), |a| {
            if a == Act::OpenTpm {
                Some(false)
            } else {
                None
            }
        });
        assert_eq!(result, Err("could not open local TPM 2.0 device: boom".to_string()));
    }
}

#[test]
fn enclave_slots_are_tried_with_their_own_factors() {
    let mut plain = slot(SlotKind::SepSealed);
    plain.sep = true;
    let mut fused = slot(SlotKind::SepFido2Passphrase);
    fused.sep = true;
    fused.sep_fido2 = true;
    fused.sep_passphrase = true;
    fused.cred_len = 64;
    let mut o = request(UnlockMethod::Sep);
    let f = findings(vec![plain, fused], vec![]);
    let (done, result) = unlock(&o, MACOS, &f, |a| match a {
        Act::OpenWith { slot: 0, .. } => Some(false),
        _ => None,
    });
    assert_eq!(result, Ok(()));
    assert_eq!(
        done[1..],
        [
            Act::OpenSep,
            open(UnlockFactors::Sep { fido2: false, secret: None, pq: false }, 0),
            Act::DeriveSlotHmac { slot: 1, stored: false, prehash: true },
            open(
                UnlockFactors::Sep {
                    fido2: true,
                    secret: Some(SecretRef::Passphrase),
                    pq: false,
                },
                1,
            ),
            Act::OpenVfs { tolerant: false },
        ]
    );
    o.pin = None;
    assert_eq!(
        refusal(&o, MACOS, &f),
        "this vault has a Secure Enclave + FIDO2 keyslot; enter the FIDO2 PIN to unlock."
    );
    o.passphrase = Some(String::new());
    assert_eq!(
        refusal(&o, MACOS, &f),
        "this vault has a Secure Enclave + passphrase keyslot; enter the slot passphrase to unlock."
    );
    let o = request(UnlockMethod::HybridPqSep);
    assert!(refusal(&o, MACOS, &f).starts_with("this vault has no hybrid Secure Enclave"));
    let mut pq = slot(SlotKind::HybridPqKemSep);
    pq.sep = true;
    pq.hybrid_pq = true;
    let f = findings(vec![pq], vec![]);
    assert_eq!(refusal(&o, MACOS, &f), "no ML-KEM shared secret for slot 0");
    let f = findings(vec![pq], vec![hybrid(0)]);
    let (done, result) = unlock(&o, MACOS, &f, all_well);
    assert_eq!(result, Ok(()));
    assert!(done.contains(&Act::ReadBoundSidecar));
}

fn deniable(method: UnlockMethod, kind: DeniableKindTag) -> (UnlockOpts, Findings) {
    let mut o = request(method);
    o.use_deniable = true;
    let mut f = findings(vec![], vec![hybrid(3)]);
    f.envelope = Envelope { kind, slot: 3, cred_len: 64, has_salt: true, blob_len: 100 };
    (o, f)
}

#[test]
fn a_deniable_vault_is_opened_by_its_envelope() {
    let (o, f) = deniable(UnlockMethod::HybridPqFido2, DeniableKindTag::HybridPqFido2Passphrase);
    let kind = DeniableKindTag::HybridPqFido2Passphrase;
    let (done, result) = unlock(&o, LINUX, &f, |a| match a {
        Act::CompleteOpen { .. } => Some(true),
        _ => None,
    });
    assert_eq!(result, Err("opaque".to_string()));
    assert_eq!(
        done,
        [
            Act::OpenEnvelope { kind },
            Act::ReadSeed { pw: SecretRef::Passphrase },
            Act::RequireSidecar,
            Act::DecapsulateEntry { entry: 0 },
            Act::DeriveEnvelopeHmac { prehash: true },
            Act::CompleteOpen { kind },
            Act::DeriveEnvelopeHmac { prehash: false },
            Act::CompleteOpen { kind },
        ]
    );
    // Another failure than one to decrypt is reported at once.
    let (done, result) = unlock(&o, LINUX, &f, |a| match a {
        Act::CompleteOpen { .. } => Some(false),
        _ => None,
    });
    assert_eq!(result, Err("boom".to_string()));
    assert_eq!(done.len(), 6);
    let (done, result) = unlock(&o, LINUX, &f, all_well);
    assert_eq!(result, Ok(()));
    assert_eq!(done.last(), Some(&Act::OpenVfs { tolerant: false }));
}

#[test]
fn deniable_requests_are_refused() {
    let (mut o, mut f) = deniable(UnlockMethod::Tpm2Pin, DeniableKindTag::TpmPassphrase);
    assert_eq!(
        refusal(&o, MACOS, &f),
        "unlock method Tpm2Pin not yet supported in deniable mode on this platform"
    );
    o.pin = None;
    assert_eq!(refusal(&o, LINUX, &f), "TPM PIN required");
    o.pin = Some("1".to_string());
    f.envelope.blob_len = 0;
    assert_eq!(refusal(&o, LINUX, &f), "envelope tpm_blob is empty for TPM variant");
    f.envelope.kind = DeniableKindTag::Passphrase;
    assert_eq!(
        refusal(&o, LINUX, &f),
        "credential kind mismatch (vault expects a different variant)"
    );
    o.passphrase = None;
    assert_eq!(refusal(&o, LINUX, &f), "passphrase required for deniable v2 envelope discovery");
    o.header_path = Some("/h".to_string());
    assert_eq!(
        refusal(&o, LINUX, &f),
        "detached headers are not yet supported in deniable mode"
    );

    let (mut o, mut f) = deniable(UnlockMethod::Fido2, DeniableKindTag::Fido2Passphrase);
    f.envelope.cred_len = 0;
    assert_eq!(refusal(&o, LINUX, &f), "envelope cred_id is empty for FIDO2 variant");
    o.pin = None;
    assert_eq!(refusal(&o, LINUX, &f), "FIDO2 PIN required");
    f.envelope.has_salt = false;
    assert_eq!(refusal(&o, LINUX, &f), "envelope missing hmac_salt for FIDO2 variant");

    let (mut o, mut f) = deniable(UnlockMethod::HybridPq, DeniableKindTag::HybridPqPassphrase);
    f.entries = vec![];
    assert!(refusal(&o, LINUX, &f).starts_with("no .hybrid sidecar entry for slot 3 ("));
    o.hybrid_kyber_path = None;
    assert_eq!(
        refusal(&o, LINUX, &f),
        "hybrid-PQ deniable unlock requires the .kyber seed file path"
    );

    let (o, mut f) = deniable(UnlockMethod::Sep, DeniableKindTag::SepPassphrase);
    f.envelope.blob_len = 0;
    assert_eq!(
        refusal(&o, MACOS, &f),
        "envelope SEP blob is empty for the Secure Enclave variant"
    );
}

#[test]
fn a_deniable_anchor_is_looked_at_first() {
    let (mut o, mut f) = deniable(UnlockMethod::Passphrase, DeniableKindTag::Passphrase);
    o.anchor_path = Some("/usb/a.anchor".to_string());
    let (done, result) = unlock(&o, BARE, &f, all_well);
    assert_eq!(result, Ok(()));
    assert!(done.contains(&Act::SetAnchor));
    f.anchor = AnchorFile::Regular { len: 255 };
    assert!(refusal(&o, BARE, &f).starts_with(
        "Anchor file at /usb/a.anchor is 255 bytes; a deniable anchor is exactly 256 bytes."
    ));
    f.anchor = AnchorFile::SymbolicLink;
    assert!(refusal(&o, BARE, &f).contains("is a symbolic link"));
    f.anchor = AnchorFile::Special;
    assert!(refusal(&o, BARE, &f).contains("is not a regular file"));
    f.anchor = AnchorFile::Unreadable { error: "gone".to_string() };
    assert!(refusal(&o, BARE, &f).starts_with("Anchor file not readable at /usb/a.anchor: gone."));
    assert!(anchor_mismatch("/a", "bad").ends_with("(underlying error: bad)"));
}

#[test]
fn a_rolled_back_vault_is_refused() {
    assert_eq!(check_rollback(VerificationOutcome::Current), Ok(()));
    assert_eq!(check_rollback(VerificationOutcome::AnchorStale), Ok(()));
    let back = VerificationOutcome::RollbackDetected { anchor_gen: 7, metadata_gen: 5 };
    assert_eq!(
        check_rollback(back),
        Err("Rollback detected: anchor at gen 7 > vault at gen 5. Open refused (someone may have substituted an old copy of the vault).".to_string())
    );
    assert_eq!(
        unseal_leads(UnlockFactors::Tpm2Pin),
        ("malformed TPM SealedBlob: ", "TPM unseal (with PIN): ")
    );
}

#[test]
fn an_empty_script_is_finished() {
    assert!(matches!(Job::start(Script::new()).directive(), Directive::Finished));
}

#[test]
fn headers_are_summed_up() {
    let mut tpm = slot(SlotKind::Tpm2Sealed);
    tpm.tpm2 = true;
    let slots = vec![slot(SlotKind::Passphrase), slot(SlotKind::Empty), tpm];
    assert!(header_has_tpm(&slots) && !header_has_fido2(&slots) && !header_has_hybrid_pq(&slots));
    assert_eq!(inspect_slot_kinds(&slots), ["slot 0: passphrase", "slot 2: TPM 2.0"]);
    assert_eq!(active_slot_count(&slots), 2);
    let c = confirm_revoke(&slots, 2);
    assert!(!c.would_be_last_active_slot);
    assert_eq!(c.button(), "Revoke this keyslot");
    assert_eq!(c.warning(), None);
    assert!(c
        .question()
        .starts_with("This will permanently delete the TPM 2.0 (machine-bound) credential in slot 2."));
    let last = confirm_revoke(&vec![slot(SlotKind::Passphrase)], 0);
    assert!(last.would_be_last_active_slot && last.warning().is_some());
    assert_eq!(pill_label(SlotKind::Tpm2Sealed), "tpm2 (this machine)");
    assert_eq!(pill_tone(SlotKind::Empty), PillTone::Faint);
    assert_eq!(
        credential_line(&vec![0x0a, 0xff, 1, 2, 3, 4, 5, 6, 7, 8]),
        "cred_id 0aff010203040506...  (10 B)"
    );
    assert_eq!(kdf_line(524_288, 4, 1), "Argon2id m=524288 KiB t=4 p=1");
    assert_eq!(rotate_slots(&slots), [0]);
    assert!(rotate_hint(&vec![slot(SlotKind::Fido2DerivedMvk)])
        .unwrap()
        .starts_with("FIDO2-direct slots can't be rotated"));
    assert_eq!(rotate_hint(&vec![slot(SlotKind::Passphrase)]), None);
}

#[test]
fn an_opened_vault_is_recorded() {
    let mut tpm = slot(SlotKind::Tpm2Sealed);
    tpm.tpm2 = true;
    let open = |by: OpenedBy, slots: &Vec<SlotFacts>| {
        let cipher = CipherSuite::Aes256GcmSiv;
        opened_vault(by, slots, cipher, "/v".to_string(), None, None, Vec::new())
    };
    let v = open(OpenedBy::Header, &vec![tpm]);
    assert!(v.has_tpm && !v.has_fido2 && !v.has_hybrid_pq);
    assert_eq!(v.cipher_label, "AES-256-GCM-SIV");
    assert_eq!(v.vault_path, "/v");
    let v = open(OpenedBy::DeniableUnlock, &vec![tpm]);
    assert!(!v.has_tpm);
    assert_eq!(v.cipher_label, "Aes256GcmSiv (deniable)");
    let v = open(OpenedBy::TpmBootstrap, &vec![]);
    assert!(v.has_tpm);
    let kind = TpmBootstrapKind::HybridPqTpm2 {
        kyber_path: String::new(),
        seed_pw: String::new(),
        kem_size: 768,
    };
    let v = open(OpenedBy::TpmDeniable { kind }, &vec![]);
    assert!(v.has_tpm && v.has_hybrid_pq && !v.has_fido2);
    let kind = SepBootstrapKind::SepFused {
        factors: SepFactors::Fido2,
        kem_size: None,
        pin: String::new(),
        passphrase: String::new(),
        kyber_path: None,
        seed_pw: String::new(),
    };
    let v = open(OpenedBy::SepDeniable { kind }, &vec![]);
    assert!(v.has_fido2 && !v.has_hybrid_pq && !v.has_tpm);
}

#[test]
fn a_tolerant_open_is_reported() {
    let passed = vec![
        ToleratedInode { path: "/a/b.txt".to_string(), original_size: 12 },
        ToleratedInode { path: "/c".to_string(), original_size: 2048 },
    ];
    let by = OpenedBy::Header;
    let cipher = CipherSuite::Aes256GcmSiv;
    let v = opened_vault(by, &vec![], cipher, "/v".to_string(), None, None, passed);
    assert_eq!(v.tolerated_inodes.len(), 2);
    assert_eq!(v.recovery_report(), ["/a/b.txt (12 B)", "/c (2.0 KB)"]);
}

#[test]
fn unlock_diagnostics_give_no_secret_away() {
    let mut o = request(UnlockMethod::Fido2);
    o.hybrid_seed_pw = Some("hunter2".to_string());
    o.pin = None;
    o.recovery_mode = true;
    assert_eq!(
        o.debug_text("\"/v\""),
        "UnlockOpts { path: \"/v\", method: Fido2, use_deniable: false, recovery_mode: true, \
         passphrase: Some(\"<redacted>\"), pin: None, \
         hybrid_seed_pw: Some(\"<redacted>\"), .. }"
    );
}
