//! Scripts are carried out line by line, and failures undo what was done.

use luksbox_gui::bootstrap::{
    create_vault_tpm2_only, create_vault_with_tpm_factors_deniable,
    create_vault_with_tpm_factors_only,
};
use luksbox_gui::bootstrap_flow::{
    create_sep_passphrase_deniable, create_vault_sep_only, create_vault_with_sep_bootstrap,
    create_vault_with_tpm_bootstrap, sep_bootstrap_enroll, sep_enroll_failed, sep_enrolled,
    tpm_bootstrap_enroll, tpm_enroll_failed,
};
use luksbox_gui::create::create_vault;
use luksbox_gui::destroy::{destroy_known, panic_destroy, Wipe};
use luksbox_gui::enroll::{
    enroll_fido2, enroll_fido2_deniable, enroll_hybrid_pq_fido2, enroll_hybrid_pq_fido2_deniable,
    enroll_hybrid_pq_passphrase, enroll_hybrid_pq_passphrase_deniable, enroll_hybrid_pq_sep,
    enroll_hybrid_pq_tpm2, enroll_hybrid_pq_tpm2_deniable, enroll_hybrid_pq_tpm2_fido2,
    enroll_hybrid_pq_tpm2_fido2_deniable, enroll_passphrase, enroll_passphrase_deniable, enroll_sep,
    enroll_sep_fused, enroll_tpm2, enroll_tpm2_deniable, enroll_tpm2_fido2,
    enroll_tpm2_fido2_deniable, enroll_tpm2_pin, revoke_keyslot, SeedTarget,
};
use luksbox_gui::kinds::{
    CipherSuite, DeniableKindTag, KdfStrength, Platform, PqParams, SepBootstrapKind, SepFactors,
    SlotKind, SlotKindArg, TargetOs, TpmBootstrapKind,
};
use luksbox_gui::requests::{CreateFacts, CreateOpts};
use luksbox_gui::rotate::rotate_mvk_passphrase_only;
use luksbox_gui::script::{
    Act, Directive, Goto, Job, Line, OnFail, Outcome, Script, SecretRef, SizeFlags,
};
use luksbox_gui::slots::SlotFacts;

const LINUX: Platform = Platform { os: TargetOs::Linux, hardware: true };
const MACOS: Platform = Platform { os: TargetOs::Macos, hardware: true };
const BARE: Platform = Platform { os: TargetOs::Linux, hardware: false };
const FRESH: CreateFacts = CreateFacts {
    vault_exists: false,
    header_exists: false,
    anchor_exists: false,
    kyber_exists: false,
};
const PLAIN: SizeFlags = SizeFlags { pad_files: false, hide_sizes: false };

/// Carries a script out; `fails` says which act fails, and whether because
/// decryption failed.
fn carry_out(script: Script, fails: fn(Act) -> Option<bool>) -> (Vec<Act>, Vec<Act>, Option<String>) {
    let mut done = Vec::new();
    let mut undone = Vec::new();
    let mut job = Job::start(script);
    loop {
        match job.directive() {
            Directive::Perform(act) => {
                let outcome = match fails(act) {
                    None => Outcome::Done,
                    Some(true) => Outcome::Opaque { error: "opaque".to_string() },
                    Some(false) => Outcome::Failed { error: "boom".to_string() },
                };
                done.push(act);
                job = job.report(outcome);
            }
            Directive::Undo(act) => {
                undone.push(act);
                job = job.report(Outcome::Failed { error: "ignored".to_string() });
            }
            Directive::Finished => return (done, undone, None),
            Directive::Failed(text) => return (done, undone, Some(text)),
        }
    }
}

fn all_well(_: Act) -> Option<bool> {
    None
}

fn acts(script: Script) -> Vec<Act> {
    let (done, undone, error) = carry_out(script, all_well);
    assert!(undone.is_empty());
    assert_eq!(error, None);
    done
}

fn refusal(script: Script) -> String {
    let (done, undone, error) = carry_out(script, all_well);
    assert!(done.is_empty() && undone.is_empty());
    error.unwrap()
}

fn request(kind: SlotKindArg) -> CreateOpts {
    CreateOpts {
        path: "/v/a.lbx".to_string(),
        header_path: None,
        cipher: CipherSuite::Aes256GcmSiv,
        kind,
        passphrase: Some("pw".to_string()),
        backup_passphrase: None,
        pin: Some("1234".to_string()),
        pad_files: false,
        hide_sizes: false,
        anchor_path: None,
        enable_recovery_passphrase: true,
        hybrid_kyber_path: Some("/usb/a.kyber".to_string()),
        hybrid_seed_pw: None,
        kdf: KdfStrength::Moderate,
        use_deniable: false,
        use_v3_format: true,
    }
}

#[test]
fn lines_jump_skip_note_and_give_up() {
    let script = Script::new()
        .attempt(Act::OpenTpm, "tpm: ", Goto::Next, 2)
        .attempt(Act::OpenSep, "sep: ", Goto::End, 2)
        .note("known miss".to_string())
        .attempt_or(Act::ReadHeader, "instead".to_string(), 5)
        .stop("unreachable")
        .give_up("nothing tried");
    assert_eq!(script.lines.len(), 6);
    let (done, _, error) = carry_out(script, |_| Some(false));
    assert_eq!(done, vec![Act::OpenTpm, Act::ReadHeader]);
    assert_eq!(error, Some("instead".to_string()));

    assert_eq!(refusal(Script::new().give_up("nothing tried")), "nothing tried");
    let noted = Script::new().note("a".to_string()).give_up("nothing tried");
    assert_eq!(refusal(noted), "a");
    let line = Line::Do {
        act: Act::OpenTpm,
        lead: "lead ".to_string(),
        ok: Goto::End,
        fail: OnFail::AbortUnlessOpaque,
    };
    let (_, _, error) = carry_out(Script::new().line(line), |_| Some(false));
    assert_eq!(error, Some("lead boom".to_string()));
    let probing = Script::new().probe(Act::OpenTpm, "").step(Act::OpenSep, "");
    let (done, _, error) = carry_out(probing, |a| if a == Act::OpenTpm { Some(true) } else { None });
    assert_eq!(done, vec![Act::OpenTpm, Act::OpenSep]);
    assert_eq!(error, None);
}

#[test]
fn undo_runs_in_order_even_if_it_fails() {
    let script = Script::new().step_or(
        Act::PersistHeader,
        "persist: ",
        vec![Act::RemoveVault, Act::RemoveSidecar],
    );
    let (done, undone, error) = carry_out(script, |_| Some(false));
    assert_eq!(done, vec![Act::PersistHeader]);
    assert_eq!(undone, vec![Act::RemoveVault, Act::RemoveSidecar]);
    assert_eq!(error, Some("persist: boom".to_string()));
}

#[test]
fn a_passphrase_vault_is_created() {
    let mut o = request(SlotKindArg::Passphrase);
    o.anchor_path = Some("/usb/a.anchor".to_string());
    o.backup_passphrase = Some("backup".to_string());
    o.hide_sizes = true;
    assert_eq!(
        acts(create_vault(&o, FRESH, BARE)),
        vec![
            Act::ChooseFormat { v3: true },
            Act::CreateVault {
                kind: SlotKind::Passphrase,
                flags: SizeFlags { pad_files: true, hide_sizes: true },
                kdf: KdfStrength::Moderate,
            },
            Act::InitAnchor,
            Act::EnrollBackup,
            Act::PersistHeader,
            Act::OpenVfs { tolerant: false },
        ]
    );
}

#[test]
fn the_authenticator_comes_before_any_file() {
    let o = request(SlotKindArg::HybridPq1024Fido2);
    assert_eq!(
        acts(create_vault(&o, FRESH, LINUX)),
        vec![
            Act::ChooseFormat { v3: true },
            Act::NewUserHandle,
            Act::RegisterCredential,
            Act::DrawSalt,
            Act::DeriveNewHmac,
            Act::Encapsulate { kem: PqParams::Ml1024 },
            Act::CreateVault {
                kind: SlotKind::HybridPqKem1024Fido2,
                flags: PLAIN,
                kdf: KdfStrength::Moderate,
            },
            Act::WriteFirstSidecar { kem: PqParams::Ml1024 },
            Act::WriteSeed { pw: SecretRef::Passphrase },
            Act::OpenVfs { tolerant: false },
        ]
    );
}

#[test]
fn the_seed_may_have_its_own_passphrase() {
    for kind in [
        SlotKindArg::HybridPq,
        SlotKindArg::HybridPq1024,
        SlotKindArg::HybridPqFido2,
        SlotKindArg::HybridPq1024Fido2,
    ] {
        let mut o = request(kind);
        let done = acts(create_vault(&o, FRESH, LINUX));
        assert!(done.contains(&Act::WriteSeed { pw: SecretRef::Passphrase }));
        o.hybrid_seed_pw = Some("other".to_string());
        let done = acts(create_vault(&o, FRESH, LINUX));
        assert!(done.contains(&Act::WriteSeed { pw: SecretRef::SeedPassphrase }));
    }
}

#[test]
fn the_seed_of_a_deniable_vault_may_have_its_own_passphrase() {
    let mut o = request(SlotKindArg::HybridPq);
    o.use_deniable = true;
    o.hybrid_seed_pw = Some("other".to_string());
    let done = acts(create_vault(&o, FRESH, BARE));
    assert!(done.contains(&Act::WriteSeed { pw: SecretRef::SeedPassphrase }));
    assert!(done.contains(&Act::CreateDeniable {
        kind: DeniableKindTag::HybridPqPassphrase,
        flags: PLAIN,
        kdf: KdfStrength::Moderate,
    }));
    o.hybrid_seed_pw = Some(String::new());
    let done = acts(create_vault(&o, FRESH, BARE));
    assert!(done.contains(&Act::WriteSeed { pw: SecretRef::Passphrase }));
}

#[test]
fn create_requests_are_refused() {
    let mut o = request(SlotKindArg::Passphrase);
    let taken = CreateFacts { vault_exists: true, ..FRESH };
    assert_eq!(refusal(create_vault(&o, taken, LINUX)), "/v/a.lbx already exists");
    o.header_path = Some("/usb/a.hdr".to_string());
    let taken = CreateFacts { header_exists: true, ..FRESH };
    assert_eq!(refusal(create_vault(&o, taken, LINUX)), "header file /usb/a.hdr already exists");
    o.anchor_path = Some("/usb/a.anchor".to_string());
    let taken = CreateFacts { anchor_exists: true, ..FRESH };
    assert_eq!(refusal(create_vault(&o, taken, LINUX)), "anchor file /usb/a.anchor already exists");
    o.use_deniable = true;
    assert_eq!(
        refusal(create_vault(&o, FRESH, LINUX)),
        "detached headers are not yet supported in deniable mode"
    );
    let mut o = request(SlotKindArg::Passphrase);
    o.passphrase = None;
    assert_eq!(refusal(create_vault(&o, FRESH, LINUX)), "passphrase required");
    let mut o = request(SlotKindArg::Fido2Direct);
    o.pad_files = true;
    assert_eq!(
        refusal(create_vault(&o, FRESH, LINUX)),
        "size-hiding flags are not yet supported with fido2-direct"
    );
    let mut o = request(SlotKindArg::Fido2);
    assert_eq!(
        refusal(create_vault(&o, FRESH, BARE)),
        "FIDO2 hardware support not compiled in"
    );
    o.pin = None;
    assert_eq!(refusal(create_vault(&o, FRESH, LINUX)), "FIDO2 PIN required");
    let o = request(SlotKindArg::HybridPq);
    let taken = CreateFacts { kyber_exists: true, ..FRESH };
    assert_eq!(
        refusal(create_vault(&o, taken, LINUX)),
        "/usb/a.kyber already exists; refusing to overwrite"
    );
}

#[test]
fn a_failed_tpm_bootstrap_leaves_no_file() {
    let mut o = request(SlotKindArg::Passphrase);
    o.header_path = Some("/usb/a.hdr".to_string());
    o.anchor_path = Some("/usb/a.anchor".to_string());
    let kind = TpmBootstrapKind::HybridPqTpm2 {
        kyber_path: "/usb/a.kyber".to_string(),
        seed_pw: "s".to_string(),
        kem_size: 1024,
    };
    let b = create_vault_with_tpm_bootstrap(&o, &kind, FRESH, LINUX);
    assert!(b.enroll);
    let (_, undone, error) =
        carry_out(b.script, |a| if a == Act::InitAnchor { Some(false) } else { None });
    assert_eq!(
        undone,
        vec![Act::RemoveVault, Act::RemoveHeader, Act::RemoveAnchor]
    );
    assert_eq!(error, Some("boom".to_string()));

    let (done, undone, error) =
        carry_out(tpm_enroll_failed(&o, &kind, false, "no chip"), all_well);
    assert_eq!(
        done,
        vec![
            Act::RemoveVault,
            Act::RemoveHeader,
            Act::RemoveAnchor,
            Act::RemoveSidecar,
            Act::RemoveSeed,
        ]
    );
    assert!(undone.is_empty());
    assert_eq!(error, Some("TPM enroll failed; vault create rolled back: no chip".to_string()));
}

#[test]
fn a_seed_that_was_there_before_survives_a_failed_enroll() {
    let o = request(SlotKindArg::Passphrase);
    let kind = TpmBootstrapKind::HybridPqTpm2 {
        kyber_path: "/usb/a.kyber".to_string(),
        seed_pw: "s".to_string(),
        kem_size: 768,
    };
    let (done, _, _) = carry_out(tpm_enroll_failed(&o, &kind, true, "no chip"), all_well);
    assert_eq!(done, vec![Act::RemoveVault, Act::RemoveSidecar]);
    let kind = SepBootstrapKind::HybridPqSep {
        kyber_path: "/usb/a.kyber".to_string(),
        seed_pw: "s".to_string(),
        kem_size: 768,
    };
    let (done, _, _) = carry_out(sep_enroll_failed(&o, &kind, false, "no enclave"), all_well);
    assert!(done.contains(&Act::RemoveSeed));
    let (done, _, _) = carry_out(sep_enroll_failed(&o, &kind, true, "no enclave"), all_well);
    assert!(done.contains(&Act::RemoveVault) && !done.contains(&Act::RemoveSeed));
}

#[test]
fn an_existing_vault_survives_a_refused_bootstrap() {
    let o = request(SlotKindArg::Passphrase);
    let taken = CreateFacts { vault_exists: true, ..FRESH };
    let b = create_vault_with_tpm_bootstrap(&o, &TpmBootstrapKind::Tpm2, taken, LINUX);
    assert_eq!(refusal(b.script), "/v/a.lbx already exists");
    let b = create_vault_with_sep_bootstrap(&o, &SepBootstrapKind::Sep, taken, MACOS);
    assert_eq!(refusal(b.script), "/v/a.lbx already exists");
    let mut o = request(SlotKindArg::Passphrase);
    o.enable_recovery_passphrase = false;
    let combined = TpmBootstrapKind::Tpm2Fido2 { pin: "1".to_string() };
    let b = create_vault_with_tpm_bootstrap(&o, &combined, taken, LINUX);
    assert_eq!(refusal(b.script), "/v/a.lbx already exists");
    let b = create_vault_with_tpm_bootstrap(&o, &TpmBootstrapKind::Tpm2, taken, LINUX);
    assert_eq!(refusal(b.script), "/v/a.lbx already exists");
    let b = create_vault_with_sep_bootstrap(&o, &SepBootstrapKind::Sep, taken, MACOS);
    assert_eq!(refusal(b.script), "/v/a.lbx already exists");
    o.header_path = Some("/usb/a.hdr".to_string());
    let header = CreateFacts { header_exists: true, ..FRESH };
    let b = create_vault_with_tpm_bootstrap(&o, &combined, header, LINUX);
    assert_eq!(refusal(b.script), "header file /usb/a.hdr already exists");
    o.header_path = None;
    o.use_deniable = true;
    let b = create_vault_with_tpm_bootstrap(&o, &combined, taken, LINUX);
    assert_eq!(refusal(b.script), "/v/a.lbx already exists");
    let b = create_vault_with_sep_bootstrap(&o, &SepBootstrapKind::Sep, taken, MACOS);
    assert_eq!(refusal(b.script), "/v/a.lbx already exists");
    o.anchor_path = Some("/usb/a.anchor".to_string());
    let anchor = CreateFacts { anchor_exists: true, ..FRESH };
    let b = create_vault_with_sep_bootstrap(&o, &SepBootstrapKind::Sep, anchor, MACOS);
    assert_eq!(refusal(b.script), "anchor file /usb/a.anchor already exists");
}

#[test]
fn the_backup_passphrase_stays_in_front_of_the_tpm() {
    let o = request(SlotKindArg::Passphrase);
    let b = create_vault_with_tpm_bootstrap(&o, &TpmBootstrapKind::Tpm2, FRESH, LINUX);
    assert!(b.enroll);
    let mut done = acts(b.script);
    done.extend(acts(tpm_bootstrap_enroll(&o, &TpmBootstrapKind::Tpm2, false, false, LINUX)));
    let made: Vec<Act> = done
        .iter()
        .copied()
        .filter(|a| matches!(a, Act::CreateVault { .. } | Act::InstallSlot { .. }))
        .collect();
    assert!(matches!(made[0], Act::CreateVault { kind: SlotKind::Passphrase, .. }));
    assert!(matches!(made[1], Act::InstallSlot { kind: SlotKind::Tpm2Sealed, .. }));
    assert_eq!(made.len(), 2);
    assert!(!done.iter().any(|a| matches!(a, Act::SwapToFront { .. })));
}

#[test]
fn the_tpm_slot_of_a_bootstrap_is_enrolled() {
    let o = request(SlotKindArg::Passphrase);
    let pin = TpmBootstrapKind::Tpm2Pin { pin: "42".to_string() };
    let done = acts(tpm_bootstrap_enroll(&o, &pin, false, false, LINUX));
    assert_eq!(done[2], Act::SealTpm { pin: true });
    assert_eq!(done.last(), Some(&Act::PersistHeader));
    let done = acts(tpm_bootstrap_enroll(&o, &TpmBootstrapKind::Tpm2, false, true, LINUX));
    assert!(done.contains(&Act::InstallDeniable {
        kind: DeniableKindTag::TpmPassphrase,
        slot: 1,
        kdf: KdfStrength::Moderate,
    }));
}

#[test]
fn combined_tpm_factors_make_a_single_slot() {
    let mut o = request(SlotKindArg::Passphrase);
    o.enable_recovery_passphrase = false;
    let kind = TpmBootstrapKind::Tpm2Fido2 { pin: "1".to_string() };
    let b = create_vault_with_tpm_bootstrap(&o, &kind, FRESH, LINUX);
    assert!(!b.enroll);
    let done = acts(b.script);
    assert!(done.contains(&Act::CreateVault {
        kind: SlotKind::Tpm2Fido2,
        flags: PLAIN,
        kdf: KdfStrength::Moderate,
    }));
    assert_eq!(acts(create_vault_with_tpm_factors_only(&o, &kind, LINUX)), done);
    o.header_path = Some("/usb/a.hdr".to_string());
    o.anchor_path = Some("/usb/a.anchor".to_string());
    let hybrid = TpmBootstrapKind::HybridPqTpm2 {
        kyber_path: "/usb/a.kyber".to_string(),
        seed_pw: "seed".to_string(),
        kem_size: 768,
    };
    let b = create_vault_with_tpm_bootstrap(&o, &hybrid, FRESH, LINUX);
    let (_, undone, error) = carry_out(
        b.script,
        |a| if a == (Act::OpenVfs { tolerant: false }) { Some(false) } else { None },
    );
    assert_eq!(
        undone,
        vec![Act::RemoveVault, Act::RemoveHeader, Act::RemoveAnchor, Act::RemoveSidecar]
    );
    assert_eq!(error, Some("boom".to_string()));
    let b = create_vault_with_tpm_bootstrap(&o, &hybrid, FRESH, LINUX);
    let (_, undone, error) = carry_out(
        b.script,
        |a| if matches!(a, Act::WriteFirstSidecar { .. }) { Some(false) } else { None },
    );
    assert_eq!(undone, vec![Act::RemoveVault, Act::RemoveHeader, Act::RemoveSidecar]);
    assert_eq!(error, Some("hybrid sidecar write: boom".to_string()));
    o.header_path = None;
    o.anchor_path = None;
    o.use_deniable = true;
    let done = acts(create_vault_with_tpm_factors_deniable(&o, &kind, LINUX));
    assert!(done.contains(&Act::CreateDeniable {
        kind: DeniableKindTag::TpmFido2Passphrase,
        flags: PLAIN,
        kdf: KdfStrength::Moderate,
    }));
    o.passphrase = None;
    assert_eq!(
        refusal(create_vault_with_tpm_factors_deniable(&o, &kind, LINUX)),
        "passphrase required for v2 deniable TPM envelope discovery"
    );
}

#[test]
fn a_vault_can_have_the_tpm_alone() {
    let mut o = request(SlotKindArg::Passphrase);
    o.anchor_path = Some("/usb/a.anchor".to_string());
    let done = acts(create_vault_tpm2_only(&o, None, LINUX));
    assert_eq!(done[0], Act::OpenTpm);
    assert!(done.iter().any(|a| matches!(a, Act::CreateVault { kind: SlotKind::Tpm2Sealed, .. })));
    let (_, undone, error) = carry_out(
        create_vault_tpm2_only(&o, None, LINUX),
        |a| if a == Act::InitAnchor { Some(false) } else { None },
    );
    assert!(undone.contains(&Act::RemoveVault));
    assert_eq!(error, Some("anchor init failed: boom".to_string()));
}

#[test]
fn enclave_vaults_are_for_macos() {
    let mut o = request(SlotKindArg::Passphrase);
    assert_eq!(refusal(create_vault_sep_only(&o, false, LINUX)), "Secure Enclave is macOS-only");
    let done = acts(create_vault_sep_only(&o, true, MACOS));
    assert!(done.contains(&Act::SealSep { biometric: true }));
    o.use_deniable = true;
    let done = acts(create_sep_passphrase_deniable(&o, &SepBootstrapKind::Sep, MACOS));
    assert!(done.contains(&Act::CreateDeniable {
        kind: DeniableKindTag::SepPassphrase,
        flags: PLAIN,
        kdf: KdfStrength::Moderate,
    }));
}

#[test]
fn an_enclave_bootstrap_is_rolled_back() {
    let o = request(SlotKindArg::Passphrase);
    let kind = SepBootstrapKind::Sep;
    let b = create_vault_with_sep_bootstrap(&o, &kind, FRESH, MACOS);
    assert!(b.enroll);
    let done = acts(sep_bootstrap_enroll(&kind, false, MACOS));
    assert!(done.contains(&Act::InstallSlot {
        kind: SlotKind::SepSealed,
        kdf: KdfStrength::Interactive,
        passphrase: false,
    }));
    let (done, _, error) = carry_out(sep_enroll_failed(&o, &kind, false, "no enclave"), all_well);
    assert!(done.contains(&Act::RemoveVault));
    assert!(error.unwrap().ends_with("no enclave"));
    assert!(acts(sep_enrolled(&kind, 1)).contains(&Act::SwapToFront { slot: 1 }));
}

#[test]
fn simple_slots_are_installed_and_persisted() {
    let kdf = KdfStrength::Sensitive;
    assert_eq!(
        acts(enroll_passphrase(kdf)),
        vec![Act::InstallPassphrase { kdf }, Act::PersistHeader]
    );
    assert_eq!(acts(revoke_keyslot(3)), vec![Act::RevokeSlot { slot: 3 }, Act::PersistHeader]);
    assert_eq!(acts(enroll_tpm2(LINUX)).len(), 5);
    assert_eq!(refusal(enroll_tpm2(BARE)), "TPM 2.0 hardware support not compiled in");
    assert_eq!(
        refusal(enroll_tpm2_pin("", LINUX)),
        "PIN cannot be empty (use the no-PIN TPM kind instead)"
    );
    assert_eq!(
        refusal(enroll_fido2_deniable(2, "", kdf, LINUX)),
        "v2 deniable enroll requires an envelope passphrase for the new slot"
    );
    assert_eq!(
        refusal(enroll_tpm2_deniable(2, "pw", kdf, Some(""), LINUX)),
        "TPM PIN cannot be empty; pass None for the no-PIN variant"
    );
    let (_, _, error) = carry_out(
        enroll_fido2(LINUX),
        |a| if a == Act::DrawSalt { Some(false) } else { None },
    );
    assert_eq!(error, Some("OS RNG failure generating FIDO2 hmac salt: boom".to_string()));
}

/// The install act of a script that goes well.
fn installed(script: Script) -> Act {
    let all = acts(script);
    let found: Vec<Act> = all
        .into_iter()
        .filter(|a| matches!(a, Act::InstallSlot { .. } | Act::InstallDeniable { .. }))
        .collect();
    assert_eq!(found.len(), 1);
    found[0]
}

fn standard(kind: SlotKind, passphrase: bool) -> Act {
    Act::InstallSlot { kind, kdf: KdfStrength::Interactive, passphrase }
}

#[test]
fn every_enroll_installs_its_kind() {
    let seed = SeedTarget { path: "/usb/n.kyber".to_string(), exists: false };
    let kdf = KdfStrength::Interactive;
    assert_eq!(installed(enroll_fido2(LINUX)), standard(SlotKind::Fido2HmacSecret, false));
    assert_eq!(installed(enroll_tpm2(LINUX)), standard(SlotKind::Tpm2Sealed, false));
    assert_eq!(installed(enroll_tpm2_pin("1", LINUX)), standard(SlotKind::Tpm2SealedPin, false));
    assert_eq!(installed(enroll_tpm2_fido2(LINUX)), standard(SlotKind::Tpm2Fido2, false));
    assert_eq!(installed(enroll_sep(false, MACOS)), standard(SlotKind::SepSealed, false));
    assert_eq!(installed(enroll_sep(true, MACOS)), standard(SlotKind::SepSealedBiometric, false));
    assert_eq!(
        installed(enroll_hybrid_pq_passphrase("pw", &seed, 1024)),
        standard(SlotKind::HybridPqKem1024Passphrase, true)
    );
    assert_eq!(
        installed(enroll_hybrid_pq_fido2("", &seed, 768, LINUX)),
        standard(SlotKind::HybridPqKemFido2, false)
    );
    assert_eq!(
        installed(enroll_hybrid_pq_fido2("pw", &seed, 1024, LINUX)),
        standard(SlotKind::HybridPqKem1024Fido2, true)
    );
    assert_eq!(
        installed(enroll_hybrid_pq_tpm2(&seed, 768, LINUX)),
        standard(SlotKind::HybridPqKemTpm2, false)
    );
    assert_eq!(
        installed(enroll_hybrid_pq_tpm2_fido2(&seed, 1024, LINUX)),
        standard(SlotKind::HybridPqKem1024Tpm2Fido2, false)
    );
    assert_eq!(
        installed(enroll_hybrid_pq_sep(&seed, 768, MACOS)),
        standard(SlotKind::HybridPqKemSep, false)
    );
    let deniable = |kind: DeniableKindTag| Act::InstallDeniable { kind, slot: 3, kdf };
    assert_eq!(
        acts(enroll_passphrase_deniable(3, kdf)),
        vec![Act::InstallPassphraseDeniable { slot: 3, kdf }, Act::PersistHeader]
    );
    assert_eq!(
        installed(enroll_fido2_deniable(3, "pw", kdf, LINUX)),
        deniable(DeniableKindTag::Fido2Passphrase)
    );
    assert_eq!(
        installed(enroll_tpm2_deniable(3, "pw", kdf, None, LINUX)),
        deniable(DeniableKindTag::TpmPassphrase)
    );
    assert_eq!(
        installed(enroll_tpm2_fido2_deniable(3, "pw", kdf, LINUX)),
        deniable(DeniableKindTag::TpmFido2Passphrase)
    );
    assert_eq!(
        installed(enroll_hybrid_pq_tpm2_deniable(3, "pw", kdf, PqParams::Ml768, LINUX)),
        deniable(DeniableKindTag::HybridPqTpmPassphrase)
    );
    assert_eq!(
        installed(enroll_hybrid_pq_tpm2_fido2_deniable(3, "pw", kdf, PqParams::Ml1024, LINUX)),
        deniable(DeniableKindTag::HybridPqTpmFido2Passphrase)
    );
    assert_eq!(
        installed(enroll_hybrid_pq_passphrase_deniable(3, "pw", &seed, 768)),
        deniable(DeniableKindTag::HybridPqPassphrase)
    );
    assert_eq!(
        installed(enroll_hybrid_pq_fido2_deniable(3, "pw", &seed, 768, LINUX)),
        deniable(DeniableKindTag::HybridPqFido2Passphrase)
    );
    assert_eq!(
        refusal(enroll_hybrid_pq_fido2_deniable(3, "", &seed, 768, LINUX)),
        "v2 deniable enroll requires an envelope passphrase"
    );
    assert_eq!(
        refusal(enroll_tpm2_fido2_deniable(3, "", kdf, LINUX)),
        "v2 deniable enroll requires an envelope passphrase for the new slot"
    );
    assert_eq!(
        refusal(enroll_tpm2_fido2_deniable(3, "pw", kdf, MACOS)),
        "TPM 2.0 is Linux-only today; Windows TPM is tracked as a follow-up"
    );
    assert_eq!(
        refusal(enroll_sep(false, BARE)),
        "Secure Enclave enroll requires --features hardware (macOS Secure Enclave)"
    );
}

#[test]
fn a_failed_hybrid_enroll_is_rolled_back() {
    let seed = SeedTarget { path: "/usb/n.kyber".to_string(), exists: false };
    let whole = acts(enroll_hybrid_pq_passphrase("slot", &seed, 768));
    assert_eq!(whole.last(), Some(&Act::PersistHeader));
    let (done, undone, error) = carry_out(
        enroll_hybrid_pq_passphrase("slot", &seed, 768),
        |a| if a == Act::PersistHeader { Some(false) } else { None },
    );
    assert_eq!(done, whole);
    assert!(undone.contains(&Act::RollbackSidecar));
    assert!(undone.contains(&Act::RemoveSeed));
    assert!(undone.contains(&Act::RevokeInstalled));
    assert!(error.is_some());

    let taken = SeedTarget { path: "/usb/n.kyber".to_string(), exists: true };
    assert_eq!(
        refusal(enroll_hybrid_pq_tpm2(&taken, 768, LINUX)),
        "/usb/n.kyber already exists"
    );
    assert_eq!(
        refusal(enroll_hybrid_pq_tpm2(&seed, 512, LINUX)),
        "unsupported ML-KEM size 512 (use 768 or 1024)"
    );
    assert_eq!(
        refusal(enroll_hybrid_pq_passphrase("", &seed, 768)),
        "slot passphrase must not be empty"
    );
}

#[test]
fn a_fused_enclave_slot_binds_its_factors() {
    let done = acts(enroll_sep_fused(SepFactors::Fido2Passphrase, None, None, MACOS));
    assert!(done.contains(&Act::InstallSlot {
        kind: SlotKind::SepFido2Passphrase,
        kdf: KdfStrength::Interactive,
        passphrase: true,
    }));
    assert!(done.contains(&Act::RegisterCredential));
}

fn slot(kind: SlotKind) -> SlotFacts {
    SlotFacts {
        kind,
        hybrid_pq: false,
        hybrid_pq_fido2: false,
        tpm2: false,
        sep: false,
        sep_fido2: false,
        sep_passphrase: false,
        tpm2_fido2_cred: false,
        cred_len: 0,
        salt_prehashed: false,
    }
}

#[test]
fn rotation_is_for_passphrase_vaults() {
    let kdf = KdfStrength::Interactive;
    let slots = vec![slot(SlotKind::Passphrase), slot(SlotKind::Empty)];
    assert_eq!(
        acts(rotate_mvk_passphrase_only(None, &slots, &vec![0], kdf)),
        vec![Act::RotateMvk { kdf }, Act::FlushVfs]
    );
    assert_eq!(
        refusal(rotate_mvk_passphrase_only(None, &slots, &vec![], kdf)),
        "no populated keyslots, nothing to rotate"
    );
    let slots = vec![slot(SlotKind::Passphrase), slot(SlotKind::Tpm2Sealed)];
    assert!(refusal(rotate_mvk_passphrase_only(None, &slots, &vec![0], kdf))
        .starts_with("slot 1 is TPM-bound."));
    let slots = vec![slot(SlotKind::SepSealed)];
    assert!(refusal(rotate_mvk_passphrase_only(None, &slots, &vec![0], kdf))
        .starts_with("slot 0 is Secure Enclave-bound."));
    assert_eq!(
        acts(rotate_mvk_passphrase_only(Some(Some(2)), &vec![], &vec![2], kdf)),
        vec![Act::RotateMvkDeniable { slot: 2, kdf }]
    );
    assert_eq!(
        refusal(rotate_mvk_passphrase_only(Some(Some(2)), &vec![], &vec![1], kdf)),
        "deniable rotation must target the unlocked slot (2); got slot 1"
    );
    assert_eq!(
        refusal(rotate_mvk_passphrase_only(Some(None), &vec![], &vec![1], kdf)),
        "deniable container has no unlocked-slot index; reopen the vault"
    );
    assert_eq!(
        refusal(rotate_mvk_passphrase_only(Some(None), &vec![], &vec![], kdf)),
        "deniable rotation v1 supports exactly one passphrase slot; got 0"
    );
}

#[test]
fn destruction_opens_both_files_first() {
    assert_eq!(
        acts(panic_destroy("/v/a.lbx", None, true)),
        vec![
            Act::OpenHeaderTarget,
            Act::ScrambleHeader,
            Act::ScrambleData { separate: false },
        ]
    );
    assert_eq!(
        acts(panic_destroy("/v/a.lbx", Some("/usb/a.hdr"), true)),
        vec![
            Act::OpenHeaderTarget,
            Act::OpenDataTarget,
            Act::ScrambleHeader,
            Act::ScrambleData { separate: true },
        ]
    );
    assert_eq!(
        acts(destroy_known("C:/a.lbx", Some("c:/A.LBX"), true, true)),
        vec![
            Act::OpenHeaderTarget,
            Act::ScrambleHeader,
            Act::ScrambleData { separate: false },
        ]
    );
    assert_eq!(
        acts(destroy_known("/v/a.lbx", Some("/usb/a.hdr"), false, false)),
        vec![Act::OpenHeaderTarget, Act::ScrambleHeader]
    );
    // The same path spelled in another way is the same file.
    assert_eq!(
        acts(panic_destroy("/v/a.lbx", Some("/v//a.lbx"), true)).len(),
        3
    );
    let (done, _, error) = carry_out(
        panic_destroy("/v/a.lbx", Some("/usb/a.hdr"), true),
        |a| if a == Act::OpenDataTarget { Some(false) } else { None },
    );
    assert_eq!(done, vec![Act::OpenHeaderTarget, Act::OpenDataTarget]);
    assert_eq!(error, Some("refusing to open /v/a.lbx for data wipe: boom".to_string()));
}

#[test]
fn a_wipe_covers_the_file_in_chunks() {
    let mut w = Wipe::new(0x10_0000 * 2 + 5);
    assert_eq!(w.next_chunk(), Some(0x10_0000));
    assert_eq!(w.next_chunk(), Some(0x10_0000));
    assert_eq!(w.next_chunk(), Some(5));
    assert_eq!(w.next_chunk(), None);
    assert_eq!(Wipe::new(0).next_chunk(), None);
}

#[test]
fn diagnostics_give_no_secret_away() {
    let mut o = request(SlotKindArg::Passphrase);
    assert_eq!(
        o.debug_text("\"/v/a.lbx\""),
        "CreateOpts { path: \"/v/a.lbx\", kind: Passphrase, use_deniable: false, \
         passphrase: Some(\"<redacted>\"), backup_passphrase: None, \
         pin: Some(\"<redacted>\"), hybrid_seed_pw: None, .. }"
    );
    let before = o.debug_text("p");
    o.passphrase = Some("other".to_string());
    assert_eq!(o.debug_text("p"), before);
    o.passphrase = None;
    assert!(o.debug_text("p").contains("passphrase: None, backup"));
}
