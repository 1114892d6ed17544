//! Forms, dialogs, the screens between them, and extraction.

use luksbox_gui::dialogs::{
    accept_passphrase, apply_picked, empty_passphrase_question, must_confirm, regenerates,
    AddHybridTpm2Fido2Form, AddHybridTpm2Form, AddPassphraseForm, AddTpm2PinForm, PanicForm,
    PassgenTarget, PickerFields, PickerTarget, RotateForm,
};
use luksbox_gui::extract::{
    get_file, put_file, DirEntry, InodeKind, Transfer, Walk, WalkReply, WalkStage,
};
use luksbox_gui::forms::{
    bootstrap_of, submit_create, BootstrapChoice, CipherChoice, CreateForm, CreateKind,
    CreateSubmission, EmptyPassphraseTarget, Factor,
};
use luksbox_gui::kinds::{CipherSuite, KdfStrength, SlotKindArg, TargetOs, TpmBootstrapKind, UnlockMethod};
use luksbox_gui::listing::{
    extension_of, filter_label, lost_extension, new_folder_name, sort_listing, submit_rename,
    taken_destination, ListEntry, RenameTarget, RenameVerdict,
};
use luksbox_gui::offers::{
    create_fields, create_title, method_label, offered_factors, offered_keyslots, offers_kdf,
    opens_dialog, unlock_fields, unlock_methods, variants_of, AddKeyslot, Field,
};
use luksbox_gui::opened::OpenedVault;
use luksbox_gui::passgen::PassgenOpts;
use luksbox_gui::recent::RecentVault;
use luksbox_gui::session::{
    push_toast, retain_toasts, Errand, FormReset, LoanTask, MountStatus, NavigateAction, Notice,
    OpenTask, Pending, Screen, Shell, ToastKind,
};
use luksbox_gui::unlock_form::{
    entry_for_marked, entry_for_path, form_for_path, method_fields, start_unlock, submit_unlock, UnlockForm,
    UnlockSubmission,
};

fn filled_form(kind: CreateKind) -> CreateForm {
    CreateForm {
        path: " /v/a.lbx ".to_string(),
        kind,
        passphrase: "pw".to_string(),
        pin: "1234".to_string(),
        hybrid_kyber_path: "/usb/a.kyber".to_string(),
        ..CreateForm::default()
    }
}

#[test]
fn a_filled_form_becomes_a_request() {
    let mut form = filled_form(CreateKind::HybridPqFido2);
    form.use_anchor = true;
    form.anchor_path = "/usb/a.anchor".to_string();
    form.cipher = CipherChoice::Chacha;
    let (form, sub) = submit_create(form, false);
    match sub {
        CreateSubmission::Ready { opts, needs_touch } => {
            assert!(needs_touch);
            assert_eq!(opts.path, "/v/a.lbx");
            assert_eq!(opts.header_path, None);
            assert_eq!(opts.anchor_path, Some("/usb/a.anchor".to_string()));
            assert_eq!(opts.kind, SlotKindArg::HybridPqFido2);
            assert_eq!(opts.cipher, CipherSuite::ChaCha20Poly1305);
            assert_eq!(opts.passphrase, Some("pw".to_string()));
            assert_eq!(opts.pin, Some("1234".to_string()));
            assert_eq!(opts.hybrid_kyber_path, Some("/usb/a.kyber".to_string()));
            assert_eq!(opts.hybrid_seed_pw, None);
            assert!(opts.use_v3_format && !opts.use_deniable);
        }
        _ => panic!("refused"),
    }
    assert_eq!(form.passphrase, "");
    assert_eq!(form.pin, "");
    assert_eq!(form.path, " /v/a.lbx ");
}

#[test]
fn incomplete_forms_are_refused() {
    let refused = |form: CreateForm| match submit_create(form, false).1 {
        CreateSubmission::Refused(text) => text,
        _ => panic!("not refused"),
    };
    assert_eq!(refused(CreateForm::default()), "vault path is required");
    let mut form = filled_form(CreateKind::Passphrase);
    form.use_detached = true;
    assert_eq!(refused(form), "header sidecar path required");
    let mut form = filled_form(CreateKind::Passphrase);
    form.use_anchor = true;
    assert_eq!(refused(form), "anchor path required");
    let mut form = filled_form(CreateKind::HybridPq);
    form.hybrid_kyber_path = "  ".to_string();
    assert_eq!(refused(form), "hybrid mode requires a path for the .kyber seed file");
}

#[test]
fn an_empty_passphrase_has_to_be_confirmed() {
    let mut form = filled_form(CreateKind::Passphrase);
    form.passphrase = String::new();
    let (form, sub) = submit_create(form, false);
    assert!(matches!(sub, CreateSubmission::Confirm(EmptyPassphraseTarget::CreateVault)));
    let (_, sub) = submit_create(form, true);
    assert!(matches!(sub, CreateSubmission::Ready { .. }));
    let (_, sub) = submit_create(filled_form(CreateKind::Fido2Direct), false);
    assert!(matches!(sub, CreateSubmission::Confirm(EmptyPassphraseTarget::Fido2DirectBackup)));
    let empty = AddPassphraseForm::default();
    assert_eq!(must_confirm(&empty, false), Some(EmptyPassphraseTarget::AddPassphraseKeyslot));
    assert_eq!(must_confirm(&empty, true), None);
    assert_eq!(
        empty_passphrase_question(EmptyPassphraseTarget::Fido2DirectBackup).yes,
        "Yes, skip backup passphrase"
    );
    assert_eq!(
        empty_passphrase_question(EmptyPassphraseTarget::CreateVault).title,
        "Empty passphrase, are you sure?"
    );
}

#[test]
fn a_tpm_slot_is_drawn_from_the_form() {
    let backup = Some("pw".to_string());
    let (_, choice) = bootstrap_of(filled_form(CreateKind::Passphrase), &backup);
    assert!(matches!(choice, BootstrapChoice::Plain));
    let (form, choice) = bootstrap_of(filled_form(CreateKind::HybridPq1024Tpm2Fido2), &backup);
    match choice {
        BootstrapChoice::Tpm(TpmBootstrapKind::HybridPqTpm2Fido2 {
            kyber_path,
            seed_pw,
            pin,
            kem_size,
        }) => {
            assert_eq!((kyber_path.as_str(), seed_pw.as_str()), ("/usb/a.kyber", "pw"));
            assert_eq!((pin.as_str(), kem_size), ("1234", 1024));
        }
        _ => panic!("another slot"),
    }
    assert_eq!(form.pin, "");
    let mut form = filled_form(CreateKind::HybridPqTpm2);
    form.hybrid_seed_pw = "own".to_string();
    match bootstrap_of(form, &backup).1 {
        BootstrapChoice::Tpm(TpmBootstrapKind::HybridPqTpm2 { seed_pw, kem_size, .. }) => {
            assert_eq!((seed_pw.as_str(), kem_size), ("own", 768));
        }
        _ => panic!("another slot"),
    }
    let refused = |form: CreateForm| match bootstrap_of(form, &backup).1 {
        BootstrapChoice::Refused(text) => text,
        _ => panic!("not refused"),
    };
    let mut form = filled_form(CreateKind::Tpm2Pin);
    form.pin = String::new();
    assert_eq!(refused(form), "TPM PIN required");
    let mut form = filled_form(CreateKind::Tpm2Fido2);
    form.pin = String::new();
    assert_eq!(refused(form), "FIDO2 PIN required");
    let mut form = filled_form(CreateKind::HybridPqTpm2);
    form.hybrid_kyber_path = String::new();
    assert_eq!(refused(form), "hybrid TPM kind requires a path for the .kyber seed file");
}

#[test]
fn the_unlock_form_becomes_a_request() {
    let form = UnlockForm {
        path: "/v/a.lbx".to_string(),
        method: UnlockMethod::HybridPqTpm2Fido2,
        passphrase: "pw".to_string(),
        pin: "1".to_string(),
        hybrid_kyber_path: " /k ".to_string(),
        use_detached: true,
        header_path: " ".to_string(),
        ..UnlockForm::default()
    };
    let (form, sub) = submit_unlock(form);
    match sub {
        UnlockSubmission::Ready { opts, needs_touch } => {
            assert!(needs_touch);
            assert_eq!(opts.header_path, None);
            assert_eq!(opts.hybrid_kyber_path, Some("/k".to_string()));
            assert_eq!(opts.passphrase, Some("pw".to_string()));
            assert_eq!(opts.pin, Some("1".to_string()));
        }
        UnlockSubmission::Refused(text) => panic!("{text}"),
    }
    assert_eq!((form.passphrase.as_str(), form.pin.as_str()), ("", ""));
    match submit_unlock(UnlockForm::default()).1 {
        UnlockSubmission::Refused(text) => assert_eq!(text, "vault path required"),
        _ => panic!("not refused"),
    }
    let mut form = form_for_path("/v");
    form.method = UnlockMethod::HybridPq;
    match submit_unlock(form).1 {
        UnlockSubmission::Refused(text) => {
            assert_eq!(text, "hybrid mode requires the .kyber seed file path")
        }
        _ => panic!("not refused"),
    }
    assert!(method_fields(UnlockMethod::Tpm2Pin).pin);
    assert!(!method_fields(UnlockMethod::Tpm2Pin).touch);
}

fn recent(path: &str) -> RecentVault {
    RecentVault {
        path: path.to_string(),
        header_path: Some("/h".to_string()),
        anchor_path: None,
        last_opened: Some(5),
        cipher: "AES-256-GCM".to_string(),
        has_fido2: true,
        has_hybrid_pq: true,
        has_tpm: false,
    }
}

#[test]
fn the_unlock_form_starts_with_the_likely_method() {
    let f = start_unlock(&recent("/v"), true, None);
    assert_eq!(f.method, UnlockMethod::HybridPqFido2);
    assert!(f.use_detached && !f.use_anchor);
    assert_eq!(f.header_path, "/h");
    assert_eq!(start_unlock(&recent("/v"), false, None).method, UnlockMethod::HybridPq);
    let mut plain = recent("/v");
    plain.has_hybrid_pq = false;
    assert_eq!(start_unlock(&plain, true, None).method, UnlockMethod::Fido2);
    assert_eq!(start_unlock(&plain, false, None).method, UnlockMethod::Passphrase);
    let known = entry_for_path(&vec![recent("/a"), recent("/v")], "/v/");
    assert_eq!(known.header_path, Some("/h".to_string()));
    assert_eq!(known.last_opened, None);
    assert_eq!(known.path, "/v/");
    let known = entry_for_marked(&vec![recent("/a"), recent("/v")], &vec![false, true], "V:");
    assert_eq!((known.path.as_str(), known.header_path.as_deref()), ("V:", Some("/h")));
    let unknown = entry_for_path(&vec![recent("/a")], "/v");
    assert_eq!((unknown.header_path, unknown.has_fido2), (None, false));
}

#[test]
fn offers_follow_the_system() {
    assert_eq!(offered_factors(TargetOs::Linux).len(), 3);
    assert_eq!(offered_factors(TargetOs::Windows), [Factor::Passphrase, Factor::Fido2]);
    let mut all = 0;
    for f in offered_factors(TargetOs::Linux) {
        for k in variants_of(f) {
            assert_eq!(k.factor(), f);
            assert_eq!(create_fields(k).contains(&Field::Passphrase), k.needs_passphrase());
            all += 1;
        }
        assert_eq!(f.simplest().factor(), f);
    }
    assert_eq!(all, 14);
    assert_eq!(Factor::Tpm2.label(), "TPM 2.0 (this machine)");
    assert!(!offers_kdf(CreateKind::Fido2Direct) && offers_kdf(CreateKind::Fido2));
    assert_eq!(create_title(CreateKind::Tpm2), "TPM 2.0 + backup passphrase");
    assert_eq!(unlock_methods(TargetOs::Linux).len(), 9);
    assert_eq!(unlock_methods(TargetOs::Macos).len(), 4);
    for m in unlock_methods(TargetOs::Linux) {
        let f = method_fields(m);
        assert_eq!(unlock_fields(m).contains(&Field::Pin), f.pin);
        assert_eq!(unlock_fields(m).contains(&Field::SeedPath), f.seed);
    }
    assert_eq!(method_label(UnlockMethod::Tpm2), "TPM 2.0 (this machine, no passphrase)");
    assert_eq!(offered_keyslots(TargetOs::Linux).len(), 9);
    assert_eq!(offered_keyslots(TargetOs::Windows).len(), 2);
    let tpm = || Err("no chip".to_string());
    let key = || Err("no key".to_string());
    assert_eq!(opens_dialog(AddKeyslot::Passphrase, tpm(), key()), Ok(()));
    assert_eq!(opens_dialog(AddKeyslot::Fido2, tpm(), key()), key());
    assert_eq!(opens_dialog(AddKeyslot::Tpm2, Ok(()), key()), Ok(()));
    assert_eq!(opens_dialog(AddKeyslot::Tpm2Fido2, tpm(), key()), tpm());
}

#[test]
fn new_secrets_are_typed_twice() {
    let mut f = AddTpm2PinForm::default();
    assert_eq!(f.complaint(), Some("PIN cannot be empty"));
    f.pin = "1".to_string();
    assert_eq!(f.complaint(), Some("PINs do not match"));
    f.pin_confirm = "1".to_string();
    assert_eq!(f.complaint(), None);
    let mut f = AddHybridTpm2Fido2Form::new(1024);
    assert_eq!(f.complaint(), Some("FIDO2 PIN cannot be empty"));
    f.fido2_pin = "1".to_string();
    assert_eq!(f.complaint(), Some(".kyber path cannot be empty"));
    f.kyber_path = "/k".to_string();
    assert_eq!(f.complaint(), Some("seed-file passphrase cannot be empty"));
    f.seed_pw = "s".to_string();
    assert_eq!(f.complaint(), Some("passphrases do not match"));
    f.seed_pw_confirm = "s".to_string();
    assert_eq!(f.complaint(), None);
    assert_eq!(AddHybridTpm2Form::new(768).kem_size, 768);
}

#[test]
fn a_rotation_waits_for_every_passphrase() {
    let mut f = RotateForm::new(&vec![0, 4]);
    assert_eq!(f.entries[1].slot_idx, 4);
    assert!(!f.can_submit(false));
    assert_eq!(f.hint(false), "Fill in every slot's passphrase first.");
    for e in &mut f.entries {
        e.passphrase = "p".to_string();
    }
    assert!(f.can_submit(false) && !f.can_submit(true));
    assert_eq!(f.hint(true), "Another operation is in flight, wait for it to finish.");
}

#[test]
fn destruction_has_to_be_spelled_out() {
    let mut f = PanicForm::default();
    f.confirmation = "DESTROY ".to_string();
    assert!(!f.armed());
    f.vault = " /v/a.lbx ".to_string();
    assert_eq!(f.expected(), "DESTROY /v/a.lbx");
    assert!(f.submit(false).is_none());
    f.confirmation = "DESTROY /v/a.lbx".to_string();
    f.use_detached = true;
    f.header_path = "/h".to_string();
    assert!(f.submit(true).is_none());
    let q = f.submit(false).unwrap();
    assert_eq!((q.vault.as_str(), q.header, q.wipe_data), ("/v/a.lbx", Some("/h".to_string()), false));
}

#[test]
fn generated_passphrases_go_where_they_belong() {
    let r = accept_passphrase(
        PassgenTarget::CreatePrimary,
        "gen".to_string(),
        CreateForm::default(),
        None,
    );
    assert_eq!((r.create.passphrase.as_str(), r.toast), ("gen", Some("passphrase filled in")));
    let r = accept_passphrase(
        PassgenTarget::AddKeyslotPassphrase,
        "gen".to_string(),
        CreateForm::default(),
        Some(AddPassphraseForm { passphrase: String::new(), kdf: KdfStrength::Sensitive }),
    );
    let add = r.add.unwrap();
    assert_eq!((add.passphrase.as_str(), add.kdf), ("gen", KdfStrength::Sensitive));
    let r = accept_passphrase(
        PassgenTarget::CreateBackup,
        "gen".to_string(),
        CreateForm::default(),
        None,
    );
    assert_eq!((r.create.passphrase.as_str(), r.create.backup_passphrase.as_str()), ("", "gen"));
    assert_eq!(PassgenTarget::Standalone.accept_label(), "Done");
    let o = PassgenOpts::default();
    assert!(!regenerates(o, o, false) && regenerates(o, o, true));
    assert!(regenerates(o, PassgenOpts { length: 21, ..o }, false));
    assert!(!regenerates(o, PassgenOpts { length: 2, ..o }, true));
}

#[test]
fn picked_files_go_where_they_belong() {
    let fields = || PickerFields {
        create: CreateForm::default(),
        unlock: UnlockForm::default(),
        add_hybrid: Some(AddHybridTpm2Form::new(768)),
        add_hybrid_fido2: None,
    };
    let r = apply_picked(PickerTarget::CreateAnchor, "/p", fields());
    assert_eq!((r.create.anchor_path.as_str(), r.create.hybrid_kyber_path.as_str()), ("/p", ""));
    let r = apply_picked(PickerTarget::CreateHybridKyber, "/p", fields());
    assert_eq!(r.create.hybrid_kyber_path, "/p");
    let r = apply_picked(PickerTarget::UnlockHybridKyber, "/p", fields());
    assert_eq!(r.unlock.hybrid_kyber_path, "/p");
    let r = apply_picked(PickerTarget::AddHybridKyber, "/p", fields());
    assert_eq!(r.add_hybrid.unwrap().kyber_path, "/p");
    assert!(r.add_hybrid_fido2.is_none());
}

fn vault() -> OpenedVault {
    OpenedVault {
        vault_path: "/v/a.lbx".to_string(),
        header_path: None,
        anchor_path: Some("/anchor".to_string()),
        cipher_label: "AES-256-GCM-SIV".to_string(),
        has_fido2: false,
        has_hybrid_pq: false,
        has_tpm: false,
        deniable_fido2_recovery: None,
        deniable_tpm_blob_path: None,
        tolerated_inodes: Vec::new(),
    }
}

#[test]
fn an_open_vault_is_left_only_with_consent() {
    let mut s = Shell::new(false);
    assert_eq!(s.screen, Screen::Welcome);
    let d = s.request_navigate(NavigateAction::GoCreate).unwrap();
    assert!(d.closed.is_none() && matches!(d.errand, Errand::Nothing));
    assert_eq!(s.screen, Screen::Create);
    let a = s.finish_open(OpenTask::Create, Some(Ok(vault())), 42);
    assert_eq!((a.notice.text.as_str(), a.refresh), ("vault created", true));
    assert_eq!(a.reset, FormReset::Create);
    let entry = a.remember.unwrap();
    assert_eq!(entry.last_opened, Some(42));
    assert_eq!(entry.anchor_path, Some("/anchor".to_string()));
    assert_eq!(s.screen, Screen::Browser);

    assert!(s.request_navigate(NavigateAction::OpenRecent(recent("/w"))).is_none());
    assert!(s.vault.is_some());
    assert!(s.lock_question().unwrap().starts_with("/v/a.lbx is still open. To open /w we need"));
    assert!(s.answer_confirm_lock(false).is_none());
    assert!(s.vault.is_some() && s.lock_question().is_none());
    assert!(s.request_navigate(NavigateAction::OpenRecent(recent("/w"))).is_none());
    let d = s.answer_confirm_lock(true).unwrap();
    assert_eq!(d.closed.unwrap().vault_path, "/v/a.lbx");
    match d.errand {
        Errand::Unlock(r) => assert_eq!(r.path, "/w"),
        _ => panic!("another errand"),
    }
    assert!(s.vault.is_none());
    assert_eq!((s.screen, s.cwd.as_str()), (Screen::Unlock, "/"));
}

#[test]
fn tasks_end_in_messages() {
    let mut s = Shell::new(true);
    assert_eq!(s.screen, Screen::Unlock);
    let a = s.finish_open(OpenTask::Unlock, Some(Err("wrong".to_string())), 1);
    assert_eq!((a.notice.kind, a.notice.text.as_str()), (ToastKind::Bad, "wrong"));
    let a = s.finish_open(OpenTask::CreateWithTpmBootstrap, None, 1);
    assert_eq!(a.notice.text, "TPM bootstrap task crashed");
    assert_eq!(s.screen, Screen::Unlock);
    s.finish_open(OpenTask::Unlock, Some(Ok(vault())), 1);

    let lent = s.lend().unwrap();
    assert!(s.vault.is_none());
    let a = s.finish_loan(&LoanTask::EnrollTpm2Fido2, Some((lent, Ok(3))));
    assert_eq!(a.notice.text, "enrolled fused TPM+FIDO2 in slot 3");
    let v = s.vault.as_ref().unwrap();
    assert!(v.has_tpm && v.has_fido2 && !v.has_hybrid_pq);
    let lent = s.lend().unwrap();
    let put = LoanTask::PutFile { name: "x".to_string() };
    let a = s.finish_loan(&put, Some((lent, Ok(9))));
    assert_eq!((a.notice.text.as_str(), a.refresh), ("added x (9 bytes)", true));
    let lent = s.lend().unwrap();
    let a = s.finish_loan(&LoanTask::GetFile, Some((lent, Err("no space".to_string()))));
    assert_eq!(a.notice.text, "no space");
    assert!(s.vault.is_some());
    s.lend();
    let a = s.finish_loan(&LoanTask::GetFile, None);
    assert_eq!(a.notice.text, "get task crashed");
    assert!(s.vault.is_none());

    let a = s.finish_rotation(Some(Ok(vault())));
    assert_eq!(a.notice.text, "✓ master key rotated");
    s.lend();
    let a = s.finish_rotation(Some(Err("disk".to_string())));
    assert_eq!(a.notice.text, "rotate failed: disk");
    assert_eq!(s.screen, Screen::Welcome);
    let a = s.finish_panic(Some(Ok(())));
    assert_eq!((a.notice.kind, a.reset), (ToastKind::Warn, FormReset::Panic));
    let a = s.finish_mount(Some(Err("fuse".to_string())));
    assert_eq!(a.notice.text, "mount error: fuse");
    let a = s.finish_mount(None);
    assert_eq!(a.notice.text, "mount thread terminated unexpectedly");
}

#[test]
fn pending_tasks_say_what_they_wait_for() {
    let p = Pending::Open { task: OpenTask::Create, needs_touch: true };
    assert_eq!(
        p.label(false),
        "creating vault, touch your FIDO2 authenticator when prompted"
    );
    assert!(p.label(true).contains("Windows Hello"));
    assert!(p.needs_touch() && p.blocks_input());
    assert!(!Pending::Fido2Probe.blocks_input());
    assert_eq!(Pending::Panic.label(false), "wiping...");
    let mut m = MountStatus { mountpoint: "/m".to_string(), unmount_requested: false };
    assert!(m.request_unmount());
    assert!(!m.request_unmount());
}

#[test]
fn messages_fade() {
    let mut toasts = Vec::new();
    for (i, text) in ["a", "b"].into_iter().enumerate() {
        let n = Notice { kind: ToastKind::Good, text: text.to_string() };
        push_toast(&mut toasts, n, 1000 * i as u64);
    }
    let toasts = retain_toasts(toasts, 4999);
    assert_eq!(toasts.len(), 2);
    let toasts = retain_toasts(toasts, 5000);
    assert_eq!(toasts.len(), 1);
    assert_eq!(toasts[0].text, "b");
    assert!(retain_toasts(toasts, 6000).is_empty());
}

#[test]
fn listings_are_sorted_by_name() {
    let row = |n: &str| ListEntry { name: n.to_string(), kind: InodeKind::File, size: 0 };
    let names = ["b", "a", "", "ab", "Z", "é", "a\u{10000}", "a\u{ffff}", "b"];
    let sorted: Vec<String> =
        sort_listing(names.iter().map(|n| row(n)).collect()).into_iter().map(|e| e.name).collect();
    let mut expected: Vec<String> = names.iter().map(|n| n.to_string()).collect();
    expected.sort();
    assert_eq!(sorted, expected);
}

#[test]
fn names_are_checked_before_a_change() {
    assert_eq!(new_folder_name("  docs "), Some("docs".to_string()));
    assert_eq!(new_folder_name("  "), None);
    let rename = |buf: &str| {
        submit_rename(&RenameTarget {
            old_name: "a.txt".to_string(),
            buf: buf.to_string(),
            is_dir: false,
        })
    };
    assert!(matches!(rename(" a.txt "), RenameVerdict::Close));
    assert!(matches!(rename(""), RenameVerdict::Close));
    assert!(matches!(rename("x/y"), RenameVerdict::Refused("name can't contain '/'")));
    match rename(" b.txt") {
        RenameVerdict::To(name) => assert_eq!(name, "b.txt"),
        _ => panic!("not renamed"),
    }
    for name in ["a.txt", ".bashrc", "a.tar.gz", "..", "a", "a.", ".a.b", ""] {
        assert_eq!(
            extension_of(name).as_deref(),
            std::path::Path::new(name).extension().and_then(|e| e.to_str()),
            "{name}"
        );
    }
    let lost = |chosen: &str, os: TargetOs| lost_extension("a.txt", chosen, os);
    for bare in ["copy", "/d.e/f", "/d.e/.f", "/d/f/", "/d.e/f/.", "f", "/d.e/.."] {
        assert_eq!(lost(bare, TargetOs::Linux), Some("txt".to_string()), "{bare}");
        let path = std::path::Path::new(bare);
        assert_eq!(path.extension(), None, "{bare}");
    }
    for kept in ["copy.md", "/d/f.md", "/d/f.md/", "/d/.f.md", "/d/f."] {
        assert_eq!(lost(kept, TargetOs::Linux), None, "{kept}");
        let path = std::path::Path::new(kept);
        assert!(path.extension().is_some(), "{kept}");
    }
    assert_eq!(lost("C:\\d.e\\f", TargetOs::Windows), Some("txt".to_string()));
    assert_eq!(lost("C:\\d.e\\f.md", TargetOs::Windows), None);
    assert_eq!(lost_extension("a", "/d.e/f", TargetOs::Linux), None);
    assert_eq!(filter_label("txt"), ".txt file");
    assert!(taken_destination("/d").starts_with("/d already exists"));
}

fn entry(name: &str, kind: InodeKind) -> DirEntry {
    DirEntry { name: name.to_string(), kind }
}

fn shown(w: &Walk) -> String {
    match w.stage() {
        WalkStage::Look { inner, below } => format!("look {inner} {below:?}"),
        WalkStage::Enter { inner, below } => format!("enter {inner} {below:?}"),
        WalkStage::Copy { inner, below } => format!("copy {inner} {below:?}"),
        WalkStage::ReadLink { inner, below } => format!("readlink {inner} {below:?}"),
        WalkStage::MakeLink { target, below } => format!("link {target} {below:?}"),
        WalkStage::Finished => "finished".to_string(),
        WalkStage::Failed { text } => format!("failed {text}"),
    }
}

#[test]
fn a_directory_is_extracted_in_order() {
    let w = Walk::get_dir_recursive("/docs", TargetOs::Linux);
    assert_eq!(shown(&w), "look /docs []");
    let w = w.reply(WalkReply::Kind(InodeKind::Directory));
    assert_eq!(shown(&w), "enter /docs []");
    let w = w.reply(WalkReply::Entries(vec![
        entry("sub", InodeKind::Directory),
        entry("a.txt", InodeKind::File),
        entry("link", InodeKind::Symlink),
    ]));
    assert_eq!(shown(&w), "look /docs/sub [\"sub\"]");
    let w = w.reply(WalkReply::Kind(InodeKind::Directory));
    let w = w.reply(WalkReply::Entries(vec![entry("b.txt", InodeKind::File)]));
    assert_eq!(shown(&w), "copy /docs/sub/b.txt [\"sub\", \"b.txt\"]");
    let w = w.reply(WalkReply::Copied(10));
    assert_eq!(shown(&w), "copy /docs/a.txt [\"a.txt\"]");
    let w = w.reply(WalkReply::Copied(5));
    assert_eq!(w.total(), 15);
    assert_eq!(shown(&w), "readlink /docs/link [\"link\"]");
    let w = w.reply(WalkReply::Target("a.txt".to_string()));
    assert_eq!(shown(&w), "link a.txt [\"link\"]");
    let w = w.reply(WalkReply::Linked);
    assert_eq!(shown(&w), "finished");
}

fn at_entry(name: &str, kind: InodeKind, os: TargetOs) -> Walk {
    Walk::get_dir_recursive("/", os)
        .reply(WalkReply::Kind(InodeKind::Directory))
        .reply(WalkReply::Entries(vec![entry(name, kind)]))
}

#[test]
fn nothing_is_extracted_outside_the_destination() {
    for name in ["..", "a/b", "/etc", ""] {
        let w = at_entry(name, InodeKind::File, TargetOs::Linux);
        assert!(shown(&w).starts_with("failed vault contains an entry name that would escape"));
    }
    let link = || at_entry("l", InodeKind::Symlink, TargetOs::Linux);
    for target in ["", "/etc/passwd", "\\x", "a/../b", "a\0b"] {
        let w = link().reply(WalkReply::Target(target.to_string()));
        assert!(shown(&w).starts_with("failed vault contains a symlink with an escape target"));
    }
    let w = at_entry("l", InodeKind::Symlink, TargetOs::Windows)
        .reply(WalkReply::Target("x".to_string()));
    assert!(shown(&w).contains("does not support symlink creation"));
    let w = link().reply(WalkReply::Target("x".to_string())).reply(WalkReply::LinkFailed {
        path: "/d/l".to_string(),
        error: "denied".to_string(),
    });
    assert_eq!(shown(&w), "failed failed to materialise symlink /d/l: denied");
    let w = Walk::get_dir_recursive("/f", TargetOs::Linux).reply(WalkReply::Kind(InodeKind::File));
    assert_eq!(shown(&w), "failed /f is not a directory");
    let w = Walk::get_dir_recursive("/f", TargetOs::Linux)
        .reply(WalkReply::Error("io".to_string()))
        .reply(WalkReply::Kind(InodeKind::Directory));
    assert_eq!(shown(&w), "failed io");
}

#[test]
fn files_are_copied_block_by_block() {
    let refused = get_file(InodeKind::Symlink, 5, "/a").err();
    assert_eq!(refused, Some("/a is not a file".to_string()));
    assert_eq!(put_file(true, "/a").err(), Some("/a already exists".to_string()));
    let mut t = Transfer::new(Some(100));
    t.block(60);
    assert!(!t.done);
    t.block(40);
    assert!(t.done && t.offset == 100);
    let mut t = Transfer::new(None);
    t.block(7);
    assert!(!t.done);
    t.block(0);
    assert!(t.done && t.offset == 7);
    assert!(Transfer::new(Some(0)).done);
}

/// Copies `source` in blocks of at most `most` bytes into an emptied target.
fn copy(mut t: Transfer, source: &[u8], target: &mut Vec<u8>, most: usize) -> u64 {
    target.clear();
    while !t.done {
        let at = t.offset as usize;
        let n = most.min(source.len() - at);
        target.resize(at, 0);
        target.extend_from_slice(&source[at..at + n]);
        t.block(n);
    }
    t.offset
}

#[test]
fn a_file_put_and_got_is_the_same() {
    for len in [0usize, 1, 6, 7, 8, 100] {
        let bytes: Vec<u8> = (0..len).map(|i| i as u8).collect();
        let mut inside = Vec::new();
        let t = put_file(false, "/a").ok().unwrap();
        assert_eq!(copy(t, &bytes, &mut inside, 7), len as u64);
        let mut outside = vec![9u8; 200];
        let t = get_file(InodeKind::File, inside.len() as u64, "/a").ok().unwrap();
        assert_eq!(copy(t, &inside, &mut outside, 5), len as u64);
        assert_eq!(outside, bytes);
    }
}

#[test]
fn the_total_counts_every_file() {
    let mut w = Walk::get_dir_recursive("/d", TargetOs::Linux)
        .reply(WalkReply::Kind(InodeKind::Directory))
        .reply(WalkReply::Entries(vec![
            entry("a", InodeKind::File),
            entry("b", InodeKind::Directory),
            entry("c", InodeKind::File),
        ]));
    let mut copied = 0;
    loop {
        let reply = match w.stage() {
            WalkStage::Copy { .. } => {
                copied += 1;
                WalkReply::Copied(10 * copied)
            }
            WalkStage::Look { .. } => WalkReply::Kind(InodeKind::Directory),
            WalkStage::Enter { .. } => WalkReply::Entries(vec![entry("e", InodeKind::File)]),
            _ => break,
        };
        w = w.reply(reply);
    }
    assert_eq!((shown(&w).as_str(), copied, w.total()), ("finished", 3, 60));
}
