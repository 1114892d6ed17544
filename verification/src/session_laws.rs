//! What holds of the application from one event to the next.

use crate::kinds::{CipherSuite, SepBootstrapKind, SlotKind, TpmBootstrapKind};
use crate::opened::{OpenedBy, OpenedVault, ToleratedInode, VaultFlags, header_flags, opened_cipher_text, opened_flags, report_of};
use crate::paths::size_text;
use crate::recent::RecentVault;
use crate::session::{Aftermath, Errand, FormReset, LoanTask, NavigateAction, OpenTask, Pending, Screen, ShellView, Toast, ToastKind, after_loan, answered, auth_verb_text, departed, errand_of, loan_ended, loan_text, only_notice, remembers, requested};
use crate::slots::SlotFacts;
use crate::text::decimal;
use crate::text_laws::law_decimal_tells_numbers_apart;
use vstd::prelude::*;

verus! {

/// The screen that an action leads to; picking a vault leads nowhere yet.
pub open spec fn destination(a: NavigateAction) -> Option<Screen> {
    match a {
        NavigateAction::OpenRecent(_) => Some(Screen::Unlock),
        NavigateAction::OpenPicker => None,
        NavigateAction::GoCreate => Some(Screen::Create),
        NavigateAction::GoPanic => Some(Screen::Panic),
        NavigateAction::GoWelcome => Some(Screen::Welcome),
    }
}

/// Whether a shell has left for where an action leads: without a vault, at the
/// root, on the screen of the action, with the rest as it was.
pub open spec fn has_left(before: ShellView, after: ShellView, a: NavigateAction) -> bool {
    &&& after.vault is None
    &&& after.cwd == seq!['/']
    &&& match destination(a) {
        Some(screen) => after.screen == screen,
        None => after.screen == before.screen,
    }
}

/// A navigation leads where the action says: at once if no vault is open; if one
/// is, the action is kept until the user agrees, and then leads there. What is
/// left to do is to unlock the vault named, or to have one picked.
pub proof fn law_navigation_leads_where_asked(s: ShellView, a: NavigateAction)
    ensures
        has_left(s, departed(s, a), a),
        departed(s, a).confirm_lock == s.confirm_lock,
        s.vault is None ==> has_left(s, requested(s, a), a) && requested(s, a).confirm_lock
            == s.confirm_lock,
        s.vault is Some ==> requested(s, a).confirm_lock == Some(a),
        s.vault is Some ==> has_left(s, answered(requested(s, a), true), a) && answered(
            requested(s, a),
            true,
        ).confirm_lock is None,
        s.confirm_lock is None ==> answered(s, true) == s && answered(s, false) == s,
        a matches NavigateAction::OpenRecent(r) ==> errand_of(a) == Errand::Unlock(r),
        a is OpenPicker ==> errand_of(a) is Pick,
        !(a is OpenRecent) && !(a is OpenPicker) ==> errand_of(a) is Nothing,
{
    reveal_strlit("/");
    assert("/"@ =~= seq!['/']);
    if s.confirm_lock is None {
        assert(answered(s, true) =~= s);
        assert(answered(s, false) =~= s);
    }
}

/// What a task that has worked adds to what protects a vault.
pub open spec fn gained(task: LoanTask) -> VaultFlags {
    VaultFlags {
        has_fido2: task is EnrollFido2 || task is EnrollTpm2Fido2
            || task is EnrollHybridPqTpm2Fido2,
        has_hybrid_pq: task is EnrollHybridPqTpm2 || task is EnrollHybridPqTpm2Fido2,
        has_tpm: task is EnrollTpm2 || task is EnrollTpm2Pin || task is EnrollTpm2Fido2
            || task is EnrollHybridPqTpm2 || task is EnrollHybridPqTpm2Fido2,
    }
}

/// A task that has worked adds to the vault exactly the protection that it
/// enrolled.
pub proof fn law_enrolled_protection_shows(s: ShellView, task: LoanTask, v: OpenedVault, n: u64)
    ensures
        after_loan(task, v).has_fido2 == (v.has_fido2 || gained(task).has_fido2),
        after_loan(task, v).has_hybrid_pq == (v.has_hybrid_pq || gained(task).has_hybrid_pq),
        after_loan(task, v).has_tpm == (v.has_tpm || gained(task).has_tpm),
        loan_ended(s, task, Some((v, Ok(n)))).vault == Some(after_loan(task, v)),
        loan_ended(s, task, None) == s,
{
}

/// A task that waits for the authenticator says what to do with it, and one that
/// does not says the same with Windows Hello as without.
pub proof fn law_label_asks_for_the_touch(p: Pending, windows_hello: bool)
    ensures
        p.touch() ==> exists|a: Seq<char>, b: Seq<char>|
            p.label_text(windows_hello) == #[trigger] (a + auth_verb_text(windows_hello) + b),
        !p.touch() ==> p.label_text(true) == p.label_text(false),
{
    if p.touch() {
        let verb = auth_verb_text(windows_hello);
        let (a, b) = match p {
            Pending::Open { task, .. } => match task {
                OpenTask::Create => ("creating vault, "@, " when prompted"@),
                OpenTask::Unlock => ("unlocking, "@, " when prompted"@),
                OpenTask::CreateWithTpmBootstrap => (
                    "creating vault + sealing under the local TPM 2.0 ("@,
                    " for the FIDO2 half)"@,
                ),
            },
            Pending::Loan { task } => match task {
                LoanTask::EnrollFido2 => ("registering credential - "@, Seq::<char>::empty()),
                LoanTask::EnrollTpm2Fido2 => (
                    "fused TPM+FIDO2 enroll - "@,
                    " + sealing under the local TPM 2.0"@,
                ),
                _ => ("3-factor TPM+FIDO2+ML-KEM enroll - "@, " + TPM seal + Kyber keygen"@),
            },
            _ => (Seq::<char>::empty(), Seq::<char>::empty()),
        };
        assert(p.label_text(windows_hello) =~= a + verb + b);
    }
}

/// The tasks that wait for the authenticator are those that enroll one, and those
/// that open a vault with one.
pub proof fn law_touch_is_for_the_authenticator(p: Pending)
    ensures
        p.touch() <==> match p {
            Pending::Open { needs_touch, .. } => needs_touch,
            Pending::Loan { task } => gained(task).has_fido2,
            _ => false,
        },
{
}

/// What a task says when it has worked tells how many bytes or which slot.
pub proof fn law_loan_text_tells_the_number(task: LoanTask, m: u64, n: u64)
    requires
        loan_text(task, m) == loan_text(task, n),
    ensures
        m == n,
{
    let (lead, tail): (Seq<char>, Seq<char>) = match task {
        LoanTask::PutFile { name } => ("added "@ + name@ + " ("@, " bytes)"@),
        LoanTask::GetFile => ("extracted "@, " bytes"@),
        LoanTask::EnrollPassphrase => ("enrolled passphrase in slot "@, seq![]),
        LoanTask::EnrollFido2 => ("enrolled FIDO2 in slot "@, seq![]),
        LoanTask::EnrollTpm2 => ("enrolled TPM 2.0 in slot "@, seq![]),
        LoanTask::EnrollTpm2Pin => ("enrolled TPM 2.0 + PIN in slot "@, seq![]),
        LoanTask::EnrollTpm2Fido2 => ("enrolled fused TPM+FIDO2 in slot "@, seq![]),
        LoanTask::EnrollHybridPqTpm2 => ("enrolled hybrid TPM + ML-KEM in slot "@, seq![]),
        LoanTask::EnrollHybridPqTpm2Fido2 => (
            "enrolled 3-factor TPM+FIDO2+ML-KEM in slot "@,
            seq![],
        ),
    };
    let a = lead + decimal(m as nat) + tail;
    let b = lead + decimal(n as nat) + tail;
    assert(loan_text(task, m) =~= a);
    assert(loan_text(task, n) =~= b);
    assert(decimal(m as nat) =~= a.subrange(lead.len() as int, a.len() - tail.len()));
    assert(decimal(n as nat) =~= b.subrange(lead.len() as int, b.len() - tail.len()));
    law_decimal_tells_numbers_apart(m as nat, n as nat);
}

/// A message stays for five seconds.
pub proof fn law_messages_stay_five_seconds(t: Toast, age_ms: u64)
    requires
        t.born_ms + age_ms <= u64::MAX,
    ensures
        t.visible((t.born_ms + age_ms) as u64) <==> age_ms < 5000,
{
}

/// The entry for a vault just opened says where it and its files are, when it was
/// opened, and what protects it.
pub proof fn law_opened_vault_is_remembered(v: OpenedVault, now: i64, r: RecentVault)
    requires
        remembers(v, now, r),
    ensures
        r.path@ == v.vault_path@,
        r.header_path is Some <==> v.header_path is Some,
        r.header_path is Some ==> r.header_path->0@ == v.header_path->0@,
        r.anchor_path is Some <==> v.anchor_path is Some,
        r.anchor_path is Some ==> r.anchor_path->0@ == v.anchor_path->0@,
        r.last_opened == Some(now),
        r.cipher@ == v.cipher_label@,
        r.has_fido2 == v.has_fido2,
        r.has_hybrid_pq == v.has_hybrid_pq,
        r.has_tpm == v.has_tpm,
{
}

/// Whether a slot of one of these kinds is there.
pub open spec fn has_authenticator_slot(slots: Seq<SlotFacts>) -> bool {
    exists|i: int|
        0 <= i < slots.len() && match (#[trigger] slots[i]).kind {
            SlotKind::Fido2HmacSecret
            | SlotKind::Fido2DerivedMvk
            | SlotKind::HybridPqKemFido2
            | SlotKind::HybridPqKem1024Fido2 => true,
            _ => false,
        }
}

/// A header shows an authenticator, ML-KEM or a TPM exactly if one of its slots
/// has it.
pub proof fn law_header_shows_what_its_slots_have(slots: Seq<SlotFacts>)
    ensures
        header_flags(slots).has_fido2 <==> has_authenticator_slot(slots),
        header_flags(slots).has_hybrid_pq <==> exists|i: int|
            0 <= i < slots.len() && (#[trigger] slots[i]).hybrid_pq,
        header_flags(slots).has_tpm <==> exists|i: int|
            0 <= i < slots.len() && (#[trigger] slots[i]).tpm2,
{
    if has_authenticator_slot(slots) {
        let i = choose|i: int|
            0 <= i < slots.len() && match (#[trigger] slots[i]).kind {
                SlotKind::Fido2HmacSecret
                | SlotKind::Fido2DerivedMvk
                | SlotKind::HybridPqKemFido2
                | SlotKind::HybridPqKem1024Fido2 => true,
                _ => false,
            };
        assert(crate::slots::is_fido2_kind(slots[i].kind));
    }
    if header_flags(slots).has_fido2 {
        let i = choose|i: int|
            0 <= i < slots.len() && crate::slots::is_fido2_kind((#[trigger] slots[i]).kind);
        assert(slots[i].kind == slots[i].kind);
    }
}

/// A vault that was opened shows what its header shows. Where a TPM slot was just
/// added it shows a TPM besides; a deniable vault, whose header says nothing,
/// shows what it was just created with, and nothing if it was unlocked.
pub proof fn law_opened_vault_shows_what_protects_it(by: OpenedBy, slots: Seq<SlotFacts>)
    ensures
        ({
            let f = opened_flags(by, slots);
            let h = header_flags(slots);
            &&& by is Header || by is TpmOnly || by is TpmBootstrap ==> f.has_fido2 == h.has_fido2
                && f.has_hybrid_pq == h.has_hybrid_pq
            &&& by is Header ==> f.has_tpm == h.has_tpm
            &&& by is TpmBootstrap ==> f.has_tpm
            &&& by matches OpenedBy::TpmOnly { deniable } ==> f.has_tpm == (h.has_tpm || deniable)
            &&& by matches OpenedBy::TpmDeniable { kind } ==> {
                &&& f.has_tpm && !f.has_fido2
                &&& f.has_hybrid_pq <==> match kind {
                    TpmBootstrapKind::HybridPqTpm2 { .. } => true,
                    TpmBootstrapKind::HybridPqTpm2Fido2 { .. } => true,
                    _ => false,
                }
            }
            &&& by matches OpenedBy::SepDeniable { kind } ==> {
                &&& !f.has_tpm
                &&& f.has_fido2 <==> kind is SepFused
                &&& f.has_hybrid_pq <==> match kind {
                    SepBootstrapKind::HybridPqSep { .. } => true,
                    SepBootstrapKind::SepFused { kem_size, .. } => kem_size is Some,
                    _ => false,
                }
            }
            &&& by is SepOnly || by is DeniableUnlock ==> !f.has_fido2 && !f.has_hybrid_pq
                && !f.has_tpm
        }),
{
}

/// Different ciphers are shown differently, and a vault that was unlocked in
/// deniable mode says so.
pub proof fn law_ciphers_are_told_apart(by: OpenedBy, a: CipherSuite, b: CipherSuite)
    ensures
        opened_cipher_text(by, a) == opened_cipher_text(by, b) ==> a == b,
        by is DeniableUnlock ==> " (deniable)"@ == opened_cipher_text(by, a).skip(
            opened_cipher_text(by, a).len() - " (deniable)"@.len(),
        ),
{
    reveal_strlit("Aes256Gcm");
    reveal_strlit("Aes256GcmSiv");
    reveal_strlit("ChaCha20Poly1305");
    reveal_strlit("AES-256-GCM");
    reveal_strlit("AES-256-GCM-SIV");
    reveal_strlit("ChaCha20-Poly1305");
    reveal_strlit(" (deniable)");
    let x = opened_cipher_text(by, a);
    let y = opened_cipher_text(by, b);
    if by is DeniableUnlock {
        assert(x.skip(x.len() - 11) =~= " (deniable)"@);
    }
    if a != b {
        assert(x.len() != y.len() || x[0] != y[0]);
    }
}

/// The recovery report has one line for each file that was passed over, in order,
/// which begins with its path.
pub proof fn law_report_names_every_file(passed: Seq<ToleratedInode>)
    ensures
        report_of(passed).len() == passed.len(),
        forall|i: int|
            0 <= i < passed.len() ==> (#[trigger] passed[i]).path@.is_prefix_of(
                report_of(passed)[i],
            ),
        forall|i: int|
            0 <= i < passed.len() ==> report_of(passed)[i].skip(
                (#[trigger] passed[i]).path@.len() as int,
            ) == " ("@ + size_text(passed[i].original_size as nat) + ")"@,
{
    assert forall|i: int| 0 <= i < passed.len() implies report_of(passed)[i].skip(
        (#[trigger] passed[i]).path@.len() as int,
    ) == " ("@ + size_text(passed[i].original_size as nat) + ")"@ by {
        let p = passed[i].path@;
        let size = " ("@ + size_text(passed[i].original_size as nat) + ")"@;
        assert(report_of(passed)[i] =~= p + size);
        assert((p + size).skip(p.len() as int) =~= size);
    }
    assert forall|i: int| 0 <= i < passed.len() implies (#[trigger] passed[i]).path@.is_prefix_of(
        report_of(passed)[i],
    ) by {
        let p = passed[i].path@;
        let line = report_of(passed)[i];
        assert(line.take(p.len() as int) =~= p);
    }
}

/// A notice alone leaves the listing, the list of recent vaults and the forms as
/// they are.
pub proof fn law_notice_changes_nothing_else(a: Aftermath, kind: ToastKind, text: Seq<char>)
    requires
        only_notice(a, kind, text),
    ensures
        a.notice.kind == kind,
        a.notice.text@ == text,
        !a.refresh,
        a.remember is None,
        a.reset == FormReset::Keep,
{
}

} // verus!
