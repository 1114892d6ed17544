//! What holds of the words that the user reads: how they are put together from
//! what they name.

use crate::clock::timestamp_spec;
use crate::forms::{CreateForm, same_but_taken};
use crate::kinds::{
    KdfStrength, PqParams, SlotKindArg, TargetOs, UnlockMethod, kdf_label_text, pq_params_text,
    unlock_method_text,
};
use crate::offers::method_label_text;
use crate::paths::{home_prefix, usb_prefix};
use crate::recent::RecentVault;
use crate::requests::{
    CreateOpts, UnlockOpts, bool_text, create_debug_text, create_kind_text, redacted,
    unlock_debug_text,
};
use crate::session::{
    LoanTask, OpenTask, Pending, auth_verb_text, loan_crash_text, loan_text, open_crash_text,
    opened_text,
};
use crate::slot_laws::{law_hex_stands_for_the_bytes, stand_for};
use crate::slots::{RevokeConfirm, credential_text, hex, revoke_question_text, revoke_text};
use crate::strength::{Strength, is_strongest, strength_text};
use crate::text::{decimal, texts};
use crate::text_laws::law_decimal_tells_numbers_apart;
use crate::unlock_deniable::{anchor_mismatch_text, no_entry_text};
use crate::unlock_form::{first_mark, picked_entry};
use crate::unlock_search::{decap_level_text, open_slot_text};
use crate::unlock_sep::{fido2_slot_text, no_shared_text};
use crate::form_laws::law_first_mark_is_first;
use vstd::prelude::*;

verus! {

/// Whether a text begins with another.
pub open spec fn begins(t: Seq<char>, lead: Seq<char>) -> bool {
    lead.len() <= t.len() && t.take(lead.len() as int) == lead
}

/// Whether a text ends with another.
pub open spec fn ends(t: Seq<char>, tail: Seq<char>) -> bool {
    tail.len() <= t.len() && t.skip(t.len() - tail.len()) == tail
}

/// The two ends of the scale are the words beside them, made stronger.
pub proof fn law_strength_words_make_a_scale(score: u8)
    ensures
        strength_text(0) == "very "@ + strength_text(1),
        strength_text(1) == "weak"@,
        strength_text(2) == "okay"@,
        strength_text(3) == "strong"@,
        score >= 4 ==> strength_text(score) == "very "@ + strength_text(3),
{
    reveal_strlit("very ");
    reveal_strlit("weak");
    reveal_strlit("strong");
    reveal_strlit("very weak");
    reveal_strlit("very strong");
    assert(strength_text(0) =~= "very "@ + strength_text(1));
    assert("very strong"@ =~= "very "@ + strength_text(3));
}

/// The estimate shown is one of those made, none is stronger, and it is settled
/// by the list alone.
pub proof fn law_no_estimate_is_stronger(list: Seq<Strength>, r: Strength, t: Strength)
    requires
        is_strongest(list, r),
    ensures
        list.contains(r),
        list.contains(t) ==> t.guesses <= r.guesses,
        is_strongest(list, t) ==> t == r,
{
    let i = choose|i: int|
        {
            &&& 0 <= i < list.len()
            &&& #[trigger] list[i] == r
            &&& forall|j: int| 0 <= j < list.len() ==> (#[trigger] list[j]).guesses <= r.guesses
            &&& forall|j: int| 0 <= j < i ==> (#[trigger] list[j]).guesses < r.guesses
        };
    assert(list[i] == r);
    if is_strongest(list, t) {
        let k = choose|k: int|
            {
                &&& 0 <= k < list.len()
                &&& #[trigger] list[k] == t
                &&& forall|j: int|
                    0 <= j < list.len() ==> (#[trigger] list[j]).guesses <= t.guesses
                &&& forall|j: int| 0 <= j < k ==> (#[trigger] list[j]).guesses < t.guesses
            };
        assert(list[k] == t);
        assert(list[i].guesses <= t.guesses && list[k].guesses <= r.guesses);
    }
}

/// The examples are absolute paths of a directory, written as the system writes
/// them.
pub proof fn law_examples_are_directories(os: TargetOs)
    ensures
        ({
            let separator = if os == TargetOs::Windows {
                '\\'
            } else {
                '/'
            };
            let home = home_prefix(os);
            let usb = usb_prefix(os);
            &&& home.len() > 0 && home.last() == separator
            &&& usb.len() > 0 && usb.last() == separator
            &&& os != TargetOs::Windows ==> home[0] == '/' && usb[0] == '/'
            &&& os == TargetOs::Windows ==> begins(home, "C:\\"@) && usb == "D:\\"@
            &&& os == TargetOs::Macos ==> begins(home, "/Users/"@) && begins(usb, "/Volumes/"@)
            &&& os != TargetOs::Windows && os != TargetOs::Macos ==> begins(home, "/home/"@)
                && begins(usb, "/media/"@)
        }),
{
    reveal_strlit("C:\\Users\\you\\");
    reveal_strlit("/Users/you/");
    reveal_strlit("/home/you/");
    reveal_strlit("D:\\");
    reveal_strlit("/Volumes/USB/");
    reveal_strlit("/media/usb/");
    reveal_strlit("C:\\");
    reveal_strlit("/Users/");
    reveal_strlit("/home/");
    reveal_strlit("/Volumes/");
    reveal_strlit("/media/");
    assert("C:\\Users\\you\\"@.take(3) =~= "C:\\"@);
    assert("/Users/you/"@.take(7) =~= "/Users/"@);
    assert("/home/you/"@.take(6) =~= "/home/"@);
    assert("/Volumes/USB/"@.take(9) =~= "/Volumes/"@);
    assert("/media/usb/"@.take(7) =~= "/media/"@);
}

/// The line of a credential shows its first eight bytes, or all of fewer, two
/// digits each, and then how many there are.
pub proof fn law_credential_line_shows_eight_bytes(id: Seq<u8>)
    ensures
        ({
            let n = if id.len() < 8 {
                id.len() as int
            } else {
                8
            };
            let t = credential_text(id);
            &&& begins(t, "cred_id "@)
            &&& t.skip("cred_id "@.len() + 2 * n) == "...  ("@ + decimal(id.len()) + " B)"@
            &&& forall|i: int|
                #![trigger id[i]]
                0 <= i < n ==> stand_for(
                    t["cred_id "@.len() + 2 * i],
                    t["cred_id "@.len() + 2 * i + 1],
                    id[i],
                )
        }),
{
    let n = if id.len() < 8 {
        id.len() as int
    } else {
        8
    };
    let t = credential_text(id);
    let lead = "cred_id "@;
    let first = id.take(n);
    assert(id.len() <= 8 ==> first =~= id);
    let tail = "...  ("@ + decimal(id.len()) + " B)"@;
    law_hex_stands_for_the_bytes(first);
    assert(t =~= lead + hex(first) + tail);
    assert(t.take(lead.len() as int) =~= lead);
    assert(t.skip(lead.len() + 2 * n) =~= tail);
    assert forall|i: int| #![trigger id[i]] 0 <= i < n implies stand_for(
        t[lead.len() + 2 * i],
        t[lead.len() + 2 * i + 1],
        id[i],
    ) by {
        assert(first[i] == id[i]);
        assert(t[lead.len() + 2 * i] == hex(first)[2 * i]);
        assert(t[lead.len() + 2 * i + 1] == hex(first)[2 * i + 1]);
    }
}

/// The question names the credential that goes, and then its slot.
pub proof fn law_question_names_the_slot(c: RevokeConfirm)
    ensures
        begins(
            revoke_question_text(c),
            "This will permanently delete the "@ + revoke_text(c.slot_kind)
                + " credential in slot "@ + decimal(c.slot_idx as nat) + "."@,
        ),
{
    let lead = "This will permanently delete the "@ + revoke_text(c.slot_kind)
        + " credential in slot "@ + decimal(c.slot_idx as nat);
    let rest = ". The wrapped master key for that credential is overwritten and cannot be recovered, so the passphrase / authenticator that unlocked this slot will no longer open the vault."@;
    reveal_strlit(".");
    reveal_strlit(
        ". The wrapped master key for that credential is overwritten and cannot be recovered, so the passphrase / authenticator that unlocked this slot will no longer open the vault.",
    );
    let whole = lead + "."@;
    assert(revoke_question_text(c) =~= lead + rest);
    assert(revoke_question_text(c).take(whole.len() as int) =~= whole);
}

/// The message on an anchor that does not fit names its file first and ends with
/// the error underneath.
pub proof fn law_anchor_message_names_the_file(path: Seq<char>, error: Seq<char>)
    ensures
        begins(
            anchor_mismatch_text(path, error),
            "Anchor verification failed for "@ + path + ": "@,
        ),
        ends(anchor_mismatch_text(path, error), "(underlying error: "@ + error + ")"@),
{
    let lead = "Anchor verification failed for "@ + path;
    let middle = ": the file is the right size but does not decrypt under this vault's master key. Likely causes: anchor belongs to a different vault, was exported with different cipher/KDF parameters, or has been tampered with. Re-export the anchor from this vault, or open without an anchor (skips rollback detection). (underlying error: "@;
    let t = anchor_mismatch_text(path, error);
    reveal_strlit(": ");
    reveal_strlit("(underlying error: ");
    reveal_strlit(
        ": the file is the right size but does not decrypt under this vault's master key. Likely causes: anchor belongs to a different vault, was exported with different cipher/KDF parameters, or has been tampered with. Re-export the anchor from this vault, or open without an anchor (skips rollback detection). (underlying error: ",
    );
    assert(t =~= lead + middle + error + ")"@);
    let head = lead + ": "@;
    assert(t.take(head.len() as int) =~= head);
    let tail = "(underlying error: "@ + error + ")"@;
    assert(t.skip(t.len() - tail.len()) =~= tail);
}

/// What is said of a task that worked begins with what was done, and that of a
/// keyslot ends with its number.
pub proof fn law_loan_text_says_what_was_done(task: LoanTask, n: u64)
    ensures
        task matches LoanTask::PutFile { name } ==> begins(
            loan_text(task, n),
            "added "@ + name@ + " ("@ + decimal(n as nat),
        ),
        task is GetFile ==> begins(loan_text(task, n), "extracted "@ + decimal(n as nat)),
        !(task is PutFile || task is GetFile) ==> begins(loan_text(task, n), "enrolled "@) && ends(
            loan_text(task, n),
            " in slot "@ + decimal(n as nat),
        ),
{
    let t = loan_text(task, n);
    let d = decimal(n as nat);
    reveal_strlit("enrolled ");
    reveal_strlit(" in slot ");
    reveal_strlit("enrolled passphrase in slot ");
    reveal_strlit("enrolled FIDO2 in slot ");
    reveal_strlit("enrolled TPM 2.0 in slot ");
    reveal_strlit("enrolled TPM 2.0 + PIN in slot ");
    reveal_strlit("enrolled fused TPM+FIDO2 in slot ");
    reveal_strlit("enrolled hybrid TPM + ML-KEM in slot ");
    reveal_strlit("enrolled 3-factor TPM+FIDO2+ML-KEM in slot ");
    match task {
        LoanTask::PutFile { name } => {
            let lead = "added "@ + name@ + " ("@ + d;
            assert(t.take(lead.len() as int) =~= lead);
        },
        LoanTask::GetFile => {
            let lead = "extracted "@ + d;
            assert(t.take(lead.len() as int) =~= lead);
        },
        _ => {
            let tail = " in slot "@ + d;
            assert(t.take(9) =~= "enrolled "@);
            assert(t.skip(t.len() - tail.len()) =~= tail);
        },
    }
}

/// Each kind of keyslot is named by the devices that it binds when it has been
/// enrolled.
pub proof fn law_enrolled_slot_is_named(n: u64)
    ensures
        ({
            let slot = " in slot "@ + decimal(n as nat);
            &&& loan_text(LoanTask::EnrollPassphrase, n) == "enrolled passphrase"@ + slot
            &&& loan_text(LoanTask::EnrollFido2, n) == "enrolled FIDO2"@ + slot
            &&& loan_text(LoanTask::EnrollTpm2, n) == "enrolled TPM 2.0"@ + slot
            &&& loan_text(LoanTask::EnrollTpm2Pin, n) == "enrolled TPM 2.0"@ + " + PIN"@ + slot
            &&& loan_text(LoanTask::EnrollTpm2Fido2, n) == "enrolled fused "@ + "TPM+FIDO2"@ + slot
            &&& loan_text(LoanTask::EnrollHybridPqTpm2, n) == "enrolled hybrid "@
                + "TPM + ML-KEM"@ + slot
            &&& loan_text(LoanTask::EnrollHybridPqTpm2Fido2, n) == "enrolled 3-factor "@
                + "TPM+FIDO2"@ + "+ML-KEM"@ + slot
        }),
{
    reveal_strlit(" in slot ");
    reveal_strlit(" + PIN");
    reveal_strlit("TPM+FIDO2");
    reveal_strlit("TPM + ML-KEM");
    reveal_strlit("+ML-KEM");
    reveal_strlit("enrolled passphrase");
    reveal_strlit("enrolled FIDO2");
    reveal_strlit("enrolled TPM 2.0");
    reveal_strlit("enrolled fused ");
    reveal_strlit("enrolled hybrid ");
    reveal_strlit("enrolled 3-factor ");
    reveal_strlit("enrolled passphrase in slot ");
    reveal_strlit("enrolled FIDO2 in slot ");
    reveal_strlit("enrolled TPM 2.0 in slot ");
    reveal_strlit("enrolled TPM 2.0 + PIN in slot ");
    reveal_strlit("enrolled fused TPM+FIDO2 in slot ");
    reveal_strlit("enrolled hybrid TPM + ML-KEM in slot ");
    reveal_strlit("enrolled 3-factor TPM+FIDO2+ML-KEM in slot ");
    let slot = " in slot "@ + decimal(n as nat);
    assert("enrolled passphrase in slot "@ =~= "enrolled passphrase"@ + " in slot "@);
    assert(loan_text(LoanTask::EnrollPassphrase, n) =~= "enrolled passphrase"@ + slot);
    assert("enrolled FIDO2 in slot "@ =~= "enrolled FIDO2"@ + " in slot "@);
    assert(loan_text(LoanTask::EnrollFido2, n) =~= "enrolled FIDO2"@ + slot);
    assert("enrolled TPM 2.0 in slot "@ =~= "enrolled TPM 2.0"@ + " in slot "@);
    assert(loan_text(LoanTask::EnrollTpm2, n) =~= "enrolled TPM 2.0"@ + slot);
    assert("enrolled TPM 2.0 + PIN in slot "@ =~= "enrolled TPM 2.0"@ + " + PIN"@ + " in slot "@);
    assert(loan_text(LoanTask::EnrollTpm2Pin, n) =~= "enrolled TPM 2.0"@ + " + PIN"@ + slot);
    assert("enrolled fused TPM+FIDO2 in slot "@ =~= "enrolled fused "@ + "TPM+FIDO2"@
        + " in slot "@);
    assert(loan_text(LoanTask::EnrollTpm2Fido2, n) =~= "enrolled fused "@ + "TPM+FIDO2"@ + slot);
    assert("enrolled hybrid TPM + ML-KEM in slot "@ =~= "enrolled hybrid "@ + "TPM + ML-KEM"@
        + " in slot "@);
    assert(loan_text(LoanTask::EnrollHybridPqTpm2, n) =~= "enrolled hybrid "@ + "TPM + ML-KEM"@
        + slot);
    assert("enrolled 3-factor TPM+FIDO2+ML-KEM in slot "@ =~= "enrolled 3-factor "@
        + "TPM+FIDO2"@ + "+ML-KEM"@ + " in slot "@);
    assert(loan_text(LoanTask::EnrollHybridPqTpm2Fido2, n) =~= "enrolled 3-factor "@
        + "TPM+FIDO2"@ + "+ML-KEM"@ + slot);
}

/// What is said of a task that crashed names the task and says that it crashed;
/// the name tells an enrollment from a copy.
pub proof fn law_crash_names_the_task(loan: LoanTask, open: OpenTask)
    ensures
        ends(loan_crash_text(loan), " task crashed"@),
        loan is PutFile ==> begins(loan_crash_text(loan), "put "@),
        loan is GetFile ==> begins(loan_crash_text(loan), "get "@),
        !(loan is PutFile || loan is GetFile) ==> ends(
            loan_crash_text(loan),
            "enroll task crashed"@,
        ),
        loan is EnrollTpm2Pin ==> begins(loan_crash_text(loan), "TPM+PIN "@),
        loan is EnrollTpm2Fido2 ==> begins(loan_crash_text(loan), "TPM+FIDO2 "@),
        loan is EnrollTpm2 ==> begins(loan_crash_text(loan), "TPM "@),
        loan is EnrollHybridPqTpm2 ==> begins(loan_crash_text(loan), "hybrid-PQ-TPM "@),
        loan is EnrollHybridPqTpm2Fido2 ==> begins(loan_crash_text(loan), "3-factor "@),
        ends(open_crash_text(open), " task crashed"@),
        open is Create ==> begins(open_crash_text(open), "create "@),
        open is Unlock ==> begins(open_crash_text(open), "unlock "@),
        open is CreateWithTpmBootstrap ==> begins(open_crash_text(open), "TPM bootstrap "@),
{
    reveal_strlit(" task crashed");
    reveal_strlit("enroll task crashed");
    reveal_strlit("put ");
    reveal_strlit("get ");
    reveal_strlit("TPM ");
    reveal_strlit("TPM+PIN ");
    reveal_strlit("TPM+FIDO2 ");
    reveal_strlit("hybrid-PQ-TPM ");
    reveal_strlit("3-factor ");
    reveal_strlit("create ");
    reveal_strlit("unlock ");
    reveal_strlit("TPM bootstrap ");
    reveal_strlit("put task crashed");
    reveal_strlit("get task crashed");
    reveal_strlit("TPM enroll task crashed");
    reveal_strlit("TPM+PIN enroll task crashed");
    reveal_strlit("TPM+FIDO2 enroll task crashed");
    reveal_strlit("hybrid-PQ-TPM enroll task crashed");
    reveal_strlit("3-factor enroll task crashed");
    reveal_strlit("create task crashed");
    reveal_strlit("unlock task crashed");
    reveal_strlit("TPM bootstrap task crashed");
    let t = loan_crash_text(loan);
    let u = open_crash_text(open);
    assert(t.skip(t.len() - 13) =~= " task crashed"@);
    assert(u.skip(u.len() - 13) =~= " task crashed"@);
    match loan {
        LoanTask::PutFile { .. } => {
            assert(t.take(4) =~= "put "@);
        },
        LoanTask::GetFile => {
            assert(t.take(4) =~= "get "@);
        },
        _ => {
            assert(t.skip(t.len() - 19) =~= "enroll task crashed"@);
        },
    }
    assert(loan is EnrollTpm2 ==> t.take(4) =~= "TPM "@);
    assert(loan is EnrollTpm2Pin ==> t.take(8) =~= "TPM+PIN "@);
    assert(loan is EnrollTpm2Fido2 ==> t.take(10) =~= "TPM+FIDO2 "@);
    assert(loan is EnrollHybridPqTpm2 ==> t.take(14) =~= "hybrid-PQ-TPM "@);
    assert(loan is EnrollHybridPqTpm2Fido2 ==> t.take(9) =~= "3-factor "@);
    match open {
        OpenTask::Create => {
            assert(u.take(7) =~= "create "@);
        },
        OpenTask::Unlock => {
            assert(u.take(7) =~= "unlock "@);
        },
        OpenTask::CreateWithTpmBootstrap => {
            assert(u.take(14) =~= "TPM bootstrap "@);
        },
    }
}

/// What is said of a vault that was opened tells a new one from one that was
/// there, and names the TPM where one was bound.
pub proof fn law_opened_text_tells_how(task: OpenTask)
    ensures
        task is Unlock ==> opened_text(task) == "vault "@ + "unlocked"@,
        task is Create ==> opened_text(task) == "vault "@ + "created"@,
        task is CreateWithTpmBootstrap ==> opened_text(task) == "vault "@ + "created"@
            + " with TPM keyslot"@,
{
    reveal_strlit("vault ");
    reveal_strlit("unlocked");
    reveal_strlit("created");
    reveal_strlit(" with TPM keyslot");
    reveal_strlit("vault created");
    reveal_strlit("vault unlocked");
    reveal_strlit("vault created with TPM keyslot");
}

/// The name of a strength of derivation comes before what it costs.
pub proof fn law_strengths_of_derivation_are_named(k: KdfStrength)
    ensures
        begins(
            kdf_label_text(k),
            match k {
                KdfStrength::Interactive => "Interactive, 256 MiB"@,
                KdfStrength::Moderate => "Moderate, 512 MiB"@,
                KdfStrength::Sensitive => "Sensitive, 1 GiB"@,
            },
        ),
{
    reveal_strlit("Interactive, 256 MiB");
    reveal_strlit("Moderate, 512 MiB");
    reveal_strlit("Sensitive, 1 GiB");
    reveal_strlit("Interactive, 256 MiB / 3 iter (about 500 ms)");
    reveal_strlit("Moderate, 512 MiB / 4 iter (about 1.5 s)");
    reveal_strlit("Sensitive, 1 GiB / 5 iter (about 3-4 s)");
    assert("Interactive, 256 MiB / 3 iter (about 500 ms)"@.take(20) =~= "Interactive, 256 MiB"@);
    assert("Moderate, 512 MiB / 4 iter (about 1.5 s)"@.take(17) =~= "Moderate, 512 MiB"@);
    assert("Sensitive, 1 GiB / 5 iter (about 3-4 s)"@.take(16) =~= "Sensitive, 1 GiB"@);
}

/// The name of a method in the unlock form begins with the factors that the
/// method combines, and goes on in brackets.
pub proof fn law_methods_are_named_by_their_factors(m: UnlockMethod)
    requires
        !(m is Sep || m is HybridPqSep || m is SepFido2 || m is HybridPqSepFido2),
    ensures
        ({
            let lead = match m {
                UnlockMethod::Passphrase => "Passphrase"@,
                UnlockMethod::Fido2 => "FIDO2 authenticator"@,
                UnlockMethod::HybridPq => "Hybrid passphrase"@ + " + ML-KEM"@,
                UnlockMethod::HybridPqFido2 => "Hybrid FIDO2"@ + " + ML-KEM"@,
                UnlockMethod::Tpm2 => "TPM 2.0"@,
                UnlockMethod::Tpm2Pin => "TPM 2.0"@ + " + PIN"@,
                UnlockMethod::Tpm2Fido2 => "TPM 2.0"@ + " + FIDO2"@,
                UnlockMethod::HybridPqTpm2 => "Hybrid TPM 2.0"@ + " + ML-KEM"@,
                _ => "Hybrid TPM 2.0"@ + " + FIDO2"@ + " + ML-KEM"@,
            };
            &&& begins(method_label_text(m), lead)
            &&& m is Passphrase ==> method_label_text(m) == lead
            &&& !(m is Passphrase) ==> begins(method_label_text(m), lead + " ("@)
        }),
{
    reveal_strlit(" (");
    reveal_strlit(" + ML-KEM");
    reveal_strlit(" + PIN");
    reveal_strlit(" + FIDO2");
    reveal_strlit("Passphrase");
    reveal_strlit("FIDO2 authenticator");
    reveal_strlit("Hybrid passphrase");
    reveal_strlit("Hybrid FIDO2");
    reveal_strlit("TPM 2.0");
    reveal_strlit("Hybrid TPM 2.0");
    reveal_strlit("FIDO2 authenticator (passphrase backup)");
    reveal_strlit("Hybrid passphrase + ML-KEM (post-quantum)");
    reveal_strlit("Hybrid FIDO2 + ML-KEM (post-quantum, authenticator + .kyber)");
    reveal_strlit("TPM 2.0 (this machine, no passphrase)");
    reveal_strlit("TPM 2.0 + PIN (this machine + memorised PIN)");
    reveal_strlit("TPM 2.0 + FIDO2 (this machine AND this authenticator)");
    reveal_strlit("Hybrid TPM 2.0 + ML-KEM (PQ + machine-bound)");
    reveal_strlit("Hybrid TPM 2.0 + FIDO2 + ML-KEM (3 factors)");
    let lead = match m {
        UnlockMethod::Passphrase => "Passphrase"@,
        UnlockMethod::Fido2 => "FIDO2 authenticator"@,
        UnlockMethod::HybridPq => "Hybrid passphrase"@ + " + ML-KEM"@,
        UnlockMethod::HybridPqFido2 => "Hybrid FIDO2"@ + " + ML-KEM"@,
        UnlockMethod::Tpm2 => "TPM 2.0"@,
        UnlockMethod::Tpm2Pin => "TPM 2.0"@ + " + PIN"@,
        UnlockMethod::Tpm2Fido2 => "TPM 2.0"@ + " + FIDO2"@,
        UnlockMethod::HybridPqTpm2 => "Hybrid TPM 2.0"@ + " + ML-KEM"@,
        _ => "Hybrid TPM 2.0"@ + " + FIDO2"@ + " + ML-KEM"@,
    };
    let t = method_label_text(m);
    assert(t.take(lead.len() as int) =~= lead);
    if !(m is Passphrase) {
        let whole = lead + " ("@;
        assert(t.take(whole.len() as int) =~= whole);
    } else {
        assert(t =~= lead);
    }
}

/// A time is the number of seconds since the epoch, and none before it.
pub proof fn law_time_counts_from_the_epoch(s: u64)
    requires
        s <= i64::MAX,
    ensures
        timestamp_spec(Some(s)) == s,
        timestamp_spec(None) == 0,
{
}

/// An entry for a vault that the user picked is what the first entry of the list
/// that is marked says, or blank if none is; it counts as never opened.
pub proof fn law_picked_vault_is_the_first_that_is_marked(
    list: Seq<RecentVault>,
    same: Seq<bool>,
    path: Seq<char>,
    e: RecentVault,
    i: int,
)
    requires
        picked_entry(list, same, path, e),
        same.len() == list.len(),
    ensures
        e.path@ == path,
        e.last_opened is None,
        0 <= i < list.len() && same[i] && (forall|k: int| 0 <= k < i ==> !(#[trigger] same[k]))
            ==> {
            let known = list[i];
            &&& e.cipher@ == known.cipher@
            &&& e.has_fido2 == known.has_fido2 && e.has_hybrid_pq == known.has_hybrid_pq
            &&& e.has_tpm == known.has_tpm
            &&& e.header_path is Some <==> known.header_path is Some
            &&& e.header_path is Some ==> e.header_path->0@ == known.header_path->0@
            &&& e.anchor_path is Some <==> known.anchor_path is Some
            &&& e.anchor_path is Some ==> e.anchor_path->0@ == known.anchor_path->0@
        },
        (forall|k: int| 0 <= k < same.len() ==> !(#[trigger] same[k])) ==> e.header_path is None
            && e.anchor_path is None && e.cipher@.len() == 0 && !e.has_fido2 && !e.has_hybrid_pq
            && !e.has_tpm,
{
    law_first_mark_is_first(same, 0);
    match first_mark(same, 0) {
        Some(j) => {
            if 0 <= i < list.len() && same[i] && (forall|k: int| 0 <= k < i ==> !(#[trigger] same[k])) {
                assert(i == j);
            }
        },
        None => {},
    }
}

/// A secret that was taken is gone from the form, one that was not stays, and so
/// does everything else.
pub proof fn law_only_taken_secrets_leave_the_form(
    before: CreateForm,
    after: CreateForm,
    passphrase: bool,
    backup: bool,
    pin: bool,
    seed: bool,
)
    requires
        same_but_taken(before, after, passphrase, backup, pin, seed),
    ensures
        if passphrase {
            after.passphrase@.len() == 0
        } else {
            after.passphrase == before.passphrase
        },
        if backup {
            after.backup_passphrase@.len() == 0
        } else {
            after.backup_passphrase == before.backup_passphrase
        },
        if pin {
            after.pin@.len() == 0
        } else {
            after.pin == before.pin
        },
        if seed {
            after.hybrid_seed_pw@.len() == 0
        } else {
            after.hybrid_seed_pw == before.hybrid_seed_pw
        },
        !passphrase && !backup && !pin && !seed ==> after == before,
{
}

/// The texts of a list are those of its entries, one for one.
pub proof fn law_texts_are_those_of_the_entries(v: Seq<String>, i: int)
    ensures
        texts(v).len() == v.len(),
        0 <= i < v.len() ==> texts(v)[i] == v[i]@,
{
}

/// What stands between the same words can be read off them.
proof fn lemma_between(lead: Seq<char>, x: Seq<char>, y: Seq<char>, tail: Seq<char>)
    requires
        lead + x + tail == lead + y + tail,
    ensures
        x == y,
{
    let a = lead + x + tail;
    let b = lead + y + tail;
    assert(a.len() == b.len());
    assert(x =~= a.subrange(lead.len() as int, a.len() - tail.len()));
    assert(y =~= b.subrange(lead.len() as int, b.len() - tail.len()));
}

/// What is said of a slot tells which one it is.
pub proof fn law_messages_tell_the_slot(i: u8, j: u8, level: PqParams)
    ensures
        no_entry_text(i) == no_entry_text(j) ==> i == j,
        fido2_slot_text(i as int) == fido2_slot_text(j as int) ==> i == j,
        no_shared_text(i as int) == no_shared_text(j as int) ==> i == j,
        open_slot_text(i as int) == open_slot_text(j as int) ==> i == j,
        decap_level_text(i as int, level) == decap_level_text(j as int, level) ==> i == j,
{
    let (a, b) = (decimal(i as nat), decimal(j as nat));
    let none = Seq::<char>::empty();
    if no_entry_text(i) == no_entry_text(j) {
        lemma_between(
            "no .hybrid sidecar entry for slot "@,
            a,
            b,
            " (the deniable header resolved this slot but the matching ML-KEM (pk, ct) pair is missing from the sidecar)"@,
        );
    }
    if fido2_slot_text(i as int) == fido2_slot_text(j as int) {
        lemma_between("FIDO2 slot "@, a, b, ": "@);
    }
    if no_shared_text(i as int) == no_shared_text(j as int) {
        let lead = "no ML-KEM shared secret for slot "@;
        assert(lead + a + none =~= no_shared_text(i as int));
        assert(lead + b + none =~= no_shared_text(j as int));
        lemma_between(lead, a, b, none);
    }
    if open_slot_text(i as int) == open_slot_text(j as int) {
        lemma_between("open slot "@, a, b, ": "@);
    }
    if decap_level_text(i as int, level) == decap_level_text(j as int, level) {
        let lead = "decap slot "@;
        let tail = " ("@ + pq_params_text(level) + "): "@;
        assert(lead + a + tail =~= decap_level_text(i as int, level));
        assert(lead + b + tail =~= decap_level_text(j as int, level));
        lemma_between(lead, a, b, tail);
    }
    if a == b {
        law_decimal_tells_numbers_apart(i as nat, j as nat);
    }
}

/// Whether a text has no comma.
pub open spec fn has_no_comma(t: Seq<char>) -> bool {
    forall|i: int| 0 <= i < t.len() ==> #[trigger] t[i] != ','
}

/// Words without a comma end where one begins.
proof fn lemma_up_to_the_comma(x: Seq<char>, y: Seq<char>, s: Seq<char>, t: Seq<char>)
    requires
        x + s == y + t,
        has_no_comma(x),
        has_no_comma(y),
        s.len() > 0 && s[0] == ',',
        t.len() > 0 && t[0] == ',',
    ensures
        x == y,
        s == t,
{
    let a = x + s;
    let b = y + t;
    if x.len() < y.len() {
        assert(a[x.len() as int] == ',' && b[x.len() as int] == y[x.len() as int]);
    }
    if y.len() < x.len() {
        assert(b[y.len() as int] == ',' && a[y.len() as int] == x[y.len() as int]);
    }
    assert(x =~= a.take(x.len() as int) && y =~= b.take(y.len() as int));
    assert(s =~= a.skip(x.len() as int) && t =~= b.skip(y.len() as int));
}

proof fn lemma_words_have_no_comma(k: SlotKindArg, m: UnlockMethod, b: bool, secret: Option<String>)
    ensures
        has_no_comma(create_kind_text(k)),
        has_no_comma(unlock_method_text(m)),
        has_no_comma(bool_text(b)),
        has_no_comma(redacted(secret)),
{
    reveal_strlit("Passphrase");
    reveal_strlit("Fido2");
    reveal_strlit("Fido2Direct");
    reveal_strlit("HybridPq");
    reveal_strlit("HybridPqFido2");
    reveal_strlit("HybridPq1024");
    reveal_strlit("HybridPq1024Fido2");
    reveal_strlit("Tpm2");
    reveal_strlit("Tpm2Pin");
    reveal_strlit("Tpm2Fido2");
    reveal_strlit("HybridPqTpm2");
    reveal_strlit("HybridPqTpm2Fido2");
    reveal_strlit("Sep");
    reveal_strlit("HybridPqSep");
    reveal_strlit("SepFido2");
    reveal_strlit("HybridPqSepFido2");
    reveal_strlit("true");
    reveal_strlit("false");
    reveal_strlit("None");
    reveal_strlit("Some(\"<redacted>\")");
}

/// The words for a method, a kind, a switch or a secret tell which it is; a
/// secret counts as there or not.
proof fn lemma_words_tell_apart(
    k: SlotKindArg,
    l: SlotKindArg,
    a: bool,
    b: bool,
    s: Option<String>,
    t: Option<String>,
)
    ensures
        create_kind_text(k) == create_kind_text(l) ==> k == l,
        bool_text(a) == bool_text(b) ==> a == b,
        redacted(s) == redacted(t) ==> (s is Some <==> t is Some),
{
    reveal_strlit("Passphrase");
    reveal_strlit("Fido2");
    reveal_strlit("Fido2Direct");
    reveal_strlit("HybridPq");
    reveal_strlit("HybridPqFido2");
    reveal_strlit("HybridPq1024");
    reveal_strlit("HybridPq1024Fido2");
    reveal_strlit("true");
    reveal_strlit("false");
    reveal_strlit("None");
    reveal_strlit("Some(\"<redacted>\")");
    let (x, y) = (create_kind_text(k), create_kind_text(l));
    assert(x == y ==> x.len() == y.len());
    assert("true"@.len() != "false"@.len());
    assert("None"@.len() != "Some(\"<redacted>\")"@.len());
}

proof fn lemma_methods_tell_apart(m: UnlockMethod, n: UnlockMethod)
    requires
        unlock_method_text(m) == unlock_method_text(n),
    ensures
        m == n,
{
    reveal_strlit("Passphrase");
    reveal_strlit("Fido2");
    reveal_strlit("HybridPq");
    reveal_strlit("HybridPqFido2");
    reveal_strlit("Tpm2");
    reveal_strlit("Tpm2Pin");
    reveal_strlit("Tpm2Fido2");
    reveal_strlit("HybridPqTpm2");
    reveal_strlit("HybridPqTpm2Fido2");
    reveal_strlit("Sep");
    reveal_strlit("HybridPqSep");
    reveal_strlit("SepFido2");
    reveal_strlit("HybridPqSepFido2");
    let (x, y) = (unlock_method_text(m), unlock_method_text(n));
    assert(x.len() == y.len() && x[0] == y[0]);
}

/// The diagnostic text of a create request tells its kind, its switch, and which
/// secrets it holds.
pub proof fn law_create_debug_shows_the_rest(a: CreateOpts, b: CreateOpts, path: Seq<char>)
    requires
        create_debug_text(a, path) == create_debug_text(b, path),
    ensures
        a.kind == b.kind,
        a.use_deniable == b.use_deniable,
        a.passphrase is Some <==> b.passphrase is Some,
        a.backup_passphrase is Some <==> b.backup_passphrase is Some,
        a.pin is Some <==> b.pin is Some,
        a.hybrid_seed_pw is Some <==> b.hybrid_seed_pw is Some,
{
    let lead = "CreateOpts { path: "@ + path + ", kind: "@;
    lemma_create_parts(a, path);
    lemma_create_parts(b, path);
    let (x, y) = (create_parts(a, 0), create_parts(b, 0));
    assert(x =~= (lead + x).skip(lead.len() as int));
    assert(y =~= (lead + y).skip(lead.len() as int));
    lemma_create_reads(a, b);
    lemma_words_tell_apart(
        a.kind,
        b.kind,
        a.use_deniable,
        b.use_deniable,
        a.passphrase,
        b.passphrase,
    );
    lemma_words_tell_apart(a.kind, b.kind, true, true, a.backup_passphrase, b.backup_passphrase);
    lemma_words_tell_apart(a.kind, b.kind, true, true, a.pin, b.pin);
    lemma_words_tell_apart(a.kind, b.kind, true, true, a.hybrid_seed_pw, b.hybrid_seed_pw);
}

/// What the diagnostic text of a create request says from its n-th value on.
spec fn create_parts(o: CreateOpts, n: int) -> Seq<char>
    decreases 6 - n,
{
    if n == 0 {
        create_kind_text(o.kind) + (", use_deniable: "@ + create_parts(o, 1))
    } else if n == 1 {
        bool_text(o.use_deniable) + (", passphrase: "@ + create_parts(o, 2))
    } else if n == 2 {
        redacted(o.passphrase) + (", backup_passphrase: "@ + create_parts(o, 3))
    } else if n == 3 {
        redacted(o.backup_passphrase) + (", pin: "@ + create_parts(o, 4))
    } else if n == 4 {
        redacted(o.pin) + (", hybrid_seed_pw: "@ + create_parts(o, 5))
    } else {
        redacted(o.hybrid_seed_pw) + ", .. }"@
    }
}

proof fn lemma_create_parts(o: CreateOpts, path: Seq<char>)
    ensures
        create_debug_text(o, path) == "CreateOpts { path: "@ + path + ", kind: "@ + create_parts(
            o,
            0,
        ),
{
    reveal_with_fuel(create_parts, 6);
    let p0 = "CreateOpts { path: "@ + path + ", kind: "@;
    let p1 = p0 + create_kind_text(o.kind);
    let p2 = p1 + ", use_deniable: "@;
    let p3 = p2 + bool_text(o.use_deniable);
    let p4 = p3 + ", passphrase: "@;
    let p5 = p4 + redacted(o.passphrase);
    let p6 = p5 + ", backup_passphrase: "@;
    let p7 = p6 + redacted(o.backup_passphrase);
    let p8 = p7 + ", pin: "@;
    let p9 = p8 + redacted(o.pin);
    let p10 = p9 + ", hybrid_seed_pw: "@;
    let p11 = p10 + redacted(o.hybrid_seed_pw);
    let t12 = ", .. }"@;
    let t11 = redacted(o.hybrid_seed_pw) + t12;
    let t10 = ", hybrid_seed_pw: "@ + t11;
    let t9 = redacted(o.pin) + t10;
    let t8 = ", pin: "@ + t9;
    let t7 = redacted(o.backup_passphrase) + t8;
    let t6 = ", backup_passphrase: "@ + t7;
    let t5 = redacted(o.passphrase) + t6;
    let t4 = ", passphrase: "@ + t5;
    let t3 = bool_text(o.use_deniable) + t4;
    let t2 = ", use_deniable: "@ + t3;
    let t1 = create_kind_text(o.kind) + t2;
    lemma_grouped(p0, create_kind_text(o.kind), t2);
    lemma_grouped(p1, ", use_deniable: "@, t3);
    lemma_grouped(p2, bool_text(o.use_deniable), t4);
    lemma_grouped(p3, ", passphrase: "@, t5);
    lemma_grouped(p4, redacted(o.passphrase), t6);
    lemma_grouped(p5, ", backup_passphrase: "@, t7);
    lemma_grouped(p6, redacted(o.backup_passphrase), t8);
    lemma_grouped(p7, ", pin: "@, t9);
    lemma_grouped(p8, redacted(o.pin), t10);
    lemma_grouped(p9, ", hybrid_seed_pw: "@, t11);
    lemma_grouped(p10, redacted(o.hybrid_seed_pw), t12);
}

proof fn lemma_create_reads(a: CreateOpts, b: CreateOpts)
    requires
        create_parts(a, 0) == create_parts(b, 0),
    ensures
        create_kind_text(a.kind) == create_kind_text(b.kind),
        bool_text(a.use_deniable) == bool_text(b.use_deniable),
        redacted(a.passphrase) == redacted(b.passphrase),
        redacted(a.backup_passphrase) == redacted(b.backup_passphrase),
        redacted(a.pin) == redacted(b.pin),
        redacted(a.hybrid_seed_pw) == redacted(b.hybrid_seed_pw),
{
    reveal_strlit(", use_deniable: ");
    reveal_strlit(", passphrase: ");
    reveal_strlit(", backup_passphrase: ");
    reveal_strlit(", pin: ");
    reveal_strlit(", hybrid_seed_pw: ");
    reveal_strlit(", .. }");
    let m = UnlockMethod::Sep;
    lemma_words_have_no_comma(a.kind, m, a.use_deniable, a.passphrase);
    lemma_words_have_no_comma(b.kind, m, b.use_deniable, b.passphrase);
    lemma_words_have_no_comma(a.kind, m, true, a.backup_passphrase);
    lemma_words_have_no_comma(b.kind, m, true, b.backup_passphrase);
    lemma_words_have_no_comma(a.kind, m, true, a.pin);
    lemma_words_have_no_comma(b.kind, m, true, b.pin);
    lemma_words_have_no_comma(a.kind, m, true, a.hybrid_seed_pw);
    lemma_words_have_no_comma(b.kind, m, true, b.hybrid_seed_pw);
    lemma_next_part(
        create_kind_text(a.kind),
        create_kind_text(b.kind),
        ", use_deniable: "@,
        create_parts(a, 1),
        create_parts(b, 1),
    );
    lemma_next_part(
        bool_text(a.use_deniable),
        bool_text(b.use_deniable),
        ", passphrase: "@,
        create_parts(a, 2),
        create_parts(b, 2),
    );
    lemma_next_part(
        redacted(a.passphrase),
        redacted(b.passphrase),
        ", backup_passphrase: "@,
        create_parts(a, 3),
        create_parts(b, 3),
    );
    lemma_next_part(
        redacted(a.backup_passphrase),
        redacted(b.backup_passphrase),
        ", pin: "@,
        create_parts(a, 4),
        create_parts(b, 4),
    );
    lemma_next_part(
        redacted(a.pin),
        redacted(b.pin),
        ", hybrid_seed_pw: "@,
        create_parts(a, 5),
        create_parts(b, 5),
    );
    lemma_up_to_the_comma(
        redacted(a.hybrid_seed_pw),
        redacted(b.hybrid_seed_pw),
        ", .. }"@,
        ", .. }"@,
    );
}

proof fn lemma_grouped(a: Seq<char>, b: Seq<char>, c: Seq<char>)
    ensures
        (a + b) + c == a + (b + c),
{
    assert((a + b) + c =~= a + (b + c));
}

/// A value, what follows it, and the rest are read one after the other.
proof fn lemma_next_part(
    x: Seq<char>,
    y: Seq<char>,
    name: Seq<char>,
    s: Seq<char>,
    t: Seq<char>,
)
    requires
        x + (name + s) == y + (name + t),
        has_no_comma(x),
        has_no_comma(y),
        name.len() > 0 && name[0] == ',',
    ensures
        x == y,
        s == t,
{
    lemma_up_to_the_comma(x, y, name + s, name + t);
    assert(s =~= (name + s).skip(name.len() as int));
    assert(t =~= (name + t).skip(name.len() as int));
}

/// The same of unlock requests.
pub proof fn law_unlock_debug_shows_the_rest(a: UnlockOpts, b: UnlockOpts, path: Seq<char>)
    requires
        unlock_debug_text(a, path) == unlock_debug_text(b, path),
    ensures
        a.method == b.method,
        a.use_deniable == b.use_deniable,
        a.recovery_mode == b.recovery_mode,
        a.passphrase is Some <==> b.passphrase is Some,
        a.pin is Some <==> b.pin is Some,
        a.hybrid_seed_pw is Some <==> b.hybrid_seed_pw is Some,
{
    let lead = "UnlockOpts { path: "@ + path + ", method: "@;
    lemma_unlock_parts(a, path);
    lemma_unlock_parts(b, path);
    let (x, y) = (unlock_parts(a, 0), unlock_parts(b, 0));
    assert(x =~= (lead + x).skip(lead.len() as int));
    assert(y =~= (lead + y).skip(lead.len() as int));
    lemma_unlock_reads(a, b);
    let k = SlotKindArg::Passphrase;
    lemma_methods_tell_apart(a.method, b.method);
    lemma_words_tell_apart(k, k, a.use_deniable, b.use_deniable, a.passphrase, b.passphrase);
    lemma_words_tell_apart(k, k, a.recovery_mode, b.recovery_mode, a.pin, b.pin);
    lemma_words_tell_apart(k, k, true, true, a.hybrid_seed_pw, b.hybrid_seed_pw);
}

/// What the diagnostic text of an unlock request says from its n-th value on.
spec fn unlock_parts(o: UnlockOpts, n: int) -> Seq<char>
    decreases 6 - n,
{
    if n == 0 {
        unlock_method_text(o.method) + (", use_deniable: "@ + unlock_parts(o, 1))
    } else if n == 1 {
        bool_text(o.use_deniable) + (", recovery_mode: "@ + unlock_parts(o, 2))
    } else if n == 2 {
        bool_text(o.recovery_mode) + (", passphrase: "@ + unlock_parts(o, 3))
    } else if n == 3 {
        redacted(o.passphrase) + (", pin: "@ + unlock_parts(o, 4))
    } else if n == 4 {
        redacted(o.pin) + (", hybrid_seed_pw: "@ + unlock_parts(o, 5))
    } else {
        redacted(o.hybrid_seed_pw) + ", .. }"@
    }
}

proof fn lemma_unlock_parts(o: UnlockOpts, path: Seq<char>)
    ensures
        unlock_debug_text(o, path) == "UnlockOpts { path: "@ + path + ", method: "@ + unlock_parts(
            o,
            0,
        ),
{
    reveal_with_fuel(unlock_parts, 6);
    let p0 = "UnlockOpts { path: "@ + path + ", method: "@;
    let p1 = p0 + unlock_method_text(o.method);
    let p2 = p1 + ", use_deniable: "@;
    let p3 = p2 + bool_text(o.use_deniable);
    let p4 = p3 + ", recovery_mode: "@;
    let p5 = p4 + bool_text(o.recovery_mode);
    let p6 = p5 + ", passphrase: "@;
    let p7 = p6 + redacted(o.passphrase);
    let p8 = p7 + ", pin: "@;
    let p9 = p8 + redacted(o.pin);
    let p10 = p9 + ", hybrid_seed_pw: "@;
    let p11 = p10 + redacted(o.hybrid_seed_pw);
    let t12 = ", .. }"@;
    let t11 = redacted(o.hybrid_seed_pw) + t12;
    let t10 = ", hybrid_seed_pw: "@ + t11;
    let t9 = redacted(o.pin) + t10;
    let t8 = ", pin: "@ + t9;
    let t7 = redacted(o.passphrase) + t8;
    let t6 = ", passphrase: "@ + t7;
    let t5 = bool_text(o.recovery_mode) + t6;
    let t4 = ", recovery_mode: "@ + t5;
    let t3 = bool_text(o.use_deniable) + t4;
    let t2 = ", use_deniable: "@ + t3;
    let t1 = unlock_method_text(o.method) + t2;
    lemma_grouped(p0, unlock_method_text(o.method), t2);
    lemma_grouped(p1, ", use_deniable: "@, t3);
    lemma_grouped(p2, bool_text(o.use_deniable), t4);
    lemma_grouped(p3, ", recovery_mode: "@, t5);
    lemma_grouped(p4, bool_text(o.recovery_mode), t6);
    lemma_grouped(p5, ", passphrase: "@, t7);
    lemma_grouped(p6, redacted(o.passphrase), t8);
    lemma_grouped(p7, ", pin: "@, t9);
    lemma_grouped(p8, redacted(o.pin), t10);
    lemma_grouped(p9, ", hybrid_seed_pw: "@, t11);
    lemma_grouped(p10, redacted(o.hybrid_seed_pw), t12);
}

proof fn lemma_unlock_reads(a: UnlockOpts, b: UnlockOpts)
    requires
        unlock_parts(a, 0) == unlock_parts(b, 0),
    ensures
        unlock_method_text(a.method) == unlock_method_text(b.method),
        bool_text(a.use_deniable) == bool_text(b.use_deniable),
        bool_text(a.recovery_mode) == bool_text(b.recovery_mode),
        redacted(a.passphrase) == redacted(b.passphrase),
        redacted(a.pin) == redacted(b.pin),
        redacted(a.hybrid_seed_pw) == redacted(b.hybrid_seed_pw),
{
    reveal_strlit(", use_deniable: ");
    reveal_strlit(", recovery_mode: ");
    reveal_strlit(", passphrase: ");
    reveal_strlit(", pin: ");
    reveal_strlit(", hybrid_seed_pw: ");
    reveal_strlit(", .. }");
    let k = SlotKindArg::Passphrase;
    lemma_words_have_no_comma(k, a.method, a.use_deniable, a.passphrase);
    lemma_words_have_no_comma(k, b.method, b.use_deniable, b.passphrase);
    lemma_words_have_no_comma(k, a.method, a.recovery_mode, a.pin);
    lemma_words_have_no_comma(k, b.method, b.recovery_mode, b.pin);
    lemma_words_have_no_comma(k, a.method, true, a.hybrid_seed_pw);
    lemma_words_have_no_comma(k, b.method, true, b.hybrid_seed_pw);
    lemma_next_part(
        unlock_method_text(a.method),
        unlock_method_text(b.method),
        ", use_deniable: "@,
        unlock_parts(a, 1),
        unlock_parts(b, 1),
    );
    lemma_next_part(
        bool_text(a.use_deniable),
        bool_text(b.use_deniable),
        ", recovery_mode: "@,
        unlock_parts(a, 2),
        unlock_parts(b, 2),
    );
    lemma_next_part(
        bool_text(a.recovery_mode),
        bool_text(b.recovery_mode),
        ", passphrase: "@,
        unlock_parts(a, 3),
        unlock_parts(b, 3),
    );
    lemma_next_part(
        redacted(a.passphrase),
        redacted(b.passphrase),
        ", pin: "@,
        unlock_parts(a, 4),
        unlock_parts(b, 4),
    );
    lemma_next_part(
        redacted(a.pin),
        redacted(b.pin),
        ", hybrid_seed_pw: "@,
        unlock_parts(a, 5),
        unlock_parts(b, 5),
    );
    lemma_up_to_the_comma(
        redacted(a.hybrid_seed_pw),
        redacted(b.hybrid_seed_pw),
        ", .. }"@,
        ", .. }"@,
    );
}

/// What the authenticator asks for is named by what answers: Windows, or the
/// authenticator itself.
pub proof fn law_touch_is_asked_by_who_answers(windows_hello: bool)
    ensures
        windows_hello ==> begins(
            auth_verb_text(windows_hello),
            "authenticate with Windows Hello"@,
        ),
        !windows_hello ==> begins(auth_verb_text(windows_hello), "touch your FIDO2"@),
{
    reveal_strlit("authenticate with Windows Hello");
    reveal_strlit("touch your FIDO2");
    reveal_strlit("authenticate with Windows Hello (face / fingerprint / PIN)");
    reveal_strlit("touch your FIDO2 authenticator");
    assert("authenticate with Windows Hello (face / fingerprint / PIN)"@.take(31)
        =~= "authenticate with Windows Hello"@);
    assert("touch your FIDO2 authenticator"@.take(16) =~= "touch your FIDO2"@);
}

/// Two methods do not go by the same diagnostic name, and one that the unlock
/// form does not offer goes by it there too.
pub proof fn law_methods_go_by_different_names(m: UnlockMethod, n: UnlockMethod)
    ensures
        unlock_method_text(m) == unlock_method_text(n) ==> m == n,
        m is Sep || m is HybridPqSep || m is SepFido2 || m is HybridPqSepFido2 ==> method_label_text(
            m,
        ) == unlock_method_text(m),
{
    if unlock_method_text(m) == unlock_method_text(n) {
        lemma_methods_tell_apart(m, n);
    }
}

/// What is said of a running task begins with what it does.
pub proof fn law_running_task_is_named(p: Pending, windows_hello: bool)
    ensures
        ({
            let t = p.label_text(windows_hello);
            &&& p is Fido2Probe ==> begins(t, "probing"@)
            &&& p is Panic ==> begins(t, "wiping"@)
            &&& p is RotateMvk ==> begins(t, "rotating master key"@)
            &&& p matches Pending::Open { task, needs_touch } ==> match task {
                OpenTask::CreateWithTpmBootstrap => begins(
                    t,
                    "creating vault + sealing under the local TPM 2.0"@,
                ),
                OpenTask::Create => needs_touch ==> begins(t, "creating vault, "@),
                OpenTask::Unlock => needs_touch ==> begins(t, "unlocking, "@),
            }
            &&& p matches Pending::Open { task, needs_touch } ==> !needs_touch && !(
            task is CreateWithTpmBootstrap) ==> begins(t, "stretching passphrase"@)
            &&& p matches Pending::Loan { task } ==> match task {
                LoanTask::PutFile { .. } => begins(t, "encrypting"@),
                LoanTask::GetFile => begins(t, "decrypting"@),
                LoanTask::EnrollPassphrase => begins(t, "stretching passphrase"@),
                LoanTask::EnrollFido2 => begins(t, "registering credential"@),
                LoanTask::EnrollTpm2 => t == "sealing key under the local TPM 2.0"@ + "..."@,
                LoanTask::EnrollTpm2Pin => t == "sealing key under the local TPM 2.0"@
                    + " with PIN-binding"@ + "..."@,
                LoanTask::EnrollTpm2Fido2 => begins(t, "fused TPM+FIDO2 enroll"@),
                LoanTask::EnrollHybridPqTpm2 => begins(t, "hybrid TPM + ML-KEM enroll"@),
                LoanTask::EnrollHybridPqTpm2Fido2 => begins(
                    t,
                    "3-factor TPM+FIDO2+ML-KEM enroll"@,
                ),
            }
        }),
{
    reveal_strlit("probing");
    reveal_strlit("probing for FIDO2 authenticators...");
    reveal_strlit("wiping");
    reveal_strlit("wiping...");
    reveal_strlit("rotating master key");
    reveal_strlit("rotating master key (re-encrypting every chunk)...");
    reveal_strlit("creating vault + sealing under the local TPM 2.0");
    reveal_strlit("creating vault + sealing under the local TPM 2.0 (");
    reveal_strlit("creating vault + sealing under the local TPM 2.0...");
    reveal_strlit("stretching passphrase");
    reveal_strlit("stretching passphrase with Argon2id...");
    reveal_strlit("encrypting");
    reveal_strlit("encrypting file...");
    reveal_strlit("decrypting");
    reveal_strlit("decrypting...");
    reveal_strlit("registering credential");
    reveal_strlit("registering credential - ");
    reveal_strlit("...");
    reveal_strlit(" with PIN-binding");
    reveal_strlit("sealing key under the local TPM 2.0");
    reveal_strlit("sealing key under the local TPM 2.0...");
    reveal_strlit("sealing key under the local TPM 2.0 with PIN-binding...");
    reveal_strlit("fused TPM+FIDO2 enroll");
    reveal_strlit("fused TPM+FIDO2 enroll - ");
    reveal_strlit("hybrid TPM + ML-KEM enroll");
    reveal_strlit(
        "hybrid TPM + ML-KEM enroll: sealing TPM half + generating Kyber keypair...",
    );
    reveal_strlit("3-factor TPM+FIDO2+ML-KEM enroll");
    reveal_strlit("3-factor TPM+FIDO2+ML-KEM enroll - ");
    let t = p.label_text(windows_hello);
    match p {
        Pending::Fido2Probe => {
            assert(t.take(7) =~= "probing"@);
        },
        Pending::Panic => {
            assert(t.take(6) =~= "wiping"@);
        },
        Pending::RotateMvk => {
            assert(t.take(19) =~= "rotating master key"@);
        },
        Pending::Open { task, needs_touch } => match task {
            OpenTask::CreateWithTpmBootstrap => {
                assert(t.take(48) =~= "creating vault + sealing under the local TPM 2.0"@);
            },
            OpenTask::Create => {
                if needs_touch {
                    let lead = "creating vault, "@;
                    assert(t.take(lead.len() as int) =~= lead);
                } else {
                    assert(t.take(21) =~= "stretching passphrase"@);
                }
            },
            OpenTask::Unlock => {
                if needs_touch {
                    let lead = "unlocking, "@;
                    assert(t.take(lead.len() as int) =~= lead);
                } else {
                    assert(t.take(21) =~= "stretching passphrase"@);
                }
            },
        },
        Pending::Loan { task } => match task {
            LoanTask::PutFile { .. } => {
                assert(t.take(10) =~= "encrypting"@);
            },
            LoanTask::GetFile => {
                assert(t.take(10) =~= "decrypting"@);
            },
            LoanTask::EnrollPassphrase => {
                assert(t.take(21) =~= "stretching passphrase"@);
            },
            LoanTask::EnrollFido2 => {
                assert(t.take(22) =~= "registering credential"@);
            },
            LoanTask::EnrollTpm2 => {
                assert(t =~= "sealing key under the local TPM 2.0"@ + "..."@);
            },
            LoanTask::EnrollTpm2Pin => {
                assert(t =~= "sealing key under the local TPM 2.0"@ + " with PIN-binding"@
                    + "..."@);
            },
            LoanTask::EnrollTpm2Fido2 => {
                assert(t.take(22) =~= "fused TPM+FIDO2 enroll"@);
            },
            LoanTask::EnrollHybridPqTpm2 => {
                assert(t.take(26) =~= "hybrid TPM + ML-KEM enroll"@);
            },
            LoanTask::EnrollHybridPqTpm2Fido2 => {
                assert(t.take(32) =~= "3-factor TPM+FIDO2+ML-KEM enroll"@);
            },
        },
    }
}

} // verus!
