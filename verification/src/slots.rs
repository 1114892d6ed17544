//! The keyslots of a vault, as the application shows and judges them.

use crate::kinds::SlotKind;
use crate::text::{decimal, decimal_text, join3, texts};
use vstd::prelude::*;
use vstd::string::*;

verus! {

/// What is known of one keyslot. The flags classify its kind the way the
/// vault format does.
#[derive(Clone, Copy, Debug, PartialEq, Eq, Structural)]
pub struct SlotFacts {
    pub kind: SlotKind,
    pub hybrid_pq: bool,
    pub hybrid_pq_fido2: bool,
    pub tpm2: bool,
    pub sep: bool,
    pub sep_fido2: bool,
    pub sep_passphrase: bool,
    /// A combined TPM slot stores the credential it was enrolled with.
    pub tpm2_fido2_cred: bool,
    /// The length of the credential id.
    pub cred_len: usize,
    /// The salt convention the slot declares.
    pub salt_prehashed: bool,
}

/// Kinds that an authenticator alone, or with ML-KEM, unlocks.
pub open spec fn is_fido2_kind(k: SlotKind) -> bool {
    ||| k == SlotKind::Fido2HmacSecret
    ||| k == SlotKind::Fido2DerivedMvk
    ||| k == SlotKind::HybridPqKemFido2
    ||| k == SlotKind::HybridPqKem1024Fido2
}

/// Whether an authenticator can unlock the vault.
pub fn header_has_fido2(slots: &Vec<SlotFacts>) -> (b: bool)
    ensures
        b == exists|i: int| 0 <= i < slots@.len() && is_fido2_kind((#[trigger] slots@[i]).kind),
{
    let mut i: usize = 0;
    while i < slots.len()
        invariant
            i <= slots@.len(),
            forall|k: int| 0 <= k < i ==> !is_fido2_kind((#[trigger] slots@[k]).kind),
        decreases slots.len() - i,
    {
        if matches!(
            slots[i].kind,
            SlotKind::Fido2HmacSecret
                | SlotKind::Fido2DerivedMvk
                | SlotKind::HybridPqKemFido2
                | SlotKind::HybridPqKem1024Fido2
        ) {
            assert(is_fido2_kind(slots@[i as int].kind));
            return true;
        }
        i = i + 1;
    }
    false
}

/// Whether any keyslot has an ML-KEM part.
pub fn header_has_hybrid_pq(slots: &Vec<SlotFacts>) -> (b: bool)
    ensures
        b == exists|i: int| 0 <= i < slots@.len() && (#[trigger] slots@[i]).hybrid_pq,
{
    let mut i: usize = 0;
    while i < slots.len()
        invariant
            i <= slots@.len(),
            forall|k: int| 0 <= k < i ==> !(#[trigger] slots@[k]).hybrid_pq,
        decreases slots.len() - i,
    {
        if slots[i].hybrid_pq {
            assert(slots@[i as int].hybrid_pq);
            return true;
        }
        i = i + 1;
    }
    false
}

/// Whether any keyslot is bound to a TPM.
pub fn header_has_tpm(slots: &Vec<SlotFacts>) -> (b: bool)
    ensures
        b == exists|i: int| 0 <= i < slots@.len() && (#[trigger] slots@[i]).tpm2,
{
    let mut i: usize = 0;
    while i < slots.len()
        invariant
            i <= slots@.len(),
            forall|k: int| 0 <= k < i ==> !(#[trigger] slots@[k]).tpm2,
        decreases slots.len() - i,
    {
        if slots[i].tpm2 {
            assert(slots@[i as int].tpm2);
            return true;
        }
        i = i + 1;
    }
    false
}

pub open spec fn slot_label_text(k: SlotKind) -> Seq<char> {
    match k {
        SlotKind::Empty => "empty"@,
        SlotKind::Passphrase => "passphrase"@,
        SlotKind::Fido2HmacSecret => "FIDO2 (wrap)"@,
        SlotKind::Fido2DerivedMvk => "FIDO2-direct"@,
        SlotKind::HybridPqKemPassphrase => "passphrase + ML-KEM-768"@,
        SlotKind::HybridPqKemFido2 => "FIDO2 + ML-KEM-768"@,
        SlotKind::HybridPqKem1024Passphrase => "passphrase + ML-KEM-1024"@,
        SlotKind::HybridPqKem1024Fido2 => "FIDO2 + ML-KEM-1024"@,
        SlotKind::Tpm2Sealed => "TPM 2.0"@,
        SlotKind::Tpm2Fido2 => "TPM 2.0 + FIDO2"@,
        SlotKind::Tpm2SealedPin => "TPM 2.0 + PIN"@,
        SlotKind::HybridPqKemTpm2 => "TPM 2.0 + ML-KEM-768"@,
        SlotKind::HybridPqKemTpm2Fido2 => "TPM 2.0 + FIDO2 + ML-KEM-768"@,
        SlotKind::HybridPqKem1024Tpm2 => "TPM 2.0 + ML-KEM-1024"@,
        SlotKind::HybridPqKem1024Tpm2Fido2 => "TPM 2.0 + FIDO2 + ML-KEM-1024"@,
        SlotKind::SepSealed => "Secure Enclave"@,
        SlotKind::SepSealedBiometric => "Secure Enclave + biometry"@,
        SlotKind::HybridPqKemSep => "Secure Enclave + ML-KEM-768"@,
        SlotKind::HybridPqKem1024Sep => "Secure Enclave + ML-KEM-1024"@,
        SlotKind::SepFido2 => "Secure Enclave + FIDO2"@,
        SlotKind::HybridPqKemSepFido2 => "Secure Enclave + FIDO2 + ML-KEM-768"@,
        SlotKind::HybridPqKem1024SepFido2 => "Secure Enclave + FIDO2 + ML-KEM-1024"@,
        SlotKind::SepPassphrase => "Secure Enclave + passphrase"@,
        SlotKind::HybridPqKemSepPassphrase => "Secure Enclave + passphrase + ML-KEM-768"@,
        SlotKind::HybridPqKem1024SepPassphrase => "Secure Enclave + passphrase + ML-KEM-1024"@,
        SlotKind::SepFido2Passphrase => "Secure Enclave + FIDO2 + passphrase"@,
        SlotKind::HybridPqKemSepFido2Passphrase => "Secure Enclave + FIDO2 + passphrase + ML-KEM-768"@,
        SlotKind::HybridPqKem1024SepFido2Passphrase => "Secure Enclave + FIDO2 + passphrase + ML-KEM-1024"@,
    }
}

/// The factors of a keyslot kind in words.
pub fn slot_kind_label(k: SlotKind) -> (s: &'static str)
    ensures
        s@ == slot_label_text(k),
{
    match k {
        SlotKind::Empty => "empty",
        SlotKind::Passphrase => "passphrase",
        SlotKind::Fido2HmacSecret => "FIDO2 (wrap)",
        SlotKind::Fido2DerivedMvk => "FIDO2-direct",
        SlotKind::HybridPqKemPassphrase => "passphrase + ML-KEM-768",
        SlotKind::HybridPqKemFido2 => "FIDO2 + ML-KEM-768",
        SlotKind::HybridPqKem1024Passphrase => "passphrase + ML-KEM-1024",
        SlotKind::HybridPqKem1024Fido2 => "FIDO2 + ML-KEM-1024",
        SlotKind::Tpm2Sealed => "TPM 2.0",
        SlotKind::Tpm2Fido2 => "TPM 2.0 + FIDO2",
        SlotKind::Tpm2SealedPin => "TPM 2.0 + PIN",
        SlotKind::HybridPqKemTpm2 => "TPM 2.0 + ML-KEM-768",
        SlotKind::HybridPqKemTpm2Fido2 => "TPM 2.0 + FIDO2 + ML-KEM-768",
        SlotKind::HybridPqKem1024Tpm2 => "TPM 2.0 + ML-KEM-1024",
        SlotKind::HybridPqKem1024Tpm2Fido2 => "TPM 2.0 + FIDO2 + ML-KEM-1024",
        SlotKind::SepSealed => "Secure Enclave",
        SlotKind::SepSealedBiometric => "Secure Enclave + biometry",
        SlotKind::HybridPqKemSep => "Secure Enclave + ML-KEM-768",
        SlotKind::HybridPqKem1024Sep => "Secure Enclave + ML-KEM-1024",
        SlotKind::SepFido2 => "Secure Enclave + FIDO2",
        SlotKind::HybridPqKemSepFido2 => "Secure Enclave + FIDO2 + ML-KEM-768",
        SlotKind::HybridPqKem1024SepFido2 => "Secure Enclave + FIDO2 + ML-KEM-1024",
        SlotKind::SepPassphrase => "Secure Enclave + passphrase",
        SlotKind::HybridPqKemSepPassphrase => "Secure Enclave + passphrase + ML-KEM-768",
        SlotKind::HybridPqKem1024SepPassphrase => "Secure Enclave + passphrase + ML-KEM-1024",
        SlotKind::SepFido2Passphrase => "Secure Enclave + FIDO2 + passphrase",
        SlotKind::HybridPqKemSepFido2Passphrase => "Secure Enclave + FIDO2 + passphrase + ML-KEM-768",
        SlotKind::HybridPqKem1024SepFido2Passphrase => "Secure Enclave + FIDO2 + passphrase + ML-KEM-1024",
    }
}

/// `slot 3: passphrase`.
pub open spec fn slot_line(i: int, k: SlotKind) -> Seq<char> {
    "slot "@ + decimal(i as nat) + ": "@ + slot_label_text(k)
}

/// One line for each of the first `n` slots that is in use, in order.
pub open spec fn slot_lines(slots: Seq<SlotFacts>, n: int) -> Seq<Seq<char>>
    decreases n,
{
    if n <= 0 {
        seq![]
    } else if slots[n - 1].kind == SlotKind::Empty {
        slot_lines(slots, n - 1)
    } else {
        slot_lines(slots, n - 1).push(slot_line(n - 1, slots[n - 1].kind))
    }
}

/// What each keyslot in use is protected by, shown before the user picks an
/// unlock method.
pub fn inspect_slot_kinds(slots: &Vec<SlotFacts>) -> (v: Vec<String>)
    ensures
        texts(v@) == slot_lines(slots@, slots@.len() as int),
{
    let mut v: Vec<String> = Vec::new();
    let mut i: usize = 0;
    assert(texts(v@) =~= slot_lines(slots@, 0));
    while i < slots.len()
        invariant
            i <= slots@.len(),
            texts(v@) == slot_lines(slots@, i as int),
        decreases slots.len() - i,
    {
        if slots[i].kind != SlotKind::Empty {
            let mut s = join3("slot ", decimal_text(i as u64).as_str(), ": ");
            s.append(slot_kind_label(slots[i].kind));
            let ghost before = v@;
            v.push(s);
            assert(texts(v@) =~= texts(before).push(slot_line(i as int, slots@[i as int].kind)));
        }
        i = i + 1;
    }
    v
}

/// The number of keyslots in use.
pub open spec fn active_slots(slots: Seq<SlotFacts>) -> nat {
    slots.filter(|s: SlotFacts| s.kind != SlotKind::Empty).len()
}

/// Counts the keyslots in use.
pub fn active_slot_count(slots: &Vec<SlotFacts>) -> (n: usize)
    ensures
        n == active_slots(slots@),
{
    let mut n: usize = 0;
    let mut i: usize = 0;
    let ghost pred = |s: SlotFacts| s.kind != SlotKind::Empty;
    proof {
        reveal(Seq::filter);
        assert(slots@.take(0).filter(pred) =~= Seq::<SlotFacts>::empty());
    }
    while i < slots.len()
        invariant
            i <= slots@.len(),
            n <= i,
            pred == (|s: SlotFacts| s.kind != SlotKind::Empty),
            n == slots@.take(i as int).filter(pred).len(),
        decreases slots.len() - i,
    {
        proof {
            reveal(Seq::filter);
            assert(slots@.take(i + 1).drop_last() =~= slots@.take(i as int));
        }
        if slots[i].kind != SlotKind::Empty {
            n = n + 1;
        }
        i = i + 1;
    }
    assert(slots@.take(i as int) =~= slots@);
    n
}

/// A revocation that waits for the user's confirmation.
pub struct RevokeConfirm {
    pub slot_idx: usize,
    pub slot_kind: SlotKind,
    /// Revoking would lock the user out for good.
    pub would_be_last_active_slot: bool,
}

/// Asks before the keyslot at `i` is revoked. The only credential left gets the
/// stronger warning.
pub fn confirm_revoke(slots: &Vec<SlotFacts>, i: usize) -> (c: RevokeConfirm)
    requires
        i < slots@.len(),
    ensures
        c.slot_idx == i,
        c.slot_kind == slots@[i as int].kind,
        c.would_be_last_active_slot == (active_slots(slots@) <= 1),
{
    RevokeConfirm {
        slot_idx: i,
        slot_kind: slots[i].kind,
        would_be_last_active_slot: active_slot_count(slots) <= 1,
    }
}

/// What the revoke dialog says is about to happen.
pub open spec fn revoke_question_text(c: RevokeConfirm) -> Seq<char> {
    "This will permanently delete the "@ + revoke_text(c.slot_kind) + " credential in slot "@
        + decimal(c.slot_idx as nat)
        + ". The wrapped master key for that credential is overwritten and cannot be recovered, so the passphrase / authenticator that unlocked this slot will no longer open the vault."@
}

impl RevokeConfirm {
    pub fn question(&self) -> (s: String)
        ensures
            s@ == revoke_question_text(*self),
    {
        let mut s = join3(
            "This will permanently delete the ",
            revoke_label(self.slot_kind),
            " credential in slot ",
        );
        s.append(decimal_text(self.slot_idx as u64).as_str());
        s.append(
            ". The wrapped master key for that credential is overwritten and cannot be recovered, so the passphrase / authenticator that unlocked this slot will no longer open the vault.",
        );
        s
    }

    /// The stronger warning, where the last credential is at stake.
    pub fn warning(&self) -> (w: Option<&'static str>)
        ensures
            w is Some <==> self.would_be_last_active_slot,
            w matches Some(s) ==> s@
                == "This is the last active keyslot on this vault. Revoking it will permanently lock you out of the vault, no recovery is possible. If you intend to rotate credentials, enroll the new one FIRST and then revoke the old one."@,
    {
        if self.would_be_last_active_slot {
            Some(
                "This is the last active keyslot on this vault. Revoking it will permanently lock you out of the vault, no recovery is possible. If you intend to rotate credentials, enroll the new one FIRST and then revoke the old one.",
            )
        } else {
            None
        }
    }

    /// What the button says.
    pub fn button(&self) -> (s: &'static str)
        ensures
            s@ == (if self.would_be_last_active_slot {
                "Yes, lock me out permanently"@
            } else {
                "Revoke this keyslot"@
            }),
    {
        if self.would_be_last_active_slot {
            "Yes, lock me out permanently"
        } else {
            "Revoke this keyslot"
        }
    }
}

/// If two keyslots are in use, revoking one does not lock the user out; if the
/// one to be revoked is the only one, the warning says so.
pub proof fn law_last_slot_warning(slots: Seq<SlotFacts>, i: int)
    requires
        0 <= i < slots.len(),
        slots[i].kind != SlotKind::Empty,
    ensures
        active_slots(slots) <= 1 <==> forall|j: int|
            0 <= j < slots.len() && j != i ==> (#[trigger] slots[j]).kind == SlotKind::Empty,
{
    let pred = |s: SlotFacts| s.kind != SlotKind::Empty;
    let rest = slots.remove(i);
    lemma_active_remove(slots, i);
    if forall|j: int| 0 <= j < slots.len() && j != i ==> (#[trigger] slots[j]).kind
        == SlotKind::Empty {
        assert forall|j: int| 0 <= j < rest.len() implies !pred(#[trigger] rest[j]) by {
            if j < i {
                assert(rest[j] == slots[j]);
            } else {
                assert(rest[j] == slots[j + 1]);
            }
        }
        lemma_none_active(rest);
    } else {
        let j = choose|j: int|
            0 <= j < slots.len() && j != i && (#[trigger] slots[j]).kind != SlotKind::Empty;
        let k = if j < i {
            j
        } else {
            j - 1
        };
        assert(rest[k] == slots[j]);
        rest.lemma_filter_contains(pred, k);
        let f = rest.filter(pred);
        assert(f.contains(rest[k]));
        assert(f.len() > 0);
    }
}

proof fn lemma_active_remove(slots: Seq<SlotFacts>, i: int)
    requires
        0 <= i < slots.len(),
        slots[i].kind != SlotKind::Empty,
    ensures
        active_slots(slots) == active_slots(slots.remove(i)) + 1,
{
    let pred = |s: SlotFacts| s.kind != SlotKind::Empty;
    let a = slots.take(i);
    let b = slots.skip(i + 1);
    assert(slots =~= a + (seq![slots[i]] + b));
    assert(slots.remove(i) =~= a + b);
    Seq::filter_distributes_over_add(a, seq![slots[i]] + b, pred);
    Seq::filter_distributes_over_add(seq![slots[i]], b, pred);
    Seq::filter_distributes_over_add(a, b, pred);
    assert(seq![slots[i]].filter(pred) =~= seq![slots[i]]) by {
        reveal_with_fuel(Seq::<_>::filter, 2);
        assert(seq![slots[i]].drop_last() =~= Seq::<SlotFacts>::empty());
    }
}

proof fn lemma_none_active(slots: Seq<SlotFacts>)
    requires
        forall|j: int| 0 <= j < slots.len() ==> (#[trigger] slots[j]).kind == SlotKind::Empty,
    ensures
        active_slots(slots) == 0,
    decreases slots.len(),
{
    reveal(Seq::filter);
    if slots.len() > 0 {
        lemma_none_active(slots.drop_last());
    }
}

pub open spec fn pill_text(k: SlotKind) -> Seq<char> {
    match k {
        SlotKind::Empty => "empty"@,
        SlotKind::Passphrase => "passphrase"@,
        SlotKind::Fido2HmacSecret => "fido2 (wrap)"@,
        SlotKind::Fido2DerivedMvk => "fido2-direct"@,
        SlotKind::HybridPqKemPassphrase => "hybrid-pq (768)"@,
        SlotKind::HybridPqKemFido2 => "hybrid-pq-fido2 (768)"@,
        SlotKind::HybridPqKem1024Passphrase => "hybrid-pq (1024)"@,
        SlotKind::HybridPqKem1024Fido2 => "hybrid-pq-fido2 (1024)"@,
        SlotKind::Tpm2Sealed => "tpm2 (this machine)"@,
        SlotKind::Tpm2Fido2 => "tpm2 + fido2 (both)"@,
        SlotKind::Tpm2SealedPin => "tpm2 + PIN"@,
        SlotKind::HybridPqKemTpm2 => "tpm2 + ML-KEM-768"@,
        SlotKind::HybridPqKemTpm2Fido2 => "tpm2 + fido2 + ML-KEM-768"@,
        SlotKind::HybridPqKem1024Tpm2 => "tpm2 + ML-KEM-1024"@,
        SlotKind::HybridPqKem1024Tpm2Fido2 => "tpm2 + fido2 + ML-KEM-1024"@,
        _ => slot_label_text(k),
    }
}

/// The short tag of a keyslot in the slot list.
pub fn pill_label(k: SlotKind) -> (s: &'static str)
    ensures
        s@ == pill_text(k),
{
    match k {
        SlotKind::Empty => "empty",
        SlotKind::Passphrase => "passphrase",
        SlotKind::Fido2HmacSecret => "fido2 (wrap)",
        SlotKind::Fido2DerivedMvk => "fido2-direct",
        SlotKind::HybridPqKemPassphrase => "hybrid-pq (768)",
        SlotKind::HybridPqKemFido2 => "hybrid-pq-fido2 (768)",
        SlotKind::HybridPqKem1024Passphrase => "hybrid-pq (1024)",
        SlotKind::HybridPqKem1024Fido2 => "hybrid-pq-fido2 (1024)",
        SlotKind::Tpm2Sealed => "tpm2 (this machine)",
        SlotKind::Tpm2Fido2 => "tpm2 + fido2 (both)",
        SlotKind::Tpm2SealedPin => "tpm2 + PIN",
        SlotKind::HybridPqKemTpm2 => "tpm2 + ML-KEM-768",
        SlotKind::HybridPqKemTpm2Fido2 => "tpm2 + fido2 + ML-KEM-768",
        SlotKind::HybridPqKem1024Tpm2 => "tpm2 + ML-KEM-1024",
        SlotKind::HybridPqKem1024Tpm2Fido2 => "tpm2 + fido2 + ML-KEM-1024",
        _ => slot_kind_label(k),
    }
}

pub open spec fn revoke_text(k: SlotKind) -> Seq<char> {
    match k {
        SlotKind::Empty => "(empty)"@,
        SlotKind::Passphrase => "passphrase"@,
        SlotKind::Fido2HmacSecret => "FIDO2 (hmac-secret)"@,
        SlotKind::Fido2DerivedMvk => "FIDO2 (derived MVK)"@,
        SlotKind::HybridPqKemPassphrase => "hybrid-PQ + passphrase"@,
        SlotKind::HybridPqKemFido2 => "hybrid-PQ + FIDO2"@,
        SlotKind::HybridPqKem1024Passphrase => "hybrid-PQ-1024 + passphrase"@,
        SlotKind::HybridPqKem1024Fido2 => "hybrid-PQ-1024 + FIDO2"@,
        SlotKind::Tpm2Sealed => "TPM 2.0 (machine-bound)"@,
        SlotKind::Tpm2Fido2 => "TPM 2.0 + FIDO2 (both required)"@,
        SlotKind::Tpm2SealedPin => "TPM 2.0 + PIN"@,
        SlotKind::HybridPqKemTpm2 => "hybrid TPM 2.0 + ML-KEM-768"@,
        SlotKind::HybridPqKemTpm2Fido2 => "hybrid TPM 2.0 + FIDO2 + ML-KEM-768"@,
        SlotKind::HybridPqKem1024Tpm2 => "hybrid TPM 2.0 + ML-KEM-1024"@,
        SlotKind::HybridPqKem1024Tpm2Fido2 => "hybrid TPM 2.0 + FIDO2 + ML-KEM-1024"@,
        _ => slot_label_text(k),
    }
}

/// How the revoke dialog names a credential.
pub fn revoke_label(k: SlotKind) -> (s: &'static str)
    ensures
        s@ == revoke_text(k),
{
    match k {
        SlotKind::Empty => "(empty)",
        SlotKind::Passphrase => "passphrase",
        SlotKind::Fido2HmacSecret => "FIDO2 (hmac-secret)",
        SlotKind::Fido2DerivedMvk => "FIDO2 (derived MVK)",
        SlotKind::HybridPqKemPassphrase => "hybrid-PQ + passphrase",
        SlotKind::HybridPqKemFido2 => "hybrid-PQ + FIDO2",
        SlotKind::HybridPqKem1024Passphrase => "hybrid-PQ-1024 + passphrase",
        SlotKind::HybridPqKem1024Fido2 => "hybrid-PQ-1024 + FIDO2",
        SlotKind::Tpm2Sealed => "TPM 2.0 (machine-bound)",
        SlotKind::Tpm2Fido2 => "TPM 2.0 + FIDO2 (both required)",
        SlotKind::Tpm2SealedPin => "TPM 2.0 + PIN",
        SlotKind::HybridPqKemTpm2 => "hybrid TPM 2.0 + ML-KEM-768",
        SlotKind::HybridPqKemTpm2Fido2 => "hybrid TPM 2.0 + FIDO2 + ML-KEM-768",
        SlotKind::HybridPqKem1024Tpm2 => "hybrid TPM 2.0 + ML-KEM-1024",
        SlotKind::HybridPqKem1024Tpm2Fido2 => "hybrid TPM 2.0 + FIDO2 + ML-KEM-1024",
        _ => slot_kind_label(k),
    }
}

/// The emphasis a keyslot's tag is drawn with.
#[derive(Clone, Copy, Debug, PartialEq, Eq, Structural)]
pub enum PillTone {
    Faint,
    Dim,
    Accent,
    Warn,
}

/// Hardware-bound slots stand out; slots that also need a seed file are marked
/// as a thing to look after.
pub open spec fn tone_of(k: SlotKind) -> PillTone {
    match k {
        SlotKind::Empty => PillTone::Faint,
        SlotKind::Passphrase => PillTone::Dim,
        SlotKind::Fido2HmacSecret
        | SlotKind::Fido2DerivedMvk
        | SlotKind::Tpm2Sealed
        | SlotKind::Tpm2Fido2
        | SlotKind::Tpm2SealedPin
        | SlotKind::SepSealed
        | SlotKind::SepSealedBiometric
        | SlotKind::SepFido2
        | SlotKind::SepPassphrase
        | SlotKind::SepFido2Passphrase => PillTone::Accent,
        _ => PillTone::Warn,
    }
}

pub fn pill_tone(k: SlotKind) -> (t: PillTone)
    ensures
        t == tone_of(k),
{
    match k {
        SlotKind::Empty => PillTone::Faint,
        SlotKind::Passphrase => PillTone::Dim,
        SlotKind::Fido2HmacSecret
        | SlotKind::Fido2DerivedMvk
        | SlotKind::Tpm2Sealed
        | SlotKind::Tpm2Fido2
        | SlotKind::Tpm2SealedPin
        | SlotKind::SepSealed
        | SlotKind::SepSealedBiometric
        | SlotKind::SepFido2
        | SlotKind::SepPassphrase
        | SlotKind::SepFido2Passphrase => PillTone::Accent,
        _ => PillTone::Warn,
    }
}

/// The hexadecimal digit of a value below 16.
pub open spec fn hex_digit(d: int) -> char {
    if d < 10 {
        ('0' as int + d) as char
    } else {
        ('a' as int + d - 10) as char
    }
}

fn hex_digit_of(d: u8) -> (c: char)
    requires
        d < 16,
    ensures
        c == hex_digit(d as int),
{
    if d < 10 {
        (48u8 + d) as char
    } else {
        (87u8 + d) as char
    }
}

/// The bytes in hexadecimal, two digits each.
pub open spec fn hex(bytes: Seq<u8>) -> Seq<char>
    decreases bytes.len(),
{
    if bytes.len() == 0 {
        seq![]
    } else {
        hex(bytes.drop_last()).push(hex_digit(bytes.last() as int / 16)).push(
            hex_digit(bytes.last() as int % 16),
        )
    }
}

/// The line that identifies an authenticator keyslot: the first eight bytes of
/// its credential id, and how long the id is.
pub open spec fn credential_text(cred_id: Seq<u8>) -> Seq<char> {
    let shown = if cred_id.len() <= 8 {
        cred_id
    } else {
        cred_id.take(8)
    };
    "cred_id "@ + hex(shown) + "...  ("@ + decimal(cred_id.len()) + " B)"@
}

pub fn credential_line(cred_id: &Vec<u8>) -> (s: String)
    ensures
        s@ == credential_text(cred_id@),
{
    let n: usize = if cred_id.len() <= 8 {
        cred_id.len()
    } else {
        8
    };
    let mut h = String::new();
    let mut i: usize = 0;
    while i < n
        invariant
            i <= n <= cred_id@.len(),
            h@ == hex(cred_id@.take(i as int)),
        decreases n - i,
    {
        let b: u8 = cred_id[i];
        h.push(hex_digit_of(b / 16));
        h.push(hex_digit_of(b % 16));
        assert(cred_id@.take(i + 1).drop_last() =~= cred_id@.take(i as int));
        i = i + 1;
    }
    assert(cred_id@.take(cred_id@.len() as int) =~= cred_id@);
    let mut s = join3("cred_id ", h.as_str(), "...  (");
    s.append(decimal_text(cred_id.len() as u64).as_str());
    s.append(" B)");
    s
}

/// The Argon2id costs of a passphrase keyslot.
pub fn kdf_line(m_cost_kib: u32, t_cost: u32, p_cost: u32) -> (s: String)
    ensures
        s@ == "Argon2id m="@ + decimal(m_cost_kib as nat) + " KiB t="@ + decimal(t_cost as nat)
            + " p="@ + decimal(p_cost as nat),
{
    let mut s = join3("Argon2id m=", decimal_text(m_cost_kib as u64).as_str(), " KiB t=");
    s.append(decimal_text(t_cost as u64).as_str());
    s.append(" p=");
    s.append(decimal_text(p_cost as u64).as_str());
    s
}

} // verus!
