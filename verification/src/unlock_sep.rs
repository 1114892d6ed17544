//! The search among the keyslots of a Secure Enclave.
//!
//! An enclave keyslot may ask for an authenticator, a passphrase and an ML-KEM
//! seed besides. Each slot is tried with exactly the factors of its own kind.

use crate::devices::{conventions, fido2_salt_conventions};
use crate::kinds::Platform;
use crate::script::{Act, Goto, LineView, Script, SecretRef, UnlockFactors, attempt, attempt_or, give_up, note, step, stop};
use crate::sidecar::{HybridEntry, entry_for, find_entry};
use crate::slots::SlotFacts;
use crate::text::{decimal, decimal_text, join2, join3};
use vstd::prelude::*;
use vstd::string::*;

verus! {

/// Whether an enclave slot is in scope: with ML-KEM, or without.
pub open spec fn in_scope(s: SlotFacts, pq: bool) -> bool {
    s.sep && s.hybrid_pq == pq
}

/// Whether some slot in scope binds a passphrase.
pub open spec fn needs_passphrase(slots: Seq<SlotFacts>, pq: bool) -> bool {
    exists|i: int|
        0 <= i < slots.len() && in_scope(#[trigger] slots[i], pq) && slots[i].sep_passphrase
}

/// Whether some slot in scope binds an authenticator.
pub open spec fn needs_fido2(slots: Seq<SlotFacts>, pq: bool) -> bool {
    exists|i: int|
        0 <= i < slots.len() && in_scope(#[trigger] slots[i], pq) && slots[i].sep_fido2
}

/// Whether some slot is in scope.
pub open spec fn any_in_scope(slots: Seq<SlotFacts>, pq: bool) -> bool {
    exists|i: int| 0 <= i < slots.len() && in_scope(#[trigger] slots[i], pq)
}

/// What the slots in scope ask for.
pub struct SepNeeds {
    pub any: bool,
    pub passphrase: bool,
    pub fido2: bool,
}

pub fn sep_needs(slots: &Vec<SlotFacts>, pq: bool) -> (n: SepNeeds)
    ensures
        n.any == any_in_scope(slots@, pq),
        n.passphrase == needs_passphrase(slots@, pq),
        n.fido2 == needs_fido2(slots@, pq),
{
    let mut any: bool = false;
    let mut passphrase: bool = false;
    let mut fido2: bool = false;
    let mut i: usize = 0;
    while i < slots.len()
        invariant
            i <= slots@.len(),
            any == exists|k: int| 0 <= k < i && in_scope(#[trigger] slots@[k], pq),
            passphrase == exists|k: int|
                0 <= k < i && in_scope(#[trigger] slots@[k], pq) && slots@[k].sep_passphrase,
            fido2 == exists|k: int|
                0 <= k < i && in_scope(#[trigger] slots@[k], pq) && slots@[k].sep_fido2,
        decreases slots.len() - i,
    {
        if slots[i].sep && slots[i].hybrid_pq == pq {
            assert(in_scope(slots@[i as int], pq));
            any = true;
            if slots[i].sep_passphrase {
                passphrase = true;
            }
            if slots[i].sep_fido2 {
                fido2 = true;
            }
        }
        i = i + 1;
    }
    SepNeeds { any, passphrase, fido2 }
}

/// `FIDO2 slot 3: `.
pub open spec fn fido2_slot_text(i: int) -> Seq<char> {
    "FIDO2 slot "@ + decimal(i as nat) + ": "@
}

/// One try for each salt convention; the first that gives a secret goes on at
/// `open`, and if none does the slot is passed over.
pub open spec fn hmac_tries(start: int, i: usize, salts: Seq<bool>) -> Seq<LineView> {
    let open = start + salts.len();
    Seq::new(
        salts.len(),
        |k: int|
            attempt(
                Act::DeriveSlotHmac { slot: i, stored: false, prehash: salts[k] },
                fido2_slot_text(i as int),
                Goto::At(open as usize),
                if k + 1 < salts.len() {
                    start + k + 1
                } else {
                    open + 1
                },
            ),
    )
}

/// The factors of one enclave slot.
pub open spec fn sep_factors(s: SlotFacts, pq: bool, secret: SecretRef) -> UnlockFactors {
    UnlockFactors::Sep {
        fido2: s.sep_fido2,
        secret: if s.sep_passphrase {
            Some(secret)
        } else {
            None
        },
        pq,
    }
}

pub open spec fn sep_open(
    next: int,
    i: usize,
    s: SlotFacts,
    pq: bool,
    secret: SecretRef,
) -> LineView {
    attempt(
        Act::OpenWith { kind: sep_factors(s, pq, secret), slot: i },
        "open slot "@ + decimal(i as nat) + ": "@,
        Goto::End,
        next,
    )
}

/// The tries on one slot once its ML-KEM secret, if any, is there.
pub open spec fn sep_body(
    start: int,
    p: Platform,
    i: usize,
    s: SlotFacts,
    pq: bool,
    secret: SecretRef,
) -> Seq<LineView> {
    if !s.sep_fido2 {
        seq![sep_open(start + 1, i, s, pq, secret)]
    } else if s.cred_len == 0 {
        seq![note("FIDO2 slot "@ + decimal(i as nat) + " has no stored cred_id"@)]
    } else {
        let salts = conventions(s.salt_prehashed, p.os);
        hmac_tries(start, i, salts).push(sep_open(start + salts.len() + 1, i, s, pq, secret))
    }
}

pub open spec fn no_shared_text(i: int) -> Seq<char> {
    "no ML-KEM shared secret for slot "@ + decimal(i as nat)
}

/// What is done about the keyslot at `i`, from line `start` on.
pub open spec fn sep_block(
    start: int,
    p: Platform,
    i: usize,
    s: SlotFacts,
    pq: bool,
    secret: SecretRef,
    entries: Seq<HybridEntry>,
) -> Seq<LineView> {
    if !in_scope(s, pq) {
        seq![]
    } else if pq {
        match entry_for(entries, i as u8) {
            None => seq![note(no_shared_text(i as int))],
            Some(e) => {
                let body = sep_body(start + 1, p, i, s, pq, secret);
                seq![
                    attempt_or(
                        Act::DecapsulateEntry { entry: e as usize },
                        no_shared_text(i as int),
                        start + 1 + body.len(),
                    ),
                ] + body
            },
        }
    } else {
        sep_body(start, p, i, s, pq, secret)
    }
}

/// The lines of `prefix`, then those for the first `n` keyslots.
pub open spec fn sep_sought(
    prefix: Seq<LineView>,
    p: Platform,
    slots: Seq<SlotFacts>,
    pq: bool,
    secret: SecretRef,
    entries: Seq<HybridEntry>,
    n: int,
) -> Seq<LineView>
    decreases n,
{
    if n <= 0 {
        prefix
    } else {
        let before = sep_sought(prefix, p, slots, pq, secret, entries, n - 1);
        before + sep_block(
            before.len() as int,
            p,
            (n - 1) as usize,
            slots[n - 1],
            pq,
            secret,
            entries,
        )
    }
}

pub open spec fn no_passphrase_text() -> Seq<char> {
    "this vault has a Secure Enclave + passphrase keyslot; enter the slot passphrase to unlock."@
}

pub open spec fn no_pin_text() -> Seq<char> {
    "this vault has a Secure Enclave + FIDO2 keyslot; enter the FIDO2 PIN to unlock."@
}

/// The search for an enclave slot. `has_passphrase` and `has_pin` say whether
/// the user filled those fields in.
pub open spec fn sep_common_lines(
    p: Platform,
    slots: Seq<SlotFacts>,
    pq: bool,
    secret: SecretRef,
    has_passphrase: bool,
    has_pin: bool,
    entries: Seq<HybridEntry>,
) -> Seq<LineView> {
    if needs_passphrase(slots, pq) && !has_passphrase {
        seq![stop(no_passphrase_text())]
    } else if needs_fido2(slots, pq) && !has_pin {
        seq![stop(no_pin_text())]
    } else {
        sep_sought(
            seq![step(Act::OpenSep, ""@)],
            p,
            slots,
            pq,
            secret,
            entries,
            slots.len() as int,
        ).push(give_up("no Secure Enclave keyslot matched the supplied factors"@))
    }
}

fn add_hmac_tries(s: Script, i: usize, salts: &Vec<bool>) -> (r: Script)
    requires
        s@.len() + salts@.len() < usize::MAX,
    ensures
        r@ == s@ + hmac_tries(s@.len() as int, i, salts@),
{
    let ghost before = s@;
    assert(s@.len() == s.lines@.len());
    let start: usize = s.lines.len();
    let open: usize = start + salts.len();
    let lead = join3("FIDO2 slot ", decimal_text(i as u64).as_str(), ": ");
    let mut r = s;
    let mut k: usize = 0;
    assert(r@ =~= before + hmac_tries(before.len() as int, i, salts@).take(0));
    while k < salts.len()
        invariant
            k <= salts@.len(),
            start == before.len(),
            open == start + salts@.len(),
            open < usize::MAX,
            lead@ == fido2_slot_text(i as int),
            r@ == before + hmac_tries(before.len() as int, i, salts@).take(k as int),
        decreases salts.len() - k,
    {
        let to: usize = if k + 1 < salts.len() {
            start + k + 1
        } else {
            open + 1
        };
        r = r.attempt(
            Act::DeriveSlotHmac { slot: i, stored: false, prehash: salts[k] },
            lead.as_str(),
            Goto::At(open),
            to,
        );
        k = k + 1;
        assert(r@ =~= before + hmac_tries(before.len() as int, i, salts@).take(k as int));
    }
    assert(hmac_tries(before.len() as int, i, salts@).take(k as int) =~= hmac_tries(
        before.len() as int,
        i,
        salts@,
    ));
    r
}

fn add_sep_open(s: Script, i: usize, slot: &SlotFacts, pq: bool, secret: SecretRef) -> (r: Script)
    requires
        s@.len() < usize::MAX,
    ensures
        r@ == s@.push(sep_open(s@.len() as int + 1, i, *slot, pq, secret)),
{
    assert(s@.len() == s.lines@.len());
    let next: usize = s.lines.len() + 1;
    let lead = join3("open slot ", decimal_text(i as u64).as_str(), ": ");
    let kind = UnlockFactors::Sep {
        fido2: slot.sep_fido2,
        secret: if slot.sep_passphrase {
            Some(secret)
        } else {
            None
        },
        pq,
    };
    s.attempt(Act::OpenWith { kind, slot: i }, lead.as_str(), Goto::End, next)
}

fn add_sep_body(
    s: Script,
    p: Platform,
    i: usize,
    slot: &SlotFacts,
    pq: bool,
    secret: SecretRef,
) -> (r: Script)
    requires
        s@.len() + 3 < usize::MAX,
    ensures
        r@ == s@ + sep_body(s@.len() as int, p, i, *slot, pq, secret),
{
    let ghost before = s@;
    if !slot.sep_fido2 {
        let r = add_sep_open(s, i, slot, pq, secret);
        assert(r@ =~= before + sep_body(before.len() as int, p, i, *slot, pq, secret));
        r
    } else if slot.cred_len == 0 {
        let text = join3("FIDO2 slot ", decimal_text(i as u64).as_str(), " has no stored cred_id");
        let r = s.note(text);
        assert(r@ =~= before + sep_body(before.len() as int, p, i, *slot, pq, secret));
        r
    } else {
        let salts = fido2_salt_conventions(slot.salt_prehashed, p.os);
        let r = add_sep_open(add_hmac_tries(s, i, &salts), i, slot, pq, secret);
        assert(r@ =~= before + sep_body(before.len() as int, p, i, *slot, pq, secret));
        r
    }
}

/// How many lines the tries on one slot take.
fn sep_body_len(p: Platform, slot: &SlotFacts) -> (n: usize)
    ensures
        n <= 3,
        forall|start: int, i: usize, pq: bool, secret: SecretRef|
            (#[trigger] sep_body(start, p, i, *slot, pq, secret)).len() == n,
{
    if !slot.sep_fido2 || slot.cred_len == 0 {
        1
    } else {
        fido2_salt_conventions(slot.salt_prehashed, p.os).len() + 1
    }
}

fn add_sep_block(
    s: Script,
    p: Platform,
    i: usize,
    slot: &SlotFacts,
    pq: bool,
    secret: SecretRef,
    entries: &Vec<HybridEntry>,
) -> (r: Script)
    requires
        s@.len() + 4 < usize::MAX,
        i < 256,
    ensures
        r@ == s@ + sep_block(s@.len() as int, p, i, *slot, pq, secret, entries@),
        r@.len() <= s@.len() + 4,
{
    let ghost before = s@;
    let count: usize = sep_body_len(p, slot);
    proof {
        assert(sep_body(before.len() as int, p, i, *slot, pq, secret).len() == count);
        assert(sep_body(before.len() as int + 1, p, i, *slot, pq, secret).len() == count);
    }
    if !slot.sep || slot.hybrid_pq != pq {
        assert(s@ =~= before + sep_block(before.len() as int, p, i, *slot, pq, secret, entries@));
        return s;
    }
    if pq {
        let text = join2("no ML-KEM shared secret for slot ", decimal_text(i as u64).as_str());
        match find_entry(entries, i as u8) {
            None => {
                let r = s.note(text);
                assert(r@ =~= before + sep_block(
                    before.len() as int,
                    p,
                    i,
                    *slot,
                    pq,
                    secret,
                    entries@,
                ));
                r
            },
            Some(e) => {
                assert(s@.len() == s.lines@.len());
                let end: usize = s.lines.len() + 1 + count;
                let r = add_sep_body(
                    s.attempt_or(Act::DecapsulateEntry { entry: e }, text, end),
                    p,
                    i,
                    slot,
                    pq,
                    secret,
                );
                assert(r@ =~= before + sep_block(
                    before.len() as int,
                    p,
                    i,
                    *slot,
                    pq,
                    secret,
                    entries@,
                ));
                r
            },
        }
    } else {
        add_sep_body(s, p, i, slot, pq, secret)
    }
}

/// Looks for the enclave slot that opens. `secret` is the passphrase that a slot
/// which binds one gets.
pub fn open_sep_common(
    p: Platform,
    slots: &Vec<SlotFacts>,
    pq: bool,
    secret: SecretRef,
    has_passphrase: bool,
    has_pin: bool,
    entries: &Vec<HybridEntry>,
) -> (s: Script)
    requires
        slots@.len() <= 256,
    ensures
        s@ == sep_common_lines(p, slots@, pq, secret, has_passphrase, has_pin, entries@),
{
    let needs = sep_needs(slots, pq);
    if needs.passphrase && !has_passphrase {
        return Script::refuse(
            "this vault has a Secure Enclave + passphrase keyslot; enter the slot passphrase to unlock.",
        );
    }
    if needs.fido2 && !has_pin {
        return Script::refuse(
            "this vault has a Secure Enclave + FIDO2 keyslot; enter the FIDO2 PIN to unlock.",
        );
    }
    let mut r = Script::new().step(Act::OpenSep, "");
    let ghost prefix = r@;
    let mut i: usize = 0;
    assert(prefix =~= seq![step(Act::OpenSep, ""@)]);
    while i < slots.len()
        invariant
            i <= slots@.len() <= 256,
            r@ == sep_sought(prefix, p, slots@, pq, secret, entries@, i as int),
            r@.len() <= 1 + 4 * i,
        decreases slots.len() - i,
    {
        r = add_sep_block(r, p, i, &slots[i], pq, secret, entries);
        i = i + 1;
    }
    r.give_up("no Secure Enclave keyslot matched the supplied factors")
}

} // verus!
