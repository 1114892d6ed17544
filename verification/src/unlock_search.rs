//! The search for the keyslot that the collected factors open.
//!
//! A vault may have several keyslots of the same kind. They are tried in order;
//! the error of the last try is the one that is reported if none opens.

use crate::devices::{conventions, fido2_salt_conventions};
use crate::kinds::{Platform, PqParams, SlotKind, pq_params_name, pq_params_text};
use crate::script::{Act, Goto, LineView, Script, UnlockFactors, attempt, give_up, note, stop};
use crate::sidecar::{HybridEntry, entry_for, find_entry};
use crate::slots::SlotFacts;
use crate::text::{decimal, decimal_text, join2, join3};
use vstd::prelude::*;
use vstd::string::*;

verus! {

/// A search among the keyslots: which ones are tried, and with what.
#[derive(Clone, Copy, Debug, PartialEq, Eq, Structural)]
pub enum Quest {
    Fido2,
    HybridPqFido2,
    Tpm2Fido2,
    HybridPqTpm2,
    HybridPqTpm2Fido2,
}

impl Quest {
    pub open spec fn factors_spec(self) -> UnlockFactors {
        match self {
            Quest::Fido2 => UnlockFactors::Fido2,
            Quest::HybridPqFido2 => UnlockFactors::HybridPqFido2,
            Quest::Tpm2Fido2 => UnlockFactors::Tpm2Fido2,
            Quest::HybridPqTpm2 => UnlockFactors::HybridPqTpm2,
            Quest::HybridPqTpm2Fido2 => UnlockFactors::HybridPqTpm2Fido2,
        }
    }

    /// The factors that are handed over.
    pub fn factors(self) -> (f: UnlockFactors)
        ensures
            f == self.factors_spec(),
    {
        match self {
            Quest::Fido2 => UnlockFactors::Fido2,
            Quest::HybridPqFido2 => UnlockFactors::HybridPqFido2,
            Quest::Tpm2Fido2 => UnlockFactors::Tpm2Fido2,
            Quest::HybridPqTpm2 => UnlockFactors::HybridPqTpm2,
            Quest::HybridPqTpm2Fido2 => UnlockFactors::HybridPqTpm2Fido2,
        }
    }

    /// Whether a keyslot is of the kind that is looked for.
    pub open spec fn wants_spec(self, s: SlotFacts) -> bool {
        match self {
            Quest::Fido2 => s.kind == SlotKind::Fido2HmacSecret || s.kind
                == SlotKind::Fido2DerivedMvk,
            Quest::HybridPqFido2 => s.hybrid_pq_fido2,
            Quest::Tpm2Fido2 => s.kind == SlotKind::Tpm2Fido2,
            Quest::HybridPqTpm2 => s.kind == SlotKind::HybridPqKemTpm2 || s.kind
                == SlotKind::HybridPqKem1024Tpm2,
            Quest::HybridPqTpm2Fido2 => s.kind == SlotKind::HybridPqKemTpm2Fido2 || s.kind
                == SlotKind::HybridPqKem1024Tpm2Fido2,
        }
    }

    pub fn wants(self, s: &SlotFacts) -> (b: bool)
        ensures
            b == self.wants_spec(*s),
    {
        match self {
            Quest::Fido2 => s.kind == SlotKind::Fido2HmacSecret || s.kind
                == SlotKind::Fido2DerivedMvk,
            Quest::HybridPqFido2 => s.hybrid_pq_fido2,
            Quest::Tpm2Fido2 => s.kind == SlotKind::Tpm2Fido2,
            Quest::HybridPqTpm2 => s.kind == SlotKind::HybridPqKemTpm2 || s.kind
                == SlotKind::HybridPqKem1024Tpm2,
            Quest::HybridPqTpm2Fido2 => s.kind == SlotKind::HybridPqKemTpm2Fido2 || s.kind
                == SlotKind::HybridPqKem1024Tpm2Fido2,
        }
    }

    /// Whether the authenticator takes part.
    pub open spec fn fido2(self) -> bool {
        self != Quest::HybridPqTpm2
    }

    /// Whether ML-KEM takes part.
    pub open spec fn pq(self) -> bool {
        self == Quest::HybridPqFido2 || self == Quest::HybridPqTpm2 || self
            == Quest::HybridPqTpm2Fido2
    }

    /// Whether the credential is the one stored beside a TPM blob.
    pub open spec fn stored_cred(self) -> bool {
        self == Quest::Tpm2Fido2 || self == Quest::HybridPqTpm2Fido2
    }

    pub open spec fn hmac_lead_text(self) -> Seq<char> {
        if self == Quest::Tpm2Fido2 {
            "FIDO2 hmac-secret: "@
        } else {
            "FIDO2: "@
        }
    }

    fn hmac_lead(self) -> (s: &'static str)
        ensures
            s@ == self.hmac_lead_text(),
    {
        if self == Quest::Tpm2Fido2 {
            "FIDO2 hmac-secret: "
        } else {
            "FIDO2: "
        }
    }

    pub open spec fn decap_lead_text(self, i: int, level: PqParams) -> Seq<char> {
        if self == Quest::HybridPqFido2 {
            decap_level_text(i, level)
        } else {
            "decap slot "@ + decimal(i as nat) + ": "@
        }
    }

    fn decap_lead(self, i: usize, level: PqParams) -> (s: String)
        ensures
            s@ == self.decap_lead_text(i as int, level),
    {
        if self == Quest::HybridPqFido2 {
            decap_level(i, level)
        } else {
            join3("decap slot ", decimal_text(i as u64).as_str(), ": ")
        }
    }

    pub open spec fn open_lead_text(self, i: int) -> Seq<char> {
        if self == Quest::HybridPqFido2 {
            open_slot_text(i)
        } else {
            ""@
        }
    }

    fn open_lead(self, i: usize) -> (s: String)
        ensures
            s@ == self.open_lead_text(i as int),
    {
        if self == Quest::HybridPqFido2 {
            open_slot(i)
        } else {
            "".to_owned()
        }
    }

    /// What is reported if there was nothing to try.
    pub open spec fn nothing_text(self) -> Seq<char> {
        match self {
            Quest::Fido2 => "no FIDO2 keyslot in this vault"@,
            Quest::HybridPqFido2 => "hybrid-fido2 unlock failed"@,
            Quest::Tpm2Fido2 => "no Tpm2Fido2 slot matched the connected authenticator + local TPM"@,
            Quest::HybridPqTpm2 => "no hybrid-pq-tpm2 slot matched the local TPM"@,
            Quest::HybridPqTpm2Fido2 => "no hybrid-pq-tpm2-fido2 slot matched all 3 factors"@,
        }
    }

    fn nothing(self) -> (s: &'static str)
        ensures
            s@ == self.nothing_text(),
    {
        match self {
            Quest::Fido2 => "no FIDO2 keyslot in this vault",
            Quest::HybridPqFido2 => "hybrid-fido2 unlock failed",
            Quest::Tpm2Fido2 => "no Tpm2Fido2 slot matched the connected authenticator + local TPM",
            Quest::HybridPqTpm2 => "no hybrid-pq-tpm2 slot matched the local TPM",
            Quest::HybridPqTpm2Fido2 => "no hybrid-pq-tpm2-fido2 slot matched all 3 factors",
        }
    }
}

/// `decap slot 3 (Ml768): `.
pub open spec fn decap_level_text(i: int, level: PqParams) -> Seq<char> {
    "decap slot "@ + decimal(i as nat) + " ("@ + pq_params_text(level) + "): "@
}

fn decap_level(i: usize, level: PqParams) -> (s: String)
    ensures
        s@ == decap_level_text(i as int, level),
{
    let mut s = join3("decap slot ", decimal_text(i as u64).as_str(), " (");
    s.append(pq_params_name(level));
    s.append("): ");
    s
}

/// `open slot 3: `.
pub open spec fn open_slot_text(i: int) -> Seq<char> {
    "open slot "@ + decimal(i as nat) + ": "@
}

fn open_slot(i: usize) -> (s: String)
    ensures
        s@ == open_slot_text(i as int),
{
    join3("open slot ", decimal_text(i as u64).as_str(), ": ")
}

/// The tries on one keyslot with an authenticator: one for each salt
/// convention, from line `start` on. A failed one goes on with the next.
pub open spec fn tries(start: int, q: Quest, i: usize, salts: Seq<bool>) -> Seq<LineView>
    decreases salts.len(),
{
    if salts.len() == 0 {
        seq![]
    } else {
        let next = start + 2 * salts.len();
        tries(start, q, i, salts.drop_last()).push(
            attempt(
                Act::DeriveSlotHmac { slot: i, stored: q.stored_cred(), prehash: salts.last() },
                q.hmac_lead_text(),
                Goto::Next,
                next,
            ),
        ).push(
            attempt(
                Act::OpenWith { kind: q.factors_spec(), slot: i },
                q.open_lead_text(i as int),
                Goto::End,
                next,
            ),
        )
    }
}

/// The tries on one keyslot, from line `start` on.
pub open spec fn opens_of(start: int, q: Quest, p: Platform, i: usize, s: SlotFacts) -> Seq<
    LineView,
> {
    if q.fido2() {
        tries(start, q, i, conventions(s.salt_prehashed, p.os))
    } else {
        seq![
            attempt(
                Act::OpenWith { kind: q.factors_spec(), slot: i },
                q.open_lead_text(i as int),
                Goto::End,
                start + 1,
            ),
        ]
    }
}

/// The sidecar entry of a keyslot.
pub open spec fn entry_of(entries: Seq<HybridEntry>, i: int) -> Option<int> {
    entry_for(entries, i as u8)
}

/// Whether a keyslot is tried.
pub open spec fn candidate(q: Quest, i: int, s: SlotFacts, entries: Seq<HybridEntry>) -> bool {
    &&& q.wants_spec(s)
    &&& q.stored_cred() ==> s.tpm2_fido2_cred
    &&& q.pq() ==> entry_of(entries, i) is Some
}

/// What is done about the keyslot at `i`, from line `start` on.
pub open spec fn block(
    start: int,
    q: Quest,
    p: Platform,
    i: usize,
    s: SlotFacts,
    entries: Seq<HybridEntry>,
) -> Seq<LineView> {
    if !q.wants_spec(s) || (q.stored_cred() && !s.tpm2_fido2_cred) {
        seq![]
    } else if q.pq() {
        match entry_of(entries, i as int) {
            None => seq![note("no sidecar entry for slot "@ + decimal(i as nat))],
            Some(e) => {
                let rest = opens_of(start + 1, q, p, i, s);
                seq![
                    attempt(
                        Act::DecapsulateEntry { entry: e as usize },
                        q.decap_lead_text(i as int, entries[e].level),
                        Goto::Next,
                        start + 1 + rest.len(),
                    ),
                ] + rest
            },
        }
    } else {
        opens_of(start, q, p, i, s)
    }
}

/// The lines of `prefix`, then those for the first `n` keyslots.
pub open spec fn sought(
    prefix: Seq<LineView>,
    q: Quest,
    p: Platform,
    slots: Seq<SlotFacts>,
    entries: Seq<HybridEntry>,
    n: int,
) -> Seq<LineView>
    decreases n,
{
    if n <= 0 {
        prefix
    } else {
        let before = sought(prefix, q, p, slots, entries, n - 1);
        before + block(before.len() as int, q, p, (n - 1) as usize, slots[n - 1], entries)
    }
}

/// The whole search.
pub open spec fn quest_lines(
    prefix: Seq<LineView>,
    q: Quest,
    p: Platform,
    slots: Seq<SlotFacts>,
    entries: Seq<HybridEntry>,
) -> Seq<LineView> {
    sought(prefix, q, p, slots, entries, slots.len() as int).push(give_up(q.nothing_text()))
}

pub proof fn lemma_tries_len(start: int, q: Quest, i: usize, salts: Seq<bool>)
    ensures
        tries(start, q, i, salts).len() == 2 * salts.len(),
    decreases salts.len(),
{
    if salts.len() > 0 {
        lemma_tries_len(start, q, i, salts.drop_last());
    }
}

pub proof fn lemma_block_len(
    start: int,
    q: Quest,
    p: Platform,
    i: usize,
    s: SlotFacts,
    entries: Seq<HybridEntry>,
)
    ensures
        block(start, q, p, i, s, entries).len() <= 5,
{
    lemma_tries_len(start, q, i, conventions(s.salt_prehashed, p.os));
    lemma_tries_len(start + 1, q, i, conventions(s.salt_prehashed, p.os));
}

fn add_tries(s: Script, q: Quest, i: usize, salts: &Vec<bool>) -> (r: Script)
    requires
        s@.len() + 2 * salts@.len() <= usize::MAX,
    ensures
        r@ == s@ + tries(s@.len() as int, q, i, salts@),
{
    let ghost before = s@;
    let mut r = s;
    let mut k: usize = 0;
    let lead = q.open_lead(i);
    let stored: bool = q == Quest::Tpm2Fido2 || q == Quest::HybridPqTpm2Fido2;
    assert(salts@.take(0) =~= Seq::<bool>::empty());
    assert(r@ =~= before + tries(before.len() as int, q, i, salts@.take(0)));
    while k < salts.len()
        invariant
            k <= salts@.len(),
            before.len() + 2 * salts@.len() <= usize::MAX,
            lead@ == q.open_lead_text(i as int),
            stored == q.stored_cred(),
            r@ == before + tries(before.len() as int, q, i, salts@.take(k as int)),
        decreases salts.len() - k,
    {
        proof {
            lemma_tries_len(before.len() as int, q, i, salts@.take(k as int));
            assert(salts@.take(k + 1).drop_last() =~= salts@.take(k as int));
            assert(r@.len() == r.lines@.len());
        }
        let next: usize = r.lines.len() + 2;
        r = r.attempt(
            Act::DeriveSlotHmac { slot: i, stored, prehash: salts[k] },
            q.hmac_lead(),
            Goto::Next,
            next,
        ).attempt(
            Act::OpenWith { kind: q.factors(), slot: i },
            lead.as_str(),
            Goto::End,
            next,
        );
        k = k + 1;
        assert(r@ =~= before + tries(before.len() as int, q, i, salts@.take(k as int)));
    }
    assert(salts@.take(k as int) =~= salts@);
    r
}

fn add_opens(s: Script, q: Quest, p: Platform, i: usize, slot: &SlotFacts) -> (r: Script)
    requires
        s@.len() + 4 <= usize::MAX,
    ensures
        r@ == s@ + opens_of(s@.len() as int, q, p, i, *slot),
{
    if q == Quest::HybridPqTpm2 {
        let lead = q.open_lead(i);
        assert(s@.len() == s.lines@.len());
        let next: usize = s.lines.len() + 1;
        let ghost before = s@;
        let r = s.attempt(
            Act::OpenWith { kind: q.factors(), slot: i },
            lead.as_str(),
            Goto::End,
            next,
        );
        assert(r@ =~= before + opens_of(before.len() as int, q, p, i, *slot));
        r
    } else {
        let salts = fido2_salt_conventions(slot.salt_prehashed, p.os);
        add_tries(s, q, i, &salts)
    }
}

fn add_block(
    s: Script,
    q: Quest,
    p: Platform,
    i: usize,
    slot: &SlotFacts,
    entries: &Vec<HybridEntry>,
) -> (r: Script)
    requires
        s@.len() + 5 <= usize::MAX,
        i < 256,
    ensures
        r@ == s@ + block(s@.len() as int, q, p, i, *slot, entries@),
{
    let ghost before = s@;
    if !q.wants(slot) {
        assert(s@ =~= before + block(before.len() as int, q, p, i, *slot, entries@));
        return s;
    }
    if (q == Quest::Tpm2Fido2 || q == Quest::HybridPqTpm2Fido2) && !slot.tpm2_fido2_cred {
        assert(s@ =~= before + block(before.len() as int, q, p, i, *slot, entries@));
        return s;
    }
    if q == Quest::HybridPqFido2 || q == Quest::HybridPqTpm2 || q == Quest::HybridPqTpm2Fido2 {
        match find_entry(entries, i as u8) {
            None => {
                let text = join2("no sidecar entry for slot ", decimal_text(i as u64).as_str());
                let r = s.note(text);
                assert(r@ =~= before + block(before.len() as int, q, p, i, *slot, entries@));
                r
            },
            Some(e) => {
                let tail: usize = if q == Quest::HybridPqTpm2 {
                    1
                } else {
                    fido2_salt_conventions(slot.salt_prehashed, p.os).len() * 2
                };
                proof {
                    lemma_tries_len(
                        before.len() as int + 1,
                        q,
                        i,
                        conventions(slot.salt_prehashed, p.os),
                    );
                    assert(s@.len() == s.lines@.len());
                }
                let end: usize = s.lines.len() + 1 + tail;
                let lead = q.decap_lead(i, entries[e].level);
                let r = add_opens(
                    s.attempt(
                        Act::DecapsulateEntry { entry: e },
                        lead.as_str(),
                        Goto::Next,
                        end,
                    ),
                    q,
                    p,
                    i,
                    slot,
                );
                assert(r@ =~= before + block(before.len() as int, q, p, i, *slot, entries@));
                r
            },
        }
    } else {
        add_opens(s, q, p, i, slot)
    }
}

/// Adds the search to `s`.
pub fn search(
    s: Script,
    q: Quest,
    p: Platform,
    slots: &Vec<SlotFacts>,
    entries: &Vec<HybridEntry>,
) -> (r: Script)
    requires
        slots@.len() <= 256,
        s@.len() <= 16,
    ensures
        r@ == quest_lines(s@, q, p, slots@, entries@),
{
    let ghost prefix = s@;
    let mut r = s;
    let mut i: usize = 0;
    while i < slots.len()
        invariant
            i <= slots@.len() <= 256,
            r@ == sought(prefix, q, p, slots@, entries@, i as int),
            r@.len() <= 16 + 5 * i,
        decreases slots.len() - i,
    {
        proof {
            lemma_block_len(r@.len() as int, q, p, i, slots@[i as int], entries@);
        }
        r = add_block(r, q, p, i, &slots[i], entries);
        i = i + 1;
    }
    r.give_up(q.nothing())
}

/// The tries with a passphrase and each of the first `n` sidecar entries.
pub open spec fn entry_tries(entries: Seq<HybridEntry>, n: int) -> Seq<LineView>
    decreases n,
{
    if n <= 0 {
        seq![]
    } else {
        let e = entries[n - 1];
        entry_tries(entries, n - 1).push(
            attempt(
                Act::DecapsulateEntry { entry: (n - 1) as usize },
                decap_level_text(e.slot_idx as int, e.level),
                Goto::Next,
                2 * n,
            ),
        ).push(
            attempt(
                Act::OpenWith {
                    kind: UnlockFactors::HybridPqPassphrase,
                    slot: e.slot_idx as usize,
                },
                open_slot_text(e.slot_idx as int),
                Goto::End,
                2 * n,
            ),
        )
    }
}

/// Unlocking with a passphrase and an ML-KEM seed: every sidecar entry is tried.
pub open spec fn hybrid_pq_lines(entries: Seq<HybridEntry>) -> Seq<LineView> {
    if entries.len() == 0 {
        seq![stop("hybrid sidecar is empty"@)]
    } else {
        entry_tries(entries, entries.len() as int).push(give_up("hybrid unlock failed"@))
    }
}

pub proof fn lemma_entry_tries_len(entries: Seq<HybridEntry>, n: int)
    requires
        0 <= n,
    ensures
        entry_tries(entries, n).len() == 2 * n,
    decreases n,
{
    if n > 0 {
        lemma_entry_tries_len(entries, n - 1);
    }
}

/// The search once the seed and the sidecar have been read.
pub fn unlock_with_hybrid_pq(entries: &Vec<HybridEntry>) -> (s: Script)
    requires
        entries@.len() <= usize::MAX / 2,
    ensures
        s@ == hybrid_pq_lines(entries@),
{
    if entries.len() == 0 {
        return Script::refuse("hybrid sidecar is empty");
    }
    let mut s = Script::new();
    let mut k: usize = 0;
    while k < entries.len()
        invariant
            k <= entries@.len() <= usize::MAX / 2,
            s@ == entry_tries(entries@, k as int),
        decreases entries.len() - k,
    {
        let slot: usize = entries[k].slot_idx as usize;
        let next: usize = 2 * (k + 1);
        let decap = decap_level(slot, entries[k].level);
        let open = open_slot(slot);
        s = s.attempt(Act::DecapsulateEntry { entry: k }, decap.as_str(), Goto::Next, next).attempt(
            Act::OpenWith { kind: UnlockFactors::HybridPqPassphrase, slot },
            open.as_str(),
            Goto::End,
            next,
        );
        k = k + 1;
    }
    s.give_up("hybrid unlock failed")
}

} // verus!
