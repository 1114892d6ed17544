//! What an unlock of a standard vault hands over: each keyslot is tried with its
//! own factors, under every salt convention that may be its own, and a try that
//! fails leaves the others standing.

use crate::devices::conventions;
use crate::kinds::{Platform, SlotKind, TargetOs, UnlockMethod};
use crate::script::{
    Act, Goto, LineView, OnFailView, SecretRef, UnlockFactors, act_of, attempt, is_step, step,
};
use crate::sidecar::{HybridEntry, entry_for};
use crate::slots::SlotFacts;
use crate::unlock::no_chip_lead;
use crate::unlock_search::{Quest, block, opens_of, quest_lines, sought, tries};
use vstd::prelude::*;

verus! {

/// What an unlock method asks for besides a passphrase.
pub struct Asked {
    pub tpm: bool,
    pub sep: bool,
    pub fido2: bool,
    pub seed: bool,
}

/// What each unlock method asks for.
pub open spec fn asked(m: UnlockMethod) -> Asked {
    let none = Asked { tpm: false, sep: false, fido2: false, seed: false };
    match m {
        UnlockMethod::Passphrase => none,
        UnlockMethod::Fido2 => Asked { fido2: true, ..none },
        UnlockMethod::HybridPq => Asked { seed: true, ..none },
        UnlockMethod::HybridPqFido2 => Asked { fido2: true, seed: true, ..none },
        UnlockMethod::Tpm2 => Asked { tpm: true, ..none },
        UnlockMethod::Tpm2Pin => Asked { tpm: true, ..none },
        UnlockMethod::Tpm2Fido2 => Asked { tpm: true, fido2: true, ..none },
        UnlockMethod::HybridPqTpm2 => Asked { tpm: true, seed: true, ..none },
        UnlockMethod::HybridPqTpm2Fido2 => Asked { tpm: true, fido2: true, seed: true, ..none },
        UnlockMethod::Sep => Asked { sep: true, ..none },
        UnlockMethod::SepFido2 => Asked { sep: true, fido2: true, ..none },
        UnlockMethod::HybridPqSep => Asked { sep: true, seed: true, ..none },
        UnlockMethod::HybridPqSepFido2 => Asked { sep: true, fido2: true, seed: true, ..none },
    }
}

/// Whether the sidecar has an entry for a keyslot.
pub open spec fn has_entry(entries: Seq<HybridEntry>, slot: int) -> bool {
    exists|e: int| 0 <= e < entries.len() && (#[trigger] entries[e]).slot_idx == slot
}

/// Whether a method that looks through the keyslots is to try this one.
pub open spec fn meant_for(
    m: UnlockMethod,
    slot: int,
    s: SlotFacts,
    entries: Seq<HybridEntry>,
) -> bool {
    &&& match m {
        UnlockMethod::Fido2 => s.kind == SlotKind::Fido2HmacSecret || s.kind
            == SlotKind::Fido2DerivedMvk,
        UnlockMethod::HybridPqFido2 => s.hybrid_pq_fido2,
        UnlockMethod::Tpm2Fido2 => s.kind == SlotKind::Tpm2Fido2 && s.tpm2_fido2_cred,
        UnlockMethod::HybridPqTpm2 => s.kind == SlotKind::HybridPqKemTpm2 || s.kind
            == SlotKind::HybridPqKem1024Tpm2,
        UnlockMethod::HybridPqTpm2Fido2 => s.tpm2_fido2_cred && (s.kind
            == SlotKind::HybridPqKemTpm2Fido2 || s.kind == SlotKind::HybridPqKem1024Tpm2Fido2),
        UnlockMethod::Sep | UnlockMethod::HybridPqSep => s.sep && s.hybrid_pq == asked(m).seed && (
        s.sep_fido2 ==> s.cred_len > 0),
        _ => false,
    }
    &&& asked(m).seed ==> has_entry(entries, slot)
}

/// The factors that a method hands over for a keyslot.
pub open spec fn factors_of(m: UnlockMethod, s: SlotFacts) -> UnlockFactors {
    match m {
        UnlockMethod::Passphrase => UnlockFactors::Passphrase,
        UnlockMethod::Fido2 => UnlockFactors::Fido2,
        UnlockMethod::HybridPq => UnlockFactors::HybridPqPassphrase,
        UnlockMethod::HybridPqFido2 => UnlockFactors::HybridPqFido2,
        UnlockMethod::Tpm2 => UnlockFactors::Tpm2,
        UnlockMethod::Tpm2Pin => UnlockFactors::Tpm2Pin,
        UnlockMethod::Tpm2Fido2 => UnlockFactors::Tpm2Fido2,
        UnlockMethod::HybridPqTpm2 => UnlockFactors::HybridPqTpm2,
        UnlockMethod::HybridPqTpm2Fido2 => UnlockFactors::HybridPqTpm2Fido2,
        _ => UnlockFactors::Sep {
            fido2: s.sep_fido2,
            secret: if s.sep_passphrase {
                Some(SecretRef::Passphrase)
            } else {
                None
            },
            pq: asked(m).seed,
        },
    }
}

/// Whether the salt of a keyslot may have been prehashed as `prehash` says: as
/// the slot declares it, and on Windows in either way.
pub open spec fn may_be_salted(s: SlotFacts, os: TargetOs, prehash: bool) -> bool {
    prehash == s.salt_prehashed || os == TargetOs::Windows
}

/// The keyslot that a line is about.
pub open spec fn about(line: LineView) -> Option<usize> {
    match line {
        LineView::Do { act, .. } => match act {
            Act::DeriveSlotHmac { slot, .. } => Some(slot),
            Act::OpenWith { slot, .. } => Some(slot),
            _ => None,
        },
        _ => None,
    }
}

/// Whether a line goes on at `ok` when it succeeds, and at line `to` when it
/// fails.
pub open spec fn branches(line: LineView, ok: Goto, to: int) -> bool {
    line matches LineView::Do { ok: next, fail, .. } && next == ok && fail == (OnFailView::Skip {
        to,
    })
}

/// Whether a line decapsulates an entry of a keyslot.
pub open spec fn shares(line: LineView, slot: usize, entries: Seq<HybridEntry>) -> bool {
    line matches LineView::Do { act: Act::DecapsulateEntry { entry }, ok, .. } && ok == Goto::Next
        && entry < entries.len() && entries[entry as int].slot_idx == slot
}

/// Whether an entry of a keyslot is decapsulated before line `k`, with nothing
/// between that is not about that slot.
pub open spec fn shared_before(
    lines: Seq<LineView>,
    k: int,
    slot: usize,
    entries: Seq<HybridEntry>,
) -> bool {
    exists|d: int|
        0 <= d < k && #[trigger] shares(lines[d], slot, entries) && forall|j: int|
            d < j <= k ==> about(#[trigger] lines[j]) == Some(slot)
}

/// Whether an act derives the secret of a keyslot under a salt convention, from
/// the credential that belongs to it.
pub open spec fn derives(act: Act, m: UnlockMethod, slot: usize, prehash: bool) -> bool {
    act == (Act::DeriveSlotHmac { slot, stored: asked(m).tpm, prehash })
}

/// Whether line `k` of a search is what it should be, if the first line has the
/// number `at`: a try to open a keyslot hands over that slot's factors, right
/// after they were collected from that slot's own material; one that fails goes
/// on with the try after it, and what fails before a try leaves out the tries on
/// the same slot that rest on it, and nothing else.
pub open spec fn whole_try(
    lines: Seq<LineView>,
    at: int,
    k: int,
    m: UnlockMethod,
    p: Platform,
    slots: Seq<SlotFacts>,
    entries: Seq<HybridEntry>,
) -> bool {
    match lines[k] {
        LineView::Do { act, ok, fail, .. } => match act {
            Act::OpenWith { kind, slot } => {
                &&& slot < slots.len()
                &&& meant_for(m, slot as int, slots[slot as int], entries)
                &&& kind == factors_of(m, slots[slot as int])
                &&& branches(lines[k], Goto::End, at + k + 1)
                &&& asked(m).fido2 ==> k > 0 && lines[k - 1] is Do && (derives(
                    act_of(lines[k - 1]),
                    m,
                    slot,
                    true,
                ) || derives(act_of(lines[k - 1]), m, slot, false))
                &&& asked(m).seed ==> shared_before(lines, k, slot, entries)
            },
            Act::DeriveSlotHmac { slot, stored, prehash } => {
                &&& slot < slots.len()
                &&& stored == asked(m).tpm
                &&& may_be_salted(slots[slot as int], p.os, prehash)
                &&& branches(lines[k], Goto::Next, at + k + 2)
                &&& k + 1 < lines.len() && lines[k + 1] is Do && act_of(lines[k + 1]) is OpenWith
                &&& about(lines[k + 1]) == Some(slot)
                &&& prehash != slots[slot as int].salt_prehashed ==> k >= 2 && lines[k - 2] is Do
                    && derives(act_of(lines[k - 2]), m, slot, !prehash)
            },
            Act::DecapsulateEntry { entry } => {
                &&& entry < entries.len()
                &&& ok == Goto::Next
                &&& fail matches OnFailView::Skip { to } && k < to - at <= lines.len() && forall|
                    j: int,
                |
                    k < j < to - at ==> about(#[trigger] lines[j]) == Some(
                        entries[entry as int].slot_idx as usize,
                    )
            },
            Act::OpenTpm => is_step(lines[k]) && asked(m).tpm,
            _ => false,
        },
        LineView::Note { .. } => true,
        _ => false,
    }
}

/// Whether all lines of a search are what they should be.
pub open spec fn whole_tries(
    lines: Seq<LineView>,
    at: int,
    m: UnlockMethod,
    p: Platform,
    slots: Seq<SlotFacts>,
    entries: Seq<HybridEntry>,
) -> bool {
    forall|k: int|
        0 <= k < lines.len() ==> #[trigger] whole_try(lines, at, k, m, p, slots, entries)
}

/// Whether the keyslots come in order, and all below `n`.
pub open spec fn slots_in_order(lines: Seq<LineView>, n: int) -> bool {
    &&& forall|k: int|
        0 <= k < lines.len() && about(#[trigger] lines[k]) is Some ==> about(lines[k])->0 < n
    &&& forall|j: int, k: int|
        0 <= j < k < lines.len() && about(#[trigger] lines[j]) is Some && about(
            #[trigger] lines[k],
        ) is Some ==> about(lines[j])->0 <= about(lines[k])->0
}

/// Whether the secret of a keyslot is derived under a salt convention.
pub open spec fn derived_under(
    lines: Seq<LineView>,
    m: UnlockMethod,
    slot: usize,
    prehash: bool,
) -> bool {
    exists|k: int|
        0 <= k < lines.len() && (#[trigger] lines[k]) is Do && derives(
            act_of(lines[k]),
            m,
            slot,
            prehash,
        )
}

/// Whether a keyslot is tried with what the method hands over, under every salt
/// convention that may be its own if an authenticator takes part.
pub open spec fn tried(
    lines: Seq<LineView>,
    m: UnlockMethod,
    p: Platform,
    slot: usize,
    s: SlotFacts,
) -> bool {
    &&& exists|k: int|
        0 <= k < lines.len() && (#[trigger] lines[k]) is Do && act_of(lines[k]) == (Act::OpenWith {
            kind: factors_of(m, s),
            slot,
        })
    &&& forall|prehash: bool|
        (if asked(m).sep {
            s.sep_fido2
        } else {
            asked(m).fido2
        }) && may_be_salted(s, p.os, prehash) ==> #[trigger] derived_under(lines, m, slot, prehash)
}

/// The entry that is found for a slot is the first one that belongs to it, and
/// one is found if there is one.
pub proof fn law_entry_is_the_first_of_its_slot(entries: Seq<HybridEntry>, slot: u8)
    ensures
        has_entry(entries, slot as int) <==> entry_for(entries, slot) is Some,
        entry_for(entries, slot) matches Some(e) ==> {
            &&& 0 <= e < entries.len()
            &&& entries[e].slot_idx == slot
            &&& forall|k: int| 0 <= k < e ==> (#[trigger] entries[k]).slot_idx != slot
        },
    decreases entries.len(),
{
    if entries.len() > 0 {
        let rest = entries.skip(1);
        law_entry_is_the_first_of_its_slot(rest, slot);
        if entries[0].slot_idx != slot {
            if has_entry(entries, slot as int) {
                let e = choose|e: int|
                    0 <= e < entries.len() && (#[trigger] entries[e]).slot_idx == slot;
                assert(rest[e - 1].slot_idx == slot);
            }
            if let Some(e) = entry_for(rest, slot) {
                assert(entries[e + 1] == rest[e]);
                assert forall|k: int| 0 <= k < e + 1 implies (#[trigger] entries[k]).slot_idx
                    != slot by {
                    if k > 0 {
                        assert(rest[k - 1].slot_idx != slot);
                    }
                }
            }
        }
    }
}

/// Whether a method looks through the keyslots in this way.
pub open spec fn is_quest(m: UnlockMethod, q: Quest) -> bool {
    match m {
        UnlockMethod::Fido2 => q == Quest::Fido2,
        UnlockMethod::HybridPqFido2 => q == Quest::HybridPqFido2,
        UnlockMethod::Tpm2Fido2 => q == Quest::Tpm2Fido2,
        UnlockMethod::HybridPqTpm2 => q == Quest::HybridPqTpm2,
        UnlockMethod::HybridPqTpm2Fido2 => q == Quest::HybridPqTpm2Fido2,
        _ => false,
    }
}

spec fn derive_line(q: Quest, i: usize, prehash: bool, to: int) -> LineView {
    attempt(
        Act::DeriveSlotHmac { slot: i, stored: q.stored_cred(), prehash },
        q.hmac_lead_text(),
        Goto::Next,
        to,
    )
}

spec fn open_line(q: Quest, i: usize, to: int) -> LineView {
    attempt(
        Act::OpenWith { kind: q.factors_spec(), slot: i },
        q.open_lead_text(i as int),
        Goto::End,
        to,
    )
}

proof fn lemma_tries_shape(start: int, q: Quest, i: usize, salts: Seq<bool>)
    ensures
        salts.len() == 1 ==> tries(start, q, i, salts) == seq![
            derive_line(q, i, salts[0], start + 2),
            open_line(q, i, start + 2),
        ],
        salts.len() == 2 ==> tries(start, q, i, salts) == seq![
            derive_line(q, i, salts[0], start + 2),
            open_line(q, i, start + 2),
            derive_line(q, i, salts[1], start + 4),
            open_line(q, i, start + 4),
        ],
{
    reveal_with_fuel(tries, 3);
    if salts.len() == 1 {
        assert(tries(start, q, i, salts) =~= seq![
            derive_line(q, i, salts[0], start + 2),
            open_line(q, i, start + 2),
        ]);
    } else if salts.len() == 2 {
        assert(salts.drop_last().last() == salts[0]);
        assert(tries(start, q, i, salts) =~= seq![
            derive_line(q, i, salts[0], start + 2),
            open_line(q, i, start + 2),
            derive_line(q, i, salts[1], start + 4),
            open_line(q, i, start + 4),
        ]);
    }
}

/// The tries on one keyslot, without those that need an entry of the sidecar.
proof fn lemma_opens_shape(start: int, q: Quest, p: Platform, i: usize, s: SlotFacts)
    ensures
        ({
            let l = opens_of(start, q, p, i, s);
            let first = s.salt_prehashed;
            if q == Quest::HybridPqTpm2 {
                l == seq![open_line(q, i, start + 1)]
            } else if p.os == TargetOs::Windows {
                l == seq![
                    derive_line(q, i, first, start + 2),
                    open_line(q, i, start + 2),
                    derive_line(q, i, !first, start + 4),
                    open_line(q, i, start + 4),
                ]
            } else {
                l == seq![derive_line(q, i, first, start + 2), open_line(q, i, start + 2)]
            }
        }),
{
    lemma_tries_shape(start, q, i, conventions(s.salt_prehashed, p.os));
}

/// A block for one keyslot is whole.
#[verifier::rlimit(60)]
proof fn lemma_block_whole(
    start: int,
    m: UnlockMethod,
    q: Quest,
    p: Platform,
    i: usize,
    slots: Seq<SlotFacts>,
    entries: Seq<HybridEntry>,
)
    requires
        is_quest(m, q),
        i < slots.len() <= 256,
        entries.len() <= usize::MAX,
    ensures
        whole_tries(block(start, q, p, i, slots[i as int], entries), start, m, p, slots, entries),
        forall|k: int|
            0 <= k < block(start, q, p, i, slots[i as int], entries).len() ==> about(
                #[trigger] block(start, q, p, i, slots[i as int], entries)[k],
            ) == Some(i) || about(block(start, q, p, i, slots[i as int], entries)[k]) is None,
        meant_for(m, i as int, slots[i as int], entries) ==> tried(
            block(start, q, p, i, slots[i as int], entries),
            m,
            p,
            i,
            slots[i as int],
        ),
{
    let s = slots[i as int];
    let b = block(start, q, p, i, s, entries);
    law_entry_is_the_first_of_its_slot(entries, i as u8);
    lemma_opens_shape(start, q, p, i, s);
    lemma_opens_shape(start + 1, q, p, i, s);
    if meant_for(m, i as int, s, entries) {
        if asked(m).seed {
            assert(b[0] is Do);
            assert(shares(b[0], i, entries));
            if asked(m).fido2 {
                assert(derives(act_of(b[1]), m, i, s.salt_prehashed));
                assert(act_of(b[2]) is OpenWith);
                assert(shared_before(b, 2, i, entries));
                if p.os == TargetOs::Windows {
                    assert(derives(act_of(b[3]), m, i, !s.salt_prehashed));
                    assert(act_of(b[4]) is OpenWith);
                    assert(shared_before(b, 4, i, entries));
                }
            } else {
                assert(act_of(b[1]) is OpenWith);
                assert(shared_before(b, 1, i, entries));
            }
        } else {
            assert(derives(act_of(b[0]), m, i, s.salt_prehashed));
            assert(act_of(b[1]) is OpenWith);
            if p.os == TargetOs::Windows {
                assert(derives(act_of(b[2]), m, i, !s.salt_prehashed));
                assert(act_of(b[3]) is OpenWith);
            }
        }
    }
}

/// What is whole by itself is whole after something else that is whole.
proof fn lemma_whole_after(
    a: Seq<LineView>,
    b: Seq<LineView>,
    m: UnlockMethod,
    p: Platform,
    slots: Seq<SlotFacts>,
    entries: Seq<HybridEntry>,
)
    requires
        whole_tries(a, 0, m, p, slots, entries),
        whole_tries(b, a.len() as int, m, p, slots, entries),
    ensures
        whole_tries(a + b, 0, m, p, slots, entries),
{
    let c = a + b;
    let n = a.len() as int;
    assert forall|k: int| 0 <= k < c.len() implies #[trigger] whole_try(
        c,
        0,
        k,
        m,
        p,
        slots,
        entries,
    ) by {
        if k < n {
            assert(whole_try(a, 0, k, m, p, slots, entries));
            assert(c[k] == a[k]);
            if k > 0 {
                assert(c[k - 1] == a[k - 1]);
            }
            if k > 1 {
                assert(c[k - 2] == a[k - 2]);
            }
            if k + 1 < n {
                assert(c[k + 1] == a[k + 1]);
            }
            if let LineView::Do { act: Act::OpenWith { slot, .. }, .. } = c[k] {
                if asked(m).seed {
                    let d = choose|d: int|
                        0 <= d < k && #[trigger] shares(a[d], slot, entries) && forall|j: int|
                            d < j <= k ==> about(#[trigger] a[j]) == Some(slot);
                    assert(c[d] == a[d]);
                    assert(shares(c[d], slot, entries));
                    assert forall|j: int| d < j <= k implies about(#[trigger] c[j]) == Some(
                        slot,
                    ) by {
                        assert(c[j] == a[j]);
                    }
                }
            }
            if let LineView::Do {
                act: Act::DecapsulateEntry { entry },
                fail: OnFailView::Skip { to },
                ..
            } = c[k] {
                assert forall|j: int| k < j < to implies about(#[trigger] c[j]) == Some(
                    entries[entry as int].slot_idx as usize,
                ) by {
                    assert(c[j] == a[j]);
                }
            }
        } else {
            let h = k - n;
            assert(whole_try(b, n, h, m, p, slots, entries));
            assert(c[k] == b[h]);
            if h > 0 {
                assert(c[k - 1] == b[h - 1]);
            }
            if h > 1 {
                assert(c[k - 2] == b[h - 2]);
            }
            if h + 1 < b.len() {
                assert(c[k + 1] == b[h + 1]);
            }
            if let LineView::Do { act: Act::OpenWith { slot, .. }, .. } = c[k] {
                if asked(m).seed {
                    let d = choose|d: int|
                        0 <= d < h && #[trigger] shares(b[d], slot, entries) && forall|j: int|
                            d < j <= h ==> about(#[trigger] b[j]) == Some(slot);
                    assert(c[n + d] == b[d]);
                    assert(shares(c[n + d], slot, entries));
                    assert forall|j: int| n + d < j <= k implies about(#[trigger] c[j]) == Some(
                        slot,
                    ) by {
                        assert(c[j] == b[j - n]);
                    }
                }
            }
            if let LineView::Do {
                act: Act::DecapsulateEntry { entry },
                fail: OnFailView::Skip { to },
                ..
            } = c[k] {
                assert forall|j: int| k < j < to implies about(#[trigger] c[j]) == Some(
                    entries[entry as int].slot_idx as usize,
                ) by {
                    assert(c[j] == b[j - n]);
                }
            }
        }
    }
}

/// What is tried in part of a script is tried in it.
pub(crate) proof fn lemma_tried_in(
    a: Seq<LineView>,
    b: Seq<LineView>,
    m: UnlockMethod,
    p: Platform,
    slot: usize,
    s: SlotFacts,
)
    ensures
        tried(a, m, p, slot, s) || tried(b, m, p, slot, s) ==> tried(a + b, m, p, slot, s),
{
    let c = a + b;
    let n = a.len() as int;
    let open = Act::OpenWith { kind: factors_of(m, s), slot };
    if tried(a, m, p, slot, s) {
        let k = choose|k: int|
            0 <= k < a.len() && (#[trigger] a[k]) is Do && act_of(a[k]) == open;
        assert(c[k] == a[k]);
        assert forall|prehash: bool|
            derived_under(a, m, slot, prehash) implies #[trigger] derived_under(
            c,
            m,
            slot,
            prehash,
        ) by {
            let d = choose|d: int|
                0 <= d < a.len() && (#[trigger] a[d]) is Do && derives(
                    act_of(a[d]),
                    m,
                    slot,
                    prehash,
                );
            assert(c[d] == a[d]);
        }
    } else if tried(b, m, p, slot, s) {
        let k = choose|k: int|
            0 <= k < b.len() && (#[trigger] b[k]) is Do && act_of(b[k]) == open;
        assert(c[n + k] == b[k]);
        assert forall|prehash: bool|
            derived_under(b, m, slot, prehash) implies #[trigger] derived_under(
            c,
            m,
            slot,
            prehash,
        ) by {
            let d = choose|d: int|
                0 <= d < b.len() && (#[trigger] b[d]) is Do && derives(
                    act_of(b[d]),
                    m,
                    slot,
                    prehash,
                );
            assert(c[n + d] == b[d]);
        }
    }
}

pub(crate) proof fn lemma_order_after(a: Seq<LineView>, b: Seq<LineView>, i: usize)
    requires
        slots_in_order(a, i as int),
        forall|k: int|
            0 <= k < b.len() ==> about(#[trigger] b[k]) == Some(i) || about(b[k]) is None,
    ensures
        slots_in_order(a + b, i + 1),
{
    let c = a + b;
    let n = a.len() as int;
    assert forall|k: int| 0 <= k < c.len() && about(#[trigger] c[k]) is Some implies about(c[k])->0
        < i + 1 by {
        if k < n {
            assert(c[k] == a[k]);
        } else {
            assert(c[k] == b[k - n]);
        }
    }
    assert forall|j: int, k: int|
        0 <= j < k < c.len() && about(#[trigger] c[j]) is Some && about(
            #[trigger] c[k],
        ) is Some implies about(c[j])->0 <= about(c[k])->0 by {
        if k < n {
            assert(c[k] == a[k] && c[j] == a[j]);
        } else {
            assert(c[k] == b[k - n]);
        }
    }
}

proof fn lemma_sought_whole(
    prefix: Seq<LineView>,
    m: UnlockMethod,
    q: Quest,
    p: Platform,
    slots: Seq<SlotFacts>,
    entries: Seq<HybridEntry>,
    n: int,
)
    requires
        is_quest(m, q),
        0 <= n <= slots.len() <= 256,
        entries.len() <= usize::MAX,
        prefix.len() == 0 || asked(m).tpm && prefix == seq![step(Act::OpenTpm, no_chip_lead())],
    ensures
        whole_tries(sought(prefix, q, p, slots, entries, n), 0, m, p, slots, entries),
        slots_in_order(sought(prefix, q, p, slots, entries, n), n),
        forall|i: usize|
            i < n && meant_for(m, i as int, slots[i as int], entries) ==> #[trigger] tried(
                sought(prefix, q, p, slots, entries, n),
                m,
                p,
                i,
                slots[i as int],
            ),
    decreases n,
{
    if n > 0 {
        let i = (n - 1) as usize;
        let a = sought(prefix, q, p, slots, entries, n - 1);
        let b = block(a.len() as int, q, p, i, slots[n - 1], entries);
        lemma_sought_whole(prefix, m, q, p, slots, entries, n - 1);
        lemma_block_whole(a.len() as int, m, q, p, i, slots, entries);
        lemma_whole_after(a, b, m, p, slots, entries);
        lemma_order_after(a, b, i);
        assert forall|j: usize|
            j < n && meant_for(m, j as int, slots[j as int], entries) implies #[trigger] tried(
            a + b,
            m,
            p,
            j,
            slots[j as int],
        ) by {
            lemma_tried_in(a, b, m, p, j, slots[j as int]);
            if j < n - 1 {
                assert(tried(a, m, p, j, slots[j as int]));
            }
        }
    } else {
        assert(whole_tries(prefix, 0, m, p, slots, entries));
    }
}

/// Whether a script looks through the keyslots as the method says: each line is
/// what it should be, each keyslot that is meant is tried, the slots come in
/// order, and at the end the search gives up.
pub open spec fn looks_through(
    lines: Seq<LineView>,
    m: UnlockMethod,
    p: Platform,
    slots: Seq<SlotFacts>,
    entries: Seq<HybridEntry>,
) -> bool {
    &&& lines.len() > 0
    &&& lines.last() is GiveUp
    &&& whole_tries(lines.drop_last(), 0, m, p, slots, entries)
    &&& slots_in_order(lines.drop_last(), slots.len() as int)
    &&& forall|i: usize|
        i < slots.len() && meant_for(m, i as int, slots[i as int], entries) ==> #[trigger] tried(
            lines.drop_last(),
            m,
            p,
            i,
            slots[i as int],
        )
}

pub(crate) proof fn lemma_quest_looks_through(
    prefix: Seq<LineView>,
    m: UnlockMethod,
    q: Quest,
    p: Platform,
    slots: Seq<SlotFacts>,
    entries: Seq<HybridEntry>,
)
    requires
        is_quest(m, q),
        slots.len() <= 256,
        entries.len() <= usize::MAX,
        prefix.len() == 0 || asked(m).tpm && prefix == seq![step(Act::OpenTpm, no_chip_lead())],
    ensures
        looks_through(quest_lines(prefix, q, p, slots, entries), m, p, slots, entries),
        prefix.len() > 0 ==> quest_lines(prefix, q, p, slots, entries)[0] == prefix[0],
{
    let a = sought(prefix, q, p, slots, entries, slots.len() as int);
    lemma_sought_whole(prefix, m, q, p, slots, entries, slots.len() as int);
    assert(quest_lines(prefix, q, p, slots, entries).drop_last() =~= a);
    lemma_sought_starts(prefix, q, p, slots, entries, slots.len() as int);
}

proof fn lemma_sought_starts(
    prefix: Seq<LineView>,
    q: Quest,
    p: Platform,
    slots: Seq<SlotFacts>,
    entries: Seq<HybridEntry>,
    n: int,
)
    ensures
        prefix.len() > 0 ==> sought(prefix, q, p, slots, entries, n).len() > 0 && sought(
            prefix,
            q,
            p,
            slots,
            entries,
            n,
        )[0] == prefix[0],
    decreases n,
{
    if n > 0 {
        lemma_sought_starts(prefix, q, p, slots, entries, n - 1);
    }
}

} // verus!
