//! What an unlock with the Secure Enclave hands over: each enclave slot is tried
//! with the factors that it binds, and no failure passes over another slot.

use crate::kinds::{Platform, TargetOs, UnlockMethod};
use crate::script::{Act, Goto, LineView, OnFailView, SecretRef, act_of, is_step, step};
use crate::sidecar::HybridEntry;
use crate::slots::SlotFacts;
use crate::unlock_sep::{hmac_tries, in_scope, needs_fido2, needs_passphrase, sep_block, sep_body, sep_common_lines, sep_open, sep_sought};
use crate::unlock_tries::{
    about, asked, branches, derives, factors_of, law_entry_is_the_first_of_its_slot,
    lemma_order_after, lemma_tried_in, may_be_salted, meant_for, shared_before, shares,
    slots_in_order, tried,
};
use vstd::prelude::*;

verus! {

/// Whether line `k` of a search among the enclave slots is what it should be, if
/// the first line has the number `at`: a try to open a slot hands over what that
/// slot binds; where it binds an authenticator, each derivation that works leads
/// to the try, one that fails to the next one, and only the last one past the
/// try; and what fails before passes over nothing but the same slot.
pub open spec fn whole_enclave_try(
    lines: Seq<LineView>,
    at: int,
    k: int,
    m: UnlockMethod,
    p: Platform,
    slots: Seq<SlotFacts>,
    entries: Seq<HybridEntry>,
) -> bool {
    match lines[k] {
        LineView::Do { act, ok, fail, .. } => match act {
            Act::OpenWith { kind, slot } => {
                &&& slot < slots.len()
                &&& meant_for(m, slot as int, slots[slot as int], entries)
                &&& kind == factors_of(m, slots[slot as int])
                &&& branches(lines[k], Goto::End, at + k + 1)
                &&& slots[slot as int].sep_fido2 ==> k > 0 && lines[k - 1] is Do && (derives(
                    act_of(lines[k - 1]),
                    m,
                    slot,
                    true,
                ) || derives(act_of(lines[k - 1]), m, slot, false))
                &&& asked(m).seed ==> shared_before(lines, k, slot, entries)
            },
            Act::DeriveSlotHmac { slot, stored, prehash } => {
                &&& slot < slots.len()
                &&& !stored
                &&& slots[slot as int].sep_fido2
                &&& may_be_salted(slots[slot as int], p.os, prehash)
                &&& ok matches Goto::At(to) && k < to - at < lines.len() && lines[to - at] is Do
                    && act_of(lines[to - at]) is OpenWith && about(lines[to - at]) == Some(slot)
                    && (forall|j: int|
                    k < j < to - at ==> (#[trigger] lines[j]) is Do && (derives(
                        act_of(lines[j]),
                        m,
                        slot,
                        true,
                    ) || derives(act_of(lines[j]), m, slot, false)))
                &&& fail == (OnFailView::Skip {
                    to: if lines[k + 1] is Do && act_of(lines[k + 1]) is DeriveSlotHmac {
                        at + k + 1
                    } else {
                        at + k + 2
                    },
                })
                &&& prehash != slots[slot as int].salt_prehashed ==> k >= 1 && lines[k - 1] is Do
                    && derives(act_of(lines[k - 1]), m, slot, !prehash)
            },
            Act::DecapsulateEntry { entry } => {
                &&& entry < entries.len()
                &&& ok == Goto::Next
                &&& fail matches OnFailView::Instead { to, .. } && k < to - at <= lines.len()
                    && forall|j: int|
                    k < j < to - at ==> (#[trigger] lines[j]) is Note || about(lines[j]) == Some(
                        entries[entry as int].slot_idx as usize,
                    )
            },
            Act::OpenSep => is_step(lines[k]) && k == 0 && at == 0,
            _ => false,
        },
        LineView::Note { .. } => true,
        _ => false,
    }
}

/// Whether all lines of such a search are what they should be.
pub open spec fn whole_enclave_tries(
    lines: Seq<LineView>,
    at: int,
    m: UnlockMethod,
    p: Platform,
    slots: Seq<SlotFacts>,
    entries: Seq<HybridEntry>,
) -> bool {
    forall|k: int|
        0 <= k < lines.len() ==> #[trigger] whole_enclave_try(lines, at, k, m, p, slots, entries)
}

proof fn lemma_body_shape(
    start: int,
    p: Platform,
    i: usize,
    s: SlotFacts,
    pq: bool,
    secret: SecretRef,
)
    ensures
        ({
            let l = sep_body(start, p, i, s, pq, secret);
            if !s.sep_fido2 {
                l == seq![sep_open(start + 1, i, s, pq, secret)]
            } else if s.cred_len == 0 {
                l.len() == 1 && l[0] is Note
            } else if p.os == TargetOs::Windows {
                let t = hmac_tries(start, i, seq![s.salt_prehashed, !s.salt_prehashed]);
                l == seq![t[0], t[1], sep_open(start + 3, i, s, pq, secret)]
            } else {
                let t = hmac_tries(start, i, seq![s.salt_prehashed]);
                l == seq![t[0], sep_open(start + 2, i, s, pq, secret)]
            }
        }),
{
    let l = sep_body(start, p, i, s, pq, secret);
    if s.sep_fido2 && s.cred_len > 0 {
        if p.os == TargetOs::Windows {
            let t = hmac_tries(start, i, seq![s.salt_prehashed, !s.salt_prehashed]);
            assert(l =~= seq![t[0], t[1], sep_open(start + 3, i, s, pq, secret)]);
        } else {
            let t = hmac_tries(start, i, seq![s.salt_prehashed]);
            assert(l =~= seq![t[0], sep_open(start + 2, i, s, pq, secret)]);
        }
    }
}

#[verifier::rlimit(60)]
proof fn lemma_sep_block_whole(
    start: int,
    m: UnlockMethod,
    pq: bool,
    p: Platform,
    i: usize,
    slots: Seq<SlotFacts>,
    entries: Seq<HybridEntry>,
)
    requires
        m == UnlockMethod::Sep && !pq || m == UnlockMethod::HybridPqSep && pq,
        i < slots.len() <= 256,
        0 < start <= 2000,
        entries.len() <= usize::MAX,
    ensures
        ({
            let s = slots[i as int];
            let b = sep_block(start, p, i, s, pq, SecretRef::Passphrase, entries);
            &&& whole_enclave_tries(b, start, m, p, slots, entries)
            &&& b.len() <= 4
            &&& forall|k: int|
                0 <= k < b.len() ==> about(#[trigger] b[k]) == Some(i) || about(b[k]) is None
            &&& meant_for(m, i as int, s, entries) ==> tried(b, m, p, i, s)
        }),
{
    let s = slots[i as int];
    let b = sep_block(start, p, i, s, pq, SecretRef::Passphrase, entries);
    law_entry_is_the_first_of_its_slot(entries, i as u8);
    lemma_body_shape(start, p, i, s, pq, SecretRef::Passphrase);
    lemma_body_shape(start + 1, p, i, s, pq, SecretRef::Passphrase);
    if meant_for(m, i as int, s, entries) {
        if pq {
            assert(b[0] is Do);
            assert(shares(b[0], i, entries));
            if s.sep_fido2 {
                assert(derives(act_of(b[1]), m, i, s.salt_prehashed));
                if p.os == TargetOs::Windows {
                    assert(derives(act_of(b[2]), m, i, !s.salt_prehashed));
                    assert(act_of(b[3]) is OpenWith);
                    assert(shared_before(b, 3, i, entries));
                } else {
                    assert(act_of(b[2]) is OpenWith);
                    assert(shared_before(b, 2, i, entries));
                }
            } else {
                assert(act_of(b[1]) is OpenWith);
                assert(shared_before(b, 1, i, entries));
            }
        } else if s.sep_fido2 {
            assert(derives(act_of(b[0]), m, i, s.salt_prehashed));
            if p.os == TargetOs::Windows {
                assert(derives(act_of(b[1]), m, i, !s.salt_prehashed));
                assert(act_of(b[2]) is OpenWith);
            } else {
                assert(act_of(b[1]) is OpenWith);
            }
        } else {
            assert(act_of(b[0]) is OpenWith);
        }
    }
}

proof fn lemma_whole_enclave_after(
    a: Seq<LineView>,
    b: Seq<LineView>,
    m: UnlockMethod,
    p: Platform,
    slots: Seq<SlotFacts>,
    entries: Seq<HybridEntry>,
)
    requires
        a.len() > 0,
        whole_enclave_tries(a, 0, m, p, slots, entries),
        whole_enclave_tries(b, a.len() as int, m, p, slots, entries),
    ensures
        whole_enclave_tries(a + b, 0, m, p, slots, entries),
{
    let c = a + b;
    let n = a.len() as int;
    assert forall|k: int| 0 <= k < c.len() implies #[trigger] whole_enclave_try(
        c,
        0,
        k,
        m,
        p,
        slots,
        entries,
    ) by {
        let (part, h, off) = if k < n {
            (a, k, 0int)
        } else {
            (b, k - n, n)
        };
        assert(forall|j: int| 0 <= j < part.len() ==> c[off + j] == #[trigger] part[j]);
        assert(whole_enclave_try(part, off, h, m, p, slots, entries));
        assert(c[k] == part[h]);
        if h > 0 {
            assert(c[k - 1] == part[h - 1]);
        }
        if h + 1 < part.len() {
            assert(c[k + 1] == part[h + 1]);
        }
        if let LineView::Do { act, ok, fail, .. } = c[k] {
            if let Act::OpenWith { slot, .. } = act {
                if asked(m).seed {
                    let d = choose|d: int|
                        0 <= d < h && #[trigger] shares(part[d], slot, entries) && forall|j: int|
                            d < j <= h ==> about(#[trigger] part[j]) == Some(slot);
                    assert(c[off + d] == part[d]);
                    assert(shares(c[off + d], slot, entries));
                    assert forall|j: int| off + d < j <= k implies about(#[trigger] c[j]) == Some(
                        slot,
                    ) by {
                        assert(c[j] == part[j - off]);
                    }
                }
            }
            if let Act::DeriveSlotHmac { slot, .. } = act {
                if let Goto::At(to) = ok {
                    assert(c[to as int] == part[to - off]);
                    assert forall|j: int| k < j < to implies (#[trigger] c[j]) is Do && (derives(
                        act_of(c[j]),
                        m,
                        slot,
                        true,
                    ) || derives(act_of(c[j]), m, slot, false)) by {
                        assert(c[j] == part[j - off]);
                    }
                }
            }
            if let Act::DecapsulateEntry { entry } = act {
                if let OnFailView::Instead { to, .. } = fail {
                    assert forall|j: int| k < j < to implies (#[trigger] c[j]) is Note || about(
                        c[j],
                    ) == Some(entries[entry as int].slot_idx as usize) by {
                        assert(c[j] == part[j - off]);
                    }
                }
            }
        }
    }
}

proof fn lemma_sep_sought_whole(
    m: UnlockMethod,
    pq: bool,
    p: Platform,
    slots: Seq<SlotFacts>,
    entries: Seq<HybridEntry>,
    n: int,
)
    requires
        m == UnlockMethod::Sep && !pq || m == UnlockMethod::HybridPqSep && pq,
        0 <= n <= slots.len() <= 256,
        entries.len() <= usize::MAX,
    ensures
        ({
            let lines = sep_sought(
                seq![step(Act::OpenSep, ""@)],
                p,
                slots,
                pq,
                SecretRef::Passphrase,
                entries,
                n,
            );
            &&& 0 < lines.len() <= 1 + 4 * n
            &&& lines[0] == step(Act::OpenSep, ""@)
            &&& whole_enclave_tries(lines, 0, m, p, slots, entries)
            &&& slots_in_order(lines, n)
            &&& forall|i: usize|
                i < n && meant_for(m, i as int, slots[i as int], entries) ==> #[trigger] tried(
                    lines,
                    m,
                    p,
                    i,
                    slots[i as int],
                )
        }),
    decreases n,
{
    let prefix = seq![step(Act::OpenSep, ""@)];
    if n > 0 {
        let i = (n - 1) as usize;
        let a = sep_sought(prefix, p, slots, pq, SecretRef::Passphrase, entries, n - 1);
        let b = sep_block(
            a.len() as int,
            p,
            i,
            slots[n - 1],
            pq,
            SecretRef::Passphrase,
            entries,
        );
        lemma_sep_sought_whole(m, pq, p, slots, entries, n - 1);
        lemma_sep_block_whole(a.len() as int, m, pq, p, i, slots, entries);
        lemma_whole_enclave_after(a, b, m, p, slots, entries);
        lemma_order_after(a, b, i);
        assert forall|j: usize|
            j < n && meant_for(m, j as int, slots[j as int], entries) implies #[trigger] tried(
            a + b,
            m,
            p,
            j,
            slots[j as int],
        ) by {
            lemma_tried_in(a, b, m, p, j, slots[j as int]);
            if j < n - 1 {
                assert(tried(a, m, p, j, slots[j as int]));
            }
        }
    } else {
        assert(whole_enclave_tries(prefix, 0, m, p, slots, entries));
    }
}

/// Whether a script looks through the enclave slots as the method says.
pub open spec fn looks_through_enclave(
    lines: Seq<LineView>,
    m: UnlockMethod,
    p: Platform,
    slots: Seq<SlotFacts>,
    entries: Seq<HybridEntry>,
) -> bool {
    &&& lines.len() > 1
    &&& is_step(lines[0]) && act_of(lines[0]) == Act::OpenSep
    &&& lines.last() is GiveUp
    &&& whole_enclave_tries(lines.drop_last(), 0, m, p, slots, entries)
    &&& slots_in_order(lines.drop_last(), slots.len() as int)
    &&& forall|i: usize|
        i < slots.len() && meant_for(m, i as int, slots[i as int], entries) ==> #[trigger] tried(
            lines.drop_last(),
            m,
            p,
            i,
            slots[i as int],
        )
}

/// Whether all the fields are filled in that some enclave slot asks for.
pub open spec fn fields_filled(
    slots: Seq<SlotFacts>,
    pq: bool,
    has_passphrase: bool,
    has_pin: bool,
) -> bool {
    forall|i: int|
        0 <= i < slots.len() && (#[trigger] slots[i]).sep && slots[i].hybrid_pq == pq ==> {
            &&& slots[i].sep_passphrase ==> has_passphrase
            &&& slots[i].sep_fido2 ==> has_pin
        }
}

/// The search among the enclave slots is refused if a field is missing that some
/// slot asks for; else the enclave is opened, and every slot is tried with what
/// it binds.
pub proof fn law_enclave_slots_are_tried_as_they_bind(
    p: Platform,
    slots: Seq<SlotFacts>,
    m: UnlockMethod,
    has_passphrase: bool,
    has_pin: bool,
    entries: Seq<HybridEntry>,
)
    requires
        m == UnlockMethod::Sep || m == UnlockMethod::HybridPqSep,
        slots.len() <= 256,
        entries.len() <= usize::MAX,
    ensures
        ({
            let lines = sep_common_lines(
                p,
                slots,
                asked(m).seed,
                SecretRef::Passphrase,
                has_passphrase,
                has_pin,
                entries,
            );
            if fields_filled(slots, asked(m).seed, has_passphrase, has_pin) {
                looks_through_enclave(lines, m, p, slots, entries)
            } else {
                lines.len() == 1 && lines[0] is Stop
            }
        }),
{
    let pq = asked(m).seed;
    let n = slots.len() as int;
    let lines = sep_common_lines(
        p,
        slots,
        pq,
        SecretRef::Passphrase,
        has_passphrase,
        has_pin,
        entries,
    );
    if fields_filled(slots, pq, has_passphrase, has_pin) {
        let a = sep_sought(
            seq![step(Act::OpenSep, ""@)],
            p,
            slots,
            pq,
            SecretRef::Passphrase,
            entries,
            n,
        );
        lemma_sep_sought_whole(m, pq, p, slots, entries, n);
        assert(!(needs_passphrase(slots, pq) && !has_passphrase));
        assert(!(needs_fido2(slots, pq) && !has_pin));
        assert(lines.drop_last() =~= a);
    } else {
        let i = choose|i: int|
            0 <= i < slots.len() && (#[trigger] slots[i]).sep && slots[i].hybrid_pq == pq && !(
            (slots[i].sep_passphrase ==> has_passphrase) && (slots[i].sep_fido2 ==> has_pin));
        assert(in_scope(slots[i], pq));
    }
}

} // verus!
