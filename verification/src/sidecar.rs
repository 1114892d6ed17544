//! The entries of the `.hybrid` sidecar: one ML-KEM public key and ciphertext
//! for each hybrid keyslot.

use crate::kinds::PqParams;
use vstd::prelude::*;

verus! {

/// The ML-KEM material of one keyslot.
pub struct HybridEntry {
    pub slot_idx: u8,
    pub level: PqParams,
    pub pubkey: Vec<u8>,
    pub ciphertext: Vec<u8>,
}

/// The entries for other slots than `slot`.
pub open spec fn without_slot(entries: Seq<HybridEntry>, slot: u8) -> Seq<HybridEntry> {
    entries.filter(|e: HybridEntry| e.slot_idx != slot)
}

/// The entries once `new` takes the place of its slot's old entry.
pub open spec fn merged(entries: Seq<HybridEntry>, new: HybridEntry) -> Seq<HybridEntry> {
    without_slot(entries, new.slot_idx).push(new)
}

/// Puts `new` in place of any entry for the same slot; the others keep their
/// order.
pub fn merge_entry(prior: Vec<HybridEntry>, new: HybridEntry) -> (r: Vec<HybridEntry>)
    ensures
        r@ == merged(prior@, new),
{
    let mut rest = prior;
    let mut kept: Vec<HybridEntry> = Vec::new();
    let ghost mut k: int = 0;
    let ghost slot = new.slot_idx;
    let ghost pred = |e: HybridEntry| e.slot_idx != slot;
    proof {
        reveal(Seq::filter);
        assert(prior@.take(0).filter(pred) =~= Seq::<HybridEntry>::empty());
        assert(prior@.skip(0) =~= prior@);
    }
    while rest.len() > 0
        invariant
            0 <= k <= prior@.len(),
            slot == new.slot_idx,
            pred == (|e: HybridEntry| e.slot_idx != slot),
            rest@ == prior@.skip(k),
            kept@ == prior@.take(k).filter(pred),
        decreases rest.len(),
    {
        let e = rest.remove(0);
        proof {
            assert(e == prior@[k]);
            assert(prior@.take(k + 1).drop_last() =~= prior@.take(k));
            assert(rest@ =~= prior@.skip(k + 1));
            reveal(Seq::filter);
        }
        if e.slot_idx != new.slot_idx {
            kept.push(e);
        }
        proof {
            k = k + 1;
        }
    }
    assert(prior@.take(k) =~= prior@);
    kept.push(new);
    kept
}

/// Adds `new` at the end.
pub fn append_entry(prior: Vec<HybridEntry>, new: HybridEntry) -> (r: Vec<HybridEntry>)
    ensures
        r@ == prior@.push(new),
{
    let mut r = prior;
    r.push(new);
    r
}

/// The place of the first entry for a slot.
pub open spec fn entry_for(entries: Seq<HybridEntry>, slot: u8) -> Option<int>
    decreases entries.len(),
{
    if entries.len() == 0 {
        None
    } else if entries[0].slot_idx == slot {
        Some(0)
    } else {
        match entry_for(entries.skip(1), slot) {
            Some(i) => Some(i + 1),
            None => None,
        }
    }
}

/// Finds the entry for a slot.
pub fn find_entry(entries: &Vec<HybridEntry>, slot: u8) -> (r: Option<usize>)
    ensures
        match entry_for(entries@, slot) {
            Some(i) => r matches Some(k) && k == i && k < entries@.len(),
            None => r is None,
        },
{
    let mut i: usize = 0;
    assert(entries@.skip(0) =~= entries@);
    while i < entries.len()
        invariant
            i <= entries@.len(),
            entry_for(entries@, slot) == (match entry_for(entries@.skip(i as int), slot) {
                Some(k) => Some(k + i),
                None => None,
            }),
        decreases entries.len() - i,
    {
        assert(entries@.skip(i as int)[0] == entries@[i as int]);
        assert(entries@.skip(i as int).skip(1) =~= entries@.skip(i + 1));
        if entries[i].slot_idx == slot {
            return Some(i);
        }
        i = i + 1;
    }
    None
}

/// The slot number of an entry after slots 0 and `slot` were exchanged for a
/// vault in which only `slot` was hybrid.
pub open spec fn relabeled(idx: u8, slot: int) -> u8 {
    if idx == slot {
        0
    } else {
        idx
    }
}

/// Follows the move of a hybrid keyslot from `slot` to 0.
pub fn relabel_entries(entries: Vec<HybridEntry>, slot: usize) -> (r: Vec<HybridEntry>)
    ensures
        r@.len() == entries@.len(),
        forall|i: int|
            0 <= i < r@.len() ==> {
                &&& (#[trigger] r@[i]).slot_idx == relabeled(entries@[i].slot_idx, slot as int)
                &&& r@[i].level == entries@[i].level
                &&& r@[i].pubkey == entries@[i].pubkey
                &&& r@[i].ciphertext == entries@[i].ciphertext
            },
{
    let mut rest = entries;
    let mut r: Vec<HybridEntry> = Vec::new();
    let ghost mut k: int = 0;
    assert(entries@.skip(0) =~= entries@);
    while rest.len() > 0
        invariant
            0 <= k <= entries@.len(),
            rest@ == entries@.skip(k),
            r@.len() == k,
            forall|i: int|
                0 <= i < k ==> {
                    &&& (#[trigger] r@[i]).slot_idx == relabeled(entries@[i].slot_idx, slot as int)
                    &&& r@[i].level == entries@[i].level
                    &&& r@[i].pubkey == entries@[i].pubkey
                    &&& r@[i].ciphertext == entries@[i].ciphertext
                },
        decreases rest.len(),
    {
        let e = rest.remove(0);
        assert(e == entries@[k]);
        assert(rest@ =~= entries@.skip(k + 1));
        let slot_idx: u8 = if (e.slot_idx as usize) == slot {
            0
        } else {
            e.slot_idx
        };
        r.push(
            HybridEntry { slot_idx, level: e.level, pubkey: e.pubkey, ciphertext: e.ciphertext },
        );
        proof {
            k = k + 1;
        }
    }
    r
}

/// How the sidecar is put back as it was.
#[derive(Clone, Copy, Debug, PartialEq, Eq, Structural)]
pub enum SidecarFix {
    /// There was nothing in it: delete the file.
    Delete,
    /// Write the prior entries again.
    Rewrite,
}

/// How to restore a sidecar that held `prior`.
pub fn rollback_sidecar(prior: &Vec<HybridEntry>) -> (f: SidecarFix)
    ensures
        f == SidecarFix::Delete <==> prior@.len() == 0,
{
    if prior.len() == 0 {
        SidecarFix::Delete
    } else {
        SidecarFix::Rewrite
    }
}

proof fn lemma_entry_for_last(entries: Seq<HybridEntry>, new: HybridEntry)
    requires
        forall|i: int| 0 <= i < entries.len() ==> (#[trigger] entries[i]).slot_idx != new.slot_idx,
    ensures
        entry_for(entries.push(new), new.slot_idx) == Some(entries.len() as int),
    decreases entries.len(),
{
    if entries.len() > 0 {
        assert(entries[0].slot_idx != new.slot_idx);
        assert(entries.push(new).skip(1) =~= entries.skip(1).push(new));
        assert forall|i: int| 0 <= i < entries.skip(1).len() implies (#[trigger] entries.skip(
            1,
        )[i]).slot_idx != new.slot_idx by {
            assert(entries.skip(1)[i] == entries[i + 1]);
        }
        lemma_entry_for_last(entries.skip(1), new);
    }
}

/// After a merge there is exactly one entry for the slot, the new one, and
/// every entry for another slot is still there.
pub proof fn law_merge_replaces(entries: Seq<HybridEntry>, new: HybridEntry)
    ensures
        merged(entries, new).last() == new,
        forall|i: int|
            0 <= i < merged(entries, new).len() - 1 ==> (#[trigger] merged(
                entries,
                new,
            )[i]).slot_idx != new.slot_idx,
        entry_for(merged(entries, new), new.slot_idx) == Some(merged(entries, new).len() - 1),
        forall|e: HybridEntry|
            e.slot_idx != new.slot_idx && #[trigger] entries.contains(e) ==> merged(
                entries,
                new,
            ).contains(e),
{
    let pred = |e: HybridEntry| e.slot_idx != new.slot_idx;
    let kept = without_slot(entries, new.slot_idx);
    let all = merged(entries, new);
    assert forall|i: int| 0 <= i < kept.len() implies (#[trigger] kept[i]).slot_idx
        != new.slot_idx by {
        entries.lemma_filter_pred(pred, i);
        assert(pred(kept[i]));
    }
    assert forall|i: int| 0 <= i < all.len() - 1 implies (#[trigger] all[i]).slot_idx
        != new.slot_idx by {
        assert(all[i] == kept[i]);
    }
    lemma_entry_for_last(kept, new);
    assert forall|e: HybridEntry|
        e.slot_idx != new.slot_idx && #[trigger] entries.contains(e) implies all.contains(e) by {
        let i = choose|i: int| 0 <= i < entries.len() && entries[i] == e;
        assert(pred(entries[i]));
        entries.lemma_filter_contains(pred, i);
        assert(kept.contains(e));
        let j = choose|j: int| 0 <= j < kept.len() && kept[j] == e;
        assert(all[j] == e);
    }
}

/// An appended entry is found for its slot, if there was none for it before.
pub proof fn law_appended_entry_is_found(entries: Seq<HybridEntry>, new: HybridEntry)
    requires
        forall|i: int| 0 <= i < entries.len() ==> (#[trigger] entries[i]).slot_idx != new.slot_idx,
    ensures
        entry_for(entries.push(new), new.slot_idx) == Some(entries.len() as int),
{
    lemma_entry_for_last(entries, new);
}

/// Whether `after` holds the entries of `before`, in order, with the slot
/// numbers that follow from moving `slot` to 0.
pub open spec fn is_relabeling(
    before: Seq<HybridEntry>,
    after: Seq<HybridEntry>,
    slot: int,
) -> bool {
    &&& after.len() == before.len()
    &&& forall|i: int|
        0 <= i < after.len() ==> (#[trigger] after[i]).slot_idx == relabeled(
            before[i].slot_idx,
            slot,
        )
}

/// A hybrid keyslot that is moved to the front of the slot table is found
/// there afterwards, under the entry it had.
pub proof fn law_relabeled_entry_is_found(
    before: Seq<HybridEntry>,
    after: Seq<HybridEntry>,
    slot: u8,
)
    requires
        is_relabeling(before, after, slot as int),
        forall|i: int| 0 <= i < before.len() ==> (#[trigger] before[i]).slot_idx != 0,
    ensures
        entry_for(after, 0) == entry_for(before, slot),
    decreases before.len(),
{
    if before.len() > 0 {
        assert(after[0].slot_idx == relabeled(before[0].slot_idx, slot as int));
        assert(before[0].slot_idx != 0);
        let b = before.skip(1);
        let a = after.skip(1);
        assert forall|i: int| 0 <= i < a.len() implies (#[trigger] a[i]).slot_idx == relabeled(
            b[i].slot_idx,
            slot as int,
        ) by {
            assert(a[i] == after[i + 1]);
            assert(b[i] == before[i + 1]);
        }
        assert forall|i: int| 0 <= i < b.len() implies (#[trigger] b[i]).slot_idx != 0 by {
            assert(b[i] == before[i + 1]);
        }
        law_relabeled_entry_is_found(b, a, slot);
    }
}

/// The entry of the slot that was moved becomes that of slot 0, and no other
/// entry changes.
pub proof fn law_only_the_moved_entry_changes(idx: u8, slot: u8)
    ensures
        relabeled(slot, slot as int) == 0,
        idx != slot ==> relabeled(idx, slot as int) == idx,
{
}

/// A merge keeps the entries of other slots in their order: without the entry
/// that was merged, what is left is what there was without that slot's.
pub proof fn law_merge_keeps_the_order(entries: Seq<HybridEntry>, new: HybridEntry, k: int)
    requires
        0 <= k < entries.len(),
    ensures
        without_slot(entries.take(k + 1), new.slot_idx) == (if entries[k].slot_idx
            == new.slot_idx {
            without_slot(entries.take(k), new.slot_idx)
        } else {
            without_slot(entries.take(k), new.slot_idx).push(entries[k])
        }),
        merged(entries, new).drop_last() == without_slot(entries, new.slot_idx),
{
    reveal(Seq::filter);
    assert(entries.take(k + 1).drop_last() =~= entries.take(k));
    assert(entries.take(k + 1).last() == entries[k]);
    assert(merged(entries, new).drop_last() =~= without_slot(entries, new.slot_idx));
}

} // verus!
