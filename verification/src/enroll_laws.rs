//! What enrolling a hybrid keyslot leaves behind.

use crate::bootstrap::tpm_seal_lines;
use crate::create::register_lines;
use crate::enroll::{atomic_deniable_lines, atomic_lines, encapsulate_lines, fused_collect_lines, salt_lead, sep_seal_lines, tpm_fido2_lines};
use crate::kinds::PqParams;
use crate::script::{Act, LineView, act_of, acts_of_failure, acts_of_success, is_step, lemma_straight_concat, step, straight, undo_of};
use crate::sidecar::{HybridEntry, merged};
use vstd::prelude::*;

verus! {

/// The parts of a vault that enrolling a hybrid keyslot touches.
#[verifier::ext_equal]
pub struct EnrollWorld {
    /// The new slot is in the slot table in memory.
    pub installed: bool,
    /// The new slot is in the header on disk.
    pub stored: bool,
    /// The entries of the sidecar file, if there is one.
    pub sidecar: Option<Seq<HybridEntry>>,
    /// The seed file exists.
    pub seed: bool,
}

pub open spec fn entries(sidecar: Option<Seq<HybridEntry>>) -> Seq<HybridEntry> {
    match sidecar {
        Some(e) => e,
        None => seq![],
    }
}

/// What an act does when it succeeds. `prior` is the sidecar as the enroll
/// found it, `new` the entry it adds. An act that fails does nothing.
pub open spec fn apply(
    act: Act,
    w: EnrollWorld,
    prior: Option<Seq<HybridEntry>>,
    new: HybridEntry,
) -> EnrollWorld {
    match act {
        Act::InstallSlot { .. } | Act::InstallDeniable { .. } => EnrollWorld { installed: true, ..w },
        Act::RevokeInstalled | Act::ClearDeniable { .. } => EnrollWorld { installed: false, ..w },
        Act::AppendSidecar { .. } => EnrollWorld { sidecar: Some(entries(prior).push(new)), ..w },
        Act::MergeSidecar { .. } => EnrollWorld { sidecar: Some(merged(entries(prior), new)), ..w },
        Act::RollbackSidecar => EnrollWorld {
            sidecar: if entries(prior).len() == 0 {
                None
            } else {
                Some(entries(prior))
            },
            ..w
        },
        Act::WriteSeed { .. } => EnrollWorld { seed: true, ..w },
        Act::RemoveSeed => EnrollWorld { seed: false, ..w },
        Act::PersistHeader => EnrollWorld { stored: w.installed, ..w },
        _ => w,
    }
}

pub open spec fn apply_all(
    acts: Seq<Act>,
    w: EnrollWorld,
    prior: Option<Seq<HybridEntry>>,
    new: HybridEntry,
) -> EnrollWorld
    decreases acts.len(),
{
    if acts.len() == 0 {
        w
    } else {
        apply_all(acts.skip(1), apply(acts[0], w, prior, new), prior, new)
    }
}

/// The vault before the enroll.
pub open spec fn untouched(prior: Option<Seq<HybridEntry>>) -> EnrollWorld {
    EnrollWorld { installed: false, stored: false, sidecar: prior, seed: false }
}

/// Whether an act leaves the vault as it is.
pub open spec fn harmless(act: Act) -> bool {
    match act {
        Act::OpenTpm
        | Act::OpenSep
        | Act::DrawSecret
        | Act::SealTpm { .. }
        | Act::SealSep { .. }
        | Act::NewUserHandle
        | Act::RegisterCredential
        | Act::DrawSalt
        | Act::DeriveNewHmac
        | Act::Encapsulate { .. } => true,
        _ => false,
    }
}

/// Whether a list of lines collects factors and does nothing else: nothing has
/// to be undone while it runs.
pub open spec fn collects(lines: Seq<LineView>) -> bool {
    forall|i: int|
        0 <= i < lines.len() ==> is_step(#[trigger] lines[i]) && harmless(act_of(lines[i]))
            && undo_of(lines[i]).len() == 0
}

proof fn lemma_apply_concat(
    a: Seq<Act>,
    b: Seq<Act>,
    w: EnrollWorld,
    prior: Option<Seq<HybridEntry>>,
    new: HybridEntry,
)
    ensures
        apply_all(a + b, w, prior, new) == apply_all(b, apply_all(a, w, prior, new), prior, new),
    decreases a.len(),
{
    if a.len() == 0 {
        assert(a + b =~= b);
    } else {
        assert((a + b).skip(1) =~= a.skip(1) + b);
        lemma_apply_concat(a.skip(1), b, apply(a[0], w, prior, new), prior, new);
    }
}

proof fn lemma_harmless(
    acts: Seq<Act>,
    w: EnrollWorld,
    prior: Option<Seq<HybridEntry>>,
    new: HybridEntry,
)
    requires
        forall|i: int| 0 <= i < acts.len() ==> harmless(#[trigger] acts[i]),
    ensures
        apply_all(acts, w, prior, new) == w,
    decreases acts.len(),
{
    if acts.len() > 0 {
        assert(harmless(acts[0]));
        assert forall|i: int| 0 <= i < acts.skip(1).len() implies harmless(
            #[trigger] acts.skip(1)[i],
        ) by {
            assert(acts.skip(1)[i] == acts[i + 1]);
        }
        lemma_harmless(acts.skip(1), w, prior, new);
    }
}

proof fn lemma_tail_failure(
    tail: Seq<LineView>,
    i: int,
    prior: Option<Seq<HybridEntry>>,
    new: HybridEntry,
    install: Act,
    slot: usize,
    kem: PqParams,
    persist_lead: Seq<char>,
)
    requires
        tail == atomic_lines(install, kem, persist_lead) || tail == atomic_deniable_lines(
            install,
            slot,
            kem,
        ),
        install is InstallSlot || install is InstallDeniable,
        prior is Some ==> prior->0.len() > 0,
        0 <= i < tail.len(),
    ensures
        apply_all(acts_of_failure(tail, i), untouched(prior), prior, new) == untouched(prior),
        straight(tail),
{
    let acts = acts_of_failure(tail, i);
    let w = untouched(prior);
    reveal_with_fuel(apply_all, 8);
    if i == 0 {
        assert(acts =~= Seq::<Act>::empty());
    } else if i == 1 {
        assert(acts =~= seq![install, undo_of(tail[1])[0]]);
        assert(acts.skip(1) =~= seq![undo_of(tail[1])[0]]);
    } else if i == 2 {
        assert(acts =~= seq![install, Act::ReadSidecar, undo_of(tail[2])[0]]);
        assert(acts.skip(1) =~= seq![Act::ReadSidecar, undo_of(tail[2])[0]]);
        assert(acts.skip(1).skip(1) =~= seq![undo_of(tail[2])[0]]);
    } else if i == 3 {
        let u = undo_of(tail[3])[0];
        let m = act_of(tail[2]);
        assert(acts =~= seq![install, Act::ReadSidecar, m, u, Act::RollbackSidecar]);
        assert(acts.skip(1) =~= seq![Act::ReadSidecar, m, u, Act::RollbackSidecar]);
        assert(acts.skip(1).skip(1) =~= seq![m, u, Act::RollbackSidecar]);
        assert(acts.skip(1).skip(1).skip(1) =~= seq![u, Act::RollbackSidecar]);
        assert(acts.skip(1).skip(1).skip(1).skip(1) =~= seq![Act::RollbackSidecar]);
    } else {
        let u = undo_of(tail[4])[0];
        let m = act_of(tail[2]);
        let s = act_of(tail[3]);
        assert(acts =~= seq![
            install,
            Act::ReadSidecar,
            m,
            s,
            u,
            Act::RollbackSidecar,
            Act::RemoveSeed,
        ]);
        let a1 = acts.skip(1);
        assert(a1 =~= seq![Act::ReadSidecar, m, s, u, Act::RollbackSidecar, Act::RemoveSeed]);
        let a2 = a1.skip(1);
        assert(a2 =~= seq![m, s, u, Act::RollbackSidecar, Act::RemoveSeed]);
        let a3 = a2.skip(1);
        assert(a3 =~= seq![s, u, Act::RollbackSidecar, Act::RemoveSeed]);
        let a4 = a3.skip(1);
        assert(a4 =~= seq![u, Act::RollbackSidecar, Act::RemoveSeed]);
        let a5 = a4.skip(1);
        assert(a5 =~= seq![Act::RollbackSidecar, Act::RemoveSeed]);
        let a6 = a5.skip(1);
        assert(a6 =~= seq![Act::RemoveSeed]);
    }
}

/// A hybrid enroll that fails leaves the vault as it was, whichever line
/// fails: the header and the sidecar on disk are unchanged, no seed file stays
/// behind, and the new slot is not in the table. `head` collects the factors;
/// the rest is the enroll of a standard or of a deniable slot. A sidecar file
/// without entries is left out: it would be deleted rather than put back.
pub proof fn law_failed_enroll_changes_nothing(
    head: Seq<LineView>,
    tail: Seq<LineView>,
    i: int,
    prior: Option<Seq<HybridEntry>>,
    new: HybridEntry,
    install: Act,
    slot: usize,
    kem: PqParams,
    persist_lead: Seq<char>,
)
    requires
        collects(head),
        tail == atomic_lines(install, kem, persist_lead) || tail == atomic_deniable_lines(
            install,
            slot,
            kem,
        ),
        install is InstallSlot || install is InstallDeniable,
        prior is Some ==> prior->0.len() > 0,
        0 <= i < head.len() + tail.len(),
    ensures
        straight(head + tail),
        apply_all(acts_of_failure(head + tail, i), untouched(prior), prior, new) == untouched(prior),
{
    let lines = head + tail;
    let w = untouched(prior);
    assert forall|k: int| 0 <= k < lines.len() implies #[trigger] lines[k] == (if k < head.len() {
        head[k]
    } else {
        tail[k - head.len()]
    }) by {}
    assert(straight(head));
    lemma_tail_failure(tail, 0, prior, new, install, slot, kem, persist_lead);
    lemma_straight_concat(head, tail);
    let head_acts = acts_of_success(head);
    assert forall|k: int| 0 <= k < head_acts.len() implies harmless(#[trigger] head_acts[k]) by {
        assert(harmless(act_of(head[k])));
    }
    if i < head.len() {
        let acts = acts_of_failure(lines, i);
        assert(undo_of(head[i]).len() == 0);
        assert forall|k: int| 0 <= k < acts.len() implies harmless(#[trigger] acts[k]) by {
            assert(acts[k] == act_of(lines[k]));
            assert(harmless(act_of(head[k])));
        }
        lemma_harmless(acts, w, prior, new);
    } else {
        let j = i - head.len();
        assert(acts_of_failure(lines, i) =~= head_acts + acts_of_failure(tail, j));
        lemma_apply_concat(head_acts, acts_of_failure(tail, j), w, prior, new);
        lemma_harmless(head_acts, w, prior, new);
        lemma_tail_failure(tail, j, prior, new, install, slot, kem, persist_lead);
    }
}

/// A hybrid enroll that succeeds has done all of it: the slot is in the header
/// on disk, its entry in the sidecar, and its seed file written.
pub proof fn law_successful_enroll_is_complete(
    head: Seq<LineView>,
    prior: Option<Seq<HybridEntry>>,
    new: HybridEntry,
    install: Act,
    slot: usize,
    kem: PqParams,
    persist_lead: Seq<char>,
)
    requires
        collects(head),
        install is InstallSlot || install is InstallDeniable,
    ensures
        apply_all(
            acts_of_success(head + atomic_lines(install, kem, persist_lead)),
            untouched(prior),
            prior,
            new,
        ) == (EnrollWorld {
            installed: true,
            stored: true,
            sidecar: Some(entries(prior).push(new)),
            seed: true,
        }),
        apply_all(
            acts_of_success(head + atomic_deniable_lines(install, slot, kem)),
            untouched(prior),
            prior,
            new,
        ) == (EnrollWorld {
            installed: true,
            stored: true,
            sidecar: Some(merged(entries(prior), new)),
            seed: true,
        }),
{
    let w = untouched(prior);
    let head_acts = acts_of_success(head);
    assert forall|k: int| 0 <= k < head_acts.len() implies harmless(#[trigger] head_acts[k]) by {
        assert(harmless(act_of(head[k])));
    }
    lemma_harmless(head_acts, w, prior, new);
    let t1 = atomic_lines(install, kem, persist_lead);
    let t2 = atomic_deniable_lines(install, slot, kem);
    assert(acts_of_success(head + t1) =~= head_acts + acts_of_success(t1));
    assert(acts_of_success(head + t2) =~= head_acts + acts_of_success(t2));
    lemma_apply_concat(head_acts, acts_of_success(t1), w, prior, new);
    lemma_apply_concat(head_acts, acts_of_success(t2), w, prior, new);
    lemma_five(acts_of_success(t1), w, prior, new);
    lemma_five(acts_of_success(t2), w, prior, new);
}

proof fn lemma_five(
    acts: Seq<Act>,
    w: EnrollWorld,
    prior: Option<Seq<HybridEntry>>,
    new: HybridEntry,
)
    requires
        acts.len() == 5,
    ensures
        apply_all(acts, w, prior, new) == apply(
            acts[4],
            apply(
                acts[3],
                apply(acts[2], apply(acts[1], apply(acts[0], w, prior, new), prior, new), prior, new),
                prior,
                new,
            ),
            prior,
            new,
        ),
{
    reveal_with_fuel(apply_all, 6);
}

proof fn lemma_collects_concat(a: Seq<LineView>, b: Seq<LineView>)
    requires
        collects(a),
        collects(b),
    ensures
        collects(a + b),
{
    let c = a + b;
    assert forall|i: int| 0 <= i < c.len() implies is_step(#[trigger] c[i]) && harmless(act_of(c[i]))
        && undo_of(c[i]).len() == 0 by {
        assert(c[i] == (if i < a.len() {
            a[i]
        } else {
            b[i - a.len()]
        }));
    }
}

/// Every hybrid enroll of this library starts by collecting its factors and
/// nothing else, so the two laws above apply to it.
pub proof fn law_hybrid_enrolls_collect_first(kem: PqParams, fido2: bool)
    ensures
        collects(encapsulate_lines(kem)),
        collects(register_lines(salt_lead()) + encapsulate_lines(kem)),
        collects(sep_seal_lines(false) + encapsulate_lines(kem)),
        collects(fused_collect_lines(fido2) + encapsulate_lines(kem)),
        collects(
            tpm_seal_lines("OS RNG failure generating hybrid TPM KEK: "@, false)
                + encapsulate_lines(kem),
        ),
        collects(
            tpm_fido2_lines("OS RNG failure generating 3-factor TPM half: "@) + encapsulate_lines(
                kem,
            ),
        ),
{
    let e = encapsulate_lines(kem);
    let r = register_lines(salt_lead());
    let open = seq![step(Act::OpenSep, ""@)];
    let seal = seq![step(Act::SealSep { biometric: false }, "SEP seal: "@)];
    assert(collects(e) && collects(r) && collects(open) && collects(seal));
    lemma_collects_concat(open, if fido2 { r } else { seq![] });
    lemma_collects_concat(open + (if fido2 { r } else { seq![] }), seal);
    lemma_collects_concat(r, e);
    lemma_collects_concat(sep_seal_lines(false), e);
    lemma_collects_concat(fused_collect_lines(fido2), e);
    lemma_collects_concat(tpm_seal_lines("OS RNG failure generating hybrid TPM KEK: "@, false), e);
    lemma_collects_concat(
        tpm_fido2_lines("OS RNG failure generating 3-factor TPM half: "@),
        e,
    );
}

} // verus!
