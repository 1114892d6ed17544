//! Where the keyslots of a bootstrap end up.

use crate::bootstrap::tpm_slot_kind;
use crate::bootstrap_flow::{sep_bootstrap_lines, sep_enroll_lines, sep_is_hybrid, to_front_lines, tpm_bootstrap_lines, tpm_enroll_lines};
use crate::create::{create_body, create_lines, create_tail, taken};
use crate::enroll::{sep_hybrid_kind, sep_kind};
use crate::kinds::{Platform, SepBootstrapKind, SlotKind, SlotKindArg, TpmBootstrapKind, kem_of};
use crate::requests::{CreateFacts, CreateOpts};
use crate::script::{Act, LineView, act_of, step, stop};
use vstd::prelude::*;

verus! {

/// The keyslots in use after an act that went well. A new vault has one; a
/// further keyslot takes the first free place.
pub open spec fn slots_after(act: Act, slots: Seq<SlotKind>) -> Seq<SlotKind> {
    match act {
        Act::CreateVault { kind, .. } => seq![kind],
        Act::EnrollBackup => slots.push(SlotKind::Passphrase),
        Act::InstallPassphrase { .. } => slots.push(SlotKind::Passphrase),
        Act::InstallSlot { kind, .. } => slots.push(kind),
        Act::SwapToFront { slot } => if slot < slots.len() {
            slots.update(0, slots[slot as int]).update(slot as int, slots[0])
        } else {
            slots
        },
        _ => slots,
    }
}

/// The keyslots in use after a script whose acts all went well.
pub open spec fn slots_of(lines: Seq<LineView>, slots: Seq<SlotKind>) -> Seq<SlotKind>
    decreases lines.len(),
{
    if lines.len() == 0 {
        slots
    } else {
        let before = slots_of(lines.drop_last(), slots);
        if lines.last() is Do {
            slots_after(act_of(lines.last()), before)
        } else {
            before
        }
    }
}

pub(crate) proof fn lemma_slots_concat(a: Seq<LineView>, b: Seq<LineView>, slots: Seq<SlotKind>)
    ensures
        slots_of(a + b, slots) == slots_of(b, slots_of(a, slots)),
    decreases b.len(),
{
    if b.len() == 0 {
        assert(a + b =~= a);
    } else {
        assert((a + b).drop_last() =~= a + b.drop_last());
        lemma_slots_concat(a, b.drop_last(), slots);
    }
}

/// Whether a script leaves the keyslots as they are.
pub open spec fn quiet(lines: Seq<LineView>) -> bool {
    forall|i: int, slots: Seq<SlotKind>|
        0 <= i < lines.len() && lines[i] is Do ==> #[trigger] slots_after(act_of(lines[i]), slots)
            == slots
}

pub(crate) proof fn lemma_quiet(lines: Seq<LineView>, slots: Seq<SlotKind>)
    requires
        quiet(lines),
    ensures
        slots_of(lines, slots) == slots,
    decreases lines.len(),
{
    if lines.len() > 0 {
        let n = lines.len() - 1;
        assert forall|i: int, s: Seq<SlotKind>|
            0 <= i < lines.drop_last().len() && lines.drop_last()[i] is Do implies #[trigger] slots_after(
            act_of(lines.drop_last()[i]),
            s,
        ) == s by {
            assert(lines.drop_last()[i] == lines[i]);
            assert(slots_after(act_of(lines[i]), s) == s);
        }
        lemma_quiet(lines.drop_last(), slots);
        if lines[n] is Do {
            assert(slots_after(act_of(lines[n]), slots) == slots);
        }
    }
}

/// One install act, with nothing else around it that changes the keyslots.
proof fn lemma_install(
    head: Seq<LineView>,
    line: LineView,
    tail: Seq<LineView>,
    kind: SlotKind,
    slots: Seq<SlotKind>,
)
    requires
        quiet(head),
        quiet(tail),
        line is Do,
        act_of(line) matches Act::InstallSlot { kind: k, .. } && k == kind,
    ensures
        slots_of(head + seq![line] + tail, slots) == slots.push(kind),
{
    lemma_slots_concat(head, seq![line], slots);
    lemma_slots_concat(head + seq![line], tail, slots);
    lemma_quiet(head, slots);
    lemma_quiet(tail, slots.push(kind));
    assert(seq![line].drop_last() =~= Seq::<LineView>::empty());
    reveal_with_fuel(slots_of, 2);
}

/// A vault created with a passphrase has it in slot 0, and a backup passphrase,
/// if there is one, in slot 1.
proof fn lemma_create_slots(o: CreateOpts)
    requires
        o.kind == SlotKindArg::Passphrase,
        !o.use_deniable,
    ensures
        slots_of(create_lines(o), seq![]) == (if o.backup_passphrase is Some {
            seq![SlotKind::Passphrase, SlotKind::Passphrase]
        } else {
            seq![SlotKind::Passphrase]
        }),
{
    let none = Seq::<SlotKind>::empty();
    let one = seq![SlotKind::Passphrase];
    let first = seq![step(Act::ChooseFormat { v3: o.use_v3_format }, ""@)];
    let body = create_body(o);
    let tail = create_tail(o);
    assert(quiet(first));
    lemma_quiet(first, none);
    lemma_slots_concat(first, body, none);
    lemma_slots_concat(first + body, tail, none);
    reveal_with_fuel(slots_of, 2);
    assert(body.drop_last() =~= Seq::<LineView>::empty());
    assert(slots_of(body, none) =~= one);
    if o.backup_passphrase is None {
        assert(quiet(tail));
        lemma_quiet(tail, one);
    } else {
        let anchor = if o.anchor_path is Some {
            seq![step(Act::InitAnchor, ""@)]
        } else {
            seq![]
        };
        let backup = seq![step(Act::EnrollBackup, ""@)];
        let rest = seq![
            step(Act::PersistHeader, ""@),
            step(Act::OpenVfs { tolerant: false }, ""@),
        ];
        assert(tail =~= anchor + backup + rest);
        assert(quiet(anchor) && quiet(rest));
        lemma_slots_concat(anchor, backup, one);
        lemma_slots_concat(anchor + backup, rest, one);
        lemma_quiet(anchor, one);
        assert(backup.drop_last() =~= Seq::<LineView>::empty());
        lemma_quiet(rest, one.push(SlotKind::Passphrase));
        assert(one.push(SlotKind::Passphrase) =~= seq![
            SlotKind::Passphrase,
            SlotKind::Passphrase,
        ]);
    }
}

/// The keyslot that a TPM bootstrap adds.
pub open spec fn tpm_kind(kind: TpmBootstrapKind) -> SlotKind {
    match kind {
        TpmBootstrapKind::Tpm2 => SlotKind::Tpm2Sealed,
        TpmBootstrapKind::Tpm2Pin { .. } => SlotKind::Tpm2SealedPin,
        TpmBootstrapKind::Tpm2Fido2 { .. } => SlotKind::Tpm2Fido2,
        TpmBootstrapKind::HybridPqTpm2 { kem_size, .. } => tpm_slot_kind(false, kem_of(kem_size)),
        TpmBootstrapKind::HybridPqTpm2Fido2 { kem_size, .. } => tpm_slot_kind(
            true,
            kem_of(kem_size),
        ),
    }
}

/// Whether a script is nothing but a refusal.
pub open spec fn refuses(lines: Seq<LineView>) -> bool {
    lines.len() == 1 && lines[0] is Stop
}

proof fn lemma_tpm_enroll_slots(
    o: CreateOpts,
    kind: TpmBootstrapKind,
    seed_exists: bool,
    p: Platform,
    slots: Seq<SlotKind>,
)
    requires
        !refuses(tpm_enroll_lines(o, kind, seed_exists, false, p)),
    ensures
        slots_of(tpm_enroll_lines(o, kind, seed_exists, false, p), slots) == slots.push(
            tpm_kind(kind),
        ),
{
    let lines = tpm_enroll_lines(o, kind, seed_exists, false, p);
    let n: int = match kind {
        TpmBootstrapKind::Tpm2 | TpmBootstrapKind::Tpm2Pin { .. } => 3,
        TpmBootstrapKind::Tpm2Fido2 { .. } => 7,
        TpmBootstrapKind::HybridPqTpm2 { .. } => 4,
        TpmBootstrapKind::HybridPqTpm2Fido2 { .. } => 8,
    };
    let head = lines.take(n);
    let tail = lines.skip(n + 1);
    assert(quiet(head));
    assert(quiet(tail));
    lemma_install(head, lines[n], tail, tpm_kind(kind), slots);
    assert(lines =~= head + seq![lines[n]] + tail);
}

/// A TPM bootstrap keeps the passphrase in slot 0, where the TPM keyslot comes
/// right behind it; a backup passphrase comes between the two.
pub proof fn law_tpm_bootstrap_keeps_the_passphrase_first(
    o: CreateOpts,
    kind: TpmBootstrapKind,
    seed_exists: bool,
    p: Platform,
)
    requires
        o.kind == SlotKindArg::Passphrase,
        !o.use_deniable,
        !refuses(tpm_enroll_lines(o, kind, seed_exists, false, p)),
    ensures
        slots_of(create_lines(o) + tpm_enroll_lines(o, kind, seed_exists, false, p), seq![]) == (
        if o.backup_passphrase is Some {
            seq![SlotKind::Passphrase, SlotKind::Passphrase, tpm_kind(kind)]
        } else {
            seq![SlotKind::Passphrase, tpm_kind(kind)]
        }),
{
    let enroll = tpm_enroll_lines(o, kind, seed_exists, false, p);
    lemma_create_slots(o);
    lemma_slots_concat(create_lines(o), enroll, seq![]);
    lemma_tpm_enroll_slots(o, kind, seed_exists, p, slots_of(create_lines(o), seq![]));
}

/// The keyslot that a Secure Enclave bootstrap adds.
pub open spec fn enclave_kind(kind: SepBootstrapKind) -> SlotKind {
    match kind {
        SepBootstrapKind::Sep => sep_kind(false),
        SepBootstrapKind::SepBiometric => sep_kind(true),
        SepBootstrapKind::HybridPqSep { kem_size, .. } => sep_hybrid_kind(kem_of(kem_size)->0),
        SepBootstrapKind::SepFused { factors, kem_size, .. } => factors.fused_kind(
            match kem_size {
                Some(n) => kem_of(n),
                None => None,
            },
        ),
    }
}

proof fn lemma_sep_enroll_slots(
    kind: SepBootstrapKind,
    seed_exists: bool,
    p: Platform,
    slots: Seq<SlotKind>,
)
    requires
        !refuses(sep_enroll_lines(kind, seed_exists, p)),
    ensures
        slots_of(sep_enroll_lines(kind, seed_exists, p), slots) == slots.push(enclave_kind(kind)),
{
    let lines = sep_enroll_lines(kind, seed_exists, p);
    let n: int = match kind {
        SepBootstrapKind::Sep | SepBootstrapKind::SepBiometric => 2,
        SepBootstrapKind::HybridPqSep { .. } => 3,
        SepBootstrapKind::SepFused { factors, kem_size, .. } => (if factors.binds_fido2() {
            6int
        } else {
            2
        }) + (if kem_size is Some {
            1int
        } else {
            0
        }),
    };
    let head = lines.take(n);
    let tail = lines.skip(n + 1);
    assert(quiet(head));
    assert(quiet(tail));
    lemma_install(head, lines[n], tail, enclave_kind(kind), slots);
    assert(lines =~= head + seq![lines[n]] + tail);
}

/// A Secure Enclave bootstrap ends with the enclave keyslot in slot 0 and the
/// passphrase behind it.
pub proof fn law_sep_bootstrap_moves_the_enclave_first(
    o: CreateOpts,
    kind: SepBootstrapKind,
    seed_exists: bool,
    p: Platform,
)
    requires
        o.kind == SlotKindArg::Passphrase,
        !o.use_deniable,
        o.backup_passphrase is None,
        !refuses(sep_enroll_lines(kind, seed_exists, p)),
    ensures
        slots_of(
            create_lines(o) + sep_enroll_lines(kind, seed_exists, p) + to_front_lines(
                1,
                sep_is_hybrid(kind),
            ),
            seq![],
        ) == seq![enclave_kind(kind), SlotKind::Passphrase],
{
    let enroll = sep_enroll_lines(kind, seed_exists, p);
    let front = to_front_lines(1, sep_is_hybrid(kind));
    let two = seq![SlotKind::Passphrase, enclave_kind(kind)];
    lemma_create_slots(o);
    lemma_slots_concat(create_lines(o), enroll, seq![]);
    lemma_sep_enroll_slots(kind, seed_exists, p, slots_of(create_lines(o), seq![]));
    assert(slots_of(create_lines(o) + enroll, seq![]) =~= two);
    lemma_slots_concat(create_lines(o) + enroll, front, seq![]);
    let swap = seq![front[0]];
    let rest = front.skip(1);
    assert(quiet(rest));
    assert(front =~= swap + rest);
    lemma_slots_concat(swap, rest, two);
    assert(swap.drop_last() =~= Seq::<LineView>::empty());
    reveal_with_fuel(slots_of, 2);
    let swapped = seq![enclave_kind(kind), SlotKind::Passphrase];
    assert(slots_of(swap, two) =~= swapped);
    lemma_quiet(rest, swapped);
}

/// A path that is taken is refused before any act, so that the vault, header or
/// anchor that is there stays as it is.
pub proof fn law_taken_paths_are_left_alone(
    o: CreateOpts,
    kind: TpmBootstrapKind,
    sep: SepBootstrapKind,
    d: CreateFacts,
    p: Platform,
)
    requires
        taken(o, d) is Some,
    ensures
        tpm_bootstrap_lines(o, kind, d, p) == seq![stop(taken(o, d)->0)],
        sep_bootstrap_lines(o, sep, d, p) == seq![stop(taken(o, d)->0)],
{
    assert(tpm_bootstrap_lines(o, kind, d, p) =~= seq![stop(taken(o, d)->0)]);
}

} // verus!
