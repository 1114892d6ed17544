//! An unlock does what its method asks for: it is refused only where something
//! is missing, reads what it needs, hands over the factors that the method
//! names, and attaches what it has opened.

use crate::enclave_tries::{fields_filled, law_enclave_slots_are_tried_as_they_bind, looks_through_enclave, whole_enclave_try};
use crate::kinds::{DeniableKindTag, Platform, SlotKind, TargetOs, UnlockMethod};
use crate::requests::{UnlockOpts, filled};
use crate::script::{
    Act, Goto, LineView, OnFailView, SecretRef, UnlockFactors, act_of, is_step, step,
};
use crate::sidecar::HybridEntry;
use crate::slots::SlotFacts;
use crate::unlock::{
    AnchorFile, Envelope, Findings, Phase, attach_lines, entries_lines, has_kind, header_lines,
    no_chip_lead, phase_after, start_lines, unlock_lines, unlock_refusal,
};
use crate::unlock_deniable::{completion_lines, deniable_entries_lines, deniable_finish_lines, deniable_start_lines, envelope_lines, unseal_lines};
use crate::unlock_laws::occurs;
use crate::unlock_search::{Quest, entry_tries, hybrid_pq_lines, lemma_entry_tries_len};
use crate::unlock_sep::{any_in_scope, in_scope};
use crate::unlock_tries::{asked, branches, factors_of, has_entry, law_entry_is_the_first_of_its_slot, lemma_quest_looks_through, looks_through, whole_try};
use vstd::prelude::*;

verus! {

/// An unlock reads the envelope of a deniable vault, or else the header of a
/// standard one where keyslots have to be told apart; then the sidecar, if the
/// method asks for a seed; and what it has opened is attached.
pub proof fn law_unlock_reads_what_it_needs(o: UnlockOpts)
    ensures
        o.use_deniable ==> phase_after(o, Phase::Start) == Phase::Envelope,
        !o.use_deniable && o.method == UnlockMethod::Passphrase ==> phase_after(o, Phase::Start)
            == Phase::Attach,
        !o.use_deniable && o.method == UnlockMethod::HybridPq ==> phase_after(o, Phase::Start)
            == Phase::Entries,
        !o.use_deniable && o.method != UnlockMethod::Passphrase && o.method
            != UnlockMethod::HybridPq ==> phase_after(o, Phase::Start) == Phase::Header,
        asked(o.method).seed ==> phase_after(o, Phase::Header) == Phase::Entries && phase_after(
            o,
            Phase::Envelope,
        ) == Phase::Entries,
        !asked(o.method).seed ==> phase_after(o, Phase::Header) == Phase::Attach && phase_after(
            o,
            Phase::Envelope,
        ) == Phase::Attach,
        phase_after(o, Phase::Entries) == Phase::Attach,
        phase_after(o, Phase::Attach) == Phase::Done,
        phase_after(o, Phase::Done) == Phase::Done,
{
}

/// Whether all is there that the unlock of a standard vault needs to begin with.
pub open spec fn ready(o: UnlockOpts, p: Platform) -> bool {
    let a = asked(o.method);
    &&& !(a.sep && a.fido2)
    &&& a.tpm || a.sep || a.fido2 ==> p.hardware
    &&& a.fido2 || o.method == UnlockMethod::Tpm2Pin ==> o.pin is Some
    &&& a.seed ==> o.hybrid_kyber_path is Some
    &&& a.seed || o.method == UnlockMethod::Passphrase ==> o.passphrase is Some
}

/// The unlock of a standard vault is refused exactly if something is missing.
pub proof fn law_unlock_is_refused_for_a_reason(o: UnlockOpts, p: Platform)
    ensures
        unlock_refusal(o, p) is None <==> ready(o, p),
        !ready(o, p) ==> start_lines(o, p).len() == 1 && start_lines(o, p)[0] is Stop,
{
}

/// What a seed file is decrypted under: its own passphrase if one was typed in,
/// else that of the vault.
pub open spec fn seed_under(o: UnlockOpts) -> SecretRef {
    match o.hybrid_seed_pw {
        Some(pw) if pw@.len() > 0 => SecretRef::SeedPassphrase,
        _ => SecretRef::Passphrase,
    }
}

/// Whether lines are just these acts, one after the other, each of which ends
/// the script if it fails.
pub open spec fn just(lines: Seq<LineView>, acts: Seq<Act>) -> bool {
    &&& lines.len() == acts.len()
    &&& forall|k: int|
        0 <= k < lines.len() ==> is_step(#[trigger] lines[k]) && act_of(lines[k]) == acts[k]
}

/// Whether a script only says why it does nothing.
pub open spec fn only_refuses(lines: Seq<LineView>) -> bool {
    lines.len() == 1 && lines[0] is Stop
}

/// The first thing that the unlock of a standard vault does: it opens a vault
/// that has a passphrase and no more, reads the seed where no header is needed,
/// or reads the header.
pub proof fn law_unlock_starts_as_asked(o: UnlockOpts, p: Platform)
    requires
        ready(o, p),
    ensures
        o.method == UnlockMethod::Passphrase ==> just(
            start_lines(o, p),
            seq![Act::OpenWith { kind: UnlockFactors::Passphrase, slot: 0 }],
        ),
        o.method == UnlockMethod::HybridPq ==> just(
            start_lines(o, p),
            seq![Act::ReadSeed { pw: seed_under(o) }, Act::RequireSidecar],
        ),
        o.method != UnlockMethod::Passphrase && o.method != UnlockMethod::HybridPq ==> just(
            start_lines(o, p),
            seq![Act::ReadHeader],
        ),
{
}

/// Whether a keyslot is one that a method is for.
pub open spec fn is_for(m: UnlockMethod, s: SlotFacts) -> bool {
    match m {
        UnlockMethod::Tpm2 => s.kind == SlotKind::Tpm2Sealed,
        UnlockMethod::Tpm2Pin => s.kind == SlotKind::Tpm2SealedPin,
        UnlockMethod::Tpm2Fido2 => s.kind == SlotKind::Tpm2Fido2,
        UnlockMethod::HybridPqTpm2 => s.kind == SlotKind::HybridPqKemTpm2 || s.kind
            == SlotKind::HybridPqKem1024Tpm2,
        UnlockMethod::HybridPqTpm2Fido2 => s.kind == SlotKind::HybridPqKemTpm2Fido2 || s.kind
            == SlotKind::HybridPqKem1024Tpm2Fido2,
        UnlockMethod::Sep => s.sep && !s.hybrid_pq,
        UnlockMethod::HybridPqSep => s.sep && s.hybrid_pq,
        _ => true,
    }
}

/// Whether the header shows that a method that needs a chip can do nothing.
pub open spec fn in_vain(m: UnlockMethod, slots: Seq<SlotFacts>) -> bool {
    &&& asked(m).tpm || asked(m).sep
    &&& forall|i: int| 0 <= i < slots.len() ==> !is_for(m, #[trigger] slots[i])
}

/// Whether each entry of the sidecar is decapsulated and then tried on its own
/// slot, one after the other, a failure of either going on with the next entry.
pub open spec fn tries_every_entry(lines: Seq<LineView>, entries: Seq<HybridEntry>) -> bool {
    &&& lines.len() == 2 * entries.len() + 1
    &&& lines.last() is GiveUp
    &&& forall|e: int|
        #![trigger entries[e]]
        0 <= e < entries.len() ==> {
            &&& branches(lines[2 * e], Goto::Next, 2 * e + 2)
            &&& act_of(lines[2 * e]) == (Act::DecapsulateEntry { entry: e as usize })
            &&& branches(lines[2 * e + 1], Goto::End, 2 * e + 2)
            &&& act_of(lines[2 * e + 1]) == (Act::OpenWith {
                kind: UnlockFactors::HybridPqPassphrase,
                slot: entries[e].slot_idx as usize,
            })
        }
}

proof fn lemma_entry_tries_prefix(entries: Seq<HybridEntry>, n: int, e: int)
    requires
        0 <= e < n <= entries.len(),
    ensures
        ({
            let lines = entry_tries(entries, n);
            &&& lines.len() == 2 * n
            &&& branches(lines[2 * e], Goto::Next, 2 * e + 2)
            &&& act_of(lines[2 * e]) == (Act::DecapsulateEntry { entry: e as usize })
            &&& branches(lines[2 * e + 1], Goto::End, 2 * e + 2)
            &&& act_of(lines[2 * e + 1]) == (Act::OpenWith {
                kind: UnlockFactors::HybridPqPassphrase,
                slot: entries[e].slot_idx as usize,
            })
        }),
    decreases n,
{
    lemma_entry_tries_len(entries, n - 1);
    let before = entry_tries(entries, n - 1);
    let lines = entry_tries(entries, n);
    if e < n - 1 {
        lemma_entry_tries_prefix(entries, n - 1, e);
        assert(lines[2 * e] == before[2 * e]);
        assert(lines[2 * e + 1] == before[2 * e + 1]);
    }
}

/// Whether a script opens a standard vault as its method asks for.
pub open spec fn opens_as_asked(
    lines: Seq<LineView>,
    m: UnlockMethod,
    p: Platform,
    slots: Seq<SlotFacts>,
    entries: Seq<HybridEntry>,
) -> bool {
    match m {
        UnlockMethod::Passphrase => just(
            lines,
            seq![Act::OpenWith { kind: UnlockFactors::Passphrase, slot: 0 }],
        ),
        UnlockMethod::Tpm2 => just(
            lines,
            seq![Act::OpenTpm, Act::OpenWith { kind: UnlockFactors::Tpm2, slot: 0 }],
        ),
        UnlockMethod::Tpm2Pin => just(
            lines,
            seq![Act::OpenTpm, Act::OpenWith { kind: UnlockFactors::Tpm2Pin, slot: 0 }],
        ),
        UnlockMethod::HybridPq => tries_every_entry(lines, entries),
        UnlockMethod::Sep | UnlockMethod::HybridPqSep => looks_through_enclave(
            lines,
            m,
            p,
            slots,
            entries,
        ),
        _ => {
            &&& looks_through(lines, m, p, slots, entries)
            &&& m == UnlockMethod::Tpm2Fido2 ==> is_step(lines[0]) && act_of(lines[0])
                == Act::OpenTpm
        },
    }
}

/// Once the header is read, a method without a slot is refused; one that asks
/// for a seed reads it and the sidecar, and opens the TPM if it needs that; any
/// other opens the vault as asked.
pub proof fn law_header_is_followed_as_asked(
    o: UnlockOpts,
    p: Platform,
    slots: Seq<SlotFacts>,
)
    requires
        slots.len() <= 256,
        ready(o, p),
        o.method != UnlockMethod::Passphrase,
        o.method != UnlockMethod::HybridPq,
    ensures
        ({
            let lines = header_lines(o, p, slots);
            let a = asked(o.method);
            if in_vain(o.method, slots) {
                only_refuses(lines)
            } else if a.seed && a.tpm {
                just(
                    lines,
                    seq![
                        Act::ReadSeed { pw: seed_under(o) },
                        Act::ReadBoundSidecar,
                        Act::OpenTpm,
                    ],
                )
            } else if a.seed && a.sep {
                just(lines, seq![Act::ReadSeed { pw: seed_under(o) }, Act::ReadBoundSidecar])
            } else if a.seed {
                just(lines, seq![Act::ReadSeed { pw: seed_under(o) }, Act::RequireSidecar])
            } else if a.sep && !fields_filled(slots, false, filled(o.passphrase), filled(o.pin)) {
                only_refuses(lines)
            } else {
                opens_as_asked(lines, o.method, p, slots, seq![])
            }
        }),
{
    let m = o.method;
    let none = Seq::<HybridEntry>::empty();
    let chip = seq![step(Act::OpenTpm, no_chip_lead())];
    if in_vain(m, slots) {
        assert(!has_kind(slots, SlotKind::Tpm2Sealed) || m != UnlockMethod::Tpm2);
        assert(!has_kind(slots, SlotKind::Tpm2SealedPin) || m != UnlockMethod::Tpm2Pin);
        assert(!has_kind(slots, SlotKind::Tpm2Fido2) || m != UnlockMethod::Tpm2Fido2);
        assert(!any_in_scope(slots, false) || m != UnlockMethod::Sep);
        assert(!any_in_scope(slots, true) || m != UnlockMethod::HybridPqSep);
    } else if asked(m).tpm || asked(m).sep {
        let i = choose|i: int| 0 <= i < slots.len() && is_for(m, #[trigger] slots[i]);
        assert(asked(m).sep ==> in_scope(slots[i], asked(m).seed));
        assert(m == UnlockMethod::HybridPqTpm2 ==> Quest::HybridPqTpm2.wants_spec(slots[i]));
        assert(m == UnlockMethod::HybridPqTpm2Fido2 ==> Quest::HybridPqTpm2Fido2.wants_spec(
            slots[i],
        ));
    }
    match m {
        UnlockMethod::Fido2 => {
            lemma_quest_looks_through(seq![], m, Quest::Fido2, p, slots, none);
        },
        UnlockMethod::Tpm2Fido2 => {
            lemma_quest_looks_through(chip, m, Quest::Tpm2Fido2, p, slots, none);
        },
        UnlockMethod::Sep => {
            law_enclave_slots_are_tried_as_they_bind(
                p,
                slots,
                m,
                filled(o.passphrase),
                filled(o.pin),
                none,
            );
        },
        _ => {},
    }
}

/// Once the sidecar is read, the vault is opened as asked; an empty sidecar and
/// a field that an enclave slot asks for in vain are reported.
pub proof fn law_entries_are_followed_as_asked(
    o: UnlockOpts,
    p: Platform,
    slots: Seq<SlotFacts>,
    entries: Seq<HybridEntry>,
)
    requires
        slots.len() <= 256,
        entries.len() <= usize::MAX,
        ready(o, p),
        asked(o.method).seed,
    ensures
        ({
            let lines = entries_lines(o, p, slots, entries);
            if o.method == UnlockMethod::HybridPq && entries.len() == 0 {
                only_refuses(lines)
            } else if asked(o.method).sep && !fields_filled(
                slots,
                true,
                filled(o.passphrase),
                filled(o.pin),
            ) {
                only_refuses(lines)
            } else {
                opens_as_asked(lines, o.method, p, slots, entries)
            }
        }),
{
    let m = o.method;
    match m {
        UnlockMethod::HybridPq => {
            if entries.len() > 0 {
                let n = entries.len() as int;
                let lines = hybrid_pq_lines(entries);
                lemma_entry_tries_len(entries, n);
                assert forall|e: int| #![trigger entries[e]] 0 <= e < n implies {
                    &&& branches(lines[2 * e], Goto::Next, 2 * e + 2)
                    &&& act_of(lines[2 * e]) == (Act::DecapsulateEntry { entry: e as usize })
                    &&& branches(lines[2 * e + 1], Goto::End, 2 * e + 2)
                    &&& act_of(lines[2 * e + 1]) == (Act::OpenWith {
                        kind: UnlockFactors::HybridPqPassphrase,
                        slot: entries[e].slot_idx as usize,
                    })
                } by {
                    lemma_entry_tries_prefix(entries, n, e);
                    assert(lines[2 * e] == entry_tries(entries, n)[2 * e]);
                    assert(lines[2 * e + 1] == entry_tries(entries, n)[2 * e + 1]);
                }
            }
        },
        UnlockMethod::HybridPqFido2 => {
            lemma_quest_looks_through(seq![], m, Quest::HybridPqFido2, p, slots, entries);
        },
        UnlockMethod::HybridPqTpm2 => {
            lemma_quest_looks_through(seq![], m, Quest::HybridPqTpm2, p, slots, entries);
        },
        UnlockMethod::HybridPqTpm2Fido2 => {
            lemma_quest_looks_through(seq![], m, Quest::HybridPqTpm2Fido2, p, slots, entries);
        },
        _ => {
            law_enclave_slots_are_tried_as_they_bind(
                p,
                slots,
                m,
                filled(o.passphrase),
                filled(o.pin),
                entries,
            );
        },
    }
}

/// In every phase of every unlock of a standard vault, an act that opens it
/// hands over exactly the factors that the method names.
pub proof fn law_unlock_hands_over_what_the_method_names(
    o: UnlockOpts,
    p: Platform,
    phase: Phase,
    f: Findings,
    k: int,
)
    requires
        !o.use_deniable,
        occurs(o, phase),
        ready(o, p),
        f.slots@.len() <= 256,
        f.entries@.len() <= usize::MAX,
        0 <= k < unlock_lines(o, p, phase, f).len(),
        unlock_lines(o, p, phase, f)[k] is Do,
    ensures
        !(act_of(unlock_lines(o, p, phase, f)[k]) is CompleteOpen),
        act_of(unlock_lines(o, p, phase, f)[k]) matches Act::OpenWith { kind, slot } ==> kind
            == factors_of(o.method, f.slots@[slot as int]),
{
    let m = o.method;
    let lines = unlock_lines(o, p, phase, f);
    let slots = f.slots@;
    if phase == Phase::Start {
        law_unlock_starts_as_asked(o, p);
    } else if phase == Phase::Header {
        law_header_is_followed_as_asked(o, p, slots);
        lemma_names_the_factors(lines, m, p, slots, seq![], k);
    } else if phase == Phase::Entries {
        law_entries_are_followed_as_asked(o, p, slots, f.entries@);
        lemma_names_the_factors(lines, m, p, slots, f.entries@, k);
    }
}

proof fn lemma_names_the_factors(
    lines: Seq<LineView>,
    m: UnlockMethod,
    p: Platform,
    slots: Seq<SlotFacts>,
    entries: Seq<HybridEntry>,
    k: int,
)
    requires
        0 <= k < lines.len(),
        lines[k] is Do,
        !(asked(m).sep && asked(m).fido2),
    ensures
        opens_as_asked(lines, m, p, slots, entries) ==> {
            &&& !(act_of(lines[k]) is CompleteOpen)
            &&& act_of(lines[k]) matches Act::OpenWith { kind, slot } ==> kind == factors_of(
                m,
                slots[slot as int],
            )
        },
{
    if opens_as_asked(lines, m, p, slots, entries) {
        if m == UnlockMethod::HybridPq {
            let e = k / 2;
            assert(k < 2 * entries.len());
            assert(entries[e].slot_idx >= 0);
            assert(k == 2 * e || k == 2 * e + 1);
            assert(branches(lines[2 * e], Goto::Next, 2 * e + 2));
        } else if asked(m).sep {
            let part = lines.drop_last();
            assert(part[k] == lines[k]);
            assert(whole_enclave_try(part, 0, k, m, p, slots, entries));
        } else if looks_through(lines, m, p, slots, entries) {
            let part = lines.drop_last();
            assert(part[k] == lines[k]);
            assert(whole_try(part, 0, k, m, p, slots, entries));
        } else {
            assert(is_step(lines[k]));
        }
    }
}

/// The kind of slot that a method looks for in a deniable vault.
pub open spec fn deniable_kind(m: UnlockMethod) -> DeniableKindTag {
    let a = asked(m);
    if a.tpm {
        if a.seed && a.fido2 {
            DeniableKindTag::HybridPqTpmFido2Passphrase
        } else if a.seed {
            DeniableKindTag::HybridPqTpmPassphrase
        } else if a.fido2 {
            DeniableKindTag::TpmFido2Passphrase
        } else {
            DeniableKindTag::TpmPassphrase
        }
    } else if a.sep {
        if a.seed && a.fido2 {
            DeniableKindTag::HybridPqSepFido2Passphrase
        } else if a.seed {
            DeniableKindTag::HybridPqSepPassphrase
        } else if a.fido2 {
            DeniableKindTag::SepFido2Passphrase
        } else {
            DeniableKindTag::SepPassphrase
        }
    } else if a.seed && a.fido2 {
        DeniableKindTag::HybridPqFido2Passphrase
    } else if a.seed {
        DeniableKindTag::HybridPqPassphrase
    } else if a.fido2 {
        DeniableKindTag::Fido2Passphrase
    } else {
        DeniableKindTag::Passphrase
    }
}

/// Whether a machine can do what a method asks for in a deniable vault: a TPM
/// under Linux, a Secure Enclave under macOS.
pub open spec fn can_do(m: UnlockMethod, p: Platform) -> bool {
    &&& asked(m).tpm ==> p.hardware && p.os == TargetOs::Linux
    &&& asked(m).sep ==> p.hardware && p.os == TargetOs::Macos
}

/// Whether the envelope and the request hold what the devices need.
pub open spec fn envelope_complete(o: UnlockOpts, e: Envelope) -> bool {
    let a = asked(o.method);
    &&& a.tpm || a.sep ==> e.blob_len > 0
    &&& a.fido2 ==> e.has_salt && e.cred_len > 0
    &&& a.fido2 || o.method == UnlockMethod::Tpm2Pin ==> o.pin is Some
}

/// What the chip does with what the envelope holds.
pub open spec fn unsealing(m: UnlockMethod) -> Seq<Act> {
    if asked(m).tpm {
        seq![Act::UnsealEnvelopeTpm { pin: m == UnlockMethod::Tpm2Pin }]
    } else if asked(m).sep {
        seq![Act::UnsealEnvelopeSep]
    } else {
        seq![]
    }
}

/// Whether lines, from `n` on, complete the open: without an authenticator in
/// one act; with one, under the current salt convention, and only if that does
/// not decrypt, under the former.
pub open spec fn completes_from(lines: Seq<LineView>, n: int, m: UnlockMethod, e: Envelope) -> bool {
    let complete = Act::CompleteOpen { kind: e.kind };
    if asked(m).fido2 {
        &&& lines.len() == n + 4
        &&& is_step(lines[n]) && act_of(lines[n]) == (Act::DeriveEnvelopeHmac { prehash: true })
        &&& lines[n + 1] matches LineView::Do { act, ok, fail, .. } && act == complete && ok
            == Goto::End && fail == OnFailView::AbortUnlessOpaque
        &&& is_step(lines[n + 2]) && act_of(lines[n + 2]) == (Act::DeriveEnvelopeHmac {
            prehash: false,
        })
        &&& is_step(lines[n + 3]) && act_of(lines[n + 3]) == complete
    } else {
        lines.len() == n + 1 && is_step(lines[n]) && act_of(lines[n]) == complete
    }
}

/// Whether a script stops before it completes the open.
pub open spec fn stops_short(lines: Seq<LineView>) -> bool {
    exists|k: int|
        0 <= k < lines.len() && (#[trigger] lines[k]) is Stop && forall|j: int|
            0 <= j < k ==> is_step(#[trigger] lines[j]) && !(act_of(lines[j]) is CompleteOpen)
}

/// The unlock of a deniable vault looks for a slot of the kind that the method
/// names, exactly if the request and the machine allow it.
pub proof fn law_deniable_unlock_looks_for_the_kind_named(o: UnlockOpts, p: Platform)
    ensures
        ({
            let lines = deniable_start_lines(o, p);
            if o.header_path is None && o.passphrase is Some && can_do(o.method, p) {
                just(lines, seq![Act::OpenEnvelope { kind: deniable_kind(o.method) }])
            } else {
                only_refuses(lines)
            }
        }),
{
}

/// The devices and the end of a deniable open are as the method asks for, if the
/// envelope holds what they need; else it stops before.
pub proof fn law_deniable_unlock_completes_as_asked(o: UnlockOpts, e: Envelope)
    ensures
        ({
            let lines = deniable_finish_lines(o, e);
            let first = unsealing(o.method);
            if envelope_complete(o, e) {
                &&& just(lines.take(first.len() as int), first)
                &&& completes_from(lines, first.len() as int, o.method, e)
            } else {
                stops_short(lines)
            }
        }),
{
    let lines = deniable_finish_lines(o, e);
    let a = unseal_lines(o, e);
    let b = completion_lines(o, e);
    if envelope_complete(o, e) {
        assert(lines.take(a.len() as int) =~= a);
        assert(forall|j: int| 0 <= j < b.len() ==> lines[a.len() + j] == #[trigger] b[j]);
        assert(b.len() == if asked(o.method).fido2 {
            4int
        } else {
            1int
        });
    } else if a.len() > 0 && a[0] is Stop {
        assert(lines[0] is Stop);
    } else {
        assert(b[0] is Stop);
        assert(lines[a.len() as int] == b[0]);
        assert forall|j: int| 0 <= j < a.len() implies is_step(#[trigger] lines[j]) && !(act_of(
            lines[j],
        ) is CompleteOpen) by {
            assert(lines[j] == a[j]);
        }
    }
}

/// An envelope of another kind than the method names is refused, and so is an
/// authenticator where there is none; else the seed is read, or the open
/// completed.
pub proof fn law_envelope_is_followed_as_asked(o: UnlockOpts, p: Platform, e: Envelope)
    ensures
        ({
            let lines = envelope_lines(o, p, e);
            let a = asked(o.method);
            let fits = can_do(o.method, p) && e.kind == deniable_kind(o.method) && (a.fido2
                ==> p.hardware);
            if !fits || a.seed && o.hybrid_kyber_path is None {
                only_refuses(lines)
            } else if a.seed {
                just(lines, seq![Act::ReadSeed { pw: seed_under(o) }, Act::RequireSidecar])
            } else {
                lines == deniable_finish_lines(o, e)
            }
        }),
{
}

/// The entry that is decapsulated is that of the slot that the passphrase found.
pub proof fn law_deniable_entry_is_that_of_the_slot(
    o: UnlockOpts,
    e: Envelope,
    entries: Seq<HybridEntry>,
)
    requires
        entries.len() <= usize::MAX,
    ensures
        ({
            let lines = deniable_entries_lines(o, e, entries);
            if has_entry(entries, e.slot as int) {
                &&& lines.len() > 0 && is_step(lines[0])
                &&& act_of(lines[0]) matches Act::DecapsulateEntry { entry } && entry
                    < entries.len() && entries[entry as int].slot_idx == e.slot
                &&& lines.skip(1) == deniable_finish_lines(o, e)
            } else {
                only_refuses(lines)
            }
        }),
{
    law_entry_is_the_first_of_its_slot(entries, e.slot);
    if has_entry(entries, e.slot as int) {
        let lines = deniable_entries_lines(o, e, entries);
        assert(lines.skip(1) =~= deniable_finish_lines(o, e));
    }
}

/// A vault that was opened is attached with its anchor, if there is one, set
/// before and compared after; it puts up with damage exactly in recovery mode. A
/// deniable vault is not attached with an anchor that is not a regular file of
/// 256 bytes.
pub proof fn law_vault_is_attached_as_asked(o: UnlockOpts, anchor: AnchorFile)
    ensures
        ({
            let lines = attach_lines(o, anchor);
            let open = Act::OpenVfs { tolerant: o.recovery_mode };
            let sound = anchor matches AnchorFile::Regular { len } && len == 256;
            if o.anchor_path is None {
                just(lines, seq![open])
            } else if o.use_deniable && !sound {
                only_refuses(lines)
            } else {
                just(lines, seq![Act::SetAnchor, open, Act::CompareAnchor])
            }
        }),
{
}

} // verus!
