//! What holds of the `.kyber` seed file across operations.

use crate::bootstrap::{collect_lines, combined_anchor_undo, finish_lines, hybrid_file_lines, tpm_deniable_kind, tpm_factors, tpm_factors_deniable_lines, tpm_factors_only_lines, tpm_seal_lines};
use crate::bootstrap_flow::{cleaned, leftovers, pw_of, remove_all, sep_enroll_lines, tpm_bootstrap_lines, tpm_create_lines, tpm_enroll_lines, wind_up_lines};
use crate::create::{create_body, create_kem, create_lines, create_tail, hybrid_lines, register_lines};
use crate::enroll::{atomic_deniable_lines, atomic_lines, fused_collect_lines, install_lines, salt_lead, sep_kind, sep_seal_lines, slot_install, tpm_fido2_lines};
use crate::kinds::{Platform, PqParams, SepBootstrapKind, SlotKind, SlotKindArg, TpmBootstrapKind, UnlockMethod, kem_or_768};
use crate::requests::{CreateFacts, CreateOpts, UnlockOpts, seed_secret};
use crate::script::{Act, LineView, OnFailView, SecretRef, act_of, step, step_or};
use crate::unlock::{Findings, Phase, has_wanted, method_pq, unlock_lines};
use crate::unlock_deniable::envelope_refusal;
use crate::unlock_search::Quest;
use crate::unlock_sep::any_in_scope;
use vstd::prelude::*;

verus! {

/// The text that a script means by a secret of its request.
pub open spec fn secret_text(
    secret: SecretRef,
    passphrase: Option<String>,
    seed_pw: Option<String>,
) -> Seq<char> {
    match secret {
        SecretRef::Passphrase => pw_of(passphrase),
        SecretRef::SeedPassphrase => pw_of(seed_pw),
    }
}

/// Whether a script writes the seed file, and under no other secret than `pw`.
pub open spec fn writes_seed_under(lines: Seq<LineView>, pw: SecretRef) -> bool {
    &&& exists|i: int|
        0 <= i < lines.len() && (#[trigger] lines[i]) is Do && act_of(lines[i])
            == (Act::WriteSeed { pw })
    &&& forall|i: int|
        0 <= i < lines.len() && (#[trigger] lines[i]) is Do && act_of(lines[i]) is WriteSeed
            ==> act_of(lines[i]) == (Act::WriteSeed { pw })
}

/// Whether a script reads the seed file, and under no other secret than `pw`.
pub open spec fn reads_seed_under(lines: Seq<LineView>, pw: SecretRef) -> bool {
    &&& exists|i: int|
        0 <= i < lines.len() && (#[trigger] lines[i]) is Do && act_of(lines[i])
            == (Act::ReadSeed { pw })
    &&& forall|i: int|
        0 <= i < lines.len() && (#[trigger] lines[i]) is Do && act_of(lines[i]) is ReadSeed
            ==> act_of(lines[i]) == (Act::ReadSeed { pw })
}

/// The phase of an unlock in which the seed is read.
pub open spec fn seed_phase(u: UnlockOpts) -> Phase {
    if u.use_deniable {
        Phase::Envelope
    } else if u.method == UnlockMethod::HybridPq {
        Phase::Start
    } else {
        Phase::Header
    }
}

/// Whether an unlock gets as far as reading the seed, given what it has read
/// before.
pub open spec fn seed_is_asked(u: UnlockOpts, p: Platform, f: Findings) -> bool {
    &&& method_pq(u.method)
    &&& u.hybrid_kyber_path is Some
    &&& u.passphrase is Some
    &&& if u.use_deniable {
        envelope_refusal(u, p, f.envelope) is None
    } else {
        match u.method {
            UnlockMethod::HybridPqTpm2 => has_wanted(f.slots@, Quest::HybridPqTpm2),
            UnlockMethod::HybridPqTpm2Fido2 => has_wanted(f.slots@, Quest::HybridPqTpm2Fido2),
            UnlockMethod::HybridPqSep => any_in_scope(f.slots@, true),
            UnlockMethod::HybridPqSepFido2 => false,
            _ => true,
        }
    }
}

/// Every unlock reads the seed under its own passphrase if one was given, else
/// under the one passphrase that there is.
pub proof fn law_unlock_reads_under_the_seed_passphrase(u: UnlockOpts, p: Platform, f: Findings)
    requires
        seed_is_asked(u, p, f),
    ensures
        reads_seed_under(unlock_lines(u, p, seed_phase(u), f), seed_secret(u.hybrid_seed_pw)),
{
    let lines = unlock_lines(u, p, seed_phase(u), f);
    assert(lines[0] is Do && act_of(lines[0]) == (Act::ReadSeed {
        pw: seed_secret(u.hybrid_seed_pw),
    }));
}

/// Whether a create kind has a seed file.
pub open spec fn has_seed(kind: SlotKindArg) -> bool {
    match kind {
        SlotKindArg::HybridPq
        | SlotKindArg::HybridPq1024
        | SlotKindArg::HybridPqFido2
        | SlotKindArg::HybridPq1024Fido2 => true,
        _ => false,
    }
}

proof fn lemma_writes_concat(a: Seq<LineView>, b: Seq<LineView>, c: Seq<LineView>, pw: SecretRef)
    requires
        writes_seed_under(b, pw),
        forall|i: int| 0 <= i < a.len() && (#[trigger] a[i]) is Do ==> !(act_of(a[i]) is WriteSeed),
        forall|i: int| 0 <= i < c.len() && (#[trigger] c[i]) is Do ==> !(act_of(c[i]) is WriteSeed),
    ensures
        writes_seed_under(a + b + c, pw),
{
    let all = a + b + c;
    let k = choose|i: int|
        0 <= i < b.len() && (#[trigger] b[i]) is Do && act_of(b[i]) == (Act::WriteSeed { pw });
    assert(all[a.len() + k] == b[k]);
    assert forall|i: int| 0 <= i < all.len() && (#[trigger] all[i]) is Do && act_of(all[i]) is WriteSeed implies act_of(
        all[i],
    ) == (Act::WriteSeed { pw }) by {
        if i < a.len() {
            assert(all[i] == a[i]);
        } else if i < a.len() + b.len() {
            assert(all[i] == b[i - a.len()]);
        } else {
            assert(all[i] == c[i - a.len() - b.len()]);
        }
    }
}

/// A new vault's seed is written under its own passphrase if one was given,
/// else under that of the vault.
pub proof fn law_create_writes_under_the_seed_passphrase(o: CreateOpts)
    requires
        has_seed(o.kind),
    ensures
        writes_seed_under(create_lines(o), seed_secret(o.hybrid_seed_pw)),
{
    let pw = seed_secret(o.hybrid_seed_pw);
    let first = seq![step(Act::ChooseFormat { v3: o.use_v3_format }, ""@)];
    let body = create_body(o);
    let fido2 = o.kind == SlotKindArg::HybridPqFido2 || o.kind == SlotKindArg::HybridPq1024Fido2;
    let head = if !fido2 {
        seq![]
    } else if o.use_deniable {
        register_lines("OS RNG failure: "@)
    } else {
        register_lines("OS RNG failure generating FIDO2 hmac salt: "@)
    };
    let n = head.len() as int;
    let rest = body.skip(n);
    assert(rest =~= hybrid_lines(create_kem(o.kind), act_of(body[n + 1]), pw));
    assert(rest[3] is Do && act_of(rest[3]) == (Act::WriteSeed { pw }));
    assert(writes_seed_under(rest, pw));
    lemma_writes_concat(first + head, rest, create_tail(o), pw);
    assert(create_lines(o) =~= first + head + rest + create_tail(o));
}

/// Whether a create kind and an unlock method go together.
pub open spec fn fits(kind: SlotKindArg, method: UnlockMethod) -> bool {
    match kind {
        SlotKindArg::HybridPq | SlotKindArg::HybridPq1024 => method == UnlockMethod::HybridPq,
        SlotKindArg::HybridPqFido2 | SlotKindArg::HybridPq1024Fido2 => method
            == UnlockMethod::HybridPqFido2,
        _ => false,
    }
}

/// The seed is read as it was written: an unlock that is given the passphrases
/// of the create opens the seed file with the text that it was encrypted under.
pub proof fn law_seed_is_read_as_it_was_written(
    o: CreateOpts,
    u: UnlockOpts,
    p: Platform,
    f: Findings,
    w: SecretRef,
    r: SecretRef,
)
    requires
        fits(o.kind, u.method),
        pw_of(u.passphrase) == pw_of(o.passphrase),
        pw_of(u.hybrid_seed_pw) == pw_of(o.hybrid_seed_pw),
        seed_is_asked(u, p, f),
        writes_seed_under(create_lines(o), w),
        reads_seed_under(unlock_lines(u, p, seed_phase(u), f), r),
    ensures
        secret_text(w, o.passphrase, o.hybrid_seed_pw) == secret_text(
            r,
            u.passphrase,
            u.hybrid_seed_pw,
        ),
{
    reveal_strlit("");
    law_create_writes_under_the_seed_passphrase(o);
    law_unlock_reads_under_the_seed_passphrase(u, p, f);
}

/// Every other flow that makes a hybrid slot writes its seed under the seed
/// passphrase, which an unlock then reads it with.
pub proof fn law_enrolls_write_under_the_seed_passphrase(
    install: Act,
    slot: usize,
    kem: PqParams,
    persist_lead: Seq<char>,
)
    requires
        !(install is WriteSeed),
    ensures
        writes_seed_under(atomic_lines(install, kem, persist_lead), SecretRef::SeedPassphrase),
        writes_seed_under(atomic_deniable_lines(install, slot, kem), SecretRef::SeedPassphrase),
        writes_seed_under(hybrid_file_lines(Some(kem)), SecretRef::SeedPassphrase),
{
    let write = Act::WriteSeed { pw: SecretRef::SeedPassphrase };
    let a = atomic_lines(install, kem, persist_lead);
    let b = atomic_deniable_lines(install, slot, kem);
    let c = hybrid_file_lines(Some(kem));
    assert(a[3] is Do && act_of(a[3]) == write);
    assert(b[3] is Do && act_of(b[3]) == write);
    assert(c[1] is Do && act_of(c[1]) == write);
}

/// Whether a script removes no seed file, neither as it goes on nor when it is
/// undone.
pub open spec fn spares_seed(lines: Seq<LineView>) -> bool {
    forall|i: int|
        0 <= i < lines.len() ==> (#[trigger] lines[i] matches LineView::Do { act, fail, .. } ==> {
            &&& act != Act::RemoveSeed
            &&& fail matches OnFailView::Abort { undo } ==> !undo.contains(Act::RemoveSeed)
        })
}

proof fn lemma_spares_concat(a: Seq<LineView>, b: Seq<LineView>)
    requires
        spares_seed(a),
        spares_seed(b),
    ensures
        spares_seed(a + b),
{
    let c = a + b;
    assert forall|i: int| 0 <= i < c.len() implies (#[trigger] c[i] matches LineView::Do {
        act,
        fail,
        ..
    } ==> {
        &&& act != Act::RemoveSeed
        &&& fail matches OnFailView::Abort { undo } ==> !undo.contains(Act::RemoveSeed)
    }) by {
        assert(c[i] == (if i < a.len() {
            a[i]
        } else {
            b[i - a.len()]
        }));
    }
}

proof fn lemma_create_spares(o: CreateOpts)
    ensures
        spares_seed(create_lines(o)),
{
    let first = seq![step(Act::ChooseFormat { v3: o.use_v3_format }, ""@)];
    let body = create_body(o);
    if o.kind == SlotKindArg::HybridPqFido2 || o.kind == SlotKindArg::HybridPq1024Fido2 {
        let head = body.take(4);
        let rest = body.skip(4);
        assert(head =~= register_lines(
            if o.use_deniable {
                "OS RNG failure: "@
            } else {
                "OS RNG failure generating FIDO2 hmac salt: "@
            },
        ));
        assert(rest =~= hybrid_lines(
            create_kem(o.kind),
            act_of(body[5]),
            seed_secret(o.hybrid_seed_pw),
        ));
        assert(spares_seed(head) && spares_seed(rest));
        lemma_spares_concat(head, rest);
        assert(body =~= head + rest);
    }
    assert(spares_seed(first) && spares_seed(body) && spares_seed(create_tail(o)));
    lemma_spares_concat(first, body);
    lemma_spares_concat(first + body, create_tail(o));
}

proof fn lemma_combined_spares(o: CreateOpts, fido2: bool, kem: Option<PqParams>)
    ensures
        spares_seed(tpm_factors_only_lines(o, fido2, kem)),
        spares_seed(tpm_factors_deniable_lines(o, fido2, kem)),
{
    let files = hybrid_file_lines(kem);
    let last = finish_lines(o, combined_anchor_undo(kem is Some));
    let a = collect_lines("OS RNG: "@, "OS RNG: "@, fido2, kem);
    let b = collect_lines(
        "OS RNG failure generating TPM secret: "@,
        "OS RNG failure: "@,
        fido2,
        kem,
    );
    let only = tpm_factors_only_lines(o, fido2, kem);
    let deniable = tpm_factors_deniable_lines(o, fido2, kem);
    let made_a = seq![only[a.len() as int]];
    let made_b = seq![deniable[b.len() as int]];
    assert(spares_seed(a) && spares_seed(b));
    assert(spares_seed(made_a) && spares_seed(made_b));
    assert(spares_seed(files));
    assert(spares_seed(last));
    lemma_spares_concat(a, made_a);
    lemma_spares_concat(b, made_b);
    lemma_spares_concat(a + made_a, files);
    lemma_spares_concat(b + made_b, files);
    lemma_spares_concat(a + made_a + files, last);
    lemma_spares_concat(b + made_b + files, last);
    assert(only =~= a + made_a + files + last);
    assert(deniable =~= b + made_b + files + last);
}

proof fn lemma_tpm_enroll_spares(o: CreateOpts, kind: TpmBootstrapKind, deniable: bool, p: Platform)
    ensures
        spares_seed(tpm_enroll_lines(o, kind, true, deniable, p)),
{
    let pw = pw_of(o.passphrase);
    let secret = "OS RNG failure generating TPM secret: "@;
    if deniable {
        let (fido2, kem) = match kind {
            TpmBootstrapKind::Tpm2 | TpmBootstrapKind::Tpm2Pin { .. } => (false, None),
            TpmBootstrapKind::Tpm2Fido2 { .. } => (true, None),
            TpmBootstrapKind::HybridPqTpm2 { kem_size, .. } => (false, Some(kem_or_768(kem_size))),
            TpmBootstrapKind::HybridPqTpm2Fido2 { kem_size, .. } => (
                true,
                Some(kem_or_768(kem_size)),
            ),
        };
        let seal = tpm_seal_lines(secret, kind is Tpm2Pin);
        let touch = if fido2 {
            register_lines("OS RNG failure: "@)
        } else {
            seq![]
        };
        let pq = match kem {
            Some(k) => seq![step(Act::Encapsulate { kem: k }, ""@)],
            None => seq![],
        };
        let install = install_lines(
            Act::InstallDeniable { kind: tpm_deniable_kind(fido2, kem is Some), slot: 1, kdf: o.kdf },
        );
        let files = match kem {
            Some(k) => seq![
                step(Act::ReadSidecar, ""@),
                step(Act::MergeSidecar { kem: k }, ""@),
                step(Act::WriteSeed { pw: SecretRef::SeedPassphrase }, ""@),
            ],
            None => seq![],
        };
        lemma_spares_concat(seal, touch);
        lemma_spares_concat(seal + touch, pq);
        lemma_spares_concat(seal + touch + pq, install);
        lemma_spares_concat(seal + touch + pq + install, files);
        assert(kem is None && !fido2 ==> seal + touch + pq + install + files =~= seal + install);
    } else {
        match kind {
            TpmBootstrapKind::Tpm2 => {
                lemma_spares_concat(
                    tpm_seal_lines("OS RNG failure generating TPM KEK: "@, false),
                    install_lines(slot_install(SlotKind::Tpm2Sealed, false)),
                );
            },
            TpmBootstrapKind::Tpm2Pin { pin } => {
                lemma_spares_concat(
                    tpm_seal_lines("OS RNG failure generating TPM PIN-bound KEK: "@, true),
                    install_lines(slot_install(SlotKind::Tpm2SealedPin, false)),
                );
            },
            TpmBootstrapKind::Tpm2Fido2 { .. } => {
                lemma_spares_concat(
                    tpm_fido2_lines("OS RNG failure generating TPM half: "@),
                    install_lines(slot_install(SlotKind::Tpm2Fido2, false)),
                );
            },
            _ => {},
        }
    }
}

proof fn lemma_sep_enroll_spares(kind: SepBootstrapKind, p: Platform)
    ensures
        spares_seed(sep_enroll_lines(kind, true, p)),
{
    match kind {
        SepBootstrapKind::Sep => {
            lemma_spares_concat(
                sep_seal_lines(false),
                install_lines(slot_install(sep_kind(false), false)),
            );
        },
        SepBootstrapKind::SepBiometric => {
            lemma_spares_concat(
                sep_seal_lines(true),
                install_lines(slot_install(sep_kind(true), false)),
            );
        },
        SepBootstrapKind::HybridPqSep { .. } => {},
        SepBootstrapKind::SepFused { factors, kem_size, kyber_path, .. } => {
            if kem_size is None {
                let open = seq![step(Act::OpenSep, ""@)];
                let touch = if factors.binds_fido2() {
                    register_lines(salt_lead())
                } else {
                    seq![]
                };
                let seal = seq![step(Act::SealSep { biometric: false }, "SEP seal: "@)];
                let tail = seq![
                    step(slot_install(factors.fused_kind(None), factors.binds_passphrase()), ""@),
                    step_or(Act::PersistHeader, "persist header: "@, seq![Act::RevokeInstalled]),
                ];
                lemma_spares_concat(open, touch);
                lemma_spares_concat(open + touch, seal);
                lemma_spares_concat(fused_collect_lines(factors.binds_fido2()), tail);
            }
        },
    }
}

/// A seed file that was there before a bootstrap survives it: whatever fails,
/// neither the create nor the enroll nor what follows a failed enroll removes
/// it.
pub proof fn law_existing_seed_survives(
    o: CreateOpts,
    kind: TpmBootstrapKind,
    sep: SepBootstrapKind,
    d: CreateFacts,
    deniable: bool,
    p: Platform,
    text: Seq<char>,
)
    ensures
        spares_seed(tpm_bootstrap_lines(o, kind, d, p)),
        spares_seed(tpm_enroll_lines(o, kind, true, deniable, p)),
        spares_seed(sep_enroll_lines(sep, true, p)),
        spares_seed(wind_up_lines(remove_all(o, false), text)),
{
    let lines = tpm_create_lines(o, kind, d, p);
    let clean = cleaned(o, lines);
    lemma_create_spares(o);
    if let Some((fido2, kem)) = tpm_factors(kind) {
        lemma_combined_spares(o, fido2, kem);
    }
    assert(spares_seed(lines));
    assert forall|i: int| 0 <= i < clean.len() implies (#[trigger] clean[i] matches LineView::Do {
        act,
        fail,
        ..
    } ==> {
        &&& act != Act::RemoveSeed
        &&& fail matches OnFailView::Abort { undo } ==> !undo.contains(Act::RemoveSeed)
    }) by {
        assert(!leftovers(o, lines, i).contains(Act::RemoveSeed));
    }
    lemma_tpm_enroll_spares(o, kind, deniable, p);
    lemma_sep_enroll_spares(sep, p);
    let acts = remove_all(o, false);
    assert(!acts.contains(Act::RemoveSeed));
    let end = wind_up_lines(acts, text);
    assert forall|i: int| 0 <= i < end.len() implies (#[trigger] end[i] matches LineView::Do {
        act,
        fail,
        ..
    } ==> {
        &&& act != Act::RemoveSeed
        &&& fail matches OnFailView::Abort { undo } ==> !undo.contains(Act::RemoveSeed)
    }) by {
        if i < acts.len() {
            assert(acts[i] != Act::RemoveSeed);
        }
    }
}

} // verus!
