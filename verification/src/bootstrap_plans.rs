//! Every bootstrap binds the vault to what was asked for.

use crate::bootstrap::{collect_lines, combined_anchor_undo, finish_lines, hybrid_file_lines, remove_vault_and_header, tpm2_only_lines, tpm_seal_lines, tpm_factors_deniable_lines, tpm_factors_only_lines};
use crate::bootstrap_flow::{Made, cleaned, detached, made_by, makes, remove_all, removing, wind_up_lines, pw_of, sep_bootstrap_lines, sep_deniable_lines, sep_enroll_lines, sep_is_hybrid, sep_only_lines, to_front_lines, tpm_bootstrap_lines, tpm_create_lines, tpm_enroll_follows, tpm_enroll_lines};
use crate::bootstrap_laws::{VaultFile, may_exist, removal_of, writes};
use crate::bootstrap_slots::refuses;
use crate::create::{create_refusal, register_lines};
use crate::create_laws::{fresh, fresh_deniable, law_combined_tpm_vault_is_what_was_asked, law_create_does_what_was_asked, lemma_finish, requested};
use crate::enroll::{SeedTarget, sep_seal_lines};
use crate::kinds::{DeniableKindTag, Platform, PqParams, SepBootstrapKind, SepFactors, SlotKind, TargetOs, TpmBootstrapKind};
use crate::plan_laws::{added, added_deniable, at_level, is_fused_kind, law_added_deniable_hybrid_slots_are_bound_as_named, law_added_deniable_slots_are_bound_as_named, law_added_hybrid_keyslots_are_bound_as_named, law_added_keyslots_are_bound_as_named, law_fused_keyslots_are_bound_as_named, lemma_collect, lemma_fused, lemma_one_kem, lemma_seal, lemma_sep_seal, names, tpm_and};
use crate::plans::{Factors, Plan, both, carries_out, collects_all, does, lemma_collect_both, lemma_plan, lemma_same_acts, nothing, with_fido2, with_kem, with_sep, with_tpm};
use crate::requests::{CreateFacts, CreateOpts};
use crate::script::{Act, Goto, LineView, act_of, is_step, step, straight, undo_of, writes_nothing};
use crate::unlock_tries::branches;
use vstd::prelude::*;

verus! {

/// The ML-KEM parameter set of a bootstrap: ML-KEM-1024 if that was asked for,
/// else ML-KEM-768.
pub open spec fn level(kem_size: u16) -> PqParams {
    if kem_size == 1024 {
        PqParams::Ml1024
    } else {
        PqParams::Ml768
    }
}

/// Whether the factors of a TPM bootstrap become the only slot of the vault: a
/// combination does, unless the user wants a passphrase for recovery, which a
/// deniable vault does not offer.
pub open spec fn single_slot(o: CreateOpts, kind: TpmBootstrapKind) -> bool {
    &&& !(kind is Tpm2) && !(kind is Tpm2Pin)
    &&& o.use_deniable || !o.enable_recovery_passphrase
}

/// The only slot of such a vault.
pub open spec fn combined(o: CreateOpts, kind: TpmBootstrapKind) -> Plan {
    let tpm_fido2 = both(with_tpm(false), with_fido2());
    match kind {
        TpmBootstrapKind::HybridPqTpm2 { kem_size, .. } => {
            let f = both(with_tpm(false), with_kem(level(kem_size)));
            if o.use_deniable {
                fresh_deniable(o, f, DeniableKindTag::HybridPqTpmPassphrase)
            } else {
                fresh(
                    o,
                    f,
                    at_level(
                        level(kem_size),
                        SlotKind::HybridPqKemTpm2,
                        SlotKind::HybridPqKem1024Tpm2,
                    ),
                )
            }
        },
        TpmBootstrapKind::HybridPqTpm2Fido2 { kem_size, .. } => {
            let f = both(tpm_fido2, with_kem(level(kem_size)));
            if o.use_deniable {
                fresh_deniable(o, f, DeniableKindTag::HybridPqTpmFido2Passphrase)
            } else {
                fresh(
                    o,
                    f,
                    at_level(
                        level(kem_size),
                        SlotKind::HybridPqKemTpm2Fido2,
                        SlotKind::HybridPqKem1024Tpm2Fido2,
                    ),
                )
            }
        },
        _ => if o.use_deniable {
            fresh_deniable(o, tpm_fido2, DeniableKindTag::TpmFido2Passphrase)
        } else {
            fresh(o, tpm_fido2, SlotKind::Tpm2Fido2)
        },
    }
}

/// Whether a file of the new vault is there already.
pub open spec fn in_the_way(o: CreateOpts, d: CreateFacts) -> bool {
    ||| d.vault_exists
    ||| o.header_path is Some && d.header_exists
    ||| o.anchor_path is Some && d.anchor_exists
}

proof fn lemma_cleaned_carries_out(o: CreateOpts, lines: Seq<LineView>, p: Plan)
    requires
        carries_out(lines, p),
    ensures
        carries_out(cleaned(o, lines), p),
{
    let c = cleaned(o, lines);
    assert forall|i: int| 0 <= i < lines.len() implies is_step(#[trigger] c[i])
        && act_of(c[i]) == act_of(lines[i]) by {
        assert(is_step(lines[i]));
    }
    lemma_same_acts(lines, c, p);
}

/// The first half of a TPM bootstrap either makes the only slot of the vault out
/// of all the factors that were asked for, or makes the vault that was asked for
/// and leaves the TPM slot to the second half.
pub proof fn law_tpm_bootstrap_makes_what_was_asked(
    o: CreateOpts,
    kind: TpmBootstrapKind,
    d: CreateFacts,
    p: Platform,
)
    ensures
        tpm_enroll_follows(o, kind) <==> !single_slot(o, kind),
        !single_slot(o, kind) && create_refusal(o, d, p) is None ==> carries_out(
            tpm_bootstrap_lines(o, kind, d, p),
            requested(o),
        ),
        !single_slot(o, kind) && create_refusal(o, d, p) is Some ==> refuses(
            tpm_bootstrap_lines(o, kind, d, p),
        ),
        single_slot(o, kind) ==> {
            let ok = !in_the_way(o, d) && p.hardware && p.os == TargetOs::Linux && (o.use_deniable
                ==> o.passphrase is Some);
            &&& ok ==> carries_out(tpm_bootstrap_lines(o, kind, d, p), combined(o, kind))
            &&& !ok ==> refuses(tpm_bootstrap_lines(o, kind, d, p))
        },
{
    let lines = tpm_create_lines(o, kind, d, p);
    if single_slot(o, kind) {
        match kind {
            TpmBootstrapKind::HybridPqTpm2 { kem_size, .. } => {
                law_combined_tpm_vault_is_what_was_asked(o, false, Some(level(kem_size)));
            },
            TpmBootstrapKind::HybridPqTpm2Fido2 { kem_size, .. } => {
                law_combined_tpm_vault_is_what_was_asked(o, true, Some(level(kem_size)));
            },
            _ => {
                law_combined_tpm_vault_is_what_was_asked(o, true, None);
            },
        }
        if !in_the_way(o, d) && p.hardware && p.os == TargetOs::Linux && (o.use_deniable
            ==> o.passphrase is Some) {
            assert(carries_out(lines, combined(o, kind)));
            lemma_cleaned_carries_out(o, lines, combined(o, kind));
        }
    } else if create_refusal(o, d, p) is None {
        law_create_does_what_was_asked(o);
        lemma_cleaned_carries_out(o, lines, requested(o));
    }
}

/// The TPM slot that the second half of a bootstrap adds to a standard vault.
pub open spec fn tpm_addition(kind: TpmBootstrapKind, kem: PqParams) -> Plan {
    let tpm_fido2 = both(with_tpm(false), with_fido2());
    match kind {
        TpmBootstrapKind::Tpm2 => added(with_tpm(false), SlotKind::Tpm2Sealed, false),
        TpmBootstrapKind::Tpm2Pin { .. } => added(with_tpm(true), SlotKind::Tpm2SealedPin, false),
        TpmBootstrapKind::Tpm2Fido2 { .. } => added(tpm_fido2, SlotKind::Tpm2Fido2, false),
        TpmBootstrapKind::HybridPqTpm2 { .. } => added(
            both(with_tpm(false), with_kem(kem)),
            at_level(kem, SlotKind::HybridPqKemTpm2, SlotKind::HybridPqKem1024Tpm2),
            false,
        ),
        TpmBootstrapKind::HybridPqTpm2Fido2 { .. } => added(
            both(tpm_fido2, with_kem(kem)),
            at_level(kem, SlotKind::HybridPqKemTpm2Fido2, SlotKind::HybridPqKem1024Tpm2Fido2),
            false,
        ),
    }
}

/// The same for a deniable vault: the slot goes to index 1.
pub open spec fn tpm_addition_deniable(o: CreateOpts, kind: TpmBootstrapKind) -> Plan {
    let tpm_fido2 = both(with_tpm(false), with_fido2());
    match kind {
        TpmBootstrapKind::Tpm2 => added_deniable(
            with_tpm(false),
            DeniableKindTag::TpmPassphrase,
            1,
            o.kdf,
        ),
        TpmBootstrapKind::Tpm2Pin { .. } => added_deniable(
            with_tpm(true),
            DeniableKindTag::TpmPassphrase,
            1,
            o.kdf,
        ),
        TpmBootstrapKind::Tpm2Fido2 { .. } => added_deniable(
            tpm_fido2,
            DeniableKindTag::TpmFido2Passphrase,
            1,
            o.kdf,
        ),
        TpmBootstrapKind::HybridPqTpm2 { kem_size, .. } => added_deniable(
            both(with_tpm(false), with_kem(level(kem_size))),
            DeniableKindTag::HybridPqTpmPassphrase,
            1,
            o.kdf,
        ),
        TpmBootstrapKind::HybridPqTpm2Fido2 { kem_size, .. } => added_deniable(
            both(tpm_fido2, with_kem(level(kem_size))),
            DeniableKindTag::HybridPqTpmFido2Passphrase,
            1,
            o.kdf,
        ),
    }
}

/// The second half of a TPM bootstrap adds the slot that was asked for.
pub proof fn law_tpm_bootstrap_adds_what_was_asked(
    o: CreateOpts,
    kind: TpmBootstrapKind,
    seed_exists: bool,
    kem: PqParams,
    p: Platform,
)
    requires
        p.hardware,
        kind matches TpmBootstrapKind::Tpm2Pin { pin } ==> pin@.len() > 0,
        kind matches TpmBootstrapKind::HybridPqTpm2 { kem_size, .. } ==> !seed_exists && names(
            kem_size,
            kem,
        ),
        kind matches TpmBootstrapKind::HybridPqTpm2Fido2 { kem_size, .. } ==> !seed_exists && names(
            kem_size,
            kem,
        ),
    ensures
        carries_out(tpm_enroll_lines(o, kind, seed_exists, false, p), tpm_addition(kind, kem)),
        p.os == TargetOs::Linux && pw_of(o.passphrase).len() > 0 ==> carries_out(
            tpm_enroll_lines(o, kind, seed_exists, true, p),
            tpm_addition_deniable(o, kind),
        ),
{
    let pw = pw_of(o.passphrase);
    match kind {
        TpmBootstrapKind::Tpm2 => {
            law_added_keyslots_are_bound_as_named(p, pw, false);
            if pw.len() > 0 {
                law_added_deniable_slots_are_bound_as_named(1, pw, o.kdf, None, p);
            }
        },
        TpmBootstrapKind::Tpm2Pin { pin } => {
            law_added_keyslots_are_bound_as_named(p, pin@, false);
            if pw.len() > 0 {
                law_added_deniable_slots_are_bound_as_named(1, pw, o.kdf, Some(pin@), p);
            }
        },
        TpmBootstrapKind::Tpm2Fido2 { .. } => {
            law_added_keyslots_are_bound_as_named(p, pw, false);
            if pw.len() > 0 {
                law_added_deniable_slots_are_bound_as_named(1, pw, o.kdf, None, p);
            }
        },
        TpmBootstrapKind::HybridPqTpm2 { kyber_path, kem_size, .. } => {
            let seed = SeedTarget { path: kyber_path, exists: seed_exists };
            law_added_hybrid_keyslots_are_bound_as_named(seed, kem_size, kem, pw, p);
            if pw.len() > 0 {
                law_added_deniable_hybrid_slots_are_bound_as_named(
                    1,
                    pw,
                    o.kdf,
                    seed,
                    kem_size,
                    kem,
                    false,
                    p,
                );
            }
        },
        TpmBootstrapKind::HybridPqTpm2Fido2 { kyber_path, kem_size, .. } => {
            let seed = SeedTarget { path: kyber_path, exists: seed_exists };
            law_added_hybrid_keyslots_are_bound_as_named(seed, kem_size, kem, pw, p);
            if pw.len() > 0 {
                law_added_deniable_hybrid_slots_are_bound_as_named(
                    1,
                    pw,
                    o.kdf,
                    seed,
                    kem_size,
                    kem,
                    true,
                    p,
                );
            }
        },
    }
}

/// A vault whose only slot is the Secure Enclave asks for Touch ID exactly if
/// that was asked for.
pub proof fn law_sep_only_vault_is_what_was_asked(o: CreateOpts, biometric: bool, p: Platform)
    requires
        p.hardware,
        p.os == TargetOs::Macos,
    ensures
        biometric ==> carries_out(
            sep_only_lines(o, biometric, p),
            fresh(o, with_sep(true), SlotKind::SepSealedBiometric),
        ),
        !biometric ==> carries_out(
            sep_only_lines(o, biometric, p),
            fresh(o, with_sep(false), SlotKind::SepSealed),
        ),
{
    let head = sep_seal_lines(biometric);
    let all = sep_only_lines(o, biometric, p);
    let undo = seq![Act::RemoveVault, Act::RemoveAnchor];
    let kind = if biometric {
        SlotKind::SepSealedBiometric
    } else {
        SlotKind::SepSealed
    };
    let plan = fresh(o, with_sep(biometric), kind);
    lemma_sep_seal(biometric);
    lemma_finish(o, None, undo, plan);
    let tail = hybrid_file_lines(None) + finish_lines(o, undo);
    lemma_plan(head, all[2], tail, plan);
    assert(all =~= head + seq![all[2]] + tail);
}

/// Whether a deniable vault can be made around the Secure Enclave.
pub open spec fn can_make_enclave_vault(o: CreateOpts, kind: SepBootstrapKind, p: Platform) -> bool {
    &&& p.hardware && p.os == TargetOs::Macos
    &&& o.header_path is None && o.passphrase is Some
    &&& kind matches SepBootstrapKind::SepFused { factors, kem_size, kyber_path, .. } ==> factors
        != SepFactors::Passphrase && (kem_size is Some ==> kyber_path is Some)
}

/// The only slot of a deniable vault around the Secure Enclave.
pub open spec fn enclave_vault(o: CreateOpts, kind: SepBootstrapKind) -> Plan {
    let sep_fido2 = both(with_sep(false), with_fido2());
    match kind {
        SepBootstrapKind::Sep => fresh_deniable(o, with_sep(false), DeniableKindTag::SepPassphrase),
        SepBootstrapKind::SepBiometric => fresh_deniable(
            o,
            with_sep(true),
            DeniableKindTag::SepPassphrase,
        ),
        SepBootstrapKind::HybridPqSep { kem_size, .. } => fresh_deniable(
            o,
            both(with_sep(false), with_kem(level(kem_size))),
            DeniableKindTag::HybridPqSepPassphrase,
        ),
        SepBootstrapKind::SepFused { kem_size, .. } => match kem_size {
            None => fresh_deniable(o, sep_fido2, DeniableKindTag::SepFido2Passphrase),
            Some(n) => fresh_deniable(
                o,
                both(sep_fido2, with_kem(level(n))),
                DeniableKindTag::HybridPqSepFido2Passphrase,
            ),
        },
    }
}

/// What is collected for such a vault, in order.
spec fn enclave_head(kind: SepBootstrapKind) -> Seq<LineView> {
    let open = seq![step(Act::OpenSep, ""@)];
    let seal = seq![step(Act::SealSep { biometric: false }, "SEP seal: "@)];
    let touch = open + register_lines("OS RNG failure: "@) + seal;
    match kind {
        SepBootstrapKind::Sep => sep_seal_lines(false),
        SepBootstrapKind::SepBiometric => sep_seal_lines(true),
        SepBootstrapKind::HybridPqSep { kem_size, .. } => open + seq![
            step(Act::Encapsulate { kem: level(kem_size) }, ""@),
        ] + seal,
        SepBootstrapKind::SepFused { kem_size, .. } => match kem_size {
            None => touch,
            Some(n) => touch + seq![step(Act::Encapsulate { kem: level(n) }, ""@)],
        },
    }
}

proof fn lemma_enclave_head(o: CreateOpts, kind: SepBootstrapKind)
    ensures
        collects_all(enclave_head(kind), enclave_vault(o, kind).factors),
{
    let open = seq![step(Act::OpenSep, ""@)];
    let seal = seq![step(Act::SealSep { biometric: false }, "SEP seal: "@)];
    match kind {
        SepBootstrapKind::Sep => lemma_sep_seal(false),
        SepBootstrapKind::SepBiometric => lemma_sep_seal(true),
        SepBootstrapKind::HybridPqSep { kem_size, .. } => {
            let l = enclave_head(kind);
            assert(l[0] is Do && l[1] is Do && l[2] is Do);
        },
        SepBootstrapKind::SepFused { kem_size, .. } => {
            let touch = open + register_lines("OS RNG failure: "@) + seal;
            lemma_fused("OS RNG failure: "@, touch);
            if let Some(n) = kem_size {
                let pq = seq![step(Act::Encapsulate { kem: level(n) }, ""@)];
                lemma_one_kem(pq, level(n), ""@);
                lemma_collect_both(
                    touch,
                    pq,
                    both(with_sep(false), with_fido2()),
                    with_kem(level(n)),
                );
            }
        },
    }
}

/// Such a script is what is collected, the vault made, and the files that follow.
proof fn lemma_enclave_shape(o: CreateOpts, kind: SepBootstrapKind, p: Platform) -> (make: LineView)
    requires
        can_make_enclave_vault(o, kind, p),
    ensures
        ({
            let plan = enclave_vault(o, kind);
            let kem = plan.factors.kem;
            &&& is_step(make) && undo_of(make) == seq![Act::RemoveVault]
            &&& act_of(make) == (Act::CreateDeniable {
                kind: plan.place->NewDeniable_kind,
                flags: plan.place->NewDeniable_flags,
                kdf: o.kdf,
            })
            &&& sep_deniable_lines(o, kind, p) == enclave_head(kind) + seq![make] + (
            hybrid_file_lines(kem) + finish_lines(o, combined_anchor_undo(kem is Some)))
        }),
{
    let all = sep_deniable_lines(o, kind, p);
    let head = enclave_head(kind);
    let kem = enclave_vault(o, kind).factors.kem;
    let make = all[head.len() as int];
    let tail = hybrid_file_lines(kem) + finish_lines(o, combined_anchor_undo(kem is Some));
    assert(all =~= head + seq![make] + tail);
    make
}

/// A deniable vault around the Secure Enclave is bound to what was asked for,
/// and where it cannot be made no file is written.
pub proof fn law_deniable_enclave_vault_is_what_was_asked(
    o: CreateOpts,
    kind: SepBootstrapKind,
    p: Platform,
)
    ensures
        can_make_enclave_vault(o, kind, p) ==> carries_out(
            sep_deniable_lines(o, kind, p),
            enclave_vault(o, kind),
        ),
        !can_make_enclave_vault(o, kind, p) ==> writes_nothing(sep_deniable_lines(o, kind, p)),
{
    if can_make_enclave_vault(o, kind, p) {
        let plan = enclave_vault(o, kind);
        let kem = plan.factors.kem;
        let undo = combined_anchor_undo(kem is Some);
        let make = lemma_enclave_shape(o, kind, p);
        lemma_enclave_head(o, kind);
        lemma_finish(o, kem, undo, plan);
        lemma_plan(
            enclave_head(kind),
            make,
            hybrid_file_lines(kem) + finish_lines(o, undo),
            plan,
        );
    }
}

/// A Secure Enclave bootstrap makes a deniable vault around the enclave, or the
/// standard vault that was asked for.
pub proof fn law_sep_bootstrap_makes_what_was_asked(
    o: CreateOpts,
    kind: SepBootstrapKind,
    d: CreateFacts,
    p: Platform,
)
    ensures
        in_the_way(o, d) ==> refuses(sep_bootstrap_lines(o, kind, d, p)),
        o.use_deniable && !in_the_way(o, d) && can_make_enclave_vault(o, kind, p) ==> carries_out(
            sep_bootstrap_lines(o, kind, d, p),
            enclave_vault(o, kind),
        ),
        !o.use_deniable && create_refusal(o, d, p) is None ==> carries_out(
            sep_bootstrap_lines(o, kind, d, p),
            requested(o),
        ),
        !o.use_deniable && create_refusal(o, d, p) is Some ==> refuses(
            sep_bootstrap_lines(o, kind, d, p),
        ),
{
    law_deniable_enclave_vault_is_what_was_asked(o, kind, p);
    if !o.use_deniable {
        law_create_does_what_was_asked(o);
    }
}

/// The second half of a Secure Enclave bootstrap adds the slot that was asked
/// for.
pub proof fn law_sep_bootstrap_adds_what_was_asked(
    kind: SepBootstrapKind,
    seed_exists: bool,
    kem: PqParams,
    fused: SlotKind,
    p: Platform,
)
    requires
        p.hardware,
    ensures
        kind is Sep ==> carries_out(
            sep_enroll_lines(kind, seed_exists, p),
            added(with_sep(false), SlotKind::SepSealed, false),
        ),
        kind is SepBiometric ==> carries_out(
            sep_enroll_lines(kind, seed_exists, p),
            added(with_sep(true), SlotKind::SepSealedBiometric, false),
        ),
        kind matches SepBootstrapKind::HybridPqSep { kem_size, .. } ==> names(kem_size, kem)
            && !seed_exists ==> carries_out(
            sep_enroll_lines(kind, seed_exists, p),
            added(
                both(with_sep(false), with_kem(kem)),
                at_level(kem, SlotKind::HybridPqKemSep, SlotKind::HybridPqKem1024Sep),
                false,
            ),
        ),
        kind matches SepBootstrapKind::SepFused { factors, kem_size, kyber_path, .. } ==> {
            let pq: Option<PqParams> = if kem_size is Some {
                Some(kem)
            } else {
                None
            };
            (kem_size is Some ==> names(kem_size->0, kem) && kyber_path is Some && !seed_exists)
                && is_fused_kind(fused, factors, pq) ==> carries_out(
                sep_enroll_lines(kind, seed_exists, p),
                added(
                    (Factors {
                        sep: Some(false),
                        fido2: factors != SepFactors::Passphrase,
                        kem: pq,
                        ..nothing()
                    }),
                    fused,
                    factors != SepFactors::Fido2,
                ),
            )
        },
{
    match kind {
        SepBootstrapKind::Sep => {
            law_added_keyslots_are_bound_as_named(p, seq![], false);
        },
        SepBootstrapKind::SepBiometric => {
            law_added_keyslots_are_bound_as_named(p, seq![], true);
        },
        SepBootstrapKind::HybridPqSep { kyber_path, kem_size, .. } => {
            if names(kem_size, kem) && !seed_exists {
                law_added_hybrid_keyslots_are_bound_as_named(
                    SeedTarget { path: kyber_path, exists: seed_exists },
                    kem_size,
                    kem,
                    seq![],
                    p,
                );
            }
        },
        SepBootstrapKind::SepFused { factors, kem_size, kyber_path, .. } => {
            let seed = match kyber_path {
                Some(path) => Some(SeedTarget { path, exists: seed_exists }),
                None => None,
            };
            let pq: Option<PqParams> = if kem_size is Some {
                Some(kem)
            } else {
                None
            };
            if (kem_size is Some ==> names(kem_size->0, kem) && kyber_path is Some && !seed_exists)
                && is_fused_kind(fused, factors, pq) {
                law_fused_keyslots_are_bound_as_named(factors, kem_size, kem, seed, fused, p);
            }
        },
    }
}

/// Whether a failed line is followed by the removal of a file that it, or a line
/// before it, may have written.
pub open spec fn cleans_up(lines: Seq<LineView>, i: int, o: CreateOpts, f: VaultFile) -> bool {
    may_exist(lines, i + 1, o, f) ==> undo_of(lines[i]).contains(removal_of(f))
}

proof fn lemma_head_writes_nothing(head: Seq<LineView>, f: Factors)
    requires
        collects_all(head, f),
    ensures
        forall|k: int, o: CreateOpts, file: VaultFile|
            0 <= k < head.len() ==> !#[trigger] writes(act_of(head[k]), o, file),
{
    assert forall|k: int, o: CreateOpts, file: VaultFile| 0 <= k < head.len() implies !#[trigger] writes(
        act_of(head[k]),
        o,
        file,
    ) by {
        assert(is_step(head[k]));
        assert(does(head, act_of(head[k])));
    }
}

/// When the create of a vault around the Secure Enclave fails, the vault, its
/// anchor and its sidecar are removed, as far as the line that failed or an
/// earlier one may have written them; unless it is only the file system in it
/// that cannot be opened.
pub proof fn law_failed_enclave_create_leaves_nothing(
    o: CreateOpts,
    kind: SepBootstrapKind,
    biometric: bool,
    p: Platform,
    i: int,
    f: VaultFile,
)
    requires
        f is Vault || f is Anchor || f is Sidecar,
    ensures
        can_make_enclave_vault(o, kind, p) && 0 <= i < sep_deniable_lines(o, kind, p).len() - 1
            ==> cleans_up(sep_deniable_lines(o, kind, p), i, o, f),
        p.hardware && p.os == TargetOs::Macos && 0 <= i < sep_only_lines(o, biometric, p).len() - 1
            ==> cleans_up(sep_only_lines(o, biometric, p), i, o, f),
{
    if can_make_enclave_vault(o, kind, p) {
        let lines = sep_deniable_lines(o, kind, p);
        let head = enclave_head(kind);
        let kem = enclave_vault(o, kind).factors.kem;
        let make = lemma_enclave_shape(o, kind, p);
        lemma_enclave_head(o, kind);
        lemma_head_writes_nothing(head, enclave_vault(o, kind).factors);
        assert(undo_of(make)[0] == Act::RemoveVault);
        lemma_cleans_up(lines, head, make, kem, o, i, f);
    }
    if p.hardware && p.os == TargetOs::Macos {
        let lines = sep_only_lines(o, biometric, p);
        let head = sep_seal_lines(biometric);
        lemma_sep_seal(biometric);
        lemma_head_writes_nothing(head, with_sep(biometric));
        let undo = seq![Act::RemoveVault, Act::RemoveAnchor];
        assert(combined_anchor_undo(false) =~= undo);
        let tail = hybrid_file_lines(None) + finish_lines(o, undo);
        assert(lines =~= head + seq![lines[2]] + tail);
        assert(undo_of(lines[2])[0] == Act::RemoveVault);
        lemma_cleans_up(lines, head, lines[2], None, o, i, f);
    }
}

proof fn lemma_cleans_up(
    lines: Seq<LineView>,
    head: Seq<LineView>,
    make: LineView,
    kem: Option<PqParams>,
    o: CreateOpts,
    i: int,
    f: VaultFile,
)
    requires
        lines == head + seq![make] + (hybrid_file_lines(kem) + finish_lines(
            o,
            combined_anchor_undo(kem is Some),
        )),
        is_step(make),
        act_of(make) is CreateDeniable || act_of(make) is CreateVault,
        undo_of(make).contains(Act::RemoveVault),
        f is Vault || f is Anchor || f is Sidecar,
        forall|k: int, q: CreateOpts, file: VaultFile|
            0 <= k < head.len() ==> !#[trigger] writes(act_of(head[k]), q, file),
    ensures
        0 <= i < lines.len() - 1 ==> cleans_up(lines, i, o, f),
{
    let n = head.len() as int;
    if 0 <= i < lines.len() - 1 && may_exist(lines, i + 1, o, f) {
        let k = choose|k: int|
            0 <= k < i + 1 && k < lines.len() && (#[trigger] lines[k]) is Do && writes(
                act_of(lines[k]),
                o,
                f,
            );
        if k < n {
            assert(lines[k] == head[k]);
            assert(!writes(act_of(head[k]), o, f));
        }
        assert(lines[n] == make);
        let tail = hybrid_file_lines(kem) + finish_lines(o, combined_anchor_undo(kem is Some));
        assert(forall|j: int| 0 <= j < tail.len() ==> lines[n + 1 + j] == #[trigger] tail[j]);
        let undo = undo_of(lines[i]);
        if i > n {
            assert(lines[i] == tail[i - n - 1]);
        }
        if k > n {
            assert(lines[k] == tail[k - n - 1]);
        }
        assert(undo.len() > 0 ==> undo.contains(undo[0]));
        assert(undo.len() > 1 ==> undo.contains(undo[1]));
        assert(undo.len() > 2 ==> undo.contains(undo[2]));
    }
}

/// An enclave slot is moved to the front by exchanging it with slot 0 and writing
/// the header back; the sidecar follows exactly if the slot has an entry there,
/// and if that fails the header is written all the same.
pub proof fn law_enclave_slot_moves_to_the_front(idx: usize, kind: SepBootstrapKind)
    ensures
        ({
            let hybrid = match kind {
                SepBootstrapKind::HybridPqSep { .. } => true,
                SepBootstrapKind::SepFused { kem_size, .. } => kem_size is Some,
                _ => false,
            };
            let lines = to_front_lines(idx, sep_is_hybrid(kind));
            let last = lines.len() - 1;
            &&& lines.len() == (if hybrid {
                3nat
            } else {
                2
            })
            &&& is_step(lines[0]) && act_of(lines[0]) == (Act::SwapToFront { slot: idx })
            &&& is_step(lines[last]) && act_of(lines[last]) == Act::PersistHeader
            &&& hybrid ==> branches(lines[1], Goto::Next, 2) && act_of(lines[1])
                == (Act::RelabelSidecar { slot: idx })
        }),
{
}

/// A rollback tries to remove the vault, its sidecar, the header and anchor files
/// that were named and, if asked to, the seed file, each once and nothing else;
/// whatever becomes of it, the error is reported at the end.
pub proof fn law_rollback_removes_what_was_named(o: CreateOpts, seed: bool, text: Seq<char>)
    ensures
        ({
            let acts = remove_all(o, seed);
            let lines = wind_up_lines(acts, text);
            &&& lines.len() == acts.len() + 1
            &&& lines.last() == (LineView::Stop { text })
            &&& forall|i: int|
                #![trigger lines[i]]
                0 <= i < acts.len() ==> branches(lines[i], Goto::Next, i + 1) && act_of(lines[i])
                    == acts[i]
            &&& acts.contains(Act::RemoveVault) && acts.contains(Act::RemoveSidecar)
            &&& acts.contains(Act::RemoveHeader) <==> o.header_path is Some
            &&& acts.contains(Act::RemoveAnchor) <==> o.anchor_path is Some
            &&& acts.contains(Act::RemoveSeed) <==> seed
            &&& acts.no_duplicates()
            &&& acts.len() <= 5
        }),
{
    let acts = remove_all(o, seed);
    assert(acts.contains(acts[0]));
    assert(acts.len() > 1 ==> acts.contains(acts[1]));
    assert(acts.len() > 2 ==> acts.contains(acts[2]));
    assert(acts.len() > 3 ==> acts.contains(acts[3]));
    assert(acts.len() > 4 ==> acts.contains(acts[4]));
}

/// When a line of the first bootstrap script fails, nothing is removed but what
/// that line or an earlier one may have written, and no seed file.
pub proof fn law_failed_bootstrap_removes_only_its_own(
    o: CreateOpts,
    kind: TpmBootstrapKind,
    d: CreateFacts,
    p: Platform,
    i: int,
    f: VaultFile,
)
    requires
        0 <= i < tpm_bootstrap_lines(o, kind, d, p).len(),
        straight(tpm_bootstrap_lines(o, kind, d, p)),
        undo_of(tpm_bootstrap_lines(o, kind, d, p)[i]).contains(removal_of(f)),
    ensures
        !(f is Seed),
        may_exist(tpm_bootstrap_lines(o, kind, d, p), i + 1, o, f),
{
    lemma_cleaned_removes(o, tpm_create_lines(o, kind, d, p), i, f);
}

proof fn lemma_cleaned_removes(o: CreateOpts, lines: Seq<LineView>, i: int, f: VaultFile)
    requires
        0 <= i < lines.len(),
        straight(cleaned(o, lines)),
        undo_of(cleaned(o, lines)[i]).contains(removal_of(f)),
    ensures
        !(f is Seed),
        may_exist(cleaned(o, lines), i + 1, o, f),
{
    let clean = cleaned(o, lines);
    let vault = made_by(lines, i, Made::Vault);
    let anchor = made_by(lines, i, Made::Anchor);
    let sidecar = made_by(lines, i, Made::Sidecar);
    assert(is_step(clean[i]));
    assert(undo_of(clean[i]) == removing(o, vault, anchor, sidecar));
    lemma_removing(o, vault, anchor, sidecar, f);
    let m = match f {
        VaultFile::Anchor => Made::Anchor,
        VaultFile::Sidecar => Made::Sidecar,
        _ => Made::Vault,
    };
    assert(made_by(lines, i, m));
    let k = choose|k: int|
        0 <= k <= i && k < lines.len() && (#[trigger] lines[k]) is Do && makes(
            act_of(lines[k]),
            m,
        );
    assert(is_step(clean[k]));
    assert(act_of(clean[k]) == act_of(lines[k]));
    assert(writes(act_of(clean[k]), o, f));
}

proof fn lemma_removing(o: CreateOpts, vault: bool, anchor: bool, sidecar: bool, f: VaultFile)
    requires
        removing(o, vault, anchor, sidecar).contains(removal_of(f)),
    ensures
        match f {
            VaultFile::Vault => vault,
            VaultFile::Header => vault && detached(o),
            VaultFile::Anchor => anchor,
            VaultFile::Sidecar => sidecar,
            VaultFile::Seed => false,
        },
{
    let undo = removing(o, vault, anchor, sidecar);
    let at = choose|at: int| 0 <= at < undo.len() && undo[at] == removal_of(f);
    assert(undo.len() <= 4);
}

/// Whether a line that makes a vault takes back exactly the vault, and its
/// detached header if it has one, when it fails.
pub open spec fn takes_back(line: LineView, o: CreateOpts) -> bool {
    let undo = undo_of(line);
    &&& undo.contains(Act::RemoveVault)
    &&& undo.contains(Act::RemoveHeader) <==> o.header_path is Some
    &&& forall|x: Act| #[trigger] undo.contains(x) ==> x == Act::RemoveVault || x == Act::RemoveHeader
}

/// When the create of a vault with the TPM as its only slot fails, the vault and
/// its anchor are removed, as far as the line that failed or an earlier one may
/// have written them, unless it is only the file system in it that cannot be
/// opened; when the line that makes it fails, the detached header too.
pub proof fn law_failed_tpm_create_leaves_nothing(
    o: CreateOpts,
    pin: Option<Seq<char>>,
    p: Platform,
    i: int,
    f: VaultFile,
)
    requires
        p.hardware,
        p.os == TargetOs::Linux,
        pin is Some ==> pin->0.len() > 0,
        o.use_deniable ==> o.passphrase is Some,
        f is Vault || f is Anchor || f is Sidecar,
    ensures
        ({
            let chip = tpm2_only_lines(o, pin, p);
            &&& 0 <= i < chip.len() - 1 ==> cleans_up(chip, i, o, f)
            &&& exists|k: int|
                0 <= k < chip.len() && (act_of(#[trigger] chip[k]) is CreateVault || act_of(
                    chip[k],
                ) is CreateDeniable) && takes_back(chip[k], o)
        }),
{
    let chip = tpm2_only_lines(o, pin, p);
    let lead = "OS RNG failure generating TPM KEK: "@;
    let head = tpm_seal_lines(lead, pin is Some);
    lemma_seal(lead, pin is Some);
    lemma_head_writes_nothing(head, with_tpm(pin is Some));
    let undo = seq![Act::RemoveVault, Act::RemoveAnchor];
    assert(combined_anchor_undo(false) =~= undo);
    let tail = hybrid_file_lines(None) + finish_lines(o, undo);
    assert(chip =~= head + seq![chip[3]] + tail);
    lemma_taken_back(chip[3], o);
    lemma_cleans_up(chip, head, chip[3], None, o, i, f);
}

/// The same of a vault whose only slot combines the TPM with other factors, and
/// of its sidecar.
pub proof fn law_failed_combined_create_leaves_nothing(
    o: CreateOpts,
    fido2: bool,
    kem: Option<PqParams>,
    i: int,
    f: VaultFile,
)
    requires
        f is Vault || f is Anchor || f is Sidecar,
    ensures
        ({
            let only = tpm_factors_only_lines(o, fido2, kem);
            &&& 0 <= i < only.len() - 1 ==> cleans_up(only, i, o, f)
            &&& exists|k: int|
                0 <= k < only.len() && act_of(#[trigger] only[k]) is CreateVault && takes_back(
                    only[k],
                    o,
                )
        }),
{
    let a = collect_lines("OS RNG: "@, "OS RNG: "@, fido2, kem);
    lemma_collect("OS RNG: "@, "OS RNG: "@, fido2, kem);
    lemma_head_writes_nothing(a, tpm_and(fido2, kem));
    let only = tpm_factors_only_lines(o, fido2, kem);
    let make = only[a.len() as int];
    let tail = hybrid_file_lines(kem) + finish_lines(o, combined_anchor_undo(kem is Some));
    assert(only =~= a + seq![make] + tail);
    lemma_taken_back(make, o);
    lemma_cleans_up(only, a, make, kem, o, i, f);
}

/// The same of a deniable one, which has no detached header.
pub proof fn law_failed_deniable_create_leaves_nothing(
    o: CreateOpts,
    fido2: bool,
    kem: Option<PqParams>,
    i: int,
    f: VaultFile,
)
    requires
        f is Vault || f is Anchor || f is Sidecar,
    ensures
        ({
            let deniable = tpm_factors_deniable_lines(o, fido2, kem);
            0 <= i < deniable.len() - 1 ==> cleans_up(deniable, i, o, f)
        }),
{
    let (draw, salt) = ("OS RNG failure generating TPM secret: "@, "OS RNG failure: "@);
    let b = collect_lines(draw, salt, fido2, kem);
    lemma_collect(draw, salt, fido2, kem);
    lemma_head_writes_nothing(b, tpm_and(fido2, kem));
    let deniable = tpm_factors_deniable_lines(o, fido2, kem);
    let make = deniable[b.len() as int];
    let tail = hybrid_file_lines(kem) + finish_lines(o, combined_anchor_undo(kem is Some));
    assert(deniable =~= b + seq![make] + tail);
    assert(undo_of(make)[0] == Act::RemoveVault);
    lemma_cleans_up(deniable, b, make, kem, o, i, f);
}

proof fn lemma_taken_back(line: LineView, o: CreateOpts)
    requires
        undo_of(line) == remove_vault_and_header(o),
    ensures
        takes_back(line, o),
{
    let undo = undo_of(line);
    assert(undo[0] == Act::RemoveVault);
    assert(undo.len() > 1 ==> undo[1] == Act::RemoveHeader);
}

} // verus!
