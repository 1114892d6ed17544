//! What a bootstrap that fails leaves behind: of a TPM bootstrap nothing, at
//! whatever line it fails; of a Secure Enclave bootstrap nothing if it is the
//! enroll that fails.

use crate::bootstrap::{collect_lines, combined_anchor_undo, finish_lines, hybrid_file_lines, tpm_deniable_kind, tpm_factors, tpm_factors_deniable_lines, tpm_factors_only_lines, tpm_seal_lines, tpm_slot_kind};
use crate::bootstrap_flow::{Made, cleaned, creates, detached, made_by, makes, pw_of, remove_all, removing, sep_enroll_lines, sep_names_seed, tpm_bootstrap_lines, tpm_create_lines, tpm_enroll_lines, tpm_is_hybrid};
use crate::create::{create_lines, law_accepted_create_is_straight, register_lines};
use crate::enroll::{atomic_lines, encapsulate_lines, enroll_tpm2_deniable_lines, fused_collect_lines, install_lines, salt_lead, sep_hybrid_kind, sep_kind, sep_seal_lines, slot_install, tpm_combo_deniable_lines, tpm_fido2_lines};
use crate::kinds::{DeniableKindTag, KdfStrength, Platform, PqParams, SepBootstrapKind, SlotKind, SlotKindArg, TpmBootstrapKind, kem_of, kem_or_768};
use crate::requests::{CreateFacts, CreateOpts};
use crate::script::{Act, LineView, SecretRef, act_of, is_step, lemma_straight_concat, step, step_or, straight, undo_of};
use vstd::prelude::*;

verus! {

/// The files that make up a vault.
pub enum VaultFile {
    Vault,
    Header,
    Anchor,
    Sidecar,
    Seed,
}

/// Whether an act writes a file, in a bootstrap for the request `o`.
pub open spec fn writes(act: Act, o: CreateOpts, f: VaultFile) -> bool {
    match f {
        VaultFile::Vault => creates(act),
        VaultFile::Header => creates(act) && detached(o),
        VaultFile::Anchor => act is InitAnchor,
        VaultFile::Sidecar => act is WriteFirstSidecar || act is AppendSidecar || act is MergeSidecar,
        VaultFile::Seed => act is WriteSeed,
    }
}

/// The act that removes a file.
pub open spec fn removal_of(f: VaultFile) -> Act {
    match f {
        VaultFile::Vault => Act::RemoveVault,
        VaultFile::Header => Act::RemoveHeader,
        VaultFile::Anchor => Act::RemoveAnchor,
        VaultFile::Sidecar => Act::RemoveSidecar,
        VaultFile::Seed => Act::RemoveSeed,
    }
}

/// Whether one of the first `n` lines may have written a file, even in part.
pub open spec fn may_exist(lines: Seq<LineView>, n: int, o: CreateOpts, f: VaultFile) -> bool {
    exists|k: int|
        0 <= k < n && k < lines.len() && (#[trigger] lines[k]) is Do && writes(
            act_of(lines[k]),
            o,
            f,
        )
}

proof fn lemma_removed(o: CreateOpts, seed: bool, f: VaultFile)
    requires
        f is Header ==> o.header_path is Some,
        f is Anchor ==> o.anchor_path is Some,
        f is Seed ==> seed,
    ensures
        remove_all(o, seed).contains(removal_of(f)),
{
    let all = remove_all(o, seed);
    let h: int = if o.header_path is Some {
        1
    } else {
        0
    };
    let a: int = if o.anchor_path is Some {
        1
    } else {
        0
    };
    match f {
        VaultFile::Vault => {
            assert(all[0] == Act::RemoveVault);
        },
        VaultFile::Header => {
            assert(all[1] == Act::RemoveHeader);
        },
        VaultFile::Anchor => {
            assert(all[1 + h] == Act::RemoveAnchor);
        },
        VaultFile::Sidecar => {
            assert(all[1 + h + a] == Act::RemoveSidecar);
        },
        VaultFile::Seed => {
            assert(all[2 + h + a] == Act::RemoveSeed);
        },
    }
}

proof fn lemma_create_files(o: CreateOpts, k: int, f: VaultFile)
    requires
        o.kind == SlotKindArg::Passphrase,
        0 <= k < create_lines(o).len(),
        writes(act_of(create_lines(o)[k]), o, f),
    ensures
        f is Header ==> o.header_path is Some,
        f is Anchor ==> o.anchor_path is Some,
        !(f is Seed) && !(f is Sidecar),
{
    let lines = create_lines(o);
    assert(lines[1] is Do && creates(act_of(lines[1])));
    assert(!writes(act_of(lines[0]), o, f));
    assert(k >= 1);
}

proof fn lemma_combined_straight(o: CreateOpts, fido2: bool, kem: Option<PqParams>)
    ensures
        straight(tpm_factors_only_lines(o, fido2, kem)),
        straight(tpm_factors_deniable_lines(o, fido2, kem)),
{
    let deniable_lead = "OS RNG failure generating TPM secret: "@;
    assert(straight(collect_lines("OS RNG: "@, "OS RNG: "@, fido2, kem)));
    assert(straight(collect_lines(deniable_lead, "OS RNG failure: "@, fido2, kem)));
    assert(straight(hybrid_file_lines(kem)));
    assert(straight(finish_lines(o, combined_anchor_undo(kem is Some))));
    let only = tpm_factors_only_lines(o, fido2, kem);
    let deniable = tpm_factors_deniable_lines(o, fido2, kem);
    let files = hybrid_file_lines(kem);
    let last = finish_lines(o, combined_anchor_undo(kem is Some));
    let a = collect_lines("OS RNG: "@, "OS RNG: "@, fido2, kem);
    let b = collect_lines(deniable_lead, "OS RNG failure: "@, fido2, kem);
    let made_a = seq![only[a.len() as int]];
    let made_b = seq![deniable[b.len() as int]];
    assert(straight(made_a) && straight(made_b));
    lemma_straight_concat(a, made_a);
    lemma_straight_concat(b, made_b);
    lemma_straight_concat(a + made_a, files);
    lemma_straight_concat(b + made_b, files);
    lemma_straight_concat(a + made_a + files, last);
    lemma_straight_concat(b + made_b + files, last);
    assert(only =~= a + made_a + files + last);
    assert(deniable =~= b + made_b + files + last);
}

/// When a line of the first bootstrap script fails, the vault, its header, its
/// anchor and its sidecar are removed, as far as that line or an earlier one may
/// have written them. So either the vault is created, or nothing of it is left.
/// A seed file stays.
pub proof fn law_failed_bootstrap_create_leaves_nothing(
    o: CreateOpts,
    kind: TpmBootstrapKind,
    d: CreateFacts,
    p: Platform,
    i: int,
    f: VaultFile,
)
    requires
        0 <= i < tpm_bootstrap_lines(o, kind, d, p).len(),
        tpm_bootstrap_lines(o, kind, d, p)[i] is Do,
        may_exist(tpm_bootstrap_lines(o, kind, d, p), i + 1, o, f),
        f !is Seed,
    ensures
        straight(tpm_bootstrap_lines(o, kind, d, p)),
        undo_of(tpm_bootstrap_lines(o, kind, d, p)[i]).contains(removal_of(f)),
{
    let lines = tpm_create_lines(o, kind, d, p);
    let clean = cleaned(o, lines);
    law_accepted_create_is_straight(o);
    if let Some((fido2, kem)) = tpm_factors(kind) {
        lemma_combined_straight(o, fido2, kem);
    }
    assert(straight(lines)) by {
        assert(!(clean[i] is Stop));
    }
    assert forall|j: int| 0 <= j < clean.len() implies is_step(#[trigger] clean[j]) && act_of(clean[j])
        == act_of(lines[j]) by {
        assert(is_step(lines[j]));
    }
    let k = choose|k: int|
        0 <= k < i + 1 && k < clean.len() && (#[trigger] clean[k]) is Do && writes(
            act_of(clean[k]),
            o,
            f,
        );
    assert(is_step(lines[k]) && is_step(lines[i]));
    let vault = made_by(lines, i, Made::Vault);
    let anchor = made_by(lines, i, Made::Anchor);
    let undo = undo_of(clean[i]);
    assert(undo == removing(o, vault, anchor, made_by(lines, i, Made::Sidecar)));
    let v: int = if !vault {
        0
    } else if detached(o) {
        2
    } else {
        1
    };
    let a: int = if anchor {
        1
    } else {
        0
    };
    match f {
        VaultFile::Vault => {
            assert(makes(act_of(lines[k]), Made::Vault));
            assert(undo[0] == Act::RemoveVault);
        },
        VaultFile::Header => {
            assert(makes(act_of(lines[k]), Made::Vault));
            assert(undo[1] == Act::RemoveHeader);
        },
        VaultFile::Anchor => {
            assert(makes(act_of(lines[k]), Made::Anchor));
            assert(undo[v] == Act::RemoveAnchor);
        },
        VaultFile::Sidecar => {
            assert(makes(act_of(lines[k]), Made::Sidecar));
            assert(undo[v + a] == Act::RemoveSidecar);
        },
        VaultFile::Seed => {},
    }
}

/// Acts of an enroll: none creates a vault or an anchor, and the ML-KEM files
/// are written only for a hybrid slot.
pub open spec fn enroll_act(act: Act, hybrid: bool) -> bool {
    &&& !creates(act)
    &&& !(act is InitAnchor)
    &&& hybrid || !(act is WriteFirstSidecar || act is AppendSidecar || act is MergeSidecar
        || act is WriteSeed)
}

pub open spec fn enroll_acts(lines: Seq<LineView>, hybrid: bool) -> bool {
    forall|k: int|
        0 <= k < lines.len() && (#[trigger] lines[k]) is Do ==> enroll_act(act_of(lines[k]), hybrid)
}

proof fn lemma_enroll_acts_concat(a: Seq<LineView>, b: Seq<LineView>, hybrid: bool)
    requires
        enroll_acts(a, hybrid),
        enroll_acts(b, hybrid),
    ensures
        enroll_acts(a + b, hybrid),
{
    let c = a + b;
    assert forall|k: int| 0 <= k < c.len() && (#[trigger] c[k]) is Do implies enroll_act(
        act_of(c[k]),
        hybrid,
    ) by {
        assert(c[k] == (if k < a.len() {
            a[k]
        } else {
            b[k - a.len()]
        }));
    }
}

proof fn lemma_tpm_enroll_acts(
    o: CreateOpts,
    kind: TpmBootstrapKind,
    seed_exists: bool,
    deniable: bool,
    p: Platform,
)
    ensures
        enroll_acts(tpm_enroll_lines(o, kind, seed_exists, deniable, p), tpm_is_hybrid(kind)),
{
    let h = tpm_is_hybrid(kind);
    let pw = pw_of(o.passphrase);
    if deniable {
        match kind {
            TpmBootstrapKind::Tpm2 => {
                lemma_tpm2_deniable(pw, o.kdf, None, p);
            },
            TpmBootstrapKind::Tpm2Pin { pin } => {
                lemma_tpm2_deniable(pw, o.kdf, Some(pin@), p);
            },
            TpmBootstrapKind::Tpm2Fido2 { .. } => {
                lemma_combo_deniable(pw, o.kdf, true, None, p);
            },
            TpmBootstrapKind::HybridPqTpm2 { kem_size, .. } => {
                lemma_combo_deniable(pw, o.kdf, false, Some(kem_or_768(kem_size)), p);
            },
            TpmBootstrapKind::HybridPqTpm2Fido2 { kem_size, .. } => {
                lemma_combo_deniable(pw, o.kdf, true, Some(kem_or_768(kem_size)), p);
            },
        }
    } else {
        match kind {
            TpmBootstrapKind::Tpm2 => {
                lemma_enroll_acts_concat(
                    tpm_seal_lines("OS RNG failure generating TPM KEK: "@, false),
                    install_lines(slot_install(SlotKind::Tpm2Sealed, false)),
                    h,
                );
            },
            TpmBootstrapKind::Tpm2Pin { pin } => {
                lemma_enroll_acts_concat(
                    tpm_seal_lines("OS RNG failure generating TPM PIN-bound KEK: "@, true),
                    install_lines(slot_install(SlotKind::Tpm2SealedPin, false)),
                    h,
                );
            },
            TpmBootstrapKind::Tpm2Fido2 { .. } => {
                lemma_enroll_acts_concat(
                    tpm_fido2_lines("OS RNG failure generating TPM half: "@),
                    install_lines(slot_install(SlotKind::Tpm2Fido2, false)),
                    h,
                );
            },
            TpmBootstrapKind::HybridPqTpm2 { kyber_path, kem_size, .. } => {
                if kem_of(kem_size) is Some {
                    let kem = kem_of(kem_size)->0;
                    let head = tpm_seal_lines("OS RNG failure generating hybrid TPM KEK: "@, false);
                    let tail = atomic_lines(
                        slot_install(tpm_slot_kind(false, Some(kem)), false),
                        kem,
                        ""@,
                    );
                    lemma_enroll_acts_concat(head, encapsulate_lines(kem), h);
                    lemma_enroll_acts_concat(head + encapsulate_lines(kem), tail, h);
                }
            },
            TpmBootstrapKind::HybridPqTpm2Fido2 { kyber_path, kem_size, .. } => {
                if kem_of(kem_size) is Some {
                    let kem = kem_of(kem_size)->0;
                    let head = tpm_fido2_lines("OS RNG failure generating 3-factor TPM half: "@);
                    let tail = atomic_lines(
                        slot_install(tpm_slot_kind(true, Some(kem)), false),
                        kem,
                        ""@,
                    );
                    lemma_enroll_acts_concat(head, encapsulate_lines(kem), h);
                    lemma_enroll_acts_concat(head + encapsulate_lines(kem), tail, h);
                }
            },
        }
    }
}

proof fn lemma_tpm2_deniable(
    pw: Seq<char>,
    kdf: KdfStrength,
    pin: Option<Seq<char>>,
    p: Platform,
)
    ensures
        enroll_acts(enroll_tpm2_deniable_lines(1, pw, kdf, pin, p), false),
{
    lemma_enroll_acts_concat(
        tpm_seal_lines("OS RNG failure generating TPM secret: "@, pin is Some),
        install_lines(
            Act::InstallDeniable { kind: DeniableKindTag::TpmPassphrase, slot: 1, kdf },
        ),
        false,
    );
}

proof fn lemma_combo_deniable(
    pw: Seq<char>,
    kdf: KdfStrength,
    fido2: bool,
    kem: Option<PqParams>,
    p: Platform,
)
    ensures
        enroll_acts(tpm_combo_deniable_lines(1, pw, kdf, fido2, kem, p), kem is Some),
{
    let h = kem is Some;
    let seal = tpm_seal_lines("OS RNG failure generating TPM secret: "@, false);
    let touch = if fido2 {
        register_lines("OS RNG failure: "@)
    } else {
        seq![]
    };
    let pq = match kem {
        Some(k) => seq![step(Act::Encapsulate { kem: k }, ""@)],
        None => seq![],
    };
    let install = install_lines(
        Act::InstallDeniable { kind: tpm_deniable_kind(fido2, kem is Some), slot: 1, kdf },
    );
    let files = match kem {
        Some(k) => seq![
            step(Act::ReadSidecar, ""@),
            step(Act::MergeSidecar { kem: k }, ""@),
            step(Act::WriteSeed { pw: SecretRef::SeedPassphrase }, ""@),
        ],
        None => seq![],
    };
    lemma_enroll_acts_concat(seal, touch, h);
    lemma_enroll_acts_concat(seal + touch, pq, h);
    lemma_enroll_acts_concat(seal + touch + pq, install, h);
    lemma_enroll_acts_concat(seal + touch + pq + install, files, h);
}

proof fn lemma_sep_enroll_acts(kind: SepBootstrapKind, seed_exists: bool, p: Platform)
    ensures
        enroll_acts(sep_enroll_lines(kind, seed_exists, p), sep_names_seed(kind)),
{
    let h = sep_names_seed(kind);
    match kind {
        SepBootstrapKind::Sep => {
            lemma_enroll_acts_concat(
                sep_seal_lines(false),
                install_lines(slot_install(sep_kind(false), false)),
                h,
            );
        },
        SepBootstrapKind::SepBiometric => {
            lemma_enroll_acts_concat(
                sep_seal_lines(true),
                install_lines(slot_install(sep_kind(true), false)),
                h,
            );
        },
        SepBootstrapKind::HybridPqSep { kyber_path, kem_size, .. } => {
            if kem_of(kem_size) is Some {
                let kem = kem_of(kem_size)->0;
                let head = sep_seal_lines(false);
                let tail = atomic_lines(slot_install(sep_hybrid_kind(kem), false), kem, ""@);
                lemma_enroll_acts_concat(head, encapsulate_lines(kem), h);
                lemma_enroll_acts_concat(head + encapsulate_lines(kem), tail, h);
            }
        },
        SepBootstrapKind::SepFused { factors, kem_size, kyber_path, .. } => {
            let head = fused_collect_lines(factors.binds_fido2());
            let open = seq![step(Act::OpenSep, ""@)];
            let touch = if factors.binds_fido2() {
                register_lines(salt_lead())
            } else {
                seq![]
            };
            let seal = seq![step(Act::SealSep { biometric: false }, "SEP seal: "@)];
            lemma_enroll_acts_concat(open, touch, h);
            lemma_enroll_acts_concat(open + touch, seal, h);
            match kem_size {
                None => {
                    let tail = seq![
                        step(
                            slot_install(factors.fused_kind(None), factors.binds_passphrase()),
                            ""@,
                        ),
                        step_or(Act::PersistHeader, "persist header: "@, seq![Act::RevokeInstalled]),
                    ];
                    lemma_enroll_acts_concat(head, tail, h);
                },
                Some(n) => {
                    if kem_of(n) is Some && kyber_path is Some {
                        let kem = kem_of(n)->0;
                        let tail = atomic_lines(
                            slot_install(factors.fused_kind(Some(kem)), factors.binds_passphrase()),
                            kem,
                            "persist header: "@,
                        );
                        lemma_enroll_acts_concat(head, encapsulate_lines(kem), h);
                        lemma_enroll_acts_concat(head + encapsulate_lines(kem), tail, h);
                    }
                },
            }
        },
    }
}

/// When the TPM slot cannot be enrolled, every file that the create or the
/// enroll may have written is removed before the error is reported.
pub proof fn law_failed_tpm_enroll_leaves_nothing(
    o: CreateOpts,
    kind: TpmBootstrapKind,
    seed_exists: bool,
    deniable: bool,
    p: Platform,
    f: VaultFile,
)
    requires
        o.kind == SlotKindArg::Passphrase,
        f is Seed ==> !seed_exists,
        may_exist(create_lines(o), create_lines(o).len() as int, o, f) || may_exist(
            tpm_enroll_lines(o, kind, seed_exists, deniable, p),
            tpm_enroll_lines(o, kind, seed_exists, deniable, p).len() as int,
            o,
            f,
        ),
    ensures
        remove_all(o, tpm_is_hybrid(kind) && !seed_exists).contains(removal_of(f)),
{
    let enroll = tpm_enroll_lines(o, kind, seed_exists, deniable, p);
    if may_exist(create_lines(o), create_lines(o).len() as int, o, f) {
        let lines = create_lines(o);
        let k = choose|k: int|
            0 <= k < lines.len() && k < lines.len() && (#[trigger] lines[k]) is Do && writes(
                act_of(lines[k]),
                o,
                f,
            );
        lemma_create_files(o, k, f);
    } else {
        let k = choose|k: int|
            0 <= k < enroll.len() && k < enroll.len() && (#[trigger] enroll[k]) is Do && writes(
                act_of(enroll[k]),
                o,
                f,
            );
        lemma_tpm_enroll_acts(o, kind, seed_exists, deniable, p);
        assert(enroll_act(act_of(enroll[k]), tpm_is_hybrid(kind)));
    }
    lemma_removed(o, tpm_is_hybrid(kind) && !seed_exists, f);
}

/// The same when the Secure Enclave slot cannot be enrolled.
pub proof fn law_failed_sep_enroll_leaves_nothing(
    o: CreateOpts,
    kind: SepBootstrapKind,
    seed_exists: bool,
    p: Platform,
    f: VaultFile,
)
    requires
        o.kind == SlotKindArg::Passphrase,
        f is Seed ==> !seed_exists,
        may_exist(create_lines(o), create_lines(o).len() as int, o, f) || may_exist(
            sep_enroll_lines(kind, seed_exists, p),
            sep_enroll_lines(kind, seed_exists, p).len() as int,
            o,
            f,
        ),
    ensures
        remove_all(o, sep_names_seed(kind) && !seed_exists).contains(removal_of(f)),
{
    let enroll = sep_enroll_lines(kind, seed_exists, p);
    if may_exist(create_lines(o), create_lines(o).len() as int, o, f) {
        let lines = create_lines(o);
        let k = choose|k: int|
            0 <= k < lines.len() && k < lines.len() && (#[trigger] lines[k]) is Do && writes(
                act_of(lines[k]),
                o,
                f,
            );
        lemma_create_files(o, k, f);
    } else {
        let k = choose|k: int|
            0 <= k < enroll.len() && k < enroll.len() && (#[trigger] enroll[k]) is Do && writes(
                act_of(enroll[k]),
                o,
                f,
            );
        lemma_sep_enroll_acts(kind, seed_exists, p);
        assert(enroll_act(act_of(enroll[k]), sep_names_seed(kind)));
    }
    lemma_removed(o, sep_names_seed(kind) && !seed_exists, f);
}

} // verus!
