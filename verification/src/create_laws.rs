//! Every script that creates a vault creates the one that was asked for.

use crate::bootstrap::{collect_lines, combined_anchor_undo, finish_lines, hybrid_file_lines, tpm2_only_lines, tpm_factors_deniable_lines, tpm_factors_only_lines, tpm_seal_lines};
use crate::bootstrap_slots::{lemma_quiet, lemma_slots_concat, quiet, slots_after, slots_of};
use crate::create::{create_body, create_lines, create_refusal, create_tail, hybrid_lines, register_lines};
use crate::kinds::{DeniableKindTag, Platform, PqParams, SlotKind, SlotKindArg, TargetOs};
use crate::plan_laws::{
    at_level, lemma_collect, lemma_format, lemma_one_kem, lemma_register, lemma_seal,
};
use crate::plans::{
    Factors, Place, Plan, both, carries_out, collects_all, completes_all, does, gathers,
    lemma_collect_both, lemma_collect_nothing, lemma_plan, making, nothing, with_fido2,
    with_format, with_kem, with_tpm,
};
use crate::requests::{CreateFacts, CreateOpts};
use crate::script::{Act, LineView, SecretRef, SizeFlags, act_of, step};
use vstd::prelude::*;

verus! {

/// The sizes that a request wants hidden. Sizes cannot be hidden without
/// padding.
pub open spec fn wanted_flags(o: CreateOpts) -> SizeFlags {
    if o.hide_sizes {
        SizeFlags { pad_files: true, hide_sizes: true }
    } else {
        SizeFlags { pad_files: o.pad_files, hide_sizes: false }
    }
}

/// What the seed file of a new vault is encrypted under: a passphrase of its
/// own if one was typed in.
pub open spec fn wanted_seed_secret(o: CreateOpts) -> SecretRef {
    match o.hybrid_seed_pw {
        Some(pw) if pw@.len() > 0 => SecretRef::SeedPassphrase,
        _ => SecretRef::Passphrase,
    }
}

/// A vault that is created with one slot.
pub open spec fn fresh(o: CreateOpts, factors: Factors, kind: SlotKind) -> Plan {
    Plan {
        factors,
        place: Place::NewVault { kind, flags: wanted_flags(o) },
        kdf: o.kdf,
        seed: SecretRef::SeedPassphrase,
        replaces: false,
        anchor: o.anchor_path is Some,
        backup: false,
    }
}

/// A deniable vault that is created with one slot.
pub open spec fn fresh_deniable(o: CreateOpts, factors: Factors, kind: DeniableKindTag) -> Plan {
    Plan { place: Place::NewDeniable { kind, flags: wanted_flags(o) }, ..fresh(
        o,
        factors,
        SlotKind::Empty,
    ) }
}

/// The keyslot that a create request asks for: for each kind, what protects the
/// vault.
pub open spec fn wanted_factors(k: SlotKindArg) -> Factors {
    match k {
        SlotKindArg::Passphrase => nothing(),
        SlotKindArg::Fido2 => with_fido2(),
        SlotKindArg::Fido2Direct => with_fido2(),
        SlotKindArg::HybridPq => with_kem(PqParams::Ml768),
        SlotKindArg::HybridPq1024 => with_kem(PqParams::Ml1024),
        SlotKindArg::HybridPqFido2 => both(with_fido2(), with_kem(PqParams::Ml768)),
        SlotKindArg::HybridPq1024Fido2 => both(with_fido2(), with_kem(PqParams::Ml1024)),
    }
}

pub open spec fn wanted_kind(k: SlotKindArg) -> SlotKind {
    match k {
        SlotKindArg::Passphrase => SlotKind::Passphrase,
        SlotKindArg::Fido2 => SlotKind::Fido2HmacSecret,
        SlotKindArg::Fido2Direct => SlotKind::Fido2DerivedMvk,
        SlotKindArg::HybridPq => SlotKind::HybridPqKemPassphrase,
        SlotKindArg::HybridPq1024 => SlotKind::HybridPqKem1024Passphrase,
        SlotKindArg::HybridPqFido2 => SlotKind::HybridPqKemFido2,
        SlotKindArg::HybridPq1024Fido2 => SlotKind::HybridPqKem1024Fido2,
    }
}

pub open spec fn wanted_tag(k: SlotKindArg) -> DeniableKindTag {
    match k {
        SlotKindArg::Passphrase => DeniableKindTag::Passphrase,
        SlotKindArg::Fido2 | SlotKindArg::Fido2Direct => DeniableKindTag::Fido2Passphrase,
        SlotKindArg::HybridPq | SlotKindArg::HybridPq1024 => DeniableKindTag::HybridPqPassphrase,
        _ => DeniableKindTag::HybridPqFido2Passphrase,
    }
}

/// What a create request asks for as a whole.
pub open spec fn requested(o: CreateOpts) -> Plan {
    let factors = both(with_format(o.use_v3_format), wanted_factors(o.kind));
    let plan = if o.use_deniable {
        fresh_deniable(o, factors, wanted_tag(o.kind))
    } else {
        fresh(o, factors, wanted_kind(o.kind))
    };
    Plan { seed: wanted_seed_secret(o), backup: o.backup_passphrase is Some, ..plan }
}

proof fn lemma_create_end(o: CreateOpts, files: Seq<LineView>, p: Plan)
    requires
        p == requested(o),
        files == (match p.factors.kem {
            Some(kem) => seq![
                step(Act::WriteFirstSidecar { kem }, ""@),
                step(Act::WriteSeed { pw: p.seed }, ""@),
            ],
            None => Seq::<LineView>::empty(),
        }),
    ensures
        completes_all(files + create_tail(o), p),
{
    let l = files + create_tail(o);
    assert(p.factors.kem is Some ==> l[0] == files[0] && l[1] == files[1]);
    let n = files.len() as int;
    assert(l[n] == create_tail(o)[0]);
    if o.anchor_path is Some || o.backup_passphrase is Some {
        assert(l[n + 1] == create_tail(o)[1]);
    }
    if o.backup_passphrase is Some {
        assert(l[n + 2] == create_tail(o)[2]);
        if o.anchor_path is Some {
            assert(l[n + 3] == create_tail(o)[3]);
        }
    }
}

/// The registration of a credential during a create.
spec fn create_touch(o: CreateOpts) -> Seq<LineView> {
    if wanted_factors(o.kind).fido2 {
        register_lines(
            if o.use_deniable {
                "OS RNG failure: "@
            } else {
                "OS RNG failure generating FIDO2 hmac salt: "@
            },
        )
    } else {
        seq![]
    }
}

/// The generation of an ML-KEM key pair during a create.
spec fn create_pq(o: CreateOpts) -> Seq<LineView> {
    match wanted_factors(o.kind).kem {
        Some(kem) => seq![step(Act::Encapsulate { kem }, ""@)],
        None => seq![],
    }
}

/// The lines of a create that come before the vault is made.
spec fn create_head(o: CreateOpts) -> Seq<LineView> {
    seq![step(Act::ChooseFormat { v3: o.use_v3_format }, ""@)] + create_touch(o) + create_pq(o)
}

/// The ML-KEM files of a create.
spec fn create_files(o: CreateOpts) -> Seq<LineView> {
    match wanted_factors(o.kind).kem {
        Some(kem) => seq![
            step(Act::WriteFirstSidecar { kem }, ""@),
            step(Act::WriteSeed { pw: wanted_seed_secret(o) }, ""@),
        ],
        None => Seq::<LineView>::empty(),
    }
}

proof fn lemma_create_head(o: CreateOpts)
    ensures
        collects_all(create_head(o), both(with_format(o.use_v3_format), wanted_factors(o.kind))),
{
    let first = seq![step(Act::ChooseFormat { v3: o.use_v3_format }, ""@)];
    let lead = if o.use_deniable {
        "OS RNG failure: "@
    } else {
        "OS RNG failure generating FIDO2 hmac salt: "@
    };
    let format = with_format(o.use_v3_format);
    let f = wanted_factors(o.kind);
    lemma_format(o.use_v3_format);
    lemma_register(lead);
    lemma_collect_nothing();
    let touch = if f.fido2 {
        register_lines(lead)
    } else {
        seq![]
    };
    let g = if f.fido2 {
        with_fido2()
    } else {
        nothing()
    };
    lemma_collect_both(first, touch, format, g);
    match f.kem {
        Some(kem) => {
            let pq = seq![step(Act::Encapsulate { kem }, ""@)];
            lemma_one_kem(pq, kem, ""@);
            lemma_collect_both(first + touch, pq, both(format, g), with_kem(kem));
        },
        None => {
            assert(create_head(o) =~= first + touch);
        },
    }
}

proof fn lemma_body_shape(o: CreateOpts)
    requires
        o.kind == SlotKindArg::Fido2Direct ==> !o.use_deniable,
    ensures
        create_body(o) == create_touch(o) + (create_pq(o) + seq![step(making(requested(o)), ""@)]
            + create_files(o)),
{
    let make = step(making(requested(o)), ""@);
    let rest = create_pq(o) + seq![make] + create_files(o);
    match wanted_factors(o.kind).kem {
        Some(kem) => {
            assert(hybrid_lines(kem, making(requested(o)), wanted_seed_secret(o)) =~= rest);
            assert(create_body(o) =~= create_touch(o) + rest);
        },
        None => {
            assert(rest =~= seq![make]);
            assert(create_body(o) =~= create_touch(o) + seq![make]);
        },
    }
}

proof fn lemma_create_shape(o: CreateOpts)
    requires
        o.kind == SlotKindArg::Fido2Direct ==> !o.use_deniable,
    ensures
        create_lines(o) == create_head(o) + seq![step(making(requested(o)), ""@)] + (create_files(o)
            + create_tail(o)),
{
    lemma_body_shape(o);
    lemma_regroup(
        seq![step(Act::ChooseFormat { v3: o.use_v3_format }, ""@)],
        create_touch(o),
        create_pq(o),
        seq![step(making(requested(o)), ""@)],
        create_files(o),
        create_tail(o),
    );
}

proof fn lemma_regroup(
    a: Seq<LineView>,
    b: Seq<LineView>,
    c: Seq<LineView>,
    d: Seq<LineView>,
    e: Seq<LineView>,
    f: Seq<LineView>,
)
    ensures
        a + (b + (c + d + e)) + f == a + b + c + d + (e + f),
{
    assert(a + (b + (c + d + e)) + f =~= a + b + c + d + (e + f));
}

/// A create request is carried out to the letter, whatever its kind: the vault
/// is created with the slot that was asked for, the strength, the size hiding
/// and the format; its ML-KEM files, where it has any, agree with the slot; an
/// anchor is started exactly if there is a path for it, and a backup passphrase
/// enrolled and written back exactly if there is one.
pub proof fn law_create_does_what_was_asked(o: CreateOpts)
    requires
        o.kind == SlotKindArg::Fido2Direct ==> !o.use_deniable,
    ensures
        carries_out(create_lines(o), requested(o)),
{
    let p = requested(o);
    lemma_create_head(o);
    lemma_create_end(o, create_files(o), p);
    lemma_create_shape(o);
    lemma_plan(create_head(o), step(making(p), ""@), create_files(o) + create_tail(o), p);
}

/// Collecting factors changes no keyslot.
proof fn lemma_collecting_is_quiet(lines: Seq<LineView>, f: Factors)
    requires
        collects_all(lines, f),
    ensures
        quiet(lines),
{
    assert forall|i: int, slots: Seq<SlotKind>|
        0 <= i < lines.len() && lines[i] is Do implies #[trigger] slots_after(
        act_of(lines[i]),
        slots,
    ) == slots by {
        assert(does(lines, act_of(lines[i])));
        assert(gathers(f, act_of(lines[i])));
    }
}

/// The keyslots of a vault that was created: the one that was asked for, and
/// behind it a passphrase if a backup was asked for, whatever the kind.
pub proof fn law_created_vault_has_the_slots_asked_for(o: CreateOpts)
    requires
        !o.use_deniable,
    ensures
        slots_of(create_lines(o), seq![]) == (if o.backup_passphrase is Some {
            seq![wanted_kind(o.kind), SlotKind::Passphrase]
        } else {
            seq![wanted_kind(o.kind)]
        }),
{
    let none = Seq::<SlotKind>::empty();
    let kind = wanted_kind(o.kind);
    let one = seq![kind];
    let head = create_head(o);
    let make = seq![step(making(requested(o)), ""@)];
    let files = create_files(o);
    let tail = create_tail(o);
    lemma_create_head(o);
    lemma_create_shape(o);
    lemma_collecting_is_quiet(head, both(with_format(o.use_v3_format), wanted_factors(o.kind)));
    assert(quiet(files));
    lemma_quiet(head, none);
    lemma_slots_concat(head, make, none);
    assert(make.drop_last() =~= Seq::<LineView>::empty());
    assert(slots_of(make, none) =~= one) by {
        reveal_with_fuel(slots_of, 2);
    }
    lemma_slots_concat(head + make, files + tail, none);
    lemma_slots_concat(files, tail, one);
    lemma_quiet(files, one);
    lemma_tail_slots(o, one);
    assert(one.push(SlotKind::Passphrase) =~= seq![kind, SlotKind::Passphrase]);
}

proof fn lemma_tail_slots(o: CreateOpts, slots: Seq<SlotKind>)
    ensures
        slots_of(create_tail(o), slots) == (if o.backup_passphrase is Some {
            slots.push(SlotKind::Passphrase)
        } else {
            slots
        }),
{
    let tail = create_tail(o);
    if o.backup_passphrase is None {
        assert(quiet(tail));
        lemma_quiet(tail, slots);
    } else {
        let k: int = if o.anchor_path is Some {
            1
        } else {
            0
        };
        let before = tail.take(k);
        let backup = seq![tail[k]];
        let rest = tail.skip(k + 1);
        assert(tail =~= before + backup + rest);
        assert(quiet(before) && quiet(rest));
        lemma_slots_concat(before, backup, slots);
        lemma_slots_concat(before + backup, rest, slots);
        lemma_quiet(before, slots);
        assert(backup.drop_last() =~= Seq::<LineView>::empty());
        reveal_with_fuel(slots_of, 2);
        lemma_quiet(rest, slots.push(SlotKind::Passphrase));
    }
}

/// A create request is accepted exactly if no file of the vault is in the way,
/// its options go together, every factor of its kind was supplied, and what it
/// needs is supported.
pub proof fn law_create_is_refused_for_a_reason(o: CreateOpts, d: CreateFacts, p: Platform)
    ensures
        create_refusal(o, d, p) is None <==> {
            let fido2 = wanted_factors(o.kind).fido2;
            let hybrid = wanted_factors(o.kind).kem is Some;
            &&& !d.vault_exists
            &&& o.header_path is Some ==> !d.header_exists && !o.use_deniable
            &&& o.anchor_path is Some ==> !d.anchor_exists
            &&& o.kind == SlotKindArg::Fido2Direct ==> !o.pad_files && !o.hide_sizes
                && !o.use_deniable
            &&& fido2 ==> o.pin is Some && p.hardware
            &&& !fido2 || hybrid || o.use_deniable ==> o.passphrase is Some
            &&& hybrid ==> o.hybrid_kyber_path is Some && (d.kyber_exists ==> o.use_deniable)
        },
{
}

pub(crate) proof fn lemma_finish(o: CreateOpts, kem: Option<PqParams>, undo: Seq<Act>, p: Plan)
    requires
        p.factors.kem == kem,
        p.seed == SecretRef::SeedPassphrase,
        p.anchor == (o.anchor_path is Some),
        !p.backup,
        p.place is NewVault || p.place is NewDeniable,
    ensures
        completes_all(hybrid_file_lines(kem) + finish_lines(o, undo), p),
{
    let files = hybrid_file_lines(kem);
    let last = finish_lines(o, undo);
    let l = files + last;
    let n = files.len() as int;
    if kem is Some {
        assert(l[0] == files[0] && l[1] == files[1]);
    }
    assert(l[n] == last[0]);
    if o.anchor_path is Some {
        assert(l[n + 1] == last[1]);
    }
}

/// A vault whose only slot is the TPM is bound to the PIN exactly if there is
/// one; in deniable mode the passphrase opens its envelope.
pub proof fn law_tpm_only_vault_is_what_was_asked(
    o: CreateOpts,
    pin: Option<Seq<char>>,
    p: Platform,
)
    requires
        p.hardware,
        p.os == TargetOs::Linux,
        pin is Some ==> pin->0.len() > 0,
        o.use_deniable ==> o.passphrase is Some,
    ensures
        !o.use_deniable && pin is Some ==> carries_out(
            tpm2_only_lines(o, pin, p),
            fresh(o, with_tpm(true), SlotKind::Tpm2SealedPin),
        ),
        !o.use_deniable && pin is None ==> carries_out(
            tpm2_only_lines(o, pin, p),
            fresh(o, with_tpm(false), SlotKind::Tpm2Sealed),
        ),
        o.use_deniable ==> carries_out(
            tpm2_only_lines(o, pin, p),
            fresh_deniable(o, with_tpm(pin is Some), DeniableKindTag::TpmPassphrase),
        ),
{
    let lead = "OS RNG failure generating TPM KEK: "@;
    let head = tpm_seal_lines(lead, pin is Some);
    let all = tpm2_only_lines(o, pin, p);
    let undo = seq![Act::RemoveVault, Act::RemoveAnchor];
    lemma_seal(lead, pin is Some);
    let f = with_tpm(pin is Some);
    let plan = if o.use_deniable {
        fresh_deniable(o, f, DeniableKindTag::TpmPassphrase)
    } else if pin is Some {
        fresh(o, f, SlotKind::Tpm2SealedPin)
    } else {
        fresh(o, f, SlotKind::Tpm2Sealed)
    };
    lemma_finish(o, None, undo, plan);
    let tail = hybrid_file_lines(None) + finish_lines(o, undo);
    lemma_plan(head, all[3], tail, plan);
    assert(all =~= head + seq![all[3]] + tail);
}

/// A vault whose only slot combines the TPM with an authenticator, with ML-KEM
/// or with both is bound to exactly these.
pub proof fn law_combined_tpm_vault_is_what_was_asked(
    o: CreateOpts,
    fido2: bool,
    kem: Option<PqParams>,
)
    ensures
        ({
            let f = Factors { tpm: Some(false), fido2, kem, ..nothing() };
            let only = tpm_factors_only_lines(o, fido2, kem);
            let deniable = tpm_factors_deniable_lines(o, fido2, kem);
            &&& kem is None && fido2 ==> carries_out(only, fresh(o, f, SlotKind::Tpm2Fido2))
            &&& kem is Some && !fido2 ==> carries_out(
                only,
                fresh(
                    o,
                    f,
                    at_level(kem->0, SlotKind::HybridPqKemTpm2, SlotKind::HybridPqKem1024Tpm2),
                ),
            )
            &&& kem is Some && fido2 ==> carries_out(
                only,
                fresh(
                    o,
                    f,
                    at_level(
                        kem->0,
                        SlotKind::HybridPqKemTpm2Fido2,
                        SlotKind::HybridPqKem1024Tpm2Fido2,
                    ),
                ),
            )
            &&& kem is None && fido2 ==> carries_out(
                deniable,
                fresh_deniable(o, f, DeniableKindTag::TpmFido2Passphrase),
            )
            &&& kem is Some && !fido2 ==> carries_out(
                deniable,
                fresh_deniable(o, f, DeniableKindTag::HybridPqTpmPassphrase),
            )
            &&& kem is Some && fido2 ==> carries_out(
                deniable,
                fresh_deniable(o, f, DeniableKindTag::HybridPqTpmFido2Passphrase),
            )
        }),
{
    let f = Factors { tpm: Some(false), fido2, kem, ..nothing() };
    let (draw, salt) = ("OS RNG failure generating TPM secret: "@, "OS RNG failure: "@);
    lemma_collect("OS RNG: "@, "OS RNG: "@, fido2, kem);
    lemma_collect(draw, salt, fido2, kem);
    let a = collect_lines("OS RNG: "@, "OS RNG: "@, fido2, kem);
    let b = collect_lines(draw, salt, fido2, kem);
    let only = tpm_factors_only_lines(o, fido2, kem);
    let deniable = tpm_factors_deniable_lines(o, fido2, kem);
    let make_a = only[a.len() as int];
    let make_b = deniable[b.len() as int];
    let undo = combined_anchor_undo(kem is Some);
    let tail = hybrid_file_lines(kem) + finish_lines(o, undo);
    assert(only =~= a + seq![make_a] + tail);
    assert(deniable =~= b + seq![make_b] + tail);
    if kem is Some || fido2 {
        let kind = match kem {
            None => SlotKind::Tpm2Fido2,
            Some(k) => if fido2 {
                at_level(k, SlotKind::HybridPqKemTpm2Fido2, SlotKind::HybridPqKem1024Tpm2Fido2)
            } else {
                at_level(k, SlotKind::HybridPqKemTpm2, SlotKind::HybridPqKem1024Tpm2)
            },
        };
        let tag = match kem {
            None => DeniableKindTag::TpmFido2Passphrase,
            Some(k) => if fido2 {
                DeniableKindTag::HybridPqTpmFido2Passphrase
            } else {
                DeniableKindTag::HybridPqTpmPassphrase
            },
        };
        lemma_finish(o, kem, undo, fresh(o, f, kind));
        lemma_finish(o, kem, undo, fresh_deniable(o, f, tag));
        lemma_plan(a, make_a, tail, fresh(o, f, kind));
        lemma_plan(b, make_b, tail, fresh_deniable(o, f, tag));
    }
}

} // verus!
