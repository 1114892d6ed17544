//! Every script that makes a keyslot makes the one that was asked for.

use crate::bootstrap::{collect_lines, tpm_seal_lines};
use crate::bootstrap_slots::refuses;
use crate::create::register_lines;
use crate::enroll::{SeedTarget, atomic_deniable_lines, atomic_lines, encapsulate_lines, enroll_fido2_deniable_lines, enroll_fido2_lines, enroll_hybrid_pq_fido2_deniable_lines, enroll_hybrid_pq_fido2_lines, enroll_hybrid_pq_passphrase_deniable_lines, enroll_hybrid_pq_passphrase_lines, enroll_hybrid_pq_sep_lines, enroll_hybrid_pq_tpm2_fido2_lines, enroll_hybrid_pq_tpm2_lines, enroll_sep_fused_lines, enroll_sep_lines, enroll_tpm2_deniable_lines, enroll_tpm2_fido2_lines, enroll_tpm2_lines, enroll_tpm2_pin_lines, fused_collect_lines, install_lines, salt_lead, sep_seal_lines, tpm_combo_deniable_lines, tpm_fido2_lines};
use crate::kinds::{
    DeniableKindTag, KdfStrength, Platform, PqParams, SepFactors, SlotKind, TargetOs,
};
use crate::plans::{
    Factors, Place, Plan, both, carries_out, collects_all, completes_all, is_new,
    lemma_collect_both, lemma_collect_nothing, lemma_plan, making, nothing, with_fido2,
    with_format, with_kem, with_sep, with_tpm,
};
use crate::script::{Act, LineView, SecretRef, act_of, is_step, step};
use vstd::prelude::*;

verus! {

pub(crate) proof fn lemma_register(lead: Seq<char>)
    ensures
        collects_all(register_lines(lead), with_fido2()),
{
    let l = register_lines(lead);
    assert(l[0] is Do && l[1] is Do && l[2] is Do && l[3] is Do);
}

pub(crate) proof fn lemma_seal(lead: Seq<char>, pin: bool)
    ensures
        collects_all(tpm_seal_lines(lead, pin), with_tpm(pin)),
{
    let l = tpm_seal_lines(lead, pin);
    assert(l[0] is Do && l[1] is Do && l[2] is Do);
}

pub(crate) proof fn lemma_one_kem(l: Seq<LineView>, kem: PqParams, lead: Seq<char>)
    requires
        l == seq![step(Act::Encapsulate { kem }, lead)],
    ensures
        collects_all(l, with_kem(kem)),
{
    assert(l[0] is Do);
}

pub(crate) proof fn lemma_format(v3: bool)
    ensures
        collects_all(seq![step(Act::ChooseFormat { v3 }, ""@)], with_format(v3)),
{
    let l = seq![step(Act::ChooseFormat { v3 }, ""@)];
    assert(l[0] is Do);
}

pub(crate) proof fn lemma_sep_seal(biometric: bool)
    ensures
        collects_all(sep_seal_lines(biometric), with_sep(biometric)),
{
    let l = sep_seal_lines(biometric);
    assert(l[0] is Do && l[1] is Do);
}

proof fn lemma_tpm_fido2(lead: Seq<char>)
    ensures
        collects_all(tpm_fido2_lines(lead), both(with_tpm(false), with_fido2())),
{
    let l = tpm_fido2_lines(lead);
    assert(l[0] is Do && l[1] is Do && l[2] is Do && l[3] is Do && l[4] is Do && l[5] is Do && l[6] is Do);
}

/// The enclave is opened, the credential registered, then the enclave seals.
pub(crate) proof fn lemma_fused(lead: Seq<char>, l: Seq<LineView>)
    requires
        l == seq![step(Act::OpenSep, ""@)] + register_lines(lead) + seq![
            step(Act::SealSep { biometric: false }, "SEP seal: "@),
        ],
    ensures
        collects_all(l, both(with_sep(false), with_fido2())),
{
    assert(l.len() == 6);
    assert(l[0] is Do && l[1] is Do && l[2] is Do && l[3] is Do && l[4] is Do && l[5] is Do);
}

proof fn lemma_fused_collect(fido2: bool)
    ensures
        collects_all(
            fused_collect_lines(fido2),
            if fido2 {
                both(with_sep(false), with_fido2())
            } else {
                with_sep(false)
            },
        ),
{
    let l = fused_collect_lines(fido2);
    if fido2 {
        lemma_fused(salt_lead(), l);
    } else {
        assert(l =~= sep_seal_lines(false));
        lemma_sep_seal(false);
    }
}

/// The factors of a combination with the TPM.
pub open spec fn tpm_and(fido2: bool, kem: Option<PqParams>) -> Factors {
    Factors { tpm: Some(false), fido2, kem, ..nothing() }
}

pub(crate) proof fn lemma_collect(draw: Seq<char>, salt: Seq<char>, fido2: bool, kem: Option<PqParams>)
    ensures
        collects_all(collect_lines(draw, salt, fido2, kem), tpm_and(fido2, kem)),
{
    let seal = tpm_seal_lines(draw, false);
    let touch = if fido2 {
        register_lines(salt)
    } else {
        seq![]
    };
    let f = if fido2 {
        with_fido2()
    } else {
        nothing()
    };
    lemma_seal(draw, false);
    lemma_register(salt);
    lemma_collect_nothing();
    lemma_collect_both(seal, touch, with_tpm(false), f);
    match kem {
        Some(k) => {
            let pq = seq![step(Act::Encapsulate { kem: k }, ""@)];
            lemma_one_kem(pq, k, ""@);
            lemma_collect_both(seal + touch, pq, both(with_tpm(false), f), with_kem(k));
        },
        None => {
            assert(collect_lines(draw, salt, fido2, kem) =~= seal + touch);
        },
    }
}

/// What follows a keyslot that is installed and written back at once.
proof fn lemma_persist(l: Seq<LineView>, p: Plan)
    requires
        l.len() == 1,
        is_step(l[0]),
        act_of(l[0]) == Act::PersistHeader,
        !is_new(p),
        p.factors.kem is None,
        !p.anchor,
        !p.backup,
    ensures
        completes_all(l, p),
{
    assert(l[0] is Do);
}

proof fn lemma_install(head: Seq<LineView>, p: Plan)
    requires
        collects_all(head, p.factors),
        !is_new(p),
        p.factors.kem is None,
        !p.anchor,
        !p.backup,
    ensures
        carries_out(head + install_lines(making(p)), p),
{
    let both_lines = install_lines(making(p));
    let tail = both_lines.skip(1);
    lemma_persist(tail, p);
    lemma_plan(head, both_lines[0], tail, p);
    assert(head + install_lines(making(p)) =~= head + seq![both_lines[0]] + tail);
}

proof fn lemma_atomic(head: Seq<LineView>, kem: PqParams, lead: Seq<char>, p: Plan)
    requires
        collects_all(head, p.factors),
        p.place is Slot,
        p.factors.kem == Some(kem),
        p.seed == SecretRef::SeedPassphrase,
        !p.replaces,
        !p.anchor,
        !p.backup,
    ensures
        carries_out(head + atomic_lines(making(p), kem, lead), p),
{
    let all = atomic_lines(making(p), kem, lead);
    let tail = all.skip(1);
    assert(tail[0] is Do && tail[1] is Do && tail[2] is Do && tail[3] is Do);
    assert(completes_all(tail, p));
    lemma_plan(head, all[0], tail, p);
    assert(head + all =~= head + seq![all[0]] + tail);
}

proof fn lemma_atomic_deniable(head: Seq<LineView>, slot: usize, kem: PqParams, p: Plan)
    requires
        collects_all(head, p.factors),
        p.place is DeniableSlot,
        p.factors.kem == Some(kem),
        p.seed == SecretRef::SeedPassphrase,
        p.replaces,
        !p.anchor,
        !p.backup,
    ensures
        carries_out(head + atomic_deniable_lines(making(p), slot, kem), p),
{
    let all = atomic_deniable_lines(making(p), slot, kem);
    let tail = all.skip(1);
    assert(tail[0] is Do && tail[1] is Do && tail[2] is Do && tail[3] is Do);
    assert(completes_all(tail, p));
    lemma_plan(head, all[0], tail, p);
    assert(head + all =~= head + seq![all[0]] + tail);
}

/// A keyslot that is added to an open vault.
pub open spec fn added(factors: Factors, kind: SlotKind, passphrase: bool) -> Plan {
    Plan {
        factors,
        place: Place::Slot { kind, passphrase },
        kdf: KdfStrength::Interactive,
        seed: SecretRef::SeedPassphrase,
        replaces: false,
        anchor: false,
        backup: false,
    }
}

/// A slot that is added to an open deniable vault.
pub open spec fn added_deniable(
    factors: Factors,
    kind: DeniableKindTag,
    slot: usize,
    kdf: KdfStrength,
) -> Plan {
    Plan {
        factors,
        place: Place::DeniableSlot { kind, slot },
        kdf,
        seed: SecretRef::SeedPassphrase,
        replaces: true,
        anchor: false,
        backup: false,
    }
}

/// The keyslots without ML-KEM that can be added to a vault are bound to what
/// they are named after: the authenticator; the TPM; the TPM and its PIN; the
/// TPM and the authenticator; the Secure Enclave, with Touch ID or without.
/// They are refused only where the hardware is not supported, and a PIN that is
/// asked for only if it is empty.
pub proof fn law_added_keyslots_are_bound_as_named(p: Platform, pin: Seq<char>, biometric: bool)
    ensures
        p.hardware ==> carries_out(
            enroll_fido2_lines(p),
            added(with_fido2(), SlotKind::Fido2HmacSecret, false),
        ),
        p.hardware ==> carries_out(
            enroll_tpm2_lines(p),
            added(with_tpm(false), SlotKind::Tpm2Sealed, false),
        ),
        p.hardware && pin.len() > 0 ==> carries_out(
            enroll_tpm2_pin_lines(pin, p),
            added(with_tpm(true), SlotKind::Tpm2SealedPin, false),
        ),
        p.hardware ==> carries_out(
            enroll_tpm2_fido2_lines(p),
            added(both(with_tpm(false), with_fido2()), SlotKind::Tpm2Fido2, false),
        ),
        p.hardware && biometric ==> carries_out(
            enroll_sep_lines(biometric, p),
            added(with_sep(true), SlotKind::SepSealedBiometric, false),
        ),
        p.hardware && !biometric ==> carries_out(
            enroll_sep_lines(biometric, p),
            added(with_sep(false), SlotKind::SepSealed, false),
        ),
        !p.hardware ==> {
            &&& refuses(enroll_fido2_lines(p))
            &&& refuses(enroll_tpm2_lines(p))
            &&& refuses(enroll_tpm2_pin_lines(pin, p))
            &&& refuses(enroll_tpm2_fido2_lines(p))
            &&& refuses(enroll_sep_lines(biometric, p))
        },
        pin.len() == 0 ==> refuses(enroll_tpm2_pin_lines(pin, p)),
{
    lemma_register(salt_lead());
    lemma_install(
        register_lines(salt_lead()),
        added(with_fido2(), SlotKind::Fido2HmacSecret, false),
    );
    let kek = "OS RNG failure generating TPM KEK: "@;
    lemma_seal(kek, false);
    lemma_install(
        tpm_seal_lines(kek, false),
        added(with_tpm(false), SlotKind::Tpm2Sealed, false),
    );
    let bound = "OS RNG failure generating TPM PIN-bound KEK: "@;
    lemma_seal(bound, true);
    lemma_install(
        tpm_seal_lines(bound, true),
        added(with_tpm(true), SlotKind::Tpm2SealedPin, false),
    );
    let half = "OS RNG failure generating TPM half: "@;
    lemma_tpm_fido2(half);
    lemma_install(
        tpm_fido2_lines(half),
        added(both(with_tpm(false), with_fido2()), SlotKind::Tpm2Fido2, false),
    );
    lemma_sep_seal(true);
    lemma_sep_seal(false);
    lemma_install(sep_seal_lines(true), added(with_sep(true), SlotKind::SepSealedBiometric, false));
    lemma_install(sep_seal_lines(false), added(with_sep(false), SlotKind::SepSealed, false));
}

/// The ML-KEM sizes that exist, and the parameter sets that they name.
pub open spec fn names(kem_size: u16, kem: PqParams) -> bool {
    kem_size == 768 && kem == PqParams::Ml768 || kem_size == 1024 && kem == PqParams::Ml1024
}

/// Whether a hybrid keyslot of this size can be added with its seed there.
pub open spec fn can_add_hybrid(seed: SeedTarget, kem_size: u16) -> bool {
    !seed.exists && (kem_size == 768 || kem_size == 1024)
}

/// The hybrid keyslot kinds: the same factors with ML-KEM-768 and with
/// ML-KEM-1024.
pub open spec fn at_level(kem: PqParams, kind768: SlotKind, kind1024: SlotKind) -> SlotKind {
    match kem {
        PqParams::Ml768 => kind768,
        PqParams::Ml1024 => kind1024,
    }
}

/// A hybrid keyslot that is added to a vault uses one ML-KEM parameter set, the
/// one that was asked for: the key pair is generated under it, the sidecar says
/// so, and so does the kind of the slot. Besides, the slot is bound to what it is
/// named after.
pub proof fn law_added_hybrid_keyslots_are_bound_as_named(
    seed: SeedTarget,
    kem_size: u16,
    kem: PqParams,
    slot_pw: Seq<char>,
    p: Platform,
)
    requires
        names(kem_size, kem),
        can_add_hybrid(seed, kem_size),
    ensures
        p.hardware ==> carries_out(
            enroll_hybrid_pq_tpm2_lines(seed, kem_size, p),
            added(
                both(with_tpm(false), with_kem(kem)),
                at_level(kem, SlotKind::HybridPqKemTpm2, SlotKind::HybridPqKem1024Tpm2),
                false,
            ),
        ),
        p.hardware ==> carries_out(
            enroll_hybrid_pq_tpm2_fido2_lines(seed, kem_size, p),
            added(
                both(both(with_tpm(false), with_fido2()), with_kem(kem)),
                at_level(kem, SlotKind::HybridPqKemTpm2Fido2, SlotKind::HybridPqKem1024Tpm2Fido2),
                false,
            ),
        ),
        p.hardware ==> carries_out(
            enroll_hybrid_pq_sep_lines(seed, kem_size, p),
            added(
                both(with_sep(false), with_kem(kem)),
                at_level(kem, SlotKind::HybridPqKemSep, SlotKind::HybridPqKem1024Sep),
                false,
            ),
        ),
        p.hardware ==> carries_out(
            enroll_hybrid_pq_fido2_lines(slot_pw, seed, kem_size, p),
            added(
                both(with_fido2(), with_kem(kem)),
                at_level(kem, SlotKind::HybridPqKemFido2, SlotKind::HybridPqKem1024Fido2),
                slot_pw.len() > 0,
            ),
        ),
        slot_pw.len() > 0 ==> carries_out(
            enroll_hybrid_pq_passphrase_lines(slot_pw, seed, kem_size),
            added(
                with_kem(kem),
                at_level(kem, SlotKind::HybridPqKemPassphrase, SlotKind::HybridPqKem1024Passphrase),
                true,
            ),
        ),
{
    let e = encapsulate_lines(kem);
    lemma_one_kem(e, kem, "ML-KEM encapsulate: "@);
    let pq = with_kem(kem);
    let kek = "OS RNG failure generating hybrid TPM KEK: "@;
    let half = "OS RNG failure generating 3-factor TPM half: "@;
    lemma_seal(kek, false);
    lemma_tpm_fido2(half);
    lemma_sep_seal(false);
    lemma_register(salt_lead());
    lemma_collect_both(tpm_seal_lines(kek, false), e, with_tpm(false), pq);
    lemma_collect_both(tpm_fido2_lines(half), e, both(with_tpm(false), with_fido2()), pq);
    lemma_collect_both(sep_seal_lines(false), e, with_sep(false), pq);
    lemma_collect_both(register_lines(salt_lead()), e, with_fido2(), pq);
    lemma_atomic(
        tpm_seal_lines(kek, false) + e,
        kem,
        ""@,
        added(
            both(with_tpm(false), pq),
            at_level(kem, SlotKind::HybridPqKemTpm2, SlotKind::HybridPqKem1024Tpm2),
            false,
        ),
    );
    lemma_atomic(
        tpm_fido2_lines(half) + e,
        kem,
        ""@,
        added(
            both(both(with_tpm(false), with_fido2()), pq),
            at_level(kem, SlotKind::HybridPqKemTpm2Fido2, SlotKind::HybridPqKem1024Tpm2Fido2),
            false,
        ),
    );
    lemma_atomic(
        sep_seal_lines(false) + e,
        kem,
        ""@,
        added(
            both(with_sep(false), pq),
            at_level(kem, SlotKind::HybridPqKemSep, SlotKind::HybridPqKem1024Sep),
            false,
        ),
    );
    lemma_atomic(
        register_lines(salt_lead()) + e,
        kem,
        ""@,
        added(
            both(with_fido2(), pq),
            at_level(kem, SlotKind::HybridPqKemFido2, SlotKind::HybridPqKem1024Fido2),
            slot_pw.len() > 0,
        ),
    );
    lemma_atomic(
        e,
        kem,
        ""@,
        added(
            pq,
            at_level(kem, SlotKind::HybridPqKemPassphrase, SlotKind::HybridPqKem1024Passphrase),
            true,
        ),
    );
}

/// A hybrid keyslot is refused, before any act, exactly if its seed file exists,
/// its ML-KEM size does not, its passphrase is missing or its hardware is not
/// supported.
pub proof fn law_hybrid_keyslots_are_refused_for_a_reason(
    seed: SeedTarget,
    kem_size: u16,
    slot_pw: Seq<char>,
    slot: usize,
    p: Platform,
)
    ensures
        ({
            let ok = can_add_hybrid(seed, kem_size);
            let none = slot_pw.len() == 0;
            &&& refuses(enroll_hybrid_pq_tpm2_lines(seed, kem_size, p)) <==> !(ok && p.hardware)
            &&& refuses(enroll_hybrid_pq_tpm2_fido2_lines(seed, kem_size, p)) <==> !(ok
                && p.hardware)
            &&& refuses(enroll_hybrid_pq_sep_lines(seed, kem_size, p)) <==> !(ok && p.hardware)
            &&& refuses(enroll_hybrid_pq_fido2_lines(slot_pw, seed, kem_size, p)) <==> !(ok
                && p.hardware)
            &&& refuses(enroll_hybrid_pq_passphrase_lines(slot_pw, seed, kem_size)) <==> none
                || !ok
            &&& refuses(
                enroll_hybrid_pq_passphrase_deniable_lines(slot, slot_pw, seed, kem_size),
            ) <==> none || !ok
            &&& refuses(
                enroll_hybrid_pq_fido2_deniable_lines(slot, slot_pw, seed, kem_size, p),
            ) <==> none || !ok || !p.hardware
        }),
{
}

/// The kind of a fused enclave slot says which factors it binds.
pub open spec fn is_fused_kind(kind: SlotKind, f: SepFactors, kem: Option<PqParams>) -> bool {
    match kem {
        None => match f {
            SepFactors::Fido2 => kind == SlotKind::SepFido2,
            SepFactors::Passphrase => kind == SlotKind::SepPassphrase,
            SepFactors::Fido2Passphrase => kind == SlotKind::SepFido2Passphrase,
        },
        Some(k) => match f {
            SepFactors::Fido2 => kind == at_level(
                k,
                SlotKind::HybridPqKemSepFido2,
                SlotKind::HybridPqKem1024SepFido2,
            ),
            SepFactors::Passphrase => kind == at_level(
                k,
                SlotKind::HybridPqKemSepPassphrase,
                SlotKind::HybridPqKem1024SepPassphrase,
            ),
            SepFactors::Fido2Passphrase => kind == at_level(
                k,
                SlotKind::HybridPqKemSepFido2Passphrase,
                SlotKind::HybridPqKem1024SepFido2Passphrase,
            ),
        },
    }
}

/// A fused enclave slot asks the authenticator exactly if it binds one, folds a
/// passphrase in exactly if it binds one, and uses ML-KEM exactly if a size was
/// given, under the parameter set that the size names.
pub proof fn law_fused_keyslots_are_bound_as_named(
    f: SepFactors,
    kem_size: Option<u16>,
    kem: PqParams,
    seed: Option<SeedTarget>,
    kind: SlotKind,
    p: Platform,
)
    requires
        p.hardware,
        kem_size is Some ==> names(kem_size->0, kem) && seed is Some && !seed->0.exists,
        is_fused_kind(
            kind,
            f,
            if kem_size is Some {
                Some(kem)
            } else {
                None
            },
        ),
    ensures
        carries_out(
            enroll_sep_fused_lines(f, kem_size, seed, p),
            added(
                Factors {
                    sep: Some(false),
                    fido2: f != SepFactors::Passphrase,
                    kem: if kem_size is Some {
                        Some(kem)
                    } else {
                        None
                    },
                    ..nothing()
                },
                kind,
                f != SepFactors::Fido2,
            ),
        ),
{
    let fido2 = f != SepFactors::Passphrase;
    let head = fused_collect_lines(fido2);
    let all = enroll_sep_fused_lines(f, kem_size, seed, p);
    lemma_fused_collect(fido2);
    let g = Factors { sep: Some(false), fido2, ..nothing() };
    assert(collects_all(head, g));
    if kem_size is Some {
        let e = encapsulate_lines(kem);
        lemma_one_kem(e, kem, "ML-KEM encapsulate: "@);
        lemma_collect_both(head, e, g, with_kem(kem));
        lemma_atomic(
            head + e,
            kem,
            "persist header: "@,
            added(both(g, with_kem(kem)), kind, f != SepFactors::Fido2),
        );
    } else {
        let n = head.len() as int;
        let plan = added(g, kind, f != SepFactors::Fido2);
        let tail = all.skip(n + 1);
        assert(tail.len() == 1);
        lemma_persist(tail, plan);
        lemma_plan(head, all[n], tail, plan);
        assert(all =~= head + seq![all[n]] + tail);
    }
}

/// The slots that can be added to a deniable vault go to the index that was
/// asked for, under the strength that was asked for, and are bound to what they
/// are named after, the TPM to its PIN exactly if there is one.
pub proof fn law_added_deniable_slots_are_bound_as_named(
    slot: usize,
    passphrase: Seq<char>,
    kdf: KdfStrength,
    pin: Option<Seq<char>>,
    p: Platform,
)
    requires
        passphrase.len() > 0,
    ensures
        p.hardware ==> carries_out(
            enroll_fido2_deniable_lines(slot, passphrase, kdf, p),
            added_deniable(with_fido2(), DeniableKindTag::Fido2Passphrase, slot, kdf),
        ),
        p.hardware && p.os == TargetOs::Linux && (pin is Some ==> pin->0.len() > 0) ==> carries_out(
            enroll_tpm2_deniable_lines(slot, passphrase, kdf, pin, p),
            added_deniable(with_tpm(pin is Some), DeniableKindTag::TpmPassphrase, slot, kdf),
        ),
        p.hardware && p.os == TargetOs::Linux ==> carries_out(
            tpm_combo_deniable_lines(slot, passphrase, kdf, true, None, p),
            added_deniable(
                both(with_tpm(false), with_fido2()),
                DeniableKindTag::TpmFido2Passphrase,
                slot,
                kdf,
            ),
        ),
{
    let lead = "OS RNG failure: "@;
    let secret = "OS RNG failure generating TPM secret: "@;
    lemma_register(lead);
    lemma_install(
        register_lines(lead),
        added_deniable(with_fido2(), DeniableKindTag::Fido2Passphrase, slot, kdf),
    );
    lemma_seal(secret, pin is Some);
    lemma_install(
        tpm_seal_lines(secret, pin is Some),
        added_deniable(with_tpm(pin is Some), DeniableKindTag::TpmPassphrase, slot, kdf),
    );
    lemma_seal(secret, false);
    lemma_collect_both(
        tpm_seal_lines(secret, false),
        register_lines(lead),
        with_tpm(false),
        with_fido2(),
    );
    let head = tpm_seal_lines(secret, false) + register_lines(lead);
    let plan = added_deniable(
        both(with_tpm(false), with_fido2()),
        DeniableKindTag::TpmFido2Passphrase,
        slot,
        kdf,
    );
    lemma_install(head, plan);
    if p.hardware && p.os == TargetOs::Linux {
        assert(tpm_combo_deniable_lines(slot, passphrase, kdf, true, None, p) =~= head
            + install_lines(making(plan)));
    }
}

/// The same of the hybrid slots of a deniable vault. Those without a TPM are
/// made under the weakest strength.
pub proof fn law_added_deniable_hybrid_slots_are_bound_as_named(
    slot: usize,
    passphrase: Seq<char>,
    kdf: KdfStrength,
    seed: SeedTarget,
    kem_size: u16,
    kem: PqParams,
    fido2: bool,
    p: Platform,
)
    requires
        passphrase.len() > 0,
        names(kem_size, kem),
        can_add_hybrid(seed, kem_size),
    ensures
        p.hardware && p.os == TargetOs::Linux ==> carries_out(
            tpm_combo_deniable_lines(slot, passphrase, kdf, fido2, Some(kem), p),
            added_deniable(
                Factors { tpm: Some(false), fido2, kem: Some(kem), ..nothing() },
                if fido2 {
                    DeniableKindTag::HybridPqTpmFido2Passphrase
                } else {
                    DeniableKindTag::HybridPqTpmPassphrase
                },
                slot,
                kdf,
            ),
        ),
        carries_out(
            enroll_hybrid_pq_passphrase_deniable_lines(slot, passphrase, seed, kem_size),
            added_deniable(
                with_kem(kem),
                DeniableKindTag::HybridPqPassphrase,
                slot,
                KdfStrength::Interactive,
            ),
        ),
        p.hardware ==> carries_out(
            enroll_hybrid_pq_fido2_deniable_lines(slot, passphrase, seed, kem_size, p),
            added_deniable(
                both(with_fido2(), with_kem(kem)),
                DeniableKindTag::HybridPqFido2Passphrase,
                slot,
                KdfStrength::Interactive,
            ),
        ),
{
    let e = encapsulate_lines(kem);
    lemma_one_kem(e, kem, "ML-KEM encapsulate: "@);
    lemma_register(salt_lead());
    lemma_collect_both(register_lines(salt_lead()), e, with_fido2(), with_kem(kem));
    lemma_atomic_deniable(
        e,
        slot,
        kem,
        added_deniable(
            with_kem(kem),
            DeniableKindTag::HybridPqPassphrase,
            slot,
            KdfStrength::Interactive,
        ),
    );
    lemma_atomic_deniable(
        register_lines(salt_lead()) + e,
        slot,
        kem,
        added_deniable(
            both(with_fido2(), with_kem(kem)),
            DeniableKindTag::HybridPqFido2Passphrase,
            slot,
            KdfStrength::Interactive,
        ),
    );
    if p.hardware && p.os == TargetOs::Linux {
        let head = collect_lines(
            "OS RNG failure generating TPM secret: "@,
            "OS RNG failure: "@,
            fido2,
            Some(kem),
        );
        let all = tpm_combo_deniable_lines(slot, passphrase, kdf, fido2, Some(kem), p);
        lemma_collect(
            "OS RNG failure generating TPM secret: "@,
            "OS RNG failure: "@,
            fido2,
            Some(kem),
        );
        let plan = added_deniable(
            Factors { tpm: Some(false), fido2, kem: Some(kem), ..nothing() },
            if fido2 {
                DeniableKindTag::HybridPqTpmFido2Passphrase
            } else {
                DeniableKindTag::HybridPqTpmPassphrase
            },
            slot,
            kdf,
        );
        let n = head.len() as int;
        assert(all.len() == n + 5);
        let tail = all.skip(n + 1);
        assert(tail[0] is Do && tail[1] is Do && tail[2] is Do && tail[3] is Do);
        assert(completes_all(tail, plan));
        assert(all.take(n) =~= head);
        lemma_plan(head, all[n], tail, plan);
        assert(all =~= head + seq![all[n]] + tail);
    }
}

/// A deniable slot is refused exactly if its envelope has no passphrase, its PIN
/// is empty or the device is not at hand; a fused enclave slot, if there is no
/// hardware, or its ML-KEM part has no such size or no new seed file.
pub proof fn law_other_keyslots_are_refused_for_a_reason(
    slot: usize,
    passphrase: Seq<char>,
    kdf: KdfStrength,
    pin: Option<Seq<char>>,
    fido2: bool,
    kem: Option<PqParams>,
    f: SepFactors,
    kem_size: Option<u16>,
    seed: Option<SeedTarget>,
    p: Platform,
)
    ensures
        ({
            let none = passphrase.len() == 0;
            let no_tpm = !p.hardware || p.os != TargetOs::Linux;
            &&& refuses(enroll_fido2_deniable_lines(slot, passphrase, kdf, p)) <==> none
                || !p.hardware
            &&& refuses(enroll_tpm2_deniable_lines(slot, passphrase, kdf, pin, p)) <==> none
                || no_tpm || pin is Some && pin->0.len() == 0
            &&& refuses(tpm_combo_deniable_lines(slot, passphrase, kdf, fido2, kem, p)) <==> none
                || no_tpm
            &&& refuses(enroll_sep_fused_lines(f, kem_size, seed, p)) <==> !p.hardware || (
            kem_size is Some && !((kem_size->0 == 768 || kem_size->0 == 1024) && seed is Some
                && !seed->0.exists))
        }),
{
}

} // verus!
