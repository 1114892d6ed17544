//! What a script that makes a keyslot is for.
//!
//! A [`Plan`] says what a new keyslot is to be bound to and what comes with it.
//! Whether a script carries a plan out is a matter of which acts it consists of
//! and in which order they come, however the script is put together.

use crate::kinds::{DeniableKindTag, KdfStrength, PqParams, SlotKind};
use crate::script::{Act, LineView, SecretRef, SizeFlags, act_of, is_step, straight};
use vstd::prelude::*;

verus! {

/// Where a new keyslot goes.
#[allow(inconsistent_fields)]
pub enum Place {
    /// Slot 0 of a vault that is created with it.
    NewVault { kind: SlotKind, flags: SizeFlags },
    /// Slot 0 of a deniable vault that is created with it.
    NewDeniable { kind: DeniableKindTag, flags: SizeFlags },
    /// A free slot of an open vault, with or without a passphrase folded in.
    Slot { kind: SlotKind, passphrase: bool },
    /// The slot at an index of an open deniable vault.
    DeniableSlot { kind: DeniableKindTag, slot: usize },
}

/// The factors that a new keyslot is bound to.
pub struct Factors {
    /// The on-disk format that is chosen beforehand.
    pub v3: Option<bool>,
    /// The TPM, with its PIN or without.
    pub tpm: Option<bool>,
    /// The Secure Enclave, with Touch ID or without.
    pub sep: Option<bool>,
    /// The authenticator.
    pub fido2: bool,
    /// ML-KEM, and its parameter set.
    pub kem: Option<PqParams>,
}

/// A keyslot that is to be made.
pub struct Plan {
    pub factors: Factors,
    pub place: Place,
    pub kdf: KdfStrength,
    /// What the seed file of a hybrid slot is encrypted under.
    pub seed: SecretRef,
    /// The entry of an older slot at the same index gives way to the new one.
    pub replaces: bool,
    pub anchor: bool,
    pub backup: bool,
}

/// No factors at all.
pub open spec fn nothing() -> Factors {
    Factors { v3: None, tpm: None, sep: None, fido2: false, kem: None }
}

pub open spec fn with_tpm(pin: bool) -> Factors {
    Factors { tpm: Some(pin), ..nothing() }
}

pub open spec fn with_sep(biometric: bool) -> Factors {
    Factors { sep: Some(biometric), ..nothing() }
}

pub open spec fn with_fido2() -> Factors {
    Factors { fido2: true, ..nothing() }
}

pub open spec fn with_kem(kem: PqParams) -> Factors {
    Factors { kem: Some(kem), ..nothing() }
}

pub open spec fn with_format(v3: bool) -> Factors {
    Factors { v3: Some(v3), ..nothing() }
}

/// Whether two sets of factors have nothing in common.
pub open spec fn apart(a: Factors, b: Factors) -> bool {
    &&& a.v3 is None || b.v3 is None
    &&& a.tpm is None || b.tpm is None
    &&& a.sep is None || b.sep is None
    &&& !a.fido2 || !b.fido2
    &&& a.kem is None || b.kem is None
}

/// The factors of both sets.
pub open spec fn both(a: Factors, b: Factors) -> Factors {
    Factors {
        v3: if a.v3 is Some {
            a.v3
        } else {
            b.v3
        },
        tpm: if a.tpm is Some {
            a.tpm
        } else {
            b.tpm
        },
        sep: if a.sep is Some {
            a.sep
        } else {
            b.sep
        },
        fido2: a.fido2 || b.fido2,
        kem: if a.kem is Some {
            a.kem
        } else {
            b.kem
        },
    }
}

/// Whether an act is needed to collect these factors.
pub open spec fn gathers(f: Factors, a: Act) -> bool {
    match a {
        Act::ChooseFormat { v3 } => f.v3 == Some(v3),
        Act::OpenTpm => f.tpm is Some,
        Act::DrawSecret => f.tpm is Some,
        Act::SealTpm { pin } => f.tpm == Some(pin),
        Act::OpenSep => f.sep is Some,
        Act::SealSep { biometric } => f.sep == Some(biometric),
        Act::NewUserHandle => f.fido2,
        Act::RegisterCredential => f.fido2,
        Act::DrawSalt => f.fido2,
        Act::DeriveNewHmac => f.fido2,
        Act::Encapsulate { kem } => f.kem == Some(kem),
        _ => false,
    }
}

/// The act that makes the keyslot.
pub open spec fn making(p: Plan) -> Act {
    match p.place {
        Place::NewVault { kind, flags } => Act::CreateVault { kind, flags, kdf: p.kdf },
        Place::NewDeniable { kind, flags } => Act::CreateDeniable { kind, flags, kdf: p.kdf },
        Place::Slot { kind, passphrase } => Act::InstallSlot { kind, kdf: p.kdf, passphrase },
        Place::DeniableSlot { kind, slot } => Act::InstallDeniable { kind, slot, kdf: p.kdf },
    }
}

/// Whether the vault itself is new.
pub open spec fn is_new(p: Plan) -> bool {
    p.place is NewVault || p.place is NewDeniable
}

/// Whether an act is needed once the keyslot is made.
pub open spec fn completes(p: Plan, a: Act) -> bool {
    let hybrid = p.factors.kem is Some;
    match a {
        Act::WriteFirstSidecar { kem } => is_new(p) && p.factors.kem == Some(kem),
        Act::ReadSidecar => !is_new(p) && hybrid,
        Act::AppendSidecar { kem } => !is_new(p) && !p.replaces && p.factors.kem == Some(kem),
        Act::MergeSidecar { kem } => !is_new(p) && p.replaces && p.factors.kem == Some(kem),
        Act::WriteSeed { pw } => hybrid && pw == p.seed,
        Act::InitAnchor => p.anchor,
        Act::EnrollBackup => p.backup,
        Act::PersistHeader => p.backup || !is_new(p),
        Act::OpenVfs { tolerant } => is_new(p) && !tolerant,
        _ => false,
    }
}

/// When an act comes: with the factors, with the keyslot, or after it.
pub open spec fn rank(a: Act) -> int {
    match a {
        Act::CreateVault { .. }
        | Act::CreateDeniable { .. }
        | Act::InstallSlot { .. }
        | Act::InstallDeniable { .. } => 1,
        Act::WriteFirstSidecar { .. }
        | Act::ReadSidecar
        | Act::AppendSidecar { .. }
        | Act::MergeSidecar { .. }
        | Act::WriteSeed { .. }
        | Act::InitAnchor
        | Act::EnrollBackup
        | Act::PersistHeader
        | Act::OpenVfs { .. } => 2,
        _ => 0,
    }
}

/// Whether one act has to come before another: a device is opened before it is
/// used, a secret drawn before it is sealed, a credential registered before it
/// is asked; the factors come before the keyslot, and the keyslot before what
/// belongs to it; what was enrolled is written back; and the new vault is entered
/// last.
pub open spec fn must_precede(a: Act, b: Act) -> bool {
    ||| rank(a) < rank(b)
    ||| a is OpenTpm && (b is DrawSecret || b is SealTpm)
    ||| a is DrawSecret && b is SealTpm
    ||| a is OpenSep && b is SealSep
    ||| a is NewUserHandle && b is RegisterCredential
    ||| a is RegisterCredential && b is DrawSalt
    ||| a is DrawSalt && b is DeriveNewHmac
    ||| a is ReadSidecar && (b is AppendSidecar || b is MergeSidecar)
    ||| a is EnrollBackup && b is PersistHeader
    ||| rank(a) == 2 && !(a is OpenVfs) && b is OpenVfs
}

/// Whether a script does an act.
pub open spec fn does(lines: Seq<LineView>, a: Act) -> bool {
    exists|i: int| 0 <= i < lines.len() && (#[trigger] lines[i]) is Do && act_of(lines[i]) == a
}

/// Whether no act is done twice, and each comes in its turn.
pub open spec fn orderly(lines: Seq<LineView>) -> bool {
    &&& forall|i: int, j: int|
        0 <= i < j < lines.len() ==> act_of(#[trigger] lines[i]) != act_of(#[trigger] lines[j])
    &&& forall|i: int, j: int|
        0 <= i < lines.len() && 0 <= j < lines.len() && must_precede(
            act_of(#[trigger] lines[i]),
            act_of(#[trigger] lines[j]),
        ) ==> i < j
}

/// Whether lines collect exactly these factors.
pub open spec fn collects_all(lines: Seq<LineView>, f: Factors) -> bool {
    &&& straight(lines)
    &&& orderly(lines)
    &&& forall|a: Act| #[trigger] does(lines, a) <==> gathers(f, a)
}

/// Whether lines do exactly what is left once the keyslot is made.
pub open spec fn completes_all(lines: Seq<LineView>, p: Plan) -> bool {
    &&& straight(lines)
    &&& orderly(lines)
    &&& forall|a: Act| #[trigger] does(lines, a) <==> completes(p, a)
}

/// Whether a script carries a plan out: it goes from top to bottom, does the
/// acts that the plan calls for and no others, none of them twice, and each in
/// its turn.
pub open spec fn carries_out(lines: Seq<LineView>, p: Plan) -> bool {
    &&& straight(lines)
    &&& orderly(lines)
    &&& forall|a: Act|
        #[trigger] does(lines, a) <==> gathers(p.factors, a) || a == making(p) || completes(p, a)
}

proof fn lemma_does_concat(a: Seq<LineView>, b: Seq<LineView>)
    ensures
        forall|x: Act| #[trigger] does(a + b, x) <==> does(a, x) || does(b, x),
{
    let c = a + b;
    assert forall|x: Act| #[trigger] does(c, x) <==> does(a, x) || does(b, x) by {
        if does(a, x) {
            let i = choose|i: int|
                0 <= i < a.len() && (#[trigger] a[i]) is Do && act_of(a[i]) == x;
            assert(c[i] == a[i]);
        }
        if does(b, x) {
            let i = choose|i: int|
                0 <= i < b.len() && (#[trigger] b[i]) is Do && act_of(b[i]) == x;
            assert(c[a.len() + i] == b[i]);
        }
        if does(c, x) {
            let i = choose|i: int|
                0 <= i < c.len() && (#[trigger] c[i]) is Do && act_of(c[i]) == x;
            if i < a.len() {
                assert(c[i] == a[i]);
            } else {
                assert(c[i] == b[i - a.len()]);
            }
        }
    }
}

/// Two orderly lists, one behind the other.
proof fn lemma_orderly_concat(a: Seq<LineView>, b: Seq<LineView>)
    requires
        straight(a),
        straight(b),
        orderly(a),
        orderly(b),
        forall|x: Act, y: Act|
            #[trigger] does(a, x) && #[trigger] does(b, y) ==> x != y && !must_precede(y, x),
    ensures
        straight(a + b),
        orderly(a + b),
{
    let c = a + b;
    let n = a.len() as int;
    assert forall|i: int| 0 <= i < c.len() implies is_step(#[trigger] c[i]) by {
        if i < n {
            assert(c[i] == a[i]);
        } else {
            assert(c[i] == b[i - n]);
        }
    }
    assert forall|i: int, j: int| 0 <= i < n <= j < c.len() implies {
        &&& act_of(#[trigger] c[i]) != act_of(#[trigger] c[j])
        &&& !must_precede(act_of(c[j]), act_of(c[i]))
    } by {
        assert(is_step(a[i]) && is_step(b[j - n]));
        assert(does(a, act_of(a[i])));
        assert(does(b, act_of(b[j - n])));
    }
    assert forall|i: int, j: int| 0 <= i < j < c.len() implies act_of(#[trigger] c[i]) != act_of(
        #[trigger] c[j],
    ) by {
        if j < n {
            assert(c[i] == a[i] && c[j] == a[j]);
        } else if i >= n {
            assert(c[i] == b[i - n] && c[j] == b[j - n]);
        }
    }
    assert forall|i: int, j: int|
        0 <= i < c.len() && 0 <= j < c.len() && must_precede(
            act_of(#[trigger] c[i]),
            act_of(#[trigger] c[j]),
        ) implies i < j by {
        if i < n && j < n {
            assert(c[i] == a[i] && c[j] == a[j]);
        } else if i >= n && j >= n {
            assert(c[i] == b[i - n] && c[j] == b[j - n]);
        }
    }
}

/// Collecting one set of factors and then another that has nothing in common
/// with it.
pub proof fn lemma_collect_both(a: Seq<LineView>, b: Seq<LineView>, f: Factors, g: Factors)
    requires
        collects_all(a, f),
        collects_all(b, g),
        apart(f, g),
    ensures
        collects_all(a + b, both(f, g)),
{
    assert forall|x: Act, y: Act| #[trigger] does(a, x) && #[trigger] does(b, y) implies x != y
        && !must_precede(y, x) by {
        assert(gathers(f, x) && gathers(g, y));
    }
    lemma_orderly_concat(a, b);
    lemma_does_concat(a, b);
    assert forall|x: Act| #[trigger] does(a + b, x) <==> gathers(both(f, g), x) by {
        assert(does(a, x) <==> gathers(f, x));
        assert(does(b, x) <==> gathers(g, x));
    }
}

/// The factors, the keyslot, and what comes after it make a plan.
pub proof fn lemma_plan(head: Seq<LineView>, make: LineView, tail: Seq<LineView>, p: Plan)
    requires
        collects_all(head, p.factors),
        is_step(make),
        act_of(make) == making(p),
        completes_all(tail, p),
    ensures
        carries_out(head + seq![make] + tail, p),
{
    let one = seq![make];
    assert(one[0] == make);
    assert forall|x: Act| #[trigger] does(one, x) <==> x == making(p) by {
        if does(one, x) {
            let i = choose|i: int|
                0 <= i < one.len() && (#[trigger] one[i]) is Do && act_of(one[i]) == x;
            assert(i == 0);
        }
    }
    assert(rank(making(p)) == 1);
    assert forall|x: Act, y: Act| #[trigger] does(head, x) && #[trigger] does(one, y) implies x != y
        && !must_precede(y, x) by {
        assert(gathers(p.factors, x));
    }
    lemma_orderly_concat(head, one);
    lemma_does_concat(head, one);
    assert forall|x: Act, y: Act|
        #[trigger] does(head + one, x) && #[trigger] does(tail, y) implies x != y && !must_precede(
        y,
        x,
    ) by {
        assert(does(head, x) || does(one, x));
        assert(gathers(p.factors, x) || x == making(p));
        assert(completes(p, y));
    }
    lemma_orderly_concat(head + one, tail);
    lemma_does_concat(head + one, tail);
    assert forall|x: Act|
        #[trigger] does(head + one + tail, x) <==> gathers(p.factors, x) || x == making(p)
            || completes(p, x) by {
        assert(does(head + one, x) <==> does(head, x) || does(one, x));
    }
}

/// An empty list collects nothing.
pub proof fn lemma_collect_nothing()
    ensures
        collects_all(Seq::<LineView>::empty(), nothing()),
{
}

/// Other undo lists do not change what a script is for.
pub proof fn lemma_same_acts(a: Seq<LineView>, b: Seq<LineView>, p: Plan)
    requires
        carries_out(a, p),
        a.len() == b.len(),
        forall|i: int|
            0 <= i < a.len() ==> is_step(#[trigger] b[i]) && act_of(b[i]) == act_of(a[i]),
    ensures
        carries_out(b, p),
{
    assert forall|x: Act| #[trigger] does(b, x) <==> does(a, x) by {
        if does(a, x) {
            let i = choose|i: int|
                0 <= i < a.len() && (#[trigger] a[i]) is Do && act_of(a[i]) == x;
            assert(act_of(b[i]) == x);
        }
        if does(b, x) {
            let i = choose|i: int|
                0 <= i < b.len() && (#[trigger] b[i]) is Do && act_of(b[i]) == x;
            assert(is_step(a[i]));
        }
    }
}

} // verus!
