//! Rotating the master key of an open vault.

use crate::kinds::{KdfStrength, SlotKind};
use crate::script::{Act, LineView, Script, act_of, is_step, step, stop};
use crate::slots::SlotFacts;
use crate::text::{decimal, decimal_text, join3};
use crate::unlock::{any_kind, has_kind};
use vstd::prelude::*;
use vstd::string::*;

verus! {

/// Why a keyslot of this kind cannot be rotated here: what follows its number.
pub open spec fn rotation_obstacle(k: SlotKind) -> Option<Seq<char>> {
    match k {
        SlotKind::Empty | SlotKind::Passphrase => None,
        SlotKind::Fido2DerivedMvk => Some(
            " is fido2-direct: the master key is derived from the authenticator itself and can't be rotated. Revoke the slot first or recreate the vault."@,
        ),
        SlotKind::Fido2HmacSecret => Some(
            " is FIDO2 (wrap mode). The GUI rotation flow currently supports passphrase-only vaults; FIDO2 rotation needs two authenticator touches per slot, which is wired up in the CLI wizard (`luksbox rotate-mvk` or `luksbox wizard`). Run the CLI to rotate this vault."@,
        ),
        SlotKind::HybridPqKemPassphrase
        | SlotKind::HybridPqKemFido2
        | SlotKind::HybridPqKem1024Passphrase
        | SlotKind::HybridPqKem1024Fido2 => Some(
            " is hybrid-PQ. Hybrid-PQ rotation (re-encapsulating against the existing Kyber keypair) is not yet supported in either the GUI or the CLI. Recreate the vault to rotate."@,
        ),
        SlotKind::Tpm2Sealed
        | SlotKind::Tpm2Fido2
        | SlotKind::Tpm2SealedPin
        | SlotKind::HybridPqKemTpm2
        | SlotKind::HybridPqKemTpm2Fido2
        | SlotKind::HybridPqKem1024Tpm2
        | SlotKind::HybridPqKem1024Tpm2Fido2 => Some(
            " is TPM-bound. Rotation of TPM-sealed slots isn't supported by the GUI rotation flow yet. Workaround: revoke the slot via Manage Keyslots, then re-enroll the matching TPM kind."@,
        ),
        _ => Some(
            " is Secure Enclave-bound. Rotation of SEP slots isn't supported by the GUI rotation flow yet. Workaround: revoke the slot via Manage Keyslots, then re-enroll."@,
        ),
    }
}

fn rotation_obstacle_of(k: SlotKind) -> (r: Option<&'static str>)
    ensures
        match rotation_obstacle(k) {
            Some(t) => r matches Some(s) && s@ == t,
            None => r is None,
        },
{
    match k {
        SlotKind::Empty | SlotKind::Passphrase => None,
        SlotKind::Fido2DerivedMvk => Some(
            " is fido2-direct: the master key is derived from the authenticator itself and can't be rotated. Revoke the slot first or recreate the vault.",
        ),
        SlotKind::Fido2HmacSecret => Some(
            " is FIDO2 (wrap mode). The GUI rotation flow currently supports passphrase-only vaults; FIDO2 rotation needs two authenticator touches per slot, which is wired up in the CLI wizard (`luksbox rotate-mvk` or `luksbox wizard`). Run the CLI to rotate this vault.",
        ),
        SlotKind::HybridPqKemPassphrase
        | SlotKind::HybridPqKemFido2
        | SlotKind::HybridPqKem1024Passphrase
        | SlotKind::HybridPqKem1024Fido2 => Some(
            " is hybrid-PQ. Hybrid-PQ rotation (re-encapsulating against the existing Kyber keypair) is not yet supported in either the GUI or the CLI. Recreate the vault to rotate.",
        ),
        SlotKind::Tpm2Sealed
        | SlotKind::Tpm2Fido2
        | SlotKind::Tpm2SealedPin
        | SlotKind::HybridPqKemTpm2
        | SlotKind::HybridPqKemTpm2Fido2
        | SlotKind::HybridPqKem1024Tpm2
        | SlotKind::HybridPqKem1024Tpm2Fido2 => Some(
            " is TPM-bound. Rotation of TPM-sealed slots isn't supported by the GUI rotation flow yet. Workaround: revoke the slot via Manage Keyslots, then re-enroll the matching TPM kind.",
        ),
        _ => Some(
            " is Secure Enclave-bound. Rotation of SEP slots isn't supported by the GUI rotation flow yet. Workaround: revoke the slot via Manage Keyslots, then re-enroll.",
        ),
    }
}

/// The complaint about the first slot, from `from` on, that cannot be rotated.
pub open spec fn first_obstacle(slots: Seq<SlotFacts>, from: int) -> Option<Seq<char>>
    decreases slots.len() - from,
{
    if from < 0 || from >= slots.len() {
        None
    } else {
        match rotation_obstacle(slots[from].kind) {
            Some(t) => Some("slot "@ + decimal(from as nat) + t),
            None => first_obstacle(slots, from + 1),
        }
    }
}

fn first_obstacle_of(slots: &Vec<SlotFacts>) -> (r: Option<String>)
    ensures
        match first_obstacle(slots@, 0) {
            Some(t) => r matches Some(s) && s@ == t,
            None => r is None,
        },
{
    let mut i: usize = 0;
    while i < slots.len()
        invariant
            i <= slots@.len(),
            first_obstacle(slots@, 0) == first_obstacle(slots@, i as int),
        decreases slots.len() - i,
    {
        if let Some(t) = rotation_obstacle_of(slots[i].kind) {
            return Some(join3("slot ", decimal_text(i as u64).as_str(), t));
        }
        i = i + 1;
    }
    None
}

/// Rotating a standard vault. `credentials` is the number of passphrases that
/// the user supplied.
pub open spec fn rotate_lines(
    slots: Seq<SlotFacts>,
    credentials: nat,
    kdf: KdfStrength,
) -> Seq<LineView> {
    match first_obstacle(slots, 0) {
        Some(text) => seq![stop(text)],
        None => if credentials == 0 {
            seq![stop("no populated keyslots, nothing to rotate"@)]
        } else {
            seq![step(Act::RotateMvk { kdf }, ""@), step(Act::FlushVfs, ""@)]
        },
    }
}

/// Rotating a deniable vault: only the slot that was opened can be wrapped anew.
pub open spec fn rotate_deniable_lines(
    credential_slots: Seq<usize>,
    unlocked: Option<usize>,
    kdf: KdfStrength,
) -> Seq<LineView> {
    if credential_slots.len() != 1 {
        seq![
            stop(
                "deniable rotation v1 supports exactly one passphrase slot; got "@ + decimal(
                    credential_slots.len(),
                ),
            ),
        ]
    } else {
        match unlocked {
            None => seq![
                stop("deniable container has no unlocked-slot index; reopen the vault"@),
            ],
            Some(slot) => if credential_slots[0] != slot {
                seq![
                    stop(
                        "deniable rotation must target the unlocked slot ("@ + decimal(slot as nat)
                            + "); got slot "@ + decimal(credential_slots[0] as nat),
                    ),
                ]
            } else {
                seq![step(Act::RotateMvkDeniable { slot, kdf }, ""@)]
            },
        }
    }
}

/// Rotates the master key. `deniable` holds the slot that a deniable vault was
/// opened by, and is none for a standard vault.
pub fn rotate_mvk_passphrase_only(
    deniable: Option<Option<usize>>,
    slots: &Vec<SlotFacts>,
    credential_slots: &Vec<usize>,
    kdf: KdfStrength,
) -> (s: Script)
    ensures
        s@ == (match deniable {
            Some(unlocked) => rotate_deniable_lines(credential_slots@, unlocked, kdf),
            None => rotate_lines(slots@, credential_slots@.len(), kdf),
        }),
{
    if let Some(unlocked) = deniable {
        return rotate_mvk_deniable_passphrase_only(credential_slots, unlocked, kdf);
    }
    if let Some(text) = first_obstacle_of(slots) {
        return Script::refuse(text.as_str());
    }
    if credential_slots.len() == 0 {
        return Script::refuse("no populated keyslots, nothing to rotate");
    }
    Script::new().step(Act::RotateMvk { kdf }, "").step(Act::FlushVfs, "")
}

fn rotate_mvk_deniable_passphrase_only(
    credential_slots: &Vec<usize>,
    unlocked: Option<usize>,
    kdf: KdfStrength,
) -> (s: Script)
    ensures
        s@ == rotate_deniable_lines(credential_slots@, unlocked, kdf),
{
    if credential_slots.len() != 1 {
        let mut text = "deniable rotation v1 supports exactly one passphrase slot; got ".to_owned();
        text.append(decimal_text(credential_slots.len() as u64).as_str());
        return Script::refuse(text.as_str());
    }
    match unlocked {
        None => Script::refuse("deniable container has no unlocked-slot index; reopen the vault"),
        Some(slot) => {
            if credential_slots[0] != slot {
                let mut text = join3(
                    "deniable rotation must target the unlocked slot (",
                    decimal_text(slot as u64).as_str(),
                    "); got slot ",
                );
                text.append(decimal_text(credential_slots[0] as u64).as_str());
                return Script::refuse(text.as_str());
            }
            Script::new().step(Act::RotateMvkDeniable { slot, kdf }, "")
        },
    }
}

/// Whether a hybrid slot without TPM or enclave is there.
pub open spec fn has_plain_hybrid(slots: Seq<SlotFacts>) -> bool {
    ||| has_kind(slots, SlotKind::HybridPqKemPassphrase)
    ||| has_kind(slots, SlotKind::HybridPqKemFido2)
    ||| has_kind(slots, SlotKind::HybridPqKem1024Passphrase)
    ||| has_kind(slots, SlotKind::HybridPqKem1024Fido2)
}

/// Why rotation is not offered for a vault, or none if it is.
pub open spec fn rotate_hint_text(slots: Seq<SlotFacts>) -> Option<Seq<char>> {
    if has_kind(slots, SlotKind::Fido2DerivedMvk) {
        Some(
            "FIDO2-direct slots can't be rotated, the master key IS the authenticator output, not wrapped. Revoke the slot and recreate the vault to change keys."@,
        )
    } else if has_plain_hybrid(slots) {
        Some(
            "Hybrid-PQ rotation isn't supported yet (would need to re-encapsulate against the existing Kyber keypair). Recreate the vault if you need to rotate."@,
        )
    } else if has_kind(slots, SlotKind::Fido2HmacSecret) {
        Some(
            "FIDO2 (wrap-mode) rotation needs two authenticator touches per slot, wired up in the CLI: `luksbox rotate-mvk <path>` (or `luksbox wizard` -> Rotate). The GUI's rotation flow currently handles passphrase-only vaults."@,
        )
    } else if !has_kind(slots, SlotKind::Passphrase) {
        Some("No populated keyslots, nothing to rotate."@)
    } else {
        None
    }
}

/// Whether the keyslot view offers rotation, and if not, why.
pub fn rotate_hint(slots: &Vec<SlotFacts>) -> (r: Option<&'static str>)
    ensures
        match rotate_hint_text(slots@) {
            Some(t) => r matches Some(s) && s@ == t,
            None => r is None,
        },
{
    if any_kind(slots, SlotKind::Fido2DerivedMvk) {
        return Some(
            "FIDO2-direct slots can't be rotated, the master key IS the authenticator output, not wrapped. Revoke the slot and recreate the vault to change keys.",
        );
    }
    if any_kind(slots, SlotKind::HybridPqKemPassphrase) || any_kind(
        slots,
        SlotKind::HybridPqKemFido2,
    ) || any_kind(slots, SlotKind::HybridPqKem1024Passphrase) || any_kind(
        slots,
        SlotKind::HybridPqKem1024Fido2,
    ) {
        return Some(
            "Hybrid-PQ rotation isn't supported yet (would need to re-encapsulate against the existing Kyber keypair). Recreate the vault if you need to rotate.",
        );
    }
    if any_kind(slots, SlotKind::Fido2HmacSecret) {
        return Some(
            "FIDO2 (wrap-mode) rotation needs two authenticator touches per slot, wired up in the CLI: `luksbox rotate-mvk <path>` (or `luksbox wizard` -> Rotate). The GUI's rotation flow currently handles passphrase-only vaults.",
        );
    }
    if !any_kind(slots, SlotKind::Passphrase) {
        return Some("No populated keyslots, nothing to rotate.");
    }
    None
}

/// The places of the passphrase slots among the first `n`, in order.
pub open spec fn passphrase_places(slots: Seq<SlotFacts>, n: int) -> Seq<usize>
    decreases n,
{
    if n <= 0 {
        seq![]
    } else if slots[n - 1].kind == SlotKind::Passphrase {
        passphrase_places(slots, n - 1).push((n - 1) as usize)
    } else {
        passphrase_places(slots, n - 1)
    }
}

/// The slots whose passphrases the rotation dialog asks for.
pub fn rotate_slots(slots: &Vec<SlotFacts>) -> (v: Vec<usize>)
    ensures
        v@ == passphrase_places(slots@, slots@.len() as int),
{
    let mut v: Vec<usize> = Vec::new();
    let mut i: usize = 0;
    while i < slots.len()
        invariant
            i <= slots@.len(),
            v@ == passphrase_places(slots@, i as int),
        decreases slots.len() - i,
    {
        if slots[i].kind == SlotKind::Passphrase {
            v.push(i);
        }
        i = i + 1;
    }
    v
}

/// A vault is rotated without complaint exactly if its slots in use are
/// passphrase slots and a passphrase was supplied.
pub proof fn law_rotation_is_for_passphrases(
    slots: Seq<SlotFacts>,
    credentials: nat,
    kdf: KdfStrength,
)
    ensures
        rotate_lines(slots, credentials, kdf).len() == 2 <==> credentials > 0 && forall|i: int|
            0 <= i < slots.len() ==> (#[trigger] slots[i]).kind == SlotKind::Passphrase
                || slots[i].kind == SlotKind::Empty,
{
    lemma_first_obstacle(slots, 0);
}

proof fn lemma_first_obstacle(slots: Seq<SlotFacts>, from: int)
    requires
        0 <= from,
    ensures
        first_obstacle(slots, from) is None <==> forall|i: int|
            from <= i < slots.len() ==> (#[trigger] slots[i]).kind == SlotKind::Passphrase
                || slots[i].kind == SlotKind::Empty,
    decreases slots.len() - from,
{
    if from < slots.len() {
        lemma_first_obstacle(slots, from + 1);
        if first_obstacle(slots, from) is None {
            assert forall|i: int| from <= i < slots.len() implies (#[trigger] slots[i]).kind
                == SlotKind::Passphrase || slots[i].kind == SlotKind::Empty by {
                if i > from {
                    assert(first_obstacle(slots, from + 1) is None);
                }
            }
        } else {
            if rotation_obstacle(slots[from].kind) is None {
                let i = choose|i: int|
                    from + 1 <= i < slots.len() && !((#[trigger] slots[i]).kind
                        == SlotKind::Passphrase || slots[i].kind == SlotKind::Empty);
                assert(from <= i < slots.len());
            }
        }
    }
}

/// A rotation that is not refused re-encrypts the vault once, under the strength
/// that was asked for, and then flushes it; one that is refused does nothing.
pub proof fn law_rotation_reencrypts_as_asked(
    slots: Seq<SlotFacts>,
    credentials: nat,
    kdf: KdfStrength,
)
    ensures
        ({
            let lines = rotate_lines(slots, credentials, kdf);
            let allowed = credentials > 0 && forall|i: int|
                0 <= i < slots.len() ==> (#[trigger] slots[i]).kind == SlotKind::Passphrase
                    || slots[i].kind == SlotKind::Empty;
            &&& allowed ==> {
                &&& lines.len() == 2
                &&& is_step(lines[0]) && act_of(lines[0]) == (Act::RotateMvk { kdf })
                &&& is_step(lines[1]) && act_of(lines[1]) == Act::FlushVfs
            }
            &&& !allowed ==> lines.len() == 1 && lines[0] is Stop
        }),
{
    lemma_first_obstacle(slots, 0);
}

/// A deniable vault is rotated if the one passphrase supplied is that of the slot
/// it was opened by: that slot is wrapped anew, under the strength that was asked
/// for. In any other case nothing is done.
pub proof fn law_deniable_rotation_reencrypts_as_asked(
    credential_slots: Seq<usize>,
    unlocked: Option<usize>,
    kdf: KdfStrength,
)
    ensures
        ({
            let lines = rotate_deniable_lines(credential_slots, unlocked, kdf);
            let allowed = unlocked is Some && credential_slots.len() == 1 && credential_slots[0]
                == unlocked->0;
            &&& lines.len() == 1
            &&& allowed ==> is_step(lines[0]) && act_of(lines[0]) == (Act::RotateMvkDeniable {
                slot: credential_slots[0],
                kdf,
            })
            &&& !allowed ==> lines[0] is Stop
        }),
{
}

/// The complaint about a vault that cannot be rotated names its first slot that
/// stands in the way.
pub proof fn law_rotation_complains_about_the_first_slot(
    slots: Seq<SlotFacts>,
    credentials: nat,
    kdf: KdfStrength,
    at: int,
)
    requires
        0 <= at < slots.len(),
        slots[at].kind != SlotKind::Passphrase,
        slots[at].kind != SlotKind::Empty,
        forall|i: int|
            0 <= i < at ==> (#[trigger] slots[i]).kind == SlotKind::Passphrase || slots[i].kind
                == SlotKind::Empty,
    ensures
        ({
            let lines = rotate_lines(slots, credentials, kdf);
            &&& lines.len() == 1
            &&& lines[0] matches LineView::Stop { text } && ("slot "@ + decimal(
                at as nat,
            )).is_prefix_of(text)
        }),
{
    lemma_first_is(slots, 0, at);
    let lead = "slot "@ + decimal(at as nat);
    assert(lead.is_prefix_of(lead + rotation_obstacle(slots[at].kind)->0));
}

proof fn lemma_first_is(slots: Seq<SlotFacts>, from: int, at: int)
    requires
        0 <= from <= at < slots.len(),
        slots[at].kind != SlotKind::Passphrase,
        slots[at].kind != SlotKind::Empty,
        forall|i: int|
            from <= i < at ==> (#[trigger] slots[i]).kind == SlotKind::Passphrase || slots[i].kind
                == SlotKind::Empty,
    ensures
        first_obstacle(slots, from) == Some(
            "slot "@ + decimal(at as nat) + rotation_obstacle(slots[at].kind)->0,
        ),
    decreases at - from,
{
    if from < at {
        assert(slots[from].kind == SlotKind::Passphrase || slots[from].kind == SlotKind::Empty);
        lemma_first_is(slots, from + 1, at);
    }
}

/// The rotation dialog asks for the passphrase of every passphrase slot, of no
/// other slot, and of each once, in order.
pub proof fn law_rotation_asks_for_every_passphrase(slots: Seq<SlotFacts>)
    requires
        slots.len() <= usize::MAX,
    ensures
        forall|k: usize| #[trigger]
            passphrase_places(slots, slots.len() as int).contains(k) <==> k < slots.len()
                && slots[k as int].kind == SlotKind::Passphrase,
        forall|i: int, j: int|
            0 <= i < j < passphrase_places(slots, slots.len() as int).len()
                ==> #[trigger] passphrase_places(slots, slots.len() as int)[i]
                < #[trigger] passphrase_places(slots, slots.len() as int)[j],
{
    lemma_passphrase_places(slots, slots.len() as int);
}

proof fn lemma_passphrase_places(slots: Seq<SlotFacts>, n: int)
    requires
        0 <= n <= slots.len() <= usize::MAX,
    ensures
        forall|k: usize| #[trigger]
            passphrase_places(slots, n).contains(k) <==> k < n && slots[k as int].kind
                == SlotKind::Passphrase,
        forall|i: int, j: int|
            0 <= i < j < passphrase_places(slots, n).len() ==> #[trigger] passphrase_places(
                slots,
                n,
            )[i] < #[trigger] passphrase_places(slots, n)[j],
    decreases n,
{
    if n > 0 {
        lemma_passphrase_places(slots, n - 1);
        let before = passphrase_places(slots, n - 1);
        let now = passphrase_places(slots, n);
        assert forall|k: usize| #[trigger] now.contains(k) <==> k < n && slots[k as int].kind
            == SlotKind::Passphrase by {
            if slots[n - 1].kind == SlotKind::Passphrase {
                if before.contains(k) {
                    let i = choose|i: int| 0 <= i < before.len() && before[i] == k;
                    assert(now[i] == k);
                }
                if k == n - 1 {
                    assert(now[now.len() - 1] == k);
                }
                if now.contains(k) {
                    let i = choose|i: int| 0 <= i < now.len() && now[i] == k;
                    if i < before.len() {
                        assert(before[i] == k);
                    }
                }
            }
        }
        assert forall|i: int, j: int| 0 <= i < j < now.len() implies #[trigger] now[i]
            < #[trigger] now[j] by {
            if j < before.len() {
                assert(before[i] < before[j]);
            } else if slots[n - 1].kind == SlotKind::Passphrase {
                assert(before.contains(before[i]));
            } else {
                assert(before[i] < before[j]);
            }
        }
    }
}

/// Whether a slot of one of these kinds is among the slots.
pub open spec fn rotation_unsupported(k: SlotKind) -> bool {
    match k {
        SlotKind::Fido2DerivedMvk
        | SlotKind::Fido2HmacSecret
        | SlotKind::HybridPqKemPassphrase
        | SlotKind::HybridPqKemFido2
        | SlotKind::HybridPqKem1024Passphrase
        | SlotKind::HybridPqKem1024Fido2 => true,
        _ => false,
    }
}

/// Rotation is offered exactly if there is a passphrase slot, and no FIDO2 slot
/// nor hybrid slot without hardware.
pub proof fn law_rotation_is_offered(slots: Seq<SlotFacts>)
    ensures
        rotate_hint_text(slots) is None <==> {
            &&& exists|i: int|
                0 <= i < slots.len() && (#[trigger] slots[i]).kind == SlotKind::Passphrase
            &&& forall|i: int|
                0 <= i < slots.len() ==> !rotation_unsupported((#[trigger] slots[i]).kind)
        },
{
}

} // verus!
