//! What the texts about keyslots say of them.

use crate::kinds::{PqParams, SlotKind};
use crate::slots::{
    PillTone, SlotFacts, active_slots, hex, hex_digit, pill_text, revoke_text, slot_label_text,
    slot_lines, tone_of,
};
use crate::text::decimal;
use vstd::prelude::*;

verus! {

/// What a keyslot is bound to, in the words of its label: what it stands on, what
/// comes besides, and the strength of its ML-KEM part.
pub struct Binding {
    pub base: Seq<char>,
    pub fido2: bool,
    pub passphrase: bool,
    pub kem: Option<PqParams>,
}

/// What each kind of keyslot is bound to.
pub open spec fn binding(k: SlotKind) -> Binding {
    let none = Binding { base: ""@, fido2: false, passphrase: false, kem: None };
    let tpm = Binding { base: "TPM 2.0"@, ..none };
    let sep = Binding { base: "Secure Enclave"@, ..none };
    let small = Some(PqParams::Ml768);
    let large = Some(PqParams::Ml1024);
    match k {
        SlotKind::Empty => Binding { base: "empty"@, ..none },
        SlotKind::Passphrase => Binding { base: "passphrase"@, ..none },
        SlotKind::Fido2HmacSecret => Binding { base: "FIDO2 (wrap)"@, ..none },
        SlotKind::Fido2DerivedMvk => Binding { base: "FIDO2-direct"@, ..none },
        SlotKind::HybridPqKemPassphrase => Binding { base: "passphrase"@, kem: small, ..none },
        SlotKind::HybridPqKemFido2 => Binding { base: "FIDO2"@, kem: small, ..none },
        SlotKind::HybridPqKem1024Passphrase => Binding { base: "passphrase"@, kem: large, ..none },
        SlotKind::HybridPqKem1024Fido2 => Binding { base: "FIDO2"@, kem: large, ..none },
        SlotKind::Tpm2Sealed => tpm,
        SlotKind::Tpm2Fido2 => Binding { fido2: true, ..tpm },
        SlotKind::Tpm2SealedPin => Binding { base: "TPM 2.0 + PIN"@, ..none },
        SlotKind::HybridPqKemTpm2 => Binding { kem: small, ..tpm },
        SlotKind::HybridPqKemTpm2Fido2 => Binding { fido2: true, kem: small, ..tpm },
        SlotKind::HybridPqKem1024Tpm2 => Binding { kem: large, ..tpm },
        SlotKind::HybridPqKem1024Tpm2Fido2 => Binding { fido2: true, kem: large, ..tpm },
        SlotKind::SepSealed => sep,
        SlotKind::SepSealedBiometric => Binding { base: "Secure Enclave + biometry"@, ..none },
        SlotKind::HybridPqKemSep => Binding { kem: small, ..sep },
        SlotKind::HybridPqKem1024Sep => Binding { kem: large, ..sep },
        SlotKind::SepFido2 => Binding { fido2: true, ..sep },
        SlotKind::HybridPqKemSepFido2 => Binding { fido2: true, kem: small, ..sep },
        SlotKind::HybridPqKem1024SepFido2 => Binding { fido2: true, kem: large, ..sep },
        SlotKind::SepPassphrase => Binding { passphrase: true, ..sep },
        SlotKind::HybridPqKemSepPassphrase => Binding { passphrase: true, kem: small, ..sep },
        SlotKind::HybridPqKem1024SepPassphrase => Binding { passphrase: true, kem: large, ..sep },
        SlotKind::SepFido2Passphrase => Binding { fido2: true, passphrase: true, ..sep },
        SlotKind::HybridPqKemSepFido2Passphrase => Binding {
            fido2: true,
            passphrase: true,
            kem: small,
            ..sep
        },
        SlotKind::HybridPqKem1024SepFido2Passphrase => Binding {
            fido2: true,
            passphrase: true,
            kem: large,
            ..sep
        },
    }
}

/// A binding in words, its parts joined by plus signs.
pub open spec fn in_words(b: Binding) -> Seq<char> {
    let a = if b.fido2 {
        b.base + " + FIDO2"@
    } else {
        b.base
    };
    let c = if b.passphrase {
        a + " + passphrase"@
    } else {
        a
    };
    match b.kem {
        Some(PqParams::Ml768) => c + " + ML-KEM-768"@,
        Some(PqParams::Ml1024) => c + " + ML-KEM-1024"@,
        None => c,
    }
}

/// The label of a keyslot names every part that it is bound to, and no other.
pub proof fn law_label_names_what_the_slot_binds(k: SlotKind)
    ensures
        slot_label_text(k) == in_words(binding(k)),
{
    reveal_strlit(" + FIDO2");
    reveal_strlit(" + passphrase");
    reveal_strlit(" + ML-KEM-768");
    reveal_strlit(" + ML-KEM-1024");
    reveal_strlit("passphrase");
    reveal_strlit("FIDO2");
    reveal_strlit("TPM 2.0");
    reveal_strlit("Secure Enclave");
    match k {
        SlotKind::HybridPqKemPassphrase => reveal_strlit("passphrase + ML-KEM-768"),
        SlotKind::HybridPqKemFido2 => reveal_strlit("FIDO2 + ML-KEM-768"),
        SlotKind::HybridPqKem1024Passphrase => reveal_strlit("passphrase + ML-KEM-1024"),
        SlotKind::HybridPqKem1024Fido2 => reveal_strlit("FIDO2 + ML-KEM-1024"),
        SlotKind::Tpm2Fido2 => reveal_strlit("TPM 2.0 + FIDO2"),
        SlotKind::HybridPqKemTpm2 => reveal_strlit("TPM 2.0 + ML-KEM-768"),
        SlotKind::HybridPqKemTpm2Fido2 => reveal_strlit("TPM 2.0 + FIDO2 + ML-KEM-768"),
        SlotKind::HybridPqKem1024Tpm2 => reveal_strlit("TPM 2.0 + ML-KEM-1024"),
        SlotKind::HybridPqKem1024Tpm2Fido2 => reveal_strlit("TPM 2.0 + FIDO2 + ML-KEM-1024"),
        SlotKind::HybridPqKemSep => reveal_strlit("Secure Enclave + ML-KEM-768"),
        SlotKind::HybridPqKem1024Sep => reveal_strlit("Secure Enclave + ML-KEM-1024"),
        SlotKind::SepFido2 => reveal_strlit("Secure Enclave + FIDO2"),
        SlotKind::HybridPqKemSepFido2 => reveal_strlit("Secure Enclave + FIDO2 + ML-KEM-768"),
        SlotKind::HybridPqKem1024SepFido2 => reveal_strlit("Secure Enclave + FIDO2 + ML-KEM-1024"),
        SlotKind::SepPassphrase => reveal_strlit("Secure Enclave + passphrase"),
        SlotKind::HybridPqKemSepPassphrase => reveal_strlit(
            "Secure Enclave + passphrase + ML-KEM-768",
        ),
        SlotKind::HybridPqKem1024SepPassphrase => reveal_strlit(
            "Secure Enclave + passphrase + ML-KEM-1024",
        ),
        SlotKind::SepFido2Passphrase => reveal_strlit("Secure Enclave + FIDO2 + passphrase"),
        SlotKind::HybridPqKemSepFido2Passphrase => reveal_strlit(
            "Secure Enclave + FIDO2 + passphrase + ML-KEM-768",
        ),
        SlotKind::HybridPqKem1024SepFido2Passphrase => reveal_strlit(
            "Secure Enclave + FIDO2 + passphrase + ML-KEM-1024",
        ),
        _ => {},
    }
    assert(slot_label_text(k) =~= in_words(binding(k)));
}

/// A keyslot with an ML-KEM part is marked as a thing to look after; of the
/// others, an empty one is faint, a passphrase dim, and one that needs a device
/// stands out.
pub proof fn law_tone_follows_the_binding(k: SlotKind)
    ensures
        tone_of(k) == PillTone::Warn <==> binding(k).kem is Some,
        tone_of(k) == PillTone::Faint <==> k == SlotKind::Empty,
        tone_of(k) == PillTone::Dim <==> k == SlotKind::Passphrase,
{
}

/// The slots in use are listed one by one, in order, each with its number and its
/// label, and the empty ones are left out.
pub proof fn law_slots_in_use_are_listed(slots: Seq<SlotFacts>, n: int)
    requires
        0 <= n <= slots.len(),
    ensures
        n == 0 ==> slot_lines(slots, n).len() == 0,
        n > 0 && slots[n - 1].kind == SlotKind::Empty ==> slot_lines(slots, n) == slot_lines(
            slots,
            n - 1,
        ),
        n > 0 && slots[n - 1].kind != SlotKind::Empty ==> slot_lines(slots, n) == slot_lines(
            slots,
            n - 1,
        ).push("slot "@ + decimal((n - 1) as nat) + ": "@ + in_words(binding(slots[n - 1].kind))),
        slot_lines(slots, n).len() == active_slots(slots.take(n)),
    decreases n,
{
    let pred = |s: SlotFacts| s.kind != SlotKind::Empty;
    if n > 0 {
        law_slots_in_use_are_listed(slots, n - 1);
        law_label_names_what_the_slot_binds(slots[n - 1].kind);
        assert(slots.take(n).drop_last() =~= slots.take(n - 1));
        assert(slots.take(n).last() == slots[n - 1]);
        assert(slot_lines(slots, n).len() == active_slots(slots.take(n))) by {
            reveal(Seq::filter);
        }
    } else {
        assert(slots.take(0).filter(pred).len() == 0) by {
            reveal(Seq::filter);
        }
    }
}

/// The value of a hexadecimal digit.
pub open spec fn hex_value(c: char) -> int {
    if '0' <= c <= '9' {
        c as int - '0' as int
    } else if 'a' <= c <= 'f' {
        c as int - 'a' as int + 10
    } else {
        -1
    }
}

/// Whether two hexadecimal digits stand for a byte.
pub open spec fn stand_for(high: char, low: char, b: u8) -> bool {
    &&& 0 <= hex_value(high) < 16 && 0 <= hex_value(low) < 16
    &&& 16 * hex_value(high) + hex_value(low) == b
}

/// Each byte is written as two hexadecimal digits, the higher one first.
pub proof fn law_hex_stands_for_the_bytes(bytes: Seq<u8>)
    ensures
        hex(bytes).len() == 2 * bytes.len(),
        forall|i: int|
            #![trigger bytes[i]]
            0 <= i < bytes.len() ==> stand_for(hex(bytes)[2 * i], hex(bytes)[2 * i + 1], bytes[i]),
    decreases bytes.len(),
{
    if bytes.len() > 0 {
        let head = bytes.drop_last();
        law_hex_stands_for_the_bytes(head);
        let n = head.len() as int;
        let b = bytes.last() as int;
        assert(hex_value(hex_digit(b / 16)) == b / 16);
        assert(hex_value(hex_digit(b % 16)) == b % 16);
        assert(b == 16 * (b / 16) + b % 16);
        assert forall|i: int| #![trigger bytes[i]] 0 <= i < bytes.len() implies stand_for(
            hex(bytes)[2 * i],
            hex(bytes)[2 * i + 1],
            bytes[i],
        ) by {
            if i < n {
                assert(head[i] == bytes[i]);
                assert(hex(bytes)[2 * i] == hex(head)[2 * i]);
                assert(hex(bytes)[2 * i + 1] == hex(head)[2 * i + 1]);
            } else {
                assert(hex(bytes)[2 * n] == hex_digit(b / 16));
                assert(hex(bytes)[2 * n + 1] == hex_digit(b % 16));
            }
        }
    }
}

/// What follows in a text that names the strength of ML-KEM.
pub open spec fn strength_of(kem: PqParams) -> Seq<char> {
    match kem {
        PqParams::Ml768 => "768"@,
        PqParams::Ml1024 => "1024"@,
    }
}

/// The short tag of a slot with ML-KEM names its strength behind what else it is
/// bound to, and is the same for both strengths but for that.
pub proof fn law_tags_name_the_strength(kem: PqParams)
    ensures
        ({
            let k = strength_of(kem);
            let large = kem == PqParams::Ml1024;
            &&& pill_text(
                if large {
                    SlotKind::HybridPqKem1024Passphrase
                } else {
                    SlotKind::HybridPqKemPassphrase
                },
            ) == "hybrid-pq ("@ + k + ")"@
            &&& pill_text(
                if large {
                    SlotKind::HybridPqKem1024Fido2
                } else {
                    SlotKind::HybridPqKemFido2
                },
            ) == "hybrid-pq-fido2 ("@ + k + ")"@
            &&& pill_text(
                if large {
                    SlotKind::HybridPqKem1024Tpm2
                } else {
                    SlotKind::HybridPqKemTpm2
                },
            ) == "tpm2 + ML-KEM-"@ + k
            &&& pill_text(
                if large {
                    SlotKind::HybridPqKem1024Tpm2Fido2
                } else {
                    SlotKind::HybridPqKemTpm2Fido2
                },
            ) == "tpm2 + fido2 + ML-KEM-"@ + k
            &&& revoke_text(
                if large {
                    SlotKind::HybridPqKem1024Tpm2
                } else {
                    SlotKind::HybridPqKemTpm2
                },
            ) == "hybrid TPM 2.0 + ML-KEM-"@ + k
            &&& revoke_text(
                if large {
                    SlotKind::HybridPqKem1024Tpm2Fido2
                } else {
                    SlotKind::HybridPqKemTpm2Fido2
                },
            ) == "hybrid TPM 2.0 + FIDO2 + ML-KEM-"@ + k
        }),
{
    reveal_strlit("768");
    reveal_strlit("1024");
    reveal_strlit(")");
    reveal_strlit("hybrid-pq (");
    reveal_strlit("hybrid-pq-fido2 (");
    reveal_strlit("tpm2 + ML-KEM-");
    reveal_strlit("tpm2 + fido2 + ML-KEM-");
    reveal_strlit("hybrid TPM 2.0 + ML-KEM-");
    reveal_strlit("hybrid TPM 2.0 + FIDO2 + ML-KEM-");
    reveal_strlit("hybrid-pq (768)");
    reveal_strlit("hybrid-pq (1024)");
    reveal_strlit("hybrid-pq-fido2 (768)");
    reveal_strlit("hybrid-pq-fido2 (1024)");
    reveal_strlit("tpm2 + ML-KEM-768");
    reveal_strlit("tpm2 + ML-KEM-1024");
    reveal_strlit("tpm2 + fido2 + ML-KEM-768");
    reveal_strlit("tpm2 + fido2 + ML-KEM-1024");
    reveal_strlit("hybrid TPM 2.0 + ML-KEM-768");
    reveal_strlit("hybrid TPM 2.0 + ML-KEM-1024");
    reveal_strlit("hybrid TPM 2.0 + FIDO2 + ML-KEM-768");
    reveal_strlit("hybrid TPM 2.0 + FIDO2 + ML-KEM-1024");
}

/// The tag and the revoke dialog name an enclave slot by its label.
pub proof fn law_enclave_slots_go_by_their_label(k: SlotKind)
    requires
        binding(k).base == "Secure Enclave"@ || k == SlotKind::SepSealedBiometric,
    ensures
        pill_text(k) == in_words(binding(k)),
        revoke_text(k) == in_words(binding(k)),
{
    law_label_names_what_the_slot_binds(k);
    reveal_strlit("Secure Enclave");
    reveal_strlit("empty");
    reveal_strlit("passphrase");
    reveal_strlit("FIDO2 (wrap)");
    reveal_strlit("FIDO2-direct");
    reveal_strlit("FIDO2");
    reveal_strlit("TPM 2.0");
    reveal_strlit("TPM 2.0 + PIN");
}

} // verus!
