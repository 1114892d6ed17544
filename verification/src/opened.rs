//! What the application remembers of an open vault.

use crate::kinds::{CipherSuite, SepBootstrapKind, TpmBootstrapKind, cipher_label, cipher_label_text, cipher_variant, cipher_variant_text};
use crate::slots::{SlotFacts, header_has_fido2, header_has_hybrid_pq, header_has_tpm, is_fido2_kind};
use crate::paths::{format_size, size_text};
use crate::text::{join2, join3, texts};
use vstd::prelude::*;

verus! {

/// The credential of a deniable authenticator slot, for the user to keep.
pub struct DeniableFido2RecoveryInfo {
    /// The credential id that the authenticator returned.
    pub cred_id: Vec<u8>,
    /// The hmac-secret salt of the enrollment.
    pub hmac_salt: [u8; 32],
}

/// A file whose contents could not be recovered: a tolerant open shows it empty.
pub struct ToleratedInode {
    pub path: String,
    /// How long the file was.
    pub original_size: u64,
}

/// An open vault, without its file system.
pub struct OpenedVault {
    pub vault_path: String,
    pub header_path: Option<String>,
    pub anchor_path: Option<String>,
    pub cipher_label: String,
    pub has_fido2: bool,
    pub has_hybrid_pq: bool,
    pub has_tpm: bool,
    pub deniable_fido2_recovery: Option<DeniableFido2RecoveryInfo>,
    pub deniable_tpm_blob_path: Option<String>,
    /// What a tolerant open has passed over; empty for another.
    pub tolerated_inodes: Vec<ToleratedInode>,
}

/// How a vault came to be open.
#[allow(inconsistent_fields)]
pub enum OpenedBy {
    /// Created or unlocked with a header that can be read.
    Header,
    /// Created with a single TPM slot.
    TpmOnly { deniable: bool },
    /// Created with a passphrase to which a TPM slot was added.
    TpmBootstrap,
    /// Created as a deniable vault with TPM factors.
    TpmDeniable { kind: TpmBootstrapKind },
    /// Created with a single enclave slot.
    SepOnly,
    /// Created as a deniable vault with an enclave slot.
    SepDeniable { kind: SepBootstrapKind },
    /// Unlocked in deniable mode.
    DeniableUnlock,
}

/// The kinds of key that protect an open vault.
#[derive(Clone, Copy, Debug, PartialEq, Eq, Structural)]
pub struct VaultFlags {
    pub has_fido2: bool,
    pub has_hybrid_pq: bool,
    pub has_tpm: bool,
}

impl OpenedVault {
    pub open spec fn flags(self) -> VaultFlags {
        VaultFlags {
            has_fido2: self.has_fido2,
            has_hybrid_pq: self.has_hybrid_pq,
            has_tpm: self.has_tpm,
        }
    }
}

pub open spec fn header_flags(slots: Seq<SlotFacts>) -> VaultFlags {
    VaultFlags {
        has_fido2: exists|i: int| 0 <= i < slots.len() && is_fido2_kind((#[trigger] slots[i]).kind),
        has_hybrid_pq: exists|i: int| 0 <= i < slots.len() && (#[trigger] slots[i]).hybrid_pq,
        has_tpm: exists|i: int| 0 <= i < slots.len() && (#[trigger] slots[i]).tpm2,
    }
}

fn header_flags_of(slots: &Vec<SlotFacts>) -> (f: VaultFlags)
    ensures
        f == header_flags(slots@),
{
    VaultFlags {
        has_fido2: header_has_fido2(slots),
        has_hybrid_pq: header_has_hybrid_pq(slots),
        has_tpm: header_has_tpm(slots),
    }
}

/// Whether a deniable enclave vault has ML-KEM files.
pub open spec fn sep_has_pq(kind: SepBootstrapKind) -> bool {
    match kind {
        SepBootstrapKind::Sep | SepBootstrapKind::SepBiometric => false,
        SepBootstrapKind::HybridPqSep { .. } => true,
        SepBootstrapKind::SepFused { kem_size, .. } => kem_size is Some,
    }
}

/// The flags of a vault just opened. `slots` is its header as it was then.
pub open spec fn opened_flags(by: OpenedBy, slots: Seq<SlotFacts>) -> VaultFlags {
    let header = header_flags(slots);
    match by {
        OpenedBy::Header => header,
        OpenedBy::TpmOnly { deniable } => VaultFlags {
            has_tpm: header.has_tpm || deniable,
            ..header
        },
        OpenedBy::TpmBootstrap => VaultFlags { has_tpm: true, ..header },
        OpenedBy::TpmDeniable { kind } => VaultFlags {
            has_fido2: false,
            has_hybrid_pq: kind is HybridPqTpm2 || kind is HybridPqTpm2Fido2,
            has_tpm: true,
        },
        OpenedBy::SepOnly => VaultFlags { has_fido2: false, has_hybrid_pq: false, has_tpm: false },
        OpenedBy::SepDeniable { kind } => VaultFlags {
            has_fido2: kind is SepFused,
            has_hybrid_pq: sep_has_pq(kind),
            has_tpm: false,
        },
        OpenedBy::DeniableUnlock => VaultFlags {
            has_fido2: false,
            has_hybrid_pq: false,
            has_tpm: false,
        },
    }
}

fn opened_flags_of(by: &OpenedBy, slots: &Vec<SlotFacts>) -> (f: VaultFlags)
    ensures
        f == opened_flags(*by, slots@),
{
    let header = header_flags_of(slots);
    match by {
        OpenedBy::Header => header,
        OpenedBy::TpmOnly { deniable } => VaultFlags {
            has_fido2: header.has_fido2,
            has_hybrid_pq: header.has_hybrid_pq,
            has_tpm: header.has_tpm || *deniable,
        },
        OpenedBy::TpmBootstrap => VaultFlags {
            has_fido2: header.has_fido2,
            has_hybrid_pq: header.has_hybrid_pq,
            has_tpm: true,
        },
        OpenedBy::TpmDeniable { kind } => VaultFlags {
            has_fido2: false,
            has_hybrid_pq: match kind {
                TpmBootstrapKind::HybridPqTpm2 { .. } => true,
                TpmBootstrapKind::HybridPqTpm2Fido2 { .. } => true,
                _ => false,
            },
            has_tpm: true,
        },
        OpenedBy::SepOnly => VaultFlags { has_fido2: false, has_hybrid_pq: false, has_tpm: false },
        OpenedBy::SepDeniable { kind } => match kind {
            SepBootstrapKind::Sep => VaultFlags {
                has_fido2: false,
                has_hybrid_pq: false,
                has_tpm: false,
            },
            SepBootstrapKind::SepBiometric => VaultFlags {
                has_fido2: false,
                has_hybrid_pq: false,
                has_tpm: false,
            },
            SepBootstrapKind::HybridPqSep { .. } => VaultFlags {
                has_fido2: false,
                has_hybrid_pq: true,
                has_tpm: false,
            },
            SepBootstrapKind::SepFused { kem_size, .. } => VaultFlags {
                has_fido2: true,
                has_hybrid_pq: kem_size.is_some(),
                has_tpm: false,
            },
        },
        OpenedBy::DeniableUnlock => VaultFlags {
            has_fido2: false,
            has_hybrid_pq: false,
            has_tpm: false,
        },
    }
}

/// How the cipher of an open vault is shown.
pub open spec fn opened_cipher_text(by: OpenedBy, cipher: CipherSuite) -> Seq<char> {
    if by is DeniableUnlock {
        cipher_variant_text(cipher) + " (deniable)"@
    } else {
        cipher_label_text(cipher)
    }
}

/// What a tolerant open reports: each file it has passed over, and how long the
/// file was.
pub open spec fn report_of(passed: Seq<ToleratedInode>) -> Seq<Seq<char>> {
    Seq::new(
        passed.len(),
        |i: int| passed[i].path@ + " ("@ + size_text(passed[i].original_size as nat) + ")"@,
    )
}

impl OpenedVault {
    /// The lines of the recovery report; none if nothing was passed over.
    pub fn recovery_report(&self) -> (lines: Vec<String>)
        ensures
            texts(lines@) == report_of(self.tolerated_inodes@),
    {
        let passed = &self.tolerated_inodes;
        let mut lines: Vec<String> = Vec::new();
        let mut i: usize = 0;
        assert(texts(lines@) =~= report_of(passed@).take(0));
        while i < passed.len()
            invariant
                i <= passed@.len(),
                texts(lines@) == report_of(passed@).take(i as int),
            decreases passed.len() - i,
        {
            let ghost before = lines@;
            let size = format_size(passed[i].original_size);
            let mut line = join3(passed[i].path.as_str(), " (", size.as_str());
            line.append(")");
            lines.push(line);
            i = i + 1;
            assert(texts(lines@) =~= texts(before).push(report_of(passed@)[i - 1]));
            assert(texts(lines@) =~= report_of(passed@).take(i as int));
        }
        assert(report_of(passed@).take(i as int) =~= report_of(passed@));
        lines
    }
}

/// The record of a vault just opened. `passed` is what a tolerant open has
/// passed over.
pub fn opened_vault(
    by: OpenedBy,
    slots: &Vec<SlotFacts>,
    cipher: CipherSuite,
    vault_path: String,
    header_path: Option<String>,
    anchor_path: Option<String>,
    passed: Vec<ToleratedInode>,
) -> (v: OpenedVault)
    ensures
        v.vault_path == vault_path,
        v.header_path == header_path,
        v.anchor_path == anchor_path,
        v.cipher_label@ == opened_cipher_text(by, cipher),
        v.flags() == opened_flags(by, slots@),
        v.deniable_fido2_recovery is None,
        v.deniable_tpm_blob_path is None,
        v.tolerated_inodes == passed,
{
    let f = opened_flags_of(&by, slots);
    let label = match by {
        OpenedBy::DeniableUnlock => join2(cipher_variant(cipher), " (deniable)"),
        _ => cipher_label(cipher).to_owned(),
    };
    OpenedVault {
        vault_path,
        header_path,
        anchor_path,
        cipher_label: label,
        has_fido2: f.has_fido2,
        has_hybrid_pq: f.has_hybrid_pq,
        has_tpm: f.has_tpm,
        deniable_fido2_recovery: None,
        deniable_tpm_blob_path: None,
        tolerated_inodes: passed,
    }
}

} // verus!
