//! The vocabulary of the application: keyslot kinds, unlock methods, bootstrap
//! kinds, and the fixed texts that name them.

use crate::text::{decimal, decimal_text, join3};
use vstd::prelude::*;

verus! {

/// Operating systems that the application tells apart.
#[derive(Clone, Copy, Debug, PartialEq, Eq, Structural)]
pub enum TargetOs {
    Linux,
    Macos,
    Windows,
    Other,
}

/// What a build of the application can do: the system it runs on, and whether
/// the hardware back ends (FIDO2, TPM, Secure Enclave) are compiled in.
#[derive(Clone, Copy, Debug, PartialEq, Eq, Structural)]
pub struct Platform {
    pub os: TargetOs,
    pub hardware: bool,
}

impl Platform {
    pub open spec fn spec_has_tpm_flow(self) -> bool {
        self.hardware && self.os == TargetOs::Linux
    }

    pub open spec fn spec_has_sep_flow(self) -> bool {
        self.hardware && self.os == TargetOs::Macos
    }

    /// Whether a vault can be created around the TPM of this machine.
    pub fn has_tpm_flow(self) -> (b: bool)
        ensures
            b == self.spec_has_tpm_flow(),
    {
        self.hardware && self.os == TargetOs::Linux
    }

    /// Whether a vault can be created around the Secure Enclave of this machine.
    pub fn has_sep_flow(self) -> (b: bool)
        ensures
            b == self.spec_has_sep_flow(),
    {
        self.hardware && self.os == TargetOs::Macos
    }
}

/// AEAD suites a vault can be encrypted under.
#[derive(Clone, Copy, Debug, PartialEq, Eq, Structural)]
pub enum CipherSuite {
    Aes256Gcm,
    Aes256GcmSiv,
    ChaCha20Poly1305,
}

pub open spec fn cipher_label_text(c: CipherSuite) -> Seq<char> {
    match c {
        CipherSuite::Aes256Gcm => "AES-256-GCM"@,
        CipherSuite::Aes256GcmSiv => "AES-256-GCM-SIV"@,
        CipherSuite::ChaCha20Poly1305 => "ChaCha20-Poly1305"@,
    }
}

/// The name of a cipher suite as shown to the user.
pub fn cipher_label(c: CipherSuite) -> (s: &'static str)
    ensures
        s@ == cipher_label_text(c),
{
    match c {
        CipherSuite::Aes256Gcm => "AES-256-GCM",
        CipherSuite::Aes256GcmSiv => "AES-256-GCM-SIV",
        CipherSuite::ChaCha20Poly1305 => "ChaCha20-Poly1305",
    }
}

pub open spec fn cipher_variant_text(c: CipherSuite) -> Seq<char> {
    match c {
        CipherSuite::Aes256Gcm => "Aes256Gcm"@,
        CipherSuite::Aes256GcmSiv => "Aes256GcmSiv"@,
        CipherSuite::ChaCha20Poly1305 => "ChaCha20Poly1305"@,
    }
}

/// The suite's variant name, which labels a deniable vault.
pub fn cipher_variant(c: CipherSuite) -> (s: &'static str)
    ensures
        s@ == cipher_variant_text(c),
{
    match c {
        CipherSuite::Aes256Gcm => "Aes256Gcm",
        CipherSuite::Aes256GcmSiv => "Aes256GcmSiv",
        CipherSuite::ChaCha20Poly1305 => "ChaCha20Poly1305",
    }
}

/// ML-KEM parameter sets.
#[derive(Clone, Copy, Debug, PartialEq, Eq, Structural)]
pub enum PqParams {
    Ml768,
    Ml1024,
}

pub open spec fn pq_params_text(p: PqParams) -> Seq<char> {
    match p {
        PqParams::Ml768 => "Ml768"@,
        PqParams::Ml1024 => "Ml1024"@,
    }
}

/// The parameter set's variant name, used in diagnostics.
pub fn pq_params_name(p: PqParams) -> (s: &'static str)
    ensures
        s@ == pq_params_text(p),
{
    match p {
        PqParams::Ml768 => "Ml768",
        PqParams::Ml1024 => "Ml1024",
    }
}

/// The parameter set of a create form: anything but 1024 means ML-KEM-768.
pub open spec fn kem_or_768(kem_size: u16) -> PqParams {
    if kem_size == 1024 {
        PqParams::Ml1024
    } else {
        PqParams::Ml768
    }
}

pub fn pq_params_or_768(kem_size: u16) -> (p: PqParams)
    ensures
        p == kem_or_768(kem_size),
{
    if kem_size == 1024 {
        PqParams::Ml1024
    } else {
        PqParams::Ml768
    }
}

/// The refusal of an ML-KEM size that does not exist.
pub open spec fn bad_kem_text(kem_size: u16) -> Seq<char> {
    "unsupported ML-KEM size "@ + decimal(kem_size as nat) + " (use 768 or 1024)"@
}

pub fn bad_kem(kem_size: u16) -> (s: String)
    ensures
        s@ == bad_kem_text(kem_size),
{
    join3("unsupported ML-KEM size ", decimal_text(kem_size as u64).as_str(), " (use 768 or 1024)")
}

/// The parameter set of an enroll request, if the size names one.
pub open spec fn kem_of(kem_size: u16) -> Option<PqParams> {
    if kem_size == 768 {
        Some(PqParams::Ml768)
    } else if kem_size == 1024 {
        Some(PqParams::Ml1024)
    } else {
        None
    }
}

pub fn pq_params(kem_size: u16) -> (p: Option<PqParams>)
    ensures
        p == kem_of(kem_size),
{
    if kem_size == 768 {
        Some(PqParams::Ml768)
    } else if kem_size == 1024 {
        Some(PqParams::Ml1024)
    } else {
        None
    }
}

/// What a keyslot of a vault header is protected by.
#[derive(Clone, Copy, Debug, PartialEq, Eq, Structural)]
pub enum SlotKind {
    Empty,
    Passphrase,
    Fido2HmacSecret,
    Fido2DerivedMvk,
    HybridPqKemPassphrase,
    HybridPqKemFido2,
    HybridPqKem1024Passphrase,
    HybridPqKem1024Fido2,
    Tpm2Sealed,
    Tpm2Fido2,
    Tpm2SealedPin,
    HybridPqKemTpm2,
    HybridPqKemTpm2Fido2,
    HybridPqKem1024Tpm2,
    HybridPqKem1024Tpm2Fido2,
    SepSealed,
    SepSealedBiometric,
    HybridPqKemSep,
    HybridPqKem1024Sep,
    SepFido2,
    HybridPqKemSepFido2,
    HybridPqKem1024SepFido2,
    SepPassphrase,
    HybridPqKemSepPassphrase,
    HybridPqKem1024SepPassphrase,
    SepFido2Passphrase,
    HybridPqKemSepFido2Passphrase,
    HybridPqKem1024SepFido2Passphrase,
}

/// What a slot of a deniable header is protected by, besides its envelope.
#[derive(Clone, Copy, Debug, PartialEq, Eq, Structural)]
pub enum DeniableKindTag {
    Passphrase,
    Fido2Passphrase,
    HybridPqPassphrase,
    HybridPqFido2Passphrase,
    TpmPassphrase,
    TpmFido2Passphrase,
    HybridPqTpmPassphrase,
    HybridPqTpmFido2Passphrase,
    SepPassphrase,
    SepFido2Passphrase,
    HybridPqSepPassphrase,
    HybridPqSepFido2Passphrase,
}

/// The credential a new vault is created with.
#[derive(Clone, Copy, Debug, PartialEq, Eq, Structural)]
pub enum SlotKindArg {
    Passphrase,
    Fido2,
    Fido2Direct,
    /// Hybrid passphrase + ML-KEM-768.
    HybridPq,
    /// Hybrid FIDO2 + ML-KEM-768.
    HybridPqFido2,
    /// Hybrid passphrase + ML-KEM-1024 (NIST category 5).
    HybridPq1024,
    /// Hybrid FIDO2 + ML-KEM-1024 (NIST category 5).
    HybridPq1024Fido2,
}

/// How the user wants to unlock a vault.
#[derive(Clone, Copy, Debug, PartialEq, Eq, Structural)]
pub enum UnlockMethod {
    Passphrase,
    Fido2,
    HybridPq,
    HybridPqFido2,
    /// Any `Tpm2Sealed` slot that the local TPM can unseal.
    Tpm2,
    /// A `Tpm2SealedPin` slot; the PIN goes to the chip.
    Tpm2Pin,
    /// A slot that needs both the local TPM and an authenticator.
    Tpm2Fido2,
    /// A slot that needs the local TPM and the `.kyber` seed.
    HybridPqTpm2,
    /// TPM, authenticator and `.kyber` seed together.
    HybridPqTpm2Fido2,
    /// Any Secure Enclave slot without ML-KEM.
    Sep,
    /// A Secure Enclave slot with ML-KEM.
    HybridPqSep,
    /// Secure Enclave and authenticator (deniable vaults only).
    SepFido2,
    /// Secure Enclave, authenticator and `.kyber` seed (deniable vaults only).
    HybridPqSepFido2,
}

pub open spec fn unlock_method_text(m: UnlockMethod) -> Seq<char> {
    match m {
        UnlockMethod::Passphrase => "Passphrase"@,
        UnlockMethod::Fido2 => "Fido2"@,
        UnlockMethod::HybridPq => "HybridPq"@,
        UnlockMethod::HybridPqFido2 => "HybridPqFido2"@,
        UnlockMethod::Tpm2 => "Tpm2"@,
        UnlockMethod::Tpm2Pin => "Tpm2Pin"@,
        UnlockMethod::Tpm2Fido2 => "Tpm2Fido2"@,
        UnlockMethod::HybridPqTpm2 => "HybridPqTpm2"@,
        UnlockMethod::HybridPqTpm2Fido2 => "HybridPqTpm2Fido2"@,
        UnlockMethod::Sep => "Sep"@,
        UnlockMethod::HybridPqSep => "HybridPqSep"@,
        UnlockMethod::SepFido2 => "SepFido2"@,
        UnlockMethod::HybridPqSepFido2 => "HybridPqSepFido2"@,
    }
}

/// The method's variant name, used in diagnostics.
pub fn unlock_method_name(m: UnlockMethod) -> (s: &'static str)
    ensures
        s@ == unlock_method_text(m),
{
    match m {
        UnlockMethod::Passphrase => "Passphrase",
        UnlockMethod::Fido2 => "Fido2",
        UnlockMethod::HybridPq => "HybridPq",
        UnlockMethod::HybridPqFido2 => "HybridPqFido2",
        UnlockMethod::Tpm2 => "Tpm2",
        UnlockMethod::Tpm2Pin => "Tpm2Pin",
        UnlockMethod::Tpm2Fido2 => "Tpm2Fido2",
        UnlockMethod::HybridPqTpm2 => "HybridPqTpm2",
        UnlockMethod::HybridPqTpm2Fido2 => "HybridPqTpm2Fido2",
        UnlockMethod::Sep => "Sep",
        UnlockMethod::HybridPqSep => "HybridPqSep",
        UnlockMethod::SepFido2 => "SepFido2",
        UnlockMethod::HybridPqSepFido2 => "HybridPqSepFido2",
    }
}

/// Argon2id strength presets.
#[derive(Clone, Copy, Debug, PartialEq, Eq, Structural)]
pub enum KdfStrength {
    Interactive,
    Moderate,
    Sensitive,
}

pub open spec fn kdf_label_text(k: KdfStrength) -> Seq<char> {
    match k {
        KdfStrength::Interactive => "Interactive, 256 MiB / 3 iter (about 500 ms)"@,
        KdfStrength::Moderate => "Moderate, 512 MiB / 4 iter (about 1.5 s)"@,
        KdfStrength::Sensitive => "Sensitive, 1 GiB / 5 iter (about 3-4 s)"@,
    }
}

impl KdfStrength {
    /// The preset as shown in the strength selector.
    pub fn label(self) -> (s: &'static str)
        ensures
            s@ == kdf_label_text(self),
    {
        match self {
            KdfStrength::Interactive => "Interactive, 256 MiB / 3 iter (about 500 ms)",
            KdfStrength::Moderate => "Moderate, 512 MiB / 4 iter (about 1.5 s)",
            KdfStrength::Sensitive => "Sensitive, 1 GiB / 5 iter (about 3-4 s)",
        }
    }
}

/// The TPM-bound keyslot that a TPM bootstrap adds.
pub enum TpmBootstrapKind {
    Tpm2,
    Tpm2Pin { pin: String },
    Tpm2Fido2 { pin: String },
    HybridPqTpm2 { kyber_path: String, seed_pw: String, kem_size: u16 },
    HybridPqTpm2Fido2 { kyber_path: String, seed_pw: String, pin: String, kem_size: u16 },
}

/// Which extra factors a fused Secure Enclave keyslot binds besides the
/// enclave itself.
#[derive(Clone, Copy, Debug, PartialEq, Eq, Structural)]
pub enum SepFactors {
    /// Secure Enclave + authenticator.
    Fido2,
    /// Secure Enclave + passphrase.
    Passphrase,
    /// Secure Enclave + authenticator + passphrase.
    Fido2Passphrase,
}

impl SepFactors {
    pub open spec fn binds_fido2(self) -> bool {
        self == SepFactors::Fido2 || self == SepFactors::Fido2Passphrase
    }

    pub open spec fn binds_passphrase(self) -> bool {
        self == SepFactors::Passphrase || self == SepFactors::Fido2Passphrase
    }

    pub fn has_fido2(self) -> (b: bool)
        ensures
            b == self.binds_fido2(),
    {
        matches!(self, SepFactors::Fido2 | SepFactors::Fido2Passphrase)
    }

    pub fn has_passphrase(self) -> (b: bool)
        ensures
            b == self.binds_passphrase(),
    {
        matches!(self, SepFactors::Passphrase | SepFactors::Fido2Passphrase)
    }

    /// The keyslot kind of this factor set at a given ML-KEM strength.
    pub open spec fn fused_kind(self, kem: Option<PqParams>) -> SlotKind {
        match (self, kem) {
            (SepFactors::Fido2, None) => SlotKind::SepFido2,
            (SepFactors::Passphrase, None) => SlotKind::SepPassphrase,
            (SepFactors::Fido2Passphrase, None) => SlotKind::SepFido2Passphrase,
            (SepFactors::Fido2, Some(PqParams::Ml768)) => SlotKind::HybridPqKemSepFido2,
            (SepFactors::Fido2, Some(PqParams::Ml1024)) => SlotKind::HybridPqKem1024SepFido2,
            (SepFactors::Passphrase, Some(PqParams::Ml768)) => SlotKind::HybridPqKemSepPassphrase,
            (
                SepFactors::Passphrase,
                Some(PqParams::Ml1024),
            ) => SlotKind::HybridPqKem1024SepPassphrase,
            (
                SepFactors::Fido2Passphrase,
                Some(PqParams::Ml768),
            ) => SlotKind::HybridPqKemSepFido2Passphrase,
            (
                SepFactors::Fido2Passphrase,
                Some(PqParams::Ml1024),
            ) => SlotKind::HybridPqKem1024SepFido2Passphrase,
        }
    }

    /// The keyslot kind for this factor set and an optional ML-KEM size. A size
    /// other than 768 and 1024 is refused.
    pub fn slot_kind(self, kem_size: Option<u16>) -> (r: Result<SlotKind, String>)
        ensures
            match kem_size {
                None => r == Ok::<SlotKind, String>(self.fused_kind(None)),
                Some(n) => match kem_of(n) {
                    Some(p) => r == Ok::<SlotKind, String>(self.fused_kind(Some(p))),
                    None => r matches Err(e) && e@ == bad_kem_text(n),
                },
            },
    {
        match kem_size {
            None => match self {
                SepFactors::Fido2 => Ok(SlotKind::SepFido2),
                SepFactors::Passphrase => Ok(SlotKind::SepPassphrase),
                SepFactors::Fido2Passphrase => Ok(SlotKind::SepFido2Passphrase),
            },
            Some(n) => {
                if n == 768 {
                    match self {
                        SepFactors::Fido2 => Ok(SlotKind::HybridPqKemSepFido2),
                        SepFactors::Passphrase => Ok(SlotKind::HybridPqKemSepPassphrase),
                        SepFactors::Fido2Passphrase => Ok(SlotKind::HybridPqKemSepFido2Passphrase),
                    }
                } else if n == 1024 {
                    match self {
                        SepFactors::Fido2 => Ok(SlotKind::HybridPqKem1024SepFido2),
                        SepFactors::Passphrase => Ok(SlotKind::HybridPqKem1024SepPassphrase),
                        SepFactors::Fido2Passphrase => Ok(
                            SlotKind::HybridPqKem1024SepFido2Passphrase,
                        ),
                    }
                } else {
                    Err(bad_kem(n))
                }
            },
        }
    }
}

/// The Secure Enclave keyslot that a Secure Enclave bootstrap adds.
#[allow(inconsistent_fields)]
pub enum SepBootstrapKind {
    /// No prompt at unlock.
    Sep,
    /// Touch ID at every unlock.
    SepBiometric,
    /// Secure Enclave + ML-KEM.
    HybridPqSep { kyber_path: String, seed_pw: String, kem_size: u16 },
    /// Secure Enclave fused with further factors, with or without ML-KEM.
    SepFused {
        factors: SepFactors,
        kem_size: Option<u16>,
        pin: String,
        passphrase: String,
        kyber_path: Option<String>,
        seed_pw: String,
    },
}

/// Distinct factor sets and strengths give distinct keyslot kinds, so a slot's
/// kind alone says which factors it binds.
pub proof fn law_fused_kinds_are_distinct(
    a: SepFactors,
    ka: Option<PqParams>,
    b: SepFactors,
    kb: Option<PqParams>,
)
    ensures
        a.fused_kind(ka) == b.fused_kind(kb) ==> a == b && ka == kb,
{
}

} // verus!
