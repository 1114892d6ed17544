//! The forms for creating and for unlocking a vault, and what submitting them
//! leads to.
//!
//! Secrets move out of a form when it is submitted, so that no copy of them
//! stays behind.

use crate::kinds::{CipherSuite, KdfStrength, SlotKindArg, TpmBootstrapKind};
use crate::requests::CreateOpts;
use crate::text::{trim, trimmed};
use vstd::prelude::*;
use vstd::string::*;

verus! {

/// The broad kind of key, picked before the exact variant.
#[derive(Clone, Copy, Debug, PartialEq, Eq, Structural)]
pub enum Factor {
    Passphrase,
    Fido2,
    Tpm2,
}

impl Factor {
    pub fn label(self) -> (s: &'static str)
        ensures
            s@ == (match self {
                Factor::Passphrase => "Passphrase only"@,
                Factor::Fido2 => "FIDO2 authenticator"@,
                Factor::Tpm2 => "TPM 2.0 (this machine)"@,
            }),
    {
        match self {
            Factor::Passphrase => "Passphrase only",
            Factor::Fido2 => "FIDO2 authenticator",
            Factor::Tpm2 => "TPM 2.0 (this machine)",
        }
    }

    pub open spec fn simplest_spec(self) -> CreateKind {
        match self {
            Factor::Passphrase => CreateKind::Passphrase,
            Factor::Fido2 => CreateKind::Fido2,
            Factor::Tpm2 => CreateKind::Tpm2,
        }
    }

    /// The variant that is selected when the user switches to this factor.
    pub fn simplest(self) -> (k: CreateKind)
        ensures
            k == self.simplest_spec(),
    {
        match self {
            Factor::Passphrase => CreateKind::Passphrase,
            Factor::Fido2 => CreateKind::Fido2,
            Factor::Tpm2 => CreateKind::Tpm2,
        }
    }
}

/// The variants of key that a vault can be created with.
#[derive(Clone, Copy, Debug, PartialEq, Eq, Structural)]
pub enum CreateKind {
    Passphrase,
    Fido2,
    Fido2Direct,
    HybridPq,
    HybridPqFido2,
    HybridPq1024,
    HybridPq1024Fido2,
    /// The TPM kinds keep the passphrase as a backup, so that a dead chip does
    /// not take the vault with it.
    Tpm2,
    /// The PIN goes to the chip.
    Tpm2Pin,
    /// The PIN goes to the authenticator.
    Tpm2Fido2,
    HybridPqTpm2,
    HybridPq1024Tpm2,
    HybridPqTpm2Fido2,
    HybridPq1024Tpm2Fido2,
}

impl CreateKind {
    pub open spec fn arg(self) -> SlotKindArg {
        match self {
            CreateKind::Fido2 => SlotKindArg::Fido2,
            CreateKind::Fido2Direct => SlotKindArg::Fido2Direct,
            CreateKind::HybridPq => SlotKindArg::HybridPq,
            CreateKind::HybridPqFido2 => SlotKindArg::HybridPqFido2,
            CreateKind::HybridPq1024 => SlotKindArg::HybridPq1024,
            CreateKind::HybridPq1024Fido2 => SlotKindArg::HybridPq1024Fido2,
            _ => SlotKindArg::Passphrase,
        }
    }

    /// The kind of the first keyslot. The TPM kinds start out as passphrase
    /// vaults.
    pub fn to_arg(self) -> (a: SlotKindArg)
        ensures
            a == self.arg(),
    {
        match self {
            CreateKind::Fido2 => SlotKindArg::Fido2,
            CreateKind::Fido2Direct => SlotKindArg::Fido2Direct,
            CreateKind::HybridPq => SlotKindArg::HybridPq,
            CreateKind::HybridPqFido2 => SlotKindArg::HybridPqFido2,
            CreateKind::HybridPq1024 => SlotKindArg::HybridPq1024,
            CreateKind::HybridPq1024Fido2 => SlotKindArg::HybridPq1024Fido2,
            _ => SlotKindArg::Passphrase,
        }
    }

    pub open spec fn tpm(self) -> bool {
        match self {
            CreateKind::Tpm2
            | CreateKind::Tpm2Pin
            | CreateKind::Tpm2Fido2
            | CreateKind::HybridPqTpm2
            | CreateKind::HybridPq1024Tpm2
            | CreateKind::HybridPqTpm2Fido2
            | CreateKind::HybridPq1024Tpm2Fido2 => true,
            _ => false,
        }
    }

    /// Whether a TPM slot is added after the vault is created.
    pub fn is_tpm_bootstrap(self) -> (b: bool)
        ensures
            b == self.tpm(),
    {
        match self {
            CreateKind::Tpm2
            | CreateKind::Tpm2Pin
            | CreateKind::Tpm2Fido2
            | CreateKind::HybridPqTpm2
            | CreateKind::HybridPq1024Tpm2
            | CreateKind::HybridPqTpm2Fido2
            | CreateKind::HybridPq1024Tpm2Fido2 => true,
            _ => false,
        }
    }

    pub open spec fn factor_spec(self) -> Factor {
        match self {
            CreateKind::Passphrase | CreateKind::HybridPq | CreateKind::HybridPq1024 => {
                Factor::Passphrase
            },
            CreateKind::Fido2
            | CreateKind::Fido2Direct
            | CreateKind::HybridPqFido2
            | CreateKind::HybridPq1024Fido2 => Factor::Fido2,
            _ => Factor::Tpm2,
        }
    }

    /// The factor under which the variant is listed.
    pub fn factor(self) -> (f: Factor)
        ensures
            f == self.factor_spec(),
    {
        match self {
            CreateKind::Passphrase | CreateKind::HybridPq | CreateKind::HybridPq1024 => {
                Factor::Passphrase
            },
            CreateKind::Fido2
            | CreateKind::Fido2Direct
            | CreateKind::HybridPqFido2
            | CreateKind::HybridPq1024Fido2 => Factor::Fido2,
            _ => Factor::Tpm2,
        }
    }

    pub open spec fn fido2(self) -> bool {
        match self {
            CreateKind::Fido2
            | CreateKind::Fido2Direct
            | CreateKind::HybridPqFido2
            | CreateKind::HybridPq1024Fido2
            | CreateKind::Tpm2Fido2
            | CreateKind::HybridPqTpm2Fido2
            | CreateKind::HybridPq1024Tpm2Fido2 => true,
            _ => false,
        }
    }

    /// Whether the authenticator has to be touched.
    pub fn needs_fido2(self) -> (b: bool)
        ensures
            b == self.fido2(),
    {
        match self {
            CreateKind::Fido2
            | CreateKind::Fido2Direct
            | CreateKind::HybridPqFido2
            | CreateKind::HybridPq1024Fido2
            | CreateKind::Tpm2Fido2
            | CreateKind::HybridPqTpm2Fido2
            | CreateKind::HybridPq1024Tpm2Fido2 => true,
            _ => false,
        }
    }

    pub open spec fn passphrase(self) -> bool {
        self != CreateKind::Fido2 && self != CreateKind::Fido2Direct
    }

    /// Whether the passphrase field is used: as the key, or as the backup.
    pub fn needs_passphrase(self) -> (b: bool)
        ensures
            b == self.passphrase(),
    {
        match self {
            CreateKind::Fido2 | CreateKind::Fido2Direct => false,
            _ => true,
        }
    }

    /// Whether the vault itself is created with a PIN. The TPM kinds pass their
    /// PIN on with the TPM slot instead.
    pub open spec fn create_pin(self) -> bool {
        self.fido2() && !self.tpm()
    }

    /// Whether the vault itself is created with a seed file.
    pub open spec fn create_seed(self) -> bool {
        match self {
            CreateKind::HybridPq
            | CreateKind::HybridPqFido2
            | CreateKind::HybridPq1024
            | CreateKind::HybridPq1024Fido2 => true,
            _ => false,
        }
    }

    fn has_create_seed(self) -> (b: bool)
        ensures
            b == self.create_seed(),
    {
        match self {
            CreateKind::HybridPq
            | CreateKind::HybridPqFido2
            | CreateKind::HybridPq1024
            | CreateKind::HybridPq1024Fido2 => true,
            _ => false,
        }
    }

    /// Whether the TPM slot comes with a seed file.
    pub open spec fn tpm_seed(self) -> bool {
        match self {
            CreateKind::HybridPqTpm2
            | CreateKind::HybridPq1024Tpm2
            | CreateKind::HybridPqTpm2Fido2
            | CreateKind::HybridPq1024Tpm2Fido2 => true,
            _ => false,
        }
    }
}

/// Switching to a factor selects one of its variants, and only the TPM factor
/// has variants that add a slot afterwards.
pub proof fn law_factors_and_kinds_agree(f: Factor, k: CreateKind)
    ensures
        f.simplest_spec().factor_spec() == f,
        k.tpm() <==> k.factor_spec() == Factor::Tpm2,
        k.factor_spec() == Factor::Fido2 ==> k.fido2(),
        k.factor_spec() == Factor::Passphrase ==> !k.fido2(),
        k.tpm() ==> k.arg() == SlotKindArg::Passphrase,
{
}

/// The cipher of a new vault.
#[derive(Clone, Copy, Debug, PartialEq, Eq, Structural)]
pub enum CipherChoice {
    /// Resists nonce misuse. The default.
    AesSiv,
    /// Kept for compatibility.
    Aes,
    Chacha,
}

impl CipherChoice {
    pub open spec fn suite_spec(self) -> CipherSuite {
        match self {
            CipherChoice::AesSiv => CipherSuite::Aes256GcmSiv,
            CipherChoice::Aes => CipherSuite::Aes256Gcm,
            CipherChoice::Chacha => CipherSuite::ChaCha20Poly1305,
        }
    }

    pub fn suite(self) -> (c: CipherSuite)
        ensures
            c == self.suite_spec(),
    {
        match self {
            CipherChoice::AesSiv => CipherSuite::Aes256GcmSiv,
            CipherChoice::Aes => CipherSuite::Aes256Gcm,
            CipherChoice::Chacha => CipherSuite::ChaCha20Poly1305,
        }
    }
}

/// The form for creating a vault.
pub struct CreateForm {
    pub path: String,
    pub use_detached: bool,
    pub header_path: String,
    pub cipher: CipherChoice,
    pub kind: CreateKind,
    pub passphrase: String,
    pub backup_passphrase: String,
    pub pin: String,
    pub use_anchor: bool,
    pub anchor_path: String,
    pub pad_files: bool,
    pub hide_sizes: bool,
    pub hybrid_kyber_path: String,
    pub hybrid_seed_pw: String,
    pub kdf: KdfStrength,
}

impl CreateForm {
    /// Whether the form is as it was before the user touched it.
    pub open spec fn is_blank(self) -> bool {
        &&& self.path@.len() == 0 && self.header_path@.len() == 0 && self.anchor_path@.len() == 0
        &&& self.passphrase@.len() == 0 && self.backup_passphrase@.len() == 0
        &&& self.pin@.len() == 0 && self.hybrid_kyber_path@.len() == 0
        &&& self.hybrid_seed_pw@.len() == 0
        &&& !self.use_detached && !self.use_anchor && !self.pad_files && !self.hide_sizes
        &&& self.cipher == CipherChoice::AesSiv
        &&& self.kind == CreateKind::Passphrase
        &&& self.kdf == KdfStrength::Interactive
    }
}

impl Default for CreateForm {
    fn default() -> (f: CreateForm)
        ensures
            f.is_blank(),
    {
        CreateForm {
            path: String::new(),
            use_detached: false,
            header_path: String::new(),
            cipher: CipherChoice::AesSiv,
            kind: CreateKind::Passphrase,
            passphrase: String::new(),
            backup_passphrase: String::new(),
            pin: String::new(),
            use_anchor: false,
            anchor_path: String::new(),
            pad_files: false,
            hide_sizes: false,
            hybrid_kyber_path: String::new(),
            hybrid_seed_pw: String::new(),
            kdf: KdfStrength::Interactive,
        }
    }
}

/// What the user is asked before an empty passphrase is taken.
#[derive(Clone, Copy, Debug, PartialEq, Eq, Structural)]
pub enum EmptyPassphraseTarget {
    /// The passphrase of a new vault.
    CreateVault,
    /// The backup of a vault whose key is derived by the authenticator.
    Fido2DirectBackup,
    /// The passphrase of a new keyslot.
    AddPassphraseKeyslot,
}

/// What submitting the create form comes to, apart from the request itself.
pub enum CreateVerdict {
    Refused(Seq<char>),
    Confirm(EmptyPassphraseTarget),
    Ready,
}

/// `confirmed` says that the user has just been asked about an empty
/// passphrase and wants to go on.
pub open spec fn create_verdict(f: CreateForm, confirmed: bool) -> CreateVerdict {
    if trim(f.path@).len() == 0 {
        CreateVerdict::Refused("vault path is required"@)
    } else if f.kind.passphrase() && f.passphrase@.len() == 0 && !confirmed {
        CreateVerdict::Confirm(EmptyPassphraseTarget::CreateVault)
    } else if f.kind == CreateKind::Fido2Direct && f.backup_passphrase@.len() == 0 && !confirmed {
        CreateVerdict::Confirm(EmptyPassphraseTarget::Fido2DirectBackup)
    } else if f.use_detached && trim(f.header_path@).len() == 0 {
        CreateVerdict::Refused("header sidecar path required"@)
    } else if f.use_anchor && trim(f.anchor_path@).len() == 0 {
        CreateVerdict::Refused("anchor path required"@)
    } else if f.kind.create_seed() && trim(f.hybrid_kyber_path@).len() == 0 {
        CreateVerdict::Refused("hybrid mode requires a path for the .kyber seed file"@)
    } else {
        CreateVerdict::Ready
    }
}

/// Whether the secrets have moved out of the form: they do once the vault and
/// header paths are in order.
pub open spec fn secrets_taken(f: CreateForm, confirmed: bool) -> bool {
    match create_verdict(f, confirmed) {
        CreateVerdict::Ready => true,
        CreateVerdict::Confirm(_) => false,
        CreateVerdict::Refused(_) => trim(f.path@).len() > 0 && !(f.use_detached && trim(
            f.header_path@,
        ).len() == 0),
    }
}

/// Whether a field is kept, or is empty because its text was taken.
pub open spec fn kept_unless(taken: bool, before: String, after: String) -> bool {
    if taken {
        after@.len() == 0
    } else {
        after == before
    }
}

/// Whether a form is the one before, but for the secrets that were taken.
pub open spec fn same_but_taken(
    before: CreateForm,
    after: CreateForm,
    passphrase: bool,
    backup: bool,
    pin: bool,
    seed: bool,
) -> bool {
    &&& kept_unless(passphrase, before.passphrase, after.passphrase)
    &&& kept_unless(backup, before.backup_passphrase, after.backup_passphrase)
    &&& kept_unless(pin, before.pin, after.pin)
    &&& kept_unless(seed, before.hybrid_seed_pw, after.hybrid_seed_pw)
    &&& after.path == before.path && after.header_path == before.header_path
    &&& after.anchor_path == before.anchor_path
    &&& after.hybrid_kyber_path == before.hybrid_kyber_path
    &&& after.use_detached == before.use_detached && after.use_anchor == before.use_anchor
    &&& after.cipher == before.cipher && after.kind == before.kind && after.kdf == before.kdf
    &&& after.pad_files == before.pad_files && after.hide_sizes == before.hide_sizes
}

/// Whether an optional path is the trimmed field, where the field is in use.
pub open spec fn path_if(used: bool, field: Seq<char>, path: Option<String>) -> bool {
    match path {
        Some(p) => used && p@ == trim(field),
        None => !used,
    }
}

/// Whether `o` asks for what the form says.
pub open spec fn asks_for(f: CreateForm, o: CreateOpts) -> bool {
    &&& o.path@ == trim(f.path@)
    &&& path_if(f.use_detached, f.header_path@, o.header_path)
    &&& path_if(f.use_anchor, f.anchor_path@, o.anchor_path)
    &&& path_if(f.kind.create_seed(), f.hybrid_kyber_path@, o.hybrid_kyber_path)
    &&& o.cipher == f.cipher.suite_spec()
    &&& o.kind == f.kind.arg()
    &&& o.passphrase == (if f.kind.passphrase() {
        Some(f.passphrase)
    } else {
        None
    })
    &&& o.backup_passphrase == (if f.kind == CreateKind::Fido2Direct
        && f.backup_passphrase@.len() > 0 {
        Some(f.backup_passphrase)
    } else {
        None
    })
    &&& o.pin == (if f.kind.create_pin() {
        Some(f.pin)
    } else {
        None
    })
    &&& o.pad_files == f.pad_files && o.hide_sizes == f.hide_sizes && o.kdf == f.kdf
    &&& o.hybrid_seed_pw is None
    &&& o.enable_recovery_passphrase && !o.use_deniable && o.use_v3_format
}

/// What submitting the create form leads to.
pub enum CreateSubmission {
    Refused(String),
    Confirm(EmptyPassphraseTarget),
    Ready { opts: CreateOpts, needs_touch: bool },
}

fn trimmed_if(used: bool, field: &str) -> (p: Option<String>)
    ensures
        path_if(used, field@, p),
{
    if used {
        Some(trimmed(field))
    } else {
        None
    }
}

/// Submits the create form.
pub fn submit_create(form: CreateForm, confirmed: bool) -> (r: (CreateForm, CreateSubmission))
    ensures
        match create_verdict(form, confirmed) {
            CreateVerdict::Refused(text) => r.1 matches CreateSubmission::Refused(t) && t@ == text,
            CreateVerdict::Confirm(target) => r.1 == CreateSubmission::Confirm(target),
            CreateVerdict::Ready => r.1 matches CreateSubmission::Ready { opts, needs_touch }
                && asks_for(form, opts) && needs_touch == form.kind.fido2(),
        },
        same_but_taken(
            form,
            r.0,
            secrets_taken(form, confirmed) && form.kind.passphrase(),
            secrets_taken(form, confirmed) && form.kind == CreateKind::Fido2Direct
                && form.backup_passphrase@.len() > 0,
            secrets_taken(form, confirmed) && form.kind.create_pin(),
            false,
        ),
{
    let path = trimmed(form.path.as_str());
    if path.as_str().is_empty() {
        return (form, CreateSubmission::Refused("vault path is required".to_owned()));
    }
    let needs_passphrase = form.kind.needs_passphrase();
    if needs_passphrase && form.passphrase.as_str().is_empty() && !confirmed {
        return (form, CreateSubmission::Confirm(EmptyPassphraseTarget::CreateVault));
    }
    if form.kind == CreateKind::Fido2Direct && form.backup_passphrase.as_str().is_empty()
        && !confirmed {
        return (form, CreateSubmission::Confirm(EmptyPassphraseTarget::Fido2DirectBackup));
    }
    let header_path = trimmed_if(form.use_detached, form.header_path.as_str());
    if let Some(p) = &header_path {
        if p.as_str().is_empty() {
            return (form, CreateSubmission::Refused("header sidecar path required".to_owned()));
        }
    }
    let needs_touch = form.kind.needs_fido2();
    let mut form = form;
    let mut passphrase: Option<String> = None;
    if needs_passphrase {
        passphrase = Some(form.passphrase);
        form.passphrase = String::new();
    }
    let mut backup_passphrase: Option<String> = None;
    if form.kind == CreateKind::Fido2Direct && !form.backup_passphrase.as_str().is_empty() {
        backup_passphrase = Some(form.backup_passphrase);
        form.backup_passphrase = String::new();
    }
    let mut pin: Option<String> = None;
    if needs_touch && !form.kind.is_tpm_bootstrap() {
        pin = Some(form.pin);
        form.pin = String::new();
    }
    let anchor_path = trimmed_if(form.use_anchor, form.anchor_path.as_str());
    if let Some(p) = &anchor_path {
        if p.as_str().is_empty() {
            return (form, CreateSubmission::Refused("anchor path required".to_owned()));
        }
    }
    let hybrid_kyber_path = trimmed_if(
        form.kind.has_create_seed(),
        form.hybrid_kyber_path.as_str(),
    );
    if let Some(p) = &hybrid_kyber_path {
        if p.as_str().is_empty() {
            return (
                form,
                CreateSubmission::Refused(
                    "hybrid mode requires a path for the .kyber seed file".to_owned(),
                ),
            );
        }
    }
    let opts = CreateOpts {
        path,
        header_path,
        cipher: form.cipher.suite(),
        kind: form.kind.to_arg(),
        passphrase,
        backup_passphrase,
        pin,
        pad_files: form.pad_files,
        hide_sizes: form.hide_sizes,
        anchor_path,
        enable_recovery_passphrase: true,
        hybrid_kyber_path,
        hybrid_seed_pw: None,
        kdf: form.kdf,
        use_deniable: false,
        use_v3_format: true,
    };
    (form, CreateSubmission::Ready { opts, needs_touch })
}

/// Which TPM slot a new vault gets.
pub enum BootstrapChoice {
    Refused(String),
    /// None.
    Plain,
    Tpm(TpmBootstrapKind),
}

/// Why the TPM slot that the form asks for is refused.
pub open spec fn bootstrap_refusal(f: CreateForm) -> Option<Seq<char>> {
    if f.kind.tpm_seed() && trim(f.hybrid_kyber_path@).len() == 0 {
        Some("hybrid TPM kind requires a path for the .kyber seed file"@)
    } else if f.kind == CreateKind::Tpm2Pin && f.pin@.len() == 0 {
        Some("TPM PIN required"@)
    } else if f.kind.tpm() && f.kind.fido2() && f.pin@.len() == 0 {
        Some("FIDO2 PIN required"@)
    } else {
        None
    }
}

/// The passphrase of the seed file: its own, or else the backup passphrase.
pub open spec fn bootstrap_seed_pw(f: CreateForm, backup: Option<String>) -> Seq<char> {
    if f.hybrid_seed_pw@.len() > 0 {
        f.hybrid_seed_pw@
    } else {
        match backup {
            Some(p) => p@,
            None => ""@,
        }
    }
}

pub open spec fn bootstrap_kem(k: CreateKind) -> u16 {
    if k == CreateKind::HybridPq1024Tpm2 || k == CreateKind::HybridPq1024Tpm2Fido2 {
        1024
    } else {
        768
    }
}

/// Whether `t` is the TPM slot that the form asks for.
pub open spec fn is_bootstrap_of(f: CreateForm, backup: Option<String>, t: TpmBootstrapKind) -> bool {
    match t {
        TpmBootstrapKind::Tpm2 => f.kind == CreateKind::Tpm2,
        TpmBootstrapKind::Tpm2Pin { pin } => f.kind == CreateKind::Tpm2Pin && pin == f.pin,
        TpmBootstrapKind::Tpm2Fido2 { pin } => f.kind == CreateKind::Tpm2Fido2 && pin == f.pin,
        TpmBootstrapKind::HybridPqTpm2 { kyber_path, seed_pw, kem_size } => {
            &&& f.kind == CreateKind::HybridPqTpm2 || f.kind == CreateKind::HybridPq1024Tpm2
            &&& kyber_path@ == trim(f.hybrid_kyber_path@)
            &&& seed_pw@ == bootstrap_seed_pw(f, backup)
            &&& kem_size == bootstrap_kem(f.kind)
        },
        TpmBootstrapKind::HybridPqTpm2Fido2 { kyber_path, seed_pw, pin, kem_size } => {
            &&& f.kind == CreateKind::HybridPqTpm2Fido2 || f.kind
                == CreateKind::HybridPq1024Tpm2Fido2
            &&& kyber_path@ == trim(f.hybrid_kyber_path@)
            &&& seed_pw@ == bootstrap_seed_pw(f, backup)
            &&& pin == f.pin
            &&& kem_size == bootstrap_kem(f.kind)
        },
    }
}

/// Whether the PIN has been looked at, and with that taken.
pub open spec fn bootstrap_takes_pin(f: CreateForm) -> bool {
    &&& f.kind == CreateKind::Tpm2Pin || (f.kind.tpm() && f.kind.fido2())
    &&& f.kind.tpm_seed() ==> trim(f.hybrid_kyber_path@).len() > 0
}

/// The TPM slot of a vault about to be created, after the request for the vault
/// itself has been drawn up. `backup` is the passphrase of that request.
pub fn bootstrap_of(form: CreateForm, backup: &Option<String>) -> (r: (CreateForm, BootstrapChoice))
    ensures
        match bootstrap_refusal(form) {
            Some(text) => r.1 matches BootstrapChoice::Refused(t) && t@ == text,
            None => if form.kind.tpm() {
                r.1 matches BootstrapChoice::Tpm(t) && is_bootstrap_of(form, *backup, t)
            } else {
                r.1 is Plain
            },
        },
        same_but_taken(
            form,
            r.0,
            false,
            false,
            bootstrap_takes_pin(form),
            form.kind.tpm_seed() && bootstrap_refusal(form) is None,
        ),
{
    let mut form = form;
    match form.kind {
        CreateKind::Tpm2 => (form, BootstrapChoice::Tpm(TpmBootstrapKind::Tpm2)),
        CreateKind::Tpm2Pin => {
            let pin = form.pin;
            form.pin = String::new();
            if pin.as_str().is_empty() {
                return (form, BootstrapChoice::Refused("TPM PIN required".to_owned()));
            }
            (form, BootstrapChoice::Tpm(TpmBootstrapKind::Tpm2Pin { pin }))
        },
        CreateKind::Tpm2Fido2 => {
            let pin = form.pin;
            form.pin = String::new();
            if pin.as_str().is_empty() {
                return (form, BootstrapChoice::Refused("FIDO2 PIN required".to_owned()));
            }
            (form, BootstrapChoice::Tpm(TpmBootstrapKind::Tpm2Fido2 { pin }))
        },
        CreateKind::HybridPqTpm2 | CreateKind::HybridPq1024Tpm2 => {
            let kyber_path = trimmed(form.hybrid_kyber_path.as_str());
            if kyber_path.as_str().is_empty() {
                return (
                    form,
                    BootstrapChoice::Refused(
                        "hybrid TPM kind requires a path for the .kyber seed file".to_owned(),
                    ),
                );
            }
            let kem_size: u16 = if form.kind == CreateKind::HybridPq1024Tpm2 {
                1024
            } else {
                768
            };
            let explicit = form.hybrid_seed_pw;
            form.hybrid_seed_pw = String::new();
            let seed_pw = seed_or_backup(explicit, backup);
            (
                form,
                BootstrapChoice::Tpm(
                    TpmBootstrapKind::HybridPqTpm2 { kyber_path, seed_pw, kem_size },
                ),
            )
        },
        CreateKind::HybridPqTpm2Fido2 | CreateKind::HybridPq1024Tpm2Fido2 => {
            let kyber_path = trimmed(form.hybrid_kyber_path.as_str());
            if kyber_path.as_str().is_empty() {
                return (
                    form,
                    BootstrapChoice::Refused(
                        "hybrid TPM kind requires a path for the .kyber seed file".to_owned(),
                    ),
                );
            }
            let pin = form.pin;
            form.pin = String::new();
            if pin.as_str().is_empty() {
                return (form, BootstrapChoice::Refused("FIDO2 PIN required".to_owned()));
            }
            let kem_size: u16 = if form.kind == CreateKind::HybridPq1024Tpm2Fido2 {
                1024
            } else {
                768
            };
            let explicit = form.hybrid_seed_pw;
            form.hybrid_seed_pw = String::new();
            let seed_pw = seed_or_backup(explicit, backup);
            (
                form,
                BootstrapChoice::Tpm(
                    TpmBootstrapKind::HybridPqTpm2Fido2 { kyber_path, seed_pw, pin, kem_size },
                ),
            )
        },
        _ => (form, BootstrapChoice::Plain),
    }
}

fn seed_or_backup(explicit: String, backup: &Option<String>) -> (s: String)
    ensures
        s@ == (if explicit@.len() > 0 {
            explicit@
        } else {
            match *backup {
                Some(p) => p@,
                None => ""@,
            }
        }),
{
    if !explicit.as_str().is_empty() {
        return explicit;
    }
    match backup {
        Some(p) => p.clone(),
        None => "".to_owned(),
    }
}

/// A vault without a passphrase, or without its only backup, is created only if
/// the user said so when asked.
pub proof fn law_empty_passphrase_is_confirmed(f: CreateForm, confirmed: bool)
    requires
        create_verdict(f, confirmed) is Ready,
    ensures
        !confirmed && f.kind.passphrase() ==> f.passphrase@.len() > 0,
        !confirmed && f.kind == CreateKind::Fido2Direct ==> f.backup_passphrase@.len() > 0,
{
}

} // verus!
