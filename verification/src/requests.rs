//! What the user asked for: requests to create and to unlock a vault.

use crate::kinds::{CipherSuite, KdfStrength, SlotKindArg, UnlockMethod, unlock_method_name, unlock_method_text};
use crate::script::{SecretRef, SizeFlags};
use vstd::prelude::*;
use vstd::string::*;

verus! {

/// A request to create a vault.
pub struct CreateOpts {
    pub path: String,
    pub header_path: Option<String>,
    pub cipher: CipherSuite,
    pub kind: SlotKindArg,
    pub passphrase: Option<String>,
    pub backup_passphrase: Option<String>,
    pub pin: Option<String>,
    pub pad_files: bool,
    pub hide_sizes: bool,
    pub anchor_path: Option<String>,
    /// For the TPM combinations: keep the passphrase as a second, weaker slot.
    pub enable_recovery_passphrase: bool,
    /// Where the `.kyber` seed file of a hybrid vault goes.
    pub hybrid_kyber_path: Option<String>,
    /// A passphrase of its own for that file; empty means the vault's.
    pub hybrid_seed_pw: Option<String>,
    pub kdf: KdfStrength,
    pub use_deniable: bool,
    pub use_v3_format: bool,
}

/// A request to unlock a vault.
pub struct UnlockOpts {
    pub path: String,
    pub header_path: Option<String>,
    pub anchor_path: Option<String>,
    pub method: UnlockMethod,
    pub passphrase: Option<String>,
    pub pin: Option<String>,
    pub hybrid_kyber_path: Option<String>,
    pub hybrid_seed_pw: Option<String>,
    pub use_deniable: bool,
    pub deniable_cipher: CipherSuite,
    pub deniable_kdf: KdfStrength,
    /// Open read-only and put up with damaged chunk lists.
    pub recovery_mode: bool,
}

/// Which of the files named in a create request exist already.
#[derive(Clone, Copy, Debug, PartialEq, Eq, Structural)]
pub struct CreateFacts {
    pub vault_exists: bool,
    pub header_exists: bool,
    pub anchor_exists: bool,
    pub kyber_exists: bool,
}

/// Whether an optional text is there and not empty.
pub open spec fn filled(t: Option<String>) -> bool {
    t matches Some(s) && s@.len() > 0
}

pub fn is_filled(t: &Option<String>) -> (b: bool)
    ensures
        b == filled(*t),
{
    match t {
        Some(s) => !s.as_str().is_empty(),
        None => false,
    }
}

/// The passphrase that protects the `.kyber` file: its own if one was given,
/// else that of the vault.
pub open spec fn seed_secret(seed_pw: Option<String>) -> SecretRef {
    if filled(seed_pw) {
        SecretRef::SeedPassphrase
    } else {
        SecretRef::Passphrase
    }
}

pub fn pick_seed_secret(seed_pw: &Option<String>) -> (s: SecretRef)
    ensures
        s == seed_secret(*seed_pw),
{
    if is_filled(seed_pw) {
        SecretRef::SeedPassphrase
    } else {
        SecretRef::Passphrase
    }
}

pub open spec fn size_flags(o: CreateOpts) -> SizeFlags {
    SizeFlags { pad_files: o.pad_files || o.hide_sizes, hide_sizes: o.hide_sizes }
}

/// Hiding sizes implies padding.
pub fn size_flags_of(o: &CreateOpts) -> (f: SizeFlags)
    ensures
        f == size_flags(*o),
{
    SizeFlags { pad_files: o.pad_files || o.hide_sizes, hide_sizes: o.hide_sizes }
}

pub open spec fn create_kind_text(k: SlotKindArg) -> Seq<char> {
    match k {
        SlotKindArg::Passphrase => "Passphrase"@,
        SlotKindArg::Fido2 => "Fido2"@,
        SlotKindArg::Fido2Direct => "Fido2Direct"@,
        SlotKindArg::HybridPq => "HybridPq"@,
        SlotKindArg::HybridPqFido2 => "HybridPqFido2"@,
        SlotKindArg::HybridPq1024 => "HybridPq1024"@,
        SlotKindArg::HybridPq1024Fido2 => "HybridPq1024Fido2"@,
    }
}

fn create_kind_name(k: SlotKindArg) -> (s: &'static str)
    ensures
        s@ == create_kind_text(k),
{
    match k {
        SlotKindArg::Passphrase => "Passphrase",
        SlotKindArg::Fido2 => "Fido2",
        SlotKindArg::Fido2Direct => "Fido2Direct",
        SlotKindArg::HybridPq => "HybridPq",
        SlotKindArg::HybridPqFido2 => "HybridPqFido2",
        SlotKindArg::HybridPq1024 => "HybridPq1024",
        SlotKindArg::HybridPq1024Fido2 => "HybridPq1024Fido2",
    }
}

pub open spec fn bool_text(b: bool) -> Seq<char> {
    if b {
        "true"@
    } else {
        "false"@
    }
}

fn bool_name(b: bool) -> (s: &'static str)
    ensures
        s@ == bool_text(b),
{
    if b {
        "true"
    } else {
        "false"
    }
}

/// How a secret shows up in diagnostics: only whether there is one.
pub open spec fn redacted(secret: Option<String>) -> Seq<char> {
    if secret is Some {
        "Some(\"<redacted>\")"@
    } else {
        "None"@
    }
}

fn redacted_name(secret: &Option<String>) -> (s: &'static str)
    ensures
        s@ == redacted(*secret),
{
    match secret {
        Some(_) => "Some(\"<redacted>\")",
        None => "None",
    }
}

/// The diagnostic text of a create request. `path` is the path as diagnostics
/// quote it.
pub open spec fn create_debug_text(o: CreateOpts, path: Seq<char>) -> Seq<char> {
    "CreateOpts { path: "@ + path + ", kind: "@ + create_kind_text(o.kind) + ", use_deniable: "@
        + bool_text(o.use_deniable) + ", passphrase: "@ + redacted(o.passphrase)
        + ", backup_passphrase: "@ + redacted(o.backup_passphrase) + ", pin: "@ + redacted(o.pin)
        + ", hybrid_seed_pw: "@ + redacted(o.hybrid_seed_pw) + ", .. }"@
}

/// The diagnostic text of an unlock request.
pub open spec fn unlock_debug_text(o: UnlockOpts, path: Seq<char>) -> Seq<char> {
    "UnlockOpts { path: "@ + path + ", method: "@ + unlock_method_text(o.method)
        + ", use_deniable: "@ + bool_text(o.use_deniable) + ", recovery_mode: "@ + bool_text(
        o.recovery_mode,
    ) + ", passphrase: "@ + redacted(o.passphrase) + ", pin: "@ + redacted(o.pin)
        + ", hybrid_seed_pw: "@ + redacted(o.hybrid_seed_pw) + ", .. }"@
}

impl CreateOpts {
    /// The request for diagnostics, with every secret blanked out.
    pub fn debug_text(&self, path: &str) -> (s: String)
        ensures
            s@ == create_debug_text(*self, path@),
    {
        let mut s = "CreateOpts { path: ".to_owned();
        s.append(path);
        s.append(", kind: ");
        s.append(create_kind_name(self.kind));
        s.append(", use_deniable: ");
        s.append(bool_name(self.use_deniable));
        s.append(", passphrase: ");
        s.append(redacted_name(&self.passphrase));
        s.append(", backup_passphrase: ");
        s.append(redacted_name(&self.backup_passphrase));
        s.append(", pin: ");
        s.append(redacted_name(&self.pin));
        s.append(", hybrid_seed_pw: ");
        s.append(redacted_name(&self.hybrid_seed_pw));
        s.append(", .. }");
        s
    }
}

impl UnlockOpts {
    /// The request for diagnostics, with every secret blanked out.
    pub fn debug_text(&self, path: &str) -> (s: String)
        ensures
            s@ == unlock_debug_text(*self, path@),
    {
        let mut s = "UnlockOpts { path: ".to_owned();
        s.append(path);
        s.append(", method: ");
        s.append(unlock_method_name(self.method));
        s.append(", use_deniable: ");
        s.append(bool_name(self.use_deniable));
        s.append(", recovery_mode: ");
        s.append(bool_name(self.recovery_mode));
        s.append(", passphrase: ");
        s.append(redacted_name(&self.passphrase));
        s.append(", pin: ");
        s.append(redacted_name(&self.pin));
        s.append(", hybrid_seed_pw: ");
        s.append(redacted_name(&self.hybrid_seed_pw));
        s.append(", .. }");
        s
    }
}

/// Two create requests that differ in nothing but the contents of their
/// secrets have the same diagnostic text: it gives no secret away.
pub proof fn law_create_debug_hides_secrets(a: CreateOpts, b: CreateOpts, path: Seq<char>)
    requires
        a.kind == b.kind,
        a.use_deniable == b.use_deniable,
        a.passphrase is Some <==> b.passphrase is Some,
        a.backup_passphrase is Some <==> b.backup_passphrase is Some,
        a.pin is Some <==> b.pin is Some,
        a.hybrid_seed_pw is Some <==> b.hybrid_seed_pw is Some,
    ensures
        create_debug_text(a, path) == create_debug_text(b, path),
{
}

/// The same of unlock requests.
pub proof fn law_unlock_debug_hides_secrets(a: UnlockOpts, b: UnlockOpts, path: Seq<char>)
    requires
        a.method == b.method,
        a.use_deniable == b.use_deniable,
        a.recovery_mode == b.recovery_mode,
        a.passphrase is Some <==> b.passphrase is Some,
        a.pin is Some <==> b.pin is Some,
        a.hybrid_seed_pw is Some <==> b.hybrid_seed_pw is Some,
    ensures
        unlock_debug_text(a, path) == unlock_debug_text(b, path),
{
}

} // verus!
