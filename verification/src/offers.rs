//! What the forms and the keyslot screen offer: which variants, which fields,
//! which buttons.

use crate::forms::{CreateKind, Factor};
use crate::kinds::{TargetOs, UnlockMethod};
use crate::unlock_form::{form_passphrase, form_pin, form_seed};
use vstd::prelude::*;

verus! {

/// The factors offered for a new vault. Only Linux gives access to the TPM.
pub fn offered_factors(os: TargetOs) -> (v: Vec<Factor>)
    ensures
        v@ == (if os == TargetOs::Linux {
            seq![Factor::Passphrase, Factor::Fido2, Factor::Tpm2]
        } else {
            seq![Factor::Passphrase, Factor::Fido2]
        }),
{
    let mut v: Vec<Factor> = Vec::new();
    v.push(Factor::Passphrase);
    v.push(Factor::Fido2);
    if os == TargetOs::Linux {
        v.push(Factor::Tpm2);
        assert(v@ =~= seq![Factor::Passphrase, Factor::Fido2, Factor::Tpm2]);
    } else {
        assert(v@ =~= seq![Factor::Passphrase, Factor::Fido2]);
    }
    v
}

pub open spec fn variants(f: Factor) -> Seq<CreateKind> {
    match f {
        Factor::Passphrase => seq![
            CreateKind::Passphrase,
            CreateKind::HybridPq,
            CreateKind::HybridPq1024,
        ],
        Factor::Fido2 => seq![
            CreateKind::Fido2,
            CreateKind::Fido2Direct,
            CreateKind::HybridPqFido2,
            CreateKind::HybridPq1024Fido2,
        ],
        Factor::Tpm2 => seq![
            CreateKind::Tpm2,
            CreateKind::Tpm2Pin,
            CreateKind::Tpm2Fido2,
            CreateKind::HybridPqTpm2,
            CreateKind::HybridPq1024Tpm2,
            CreateKind::HybridPqTpm2Fido2,
            CreateKind::HybridPq1024Tpm2Fido2,
        ],
    }
}

/// The variants listed under a factor, in order.
pub fn variants_of(f: Factor) -> (v: Vec<CreateKind>)
    ensures
        v@ == variants(f),
{
    let mut v: Vec<CreateKind> = Vec::new();
    match f {
        Factor::Passphrase => {
            v.push(CreateKind::Passphrase);
            v.push(CreateKind::HybridPq);
            v.push(CreateKind::HybridPq1024);
        },
        Factor::Fido2 => {
            v.push(CreateKind::Fido2);
            v.push(CreateKind::Fido2Direct);
            v.push(CreateKind::HybridPqFido2);
            v.push(CreateKind::HybridPq1024Fido2);
        },
        Factor::Tpm2 => {
            v.push(CreateKind::Tpm2);
            v.push(CreateKind::Tpm2Pin);
            v.push(CreateKind::Tpm2Fido2);
            v.push(CreateKind::HybridPqTpm2);
            v.push(CreateKind::HybridPq1024Tpm2);
            v.push(CreateKind::HybridPqTpm2Fido2);
            v.push(CreateKind::HybridPq1024Tpm2Fido2);
        },
    }
    assert(v@ =~= variants(f));
    v
}

/// Every variant is listed under its own factor, and under no other.
pub proof fn law_variants_partition_the_kinds(f: Factor, k: CreateKind)
    ensures
        variants(f).contains(k) <==> k.factor_spec() == f,
{
    let v = variants(f);
    match k {
        CreateKind::Passphrase => {
            assert(variants(Factor::Passphrase)[0] == k);
        },
        CreateKind::HybridPq => {
            assert(variants(Factor::Passphrase)[1] == k);
        },
        CreateKind::HybridPq1024 => {
            assert(variants(Factor::Passphrase)[2] == k);
        },
        CreateKind::Fido2 => {
            assert(variants(Factor::Fido2)[0] == k);
        },
        CreateKind::Fido2Direct => {
            assert(variants(Factor::Fido2)[1] == k);
        },
        CreateKind::HybridPqFido2 => {
            assert(variants(Factor::Fido2)[2] == k);
        },
        CreateKind::HybridPq1024Fido2 => {
            assert(variants(Factor::Fido2)[3] == k);
        },
        CreateKind::Tpm2 => {
            assert(variants(Factor::Tpm2)[0] == k);
        },
        CreateKind::Tpm2Pin => {
            assert(variants(Factor::Tpm2)[1] == k);
        },
        CreateKind::Tpm2Fido2 => {
            assert(variants(Factor::Tpm2)[2] == k);
        },
        CreateKind::HybridPqTpm2 => {
            assert(variants(Factor::Tpm2)[3] == k);
        },
        CreateKind::HybridPq1024Tpm2 => {
            assert(variants(Factor::Tpm2)[4] == k);
        },
        CreateKind::HybridPqTpm2Fido2 => {
            assert(variants(Factor::Tpm2)[5] == k);
        },
        CreateKind::HybridPq1024Tpm2Fido2 => {
            assert(variants(Factor::Tpm2)[6] == k);
        },
    }
    if v.contains(k) {
        let i = choose|i: int| 0 <= i < v.len() && v[i] == k;
        assert(v[i].factor_spec() == f);
    }
}

/// A field of the create form.
#[derive(Clone, Copy, Debug, PartialEq, Eq, Structural)]
pub enum Field {
    Passphrase,
    BackupPassphrase,
    Pin,
    SeedPassphrase,
    SeedPath,
}

/// The secrets and paths that the create form asks for, from the top down.
pub open spec fn fields(k: CreateKind) -> Seq<Field> {
    match k {
        CreateKind::Passphrase | CreateKind::Tpm2 => seq![Field::Passphrase],
        CreateKind::Fido2 => seq![Field::Pin],
        CreateKind::Fido2Direct => seq![Field::Pin, Field::BackupPassphrase],
        CreateKind::HybridPq | CreateKind::HybridPq1024 => seq![Field::Passphrase, Field::SeedPath],
        CreateKind::HybridPqFido2 | CreateKind::HybridPq1024Fido2 => seq![
            Field::Pin,
            Field::Passphrase,
            Field::SeedPath,
        ],
        CreateKind::Tpm2Pin | CreateKind::Tpm2Fido2 => seq![Field::Passphrase, Field::Pin],
        CreateKind::HybridPqTpm2 | CreateKind::HybridPq1024Tpm2 => seq![
            Field::Passphrase,
            Field::SeedPassphrase,
            Field::SeedPath,
        ],
        CreateKind::HybridPqTpm2Fido2 | CreateKind::HybridPq1024Tpm2Fido2 => seq![
            Field::Passphrase,
            Field::Pin,
            Field::SeedPassphrase,
            Field::SeedPath,
        ],
    }
}

pub fn create_fields(k: CreateKind) -> (v: Vec<Field>)
    ensures
        v@ == fields(k),
{
    let mut v: Vec<Field> = Vec::new();
    match k {
        CreateKind::Passphrase | CreateKind::Tpm2 => {
            v.push(Field::Passphrase);
        },
        CreateKind::Fido2 => {
            v.push(Field::Pin);
        },
        CreateKind::Fido2Direct => {
            v.push(Field::Pin);
            v.push(Field::BackupPassphrase);
        },
        CreateKind::HybridPq | CreateKind::HybridPq1024 => {
            v.push(Field::Passphrase);
            v.push(Field::SeedPath);
        },
        CreateKind::HybridPqFido2 | CreateKind::HybridPq1024Fido2 => {
            v.push(Field::Pin);
            v.push(Field::Passphrase);
            v.push(Field::SeedPath);
        },
        CreateKind::Tpm2Pin | CreateKind::Tpm2Fido2 => {
            v.push(Field::Passphrase);
            v.push(Field::Pin);
        },
        CreateKind::HybridPqTpm2 | CreateKind::HybridPq1024Tpm2 => {
            v.push(Field::Passphrase);
            v.push(Field::SeedPassphrase);
            v.push(Field::SeedPath);
        },
        CreateKind::HybridPqTpm2Fido2 | CreateKind::HybridPq1024Tpm2Fido2 => {
            v.push(Field::Passphrase);
            v.push(Field::Pin);
            v.push(Field::SeedPassphrase);
            v.push(Field::SeedPath);
        },
    }
    assert(v@ =~= fields(k));
    v
}

/// The form asks for exactly what submitting it uses.
pub proof fn law_fields_match_the_submission(k: CreateKind)
    ensures
        fields(k).contains(Field::Passphrase) <==> k.passphrase(),
        fields(k).contains(Field::BackupPassphrase) <==> k == CreateKind::Fido2Direct,
        fields(k).contains(Field::Pin) <==> k.fido2() || k == CreateKind::Tpm2Pin,
        fields(k).contains(Field::SeedPath) <==> k.create_seed() || k.tpm_seed(),
        fields(k).contains(Field::SeedPassphrase) <==> k.tpm_seed(),
{
    let v = fields(k);
    assert(forall|f: Field| v.contains(f) ==> exists|i: int| 0 <= i < v.len() && v[i] == f);
    assert(v.len() > 0 ==> v.contains(v[0]));
    assert(v.len() > 1 ==> v.contains(v[1]));
    assert(v.len() > 2 ==> v.contains(v[2]));
    assert(v.len() > 3 ==> v.contains(v[3]));
}

/// Whether the strength of the key derivation, and the hiding of sizes, can be
/// chosen: not where the authenticator derives the master key.
pub fn offers_kdf(k: CreateKind) -> (b: bool)
    ensures
        b == (k != CreateKind::Fido2Direct),
{
    match k {
        CreateKind::Fido2Direct => false,
        _ => true,
    }
}

pub open spec fn create_title_text(k: CreateKind) -> Seq<char> {
    match k {
        CreateKind::Passphrase => "Passphrase"@,
        CreateKind::Fido2 => "FIDO2"@,
        CreateKind::Fido2Direct => "FIDO2-direct (optional backup passphrase)"@,
        CreateKind::HybridPq => "Hybrid passphrase + ML-KEM-768"@,
        CreateKind::HybridPq1024 => "Hybrid passphrase + ML-KEM-1024"@,
        CreateKind::HybridPqFido2 => "Hybrid FIDO2 + ML-KEM-768"@,
        CreateKind::HybridPq1024Fido2 => "Hybrid FIDO2 + ML-KEM-1024"@,
        CreateKind::Tpm2 => "TPM 2.0 + backup passphrase"@,
        CreateKind::Tpm2Pin => "TPM 2.0 + PIN + backup passphrase"@,
        CreateKind::Tpm2Fido2 => "Fused TPM 2.0 + FIDO2 + backup passphrase"@,
        CreateKind::HybridPqTpm2 => "Hybrid TPM 2.0 + ML-KEM-768 + backup passphrase"@,
        CreateKind::HybridPq1024Tpm2 => "Hybrid TPM 2.0 + ML-KEM-1024 + backup passphrase"@,
        CreateKind::HybridPqTpm2Fido2 => {
            "3-factor: TPM 2.0 + FIDO2 + ML-KEM-768 + backup passphrase"@
        },
        CreateKind::HybridPq1024Tpm2Fido2 => {
            "3-factor: TPM 2.0 + FIDO2 + ML-KEM-1024 + backup passphrase"@
        },
    }
}

/// The heading over the fields.
pub fn create_title(k: CreateKind) -> (s: &'static str)
    ensures
        s@ == create_title_text(k),
{
    match k {
        CreateKind::Passphrase => "Passphrase",
        CreateKind::Fido2 => "FIDO2",
        CreateKind::Fido2Direct => "FIDO2-direct (optional backup passphrase)",
        CreateKind::HybridPq => "Hybrid passphrase + ML-KEM-768",
        CreateKind::HybridPq1024 => "Hybrid passphrase + ML-KEM-1024",
        CreateKind::HybridPqFido2 => "Hybrid FIDO2 + ML-KEM-768",
        CreateKind::HybridPq1024Fido2 => "Hybrid FIDO2 + ML-KEM-1024",
        CreateKind::Tpm2 => "TPM 2.0 + backup passphrase",
        CreateKind::Tpm2Pin => "TPM 2.0 + PIN + backup passphrase",
        CreateKind::Tpm2Fido2 => "Fused TPM 2.0 + FIDO2 + backup passphrase",
        CreateKind::HybridPqTpm2 => "Hybrid TPM 2.0 + ML-KEM-768 + backup passphrase",
        CreateKind::HybridPq1024Tpm2 => "Hybrid TPM 2.0 + ML-KEM-1024 + backup passphrase",
        CreateKind::HybridPqTpm2Fido2 => {
            "3-factor: TPM 2.0 + FIDO2 + ML-KEM-768 + backup passphrase"
        },
        CreateKind::HybridPq1024Tpm2Fido2 => {
            "3-factor: TPM 2.0 + FIDO2 + ML-KEM-1024 + backup passphrase"
        },
    }
}

pub open spec fn methods(os: TargetOs) -> Seq<UnlockMethod> {
    let plain = seq![
        UnlockMethod::Passphrase,
        UnlockMethod::Fido2,
        UnlockMethod::HybridPq,
        UnlockMethod::HybridPqFido2,
    ];
    if os == TargetOs::Linux {
        plain + seq![
            UnlockMethod::Tpm2,
            UnlockMethod::Tpm2Pin,
            UnlockMethod::Tpm2Fido2,
            UnlockMethod::HybridPqTpm2,
            UnlockMethod::HybridPqTpm2Fido2,
        ]
    } else {
        plain
    }
}

/// The methods that the unlock form offers.
pub fn unlock_methods(os: TargetOs) -> (v: Vec<UnlockMethod>)
    ensures
        v@ == methods(os),
{
    let mut v: Vec<UnlockMethod> = Vec::new();
    v.push(UnlockMethod::Passphrase);
    v.push(UnlockMethod::Fido2);
    v.push(UnlockMethod::HybridPq);
    v.push(UnlockMethod::HybridPqFido2);
    if os == TargetOs::Linux {
        v.push(UnlockMethod::Tpm2);
        v.push(UnlockMethod::Tpm2Pin);
        v.push(UnlockMethod::Tpm2Fido2);
        v.push(UnlockMethod::HybridPqTpm2);
        v.push(UnlockMethod::HybridPqTpm2Fido2);
    }
    assert(v@ =~= methods(os));
    v
}

/// The fields of the unlock form for a method, from the top down.
pub open spec fn unlock_field_seq(m: UnlockMethod) -> Seq<Field> {
    match m {
        UnlockMethod::Passphrase => seq![Field::Passphrase],
        UnlockMethod::Fido2 | UnlockMethod::Tpm2Pin | UnlockMethod::Tpm2Fido2 => seq![Field::Pin],
        UnlockMethod::HybridPq | UnlockMethod::HybridPqTpm2 => seq![
            Field::Passphrase,
            Field::SeedPath,
        ],
        UnlockMethod::HybridPqFido2 | UnlockMethod::HybridPqTpm2Fido2 => seq![
            Field::Pin,
            Field::Passphrase,
            Field::SeedPath,
        ],
        _ => seq![],
    }
}

pub fn unlock_fields(m: UnlockMethod) -> (v: Vec<Field>)
    ensures
        v@ == unlock_field_seq(m),
{
    let mut v: Vec<Field> = Vec::new();
    match m {
        UnlockMethod::Passphrase => {
            v.push(Field::Passphrase);
        },
        UnlockMethod::Fido2 | UnlockMethod::Tpm2Pin | UnlockMethod::Tpm2Fido2 => {
            v.push(Field::Pin);
        },
        UnlockMethod::HybridPq | UnlockMethod::HybridPqTpm2 => {
            v.push(Field::Passphrase);
            v.push(Field::SeedPath);
        },
        UnlockMethod::HybridPqFido2 | UnlockMethod::HybridPqTpm2Fido2 => {
            v.push(Field::Pin);
            v.push(Field::Passphrase);
            v.push(Field::SeedPath);
        },
        _ => {},
    }
    assert(v@ =~= unlock_field_seq(m));
    v
}

/// The unlock form asks for exactly what submitting it uses.
pub proof fn law_unlock_fields_match_the_submission(m: UnlockMethod)
    ensures
        unlock_field_seq(m).contains(Field::Passphrase) <==> form_passphrase(m),
        unlock_field_seq(m).contains(Field::Pin) <==> form_pin(m),
        unlock_field_seq(m).contains(Field::SeedPath) <==> form_seed(m),
{
    let v = unlock_field_seq(m);
    assert(v.len() > 0 ==> v.contains(v[0]));
    assert(v.len() > 1 ==> v.contains(v[1]));
    assert(v.len() > 2 ==> v.contains(v[2]));
}

pub open spec fn method_label_text(m: UnlockMethod) -> Seq<char> {
    match m {
        UnlockMethod::Passphrase => "Passphrase"@,
        UnlockMethod::Fido2 => "FIDO2 authenticator (passphrase backup)"@,
        UnlockMethod::HybridPq => "Hybrid passphrase + ML-KEM (post-quantum)"@,
        UnlockMethod::HybridPqFido2 => {
            "Hybrid FIDO2 + ML-KEM (post-quantum, authenticator + .kyber)"@
        },
        UnlockMethod::Tpm2 => "TPM 2.0 (this machine, no passphrase)"@,
        UnlockMethod::Tpm2Pin => "TPM 2.0 + PIN (this machine + memorised PIN)"@,
        UnlockMethod::Tpm2Fido2 => "TPM 2.0 + FIDO2 (this machine AND this authenticator)"@,
        UnlockMethod::HybridPqTpm2 => "Hybrid TPM 2.0 + ML-KEM (PQ + machine-bound)"@,
        UnlockMethod::HybridPqTpm2Fido2 => "Hybrid TPM 2.0 + FIDO2 + ML-KEM (3 factors)"@,
        _ => crate::kinds::unlock_method_text(m),
    }
}

/// How the unlock form names a method. One that it does not offer goes by its
/// diagnostic name.
pub fn method_label(m: UnlockMethod) -> (s: &'static str)
    ensures
        s@ == method_label_text(m),
{
    match m {
        UnlockMethod::Passphrase => "Passphrase",
        UnlockMethod::Fido2 => "FIDO2 authenticator (passphrase backup)",
        UnlockMethod::HybridPq => "Hybrid passphrase + ML-KEM (post-quantum)",
        UnlockMethod::HybridPqFido2 => {
            "Hybrid FIDO2 + ML-KEM (post-quantum, authenticator + .kyber)"
        },
        UnlockMethod::Tpm2 => "TPM 2.0 (this machine, no passphrase)",
        UnlockMethod::Tpm2Pin => "TPM 2.0 + PIN (this machine + memorised PIN)",
        UnlockMethod::Tpm2Fido2 => "TPM 2.0 + FIDO2 (this machine AND this authenticator)",
        UnlockMethod::HybridPqTpm2 => "Hybrid TPM 2.0 + ML-KEM (PQ + machine-bound)",
        UnlockMethod::HybridPqTpm2Fido2 => "Hybrid TPM 2.0 + FIDO2 + ML-KEM (3 factors)",
        _ => crate::kinds::unlock_method_name(m),
    }
}

/// A button of the keyslot screen.
#[derive(Clone, Copy, Debug, PartialEq, Eq, Structural)]
pub enum AddKeyslot {
    Passphrase,
    Fido2,
    Tpm2,
    Tpm2Pin,
    Tpm2Fido2,
    HybridTpm2 { kem_size: u16 },
    HybridTpm2Fido2 { kem_size: u16 },
}

pub open spec fn buttons(os: TargetOs) -> Seq<AddKeyslot> {
    let plain = seq![AddKeyslot::Passphrase, AddKeyslot::Fido2];
    if os == TargetOs::Linux {
        plain + seq![
            AddKeyslot::Tpm2,
            AddKeyslot::Tpm2Pin,
            AddKeyslot::Tpm2Fido2,
            AddKeyslot::HybridTpm2 { kem_size: 768 },
            AddKeyslot::HybridTpm2 { kem_size: 1024 },
            AddKeyslot::HybridTpm2Fido2 { kem_size: 768 },
            AddKeyslot::HybridTpm2Fido2 { kem_size: 1024 },
        ]
    } else {
        plain
    }
}

/// The keyslots that can be added.
pub fn offered_keyslots(os: TargetOs) -> (v: Vec<AddKeyslot>)
    ensures
        v@ == buttons(os),
{
    let mut v: Vec<AddKeyslot> = Vec::new();
    v.push(AddKeyslot::Passphrase);
    v.push(AddKeyslot::Fido2);
    if os == TargetOs::Linux {
        v.push(AddKeyslot::Tpm2);
        v.push(AddKeyslot::Tpm2Pin);
        v.push(AddKeyslot::Tpm2Fido2);
        v.push(AddKeyslot::HybridTpm2 { kem_size: 768 });
        v.push(AddKeyslot::HybridTpm2 { kem_size: 1024 });
        v.push(AddKeyslot::HybridTpm2Fido2 { kem_size: 768 });
        v.push(AddKeyslot::HybridTpm2Fido2 { kem_size: 1024 });
    }
    assert(v@ =~= buttons(os));
    v
}

impl AddKeyslot {
    pub open spec fn tpm(self) -> bool {
        !(self is Passphrase) && !(self is Fido2)
    }

    pub open spec fn fido2(self) -> bool {
        self is Fido2 || self is Tpm2Fido2 || self is HybridTpm2Fido2
    }

    /// Whether the TPM is looked for before the dialog opens.
    pub fn needs_tpm(self) -> (b: bool)
        ensures
            b == self.tpm(),
    {
        match self {
            AddKeyslot::Passphrase => false,
            AddKeyslot::Fido2 => false,
            _ => true,
        }
    }

    /// Whether an authenticator is looked for before the dialog opens.
    pub fn needs_fido2(self) -> (b: bool)
        ensures
            b == self.fido2(),
    {
        match self {
            AddKeyslot::Fido2 => true,
            AddKeyslot::Tpm2Fido2 => true,
            AddKeyslot::HybridTpm2Fido2 { .. } => true,
            _ => false,
        }
    }
}

/// Whether the dialog for a keyslot opens, given what the checks of the hardware
/// said: a missing device is reported before the user has typed anything. The
/// TPM is reported first.
pub fn opens_dialog(
    button: AddKeyslot,
    tpm: Result<(), String>,
    fido2: Result<(), String>,
) -> (r: Result<(), String>)
    ensures
        r is Ok <==> (button.tpm() ==> tpm is Ok) && (button.fido2() ==> fido2 is Ok),
        button.tpm() && tpm is Err ==> r == tpm,
        button.fido2() && fido2 is Err && (button.tpm() ==> tpm is Ok) ==> r == fido2,
{
    if button.needs_tpm() {
        if let Err(e) = tpm {
            return Err(e);
        }
    }
    if button.needs_fido2() {
        if let Err(e) = fido2 {
            return Err(e);
        }
    }
    Ok(())
}

} // verus!
