//! Creating a vault.

use crate::kinds::{DeniableKindTag, Platform, PqParams, SlotKind, SlotKindArg};
use crate::requests::{CreateFacts, CreateOpts, pick_seed_secret, seed_secret, size_flags, size_flags_of};
use crate::script::{Act, LineView, Script, SecretRef, devices_first, lemma_devices_first, lemma_straight_concat, needs_no_device, step, stop, straight, writes_nothing};
use crate::text::{join2, join3};
use vstd::prelude::*;

verus! {

/// Registering a credential on the authenticator and deriving its secret.
/// `salt_lead` introduces an error of the random generator.
pub open spec fn register_lines(salt_lead: Seq<char>) -> Seq<LineView> {
    seq![
        step(Act::NewUserHandle, ""@),
        step(Act::RegisterCredential, ""@),
        step(Act::DrawSalt, salt_lead),
        step(Act::DeriveNewHmac, ""@),
    ]
}

pub fn register(salt_lead: &str) -> (s: Script)
    ensures
        s@ == register_lines(salt_lead@),
{
    Script::new().step(Act::NewUserHandle, "").step(Act::RegisterCredential, "").step(
        Act::DrawSalt,
        salt_lead,
    ).step(Act::DeriveNewHmac, "")
}

/// Which file of the new vault is there already.
pub open spec fn taken(o: CreateOpts, d: CreateFacts) -> Option<Seq<char>> {
    if d.vault_exists {
        Some(o.path@ + " already exists"@)
    } else if o.header_path is Some && d.header_exists {
        Some("header file "@ + o.header_path->0@ + " already exists"@)
    } else if o.anchor_path is Some && d.anchor_exists {
        Some("anchor file "@ + o.anchor_path->0@ + " already exists"@)
    } else {
        None
    }
}

pub(crate) fn taken_of(o: &CreateOpts, d: CreateFacts) -> (r: Option<String>)
    ensures
        match taken(*o, d) {
            Some(t) => r matches Some(s) && s@ == t,
            None => r is None,
        },
{
    if d.vault_exists {
        return Some(join2(o.path.as_str(), " already exists"));
    }
    if let Some(hp) = &o.header_path {
        if d.header_exists {
            return Some(join3("header file ", hp.as_str(), " already exists"));
        }
    }
    if let Some(ap) = &o.anchor_path {
        if d.anchor_exists {
            return Some(join3("anchor file ", ap.as_str(), " already exists"));
        }
    }
    None
}

/// Why a create request is refused before anything is touched.
pub open spec fn create_refusal(o: CreateOpts, d: CreateFacts, p: Platform) -> Option<Seq<char>> {
    if taken(o, d) is Some {
        taken(o, d)
    } else if (o.pad_files || o.hide_sizes) && o.kind == SlotKindArg::Fido2Direct {
        Some("size-hiding flags are not yet supported with fido2-direct"@)
    } else if o.use_deniable && o.header_path is Some {
        Some("detached headers are not yet supported in deniable mode"@)
    } else if o.use_deniable && o.kind == SlotKindArg::Fido2Direct {
        Some(
            "Fido2Direct is incompatible with deniable mode (it derives MVK directly, but deniable slots require a wrapped MVK). Use 'Fido2' (wrap-style) instead."@,
        )
    } else {
        missing_factor(o, d, p)
    }
}

/// Which factor of the chosen kind is missing.
pub open spec fn missing_factor(o: CreateOpts, d: CreateFacts, p: Platform) -> Option<Seq<char>> {
    match o.kind {
        SlotKindArg::Passphrase => if o.passphrase is None {
            Some("passphrase required"@)
        } else {
            None
        },
        SlotKindArg::Fido2 => if o.use_deniable && p.hardware {
            if o.passphrase is None {
                Some("passphrase required for v2 deniable FIDO2 envelope discovery"@)
            } else if o.pin is None {
                Some("FIDO2 PIN required"@)
            } else {
                None
            }
        } else if o.pin is None {
            Some("FIDO2 PIN required"@)
        } else if !p.hardware {
            Some("FIDO2 hardware support not compiled in"@)
        } else {
            None
        },
        SlotKindArg::Fido2Direct => if o.pin is None {
            Some("FIDO2 PIN required"@)
        } else if !p.hardware {
            Some("FIDO2 hardware support not compiled in"@)
        } else {
            None
        },
        SlotKindArg::HybridPq | SlotKindArg::HybridPq1024 => if o.passphrase is None {
            Some("passphrase required"@)
        } else if o.hybrid_kyber_path is None {
            if o.use_deniable {
                Some("hybrid-PQ deniable requires a path for the .kyber seed file"@)
            } else {
                Some("hybrid-pq requires a path for the .kyber seed file"@)
            }
        } else if !o.use_deniable && d.kyber_exists {
            Some(o.hybrid_kyber_path->0@ + " already exists; refusing to overwrite"@)
        } else {
            None
        },
        SlotKindArg::HybridPqFido2 | SlotKindArg::HybridPq1024Fido2 => if o.use_deniable
            && p.hardware {
            if o.pin is None {
                Some("FIDO2 PIN required"@)
            } else if o.passphrase is None {
                Some("hybrid-PQ + FIDO2 deniable: envelope passphrase required"@)
            } else if o.hybrid_kyber_path is None {
                Some(".kyber seed file path required"@)
            } else {
                None
            }
        } else if o.passphrase is None {
            Some("hybrid-pq-fido2 requires a seed-file passphrase"@)
        } else if o.pin is None {
            Some("FIDO2 PIN required"@)
        } else if o.hybrid_kyber_path is None {
            Some("hybrid-pq-fido2 requires a path for the .kyber seed file"@)
        } else if d.kyber_exists {
            Some(o.hybrid_kyber_path->0@ + " already exists; refusing to overwrite"@)
        } else if !p.hardware {
            Some("FIDO2 hardware support not compiled in"@)
        } else {
            None
        },
    }
}

/// The ML-KEM parameter set of a hybrid create kind.
pub open spec fn create_kem(k: SlotKindArg) -> PqParams {
    if k == SlotKindArg::HybridPq1024 || k == SlotKindArg::HybridPq1024Fido2 {
        PqParams::Ml1024
    } else {
        PqParams::Ml768
    }
}

fn create_kem_of(k: SlotKindArg) -> (p: PqParams)
    ensures
        p == create_kem(k),
{
    if k == SlotKindArg::HybridPq1024 || k == SlotKindArg::HybridPq1024Fido2 {
        PqParams::Ml1024
    } else {
        PqParams::Ml768
    }
}

pub open spec fn hybrid_passphrase_kind(kem: PqParams) -> SlotKind {
    if kem == PqParams::Ml1024 {
        SlotKind::HybridPqKem1024Passphrase
    } else {
        SlotKind::HybridPqKemPassphrase
    }
}

pub open spec fn hybrid_fido2_kind(kem: PqParams) -> SlotKind {
    if kem == PqParams::Ml1024 {
        SlotKind::HybridPqKem1024Fido2
    } else {
        SlotKind::HybridPqKemFido2
    }
}

/// A hybrid vault: encapsulate, create, then write the two ML-KEM files.
pub open spec fn hybrid_lines(kem: PqParams, create: Act, pw: SecretRef) -> Seq<LineView> {
    seq![
        step(Act::Encapsulate { kem }, ""@),
        step(create, ""@),
        step(Act::WriteFirstSidecar { kem }, ""@),
        step(Act::WriteSeed { pw }, ""@),
    ]
}

fn hybrid(kem: PqParams, create: Act, pw: SecretRef) -> (s: Script)
    ensures
        s@ == hybrid_lines(kem, create, pw),
{
    Script::new().step(Act::Encapsulate { kem }, "").step(create, "").step(
        Act::WriteFirstSidecar { kem },
        "",
    ).step(Act::WriteSeed { pw }, "")
}

pub open spec fn create_fido2_lines(create: Act) -> Seq<LineView> {
    register_lines("OS RNG failure generating FIDO2 hmac salt: "@).push(step(create, ""@))
}

/// A vault whose master key is wrapped under the authenticator's secret.
pub fn create_fido2_wrap(o: &CreateOpts) -> (s: Script)
    ensures
        s@ == create_fido2_lines(
            Act::CreateVault {
                kind: SlotKind::Fido2HmacSecret,
                flags: size_flags(*o),
                kdf: o.kdf,
            },
        ),
{
    register("OS RNG failure generating FIDO2 hmac salt: ").step(
        Act::CreateVault {
            kind: SlotKind::Fido2HmacSecret,
            flags: size_flags_of(o),
            kdf: o.kdf,
        },
        "",
    )
}

/// A vault whose master key is derived from the authenticator's secret.
pub fn create_fido2_direct(o: &CreateOpts) -> (s: Script)
    ensures
        s@ == create_fido2_lines(
            Act::CreateVault {
                kind: SlotKind::Fido2DerivedMvk,
                flags: size_flags(*o),
                kdf: o.kdf,
            },
        ),
{
    register("OS RNG failure generating FIDO2 hmac salt: ").step(
        Act::CreateVault {
            kind: SlotKind::Fido2DerivedMvk,
            flags: size_flags_of(o),
            kdf: o.kdf,
        },
        "",
    )
}

pub open spec fn create_hybrid_pq_lines(o: CreateOpts) -> Seq<LineView> {
    let kem = create_kem(o.kind);
    hybrid_lines(
        kem,
        Act::CreateVault { kind: hybrid_passphrase_kind(kem), flags: size_flags(o), kdf: o.kdf },
        seed_secret(o.hybrid_seed_pw),
    )
}

/// A vault under a passphrase and ML-KEM. The seed file is protected by its own
/// passphrase if one was given, else by that of the vault.
pub fn create_hybrid_pq(o: &CreateOpts) -> (s: Script)
    ensures
        s@ == create_hybrid_pq_lines(*o),
{
    let kem = create_kem_of(o.kind);
    let kind = match kem {
        PqParams::Ml768 => SlotKind::HybridPqKemPassphrase,
        PqParams::Ml1024 => SlotKind::HybridPqKem1024Passphrase,
    };
    hybrid(
        kem,
        Act::CreateVault { kind, flags: size_flags_of(o), kdf: o.kdf },
        pick_seed_secret(&o.hybrid_seed_pw),
    )
}

pub open spec fn create_hybrid_pq_fido2_lines(o: CreateOpts) -> Seq<LineView> {
    let kem = create_kem(o.kind);
    register_lines("OS RNG failure generating FIDO2 hmac salt: "@) + hybrid_lines(
        kem,
        Act::CreateVault { kind: hybrid_fido2_kind(kem), flags: size_flags(o), kdf: o.kdf },
        seed_secret(o.hybrid_seed_pw),
    )
}

/// A vault under an authenticator and ML-KEM. What passphrase there is protects
/// the seed file only: its own if one was given, else that of the request.
pub fn create_hybrid_pq_fido2(o: &CreateOpts) -> (s: Script)
    ensures
        s@ == create_hybrid_pq_fido2_lines(*o),
{
    let kem = create_kem_of(o.kind);
    let kind = match kem {
        PqParams::Ml768 => SlotKind::HybridPqKemFido2,
        PqParams::Ml1024 => SlotKind::HybridPqKem1024Fido2,
    };
    register("OS RNG failure generating FIDO2 hmac salt: ").append(
        hybrid(
            kem,
            Act::CreateVault { kind, flags: size_flags_of(o), kdf: o.kdf },
            pick_seed_secret(&o.hybrid_seed_pw),
        ),
    )
}

pub open spec fn create_hybrid_pq_passphrase_deniable_lines(o: CreateOpts) -> Seq<LineView> {
    hybrid_lines(
        create_kem(o.kind),
        Act::CreateDeniable {
            kind: DeniableKindTag::HybridPqPassphrase,
            flags: size_flags(o),
            kdf: o.kdf,
        },
        seed_secret(o.hybrid_seed_pw),
    )
}

/// The deniable counterpart of [`create_hybrid_pq`].
pub fn create_hybrid_pq_passphrase_deniable(o: &CreateOpts) -> (s: Script)
    ensures
        s@ == create_hybrid_pq_passphrase_deniable_lines(*o),
{
    hybrid(
        create_kem_of(o.kind),
        Act::CreateDeniable {
            kind: DeniableKindTag::HybridPqPassphrase,
            flags: size_flags_of(o),
            kdf: o.kdf,
        },
        pick_seed_secret(&o.hybrid_seed_pw),
    )
}

pub open spec fn create_hybrid_pq_fido2_deniable_lines(o: CreateOpts) -> Seq<LineView> {
    register_lines("OS RNG failure: "@) + hybrid_lines(
        create_kem(o.kind),
        Act::CreateDeniable {
            kind: DeniableKindTag::HybridPqFido2Passphrase,
            flags: size_flags(o),
            kdf: o.kdf,
        },
        seed_secret(o.hybrid_seed_pw),
    )
}

/// The deniable counterpart of [`create_hybrid_pq_fido2`].
pub fn create_hybrid_pq_fido2_deniable(o: &CreateOpts) -> (s: Script)
    ensures
        s@ == create_hybrid_pq_fido2_deniable_lines(*o),
{
    register("OS RNG failure: ").append(
        hybrid(
            create_kem_of(o.kind),
            Act::CreateDeniable {
                kind: DeniableKindTag::HybridPqFido2Passphrase,
                flags: size_flags_of(o),
                kdf: o.kdf,
            },
            pick_seed_secret(&o.hybrid_seed_pw),
        ),
    )
}

/// The lines that bring the container of a new vault about.
pub open spec fn create_body(o: CreateOpts) -> Seq<LineView> {
    let flags = size_flags(o);
    let kdf = o.kdf;
    match (o.kind, o.use_deniable) {
        (SlotKindArg::Passphrase, false) => seq![
            step(Act::CreateVault { kind: SlotKind::Passphrase, flags, kdf }, ""@),
        ],
        (SlotKindArg::Passphrase, true) => seq![
            step(Act::CreateDeniable { kind: DeniableKindTag::Passphrase, flags, kdf }, ""@),
        ],
        (SlotKindArg::Fido2, false) => create_fido2_lines(
            Act::CreateVault { kind: SlotKind::Fido2HmacSecret, flags, kdf },
        ),
        (SlotKindArg::Fido2, true) => register_lines("OS RNG failure: "@).push(
            step(Act::CreateDeniable { kind: DeniableKindTag::Fido2Passphrase, flags, kdf }, ""@),
        ),
        (SlotKindArg::Fido2Direct, _) => create_fido2_lines(
            Act::CreateVault { kind: SlotKind::Fido2DerivedMvk, flags, kdf },
        ),
        (SlotKindArg::HybridPq | SlotKindArg::HybridPq1024, false) => create_hybrid_pq_lines(o),
        (
            SlotKindArg::HybridPq | SlotKindArg::HybridPq1024,
            true,
        ) => create_hybrid_pq_passphrase_deniable_lines(o),
        (
            SlotKindArg::HybridPqFido2 | SlotKindArg::HybridPq1024Fido2,
            false,
        ) => create_hybrid_pq_fido2_lines(o),
        (
            SlotKindArg::HybridPqFido2 | SlotKindArg::HybridPq1024Fido2,
            true,
        ) => create_hybrid_pq_fido2_deniable_lines(o),
    }
}

/// The lines that follow once the container exists.
pub open spec fn create_tail(o: CreateOpts) -> Seq<LineView> {
    let anchor = if o.anchor_path is Some {
        seq![step(Act::InitAnchor, ""@)]
    } else {
        seq![]
    };
    let backup = if o.backup_passphrase is Some {
        seq![step(Act::EnrollBackup, ""@), step(Act::PersistHeader, ""@)]
    } else {
        seq![]
    };
    anchor + backup + seq![step(Act::OpenVfs { tolerant: false }, ""@)]
}

/// All lines of an accepted create request.
pub open spec fn create_lines(o: CreateOpts) -> Seq<LineView> {
    seq![step(Act::ChooseFormat { v3: o.use_v3_format }, ""@)] + create_body(o) + create_tail(o)
}

fn refusal_of(o: &CreateOpts, d: CreateFacts, p: Platform) -> (r: Option<String>)
    ensures
        match create_refusal(*o, d, p) {
            Some(t) => r matches Some(s) && s@ == t,
            None => r is None,
        },
{
    if let Some(t) = taken_of(o, d) {
        return Some(t);
    }
    if (o.pad_files || o.hide_sizes) && o.kind == SlotKindArg::Fido2Direct {
        return Some("size-hiding flags are not yet supported with fido2-direct".to_owned());
    }
    if o.use_deniable {
        if o.header_path.is_some() {
            return Some("detached headers are not yet supported in deniable mode".to_owned());
        }
        if o.kind == SlotKindArg::Fido2Direct {
            return Some(
                "Fido2Direct is incompatible with deniable mode (it derives MVK directly, but deniable slots require a wrapped MVK). Use 'Fido2' (wrap-style) instead.".to_owned(),
            );
        }
    }
    missing_factor_of(o, d, p)
}

fn missing_factor_of(o: &CreateOpts, d: CreateFacts, p: Platform) -> (r: Option<String>)
    ensures
        match missing_factor(*o, d, p) {
            Some(t) => r matches Some(s) && s@ == t,
            None => r is None,
        },
{
    match o.kind {
        SlotKindArg::Passphrase => {
            if o.passphrase.is_none() {
                return Some("passphrase required".to_owned());
            }
        },
        SlotKindArg::Fido2 => {
            if o.use_deniable && p.hardware && o.passphrase.is_none() {
                return Some(
                    "passphrase required for v2 deniable FIDO2 envelope discovery".to_owned(),
                );
            }
            if o.pin.is_none() {
                return Some("FIDO2 PIN required".to_owned());
            }
            if !p.hardware {
                return Some("FIDO2 hardware support not compiled in".to_owned());
            }
        },
        SlotKindArg::Fido2Direct => {
            if o.pin.is_none() {
                return Some("FIDO2 PIN required".to_owned());
            }
            if !p.hardware {
                return Some("FIDO2 hardware support not compiled in".to_owned());
            }
        },
        SlotKindArg::HybridPq | SlotKindArg::HybridPq1024 => {
            if o.passphrase.is_none() {
                return Some("passphrase required".to_owned());
            }
            match &o.hybrid_kyber_path {
                None => {
                    if o.use_deniable {
                        return Some(
                            "hybrid-PQ deniable requires a path for the .kyber seed file".to_owned(),
                        );
                    }
                    return Some("hybrid-pq requires a path for the .kyber seed file".to_owned());
                },
                Some(kp) => {
                    if !o.use_deniable && d.kyber_exists {
                        return Some(join2(kp.as_str(), " already exists; refusing to overwrite"));
                    }
                },
            }
        },
        SlotKindArg::HybridPqFido2 | SlotKindArg::HybridPq1024Fido2 => {
            if o.use_deniable && p.hardware {
                if o.pin.is_none() {
                    return Some("FIDO2 PIN required".to_owned());
                }
                if o.passphrase.is_none() {
                    return Some(
                        "hybrid-PQ + FIDO2 deniable: envelope passphrase required".to_owned(),
                    );
                }
                if o.hybrid_kyber_path.is_none() {
                    return Some(".kyber seed file path required".to_owned());
                }
            } else {
                if o.passphrase.is_none() {
                    return Some("hybrid-pq-fido2 requires a seed-file passphrase".to_owned());
                }
                if o.pin.is_none() {
                    return Some("FIDO2 PIN required".to_owned());
                }
                match &o.hybrid_kyber_path {
                    None => {
                        return Some(
                            "hybrid-pq-fido2 requires a path for the .kyber seed file".to_owned(),
                        );
                    },
                    Some(kp) => {
                        if d.kyber_exists {
                            return Some(
                                join2(kp.as_str(), " already exists; refusing to overwrite"),
                            );
                        }
                    },
                }
                if !p.hardware {
                    return Some("FIDO2 hardware support not compiled in".to_owned());
                }
            }
        },
    }
    None
}

fn body_of(o: &CreateOpts) -> (s: Script)
    ensures
        s@ == create_body(*o),
{
    let flags = size_flags_of(o);
    let kdf = o.kdf;
    match o.kind {
        SlotKindArg::Passphrase => {
            if o.use_deniable {
                Script::new().step(
                    Act::CreateDeniable { kind: DeniableKindTag::Passphrase, flags, kdf },
                    "",
                )
            } else {
                Script::new().step(
                    Act::CreateVault { kind: SlotKind::Passphrase, flags, kdf },
                    "",
                )
            }
        },
        SlotKindArg::Fido2 => {
            if o.use_deniable {
                register("OS RNG failure: ").step(
                    Act::CreateDeniable { kind: DeniableKindTag::Fido2Passphrase, flags, kdf },
                    "",
                )
            } else {
                create_fido2_wrap(o)
            }
        },
        SlotKindArg::Fido2Direct => create_fido2_direct(o),
        SlotKindArg::HybridPq | SlotKindArg::HybridPq1024 => {
            if o.use_deniable {
                create_hybrid_pq_passphrase_deniable(o)
            } else {
                create_hybrid_pq(o)
            }
        },
        SlotKindArg::HybridPqFido2 | SlotKindArg::HybridPq1024Fido2 => {
            if o.use_deniable {
                create_hybrid_pq_fido2_deniable(o)
            } else {
                create_hybrid_pq_fido2(o)
            }
        },
    }
}

fn tail_of(o: &CreateOpts) -> (s: Script)
    ensures
        s@ == create_tail(*o),
{
    let mut s = Script::new();
    if o.anchor_path.is_some() {
        s = s.step(Act::InitAnchor, "");
    }
    if o.backup_passphrase.is_some() {
        s = s.step(Act::EnrollBackup, "").step(Act::PersistHeader, "");
    }
    let r = s.step(Act::OpenVfs { tolerant: false }, "");
    assert(r@ =~= create_tail(*o));
    r
}

/// Creates a vault with one keyslot, plus a backup passphrase if one is given.
/// A request that cannot be met is refused with a single line.
pub fn create_vault(o: &CreateOpts, d: CreateFacts, p: Platform) -> (s: Script)
    ensures
        s@ == (match create_refusal(*o, d, p) {
            Some(t) => seq![stop(t)],
            None => create_lines(*o),
        }),
{
    match refusal_of(o, d, p) {
        Some(t) => Script::refuse(t.as_str()),
        None => {
            Script::new().step(Act::ChooseFormat { v3: o.use_v3_format }, "").append(
                body_of(o),
            ).append(tail_of(o))
        },
    }
}

/// An accepted create request is carried out from top to bottom: the script
/// has no jumps and stops for nothing but a failed act.
pub proof fn law_accepted_create_is_straight(o: CreateOpts)
    ensures
        straight(create_lines(o)),
{
    assert(straight(register_lines("OS RNG failure: "@)));
    assert(straight(register_lines("OS RNG failure generating FIDO2 hmac salt: "@)));
    if o.kind == SlotKindArg::HybridPqFido2 || o.kind == SlotKindArg::HybridPq1024Fido2 {
        if o.use_deniable {
            let h = hybrid_lines(
                create_kem(o.kind),
                Act::CreateDeniable {
                    kind: DeniableKindTag::HybridPqFido2Passphrase,
                    flags: size_flags(o),
                    kdf: o.kdf,
                },
                seed_secret(o.hybrid_seed_pw),
            );
            assert(straight(h));
            lemma_straight_concat(register_lines("OS RNG failure: "@), h);
        } else {
            let h = hybrid_lines(
                create_kem(o.kind),
                Act::CreateVault {
                    kind: hybrid_fido2_kind(create_kem(o.kind)),
                    flags: size_flags(o),
                    kdf: o.kdf,
                },
                seed_secret(o.hybrid_seed_pw),
            );
            assert(straight(h));
            lemma_straight_concat(
                register_lines("OS RNG failure generating FIDO2 hmac salt: "@),
                h,
            );
        }
    }
    assert(straight(create_body(o)));
    assert(straight(create_tail(o)));
    let first = seq![step(Act::ChooseFormat { v3: o.use_v3_format }, ""@)];
    assert(straight(first));
    lemma_straight_concat(first, create_body(o));
    lemma_straight_concat(first + create_body(o), create_tail(o));
}

/// A missing or unwilling authenticator leaves no file behind: it is asked
/// before the vault is created.
pub proof fn law_create_asks_hardware_first(o: CreateOpts)
    ensures
        devices_first(create_lines(o)),
{
    let salt = "OS RNG failure: "@;
    let salt2 = "OS RNG failure generating FIDO2 hmac salt: "@;
    assert(writes_nothing(register_lines(salt)) && writes_nothing(register_lines(salt2)));
    let flags = size_flags(o);
    let kem = create_kem(o.kind);
    let deniable = hybrid_lines(
        kem,
        Act::CreateDeniable { kind: DeniableKindTag::HybridPqFido2Passphrase, flags, kdf: o.kdf },
        seed_secret(o.hybrid_seed_pw),
    );
    let standard = hybrid_lines(
        kem,
        Act::CreateVault { kind: hybrid_fido2_kind(kem), flags, kdf: o.kdf },
        seed_secret(o.hybrid_seed_pw),
    );
    assert(devices_first(deniable) && devices_first(standard));
    lemma_devices_first(register_lines(salt), deniable);
    lemma_devices_first(register_lines(salt2), standard);
    assert(devices_first(create_body(o)));
    assert(needs_no_device(create_tail(o)));
    let first = seq![step(Act::ChooseFormat { v3: o.use_v3_format }, ""@)];
    assert(writes_nothing(first));
    lemma_devices_first(first, create_body(o));
    lemma_devices_first(first + create_body(o), create_tail(o));
}

} // verus!
