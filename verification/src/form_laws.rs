//! What the forms show is what is asked for.

use crate::forms::{
    CipherChoice, CreateForm, CreateKind, EmptyPassphraseTarget, Factor, asks_for,
    bootstrap_refusal, bootstrap_takes_pin, create_verdict, is_bootstrap_of, secrets_taken,
};
use crate::kinds::{CipherSuite, KdfStrength, Platform, PqParams, SlotKindArg, TargetOs, TpmBootstrapKind, UnlockMethod};
use crate::offers::{AddKeyslot, Field, buttons, create_title_text, fields, methods, unlock_field_seq, variants};
use crate::requests::{CreateOpts, UnlockOpts};
use crate::text::{trim, white};
use crate::text_laws::law_trim_keeps_the_middle;
use crate::unlock_asked::ready;
use crate::unlock_form::{UnlockForm, first_mark, first_method, form_passphrase, form_pin, form_refusal, form_seed, form_touch, unlock_asks_for};
use crate::unlock_tries::asked;
use vstd::prelude::*;

verus! {

/// What a variant of the create form binds a vault to.
pub struct Shown {
    pub tpm: bool,
    pub fido2: bool,
    pub kem: Option<PqParams>,
}

/// What each variant binds a vault to.
pub open spec fn shown(k: CreateKind) -> Shown {
    let plain = Shown { tpm: false, fido2: false, kem: None };
    match k {
        CreateKind::Passphrase => plain,
        CreateKind::Fido2 => Shown { fido2: true, ..plain },
        CreateKind::Fido2Direct => Shown { fido2: true, ..plain },
        CreateKind::HybridPq => Shown { kem: Some(PqParams::Ml768), ..plain },
        CreateKind::HybridPqFido2 => Shown { fido2: true, kem: Some(PqParams::Ml768), ..plain },
        CreateKind::HybridPq1024 => Shown { kem: Some(PqParams::Ml1024), ..plain },
        CreateKind::HybridPq1024Fido2 => Shown {
            fido2: true,
            kem: Some(PqParams::Ml1024),
            ..plain
        },
        CreateKind::Tpm2 => Shown { tpm: true, ..plain },
        CreateKind::Tpm2Pin => Shown { tpm: true, ..plain },
        CreateKind::Tpm2Fido2 => Shown { tpm: true, fido2: true, ..plain },
        CreateKind::HybridPqTpm2 => Shown { tpm: true, kem: Some(PqParams::Ml768), ..plain },
        CreateKind::HybridPq1024Tpm2 => Shown { tpm: true, kem: Some(PqParams::Ml1024), ..plain },
        CreateKind::HybridPqTpm2Fido2 => Shown {
            tpm: true,
            fido2: true,
            kem: Some(PqParams::Ml768),
        },
        CreateKind::HybridPq1024Tpm2Fido2 => Shown {
            tpm: true,
            fido2: true,
            kem: Some(PqParams::Ml1024),
        },
    }
}

/// Whether a field holds anything but white space.
pub open spec fn says_something(field: Seq<char>) -> bool {
    exists|i: int| 0 <= i < field.len() && !white(#[trigger] field[i])
}

/// Whether a passphrase field that should not be empty is.
pub open spec fn lacks_passphrase(f: CreateForm) -> bool {
    if f.kind == CreateKind::Fido2Direct {
        f.backup_passphrase@.len() == 0
    } else {
        f.kind != CreateKind::Fido2 && f.passphrase@.len() == 0
    }
}

/// The create form is ready exactly if every path that is in use is filled in,
/// and a passphrase that is missing was confirmed; about one that was not, the
/// user is asked. Secrets leave a form that is ready, and stay in one about which
/// the user is asked.
pub proof fn law_create_form_is_ready_when_filled_in(f: CreateForm, confirmed: bool)
    ensures
        create_verdict(f, confirmed) is Ready <==> {
            &&& says_something(f.path@)
            &&& lacks_passphrase(f) ==> confirmed
            &&& f.use_detached ==> says_something(f.header_path@)
            &&& f.use_anchor ==> says_something(f.anchor_path@)
            &&& shown(f.kind).kem is Some && !shown(f.kind).tpm ==> says_something(
                f.hybrid_kyber_path@,
            )
        },
        create_verdict(f, confirmed) is Confirm <==> says_something(f.path@) && lacks_passphrase(f)
            && !confirmed,
        create_verdict(f, confirmed) is Confirm ==> create_verdict(f, confirmed)->Confirm_0 == (
        if f.kind == CreateKind::Fido2Direct {
            EmptyPassphraseTarget::Fido2DirectBackup
        } else {
            EmptyPassphraseTarget::CreateVault
        }),
        create_verdict(f, confirmed) is Ready ==> secrets_taken(f, confirmed),
        create_verdict(f, confirmed) is Confirm || !says_something(f.path@) ==> !secrets_taken(
            f,
            confirmed,
        ),
{
    law_trim_keeps_the_middle(f.path@);
    law_trim_keeps_the_middle(f.header_path@);
    law_trim_keeps_the_middle(f.anchor_path@);
    law_trim_keeps_the_middle(f.hybrid_kyber_path@);
}

/// Whether an optional path is a field without the white space around it.
pub open spec fn is_field(path: Option<String>, field: Seq<char>) -> bool {
    path matches Some(p) && p@ == trim(field)
}

/// A request that the create form makes asks for a standard vault of the current
/// format, at the path and with the header and anchor files that are shown, under
/// the cipher and the strength picked; its first slot is the variant picked, or a
/// passphrase slot if a TPM slot is to follow; and each secret goes where it
/// belongs.
pub proof fn law_create_form_asks_for_what_it_shows(f: CreateForm, o: CreateOpts)
    requires
        asks_for(f, o),
    ensures
        o.path@ == trim(f.path@),
        f.use_detached ==> is_field(o.header_path, f.header_path@),
        !f.use_detached ==> o.header_path is None,
        f.use_anchor ==> is_field(o.anchor_path, f.anchor_path@),
        !f.use_anchor ==> o.anchor_path is None,
        f.cipher == CipherChoice::AesSiv ==> o.cipher == CipherSuite::Aes256GcmSiv,
        f.cipher == CipherChoice::Aes ==> o.cipher == CipherSuite::Aes256Gcm,
        f.cipher == CipherChoice::Chacha ==> o.cipher == CipherSuite::ChaCha20Poly1305,
        o.kdf == f.kdf,
        o.pad_files == f.pad_files,
        o.hide_sizes == f.hide_sizes,
        !o.use_deniable,
        o.use_v3_format,
        o.enable_recovery_passphrase,
        o.hybrid_seed_pw is None,
        ({
            let s = shown(f.kind);
            let kem = if s.tpm {
                None
            } else {
                s.kem
            };
            let fido2 = s.fido2 && !s.tpm;
            &&& o.kind == (match kem {
                None => if f.kind == CreateKind::Fido2Direct {
                    SlotKindArg::Fido2Direct
                } else if fido2 {
                    SlotKindArg::Fido2
                } else {
                    SlotKindArg::Passphrase
                },
                Some(PqParams::Ml768) => if fido2 {
                    SlotKindArg::HybridPqFido2
                } else {
                    SlotKindArg::HybridPq
                },
                Some(PqParams::Ml1024) => if fido2 {
                    SlotKindArg::HybridPq1024Fido2
                } else {
                    SlotKindArg::HybridPq1024
                },
            })
            &&& kem is Some ==> is_field(o.hybrid_kyber_path, f.hybrid_kyber_path@)
            &&& kem is None ==> o.hybrid_kyber_path is None
            &&& fido2 ==> o.pin == Some(f.pin)
            &&& !fido2 ==> o.pin is None
        }),
        f.kind == CreateKind::Fido2 || f.kind == CreateKind::Fido2Direct ==> o.passphrase is None,
        f.kind != CreateKind::Fido2 && f.kind != CreateKind::Fido2Direct ==> o.passphrase == Some(
            f.passphrase,
        ),
        f.kind == CreateKind::Fido2Direct && f.backup_passphrase@.len() > 0 ==> o.backup_passphrase
            == Some(f.backup_passphrase),
        f.kind != CreateKind::Fido2Direct || f.backup_passphrase@.len() == 0
            ==> o.backup_passphrase is None,
{
}

/// The TPM slot that a create form asks for is refused exactly if the path of
/// its seed file or its PIN is missing.
pub proof fn law_bootstrap_is_refused_for_a_reason(f: CreateForm)
    ensures
        bootstrap_refusal(f) is None <==> (shown(f.kind).tpm ==> {
            &&& shown(f.kind).kem is Some ==> says_something(f.hybrid_kyber_path@)
            &&& shown(f.kind).fido2 || f.kind == CreateKind::Tpm2Pin ==> f.pin@.len() > 0
        }),
        bootstrap_refusal(f) is None ==> (bootstrap_takes_pin(f) <==> shown(f.kind).tpm && (shown(
            f.kind,
        ).fido2 || f.kind == CreateKind::Tpm2Pin)),
        f.kind.tpm() == shown(f.kind).tpm,
        f.kind.fido2() == shown(f.kind).fido2,
{
    law_trim_keeps_the_middle(f.hybrid_kyber_path@);
}

/// Whether two texts are the seed file's own passphrase, or the backup if it has
/// none of its own.
pub open spec fn protects_seed(pw: Seq<char>, own: Seq<char>, backup: Option<String>) -> bool {
    if own.len() > 0 {
        pw == own
    } else {
        match backup {
            Some(b) => pw == b@,
            None => pw.len() == 0,
        }
    }
}

/// The TPM slot that a create form leads to binds what the variant shows: a PIN
/// for the chip, an authenticator, a seed of the strength shown, each with the
/// field that belongs to it.
pub proof fn law_bootstrap_binds_what_is_shown(
    f: CreateForm,
    backup: Option<String>,
    t: TpmBootstrapKind,
)
    requires
        is_bootstrap_of(f, backup, t),
    ensures
        shown(f.kind).tpm,
        t is Tpm2 <==> f.kind == CreateKind::Tpm2,
        t is Tpm2Pin <==> f.kind == CreateKind::Tpm2Pin,
        t is Tpm2Fido2 || t is HybridPqTpm2Fido2 <==> shown(f.kind).fido2,
        t is HybridPqTpm2 || t is HybridPqTpm2Fido2 <==> shown(f.kind).kem is Some,
        t matches TpmBootstrapKind::Tpm2Pin { pin } ==> pin == f.pin,
        t matches TpmBootstrapKind::Tpm2Fido2 { pin } ==> pin == f.pin,
        t matches TpmBootstrapKind::HybridPqTpm2 { kyber_path, seed_pw, kem_size } ==> {
            &&& kyber_path@ == trim(f.hybrid_kyber_path@)
            &&& protects_seed(seed_pw@, f.hybrid_seed_pw@, backup)
            &&& kem_size == 768 <==> shown(f.kind).kem == Some(PqParams::Ml768)
            &&& kem_size == 1024 <==> shown(f.kind).kem == Some(PqParams::Ml1024)
        },
        t matches TpmBootstrapKind::HybridPqTpm2Fido2 { kyber_path, seed_pw, pin, kem_size } ==> {
            &&& kyber_path@ == trim(f.hybrid_kyber_path@)
            &&& protects_seed(seed_pw@, f.hybrid_seed_pw@, backup)
            &&& pin == f.pin
            &&& kem_size == 768 <==> shown(f.kind).kem == Some(PqParams::Ml768)
            &&& kem_size == 1024 <==> shown(f.kind).kem == Some(PqParams::Ml1024)
        },
{
    reveal_strlit("");
}

/// The variants of a factor are those that show it, with the simplest one first
/// and none twice. Switching to a factor selects that one.
pub proof fn law_variants_show_their_factor(f: Factor, k: CreateKind)
    ensures
        variants(f).contains(k) <==> f == (if shown(k).tpm {
            Factor::Tpm2
        } else if shown(k).fido2 {
            Factor::Fido2
        } else {
            Factor::Passphrase
        }),
        variants(f)[0] == f.simplest_spec(),
        shown(f.simplest_spec()).kem is None,
        variants(f).no_duplicates(),
{
    crate::offers::law_variants_partition_the_kinds(f, k);
    let v = variants(f);
    assert(v.no_duplicates());
}

/// The create form asks for what the variant needs, each once: a PIN for an
/// authenticator or for the chip, a passphrase unless the authenticator stands
/// alone, a path for the seed file, and a passphrase of its own for one that
/// belongs to a TPM slot.
pub proof fn law_create_form_has_the_fields_it_needs(k: CreateKind)
    ensures
        fields(k).contains(Field::Passphrase) <==> k != CreateKind::Fido2 && k
            != CreateKind::Fido2Direct,
        fields(k).contains(Field::BackupPassphrase) <==> k == CreateKind::Fido2Direct,
        fields(k).contains(Field::Pin) <==> shown(k).fido2 || k == CreateKind::Tpm2Pin,
        fields(k).contains(Field::SeedPath) <==> shown(k).kem is Some,
        fields(k).contains(Field::SeedPassphrase) <==> shown(k).kem is Some && shown(k).tpm,
        fields(k).no_duplicates(),
{
    crate::offers::law_fields_match_the_submission(k);
}

/// Whether the unlock form has a method: those of the Secure Enclave it has not.
pub open spec fn in_form(m: UnlockMethod) -> bool {
    !asked(m).sep
}

/// The unlock form offers each method that it has, once; those with a TPM under
/// Linux only. It asks for what the method needs, each once, and for nothing
/// else.
pub proof fn law_unlock_form_has_the_fields_it_needs(m: UnlockMethod, os: TargetOs)
    ensures
        methods(os).contains(m) <==> in_form(m) && (asked(m).tpm ==> os == TargetOs::Linux),
        methods(os).no_duplicates(),
        form_passphrase(m) <==> in_form(m) && (asked(m).seed || m == UnlockMethod::Passphrase),
        form_pin(m) <==> in_form(m) && (asked(m).fido2 || m == UnlockMethod::Tpm2Pin),
        form_seed(m) <==> in_form(m) && asked(m).seed,
        form_touch(m) <==> in_form(m) && asked(m).fido2,
        unlock_field_seq(m).contains(Field::Passphrase) <==> form_passphrase(m),
        unlock_field_seq(m).contains(Field::Pin) <==> form_pin(m),
        unlock_field_seq(m).contains(Field::SeedPath) <==> form_seed(m),
        !unlock_field_seq(m).contains(Field::SeedPassphrase),
        !unlock_field_seq(m).contains(Field::BackupPassphrase),
        unlock_field_seq(m).no_duplicates(),
{
    crate::offers::law_unlock_fields_match_the_submission(m);
    let v = methods(os);
    if v.contains(m) {
        let i = choose|i: int| 0 <= i < v.len() && v[i] == m;
        assert(in_form(v[i]));
    }
    assert(v.contains(v[0]) && v.contains(v[1]) && v.contains(v[2]) && v.contains(v[3]));
    if os == TargetOs::Linux {
        assert(v.contains(v[4]) && v.contains(v[5]) && v.contains(v[6]) && v.contains(v[7])
            && v.contains(v[8]));
    }
}

/// The unlock form is refused exactly if the path of the vault, or of a seed
/// file that is needed, is missing.
pub proof fn law_unlock_form_is_refused_for_a_reason(f: UnlockForm)
    ensures
        form_refusal(f) is None <==> says_something(f.path@) && (in_form(f.method) && asked(
            f.method,
        ).seed ==> says_something(f.hybrid_kyber_path@)),
{
    law_trim_keeps_the_middle(f.path@);
    law_trim_keeps_the_middle(f.hybrid_kyber_path@);
}

/// A request that the unlock form makes asks for the method picked, at the path
/// and with the header and anchor files that are shown, with the secrets that
/// were typed in; it is not refused for want of anything but the hardware.
pub proof fn law_unlock_form_asks_for_what_it_shows(f: UnlockForm, o: UnlockOpts, p: Platform)
    requires
        unlock_asks_for(f, o),
    ensures
        o.path@ == trim(f.path@),
        f.use_detached && says_something(f.header_path@) ==> is_field(
            o.header_path,
            f.header_path@,
        ),
        !f.use_detached || !says_something(f.header_path@) ==> o.header_path is None,
        f.use_anchor && says_something(f.anchor_path@) ==> is_field(
            o.anchor_path,
            f.anchor_path@,
        ),
        !f.use_anchor || !says_something(f.anchor_path@) ==> o.anchor_path is None,
        o.method == f.method,
        o.passphrase is Some ==> o.passphrase == Some(f.passphrase),
        o.pin is Some ==> o.pin == Some(f.pin),
        o.hybrid_kyber_path is Some ==> is_field(o.hybrid_kyber_path, f.hybrid_kyber_path@),
        !o.use_deniable,
        !o.recovery_mode,
        o.hybrid_seed_pw is None,
        in_form(f.method) && p.hardware ==> ready(o, p),
{
    law_trim_keeps_the_middle(f.header_path@);
    law_trim_keeps_the_middle(f.anchor_path@);
}

/// The method that is offered first asks for a seed exactly if the vault is known
/// to have one, for the authenticator exactly if the vault knows one and one is
/// plugged in, and for nothing else.
pub proof fn law_first_method_fits_the_vault(has_hybrid_pq: bool, has_fido2: bool, device: bool)
    ensures
        ({
            let m = first_method(has_hybrid_pq, has_fido2, device);
            &&& asked(m).seed == has_hybrid_pq
            &&& asked(m).fido2 == (has_fido2 && device)
            &&& !asked(m).tpm && !asked(m).sep
        }),
{
}

/// The first mark is one before which there is none.
pub proof fn law_first_mark_is_first(same: Seq<bool>, from: int)
    requires
        0 <= from,
    ensures
        match first_mark(same, from) {
            Some(i) => from <= i < same.len() && same[i] && forall|k: int|
                from <= k < i ==> !(#[trigger] same[k]),
            None => forall|k: int| from <= k < same.len() ==> !(#[trigger] same[k]),
        },
    decreases same.len() - from,
{
    if from < same.len() && !same[from] {
        law_first_mark_is_first(same, from + 1);
    }
}

/// The keyslot screen offers a passphrase and an authenticator everywhere, and
/// under Linux every TPM slot, in both strengths of ML-KEM where it has one; each
/// once. A button looks for the devices that its slot binds.
pub proof fn law_keyslots_are_offered(b: AddKeyslot, os: TargetOs)
    ensures
        buttons(os).contains(b) <==> match b {
            AddKeyslot::Passphrase | AddKeyslot::Fido2 => true,
            AddKeyslot::Tpm2 | AddKeyslot::Tpm2Pin | AddKeyslot::Tpm2Fido2 => os
                == TargetOs::Linux,
            AddKeyslot::HybridTpm2 { kem_size } => os == TargetOs::Linux && (kem_size == 768
                || kem_size == 1024),
            AddKeyslot::HybridTpm2Fido2 { kem_size } => os == TargetOs::Linux && (kem_size == 768
                || kem_size == 1024),
        },
        buttons(os).no_duplicates(),
        b.tpm() <==> b is Tpm2 || b is Tpm2Pin || b is Tpm2Fido2 || b is HybridTpm2
            || b is HybridTpm2Fido2,
        b.fido2() <==> b is Fido2 || b is Tpm2Fido2 || b is HybridTpm2Fido2,
{
    let v = buttons(os);
    assert(v.contains(v[0]) && v.contains(v[1]));
    if os == TargetOs::Linux {
        assert(v.contains(v[2]) && v.contains(v[3]) && v.contains(v[4]) && v.contains(v[5])
            && v.contains(v[6]) && v.contains(v[7]) && v.contains(v[8]));
    }
    if v.contains(b) {
        let i = choose|i: int| 0 <= i < v.len() && v[i] == b;
    }
}

/// The heading over the fields of a variant names the strength of its ML-KEM
/// part, and the backup passphrase of a TPM variant, behind what else it binds.
pub proof fn law_titles_name_what_is_shown(k: CreateKind)
    requires
        shown(k).kem is Some,
    ensures
        ({
            let s = shown(k);
            let lead = if s.tpm && s.fido2 {
                "3-factor: TPM 2.0 + FIDO2"@
            } else if s.tpm {
                "Hybrid TPM 2.0"@
            } else if s.fido2 {
                "Hybrid FIDO2"@
            } else {
                "Hybrid passphrase"@
            };
            let strength = if s.kem == Some(PqParams::Ml1024) {
                " + ML-KEM-1024"@
            } else {
                " + ML-KEM-768"@
            };
            create_title_text(k) == if s.tpm {
                lead + strength + " + backup passphrase"@
            } else {
                lead + strength
            }
        }),
{
    reveal_strlit("3-factor: TPM 2.0 + FIDO2");
    reveal_strlit("Hybrid TPM 2.0");
    reveal_strlit("Hybrid FIDO2");
    reveal_strlit("Hybrid passphrase");
    reveal_strlit(" + ML-KEM-1024");
    reveal_strlit(" + ML-KEM-768");
    reveal_strlit(" + backup passphrase");
    match k {
        CreateKind::HybridPq => {
            reveal_strlit("Hybrid passphrase + ML-KEM-768");
            assert(create_title_text(k) =~= "Hybrid passphrase"@ + " + ML-KEM-768"@);
        },
        CreateKind::HybridPq1024 => {
            reveal_strlit("Hybrid passphrase + ML-KEM-1024");
            assert(create_title_text(k) =~= "Hybrid passphrase"@ + " + ML-KEM-1024"@);
        },
        CreateKind::HybridPqFido2 => {
            reveal_strlit("Hybrid FIDO2 + ML-KEM-768");
            assert(create_title_text(k) =~= "Hybrid FIDO2"@ + " + ML-KEM-768"@);
        },
        CreateKind::HybridPq1024Fido2 => {
            reveal_strlit("Hybrid FIDO2 + ML-KEM-1024");
            assert(create_title_text(k) =~= "Hybrid FIDO2"@ + " + ML-KEM-1024"@);
        },
        CreateKind::HybridPqTpm2 => {
            reveal_strlit("Hybrid TPM 2.0 + ML-KEM-768 + backup passphrase");
            assert(create_title_text(k) =~= "Hybrid TPM 2.0"@ + " + ML-KEM-768"@
                + " + backup passphrase"@);
        },
        CreateKind::HybridPq1024Tpm2 => {
            reveal_strlit("Hybrid TPM 2.0 + ML-KEM-1024 + backup passphrase");
            assert(create_title_text(k) =~= "Hybrid TPM 2.0"@ + " + ML-KEM-1024"@
                + " + backup passphrase"@);
        },
        CreateKind::HybridPqTpm2Fido2 => {
            reveal_strlit("3-factor: TPM 2.0 + FIDO2 + ML-KEM-768 + backup passphrase");
            assert(create_title_text(k) =~= "3-factor: TPM 2.0 + FIDO2"@ + " + ML-KEM-768"@
                + " + backup passphrase"@);
        },
        CreateKind::HybridPq1024Tpm2Fido2 => {
            reveal_strlit("3-factor: TPM 2.0 + FIDO2 + ML-KEM-1024 + backup passphrase");
            assert(create_title_text(k) =~= "3-factor: TPM 2.0 + FIDO2"@ + " + ML-KEM-1024"@
                + " + backup passphrase"@);
        },
        _ => {},
    }
}

/// A form that nobody has touched holds no text and no secret, has every switch
/// off, and is set to the first of what it offers: a passphrase.
pub proof fn law_blank_forms_hold_nothing(c: CreateForm, u: UnlockForm)
    requires
        c.is_blank(),
        u.is_blank(),
    ensures
        c.path@ + c.header_path@ + c.anchor_path@ + c.hybrid_kyber_path@ == Seq::<char>::empty(),
        c.passphrase@ + c.backup_passphrase@ + c.pin@ + c.hybrid_seed_pw@ == Seq::<char>::empty(),
        !(c.use_detached || c.use_anchor || c.pad_files || c.hide_sizes),
        c.kind == CreateKind::Passphrase && c.cipher == CipherChoice::AesSiv,
        c.kdf == KdfStrength::Interactive,
        u.path@ + u.header_path@ + u.anchor_path@ + u.hybrid_kyber_path@ == Seq::<char>::empty(),
        u.passphrase@ + u.pin@ == Seq::<char>::empty(),
        !(u.use_detached || u.use_anchor),
        u.method == UnlockMethod::Passphrase,
        u.slot_inspection is None,
{
}

} // verus!
