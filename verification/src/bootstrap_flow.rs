//! Creating a vault with a passphrase and then binding it to the hardware.
//!
//! The first script creates the vault, the second enrolls the hardware slot.
//! If the enroll fails, it is undone together with the vault. If it succeeds, a
//! TPM slot stays behind the passphrase, and a Secure Enclave slot is moved to
//! the front.

use crate::bootstrap::{combined_anchor_undo, combined_anchor_undo_of, create_vault_with_tpm_factors_deniable, create_vault_with_tpm_factors_only, finish, finish_lines, hybrid_file_lines, hybrid_files, no_sep_text, no_tpm_text, tpm_factors, tpm_factors_deniable_lines, tpm_factors_only_lines};
use crate::create::{create_lines, create_refusal, create_vault, register, register_lines, taken, taken_of};
use crate::enroll::{SeedTarget, enroll_hybrid_pq_sep, enroll_hybrid_pq_sep_lines, enroll_hybrid_pq_tpm2, enroll_hybrid_pq_tpm2_deniable, enroll_hybrid_pq_tpm2_fido2, enroll_hybrid_pq_tpm2_fido2_deniable, enroll_hybrid_pq_tpm2_fido2_lines, enroll_hybrid_pq_tpm2_lines, enroll_sep, enroll_sep_fused, enroll_sep_fused_lines, enroll_sep_lines, enroll_tpm2, enroll_tpm2_deniable, enroll_tpm2_deniable_lines, enroll_tpm2_fido2, enroll_tpm2_fido2_deniable, enroll_tpm2_fido2_lines, enroll_tpm2_lines, enroll_tpm2_pin, enroll_tpm2_pin_lines, sep_seal, sep_seal_lines, tpm_combo_deniable_lines};
use crate::kinds::{DeniableKindTag, Platform, PqParams, SepBootstrapKind, SlotKind, TpmBootstrapKind, kem_or_768, pq_params_or_768};
use crate::requests::{CreateFacts, CreateOpts, size_flags, size_flags_of};
use crate::script::{Act, Goto, Line, LineView, OnFail, Script, act_of, attempt, is_step, lead_of, step, step_or, stop};
use crate::text::{decimal, decimal_text, join2, join3};
use vstd::prelude::*;

verus! {

/// The first script of a bootstrap, and whether a slot is to be enrolled once
/// it has succeeded.
pub struct Bootstrap {
    pub script: Script,
    pub enroll: bool,
}

/// Whether an act creates the vault.
pub open spec fn creates(act: Act) -> bool {
    act is CreateVault || act is CreateDeniable
}

fn creates_vault(act: Act) -> (b: bool)
    ensures
        b == creates(act),
{
    match act {
        Act::CreateVault { .. } => true,
        Act::CreateDeniable { .. } => true,
        _ => false,
    }
}

/// What a create may leave on disk.
pub enum Made {
    /// The vault, with its header.
    Vault,
    Sidecar,
    Anchor,
}

/// Whether an act writes `m`.
pub open spec fn makes(act: Act, m: Made) -> bool {
    match m {
        Made::Vault => creates(act),
        Made::Sidecar => act is WriteFirstSidecar || act is AppendSidecar || act is MergeSidecar,
        Made::Anchor => act is InitAnchor,
    }
}

fn writes_sidecar(act: Act) -> (b: bool)
    ensures
        b == makes(act, Made::Sidecar),
{
    match act {
        Act::WriteFirstSidecar { .. } => true,
        Act::AppendSidecar { .. } => true,
        Act::MergeSidecar { .. } => true,
        _ => false,
    }
}

fn writes_anchor(act: Act) -> (b: bool)
    ensures
        b == makes(act, Made::Anchor),
{
    match act {
        Act::InitAnchor => true,
        _ => false,
    }
}

/// Whether a line before `i` or at it may have written `m`, even in part.
pub open spec fn made_by(lines: Seq<LineView>, i: int, m: Made) -> bool {
    exists|k: int|
        0 <= k <= i && k < lines.len() && (#[trigger] lines[k]) is Do && makes(act_of(lines[k]), m)
}

proof fn lemma_made_by(lines: Seq<LineView>, i: int, m: Made)
    requires
        0 <= i < lines.len(),
    ensures
        made_by(lines, i, m) == (made_by(lines, i - 1, m) || (lines[i] is Do && makes(
            act_of(lines[i]),
            m,
        ))),
{
    if made_by(lines, i, m) {
        let k = choose|k: int|
            0 <= k <= i && k < lines.len() && (#[trigger] lines[k]) is Do && makes(
                act_of(lines[k]),
                m,
            );
        assert(lines[k] is Do);
    }
    if made_by(lines, i - 1, m) {
        let k = choose|k: int|
            0 <= k <= i - 1 && k < lines.len() && (#[trigger] lines[k]) is Do && makes(
                act_of(lines[k]),
                m,
            );
        assert(lines[k] is Do);
    }
}

/// Whether the header is a file of its own. A deniable vault has none.
pub open spec fn detached(o: CreateOpts) -> bool {
    o.header_path is Some && !o.use_deniable
}

/// Removing the given files of a create.
pub open spec fn removing(o: CreateOpts, vault: bool, anchor: bool, sidecar: bool) -> Seq<Act> {
    let v = if !vault {
        seq![]
    } else if detached(o) {
        seq![Act::RemoveVault, Act::RemoveHeader]
    } else {
        seq![Act::RemoveVault]
    };
    let a = if anchor {
        seq![Act::RemoveAnchor]
    } else {
        seq![]
    };
    let s = if sidecar {
        seq![Act::RemoveSidecar]
    } else {
        seq![]
    };
    v + a + s
}

fn removal_list(o: &CreateOpts, vault: bool, anchor: bool, sidecar: bool) -> (v: Vec<Act>)
    ensures
        v@ == removing(*o, vault, anchor, sidecar),
{
    let mut v: Vec<Act> = Vec::new();
    if vault {
        v.push(Act::RemoveVault);
        if o.header_path.is_some() && !o.use_deniable {
            v.push(Act::RemoveHeader);
        }
    }
    if anchor {
        v.push(Act::RemoveAnchor);
    }
    if sidecar {
        v.push(Act::RemoveSidecar);
    }
    assert(v@ =~= removing(*o, vault, anchor, sidecar));
    v
}

/// Removing whatever the lines up to `i` may have written.
pub open spec fn leftovers(o: CreateOpts, lines: Seq<LineView>, i: int) -> Seq<Act> {
    removing(
        o,
        made_by(lines, i, Made::Vault),
        made_by(lines, i, Made::Anchor),
        made_by(lines, i, Made::Sidecar),
    )
}

/// The lines of a create, with the removal of what was written so far behind
/// every step.
pub open spec fn cleaned(o: CreateOpts, lines: Seq<LineView>) -> Seq<LineView> {
    Seq::new(
        lines.len(),
        |i: int|
            if is_step(lines[i]) {
                step_or(act_of(lines[i]), lead_of(lines[i]), leftovers(o, lines, i))
            } else {
                lines[i]
            },
    )
}

fn with_cleanup(o: &CreateOpts, script: Script) -> (s: Script)
    ensures
        s@ == cleaned(*o, script@),
{
    let ghost before = script@;
    let mut rest = script.lines;
    let mut s = Script::new();
    let mut vault: bool = false;
    let mut anchor: bool = false;
    let mut sidecar: bool = false;
    let ghost mut k: int = 0;
    let ghost all = script.lines@;
    assert(all.skip(0) =~= all);
    while rest.len() > 0
        invariant
            before.len() == all.len(),
            forall|i: int| 0 <= i < all.len() ==> before[i] == (#[trigger] all[i])@,
            0 <= k <= all.len(),
            rest@ == all.skip(k),
            s@ == cleaned(*o, before).take(k),
            vault == made_by(before, k - 1, Made::Vault),
            anchor == made_by(before, k - 1, Made::Anchor),
            sidecar == made_by(before, k - 1, Made::Sidecar),
        decreases rest.len(),
    {
        let line = rest.remove(0);
        proof {
            assert(line == all[k]);
            assert(rest@ =~= all.skip(k + 1));
            assert(before[k] == line@);
            lemma_made_by(before, k, Made::Vault);
            lemma_made_by(before, k, Made::Anchor);
            lemma_made_by(before, k, Made::Sidecar);
        }
        match line {
            Line::Do { act, lead, ok: Goto::Next, fail: OnFail::Abort { .. } } => {
                vault = vault || creates_vault(act);
                anchor = anchor || writes_anchor(act);
                sidecar = sidecar || writes_sidecar(act);
                s = s.step_or(act, lead.as_str(), removal_list(o, vault, anchor, sidecar));
            },
            Line::Do { act, lead, ok, fail } => {
                vault = vault || creates_vault(act);
                anchor = anchor || writes_anchor(act);
                sidecar = sidecar || writes_sidecar(act);
                s = s.line(Line::Do { act, lead, ok, fail });
            },
            other => {
                s = s.line(other);
            },
        }
        proof {
            k = k + 1;
            assert(s@ =~= cleaned(*o, before).take(k));
        }
    }
    assert(cleaned(*o, before).take(k) =~= cleaned(*o, before));
    s
}

/// Whether a TPM bootstrap kind has ML-KEM files.
pub open spec fn tpm_is_hybrid(kind: TpmBootstrapKind) -> bool {
    kind is HybridPqTpm2 || kind is HybridPqTpm2Fido2
}

fn tpm_hybrid(kind: &TpmBootstrapKind) -> (b: bool)
    ensures
        b == tpm_is_hybrid(*kind),
{
    match kind {
        TpmBootstrapKind::HybridPqTpm2 { .. } => true,
        TpmBootstrapKind::HybridPqTpm2Fido2 { .. } => true,
        _ => false,
    }
}

/// Removing every file that a bootstrap may have written: the vault, its
/// detached header, its anchor and its sidecar, and with `seed` the seed file.
pub open spec fn remove_all(o: CreateOpts, seed: bool) -> Seq<Act> {
    let header = if o.header_path is Some {
        seq![Act::RemoveHeader]
    } else {
        seq![]
    };
    let anchor = if o.anchor_path is Some {
        seq![Act::RemoveAnchor]
    } else {
        seq![]
    };
    let seed_file = if seed {
        seq![Act::RemoveSeed]
    } else {
        seq![]
    };
    seq![Act::RemoveVault] + header + anchor + seq![Act::RemoveSidecar] + seed_file
}

fn removals(o: &CreateOpts, seed: bool) -> (v: Vec<Act>)
    ensures
        v@ == remove_all(*o, seed),
{
    let mut v: Vec<Act> = Vec::new();
    v.push(Act::RemoveVault);
    if o.header_path.is_some() {
        v.push(Act::RemoveHeader);
    }
    if o.anchor_path.is_some() {
        v.push(Act::RemoveAnchor);
    }
    v.push(Act::RemoveSidecar);
    if seed {
        v.push(Act::RemoveSeed);
    }
    assert(v@ =~= remove_all(*o, seed));
    v
}

/// The lines that create the vault of a TPM bootstrap.
pub open spec fn tpm_create_lines(
    o: CreateOpts,
    kind: TpmBootstrapKind,
    d: CreateFacts,
    p: Platform,
) -> Seq<LineView> {
    let passphrase_first = match create_refusal(o, d, p) {
        Some(t) => seq![stop(t)],
        None => create_lines(o),
    };
    match tpm_factors(kind) {
        None => passphrase_first,
        Some((fido2, kem)) => if !o.use_deniable && o.enable_recovery_passphrase {
            passphrase_first
        } else if taken(o, d) is Some {
            seq![stop(taken(o, d)->0)]
        } else if !p.spec_has_tpm_flow() {
            seq![stop(no_tpm_text())]
        } else if !o.use_deniable {
            tpm_factors_only_lines(o, fido2, kem)
        } else if o.passphrase is None {
            seq![stop("passphrase required for v2 deniable TPM envelope discovery"@)]
        } else {
            tpm_factors_deniable_lines(o, fido2, kem)
        },
    }
}

/// The first script of a TPM bootstrap: the vault is created, and whatever
/// fails, what was written is removed again.
pub open spec fn tpm_bootstrap_lines(
    o: CreateOpts,
    kind: TpmBootstrapKind,
    d: CreateFacts,
    p: Platform,
) -> Seq<LineView> {
    cleaned(o, tpm_create_lines(o, kind, d, p))
}

/// Whether the TPM slot is enrolled after the vault was created: always for
/// the plain TPM kinds, and for a combination only if the user wants to keep
/// the passphrase for recovery.
pub open spec fn tpm_enroll_follows(o: CreateOpts, kind: TpmBootstrapKind) -> bool {
    tpm_factors(kind) is None || (!o.use_deniable && o.enable_recovery_passphrase)
}

/// Creates a vault bound to the TPM: either everything succeeds, or neither the
/// vault nor its header, anchor or sidecar is left behind.
///
/// A combination of factors becomes the vault's only slot, unless the user
/// asked for a recovery passphrase. A path where there is something already is
/// refused, and what is there is left alone.
pub fn create_vault_with_tpm_bootstrap(
    o: &CreateOpts,
    kind: &TpmBootstrapKind,
    d: CreateFacts,
    p: Platform,
) -> (b: Bootstrap)
    ensures
        b.script@ == tpm_bootstrap_lines(*o, *kind, d, p),
        b.enroll == tpm_enroll_follows(*o, *kind),
{
    let combined = match kind {
        TpmBootstrapKind::Tpm2 => false,
        TpmBootstrapKind::Tpm2Pin { .. } => false,
        _ => true,
    };
    if combined && (o.use_deniable || !o.enable_recovery_passphrase) {
        let script = match taken_of(o, d) {
            Some(t) => Script::refuse(t.as_str()),
            None => if o.use_deniable {
                create_vault_with_tpm_factors_deniable(o, kind, p)
            } else {
                create_vault_with_tpm_factors_only(o, kind, p)
            },
        };
        return Bootstrap { script: with_cleanup(o, script), enroll: false };
    }
    Bootstrap { script: with_cleanup(o, create_vault(o, d, p)), enroll: true }
}

pub open spec fn pw_of(t: Option<String>) -> Seq<char> {
    match t {
        Some(s) => s@,
        None => ""@,
    }
}

/// The lines that enroll the TPM slot of a bootstrap. `deniable` is whether
/// the vault that was created is; its slot goes to index 1 and is discovered
/// with the passphrase the vault was created with.
pub open spec fn tpm_enroll_lines(
    o: CreateOpts,
    kind: TpmBootstrapKind,
    seed_exists: bool,
    deniable: bool,
    p: Platform,
) -> Seq<LineView> {
    let pw = pw_of(o.passphrase);
    if deniable {
        match kind {
            TpmBootstrapKind::Tpm2 => enroll_tpm2_deniable_lines(1, pw, o.kdf, None, p),
            TpmBootstrapKind::Tpm2Pin { pin } => enroll_tpm2_deniable_lines(
                1,
                pw,
                o.kdf,
                Some(pin@),
                p,
            ),
            TpmBootstrapKind::Tpm2Fido2 { .. } => tpm_combo_deniable_lines(
                1,
                pw,
                o.kdf,
                true,
                None,
                p,
            ),
            TpmBootstrapKind::HybridPqTpm2 { kem_size, .. } => tpm_combo_deniable_lines(
                1,
                pw,
                o.kdf,
                false,
                Some(kem_or_768(kem_size)),
                p,
            ),
            TpmBootstrapKind::HybridPqTpm2Fido2 { kem_size, .. } => tpm_combo_deniable_lines(
                1,
                pw,
                o.kdf,
                true,
                Some(kem_or_768(kem_size)),
                p,
            ),
        }
    } else {
        match kind {
            TpmBootstrapKind::Tpm2 => enroll_tpm2_lines(p),
            TpmBootstrapKind::Tpm2Pin { pin } => enroll_tpm2_pin_lines(pin@, p),
            TpmBootstrapKind::Tpm2Fido2 { .. } => enroll_tpm2_fido2_lines(p),
            TpmBootstrapKind::HybridPqTpm2 { kyber_path, kem_size, .. } => enroll_hybrid_pq_tpm2_lines(
                (SeedTarget { path: kyber_path, exists: seed_exists }),
                kem_size,
                p,
            ),
            TpmBootstrapKind::HybridPqTpm2Fido2 { kyber_path, kem_size, .. } => enroll_hybrid_pq_tpm2_fido2_lines(
                (SeedTarget { path: kyber_path, exists: seed_exists }),
                kem_size,
                p,
            ),
        }
    }
}

/// Enrolls the TPM slot of a bootstrap.
pub fn tpm_bootstrap_enroll(
    o: &CreateOpts,
    kind: &TpmBootstrapKind,
    seed_exists: bool,
    deniable: bool,
    p: Platform,
) -> (s: Script)
    ensures
        s@ == tpm_enroll_lines(*o, *kind, seed_exists, deniable, p),
{
    let empty = "".to_owned();
    let pw = match &o.passphrase {
        Some(s) => s.as_str(),
        None => empty.as_str(),
    };
    if deniable {
        match kind {
            TpmBootstrapKind::Tpm2 => enroll_tpm2_deniable(1, pw, o.kdf, None, p),
            TpmBootstrapKind::Tpm2Pin { pin } => enroll_tpm2_deniable(
                1,
                pw,
                o.kdf,
                Some(pin.as_str()),
                p,
            ),
            TpmBootstrapKind::Tpm2Fido2 { .. } => enroll_tpm2_fido2_deniable(1, pw, o.kdf, p),
            TpmBootstrapKind::HybridPqTpm2 { kem_size, .. } => enroll_hybrid_pq_tpm2_deniable(
                1,
                pw,
                o.kdf,
                pq_params_or_768(*kem_size),
                p,
            ),
            TpmBootstrapKind::HybridPqTpm2Fido2 { kem_size, .. } => enroll_hybrid_pq_tpm2_fido2_deniable(
                1,
                pw,
                o.kdf,
                pq_params_or_768(*kem_size),
                p,
            ),
        }
    } else {
        match kind {
            TpmBootstrapKind::Tpm2 => enroll_tpm2(p),
            TpmBootstrapKind::Tpm2Pin { pin } => enroll_tpm2_pin(pin.as_str(), p),
            TpmBootstrapKind::Tpm2Fido2 { .. } => enroll_tpm2_fido2(p),
            TpmBootstrapKind::HybridPqTpm2 { kyber_path, kem_size, .. } => enroll_hybrid_pq_tpm2(
                &SeedTarget { path: kyber_path.clone(), exists: seed_exists },
                *kem_size,
                p,
            ),
            TpmBootstrapKind::HybridPqTpm2Fido2 { kyber_path, kem_size, .. } => enroll_hybrid_pq_tpm2_fido2(
                &SeedTarget { path: kyber_path.clone(), exists: seed_exists },
                *kem_size,
                p,
            ),
        }
    }
}

/// Doing every act of a list, whatever becomes of it, and then reporting.
pub open spec fn wind_up_lines(acts: Seq<Act>, text: Seq<char>) -> Seq<LineView> {
    Seq::new(acts.len(), |i: int| attempt(acts[i], ""@, Goto::Next, i + 1)).push(stop(text))
}

fn wind_up(acts: &Vec<Act>, text: &str) -> (s: Script)
    ensures
        s@ == wind_up_lines(acts@, text@),
{
    let mut s = Script::new();
    let mut i: usize = 0;
    while i < acts.len()
        invariant
            i <= acts@.len(),
            s@ == wind_up_lines(acts@, text@).take(i as int),
        decreases acts.len() - i,
    {
        s = s.attempt(acts[i], "", Goto::Next, i + 1);
        i = i + 1;
        assert(s@ =~= wind_up_lines(acts@, text@).take(i as int));
    }
    let r = s.stop(text);
    assert(r@ =~= wind_up_lines(acts@, text@));
    r
}

/// What follows when the TPM slot could not be enrolled: the vault and all
/// that came with it is removed. A seed file that was there before the enroll
/// is not part of it.
pub fn tpm_enroll_failed(
    o: &CreateOpts,
    kind: &TpmBootstrapKind,
    seed_existed: bool,
    error: &str,
) -> (s: Script)
    ensures
        s@ == wind_up_lines(
            remove_all(*o, tpm_is_hybrid(*kind) && !seed_existed),
            "TPM enroll failed; vault create rolled back: "@ + error@,
        ),
{
    wind_up(
        &removals(o, tpm_hybrid(kind) && !seed_existed),
        join2("TPM enroll failed; vault create rolled back: ", error).as_str(),
    )
}

/// Moving a freshly enrolled slot to the front, and its sidecar entry with it.
pub open spec fn to_front_lines(idx: usize, hybrid: bool) -> Seq<LineView> {
    let swap = step(
        Act::SwapToFront { slot: idx },
        "post-enroll swap_slots(0, "@ + decimal(idx as nat) + ") failed: "@,
    );
    let persist = step(Act::PersistHeader, "post-swap persist_header failed: "@);
    if hybrid {
        seq![
            swap,
            attempt(Act::RelabelSidecar { slot: idx }, ""@, Goto::Next, 2),
            persist,
        ]
    } else {
        seq![swap, persist]
    }
}

fn to_front(idx: usize, hybrid: bool) -> (s: Script)
    ensures
        s@ == to_front_lines(idx, hybrid),
{
    let lead = join3(
        "post-enroll swap_slots(0, ",
        decimal_text(idx as u64).as_str(),
        ") failed: ",
    );
    let s = Script::new().step(Act::SwapToFront { slot: idx }, lead.as_str());
    if hybrid {
        s.attempt(Act::RelabelSidecar { slot: idx }, "", Goto::Next, 2).step(
            Act::PersistHeader,
            "post-swap persist_header failed: ",
        )
    } else {
        s.step(Act::PersistHeader, "post-swap persist_header failed: ")
    }
}

/// The credential of a deniable vault around the Secure Enclave.
pub open spec fn sep_deniable_create(kind: DeniableKindTag, o: CreateOpts) -> LineView {
    step_or(
        Act::CreateDeniable { kind, flags: size_flags(o), kdf: o.kdf },
        "deniable Secure Enclave vault create failed: "@,
        seq![Act::RemoveVault],
    )
}

fn sep_deniable_created(s: Script, kind: DeniableKindTag, o: &CreateOpts, kem: Option<PqParams>) -> (r:
    Script)
    ensures
        r@ == s@.push(sep_deniable_create(kind, *o)) + hybrid_file_lines(kem) + finish_lines(
            *o,
            combined_anchor_undo(kem is Some),
        ),
{
    let mut undo: Vec<Act> = Vec::new();
    undo.push(Act::RemoveVault);
    assert(undo@ =~= seq![Act::RemoveVault]);
    s.step_or(
        Act::CreateDeniable { kind, flags: size_flags_of(o), kdf: o.kdf },
        "deniable Secure Enclave vault create failed: ",
        undo,
    ).append(hybrid_files(kem)).append(finish(o, combined_anchor_undo_of(kem.is_some())))
}

/// Everything after the factors of such a vault were collected.
pub open spec fn sep_deniable_rest(
    kind: DeniableKindTag,
    o: CreateOpts,
    kem: Option<PqParams>,
) -> Seq<LineView> {
    seq![sep_deniable_create(kind, o)] + hybrid_file_lines(kem) + finish_lines(
        o,
        combined_anchor_undo(kem is Some),
    )
}

/// A deniable vault around the Secure Enclave; the passphrase opens the
/// envelope of its only slot.
pub open spec fn sep_deniable_lines(o: CreateOpts, kind: SepBootstrapKind, p: Platform) -> Seq<
    LineView,
> {
    if !p.spec_has_sep_flow() {
        seq![stop(no_sep_text())]
    } else if o.header_path is Some {
        seq![stop("detached headers are not yet supported in deniable mode"@)]
    } else if o.passphrase is None {
        seq![stop("a passphrase is required for the deniable Secure Enclave envelope"@)]
    } else {
        let open = seq![step(Act::OpenSep, ""@)];
        let seal = seq![step(Act::SealSep { biometric: false }, "SEP seal: "@)];
        match kind {
            SepBootstrapKind::Sep => sep_seal_lines(false) + sep_deniable_rest(
                DeniableKindTag::SepPassphrase,
                o,
                None,
            ),
            SepBootstrapKind::SepBiometric => sep_seal_lines(true) + sep_deniable_rest(
                DeniableKindTag::SepPassphrase,
                o,
                None,
            ),
            SepBootstrapKind::HybridPqSep { kem_size, .. } => {
                let kem = kem_or_768(kem_size);
                open + seq![step(Act::Encapsulate { kem }, ""@)] + seal + sep_deniable_rest(
                    DeniableKindTag::HybridPqSepPassphrase,
                    o,
                    Some(kem),
                )
            },
            SepBootstrapKind::SepFused { factors, kem_size, kyber_path, .. } => if !factors.binds_fido2() {
                open + seq![
                    stop(
                        "in deniable mode a fused Secure Enclave slot must include FIDO2; for SEP + passphrase use the plain 'Secure Enclave' variant (its passphrase is the envelope)."@,
                    ),
                ]
            } else {
                let touch = open + register_lines("OS RNG failure: "@) + seal;
                match kem_size {
                    None => touch + sep_deniable_rest(
                        DeniableKindTag::SepFido2Passphrase,
                        o,
                        None,
                    ),
                    Some(n) => {
                        let kem = kem_or_768(n);
                        let pq = touch.push(step(Act::Encapsulate { kem }, ""@));
                        if kyber_path is None {
                            pq.push(stop("hybrid SEP+FIDO2 requires a .kyber path"@))
                        } else {
                            pq + sep_deniable_rest(
                                DeniableKindTag::HybridPqSepFido2Passphrase,
                                o,
                                Some(kem),
                            )
                        }
                    },
                }
            },
        }
    }
}

/// Creates a deniable vault around the Secure Enclave. The enclave is opened
/// before any file is made.
pub fn create_sep_passphrase_deniable(o: &CreateOpts, kind: &SepBootstrapKind, p: Platform) -> (s:
    Script)
    ensures
        s@ == sep_deniable_lines(*o, *kind, p),
{
    if !p.has_sep_flow() {
        return Script::refuse("Secure Enclave is macOS-only");
    }
    if o.header_path.is_some() {
        return Script::refuse("detached headers are not yet supported in deniable mode");
    }
    if o.passphrase.is_none() {
        return Script::refuse("a passphrase is required for the deniable Secure Enclave envelope");
    }
    let s = match kind {
        SepBootstrapKind::Sep => sep_deniable_created(
            sep_seal(false),
            DeniableKindTag::SepPassphrase,
            o,
            None,
        ),
        SepBootstrapKind::SepBiometric => sep_deniable_created(
            sep_seal(true),
            DeniableKindTag::SepPassphrase,
            o,
            None,
        ),
        SepBootstrapKind::HybridPqSep { kem_size, .. } => {
            let kem = pq_params_or_768(*kem_size);
            let head = Script::new().step(Act::OpenSep, "").step(
                Act::Encapsulate { kem },
                "",
            ).step(Act::SealSep { biometric: false }, "SEP seal: ");
            sep_deniable_created(head, DeniableKindTag::HybridPqSepPassphrase, o, Some(kem))
        },
        SepBootstrapKind::SepFused { factors, kem_size, kyber_path, .. } => {
            let open = Script::new().step(Act::OpenSep, "");
            if !factors.has_fido2() {
                open.stop(
                    "in deniable mode a fused Secure Enclave slot must include FIDO2; for SEP + passphrase use the plain 'Secure Enclave' variant (its passphrase is the envelope).",
                )
            } else {
                let touch = open.append(register("OS RNG failure: ")).step(
                    Act::SealSep { biometric: false },
                    "SEP seal: ",
                );
                match kem_size {
                    None => sep_deniable_created(
                        touch,
                        DeniableKindTag::SepFido2Passphrase,
                        o,
                        None,
                    ),
                    Some(n) => {
                        let kem = pq_params_or_768(*n);
                        let pq = touch.step(Act::Encapsulate { kem }, "");
                        if kyber_path.is_none() {
                            pq.stop("hybrid SEP+FIDO2 requires a .kyber path")
                        } else {
                            sep_deniable_created(
                                pq,
                                DeniableKindTag::HybridPqSepFido2Passphrase,
                                o,
                                Some(kem),
                            )
                        }
                    },
                }
            }
        },
    };
    assert(s@ =~= sep_deniable_lines(*o, *kind, p));
    s
}

/// A vault with the Secure Enclave as its only keyslot.
pub open spec fn sep_only_lines(o: CreateOpts, biometric: bool, p: Platform) -> Seq<LineView> {
    if !p.spec_has_sep_flow() {
        seq![stop(no_sep_text())]
    } else {
        let kind = if biometric {
            SlotKind::SepSealedBiometric
        } else {
            SlotKind::SepSealed
        };
        sep_seal_lines(biometric) + seq![
            step_or(
                Act::CreateVault { kind, flags: size_flags(o), kdf: o.kdf },
                "Secure Enclave-only vault create failed: "@,
                seq![Act::RemoveVault],
            ),
        ] + finish_lines(o, seq![Act::RemoveVault, Act::RemoveAnchor])
    }
}

/// Creates a vault whose only keyslot is the Secure Enclave.
pub fn create_vault_sep_only(o: &CreateOpts, biometric: bool, p: Platform) -> (s: Script)
    ensures
        s@ == sep_only_lines(*o, biometric, p),
{
    if !p.has_sep_flow() {
        return Script::refuse("Secure Enclave is macOS-only");
    }
    let kind = if biometric {
        SlotKind::SepSealedBiometric
    } else {
        SlotKind::SepSealed
    };
    let mut undo: Vec<Act> = Vec::new();
    undo.push(Act::RemoveVault);
    assert(undo@ =~= seq![Act::RemoveVault]);
    let mut anchor_undo: Vec<Act> = Vec::new();
    anchor_undo.push(Act::RemoveVault);
    anchor_undo.push(Act::RemoveAnchor);
    assert(anchor_undo@ =~= seq![Act::RemoveVault, Act::RemoveAnchor]);
    let s = sep_seal(biometric).step_or(
        Act::CreateVault { kind, flags: size_flags_of(o), kdf: o.kdf },
        "Secure Enclave-only vault create failed: ",
        undo,
    ).append(finish(o, anchor_undo));
    assert(s@ =~= sep_only_lines(*o, biometric, p));
    s
}

/// The first script of a Secure Enclave bootstrap.
pub open spec fn sep_bootstrap_lines(
    o: CreateOpts,
    kind: SepBootstrapKind,
    d: CreateFacts,
    p: Platform,
) -> Seq<LineView> {
    if taken(o, d) is Some {
        seq![stop(taken(o, d)->0)]
    } else if o.use_deniable {
        sep_deniable_lines(o, kind, p)
    } else {
        match create_refusal(o, d, p) {
            Some(t) => seq![stop(t)],
            None => create_lines(o),
        }
    }
}

/// Creates a vault bound to the Secure Enclave. In deniable mode the enclave
/// slot is the only one; otherwise it is enrolled behind a passphrase slot. A
/// path where there is something already is refused, and what is there is left
/// alone.
pub fn create_vault_with_sep_bootstrap(
    o: &CreateOpts,
    kind: &SepBootstrapKind,
    d: CreateFacts,
    p: Platform,
) -> (b: Bootstrap)
    ensures
        b.enroll == !o.use_deniable,
        b.script@ == sep_bootstrap_lines(*o, *kind, d, p),
{
    if o.use_deniable {
        let script = match taken_of(o, d) {
            Some(t) => Script::refuse(t.as_str()),
            None => create_sep_passphrase_deniable(o, kind, p),
        };
        return Bootstrap { script, enroll: false };
    }
    Bootstrap { script: create_vault(o, d, p), enroll: true }
}

/// The lines that enroll the Secure Enclave slot of a bootstrap.
pub open spec fn sep_enroll_lines(kind: SepBootstrapKind, seed_exists: bool, p: Platform) -> Seq<
    LineView,
> {
    match kind {
        SepBootstrapKind::Sep => enroll_sep_lines(false, p),
        SepBootstrapKind::SepBiometric => enroll_sep_lines(true, p),
        SepBootstrapKind::HybridPqSep { kyber_path, kem_size, .. } => enroll_hybrid_pq_sep_lines(
            (SeedTarget { path: kyber_path, exists: seed_exists }),
            kem_size,
            p,
        ),
        SepBootstrapKind::SepFused { factors, kem_size, kyber_path, .. } => enroll_sep_fused_lines(
            factors,
            kem_size,
            match kyber_path {
                Some(path) => Some((SeedTarget { path, exists: seed_exists })),
                None => None,
            },
            p,
        ),
    }
}

/// Enrolls the Secure Enclave slot of a bootstrap.
pub fn sep_bootstrap_enroll(kind: &SepBootstrapKind, seed_exists: bool, p: Platform) -> (s: Script)
    ensures
        s@ == sep_enroll_lines(*kind, seed_exists, p),
{
    match kind {
        SepBootstrapKind::Sep => enroll_sep(false, p),
        SepBootstrapKind::SepBiometric => enroll_sep(true, p),
        SepBootstrapKind::HybridPqSep { kyber_path, kem_size, .. } => enroll_hybrid_pq_sep(
            &SeedTarget { path: kyber_path.clone(), exists: seed_exists },
            *kem_size,
            p,
        ),
        SepBootstrapKind::SepFused { factors, kem_size, kyber_path, .. } => {
            match kyber_path {
                Some(path) => {
                    let target = SeedTarget { path: path.clone(), exists: seed_exists };
                    enroll_sep_fused(*factors, *kem_size, Some(&target), p)
                },
                None => enroll_sep_fused(*factors, *kem_size, None, p),
            }
        },
    }
}

/// Whether a Secure Enclave bootstrap names a seed file.
pub open spec fn sep_names_seed(kind: SepBootstrapKind) -> bool {
    match kind {
        SepBootstrapKind::HybridPqSep { .. } => true,
        SepBootstrapKind::SepFused { kyber_path, .. } => kyber_path is Some,
        _ => false,
    }
}

/// Whether a Secure Enclave bootstrap has ML-KEM files.
pub open spec fn sep_is_hybrid(kind: SepBootstrapKind) -> bool {
    match kind {
        SepBootstrapKind::HybridPqSep { .. } => true,
        SepBootstrapKind::SepFused { kem_size, .. } => kem_size is Some,
        _ => false,
    }
}

/// What follows when the Secure Enclave slot could not be enrolled: no
/// passphrase-only vault is left behind. A seed file that was there before the
/// enroll stays.
pub fn sep_enroll_failed(
    o: &CreateOpts,
    kind: &SepBootstrapKind,
    seed_existed: bool,
    error: &str,
) -> (s: Script)
    ensures
        s@ == wind_up_lines(
            remove_all(*o, sep_names_seed(*kind) && !seed_existed),
            "Secure Enclave enroll failed; vault create rolled back: "@ + error@,
        ),
{
    let seed = match kind {
        SepBootstrapKind::HybridPqSep { .. } => true,
        SepBootstrapKind::SepFused { kyber_path, .. } => kyber_path.is_some(),
        _ => false,
    };
    wind_up(
        &removals(o, seed && !seed_existed),
        join2("Secure Enclave enroll failed; vault create rolled back: ", error).as_str(),
    )
}

/// What follows when the Secure Enclave slot was enrolled at `idx`: it becomes
/// slot 0, and the passphrase stays behind it for recovery.
pub fn sep_enrolled(kind: &SepBootstrapKind, idx: usize) -> (s: Script)
    ensures
        s@ == (if idx > 0 {
            to_front_lines(idx, sep_is_hybrid(*kind))
        } else {
            seq![]
        }),
{
    let hybrid = match kind {
        SepBootstrapKind::HybridPqSep { .. } => true,
        SepBootstrapKind::SepFused { kem_size, .. } => kem_size.is_some(),
        _ => false,
    };
    if idx > 0 {
        to_front(idx, hybrid)
    } else {
        Script::new()
    }
}

} // verus!
