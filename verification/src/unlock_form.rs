//! The unlock form: how it is filled in for a vault, and what submitting it
//! leads to.

use crate::forms::{kept_unless, path_if};
use crate::kinds::{CipherSuite, KdfStrength, UnlockMethod};
use crate::recent::{RecentVault, mark, marks_fit, may_answer_all};
use crate::requests::UnlockOpts;
use crate::text::{trim, trimmed};
use vstd::prelude::*;
use vstd::string::*;

verus! {

/// The form for unlocking a vault.
pub struct UnlockForm {
    pub path: String,
    pub header_path: String,
    pub anchor_path: String,
    pub use_detached: bool,
    pub use_anchor: bool,
    pub method: UnlockMethod,
    pub passphrase: String,
    pub pin: String,
    pub hybrid_kyber_path: String,
    /// What the header says of the keyslots, if it has been looked at.
    pub slot_inspection: Option<Result<Vec<String>, String>>,
}

impl UnlockForm {
    /// Whether the form is as it was before the user touched it.
    pub open spec fn is_blank(self) -> bool {
        &&& self.path@.len() == 0 && self.header_path@.len() == 0 && self.anchor_path@.len() == 0
        &&& self.passphrase@.len() == 0 && self.pin@.len() == 0 && self.hybrid_kyber_path@.len()
            == 0
        &&& !self.use_detached && !self.use_anchor
        &&& self.method == UnlockMethod::Passphrase
        &&& self.slot_inspection is None
    }
}

impl Default for UnlockForm {
    fn default() -> (f: UnlockForm)
        ensures
            f.is_blank(),
    {
        UnlockForm {
            path: String::new(),
            header_path: String::new(),
            anchor_path: String::new(),
            use_detached: false,
            use_anchor: false,
            method: UnlockMethod::Passphrase,
            passphrase: String::new(),
            pin: String::new(),
            hybrid_kyber_path: String::new(),
            slot_inspection: None,
        }
    }
}

/// Methods of the form that use the passphrase field.
pub open spec fn form_passphrase(m: UnlockMethod) -> bool {
    match m {
        UnlockMethod::Passphrase
        | UnlockMethod::HybridPq
        | UnlockMethod::HybridPqFido2
        | UnlockMethod::HybridPqTpm2
        | UnlockMethod::HybridPqTpm2Fido2 => true,
        _ => false,
    }
}

/// Methods of the form that use the PIN field.
pub open spec fn form_pin(m: UnlockMethod) -> bool {
    match m {
        UnlockMethod::Fido2
        | UnlockMethod::HybridPqFido2
        | UnlockMethod::Tpm2Pin
        | UnlockMethod::Tpm2Fido2
        | UnlockMethod::HybridPqTpm2Fido2 => true,
        _ => false,
    }
}

/// Methods of the form that use a seed file.
pub open spec fn form_seed(m: UnlockMethod) -> bool {
    match m {
        UnlockMethod::HybridPq
        | UnlockMethod::HybridPqFido2
        | UnlockMethod::HybridPqTpm2
        | UnlockMethod::HybridPqTpm2Fido2 => true,
        _ => false,
    }
}

/// Methods of the form that wait for a touch.
pub open spec fn form_touch(m: UnlockMethod) -> bool {
    match m {
        UnlockMethod::Fido2
        | UnlockMethod::HybridPqFido2
        | UnlockMethod::Tpm2Fido2
        | UnlockMethod::HybridPqTpm2Fido2 => true,
        _ => false,
    }
}

/// Which fields of the form a method uses.
pub struct MethodFields {
    pub passphrase: bool,
    pub pin: bool,
    pub seed: bool,
    pub touch: bool,
}

pub fn method_fields(m: UnlockMethod) -> (f: MethodFields)
    ensures
        f.passphrase == form_passphrase(m),
        f.pin == form_pin(m),
        f.seed == form_seed(m),
        f.touch == form_touch(m),
{
    let (passphrase, pin, seed, touch) = match m {
        UnlockMethod::Passphrase => (true, false, false, false),
        UnlockMethod::Fido2 => (false, true, false, true),
        UnlockMethod::HybridPq => (true, false, true, false),
        UnlockMethod::HybridPqFido2 => (true, true, true, true),
        UnlockMethod::Tpm2Pin => (false, true, false, false),
        UnlockMethod::Tpm2Fido2 => (false, true, false, true),
        UnlockMethod::HybridPqTpm2 => (true, false, true, false),
        UnlockMethod::HybridPqTpm2Fido2 => (true, true, true, true),
        _ => (false, false, false, false),
    };
    MethodFields { passphrase, pin, seed, touch }
}

/// Why the form is refused.
pub open spec fn form_refusal(f: UnlockForm) -> Option<Seq<char>> {
    if trim(f.path@).len() == 0 {
        Some("vault path required"@)
    } else if form_seed(f.method) && trim(f.hybrid_kyber_path@).len() == 0 {
        Some("hybrid mode requires the .kyber seed file path"@)
    } else {
        None
    }
}

/// Whether `o` asks for what the form says.
pub open spec fn unlock_asks_for(f: UnlockForm, o: UnlockOpts) -> bool {
    &&& o.path@ == trim(f.path@)
    &&& path_if(f.use_detached && trim(f.header_path@).len() > 0, f.header_path@, o.header_path)
    &&& path_if(f.use_anchor && trim(f.anchor_path@).len() > 0, f.anchor_path@, o.anchor_path)
    &&& path_if(form_seed(f.method), f.hybrid_kyber_path@, o.hybrid_kyber_path)
    &&& o.method == f.method
    &&& o.passphrase == (if form_passphrase(f.method) {
        Some(f.passphrase)
    } else {
        None
    })
    &&& o.pin == (if form_pin(f.method) {
        Some(f.pin)
    } else {
        None
    })
    &&& o.hybrid_seed_pw is None
    &&& !o.use_deniable && !o.recovery_mode
}

/// What submitting the unlock form leads to.
pub enum UnlockSubmission {
    Refused(String),
    Ready { opts: UnlockOpts, needs_touch: bool },
}

fn trimmed_nonempty_if(used: bool, field: &str) -> (p: Option<String>)
    ensures
        path_if(used && trim(field@).len() > 0, field@, p),
{
    if !used {
        return None;
    }
    let t = trimmed(field);
    if t.as_str().is_empty() {
        None
    } else {
        Some(t)
    }
}

/// Submits the unlock form. Its secrets move out once the path is in order.
pub fn submit_unlock(form: UnlockForm) -> (r: (UnlockForm, UnlockSubmission))
    ensures
        match form_refusal(form) {
            Some(text) => r.1 matches UnlockSubmission::Refused(t) && t@ == text,
            None => r.1 matches UnlockSubmission::Ready { opts, needs_touch } && unlock_asks_for(
                form,
                opts,
            ) && needs_touch == form_touch(form.method),
        },
        kept_unless(
            trim(form.path@).len() > 0 && form_passphrase(form.method),
            form.passphrase,
            r.0.passphrase,
        ),
        kept_unless(trim(form.path@).len() > 0 && form_pin(form.method), form.pin, r.0.pin),
        r.0.path == form.path,
        r.0.header_path == form.header_path,
        r.0.anchor_path == form.anchor_path,
        r.0.use_detached == form.use_detached,
        r.0.use_anchor == form.use_anchor,
        r.0.method == form.method,
        r.0.hybrid_kyber_path == form.hybrid_kyber_path,
        r.0.slot_inspection == form.slot_inspection,
{
    let path = trimmed(form.path.as_str());
    if path.as_str().is_empty() {
        return (form, UnlockSubmission::Refused("vault path required".to_owned()));
    }
    let fields = method_fields(form.method);
    let header_path = trimmed_nonempty_if(form.use_detached, form.header_path.as_str());
    let anchor_path = trimmed_nonempty_if(form.use_anchor, form.anchor_path.as_str());
    let mut form = form;
    let mut passphrase: Option<String> = None;
    if fields.passphrase {
        passphrase = Some(form.passphrase);
        form.passphrase = String::new();
    }
    let mut pin: Option<String> = None;
    if fields.pin {
        pin = Some(form.pin);
        form.pin = String::new();
    }
    let mut hybrid_kyber_path: Option<String> = None;
    if fields.seed {
        let seed = trimmed(form.hybrid_kyber_path.as_str());
        if seed.as_str().is_empty() {
            return (
                form,
                UnlockSubmission::Refused(
                    "hybrid mode requires the .kyber seed file path".to_owned(),
                ),
            );
        }
        hybrid_kyber_path = Some(seed);
    }
    let opts = UnlockOpts {
        path,
        header_path,
        anchor_path,
        method: form.method,
        passphrase,
        pin,
        hybrid_kyber_path,
        hybrid_seed_pw: None,
        use_deniable: false,
        deniable_cipher: CipherSuite::Aes256GcmSiv,
        deniable_kdf: KdfStrength::Interactive,
        recovery_mode: false,
    };
    (form, UnlockSubmission::Ready { opts, needs_touch: fields.touch })
}

/// The method that is offered first for a vault.
pub open spec fn first_method(has_hybrid_pq: bool, has_fido2: bool, device: bool) -> UnlockMethod {
    if has_hybrid_pq {
        if has_fido2 && device {
            UnlockMethod::HybridPqFido2
        } else {
            UnlockMethod::HybridPq
        }
    } else if has_fido2 && device {
        UnlockMethod::Fido2
    } else {
        UnlockMethod::Passphrase
    }
}

/// The text of an optional path.
pub open spec fn path_text(p: Option<String>) -> Seq<char> {
    match p {
        Some(s) => s@,
        None => ""@,
    }
}

fn path_or_empty(p: &Option<String>) -> (s: String)
    ensures
        s@ == path_text(*p),
{
    match p {
        Some(s) => s.clone(),
        None => "".to_owned(),
    }
}

/// The form for unlocking a vault from the list. `device` says whether an
/// authenticator is plugged in.
pub fn start_unlock(
    r: &RecentVault,
    device: bool,
    slot_inspection: Option<Result<Vec<String>, String>>,
) -> (f: UnlockForm)
    ensures
        f.path@ == r.path@,
        f.header_path@ == path_text(r.header_path),
        f.anchor_path@ == path_text(r.anchor_path),
        f.use_detached == r.header_path is Some,
        f.use_anchor == r.anchor_path is Some,
        f.method == first_method(r.has_hybrid_pq, r.has_fido2, device),
        f.passphrase@.len() == 0,
        f.pin@.len() == 0,
        f.hybrid_kyber_path@.len() == 0,
        f.slot_inspection == slot_inspection,
{
    let method = if r.has_hybrid_pq {
        if r.has_fido2 && device {
            UnlockMethod::HybridPqFido2
        } else {
            UnlockMethod::HybridPq
        }
    } else if r.has_fido2 && device {
        UnlockMethod::Fido2
    } else {
        UnlockMethod::Passphrase
    };
    UnlockForm {
        path: r.path.clone(),
        header_path: path_or_empty(&r.header_path),
        anchor_path: path_or_empty(&r.anchor_path),
        use_detached: r.header_path.is_some(),
        use_anchor: r.anchor_path.is_some(),
        method,
        passphrase: String::new(),
        pin: String::new(),
        hybrid_kyber_path: String::new(),
        slot_inspection,
    }
}

/// The form of an application that was started with a vault.
pub fn form_for_path(path: &str) -> (f: UnlockForm)
    ensures
        f.path@ == path@,
        f.header_path@.len() == 0,
        f.anchor_path@.len() == 0,
        !f.use_detached,
        !f.use_anchor,
        f.method == UnlockMethod::Passphrase,
        f.passphrase@.len() == 0,
        f.pin@.len() == 0,
        f.hybrid_kyber_path@.len() == 0,
        f.slot_inspection is None,
{
    UnlockForm {
        path: path.to_owned(),
        header_path: String::new(),
        anchor_path: String::new(),
        use_detached: false,
        use_anchor: false,
        method: UnlockMethod::Passphrase,
        passphrase: String::new(),
        pin: String::new(),
        hybrid_kyber_path: String::new(),
        slot_inspection: None,
    }
}

/// The place of the first mark, from place `from` on.
pub open spec fn first_mark(same: Seq<bool>, from: int) -> Option<int>
    decreases same.len() - from,
{
    if from < 0 || from >= same.len() {
        None
    } else if same[from] {
        Some(from)
    } else {
        first_mark(same, from + 1)
    }
}

/// Whether an entry says what is known of a vault that the user picked, where
/// the entries of the list for it are marked.
pub open spec fn picked_entry(
    list: Seq<RecentVault>,
    same: Seq<bool>,
    path: Seq<char>,
    e: RecentVault,
) -> bool {
    &&& e.path@ == path
    &&& e.last_opened is None
    &&& match first_mark(same, 0) {
        Some(i) => {
            &&& opt_same(e.header_path, list[i].header_path)
            &&& opt_same(e.anchor_path, list[i].anchor_path)
            &&& e.cipher@ == list[i].cipher@
            &&& e.has_fido2 == list[i].has_fido2
            &&& e.has_hybrid_pq == list[i].has_hybrid_pq
            &&& e.has_tpm == list[i].has_tpm
        },
        None => {
            &&& e.header_path is None && e.anchor_path is None
            &&& e.cipher@.len() == 0
            &&& !e.has_fido2 && !e.has_hybrid_pq && !e.has_tpm
        },
    }
}

/// Whether two optional texts are the same.
pub open spec fn opt_same(a: Option<String>, b: Option<String>) -> bool {
    match (a, b) {
        (Some(x), Some(y)) => x@ == y@,
        (None, None) => true,
        _ => false,
    }
}

fn copy_opt(p: &Option<String>) -> (r: Option<String>)
    ensures
        opt_same(r, *p),
{
    match p {
        Some(s) => Some(s.clone()),
        None => None,
    }
}

/// The entry for a vault that the user picked: what the first marked entry of
/// the list knows of it.
pub fn entry_for_marked(list: &Vec<RecentVault>, same: &Vec<bool>, path: &str) -> (e: RecentVault)
    requires
        same@.len() == list@.len(),
    ensures
        picked_entry(list@, same@, path@, e),
{
    let mut i: usize = 0;
    while i < list.len()
        invariant
            i <= list@.len(),
            same@.len() == list@.len(),
            first_mark(same@, 0) == first_mark(same@, i as int),
        decreases list.len() - i,
    {
        if same[i] {
            let known = &list[i];
            return RecentVault {
                path: path.to_owned(),
                header_path: copy_opt(&known.header_path),
                anchor_path: copy_opt(&known.anchor_path),
                last_opened: None,
                cipher: known.cipher.clone(),
                has_fido2: known.has_fido2,
                has_hybrid_pq: known.has_hybrid_pq,
                has_tpm: known.has_tpm,
            };
        }
        i = i + 1;
    }
    RecentVault {
        path: path.to_owned(),
        header_path: None,
        anchor_path: None,
        last_opened: None,
        cipher: String::new(),
        has_fido2: false,
        has_hybrid_pq: false,
        has_tpm: false,
    }
}

/// The entry for a vault that the user picked: what the list knows of it.
pub fn entry_for_path(list: &Vec<RecentVault>, path: &str) -> (e: RecentVault)
    ensures
        exists|same: Seq<bool>| #[trigger]
            may_answer_all(list@, path@, same) && marks_fit(list@, path@, same) && picked_entry(
                list@,
                same,
                path@,
                e,
            ),
{
    let same = mark(list, path);
    entry_for_marked(list, &same, path)
}

} // verus!
