//! The dialogs that stand before an operation: what they accept, and what they
//! say when they do not.

use crate::forms::{CreateForm, EmptyPassphraseTarget, path_if};
use crate::form_laws::says_something;
use crate::kinds::KdfStrength;
use crate::passgen::PassgenOpts;
use crate::text::{join2, same_text, trim, trimmed};
use crate::text_laws::law_trim_keeps_the_middle;
use crate::unlock_form::UnlockForm;
use vstd::prelude::*;
use vstd::string::*;

verus! {

/// The dialog that adds a passphrase keyslot.
pub struct AddPassphraseForm {
    pub passphrase: String,
    pub kdf: KdfStrength,
}

impl Default for AddPassphraseForm {
    fn default() -> (f: AddPassphraseForm)
        ensures
            f.passphrase@.len() == 0,
            f.kdf == KdfStrength::Interactive,
    {
        AddPassphraseForm { passphrase: String::new(), kdf: KdfStrength::Interactive }
    }
}

/// Whether an empty passphrase has to be confirmed before the keyslot is
/// enrolled.
pub fn must_confirm(form: &AddPassphraseForm, confirmed: bool) -> (r: Option<EmptyPassphraseTarget>)
    ensures
        r == (if form.passphrase@.len() == 0 && !confirmed {
            Some(EmptyPassphraseTarget::AddPassphraseKeyslot)
        } else {
            None
        }),
{
    if form.passphrase.as_str().is_empty() && !confirmed {
        Some(EmptyPassphraseTarget::AddPassphraseKeyslot)
    } else {
        None
    }
}

/// The words of the question about an empty passphrase.
pub struct Question {
    pub title: &'static str,
    pub body: &'static str,
    pub yes: &'static str,
}

/// Asks about an empty passphrase. What is at stake depends on what it is for.
pub fn empty_passphrase_question(target: EmptyPassphraseTarget) -> (q: Question)
    ensures
        target == EmptyPassphraseTarget::Fido2DirectBackup ==> {
            &&& q.title@ == "No backup passphrase, are you sure?"@
            &&& q.body@
                == "FIDO2-direct vaults derive the master key from the authenticator's output; there's no wrapped MVK on disk to brute-force. Without a backup passphrase, LOSING THE AUTHENTICATOR loses the vault permanently with no recovery. Are you sure you want to skip the backup?"@
            &&& q.yes@ == "Yes, skip backup passphrase"@
        },
        target != EmptyPassphraseTarget::Fido2DirectBackup ==> {
            &&& q.title@ == "Empty passphrase, are you sure?"@
            &&& q.body@
                == "The passphrase field is empty. ANYONE who gets a copy of this vault file will be able to open it without any secret. Are you sure you want to continue?"@
            &&& q.yes@ == "Yes, use empty passphrase"@
        },
{
    match target {
        EmptyPassphraseTarget::Fido2DirectBackup => Question {
            title: "No backup passphrase, are you sure?",
            body: "FIDO2-direct vaults derive the master key from the authenticator's output; there's no wrapped MVK on disk to brute-force. Without a backup passphrase, LOSING THE AUTHENTICATOR loses the vault permanently with no recovery. Are you sure you want to skip the backup?",
            yes: "Yes, skip backup passphrase",
        },
        _ => Question {
            title: "Empty passphrase, are you sure?",
            body: "The passphrase field is empty. ANYONE who gets a copy of this vault file will be able to open it without any secret. Are you sure you want to continue?",
            yes: "Yes, use empty passphrase",
        },
    }
}

/// The dialog that adds a TPM keyslot with a PIN. The PIN is typed twice: one
/// that nobody knows would lock the slot for good.
pub struct AddTpm2PinForm {
    pub pin: String,
    pub pin_confirm: String,
}

impl Default for AddTpm2PinForm {
    fn default() -> (f: AddTpm2PinForm)
        ensures
            f.pin@.len() == 0,
            f.pin_confirm@.len() == 0,
    {
        AddTpm2PinForm { pin: String::new(), pin_confirm: String::new() }
    }
}

impl AddTpm2PinForm {
    pub open spec fn complaint_text(self) -> Option<Seq<char>> {
        if self.pin@.len() == 0 {
            Some("PIN cannot be empty"@)
        } else if self.pin@ != self.pin_confirm@ {
            Some("PINs do not match"@)
        } else {
            None
        }
    }

    /// Why the dialog is not accepted.
    pub fn complaint(&self) -> (r: Option<&'static str>)
        ensures
            match self.complaint_text() {
                Some(t) => r matches Some(s) && s@ == t,
                None => r is None,
            },
    {
        if self.pin.as_str().is_empty() {
            Some("PIN cannot be empty")
        } else if !same_text(self.pin.as_str(), self.pin_confirm.as_str()) {
            Some("PINs do not match")
        } else {
            None
        }
    }
}

/// The dialog that adds a TPM keyslot with an ML-KEM seed.
pub struct AddHybridTpm2Form {
    pub kyber_path: String,
    pub seed_pw: String,
    pub seed_pw_confirm: String,
    pub kem_size: u16,
}

/// What is wrong with the fields for a new seed file.
pub open spec fn seed_complaint_text(
    kyber_path: Seq<char>,
    seed_pw: Seq<char>,
    seed_pw_confirm: Seq<char>,
) -> Option<Seq<char>> {
    if trim(kyber_path).len() == 0 {
        Some(".kyber path cannot be empty"@)
    } else if seed_pw.len() == 0 {
        Some("seed-file passphrase cannot be empty"@)
    } else if seed_pw != seed_pw_confirm {
        Some("passphrases do not match"@)
    } else {
        None
    }
}

fn seed_complaint(kyber_path: &str, seed_pw: &str, seed_pw_confirm: &str) -> (r: Option<
    &'static str,
>)
    ensures
        match seed_complaint_text(kyber_path@, seed_pw@, seed_pw_confirm@) {
            Some(t) => r matches Some(s) && s@ == t,
            None => r is None,
        },
{
    if trimmed(kyber_path).as_str().is_empty() {
        Some(".kyber path cannot be empty")
    } else if seed_pw.is_empty() {
        Some("seed-file passphrase cannot be empty")
    } else if !same_text(seed_pw, seed_pw_confirm) {
        Some("passphrases do not match")
    } else {
        None
    }
}

impl AddHybridTpm2Form {
    pub fn new(kem_size: u16) -> (f: AddHybridTpm2Form)
        ensures
            f.kyber_path@.len() == 0,
            f.seed_pw@.len() == 0,
            f.seed_pw_confirm@.len() == 0,
            f.kem_size == kem_size,
    {
        AddHybridTpm2Form {
            kyber_path: String::new(),
            seed_pw: String::new(),
            seed_pw_confirm: String::new(),
            kem_size,
        }
    }

    /// Why the dialog is not accepted.
    pub fn complaint(&self) -> (r: Option<&'static str>)
        ensures
            match seed_complaint_text(self.kyber_path@, self.seed_pw@, self.seed_pw_confirm@) {
                Some(t) => r matches Some(s) && s@ == t,
                None => r is None,
            },
    {
        seed_complaint(
            self.kyber_path.as_str(),
            self.seed_pw.as_str(),
            self.seed_pw_confirm.as_str(),
        )
    }
}

/// The dialog that adds a keyslot with TPM, authenticator and ML-KEM seed.
pub struct AddHybridTpm2Fido2Form {
    pub kyber_path: String,
    pub seed_pw: String,
    pub seed_pw_confirm: String,
    pub fido2_pin: String,
    pub kem_size: u16,
}

impl AddHybridTpm2Fido2Form {
    pub fn new(kem_size: u16) -> (f: AddHybridTpm2Fido2Form)
        ensures
            f.kyber_path@.len() == 0,
            f.seed_pw@.len() == 0,
            f.seed_pw_confirm@.len() == 0,
            f.fido2_pin@.len() == 0,
            f.kem_size == kem_size,
    {
        AddHybridTpm2Fido2Form {
            kyber_path: String::new(),
            seed_pw: String::new(),
            seed_pw_confirm: String::new(),
            fido2_pin: String::new(),
            kem_size,
        }
    }

    pub open spec fn complaint_text(self) -> Option<Seq<char>> {
        if self.fido2_pin@.len() == 0 {
            Some("FIDO2 PIN cannot be empty"@)
        } else {
            seed_complaint_text(self.kyber_path@, self.seed_pw@, self.seed_pw_confirm@)
        }
    }

    /// Why the dialog is not accepted.
    pub fn complaint(&self) -> (r: Option<&'static str>)
        ensures
            match self.complaint_text() {
                Some(t) => r matches Some(s) && s@ == t,
                None => r is None,
            },
    {
        if self.fido2_pin.as_str().is_empty() {
            return Some("FIDO2 PIN cannot be empty");
        }
        seed_complaint(
            self.kyber_path.as_str(),
            self.seed_pw.as_str(),
            self.seed_pw_confirm.as_str(),
        )
    }
}

/// A PIN or passphrase that is bound to a keyslot for good is accepted only if
/// it was typed the same twice, and is not empty.
pub proof fn law_accepted_secrets_were_repeated(
    t: AddTpm2PinForm,
    kyber_path: Seq<char>,
    seed_pw: Seq<char>,
    confirm: Seq<char>,
)
    ensures
        t.complaint_text() is None ==> t.pin@ == t.pin_confirm@ && t.pin@.len() > 0,
        seed_complaint_text(kyber_path, seed_pw, confirm) is None ==> seed_pw == confirm
            && seed_pw.len() > 0,
{
}

/// One keyslot in the dialog that rotates the master key.
pub struct RotateSlotInput {
    pub slot_idx: usize,
    pub passphrase: String,
}

/// The dialog that rotates the master key.
pub struct RotateForm {
    pub entries: Vec<RotateSlotInput>,
    pub kdf: KdfStrength,
}

impl RotateForm {
    /// Asks for the passphrase of each of the given slots.
    pub fn new(slots: &Vec<usize>) -> (f: RotateForm)
        ensures
            f.kdf == KdfStrength::Interactive,
            f.entries@.len() == slots@.len(),
            forall|i: int|
                0 <= i < slots@.len() ==> (#[trigger] f.entries@[i]).slot_idx == slots@[i]
                    && f.entries@[i].passphrase@.len() == 0,
    {
        let mut entries: Vec<RotateSlotInput> = Vec::new();
        let mut i: usize = 0;
        while i < slots.len()
            invariant
                i <= slots@.len(),
                entries@.len() == i,
                forall|k: int|
                    0 <= k < i ==> (#[trigger] entries@[k]).slot_idx == slots@[k]
                        && entries@[k].passphrase@.len() == 0,
            decreases slots.len() - i,
        {
            entries.push(RotateSlotInput { slot_idx: slots[i], passphrase: String::new() });
            i = i + 1;
        }
        RotateForm { entries, kdf: KdfStrength::Interactive }
    }

    /// Whether every passphrase has been typed.
    pub open spec fn filled_in(self) -> bool {
        forall|i: int|
            0 <= i < self.entries@.len() ==> (#[trigger] self.entries@[i]).passphrase@.len() > 0
    }

    fn is_filled_in(&self) -> (b: bool)
        ensures
            b == self.filled_in(),
    {
        let mut i: usize = 0;
        while i < self.entries.len()
            invariant
                i <= self.entries@.len(),
                forall|k: int|
                    0 <= k < i ==> (#[trigger] self.entries@[k]).passphrase@.len() > 0,
            decreases self.entries.len() - i,
        {
            if self.entries[i].passphrase.as_str().is_empty() {
                assert(self.entries@[i as int].passphrase@.len() == 0);
                return false;
            }
            i = i + 1;
        }
        true
    }

    /// Whether the dialog can be submitted. `busy` says that another operation is
    /// under way.
    pub fn can_submit(&self, busy: bool) -> (b: bool)
        ensures
            b == (self.filled_in() && !busy),
    {
        self.is_filled_in() && !busy
    }

    /// What hovering over the button says.
    pub fn hint(&self, busy: bool) -> (s: &'static str)
        ensures
            s@ == (if self.filled_in() && !busy {
                "Spawns a background worker; the rotation runs O(N) over the vault's chunks."@
            } else if busy {
                "Another operation is in flight, wait for it to finish."@
            } else {
                "Fill in every slot's passphrase first."@
            }),
    {
        if self.can_submit(busy) {
            "Spawns a background worker; the rotation runs O(N) over the vault's chunks."
        } else if busy {
            "Another operation is in flight, wait for it to finish."
        } else {
            "Fill in every slot's passphrase first."
        }
    }
}

/// The form that destroys a vault.
pub struct PanicForm {
    pub vault: String,
    pub header_path: String,
    pub use_detached: bool,
    pub wipe_data: bool,
    pub confirmation: String,
}

impl Default for PanicForm {
    fn default() -> (f: PanicForm)
        ensures
            f.vault@.len() == 0,
            f.header_path@.len() == 0,
            f.confirmation@.len() == 0,
            !f.use_detached,
            !f.wipe_data,
    {
        PanicForm {
            vault: String::new(),
            header_path: String::new(),
            use_detached: false,
            wipe_data: false,
            confirmation: String::new(),
        }
    }
}

/// A vault to be destroyed.
pub struct PanicRequest {
    pub vault: String,
    pub header: Option<String>,
    pub wipe_data: bool,
}

impl PanicForm {
    pub open spec fn phrase(self) -> Seq<char> {
        "DESTROY "@ + trim(self.vault@)
    }

    /// What the user has to type.
    pub fn expected(&self) -> (s: String)
        ensures
            s@ == self.phrase(),
    {
        join2("DESTROY ", trimmed(self.vault.as_str()).as_str())
    }

    /// Whether the user has typed it.
    pub open spec fn is_armed(self) -> bool {
        self.confirmation@ == self.phrase() && trim(self.vault@).len() > 0
    }

    pub fn armed(&self) -> (b: bool)
        ensures
            b == self.is_armed(),
    {
        let vault = trimmed(self.vault.as_str());
        same_text(self.confirmation.as_str(), self.expected().as_str())
            && !vault.as_str().is_empty()
    }

    /// What is to be destroyed, once the form is armed and nothing else is under
    /// way.
    pub fn submit(&self, busy: bool) -> (r: Option<PanicRequest>)
        ensures
            r is Some <==> self.is_armed() && !busy,
            r matches Some(q) ==> {
                &&& q.vault@ == trim(self.vault@)
                &&& path_if(
                    self.use_detached && trim(self.header_path@).len() > 0,
                    self.header_path@,
                    q.header,
                )
                &&& q.wipe_data == self.wipe_data
            },
    {
        if busy || !self.armed() {
            return None;
        }
        let mut header: Option<String> = None;
        if self.use_detached {
            let h = trimmed(self.header_path.as_str());
            if !h.as_str().is_empty() {
                header = Some(h);
            }
        }
        Some(
            PanicRequest {
                vault: trimmed(self.vault.as_str()),
                header,
                wipe_data: self.wipe_data,
            },
        )
    }
}

/// The words that destroy one vault do not destroy another.
pub proof fn law_destroy_phrase_names_the_vault(a: PanicForm, b: PanicForm)
    requires
        a.is_armed(),
        b.is_armed(),
        a.confirmation@ == b.confirmation@,
    ensures
        trim(a.vault@) == trim(b.vault@),
{
    let p = "DESTROY "@;
    let x = trim(a.vault@);
    let y = trim(b.vault@);
    assert(p + x == p + y);
    assert(x =~= (p + x).skip(p.len() as int));
    assert(y =~= (p + y).skip(p.len() as int));
}

/// Where a generated passphrase goes.
#[derive(Clone, Copy, Debug, PartialEq, Eq, Structural)]
pub enum PassgenTarget {
    /// It is only shown.
    Standalone,
    CreatePrimary,
    CreateBackup,
    AddKeyslotPassphrase,
}

impl PassgenTarget {
    /// What the button that accepts the passphrase says.
    pub fn accept_label(self) -> (s: &'static str)
        ensures
            s@ == (if self == PassgenTarget::Standalone {
                "Done"@
            } else {
                "Use this passphrase"@
            }),
    {
        match self {
            PassgenTarget::Standalone => "Done",
            _ => "Use this passphrase",
        }
    }
}

/// Whether the preview is drawn anew: on demand or when an option changed, but
/// not while no character set is chosen.
pub fn regenerates(before: PassgenOpts, after: PassgenOpts, rerolled: bool) -> (b: bool)
    ensures
        b == ((rerolled || before != after) && after.valid()),
{
    let same = before.length == after.length && before.lowercase == after.lowercase
        && before.uppercase == after.uppercase && before.digits == after.digits && before.symbols
        == after.symbols;
    (rerolled || !same) && after.is_valid()
}

/// What accepting a generated passphrase leads to.
pub struct Accepted {
    pub create: CreateForm,
    pub add: Option<AddPassphraseForm>,
    pub toast: Option<&'static str>,
}

/// Puts a generated passphrase where it belongs.
pub fn accept_passphrase(
    target: PassgenTarget,
    value: String,
    create: CreateForm,
    add: Option<AddPassphraseForm>,
) -> (r: Accepted)
    ensures
        match target {
            PassgenTarget::Standalone => {
                &&& r.create == create && r.add == add
                &&& r.toast matches Some(t) && t@
                    == "passphrase ready, paste it where you need it"@
            },
            PassgenTarget::CreatePrimary => {
                &&& r.create == (CreateForm { passphrase: value, ..create }) && r.add == add
                &&& r.toast matches Some(t) && t@ == "passphrase filled in"@
            },
            PassgenTarget::CreateBackup => {
                &&& r.create == (CreateForm { backup_passphrase: value, ..create })
                &&& r.add == add
                &&& r.toast matches Some(t) && t@ == "backup passphrase filled in"@
            },
            PassgenTarget::AddKeyslotPassphrase => {
                &&& r.create == create
                &&& match add {
                    Some(f) => {
                        &&& r.add == Some(AddPassphraseForm { passphrase: value, kdf: f.kdf })
                        &&& r.toast matches Some(t) && t@ == "passphrase filled in"@
                    },
                    None => r.add is None && r.toast is None,
                }
            },
        },
{
    let mut create = create;
    match target {
        PassgenTarget::Standalone => Accepted {
            create,
            add,
            toast: Some("passphrase ready, paste it where you need it"),
        },
        PassgenTarget::CreatePrimary => {
            create.passphrase = value;
            Accepted { create, add, toast: Some("passphrase filled in") }
        },
        PassgenTarget::CreateBackup => {
            create.backup_passphrase = value;
            Accepted { create, add, toast: Some("backup passphrase filled in") }
        },
        PassgenTarget::AddKeyslotPassphrase => match add {
            Some(f) => Accepted {
                create,
                add: Some(AddPassphraseForm { passphrase: value, kdf: f.kdf }),
                toast: Some("passphrase filled in"),
            },
            None => Accepted { create, add: None, toast: None },
        },
    }
}

/// Which field a file picker fills in.
#[derive(Clone, Copy, Debug, PartialEq, Eq, Structural)]
pub enum PickerTarget {
    CreateHybridKyber,
    UnlockHybridKyber,
    CreateAnchor,
    /// Whichever dialog for a seed file is open.
    AddHybridKyber,
}

/// The fields that a file picker can fill in.
pub struct PickerFields {
    pub create: CreateForm,
    pub unlock: UnlockForm,
    pub add_hybrid: Option<AddHybridTpm2Form>,
    pub add_hybrid_fido2: Option<AddHybridTpm2Fido2Form>,
}

/// Puts a picked path where it belongs.
pub fn apply_picked(target: PickerTarget, path: &str, fields: PickerFields) -> (r: PickerFields)
    ensures
        target == PickerTarget::CreateHybridKyber ==> {
            &&& r.create.hybrid_kyber_path@ == path@
            &&& r == (PickerFields {
                create: CreateForm {
                    hybrid_kyber_path: r.create.hybrid_kyber_path,
                    ..fields.create
                },
                ..fields
            })
        },
        target == PickerTarget::CreateAnchor ==> {
            &&& r.create.anchor_path@ == path@
            &&& r == (PickerFields {
                create: CreateForm { anchor_path: r.create.anchor_path, ..fields.create },
                ..fields
            })
        },
        target == PickerTarget::UnlockHybridKyber ==> {
            &&& r.unlock.hybrid_kyber_path@ == path@
            &&& r == (PickerFields {
                unlock: UnlockForm {
                    hybrid_kyber_path: r.unlock.hybrid_kyber_path,
                    ..fields.unlock
                },
                ..fields
            })
        },
        target == PickerTarget::AddHybridKyber ==> {
            &&& r.create == fields.create && r.unlock == fields.unlock
            &&& match fields.add_hybrid {
                Some(f) => r.add_hybrid matches Some(g) && g.kyber_path@ == path@ && g == (
                AddHybridTpm2Form { kyber_path: g.kyber_path, ..f }),
                None => r.add_hybrid is None,
            }
            &&& match fields.add_hybrid_fido2 {
                Some(f) => r.add_hybrid_fido2 matches Some(g) && g.kyber_path@ == path@ && g == (
                AddHybridTpm2Fido2Form { kyber_path: g.kyber_path, ..f }),
                None => r.add_hybrid_fido2 is None,
            }
        },
{
    let mut fields = fields;
    match target {
        PickerTarget::CreateHybridKyber => {
            fields.create.hybrid_kyber_path = path.to_owned();
        },
        PickerTarget::CreateAnchor => {
            fields.create.anchor_path = path.to_owned();
        },
        PickerTarget::UnlockHybridKyber => {
            fields.unlock.hybrid_kyber_path = path.to_owned();
        },
        PickerTarget::AddHybridKyber => {
            let PickerFields { create, unlock, add_hybrid, add_hybrid_fido2 } = fields;
            let first = match add_hybrid {
                Some(f) => {
                    let mut f = f;
                    f.kyber_path = path.to_owned();
                    Some(f)
                },
                None => None,
            };
            let second = match add_hybrid_fido2 {
                Some(f) => {
                    let mut f = f;
                    f.kyber_path = path.to_owned();
                    Some(f)
                },
                None => None,
            };
            return PickerFields {
                create,
                unlock,
                add_hybrid: first,
                add_hybrid_fido2: second,
            };
        },
    }
    fields
}

/// A dialog that binds a secret for good is accepted exactly if every field is
/// filled in and what was typed twice is the same.
pub proof fn law_dialogs_are_accepted_when_filled_in(
    t: AddTpm2PinForm,
    h: AddHybridTpm2Fido2Form,
    kyber_path: Seq<char>,
    seed_pw: Seq<char>,
    confirm: Seq<char>,
)
    ensures
        t.complaint_text() is None <==> t.pin@.len() > 0 && t.pin@ == t.pin_confirm@,
        seed_complaint_text(kyber_path, seed_pw, confirm) is None <==> says_something(kyber_path)
            && seed_pw.len() > 0 && seed_pw == confirm,
        h.complaint_text() is None <==> h.fido2_pin@.len() > 0 && says_something(h.kyber_path@)
            && h.seed_pw@.len() > 0 && h.seed_pw@ == h.seed_pw_confirm@,
{
    law_trim_keeps_the_middle(kyber_path);
    law_trim_keeps_the_middle(h.kyber_path@);
}

/// A vault is destroyed only if the user has typed the word DESTROY, a blank and
/// the path of the vault.
pub proof fn law_destroy_is_typed_out(f: PanicForm)
    ensures
        f.is_armed() <==> says_something(f.vault@) && f.confirmation@ == seq![
            'D',
            'E',
            'S',
            'T',
            'R',
            'O',
            'Y',
            ' ',
        ] + trim(f.vault@),
{
    reveal_strlit("DESTROY ");
    assert("DESTROY "@ =~= seq!['D', 'E', 'S', 'T', 'R', 'O', 'Y', ' ']);
    law_trim_keeps_the_middle(f.vault@);
}

/// The rotation dialog is filled in exactly if no slot waits for its passphrase.
pub proof fn law_rotation_waits_for_every_slot(f: RotateForm)
    ensures
        !f.filled_in() <==> exists|i: int|
            0 <= i < f.entries@.len() && (#[trigger] f.entries@[i]).passphrase@ == Seq::<
                char,
            >::empty(),
{
    if !f.filled_in() {
        let i = choose|i: int|
            0 <= i < f.entries@.len() && !((#[trigger] f.entries@[i]).passphrase@.len() > 0);
        assert(f.entries@[i].passphrase@ =~= Seq::<char>::empty());
    }
}

} // verus!
