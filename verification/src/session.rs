//! The application as a state machine: which screen is shown, whether a vault is
//! open, and what the end of a background task changes.

use crate::opened::OpenedVault;
use crate::recent::RecentVault;
use crate::text::{decimal, decimal_text, join2, join3};
use crate::unlock_form::opt_same;
use vstd::prelude::*;
use vstd::string::*;

verus! {

#[derive(Clone, Copy, Debug, PartialEq, Eq, Structural)]
pub enum Screen {
    Welcome,
    Create,
    Unlock,
    Browser,
    Keyslots,
    Panic,
    About,
}

/// Somewhere to go that means leaving the open vault.
pub enum NavigateAction {
    OpenRecent(RecentVault),
    OpenPicker,
    GoCreate,
    GoPanic,
    GoWelcome,
}

impl NavigateAction {
    pub open spec fn label_text(self) -> Seq<char> {
        match self {
            NavigateAction::OpenRecent(r) => "open "@ + r.path@,
            NavigateAction::OpenPicker => "open another vault"@,
            NavigateAction::GoCreate => "create a new vault"@,
            NavigateAction::GoPanic => "go to the PANIC screen"@,
            NavigateAction::GoWelcome => "return to the welcome screen"@,
        }
    }

    /// The action in words.
    pub fn label(&self) -> (s: String)
        ensures
            s@ == self.label_text(),
    {
        match self {
            NavigateAction::OpenRecent(r) => join2("open ", r.path.as_str()),
            NavigateAction::OpenPicker => "open another vault".to_owned(),
            NavigateAction::GoCreate => "create a new vault".to_owned(),
            NavigateAction::GoPanic => "go to the PANIC screen".to_owned(),
            NavigateAction::GoWelcome => "return to the welcome screen".to_owned(),
        }
    }
}

/// What is left for the caller to do after a navigation.
pub enum Errand {
    Nothing,
    /// Fill in the unlock form for this vault.
    Unlock(RecentVault),
    /// Let the user pick a vault file.
    Pick,
}

/// A navigation that took place.
pub struct Departure {
    /// The vault that was closed; it is to be flushed.
    pub closed: Option<OpenedVault>,
    pub errand: Errand,
}

/// The part of the application that navigation is about.
pub struct Shell {
    pub screen: Screen,
    pub vault: Option<OpenedVault>,
    pub cwd: String,
    /// A navigation that waits until the user agrees to lock the vault.
    pub confirm_lock: Option<NavigateAction>,
}

/// The contents of a [`Shell`].
#[verifier::ext_equal]
pub struct ShellView {
    pub screen: Screen,
    pub vault: Option<OpenedVault>,
    pub cwd: Seq<char>,
    pub confirm_lock: Option<NavigateAction>,
}

impl View for Shell {
    type V = ShellView;

    open spec fn view(&self) -> ShellView {
        ShellView {
            screen: self.screen,
            vault: self.vault,
            cwd: self.cwd@,
            confirm_lock: self.confirm_lock,
        }
    }
}

/// The shell after a navigation. The vault file to open is not yet known where
/// the user has to pick it, so the screen stays until then.
pub open spec fn departed(s: ShellView, a: NavigateAction) -> ShellView {
    ShellView {
        screen: match a {
            NavigateAction::OpenRecent(_) => Screen::Unlock,
            NavigateAction::OpenPicker => s.screen,
            NavigateAction::GoCreate => Screen::Create,
            NavigateAction::GoPanic => Screen::Panic,
            NavigateAction::GoWelcome => Screen::Welcome,
        },
        vault: None,
        cwd: "/"@,
        confirm_lock: s.confirm_lock,
    }
}

pub open spec fn errand_of(a: NavigateAction) -> Errand {
    match a {
        NavigateAction::OpenRecent(r) => Errand::Unlock(r),
        NavigateAction::OpenPicker => Errand::Pick,
        _ => Errand::Nothing,
    }
}

/// The shell after a navigation was asked for.
pub open spec fn requested(s: ShellView, a: NavigateAction) -> ShellView {
    if s.vault is None {
        departed(s, a)
    } else {
        ShellView { confirm_lock: Some(a), ..s }
    }
}

/// The shell after the user answered whether to lock the vault.
pub open spec fn answered(s: ShellView, yes: bool) -> ShellView {
    let free = ShellView { confirm_lock: None, ..s };
    match s.confirm_lock {
        Some(a) if yes => departed(free, a),
        _ => free,
    }
}

impl Shell {
    /// A fresh application. Started with a vault, it asks for the keys at once.
    pub fn new(with_vault: bool) -> (s: Shell)
        ensures
            s@ == (ShellView {
                screen: if with_vault {
                    Screen::Unlock
                } else {
                    Screen::Welcome
                },
                vault: None,
                cwd: "/"@,
                confirm_lock: None,
            }),
    {
        Shell {
            screen: if with_vault {
                Screen::Unlock
            } else {
                Screen::Welcome
            },
            vault: None,
            cwd: "/".to_owned(),
            confirm_lock: None,
        }
    }

    /// Closes the vault, if one is open, and goes to the top of the next one.
    fn lock_and_drop_vault(&mut self) -> (closed: Option<OpenedVault>)
        ensures
            closed == old(self)@.vault,
            final(self)@ == (ShellView { vault: None, cwd: "/"@, ..old(self)@ }),
    {
        let closed = self.vault.take();
        self.cwd = "/".to_owned();
        closed
    }

    /// Closes the vault and navigates. This is for an explicit "Lock", and for
    /// navigations that the user has agreed to.
    pub fn execute_navigate(&mut self, action: NavigateAction) -> (d: Departure)
        ensures
            final(self)@ == departed(old(self)@, action),
            d.closed == old(self)@.vault,
            d.errand == errand_of(action),
    {
        let closed = self.lock_and_drop_vault();
        let errand = match action {
            NavigateAction::OpenRecent(r) => {
                self.screen = Screen::Unlock;
                Errand::Unlock(r)
            },
            NavigateAction::OpenPicker => Errand::Pick,
            NavigateAction::GoCreate => {
                self.screen = Screen::Create;
                Errand::Nothing
            },
            NavigateAction::GoPanic => {
                self.screen = Screen::Panic;
                Errand::Nothing
            },
            NavigateAction::GoWelcome => {
                self.screen = Screen::Welcome;
                Errand::Nothing
            },
        };
        Departure { closed, errand }
    }

    /// Asks for a navigation: at once if no vault is open, else after the user
    /// has agreed to lock it.
    pub fn request_navigate(&mut self, action: NavigateAction) -> (d: Option<Departure>)
        ensures
            final(self)@ == requested(old(self)@, action),
            match d {
                Some(d) => {
                    &&& old(self)@.vault is None && d.closed is None
                    &&& d.errand == errand_of(action)
                },
                None => old(self)@.vault is Some,
            },
    {
        if self.vault.is_none() {
            Some(self.execute_navigate(action))
        } else {
            self.confirm_lock = Some(action);
            None
        }
    }

    /// Takes the user's answer to the question whether to lock the vault.
    pub fn answer_confirm_lock(&mut self, yes: bool) -> (d: Option<Departure>)
        ensures
            final(self)@ == answered(old(self)@, yes),
            match d {
                Some(d) => {
                    &&& yes && old(self)@.confirm_lock is Some
                    &&& d.closed == old(self)@.vault
                    &&& d.errand == errand_of(old(self)@.confirm_lock->0)
                },
                None => !yes || old(self)@.confirm_lock is None,
            },
    {
        match self.confirm_lock.take() {
            Some(action) => {
                if yes {
                    Some(self.execute_navigate(action))
                } else {
                    None
                }
            },
            None => None,
        }
    }

    /// The question whether to lock the vault.
    pub fn lock_question(&self) -> (q: Option<String>)
        ensures
            match self@.confirm_lock {
                Some(a) => q matches Some(s) && s@ == (match self@.vault {
                    Some(v) => v.vault_path@,
                    None => ""@,
                }) + " is still open. To "@ + a.label_text()
                    + " we need to lock it first, which flushes any pending writes and drops the file handle so the vault can be reopened cleanly."@,
                None => q is None,
            },
    {
        match &self.confirm_lock {
            Some(a) => {
                let path = match &self.vault {
                    Some(v) => v.vault_path.as_str(),
                    None => "",
                };
                let mut s = join3(path, " is still open. To ", a.label().as_str());
                s.append(
                    " we need to lock it first, which flushes any pending writes and drops the file handle so the vault can be reopened cleanly.",
                );
                Some(s)
            },
            None => None,
        }
    }

    /// Lends the vault to a background task.
    pub fn lend(&mut self) -> (v: Option<OpenedVault>)
        ensures
            v == old(self)@.vault,
            final(self)@ == (ShellView { vault: None, ..old(self)@ }),
    {
        self.vault.take()
    }
}

/// Asking to go elsewhere never closes an open vault; only a "yes" to the
/// question does, and a "no" leaves everything as it was.
pub proof fn law_vault_closes_only_on_consent(s: ShellView, a: NavigateAction)
    requires
        s.vault is Some,
    ensures
        requested(s, a).vault == s.vault,
        requested(s, a).screen == s.screen,
        requested(s, a).cwd == s.cwd,
        answered(requested(s, a), false) == (ShellView { confirm_lock: None, ..s }),
        answered(requested(s, a), true) == departed(ShellView { confirm_lock: None, ..s }, a),
        answered(requested(s, a), true).vault is None,
{
}

/// A background task that ends with an open vault.
#[derive(Clone, Copy, Debug, PartialEq, Eq, Structural)]
pub enum OpenTask {
    Create,
    Unlock,
    /// Creating a vault and adding a TPM slot, as one task.
    CreateWithTpmBootstrap,
}

/// A background task that borrows the open vault.
pub enum LoanTask {
    PutFile { name: String },
    GetFile,
    EnrollPassphrase,
    EnrollFido2,
    EnrollTpm2,
    EnrollTpm2Pin,
    EnrollTpm2Fido2,
    EnrollHybridPqTpm2,
    EnrollHybridPqTpm2Fido2,
}

/// A background task.
#[allow(inconsistent_fields)]
pub enum Pending {
    Fido2Probe,
    Open { task: OpenTask, needs_touch: bool },
    Loan { task: LoanTask },
    Panic,
    RotateMvk,
}

/// What the user does with the authenticator. Windows Hello has nothing to
/// touch.
pub open spec fn auth_verb_text(windows_hello: bool) -> Seq<char> {
    if windows_hello {
        "authenticate with Windows Hello (face / fingerprint / PIN)"@
    } else {
        "touch your FIDO2 authenticator"@
    }
}

fn auth_verb(windows_hello: bool) -> (s: &'static str)
    ensures
        s@ == auth_verb_text(windows_hello),
{
    if windows_hello {
        "authenticate with Windows Hello (face / fingerprint / PIN)"
    } else {
        "touch your FIDO2 authenticator"
    }
}

impl Pending {
    pub open spec fn label_text(self, windows_hello: bool) -> Seq<char> {
        let verb = auth_verb_text(windows_hello);
        match self {
            Pending::Fido2Probe => "probing for FIDO2 authenticators..."@,
            Pending::Open { task, needs_touch } => match task {
                OpenTask::Create => if needs_touch {
                    "creating vault, "@ + verb + " when prompted"@
                } else {
                    "stretching passphrase with Argon2id..."@
                },
                OpenTask::Unlock => if needs_touch {
                    "unlocking, "@ + verb + " when prompted"@
                } else {
                    "stretching passphrase with Argon2id..."@
                },
                OpenTask::CreateWithTpmBootstrap => if needs_touch {
                    "creating vault + sealing under the local TPM 2.0 ("@ + verb
                        + " for the FIDO2 half)"@
                } else {
                    "creating vault + sealing under the local TPM 2.0..."@
                },
            },
            Pending::Loan { task } => match task {
                LoanTask::PutFile { .. } => "encrypting file..."@,
                LoanTask::GetFile => "decrypting..."@,
                LoanTask::EnrollPassphrase => "stretching passphrase with Argon2id..."@,
                LoanTask::EnrollFido2 => "registering credential - "@ + verb,
                LoanTask::EnrollTpm2 => "sealing key under the local TPM 2.0..."@,
                LoanTask::EnrollTpm2Pin => {
                    "sealing key under the local TPM 2.0 with PIN-binding..."@
                },
                LoanTask::EnrollTpm2Fido2 => "fused TPM+FIDO2 enroll - "@ + verb
                    + " + sealing under the local TPM 2.0"@,
                LoanTask::EnrollHybridPqTpm2 => {
                    "hybrid TPM + ML-KEM enroll: sealing TPM half + generating Kyber keypair..."@
                },
                LoanTask::EnrollHybridPqTpm2Fido2 => "3-factor TPM+FIDO2+ML-KEM enroll - "@ + verb
                    + " + TPM seal + Kyber keygen"@,
            },
            Pending::Panic => "wiping..."@,
            Pending::RotateMvk => "rotating master key (re-encrypting every chunk)..."@,
        }
    }

    /// What the task is doing.
    pub fn label(&self, windows_hello: bool) -> (s: String)
        ensures
            s@ == self.label_text(windows_hello),
    {
        let verb = auth_verb(windows_hello);
        match self {
            Pending::Fido2Probe => "probing for FIDO2 authenticators...".to_owned(),
            Pending::Open { task, needs_touch } => match task {
                OpenTask::Create => if *needs_touch {
                    join3("creating vault, ", verb, " when prompted")
                } else {
                    "stretching passphrase with Argon2id...".to_owned()
                },
                OpenTask::Unlock => if *needs_touch {
                    join3("unlocking, ", verb, " when prompted")
                } else {
                    "stretching passphrase with Argon2id...".to_owned()
                },
                OpenTask::CreateWithTpmBootstrap => if *needs_touch {
                    join3(
                        "creating vault + sealing under the local TPM 2.0 (",
                        verb,
                        " for the FIDO2 half)",
                    )
                } else {
                    "creating vault + sealing under the local TPM 2.0...".to_owned()
                },
            },
            Pending::Loan { task } => match task {
                LoanTask::PutFile { .. } => "encrypting file...".to_owned(),
                LoanTask::GetFile => "decrypting...".to_owned(),
                LoanTask::EnrollPassphrase => "stretching passphrase with Argon2id...".to_owned(),
                LoanTask::EnrollFido2 => join2("registering credential - ", verb),
                LoanTask::EnrollTpm2 => "sealing key under the local TPM 2.0...".to_owned(),
                LoanTask::EnrollTpm2Pin => {
                    "sealing key under the local TPM 2.0 with PIN-binding...".to_owned()
                },
                LoanTask::EnrollTpm2Fido2 => join3(
                    "fused TPM+FIDO2 enroll - ",
                    verb,
                    " + sealing under the local TPM 2.0",
                ),
                LoanTask::EnrollHybridPqTpm2 => {
                    "hybrid TPM + ML-KEM enroll: sealing TPM half + generating Kyber keypair...".to_owned()
                },
                LoanTask::EnrollHybridPqTpm2Fido2 => join3(
                    "3-factor TPM+FIDO2+ML-KEM enroll - ",
                    verb,
                    " + TPM seal + Kyber keygen",
                ),
            },
            Pending::Panic => "wiping...".to_owned(),
            Pending::RotateMvk => "rotating master key (re-encrypting every chunk)...".to_owned(),
        }
    }

    /// Whether the task waits for the authenticator.
    pub open spec fn touch(self) -> bool {
        match self {
            Pending::Open { needs_touch, .. } => needs_touch,
            Pending::Loan { task } => {
                task is EnrollFido2 || task is EnrollTpm2Fido2 || task is EnrollHybridPqTpm2Fido2
            },
            _ => false,
        }
    }

    pub fn needs_touch(&self) -> (b: bool)
        ensures
            b == self.touch(),
    {
        match self {
            Pending::Open { needs_touch, .. } => *needs_touch,
            Pending::Loan { task } => match task {
                LoanTask::EnrollFido2 => true,
                LoanTask::EnrollTpm2Fido2 => true,
                LoanTask::EnrollHybridPqTpm2Fido2 => true,
                _ => false,
            },
            _ => false,
        }
    }

    /// Whether the task covers the window until it is done. The probe for
    /// authenticators does not.
    pub fn blocks_input(&self) -> (b: bool)
        ensures
            b == !(self is Fido2Probe),
    {
        match self {
            Pending::Fido2Probe => false,
            _ => true,
        }
    }
}

/// How a message is shown.
#[derive(Clone, Copy, Debug, PartialEq, Eq, Structural)]
pub enum ToastKind {
    Good,
    Bad,
    Warn,
}

/// A message for the user.
pub struct Notice {
    pub kind: ToastKind,
    pub text: String,
}

fn good(text: &str) -> (n: Notice)
    ensures
        n.kind == ToastKind::Good,
        n.text@ == text@,
{
    Notice { kind: ToastKind::Good, text: text.to_owned() }
}

fn bad(text: &str) -> (n: Notice)
    ensures
        n.kind == ToastKind::Bad,
        n.text@ == text@,
{
    Notice { kind: ToastKind::Bad, text: text.to_owned() }
}

/// Which form is emptied.
#[derive(Clone, Copy, Debug, PartialEq, Eq, Structural)]
pub enum FormReset {
    Keep,
    Create,
    Unlock,
    Panic,
}

/// What follows the end of a task besides the new shell.
pub struct Aftermath {
    pub notice: Notice,
    /// Read the directory again.
    pub refresh: bool,
    /// Put this vault first in the list of recent ones.
    pub remember: Option<RecentVault>,
    pub reset: FormReset,
}

/// Whether nothing follows but the message.
pub open spec fn only_notice(a: Aftermath, kind: ToastKind, text: Seq<char>) -> bool {
    &&& a.notice.kind == kind && a.notice.text@ == text
    &&& !a.refresh && a.remember is None && a.reset == FormReset::Keep
}

fn say(notice: Notice) -> (a: Aftermath)
    ensures
        only_notice(a, notice.kind, notice.text@),
{
    Aftermath { notice, refresh: false, remember: None, reset: FormReset::Keep }
}

/// Whether `r` is the entry for a vault opened at `now`.
pub open spec fn remembers(v: OpenedVault, now: i64, r: RecentVault) -> bool {
    &&& r.path@ == v.vault_path@
    &&& opt_same(r.header_path, v.header_path)
    &&& opt_same(r.anchor_path, v.anchor_path)
    &&& r.last_opened == Some(now)
    &&& r.cipher@ == v.cipher_label@
    &&& r.has_fido2 == v.has_fido2 && r.has_hybrid_pq == v.has_hybrid_pq && r.has_tpm == v.has_tpm
}

fn remember(v: &OpenedVault, now: i64) -> (r: RecentVault)
    ensures
        remembers(*v, now, r),
{
    let header_path = match &v.header_path {
        Some(p) => Some(p.clone()),
        None => None,
    };
    let anchor_path = match &v.anchor_path {
        Some(p) => Some(p.clone()),
        None => None,
    };
    RecentVault {
        path: v.vault_path.clone(),
        header_path,
        anchor_path,
        last_opened: Some(now),
        cipher: v.cipher_label.clone(),
        has_fido2: v.has_fido2,
        has_hybrid_pq: v.has_hybrid_pq,
        has_tpm: v.has_tpm,
    }
}

pub open spec fn opened_text(task: OpenTask) -> Seq<char> {
    match task {
        OpenTask::Create => "vault created"@,
        OpenTask::Unlock => "vault unlocked"@,
        OpenTask::CreateWithTpmBootstrap => "vault created with TPM keyslot"@,
    }
}

pub open spec fn open_crash_text(task: OpenTask) -> Seq<char> {
    match task {
        OpenTask::Create => "create task crashed"@,
        OpenTask::Unlock => "unlock task crashed"@,
        OpenTask::CreateWithTpmBootstrap => "TPM bootstrap task crashed"@,
    }
}

/// What a task that worked says.
pub open spec fn loan_text(task: LoanTask, n: u64) -> Seq<char> {
    match task {
        LoanTask::PutFile { name } => "added "@ + name@ + " ("@ + decimal(n as nat) + " bytes)"@,
        LoanTask::GetFile => "extracted "@ + decimal(n as nat) + " bytes"@,
        LoanTask::EnrollPassphrase => "enrolled passphrase in slot "@ + decimal(n as nat),
        LoanTask::EnrollFido2 => "enrolled FIDO2 in slot "@ + decimal(n as nat),
        LoanTask::EnrollTpm2 => "enrolled TPM 2.0 in slot "@ + decimal(n as nat),
        LoanTask::EnrollTpm2Pin => "enrolled TPM 2.0 + PIN in slot "@ + decimal(n as nat),
        LoanTask::EnrollTpm2Fido2 => "enrolled fused TPM+FIDO2 in slot "@ + decimal(n as nat),
        LoanTask::EnrollHybridPqTpm2 => "enrolled hybrid TPM + ML-KEM in slot "@ + decimal(
            n as nat,
        ),
        LoanTask::EnrollHybridPqTpm2Fido2 => "enrolled 3-factor TPM+FIDO2+ML-KEM in slot "@
            + decimal(n as nat),
    }
}

fn loan_words(task: &LoanTask, n: u64) -> (s: String)
    ensures
        s@ == loan_text(*task, n),
{
    let d = decimal_text(n);
    match task {
        LoanTask::PutFile { name } => {
            let mut s = join3("added ", name.as_str(), " (");
            s.append(d.as_str());
            s.append(" bytes)");
            s
        },
        LoanTask::GetFile => join3("extracted ", d.as_str(), " bytes"),
        LoanTask::EnrollPassphrase => join2("enrolled passphrase in slot ", d.as_str()),
        LoanTask::EnrollFido2 => join2("enrolled FIDO2 in slot ", d.as_str()),
        LoanTask::EnrollTpm2 => join2("enrolled TPM 2.0 in slot ", d.as_str()),
        LoanTask::EnrollTpm2Pin => join2("enrolled TPM 2.0 + PIN in slot ", d.as_str()),
        LoanTask::EnrollTpm2Fido2 => join2("enrolled fused TPM+FIDO2 in slot ", d.as_str()),
        LoanTask::EnrollHybridPqTpm2 => join2("enrolled hybrid TPM + ML-KEM in slot ", d.as_str()),
        LoanTask::EnrollHybridPqTpm2Fido2 => join2(
            "enrolled 3-factor TPM+FIDO2+ML-KEM in slot ",
            d.as_str(),
        ),
    }
}

/// What a task that never answered is reported as.
pub open spec fn loan_crash_text(task: LoanTask) -> Seq<char> {
    match task {
        LoanTask::PutFile { .. } => "put task crashed"@,
        LoanTask::GetFile => "get task crashed"@,
        LoanTask::EnrollPassphrase | LoanTask::EnrollFido2 => "enroll task crashed"@,
        LoanTask::EnrollTpm2 => "TPM enroll task crashed"@,
        LoanTask::EnrollTpm2Pin => "TPM+PIN enroll task crashed"@,
        LoanTask::EnrollTpm2Fido2 => "TPM+FIDO2 enroll task crashed"@,
        LoanTask::EnrollHybridPqTpm2 => "hybrid-PQ-TPM enroll task crashed"@,
        LoanTask::EnrollHybridPqTpm2Fido2 => "3-factor enroll task crashed"@,
    }
}

fn loan_crash(task: &LoanTask) -> (s: &'static str)
    ensures
        s@ == loan_crash_text(*task),
{
    match task {
        LoanTask::PutFile { .. } => "put task crashed",
        LoanTask::GetFile => "get task crashed",
        LoanTask::EnrollPassphrase => "enroll task crashed",
        LoanTask::EnrollFido2 => "enroll task crashed",
        LoanTask::EnrollTpm2 => "TPM enroll task crashed",
        LoanTask::EnrollTpm2Pin => "TPM+PIN enroll task crashed",
        LoanTask::EnrollTpm2Fido2 => "TPM+FIDO2 enroll task crashed",
        LoanTask::EnrollHybridPqTpm2 => "hybrid-PQ-TPM enroll task crashed",
        LoanTask::EnrollHybridPqTpm2Fido2 => "3-factor enroll task crashed",
    }
}

/// The vault once a task that borrowed it has worked: a new keyslot shows in
/// what protects it.
pub open spec fn after_loan(task: LoanTask, v: OpenedVault) -> OpenedVault {
    match task {
        LoanTask::EnrollFido2 => OpenedVault { has_fido2: true, ..v },
        LoanTask::EnrollTpm2 | LoanTask::EnrollTpm2Pin => OpenedVault { has_tpm: true, ..v },
        LoanTask::EnrollTpm2Fido2 => OpenedVault { has_fido2: true, has_tpm: true, ..v },
        LoanTask::EnrollHybridPqTpm2 => OpenedVault { has_hybrid_pq: true, has_tpm: true, ..v },
        LoanTask::EnrollHybridPqTpm2Fido2 => OpenedVault {
            has_fido2: true,
            has_hybrid_pq: true,
            has_tpm: true,
            ..v
        },
        _ => v,
    }
}

/// The shell after a task that borrowed the vault. It has the vault again
/// whether the task worked or not, unless the task crashed.
pub open spec fn loan_ended(
    s: ShellView,
    task: LoanTask,
    result: Option<(OpenedVault, Result<u64, String>)>,
) -> ShellView {
    match result {
        Some((v, Ok(_))) => ShellView { vault: Some(after_loan(task, v)), ..s },
        Some((v, Err(_))) => ShellView { vault: Some(v), ..s },
        None => s,
    }
}

fn marked(task: &LoanTask, vault: OpenedVault) -> (r: OpenedVault)
    ensures
        r == after_loan(*task, vault),
{
    let mut v = vault;
    match task {
        LoanTask::EnrollFido2 => {
            v.has_fido2 = true;
        },
        LoanTask::EnrollTpm2 => {
            v.has_tpm = true;
        },
        LoanTask::EnrollTpm2Pin => {
            v.has_tpm = true;
        },
        LoanTask::EnrollTpm2Fido2 => {
            v.has_fido2 = true;
            v.has_tpm = true;
        },
        LoanTask::EnrollHybridPqTpm2 => {
            v.has_hybrid_pq = true;
            v.has_tpm = true;
        },
        LoanTask::EnrollHybridPqTpm2Fido2 => {
            v.has_fido2 = true;
            v.has_hybrid_pq = true;
            v.has_tpm = true;
        },
        _ => {},
    }
    v
}

impl Shell {
    /// The end of a task that opens a vault; none means that it crashed. A
    /// failure leaves the form and the screen as they are.
    pub fn finish_open(
        &mut self,
        task: OpenTask,
        result: Option<Result<OpenedVault, String>>,
        now: i64,
    ) -> (a: Aftermath)
        ensures
            match result {
                Some(Ok(v)) => {
                    &&& final(self)@ == (ShellView {
                        screen: Screen::Browser,
                        vault: Some(v),
                        cwd: "/"@,
                        ..old(self)@
                    })
                    &&& a.notice.kind == ToastKind::Good && a.notice.text@ == opened_text(task)
                    &&& a.refresh
                    &&& a.remember matches Some(r) && remembers(v, now, r)
                    &&& a.reset == (if task == OpenTask::Unlock {
                        FormReset::Unlock
                    } else {
                        FormReset::Create
                    })
                },
                Some(Err(e)) => final(self)@ == old(self)@ && only_notice(a, ToastKind::Bad, e@),
                None => final(self)@ == old(self)@ && only_notice(
                    a,
                    ToastKind::Bad,
                    open_crash_text(task),
                ),
            },
    {
        match result {
            Some(Ok(v)) => {
                let entry = remember(&v, now);
                self.vault = Some(v);
                self.cwd = "/".to_owned();
                self.screen = Screen::Browser;
                let text = match task {
                    OpenTask::Create => "vault created",
                    OpenTask::Unlock => "vault unlocked",
                    OpenTask::CreateWithTpmBootstrap => "vault created with TPM keyslot",
                };
                let reset = match task {
                    OpenTask::Unlock => FormReset::Unlock,
                    _ => FormReset::Create,
                };
                Aftermath { notice: good(text), refresh: true, remember: Some(entry), reset }
            },
            Some(Err(e)) => say(bad(e.as_str())),
            None => say(
                bad(
                    match task {
                        OpenTask::Create => "create task crashed",
                        OpenTask::Unlock => "unlock task crashed",
                        OpenTask::CreateWithTpmBootstrap => "TPM bootstrap task crashed",
                    },
                ),
            ),
        }
    }

    /// The end of a task that borrowed the vault. It comes back whether the task
    /// worked or not, unless the task crashed.
    pub fn finish_loan(
        &mut self,
        task: &LoanTask,
        result: Option<(OpenedVault, Result<u64, String>)>,
    ) -> (a: Aftermath)
        ensures
            final(self)@ == loan_ended(old(self)@, *task, result),
            match result {
                Some((_, Ok(n))) => {
                    &&& a.notice.kind == ToastKind::Good && a.notice.text@ == loan_text(*task, n)
                    &&& a.refresh == (*task is PutFile)
                    &&& a.remember is None && a.reset == FormReset::Keep
                },
                Some((_, Err(e))) => only_notice(a, ToastKind::Bad, e@),
                None => only_notice(a, ToastKind::Bad, loan_crash_text(*task)),
            },
    {
        match result {
            Some((v, Ok(n))) => {
                self.vault = Some(marked(task, v));
                let text = loan_words(task, n);
                let refresh = match task {
                    LoanTask::PutFile { .. } => true,
                    _ => false,
                };
                Aftermath {
                    notice: good(text.as_str()),
                    refresh,
                    remember: None,
                    reset: FormReset::Keep,
                }
            },
            Some((v, Err(e))) => {
                self.vault = Some(v);
                say(bad(e.as_str()))
            },
            None => say(bad(loan_crash(task))),
        }
    }

    /// The end of a destruction.
    pub fn finish_panic(&mut self, result: Option<Result<(), String>>) -> (a: Aftermath)
        ensures
            match result {
                Some(Ok(_)) => {
                    &&& final(self)@ == (ShellView { screen: Screen::Welcome, ..old(self)@ })
                    &&& a.notice.kind == ToastKind::Warn && a.notice.text@ == "vault destroyed"@
                    &&& !a.refresh && a.remember is None && a.reset == FormReset::Panic
                },
                Some(Err(e)) => final(self)@ == old(self)@ && only_notice(a, ToastKind::Bad, e@),
                None => final(self)@ == old(self)@ && only_notice(
                    a,
                    ToastKind::Bad,
                    "panic task crashed"@,
                ),
            },
    {
        match result {
            Some(Ok(_)) => {
                self.screen = Screen::Welcome;
                Aftermath {
                    notice: Notice { kind: ToastKind::Warn, text: "vault destroyed".to_owned() },
                    refresh: false,
                    remember: None,
                    reset: FormReset::Panic,
                }
            },
            Some(Err(e)) => say(bad(e.as_str())),
            None => say(bad("panic task crashed")),
        }
    }

    /// The end of a rotation. A rotation that failed does not give the vault
    /// back, so there is nothing left to show.
    pub fn finish_rotation(&mut self, result: Option<Result<OpenedVault, String>>) -> (a: Aftermath)
        ensures
            match result {
                Some(Ok(v)) => final(self)@ == (ShellView { vault: Some(v), ..old(self)@ })
                    && only_notice(a, ToastKind::Good, "✓ master key rotated"@),
                Some(Err(e)) => final(self)@ == (ShellView { screen: Screen::Welcome, ..old(self)@ })
                    && only_notice(a, ToastKind::Bad, "rotate failed: "@ + e@),
                None => final(self)@ == (ShellView { screen: Screen::Welcome, ..old(self)@ })
                    && only_notice(a, ToastKind::Bad, "rotate task crashed"@),
            },
    {
        match result {
            Some(Ok(v)) => {
                self.vault = Some(v);
                say(good("✓ master key rotated"))
            },
            Some(Err(e)) => {
                self.screen = Screen::Welcome;
                let text = join2("rotate failed: ", e.as_str());
                say(bad(text.as_str()))
            },
            None => {
                self.screen = Screen::Welcome;
                say(bad("rotate task crashed"))
            },
        }
    }

    /// The end of a mount, which has used the vault up.
    pub fn finish_mount(&mut self, result: Option<Result<(), String>>) -> (a: Aftermath)
        ensures
            match result {
                Some(Ok(_)) => final(self)@ == (ShellView {
                    screen: Screen::Welcome,
                    cwd: "/"@,
                    ..old(self)@
                }) && only_notice(a, ToastKind::Good, "vault unmounted"@),
                Some(Err(e)) => final(self)@ == (ShellView { screen: Screen::Welcome, ..old(self)@ })
                    && only_notice(a, ToastKind::Bad, "mount error: "@ + e@),
                None => final(self)@ == (ShellView { screen: Screen::Welcome, ..old(self)@ })
                    && only_notice(a, ToastKind::Bad, "mount thread terminated unexpectedly"@),
            },
    {
        self.screen = Screen::Welcome;
        match result {
            Some(Ok(_)) => {
                self.cwd = "/".to_owned();
                say(good("vault unmounted"))
            },
            Some(Err(e)) => {
                let text = join2("mount error: ", e.as_str());
                say(bad(text.as_str()))
            },
            None => say(bad("mount thread terminated unexpectedly")),
        }
    }
}

/// A vault that is lent to a task which then answers is open again afterwards
/// and is the same vault, on the same screen and in the same directory. No
/// protection it had is lost; a task that failed adds none.
pub proof fn law_lent_vault_comes_back(
    s: ShellView,
    task: LoanTask,
    v: OpenedVault,
    answer: Result<u64, String>,
)
    requires
        s.vault == Some(v),
    ensures
        ({
            let lent = ShellView { vault: None, ..s };
            let after = loan_ended(lent, task, Some((v, answer)));
            &&& after.vault matches Some(back) && {
                &&& back.vault_path == v.vault_path && back.header_path == v.header_path
                &&& back.anchor_path == v.anchor_path && back.cipher_label == v.cipher_label
                &&& back.tolerated_inodes == v.tolerated_inodes
                &&& v.has_fido2 ==> back.has_fido2
                &&& v.has_hybrid_pq ==> back.has_hybrid_pq
                &&& v.has_tpm ==> back.has_tpm
            }
            &&& answer is Err ==> after == s
            &&& after.screen == s.screen && after.cwd == s.cwd
            &&& after.confirm_lock == s.confirm_lock
        }),
{
}

/// A vault that is mounted.
pub struct MountStatus {
    pub mountpoint: String,
    pub unmount_requested: bool,
}

impl MountStatus {
    /// Whether to send the request to unmount: only the first time.
    pub fn request_unmount(&mut self) -> (send: bool)
        ensures
            send == !old(self).unmount_requested,
            final(self).unmount_requested,
            final(self).mountpoint == old(self).mountpoint,
    {
        let send = !self.unmount_requested;
        self.unmount_requested = true;
        send
    }
}

/// A message on screen.
pub struct Toast {
    pub text: String,
    pub kind: ToastKind,
    /// When it appeared, in milliseconds.
    pub born_ms: u64,
}

/// How long a message stays, in milliseconds.
pub const TOAST_MS: u64 = 5000;

impl Toast {
    pub open spec fn visible(self, now_ms: u64) -> bool {
        now_ms < self.born_ms + TOAST_MS
    }

    pub fn is_visible(&self, now_ms: u64) -> (b: bool)
        ensures
            b == self.visible(now_ms),
    {
        now_ms < self.born_ms || now_ms - self.born_ms < TOAST_MS
    }
}

/// Shows a message.
pub fn push_toast(toasts: &mut Vec<Toast>, notice: Notice, now_ms: u64)
    ensures
        final(toasts)@ == old(toasts)@.push(
            (Toast { text: notice.text, kind: notice.kind, born_ms: now_ms }),
        ),
{
    toasts.push(Toast { text: notice.text, kind: notice.kind, born_ms: now_ms });
}

/// Takes the messages away whose time is over. The others keep their order.
pub fn retain_toasts(toasts: Vec<Toast>, now_ms: u64) -> (r: Vec<Toast>)
    ensures
        r@ == toasts@.filter(|t: Toast| t.visible(now_ms)),
{
    let ghost all = toasts@;
    let ghost pred = |t: Toast| t.visible(now_ms);
    let mut rest = toasts;
    let mut kept: Vec<Toast> = Vec::new();
    let ghost mut k: int = 0;
    proof {
        reveal(Seq::filter);
        assert(all.take(0).filter(pred) =~= Seq::<Toast>::empty());
        assert(all.skip(0) =~= all);
    }
    while rest.len() > 0
        invariant
            0 <= k <= all.len(),
            rest@ == all.skip(k),
            pred == (|t: Toast| t.visible(now_ms)),
            kept@ == all.take(k).filter(pred),
        decreases rest.len(),
    {
        let t = rest.remove(0);
        proof {
            reveal(Seq::filter);
            assert(t == all[k]);
            assert(rest@ =~= all.skip(k + 1));
            assert(all.take(k + 1).drop_last() =~= all.take(k));
        }
        if t.is_visible(now_ms) {
            kept.push(t);
        }
        proof {
            k = k + 1;
        }
    }
    assert(all.take(k) =~= all);
    kept
}

} // verus!
