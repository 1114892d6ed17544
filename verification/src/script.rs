//! Scripts: what an operation asks of the outside world, line by line.
//!
//! Creating, unlocking or re-keying a vault means a sequence of calls into the
//! key hardware, the container format and the file system, any of which can
//! fail. The operations of this library do not make those calls. They return a
//! [`Script`]; a [`Job`] walks through it, hands out one [`Act`] at a time, is
//! told how the act went, and decides what comes next: the following line, the
//! next candidate keyslot, or the acts that undo what was done.

use crate::kinds::{DeniableKindTag, KdfStrength, PqParams, SlotKind};
use crate::text::join2;
use vstd::prelude::*;

verus! {

/// Which stored secret an act uses.
#[derive(Clone, Copy, Debug, PartialEq, Eq, Structural)]
pub enum SecretRef {
    /// The passphrase of the request.
    Passphrase,
    /// The separate passphrase of the `.kyber` seed file.
    SeedPassphrase,
}

/// Size-hiding options written into a new vault.
#[derive(Clone, Copy, Debug, PartialEq, Eq, Structural)]
pub struct SizeFlags {
    /// Pad every file to a power of two.
    pub pad_files: bool,
    /// Keep file sizes out of the plain header.
    pub hide_sizes: bool,
}

/// One thing that an operation asks to have done.
#[allow(inconsistent_fields)]
#[derive(Clone, Copy, Debug, PartialEq, Eq, Structural)]
pub enum Act {
    /// Open the local TPM 2.0.
    OpenTpm,
    /// Open the local Secure Enclave.
    OpenSep,
    /// Draw the 32 random bytes that the TPM is to seal.
    DrawSecret,
    /// Seal them, bound to the PIN or not.
    SealTpm { pin: bool },
    /// Have the enclave derive a shared secret and its blob.
    SealSep { biometric: bool },
    /// Draw a user handle for a new credential.
    NewUserHandle,
    /// Register a credential on the authenticator.
    RegisterCredential,
    /// Draw the hmac-secret salt of the new credential.
    DrawSalt,
    /// Derive the new credential's hmac-secret under the prehashed salt.
    DeriveNewHmac,
    /// Generate an ML-KEM key pair and encapsulate against it.
    Encapsulate { kem: PqParams },
    /// Choose the on-disk format of the vault about to be created.
    ChooseFormat { v3: bool },
    /// Create the vault with one keyslot.
    CreateVault { kind: SlotKind, flags: SizeFlags, kdf: KdfStrength },
    /// Create a deniable vault with one slot, at index 0.
    CreateDeniable { kind: DeniableKindTag, flags: SizeFlags, kdf: KdfStrength },
    /// Write a `.hybrid` sidecar that holds one entry, for slot 0.
    WriteFirstSidecar { kem: PqParams },
    /// Write the `.kyber` seed file, encrypted under the given secret.
    WriteSeed { pw: SecretRef },
    /// Start the anchor at generation 1.
    InitAnchor,
    /// Enroll the backup passphrase.
    EnrollBackup,
    /// Write the header back.
    PersistHeader,
    /// Open the file system inside the vault.
    OpenVfs { tolerant: bool },
    /// Delete files that the operation may have written.
    RemoveVault,
    RemoveHeader,
    RemoveAnchor,
    RemoveSidecar,
    RemoveSeed,
    /// Exchange the given slot with slot 0.
    SwapToFront { slot: usize },
    /// Rewrite the sidecar after such an exchange.
    RelabelSidecar { slot: usize },
    /// Install a passphrase keyslot.
    InstallPassphrase { kdf: KdfStrength },
    /// Install a deniable passphrase slot at an index.
    InstallPassphraseDeniable { slot: usize, kdf: KdfStrength },
    /// Install a keyslot of another kind, with or without a passphrase folded in.
    InstallSlot { kind: SlotKind, kdf: KdfStrength, passphrase: bool },
    /// Install a deniable slot at an index.
    InstallDeniable { kind: DeniableKindTag, slot: usize, kdf: KdfStrength },
    /// Read the sidecar's entries, none if there is no sidecar.
    ReadSidecar,
    /// Write the sidecar with the new entry at the end.
    AppendSidecar { kem: PqParams },
    /// Write the sidecar with the new entry in place of the slot's old one.
    MergeSidecar { kem: PqParams },
    /// Put the sidecar back as it was read.
    RollbackSidecar,
    /// Take the installed keyslot out again.
    RevokeInstalled,
    /// Wipe the deniable slot at an index.
    ClearDeniable { slot: usize },
    /// Revoke the keyslot at an index.
    RevokeSlot { slot: usize },
    /// Read and parse the vault's header.
    ReadHeader,
    /// Read the `.kyber` seed file.
    ReadSeed { pw: SecretRef },
    /// Read the sidecar, checked against the vault's header.
    ReadBoundSidecar,
    /// Read the sidecar, which has to be there.
    RequireSidecar,
    /// Find the deniable slot that the passphrase opens.
    OpenEnvelope { kind: DeniableKindTag },
    /// Finish a deniable open with the collected factors.
    CompleteOpen { kind: DeniableKindTag },
    /// Unseal the TPM blob found in the envelope.
    UnsealEnvelopeTpm { pin: bool },
    /// Unseal the enclave blob found in the envelope.
    UnsealEnvelopeSep,
    /// Derive the hmac-secret from what the envelope holds.
    DeriveEnvelopeHmac { prehash: bool },
    /// Decapsulate the sidecar entry at a position.
    DecapsulateEntry { entry: usize },
    /// Derive the hmac-secret of a keyslot, with its own credential or with the
    /// one that is `stored` beside its TPM blob.
    DeriveSlotHmac { slot: usize, stored: bool, prehash: bool },
    /// Try to open the container with the factors collected for a keyslot. The
    /// container itself looks for the slot of a passphrase or of a TPM blob.
    OpenWith { kind: UnlockFactors, slot: usize },
    /// Attach and read the anchor.
    SetAnchor,
    /// Compare the generation that the anchor gave, if it gave one, with that of
    /// the open vault, and fail if the vault is older.
    CompareAnchor,
    /// Re-encrypt the vault under a new master key.
    RotateMvk { kdf: KdfStrength },
    RotateMvkDeniable { slot: usize, kdf: KdfStrength },
    /// Flush the file system inside the vault.
    FlushVfs,
    /// Open a file for overwriting, refusing links: where the header is, and
    /// where the data is if that is another file.
    OpenHeaderTarget,
    OpenDataTarget,
    /// Overwrite the header with random bytes.
    ScrambleHeader,
    /// Overwrite the whole vault file with random bytes.
    ScrambleData { separate: bool },
}

/// The factors handed over when a container is opened.
#[derive(Clone, Copy, Debug, PartialEq, Eq, Structural)]
pub enum UnlockFactors {
    Passphrase,
    Fido2,
    HybridPqPassphrase,
    HybridPqFido2,
    Tpm2,
    Tpm2Pin,
    Tpm2Fido2,
    HybridPqTpm2,
    HybridPqTpm2Fido2,
    Sep { fido2: bool, secret: Option<SecretRef>, pq: bool },
}

/// Where a script goes on.
#[derive(Clone, Copy, Debug, PartialEq, Eq, Structural)]
pub enum Goto {
    /// The following line.
    Next,
    /// A later line.
    At(usize),
    /// The script is done.
    End,
}

/// What happens when an act fails.
pub enum OnFail {
    /// Undo and report.
    Abort { undo: Vec<Act> },
    /// Keep the error in mind and go on at a later line.
    Skip { to: usize },
    /// Keep `text` in mind, whatever the error was, and go on at a later line.
    Instead { text: String, to: usize },
    /// Report, except that a failure to decrypt goes on with the next line.
    AbortUnlessOpaque,
}

/// One line of a script.
pub enum Line {
    /// Have `act` done. If it fails with `e`, the error text is `lead` + `e`.
    Do { act: Act, lead: String, ok: Goto, fail: OnFail },
    /// An error that is known beforehand: keep it in mind and go on.
    Note { text: String },
    /// Report `text`.
    Stop { text: String },
    /// Report the error kept in mind, or `text` if there is none.
    GiveUp { text: String },
}

/// The contents of an [`OnFail`].
#[verifier::ext_equal]
pub enum OnFailView {
    Abort { undo: Seq<Act> },
    Skip { to: int },
    Instead { text: Seq<char>, to: int },
    AbortUnlessOpaque,
}

/// The contents of a [`Line`].
#[verifier::ext_equal]
pub enum LineView {
    Do { act: Act, lead: Seq<char>, ok: Goto, fail: OnFailView },
    Note { text: Seq<char> },
    Stop { text: Seq<char> },
    GiveUp { text: Seq<char> },
}

impl View for OnFail {
    type V = OnFailView;

    open spec fn view(&self) -> OnFailView {
        match *self {
            OnFail::Abort { undo } => OnFailView::Abort { undo: undo@ },
            OnFail::Skip { to } => OnFailView::Skip { to: to as int },
            OnFail::Instead { text, to } => OnFailView::Instead { text: text@, to: to as int },
            OnFail::AbortUnlessOpaque => OnFailView::AbortUnlessOpaque,
        }
    }
}

impl View for Line {
    type V = LineView;

    open spec fn view(&self) -> LineView {
        match *self {
            Line::Do { act, lead, ok, fail } => LineView::Do { act, lead: lead@, ok, fail: fail@ },
            Line::Note { text } => LineView::Note { text: text@ },
            Line::Stop { text } => LineView::Stop { text: text@ },
            Line::GiveUp { text } => LineView::GiveUp { text: text@ },
        }
    }
}

/// A line that does `act` and reports a failure at once.
pub open spec fn step(act: Act, lead: Seq<char>) -> LineView {
    LineView::Do { act, lead, ok: Goto::Next, fail: OnFailView::Abort { undo: seq![] } }
}

/// A line that does `act` and undoes earlier work before it reports a failure.
pub open spec fn step_or(act: Act, lead: Seq<char>, undo: Seq<Act>) -> LineView {
    LineView::Do { act, lead, ok: Goto::Next, fail: OnFailView::Abort { undo } }
}

/// A line whose success goes on at `ok` and whose failure goes on at `to`.
pub open spec fn attempt(act: Act, lead: Seq<char>, ok: Goto, to: int) -> LineView {
    LineView::Do { act, lead, ok, fail: OnFailView::Skip { to } }
}

/// A line whose failure goes on at `to` with `text` as the error.
pub open spec fn attempt_or(act: Act, text: Seq<char>, to: int) -> LineView {
    LineView::Do {
        act,
        lead: ""@,
        ok: Goto::Next,
        fail: OnFailView::Instead { text, to },
    }
}

/// A line that ends the script on success and goes on if decryption failed.
pub open spec fn probe(act: Act, lead: Seq<char>) -> LineView {
    LineView::Do { act, lead, ok: Goto::End, fail: OnFailView::AbortUnlessOpaque }
}

pub open spec fn note(text: Seq<char>) -> LineView {
    LineView::Note { text }
}

pub open spec fn stop(text: Seq<char>) -> LineView {
    LineView::Stop { text }
}

pub open spec fn give_up(text: Seq<char>) -> LineView {
    LineView::GiveUp { text }
}

/// The lines of an operation, in order.
pub struct Script {
    pub lines: Vec<Line>,
}

impl View for Script {
    type V = Seq<LineView>;

    open spec fn view(&self) -> Seq<LineView> {
        Seq::new(self.lines@.len(), |i: int| self.lines@[i]@)
    }
}

impl Script {
    /// A script without lines.
    pub fn new() -> (s: Script)
        ensures
            s@ == Seq::<LineView>::empty(),
    {
        let s = Script { lines: Vec::new() };
        assert(s@ =~= Seq::<LineView>::empty());
        s
    }

    /// Adds a line.
    pub fn line(self, line: Line) -> (s: Script)
        ensures
            s@ == self@.push(line@),
    {
        let mut lines = self.lines;
        lines.push(line);
        let s = Script { lines };
        assert(s@ =~= self@.push(line@));
        s
    }

    pub fn step(self, act: Act, lead: &str) -> (s: Script)
        ensures
            s@ == self@.push(step(act, lead@)),
    {
        let undo: Vec<Act> = Vec::new();
        assert(undo@ =~= Seq::<Act>::empty());
        self.line(Line::Do { act, lead: lead.to_owned(), ok: Goto::Next, fail: OnFail::Abort { undo } })
    }

    pub fn step_or(self, act: Act, lead: &str, undo: Vec<Act>) -> (s: Script)
        ensures
            s@ == self@.push(step_or(act, lead@, undo@)),
    {
        self.line(Line::Do { act, lead: lead.to_owned(), ok: Goto::Next, fail: OnFail::Abort { undo } })
    }

    pub fn attempt(self, act: Act, lead: &str, ok: Goto, to: usize) -> (s: Script)
        ensures
            s@ == self@.push(attempt(act, lead@, ok, to as int)),
    {
        self.line(Line::Do { act, lead: lead.to_owned(), ok, fail: OnFail::Skip { to } })
    }

    pub fn attempt_or(self, act: Act, text: String, to: usize) -> (s: Script)
        ensures
            s@ == self@.push(attempt_or(act, text@, to as int)),
    {
        self.line(
            Line::Do { act, lead: "".to_owned(), ok: Goto::Next, fail: OnFail::Instead { text, to } },
        )
    }

    pub fn probe(self, act: Act, lead: &str) -> (s: Script)
        ensures
            s@ == self@.push(probe(act, lead@)),
    {
        self.line(Line::Do { act, lead: lead.to_owned(), ok: Goto::End, fail: OnFail::AbortUnlessOpaque })
    }

    pub fn note(self, text: String) -> (s: Script)
        ensures
            s@ == self@.push(note(text@)),
    {
        self.line(Line::Note { text })
    }

    pub fn stop(self, text: &str) -> (s: Script)
        ensures
            s@ == self@.push(stop(text@)),
    {
        self.line(Line::Stop { text: text.to_owned() })
    }

    pub fn give_up(self, text: &str) -> (s: Script)
        ensures
            s@ == self@.push(give_up(text@)),
    {
        self.line(Line::GiveUp { text: text.to_owned() })
    }

    /// The lines of `self`, then those of `other`. The targets of `other` are
    /// not moved.
    pub fn append(self, other: Script) -> (s: Script)
        ensures
            s@ == self@ + other@,
    {
        let mut lines = self.lines;
        let mut tail = other.lines;
        lines.append(&mut tail);
        let s = Script { lines };
        assert(s@ =~= self@ + other@);
        s
    }

    /// A script that only refuses.
    pub fn refuse(text: &str) -> (s: Script)
        ensures
            s@ == seq![stop(text@)],
    {
        Script::new().stop(text)
    }
}

/// How an act went.
pub enum Outcome {
    Done,
    /// Decryption failed: a wrong secret, or something that is not ours.
    Opaque { error: String },
    Failed { error: String },
}

/// The contents of an [`Outcome`].
#[verifier::ext_equal]
pub enum OutcomeView {
    Done,
    Opaque { error: Seq<char> },
    Failed { error: Seq<char> },
}

impl View for Outcome {
    type V = OutcomeView;

    open spec fn view(&self) -> OutcomeView {
        match *self {
            Outcome::Done => OutcomeView::Done,
            Outcome::Opaque { error } => OutcomeView::Opaque { error: error@ },
            Outcome::Failed { error } => OutcomeView::Failed { error: error@ },
        }
    }
}

/// Where a job stands.
#[allow(inconsistent_fields)]
#[verifier::ext_equal]
pub enum Stage {
    /// The line at `pc` is an act that waits to be done.
    At { pc: int, noted: Option<Seq<char>> },
    /// Undoing; `text` is reported when `undo` is used up.
    Undoing { undo: Seq<Act>, text: Seq<char> },
    Finished,
    Failed { text: Seq<char> },
}

/// The stage that is reached when control comes to line `pc`.
pub open spec fn settle(lines: Seq<LineView>, pc: int, noted: Option<Seq<char>>) -> Stage
    decreases lines.len() - pc,
{
    if pc < 0 || pc >= lines.len() {
        Stage::Finished
    } else {
        match lines[pc] {
            LineView::Do { .. } => Stage::At { pc, noted },
            LineView::Note { text } => settle(lines, pc + 1, Some(text)),
            LineView::Stop { text } => Stage::Failed { text },
            LineView::GiveUp { text } => Stage::Failed {
                text: match noted {
                    Some(t) => t,
                    None => text,
                },
            },
        }
    }
}

/// The stage that follows when undoing starts.
pub open spec fn unwind(undo: Seq<Act>, text: Seq<char>) -> Stage {
    if undo.len() == 0 {
        Stage::Failed { text }
    } else {
        Stage::Undoing { undo, text }
    }
}

/// The stage after the act that `stage` waits for went as `outcome` says.
pub open spec fn advance(lines: Seq<LineView>, stage: Stage, outcome: OutcomeView) -> Stage {
    match stage {
        Stage::At { pc, noted } => match lines[pc] {
            LineView::Do { act, lead, ok, fail } => match outcome {
                OutcomeView::Done => match ok {
                    Goto::Next => settle(lines, pc + 1, noted),
                    Goto::At(to) => settle(lines, to as int, noted),
                    Goto::End => Stage::Finished,
                },
                OutcomeView::Opaque { error } => match fail {
                    OnFailView::Abort { undo } => unwind(undo, lead + error),
                    OnFailView::Skip { to } => settle(lines, to, Some(lead + error)),
                    OnFailView::Instead { text, to } => settle(lines, to, Some(text)),
                    OnFailView::AbortUnlessOpaque => settle(lines, pc + 1, noted),
                },
                OutcomeView::Failed { error } => match fail {
                    OnFailView::Abort { undo } => unwind(undo, lead + error),
                    OnFailView::Skip { to } => settle(lines, to, Some(lead + error)),
                    OnFailView::Instead { text, to } => settle(lines, to, Some(text)),
                    OnFailView::AbortUnlessOpaque => Stage::Failed { text: lead + error },
                },
            },
            _ => stage,
        },
        // An undo that fails is not reported.
        Stage::Undoing { undo, text } => unwind(undo.skip(1), text),
        _ => stage,
    }
}

/// What a job wants next.
pub enum Directive {
    /// Do this and report how it went.
    Perform(Act),
    /// Do this; how it went does not matter.
    Undo(Act),
    Finished,
    Failed(String),
}

/// Where a [`Job`] stands, in executable form.
#[allow(inconsistent_fields)]
pub enum JobStage {
    At { pc: usize, noted: Option<String> },
    Undoing { undo: Vec<Act>, done: usize, text: String },
    Finished,
    Failed { text: String },
}

pub open spec fn opt_text(t: Option<String>) -> Option<Seq<char>> {
    match t {
        Some(s) => Some(s@),
        None => None,
    }
}

impl JobStage {
    pub open spec fn stage(self) -> Stage {
        match self {
            JobStage::At { pc, noted } => Stage::At { pc: pc as int, noted: opt_text(noted) },
            JobStage::Undoing { undo, done, text } => Stage::Undoing {
                undo: undo@.skip(done as int),
                text: text@,
            },
            JobStage::Finished => Stage::Finished,
            JobStage::Failed { text } => Stage::Failed { text: text@ },
        }
    }

    pub open spec fn wf(self, lines: Seq<LineView>) -> bool {
        match self {
            JobStage::At { pc, noted } => pc < lines.len() && lines[pc as int] is Do,
            JobStage::Undoing { undo, done, text } => done < undo@.len(),
            _ => true,
        }
    }
}

/// A script being carried out.
pub struct Job {
    script: Script,
    stage: JobStage,
}

impl Job {
    pub closed spec fn lines(&self) -> Seq<LineView> {
        self.script@
    }

    pub closed spec fn stage(&self) -> Stage {
        self.stage.stage()
    }

    #[verifier::type_invariant]
    pub closed spec fn wf(self) -> bool {
        self.stage.wf(self.script@)
    }

    /// Follows the lines that are no acts from line `from` on.
    fn settle_at(script: &Script, from: usize, noted: Option<String>) -> (s: JobStage)
        ensures
            s.stage() == settle(script@, from as int, opt_text(noted)),
            s.wf(script@),
    {
        let mut pc: usize = from;
        let mut kept = noted;
        while pc < script.lines.len()
            invariant
                settle(script@, from as int, opt_text(noted)) == settle(
                    script@,
                    pc as int,
                    opt_text(kept),
                ),
                script@.len() == script.lines@.len(),
            decreases script.lines@.len() - pc,
        {
            assert(script@[pc as int] == script.lines@[pc as int]@);
            match &script.lines[pc] {
                Line::Do { .. } => {
                    return JobStage::At { pc, noted: kept };
                },
                Line::Note { text } => {
                    kept = Some(text.clone());
                },
                Line::Stop { text } => {
                    return JobStage::Failed { text: text.clone() };
                },
                Line::GiveUp { text } => {
                    return match kept {
                        Some(t) => JobStage::Failed { text: t },
                        None => JobStage::Failed { text: text.clone() },
                    };
                },
            }
            pc = pc + 1;
        }
        JobStage::Finished
    }

    /// A job at the start of `script`.
    pub fn start(script: Script) -> (j: Job)
        ensures
            j.lines() == script@,
            j.stage() == settle(script@, 0, None),
    {
        let stage = Self::settle_at(&script, 0, None);
        Job { script, stage }
    }

    /// What is to be done now.
    pub fn directive(&self) -> (d: Directive)
        ensures
            match self.stage() {
                Stage::At { pc, noted } => self.lines()[pc] matches LineView::Do { act, .. }
                    && d == Directive::Perform(act),
                Stage::Undoing { undo, text } => undo.len() > 0 && d == Directive::Undo(undo[0]),
                Stage::Finished => d == Directive::Finished,
                Stage::Failed { text } => d matches Directive::Failed(t) && t@ == text,
            },
    {
        proof {
            use_type_invariant(self);
        }
        match &self.stage {
            JobStage::At { pc, .. } => {
                assert(self.script@[*pc as int] == self.script.lines@[*pc as int]@);
                match &self.script.lines[*pc] {
                    Line::Do { act, .. } => Directive::Perform(*act),
                    _ => Directive::Finished,
                }
            },
            JobStage::Undoing { undo, done, .. } => Directive::Undo(undo[*done]),
            JobStage::Finished => Directive::Finished,
            JobStage::Failed { text } => Directive::Failed(text.clone()),
        }
    }

    fn unwind_from(undo: &Vec<Act>, text: String) -> (s: JobStage)
        ensures
            s.stage() == unwind(undo@, text@),
            s is Undoing || s is Failed,
            s matches JobStage::Undoing { undo: u, done, .. } ==> done < u@.len(),
    {
        if undo.len() == 0 {
            JobStage::Failed { text }
        } else {
            let u = undo.clone();
            assert(u@ =~= undo@);
            assert(u@.skip(0) =~= undo@);
            JobStage::Undoing { undo: u, done: 0, text }
        }
    }

    /// Takes note of how the act asked for went.
    pub fn report(self, outcome: Outcome) -> (j: Job)
        ensures
            j.lines() == self.lines(),
            j.stage() == advance(self.lines(), self.stage(), outcome@),
    {
        proof {
            use_type_invariant(&self);
        }
        let Job { script, stage } = self;
        let next = match stage {
            JobStage::At { pc, noted } => {
                let count: usize = script.lines.len();
                assert(pc < count);
                assert(script@[pc as int] == script.lines@[pc as int]@);
                match &script.lines[pc] {
                    Line::Do { act: _, lead, ok, fail } => match outcome {
                        Outcome::Done => match ok {
                            Goto::Next => Self::settle_at(&script, pc + 1, noted),
                            Goto::At(to) => Self::settle_at(&script, *to, noted),
                            Goto::End => JobStage::Finished,
                        },
                        Outcome::Opaque { error } => match fail {
                            OnFail::Abort { undo } => Self::unwind_from(
                                undo,
                                join2(lead.as_str(), error.as_str()),
                            ),
                            OnFail::Skip { to } => {
                                let text = join2(lead.as_str(), error.as_str());
                                Self::settle_at(&script, *to, Some(text))
                            },
                            OnFail::Instead { text, to } => Self::settle_at(
                                &script,
                                *to,
                                Some(text.clone()),
                            ),
                            OnFail::AbortUnlessOpaque => Self::settle_at(&script, pc + 1, noted),
                        },
                        Outcome::Failed { error } => match fail {
                            OnFail::Abort { undo } => Self::unwind_from(
                                undo,
                                join2(lead.as_str(), error.as_str()),
                            ),
                            OnFail::Skip { to } => {
                                let text = join2(lead.as_str(), error.as_str());
                                Self::settle_at(&script, *to, Some(text))
                            },
                            OnFail::Instead { text, to } => Self::settle_at(
                                &script,
                                *to,
                                Some(text.clone()),
                            ),
                            OnFail::AbortUnlessOpaque => JobStage::Failed {
                                text: join2(lead.as_str(), error.as_str()),
                            },
                        },
                    },
                    _ => JobStage::Finished,
                }
            },
            JobStage::Undoing { undo, done, text } => {
                assert(undo@.skip(done as int).skip(1) =~= undo@.skip(done + 1));
                let count: usize = undo.len();
                if count - done > 1 {
                    JobStage::Undoing { undo, done: done + 1, text }
                } else {
                    JobStage::Failed { text }
                }
            },
            JobStage::Finished => JobStage::Finished,
            JobStage::Failed { text } => JobStage::Failed { text },
        };
        Job { script, stage: next }
    }
}

/// The stage that is reached from `stage` when the acts go as `outcomes` says.
pub open spec fn resume(lines: Seq<LineView>, stage: Stage, outcomes: Seq<OutcomeView>) -> Stage
    decreases outcomes.len(),
{
    if outcomes.len() == 0 {
        stage
    } else {
        resume(lines, advance(lines, stage, outcomes[0]), outcomes.skip(1))
    }
}

/// The stage that a fresh job reaches when the acts go as `outcomes` says.
pub open spec fn play(lines: Seq<LineView>, outcomes: Seq<OutcomeView>) -> Stage {
    resume(lines, settle(lines, 0, None), outcomes)
}

pub open spec fn act_of(line: LineView) -> Act {
    line->Do_act
}

pub open spec fn lead_of(line: LineView) -> Seq<char> {
    line->Do_lead
}

pub open spec fn undo_of(line: LineView) -> Seq<Act> {
    line->Do_fail->Abort_undo
}

/// Whether a line is an act followed by the next line, or by undoing.
pub open spec fn is_step(line: LineView) -> bool {
    line matches LineView::Do { ok, fail, .. } && ok == Goto::Next && fail is Abort
}

/// Whether a script has neither jumps nor refusals.
pub open spec fn straight(lines: Seq<LineView>) -> bool {
    forall|i: int| 0 <= i < lines.len() ==> is_step(#[trigger] lines[i])
}

/// Whether every jump goes to a later line.
pub open spec fn forward(lines: Seq<LineView>) -> bool {
    forall|i: int|
        0 <= i < lines.len() ==> (match #[trigger] lines[i] {
            LineView::Do { ok, fail, .. } => {
                &&& ok matches Goto::At(to) ==> i < to
                &&& fail matches OnFailView::Skip { to } ==> i < to
                &&& fail matches OnFailView::Instead { to, .. } ==> i < to
            },
            _ => true,
        })
}

/// Whether no line undoes more than `bound` acts.
pub open spec fn undo_within(lines: Seq<LineView>, bound: nat) -> bool {
    forall|i: int|
        0 <= i < lines.len() ==> (#[trigger] lines[i] matches LineView::Do { fail, .. } ==> fail matches
            OnFailView::Abort { undo } ==> undo.len() <= bound)
}

/// Whether `stage` can occur in a job on `lines`.
pub open spec fn stage_wf(lines: Seq<LineView>, stage: Stage, bound: nat) -> bool {
    match stage {
        Stage::At { pc, noted } => 0 <= pc < lines.len() && lines[pc] is Do,
        Stage::Undoing { undo, text } => 0 < undo.len() <= bound,
        _ => true,
    }
}

/// How many reports can still follow.
pub open spec fn reports_left(lines: Seq<LineView>, stage: Stage, bound: nat) -> int {
    match stage {
        Stage::At { pc, noted } => lines.len() - pc + bound,
        Stage::Undoing { undo, text } => undo.len() as int,
        _ => 0,
    }
}

proof fn lemma_settle(lines: Seq<LineView>, pc: int, noted: Option<Seq<char>>, bound: nat)
    requires
        0 <= pc,
    ensures
        stage_wf(lines, settle(lines, pc, noted), bound),
        settle(lines, pc, noted) matches Stage::At { pc: p, .. } ==> pc <= p,
        !(settle(lines, pc, noted) is Undoing),
    decreases lines.len() - pc,
{
    if pc < lines.len() {
        if let LineView::Note { text } = lines[pc] {
            lemma_settle(lines, pc + 1, Some(text), bound);
        }
    }
}

/// A job on a script whose jumps go forward ends: every report leaves it with
/// fewer reports to come, however the acts go.
pub proof fn law_jobs_end(lines: Seq<LineView>, stage: Stage, outcome: OutcomeView, bound: nat)
    requires
        forward(lines),
        undo_within(lines, bound),
        stage_wf(lines, stage, bound),
        stage is At || stage is Undoing,
    ensures
        stage_wf(lines, advance(lines, stage, outcome), bound),
        0 <= reports_left(lines, advance(lines, stage, outcome), bound) < reports_left(
            lines,
            stage,
            bound,
        ),
{
    if let Stage::At { pc, noted } = stage {
        if let LineView::Do { act, lead, ok, fail } = lines[pc] {
            lemma_settle(lines, pc + 1, noted, bound);
            if let Goto::At(to) = ok {
                lemma_settle(lines, to as int, noted, bound);
            }
            match outcome {
                OutcomeView::Done => {},
                OutcomeView::Opaque { error } => {
                    if let OnFailView::Skip { to } = fail {
                        lemma_settle(lines, to, Some(lead + error), bound);
                    }
                    if let OnFailView::Instead { text, to } = fail {
                        lemma_settle(lines, to, Some(text), bound);
                    }
                },
                OutcomeView::Failed { error } => {
                    if let OnFailView::Skip { to } = fail {
                        lemma_settle(lines, to, Some(lead + error), bound);
                    }
                    if let OnFailView::Instead { text, to } = fail {
                        lemma_settle(lines, to, Some(text), bound);
                    }
                },
            }
        }
    }
}

/// `n` acts that all went well.
pub open spec fn all_done(n: nat) -> Seq<OutcomeView> {
    Seq::new(n, |i: int| OutcomeView::Done)
}

proof fn lemma_resume_concat(
    lines: Seq<LineView>,
    stage: Stage,
    a: Seq<OutcomeView>,
    b: Seq<OutcomeView>,
)
    ensures
        resume(lines, stage, a + b) == resume(lines, resume(lines, stage, a), b),
    decreases a.len(),
{
    if a.len() == 0 {
        assert(a + b =~= b);
    } else {
        assert((a + b).skip(1) =~= a.skip(1) + b);
        lemma_resume_concat(lines, advance(lines, stage, a[0]), a.skip(1), b);
    }
}

/// As long as everything goes well, a straight script is carried out in order,
/// and it is finished after its last line.
pub proof fn law_straight_success(lines: Seq<LineView>, n: nat)
    requires
        straight(lines),
        n <= lines.len(),
    ensures
        play(lines, all_done(n)) == (if n < lines.len() {
            Stage::At { pc: n as int, noted: None }
        } else {
            Stage::Finished
        }),
    decreases n,
{
    if n == 0 {
        if lines.len() > 0 {
            assert(is_step(lines[0]));
        }
    } else {
        let m = (n - 1) as nat;
        law_straight_success(lines, m);
        assert(all_done(n) =~= all_done(m) + seq![OutcomeView::Done]);
        lemma_resume_concat(lines, settle(lines, 0, None), all_done(m), seq![OutcomeView::Done]);
        let at = Stage::At { pc: m as int, noted: None };
        assert(is_step(lines[m as int]));
        assert(seq![OutcomeView::Done].skip(1) =~= Seq::<OutcomeView>::empty());
        reveal_with_fuel(resume, 2);
        if n < lines.len() {
            assert(is_step(lines[n as int]));
        }
    }
}

/// When line `i` of a straight script fails, exactly the acts that the line
/// names are undone, and the report is the line's lead followed by the error.
pub proof fn law_straight_failure(
    lines: Seq<LineView>,
    i: int,
    failure: OutcomeView,
    after: Seq<OutcomeView>,
)
    requires
        straight(lines),
        0 <= i < lines.len(),
        failure !is Done,
        after.len() <= undo_of(lines[i]).len(),
    ensures
        play(lines, all_done(i as nat) + seq![failure] + after) == unwind(
            undo_of(lines[i]).skip(after.len() as int),
            lead_of(lines[i]) + error_of(failure),
        ),
{
    let head = all_done(i as nat);
    let fail = seq![failure];
    law_straight_success(lines, i as nat);
    assert(head + fail + after =~= head + (fail + after));
    lemma_resume_concat(lines, settle(lines, 0, None), head, fail + after);
    lemma_resume_concat(lines, Stage::At { pc: i, noted: None }, fail, after);
    assert(fail.skip(1) =~= Seq::<OutcomeView>::empty());
    assert(is_step(lines[i]));
    reveal_with_fuel(resume, 2);
    let undo = undo_of(lines[i]);
    let text = lead_of(lines[i]) + error_of(failure);
    lemma_undo_runs(lines, undo, text, after);
}

/// The error that an outcome carries.
pub open spec fn error_of(outcome: OutcomeView) -> Seq<char> {
    match outcome {
        OutcomeView::Done => seq![],
        OutcomeView::Opaque { error } => error,
        OutcomeView::Failed { error } => error,
    }
}

proof fn lemma_undo_runs(
    lines: Seq<LineView>,
    undo: Seq<Act>,
    text: Seq<char>,
    after: Seq<OutcomeView>,
)
    requires
        after.len() <= undo.len(),
    ensures
        resume(lines, unwind(undo, text), after) == unwind(undo.skip(after.len() as int), text),
    decreases after.len(),
{
    if after.len() == 0 {
        assert(undo.skip(0) =~= undo);
    } else {
        lemma_undo_runs(lines, undo.skip(1), text, after.skip(1));
        assert(undo.skip(1).skip(after.len() - 1) =~= undo.skip(after.len() as int));
    }
}

/// The acts that have been carried out once the failure of line `i` of a
/// straight script has been dealt with: all lines before it, then its undo.
pub open spec fn acts_of_failure(lines: Seq<LineView>, i: int) -> Seq<Act> {
    Seq::new(i as nat, |k: int| act_of(lines[k])) + undo_of(lines[i])
}

/// The acts of a straight script that went well.
pub open spec fn acts_of_success(lines: Seq<LineView>) -> Seq<Act> {
    Seq::new(lines.len(), |k: int| act_of(lines[k]))
}

/// Acts that wait for the key hardware.
pub open spec fn uses_device(act: Act) -> bool {
    match act {
        Act::OpenTpm
        | Act::OpenSep
        | Act::SealTpm { .. }
        | Act::SealSep { .. }
        | Act::RegisterCredential
        | Act::DeriveNewHmac
        | Act::UnsealEnvelopeTpm { .. }
        | Act::UnsealEnvelopeSep
        | Act::DeriveEnvelopeHmac { .. }
        | Act::DeriveSlotHmac { .. } => true,
        _ => false,
    }
}

/// Acts that change the vault or a file beside it.
pub open spec fn writes_file(act: Act) -> bool {
    match act {
        Act::CreateVault { .. }
        | Act::CreateDeniable { .. }
        | Act::WriteFirstSidecar { .. }
        | Act::WriteSeed { .. }
        | Act::InitAnchor
        | Act::EnrollBackup
        | Act::PersistHeader
        | Act::RemoveVault
        | Act::RemoveHeader
        | Act::RemoveAnchor
        | Act::RemoveSidecar
        | Act::RemoveSeed
        | Act::SwapToFront { .. }
        | Act::RelabelSidecar { .. }
        | Act::InstallPassphrase { .. }
        | Act::InstallPassphraseDeniable { .. }
        | Act::InstallSlot { .. }
        | Act::InstallDeniable { .. }
        | Act::AppendSidecar { .. }
        | Act::MergeSidecar { .. }
        | Act::RollbackSidecar
        | Act::RevokeInstalled
        | Act::ClearDeniable { .. }
        | Act::RevokeSlot { .. }
        | Act::RotateMvk { .. }
        | Act::RotateMvkDeniable { .. }
        | Act::FlushVfs
        | Act::ScrambleHeader
        | Act::ScrambleData { .. } => true,
        _ => false,
    }
}

/// Whether the key hardware is done with before the first file is written, so
/// that a missing or unwilling device leaves nothing behind.
pub open spec fn devices_first(lines: Seq<LineView>) -> bool {
    forall|i: int, j: int|
        0 <= i < j < lines.len() && (#[trigger] lines[i]) is Do && (#[trigger] lines[j]) is Do
            && writes_file(act_of(lines[i])) ==> !uses_device(act_of(lines[j]))
}

pub proof fn lemma_straight_concat(a: Seq<LineView>, b: Seq<LineView>)
    requires
        straight(a),
        straight(b),
    ensures
        straight(a + b),
{
    assert forall|i: int| 0 <= i < (a + b).len() implies is_step(#[trigger] (a + b)[i]) by {
        if i < a.len() {
            assert((a + b)[i] == a[i]);
        } else {
            assert((a + b)[i] == b[i - a.len()]);
        }
    }
}

/// Whether no line writes a file.
pub open spec fn writes_nothing(lines: Seq<LineView>) -> bool {
    forall|i: int| 0 <= i < lines.len() && (#[trigger] lines[i]) is Do ==> !writes_file(act_of(lines[i]))
}

/// Whether no line waits for the key hardware.
pub open spec fn needs_no_device(lines: Seq<LineView>) -> bool {
    forall|i: int| 0 <= i < lines.len() && (#[trigger] lines[i]) is Do ==> !uses_device(act_of(lines[i]))
}

pub proof fn lemma_devices_first(a: Seq<LineView>, b: Seq<LineView>)
    requires
        writes_nothing(a) && devices_first(b) || devices_first(a) && needs_no_device(b),
    ensures
        devices_first(a + b),
        writes_nothing(a) && writes_nothing(b) ==> writes_nothing(a + b),
        needs_no_device(a) && needs_no_device(b) ==> needs_no_device(a + b),
{
    let c = a + b;
    assert forall|i: int| 0 <= i < c.len() implies #[trigger] c[i] == (if i < a.len() {
        a[i]
    } else {
        b[i - a.len()]
    }) by {}
}

/// Whether a job that comes to line `pc` with `noted` in mind stands as it should:
/// at an act it waits for it, a note is kept in mind on the way to the next line,
/// a refusal is reported, at the end of a search the error in mind is reported, or
/// its own text if there is none, and behind the last line the job is finished.
pub open spec fn stands_at(
    stage: Stage,
    lines: Seq<LineView>,
    pc: int,
    noted: Option<Seq<char>>,
) -> bool {
    if pc < 0 || pc >= lines.len() {
        stage == Stage::Finished
    } else {
        match lines[pc] {
            LineView::Do { .. } => stage == (Stage::At { pc, noted }),
            LineView::Note { text } => stage == settle(lines, pc + 1, Some(text)),
            LineView::Stop { text } => stage == (Stage::Failed { text }),
            LineView::GiveUp { text } => stage == (Stage::Failed {
                text: if noted is Some {
                    noted->0
                } else {
                    text
                },
            }),
        }
    }
}

/// An act that succeeds leads to the line that it names, or to the next one, or
/// ends the job. One that fails is undone and reported; or it is kept in mind, in
/// its own words or in others, and leads to a later line; or it is reported
/// unless it was a failure to decrypt, which leads to the next line with nothing
/// kept in mind. Undoing goes on act by act and then reports the error.
pub proof fn law_outcomes_lead_on(
    lines: Seq<LineView>,
    pc: int,
    noted: Option<Seq<char>>,
    outcome: OutcomeView,
    undo: Seq<Act>,
    text: Seq<char>,
)
    requires
        0 <= pc < lines.len(),
        lines[pc] is Do,
    ensures
        ({
            let next = advance(lines, Stage::At { pc, noted }, outcome);
            let ok = lines[pc]->Do_ok;
            let fail = lines[pc]->Do_fail;
            let error = lines[pc]->Do_lead + error_of(outcome);
            if outcome is Done {
                match ok {
                    Goto::Next => stands_at(next, lines, pc + 1, noted),
                    Goto::At(to) => stands_at(next, lines, to as int, noted),
                    Goto::End => next == Stage::Finished,
                }
            } else {
                match fail {
                    OnFailView::Abort { undo: steps } => if steps.len() == 0 {
                        next == (Stage::Failed { text: error })
                    } else {
                        next == (Stage::Undoing { undo: steps, text: error })
                    },
                    OnFailView::Skip { to } => stands_at(next, lines, to, Some(error)),
                    OnFailView::Instead { text: said, to } => stands_at(
                        next,
                        lines,
                        to,
                        Some(said),
                    ),
                    OnFailView::AbortUnlessOpaque => if outcome is Opaque {
                        stands_at(next, lines, pc + 1, noted)
                    } else {
                        next == (Stage::Failed { text: error })
                    },
                }
            }
        }),
        undo.len() > 1 ==> advance(lines, Stage::Undoing { undo, text }, outcome)
            == (Stage::Undoing { undo: undo.skip(1), text }),
        undo.len() == 1 ==> advance(lines, Stage::Undoing { undo, text }, outcome)
            == (Stage::Failed { text }),
        advance(lines, Stage::Finished, outcome) == Stage::Finished,
        advance(lines, Stage::Failed { text }, outcome) == (Stage::Failed { text }),
{
}

} // verus!
