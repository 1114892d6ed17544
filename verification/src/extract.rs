//! Copying files into and out of a vault.
//!
//! A directory is extracted by a [`Walk`]: it asks for one thing at a time and
//! is told how that went. Where a file goes is given by the names below the
//! destination, each of which has been checked, so that nothing a vault
//! contains can be written anywhere else.

use crate::kinds::TargetOs;
use crate::paths::{escapes, name_escapes_directory};
use crate::text::{chars_of, has_char, join2, join3, same_text, text_of, texts, trim_end, trimmed_end};
use vstd::prelude::*;
use vstd::string::*;

verus! {

/// What an entry of a vault is.
#[derive(Clone, Copy, Debug, PartialEq, Eq, Structural)]
pub enum InodeKind {
    File,
    Directory,
    Symlink,
}

/// An entry of a directory in a vault.
pub struct DirEntry {
    pub name: String,
    pub kind: InodeKind,
}

/// An entry that is still to be extracted: its directory, as a path in the
/// vault and as names below the destination, and the entry itself.
pub struct Pending {
    pub dir: String,
    pub below: Vec<String>,
    pub name: String,
    pub kind: InodeKind,
}

/// The contents of a [`Pending`].
#[verifier::ext_equal]
pub struct PendingView {
    pub dir: Seq<char>,
    pub below: Seq<Seq<char>>,
    pub name: Seq<char>,
    pub kind: InodeKind,
}

impl View for Pending {
    type V = PendingView;

    open spec fn view(&self) -> PendingView {
        PendingView {
            dir: self.dir@,
            below: texts(self.below@),
            name: self.name@,
            kind: self.kind,
        }
    }
}

/// What a walk asks for, or how it ended.
#[allow(inconsistent_fields)]
pub enum WalkStage {
    /// Look up what stands at `inner`, a path in the vault.
    Look { inner: String, below: Vec<String> },
    /// Create the directory at `below` and list the entries of `inner`.
    Enter { inner: String, below: Vec<String> },
    /// Copy the file at `inner` to `below`.
    Copy { inner: String, below: Vec<String> },
    /// Read the target of the link at `inner`.
    ReadLink { inner: String, below: Vec<String> },
    /// Create a link to `target` at `below`.
    MakeLink { target: String, below: Vec<String> },
    Finished,
    Failed { text: String },
}

/// The contents of a [`WalkStage`].
#[allow(inconsistent_fields)]
#[verifier::ext_equal]
pub enum StageView {
    Look { inner: Seq<char>, below: Seq<Seq<char>> },
    Enter { inner: Seq<char>, below: Seq<Seq<char>> },
    Copy { inner: Seq<char>, below: Seq<Seq<char>> },
    ReadLink { inner: Seq<char>, below: Seq<Seq<char>> },
    MakeLink { target: Seq<char>, below: Seq<Seq<char>> },
    Finished,
    Failed { text: Seq<char> },
}

impl View for WalkStage {
    type V = StageView;

    open spec fn view(&self) -> StageView {
        match *self {
            WalkStage::Look { inner, below } => StageView::Look {
                inner: inner@,
                below: texts(below@),
            },
            WalkStage::Enter { inner, below } => StageView::Enter {
                inner: inner@,
                below: texts(below@),
            },
            WalkStage::Copy { inner, below } => StageView::Copy {
                inner: inner@,
                below: texts(below@),
            },
            WalkStage::ReadLink { inner, below } => StageView::ReadLink {
                inner: inner@,
                below: texts(below@),
            },
            WalkStage::MakeLink { target, below } => StageView::MakeLink {
                target: target@,
                below: texts(below@),
            },
            WalkStage::Finished => StageView::Finished,
            WalkStage::Failed { text } => StageView::Failed { text: text@ },
        }
    }
}

/// How what a walk asked for went.
#[allow(inconsistent_fields)]
pub enum WalkReply {
    /// What stands there.
    Kind(InodeKind),
    /// The entries, in order.
    Entries(Vec<DirEntry>),
    /// The file was copied; so many bytes.
    Copied(u64),
    /// The link's target.
    Target(String),
    /// The link was made.
    Linked,
    /// The link could not be made at `path`.
    LinkFailed { path: String, error: String },
    /// Anything else went wrong.
    Error(String),
}

/// A walk as contracts see it.
#[verifier::ext_equal]
pub struct WalkView {
    pub os: TargetOs,
    /// The entry to go on with is the last one.
    pub waiting: Seq<PendingView>,
    pub stage: StageView,
    pub total: nat,
}

/// The path of an entry in the vault.
pub open spec fn child_of(dir: Seq<char>, name: Seq<char>) -> Seq<char> {
    if dir == "/"@ {
        "/"@ + name
    } else {
        trim_end(dir, '/') + "/"@ + name
    }
}

fn child_path(dir: &str, name: &str) -> (s: String)
    ensures
        s@ == child_of(dir@, name@),
{
    if same_text(dir, "/") {
        return join2("/", name);
    }
    let chars = chars_of(dir);
    let n: usize = trimmed_end(&chars, '/');
    let head = text_of(&chars, 0, n);
    assert(head@ =~= trim_end(dir@, '/'));
    join3(head.as_str(), "/", name)
}

pub open spec fn escape_text(name: Seq<char>) -> Seq<char> {
    "vault contains an entry name that would escape the destination directory ('"@ + name
        + "'); refusing to extract. This indicates a corrupt or maliciously-constructed vault."@
}

/// Goes on with the next entry that is waiting.
pub open spec fn take_next(os: TargetOs, waiting: Seq<PendingView>, total: nat) -> WalkView {
    if waiting.len() == 0 {
        WalkView { os, waiting, stage: StageView::Finished, total }
    } else {
        let e = waiting.last();
        let stage = if escapes(e.name, os) {
            StageView::Failed { text: escape_text(e.name) }
        } else {
            let inner = child_of(e.dir, e.name);
            let below = e.below.push(e.name);
            match e.kind {
                InodeKind::File => StageView::Copy { inner, below },
                InodeKind::Directory => StageView::Look { inner, below },
                InodeKind::Symlink => StageView::ReadLink { inner, below },
            }
        };
        WalkView { os, waiting: waiting.drop_last(), stage, total }
    }
}

/// The entries of a directory, waiting in reverse, so that the first is taken
/// first and all of them before those that waited already.
pub open spec fn queued(dir: Seq<char>, below: Seq<Seq<char>>, entries: Seq<DirEntry>) -> Seq<
    PendingView,
> {
    Seq::new(
        entries.len(),
        |k: int|
            {
                let e = entries[entries.len() - 1 - k];
                PendingView { dir, below, name: e.name@, kind: e.kind }
            },
    )
}

/// Whether a link's target is refused.
pub open spec fn bad_target(t: Seq<char>) -> bool {
    ||| t.len() == 0
    ||| t.contains('\0')
    ||| t[0] == '/'
    ||| t[0] == '\\'
    ||| has_two_dots(t)
}

/// Whether two dots follow each other.
pub open spec fn has_two_dots(t: Seq<char>) -> bool {
    exists|i: int| 0 <= i < t.len() - 1 && #[trigger] t[i] == '.' && t[i + 1] == '.'
}

fn is_bad_target(target: &str) -> (b: bool)
    ensures
        b == bad_target(target@),
{
    let t = chars_of(target);
    if t.len() == 0 || has_char(&t, '\0') || t[0] == '/' || t[0] == '\\' {
        return true;
    }
    let mut i: usize = 1;
    while i < t.len()
        invariant
            1 <= i <= t@.len(),
            t@ == target@,
            forall|k: int| 0 <= k < i - 1 ==> !(#[trigger] t@[k] == '.' && t@[k + 1] == '.'),
        decreases t.len() - i,
    {
        if t[i - 1] == '.' && t[i] == '.' {
            assert(target@[i - 1] == '.' && target@[i - 1 + 1] == '.');
            return true;
        }
        i = i + 1;
    }
    false
}

/// The walk after a reply. A reply that does not answer what was asked changes
/// nothing.
pub open spec fn walked(w: WalkView, reply: WalkReply) -> WalkView {
    match (w.stage, reply) {
        (StageView::Finished, _) | (StageView::Failed { .. }, _) => w,
        (_, WalkReply::Error(e)) => WalkView { stage: StageView::Failed { text: e@ }, ..w },
        (StageView::Look { inner, below }, WalkReply::Kind(kind)) => WalkView {
            stage: if kind == InodeKind::Directory {
                StageView::Enter { inner, below }
            } else {
                StageView::Failed { text: inner + " is not a directory"@ }
            },
            ..w
        },
        (StageView::Enter { inner, below }, WalkReply::Entries(entries)) => take_next(
            w.os,
            w.waiting + queued(inner, below, entries@),
            w.total,
        ),
        (StageView::Copy { .. }, WalkReply::Copied(n)) => take_next(
            w.os,
            w.waiting,
            w.total + n as nat,
        ),
        (StageView::ReadLink { inner, below }, WalkReply::Target(t)) => WalkView {
            stage: if bad_target(t@) {
                StageView::Failed {
                    text: "vault contains a symlink with an escape target ('"@ + t@
                        + "'); refusing to materialise"@,
                }
            } else if w.os == TargetOs::Windows {
                StageView::Failed {
                    text: "vault contains a symlink ("@ + inner
                        + ") but this host does not support symlink creation in the extract path"@,
                }
            } else {
                StageView::MakeLink { target: t@, below }
            },
            ..w
        },
        (StageView::MakeLink { .. }, WalkReply::Linked) => take_next(w.os, w.waiting, w.total),
        (StageView::MakeLink { .. }, WalkReply::LinkFailed { path, error }) => WalkView {
            stage: StageView::Failed {
                text: "failed to materialise symlink "@ + path@ + ": "@ + error@,
            },
            ..w
        },
        _ => w,
    }
}

/// The extraction of a directory.
pub struct Walk {
    os: TargetOs,
    waiting: Vec<Pending>,
    stage: WalkStage,
    total: u64,
}

/// The views of waiting entries.
pub open spec fn pending_views(v: Seq<Pending>) -> Seq<PendingView> {
    Seq::new(v.len(), |i: int| v[i]@)
}

impl View for Walk {
    type V = WalkView;

    closed spec fn view(&self) -> WalkView {
        WalkView {
            os: self.os,
            waiting: pending_views(self.waiting@),
            stage: self.stage@,
            total: self.total as nat,
        }
    }
}

fn copy_texts(v: &Vec<String>) -> (r: Vec<String>)
    ensures
        texts(r@) == texts(v@),
{
    let mut r: Vec<String> = Vec::new();
    let mut i: usize = 0;
    while i < v.len()
        invariant
            i <= v@.len(),
            texts(r@) == texts(v@).take(i as int),
        decreases v.len() - i,
    {
        let ghost before = r@;
        r.push(v[i].clone());
        assert(texts(r@) =~= texts(before).push(v@[i as int]@));
        i = i + 1;
        assert(texts(v@).take(i as int) =~= texts(v@).take(i - 1).push(v@[i - 1]@));
    }
    assert(texts(v@).take(i as int) =~= texts(v@));
    r
}

impl Walk {
    /// Starts the extraction of the directory `inner`.
    pub fn get_dir_recursive(inner: &str, os: TargetOs) -> (w: Walk)
        ensures
            w@ == (WalkView {
                os,
                waiting: seq![],
                stage: StageView::Look { inner: inner@, below: seq![] },
                total: 0,
            }),
    {
        let waiting: Vec<Pending> = Vec::new();
        let below: Vec<String> = Vec::new();
        proof {
            assert(pending_views(waiting@) =~= seq![]);
            assert(texts(below@) =~= seq![]);
        }
        Walk { os, waiting, stage: WalkStage::Look { inner: inner.to_owned(), below }, total: 0 }
    }

    /// What is to be done now.
    pub fn stage(&self) -> (s: &WalkStage)
        ensures
            s@ == self@.stage,
    {
        &self.stage
    }

    /// How many bytes have been copied so far.
    pub fn total(&self) -> (n: u64)
        ensures
            n == self@.total,
    {
        self.total
    }

    fn next(os: TargetOs, rest: Vec<Pending>, total: u64) -> (w: Walk)
        ensures
            w@ == take_next(os, pending_views(rest@), total as nat),
    {
        let mut waiting = rest;
        let ghost all = waiting@;
        match waiting.pop() {
            None => {
                assert(pending_views(waiting@) =~= pending_views(all));
                Walk { os, waiting, stage: WalkStage::Finished, total }
            },
            Some(e) => {
                proof {
                    assert(pending_views(all).last() == e@);
                    assert(pending_views(waiting@) =~= pending_views(all).drop_last());
                }
                if name_escapes_directory(e.name.as_str(), os) {
                    let text = join3(
                        "vault contains an entry name that would escape the destination directory ('",
                        e.name.as_str(),
                        "'); refusing to extract. This indicates a corrupt or maliciously-constructed vault.",
                    );
                    return Walk { os, waiting, stage: WalkStage::Failed { text }, total };
                }
                let inner = child_path(e.dir.as_str(), e.name.as_str());
                let ghost name = e.name@;
                let mut below = e.below;
                let ghost before = below@;
                below.push(e.name);
                assert(texts(below@) =~= texts(before).push(name));
                let stage = match e.kind {
                    InodeKind::File => WalkStage::Copy { inner, below },
                    InodeKind::Directory => WalkStage::Look { inner, below },
                    InodeKind::Symlink => WalkStage::ReadLink { inner, below },
                };
                Walk { os, waiting, stage, total }
            },
        }
    }

    fn queue(
        waiting: Vec<Pending>,
        inner: &str,
        below: &Vec<String>,
        entries: Vec<DirEntry>,
    ) -> (r: Vec<Pending>)
        ensures
            pending_views(r@) == pending_views(waiting@) + queued(
                inner@,
                texts(below@),
                entries@,
            ),
    {
        let ghost q = queued(inner@, texts(below@), entries@);
        let ghost start = pending_views(waiting@);
        let ghost all = entries@;
        let mut rest = entries;
        let mut r = waiting;
        assert(pending_views(r@) =~= start + q.take(0));
        while rest.len() > 0
            invariant
                q == queued(inner@, texts(below@), all),
                q.len() == all.len(),
                rest@.len() <= all.len(),
                rest@ == all.take(rest@.len() as int),
                pending_views(r@) == start + q.take(all.len() - rest@.len()),
            decreases rest.len(),
        {
            let ghost left = rest@.len() as int;
            let e = rest.pop();
            match e {
                None => {},
                Some(e) => {
                    let ghost before = r@;
                    assert(e == all[left - 1]);
                    r.push(
                        Pending {
                            dir: inner.to_owned(),
                            below: copy_texts(below),
                            name: e.name,
                            kind: e.kind,
                        },
                    );
                    proof {
                        assert(rest@ =~= all.take(rest@.len() as int));
                        assert(q[all.len() - left] == r@.last()@);
                        assert(pending_views(r@) =~= pending_views(before).push(r@.last()@));
                        assert(pending_views(r@) =~= start + q.take(all.len() - rest@.len()));
                    }
                },
            }
        }
        assert(q.take(all.len() as int) =~= q);
        r
    }

    /// Takes note of how what was asked for went.
    pub fn reply(self, reply: WalkReply) -> (w: Walk)
        requires
            reply matches WalkReply::Copied(n) ==> self@.total + n <= u64::MAX,
        ensures
            w@ == walked(self@, reply),
    {
        let Walk { os, waiting, stage, total } = self;
        match stage {
            WalkStage::Finished => Walk { os, waiting, stage: WalkStage::Finished, total },
            WalkStage::Failed { text } => Walk {
                os,
                waiting,
                stage: WalkStage::Failed { text },
                total,
            },
            WalkStage::Look { inner, below } => match reply {
                WalkReply::Error(e) => Walk {
                    os,
                    waiting,
                    stage: WalkStage::Failed { text: e },
                    total,
                },
                WalkReply::Kind(kind) => {
                    let next = if kind == InodeKind::Directory {
                        WalkStage::Enter { inner, below }
                    } else {
                        WalkStage::Failed { text: join2(inner.as_str(), " is not a directory") }
                    };
                    Walk { os, waiting, stage: next, total }
                },
                _ => Walk { os, waiting, stage: WalkStage::Look { inner, below }, total },
            },
            WalkStage::Enter { inner, below } => match reply {
                WalkReply::Error(e) => Walk {
                    os,
                    waiting,
                    stage: WalkStage::Failed { text: e },
                    total,
                },
                WalkReply::Entries(entries) => {
                    let all = Self::queue(waiting, inner.as_str(), &below, entries);
                    Self::next(os, all, total)
                },
                _ => Walk { os, waiting, stage: WalkStage::Enter { inner, below }, total },
            },
            WalkStage::Copy { inner, below } => match reply {
                WalkReply::Error(e) => Walk {
                    os,
                    waiting,
                    stage: WalkStage::Failed { text: e },
                    total,
                },
                WalkReply::Copied(n) => Self::next(os, waiting, total + n),
                _ => Walk { os, waiting, stage: WalkStage::Copy { inner, below }, total },
            },
            WalkStage::ReadLink { inner, below } => match reply {
                WalkReply::Error(e) => Walk {
                    os,
                    waiting,
                    stage: WalkStage::Failed { text: e },
                    total,
                },
                WalkReply::Target(t) => {
                    let next = if is_bad_target(t.as_str()) {
                        WalkStage::Failed {
                            text: join3(
                                "vault contains a symlink with an escape target ('",
                                t.as_str(),
                                "'); refusing to materialise",
                            ),
                        }
                    } else if os == TargetOs::Windows {
                        WalkStage::Failed {
                            text: join3(
                                "vault contains a symlink (",
                                inner.as_str(),
                                ") but this host does not support symlink creation in the extract path",
                            ),
                        }
                    } else {
                        WalkStage::MakeLink { target: t, below }
                    };
                    Walk { os, waiting, stage: next, total }
                },
                _ => Walk { os, waiting, stage: WalkStage::ReadLink { inner, below }, total },
            },
            WalkStage::MakeLink { target, below } => match reply {
                WalkReply::Error(e) => Walk {
                    os,
                    waiting,
                    stage: WalkStage::Failed { text: e },
                    total,
                },
                WalkReply::Linked => Self::next(os, waiting, total),
                WalkReply::LinkFailed { path, error } => {
                    let mut text = join3("failed to materialise symlink ", path.as_str(), ": ");
                    text.append(error.as_str());
                    Walk { os, waiting, stage: WalkStage::Failed { text }, total }
                },
                _ => Walk { os, waiting, stage: WalkStage::MakeLink { target, below }, total },
            },
        }
    }
}

/// Whether no name leads out of the directory it is used in.
pub open spec fn all_inside(names: Seq<Seq<char>>, os: TargetOs) -> bool {
    forall|i: int| 0 <= i < names.len() ==> !escapes(#[trigger] names[i], os)
}

/// The names below the destination that a stage writes to.
pub open spec fn written_at(stage: StageView) -> Seq<Seq<char>> {
    match stage {
        StageView::Look { below, .. } => below,
        StageView::Enter { below, .. } => below,
        StageView::Copy { below, .. } => below,
        StageView::ReadLink { below, .. } => below,
        StageView::MakeLink { below, .. } => below,
        _ => seq![],
    }
}

/// Whether a walk, now and with what is waiting, stays inside the destination.
pub open spec fn confined(w: WalkView) -> bool {
    &&& all_inside(written_at(w.stage), w.os)
    &&& w.stage matches StageView::MakeLink { target, .. } ==> !bad_target(target)
    &&& forall|i: int| 0 <= i < w.waiting.len() ==> all_inside((#[trigger] w.waiting[i]).below, w.os)
}

/// A walk stays inside the destination, whatever the vault contains: it starts
/// there, and no reply leads out. No link is made to a target that leads out
/// either.
pub proof fn law_walk_is_confined(inner: Seq<char>, os: TargetOs, w: WalkView, reply: WalkReply)
    ensures
        confined(
            WalkView {
                os,
                waiting: seq![],
                stage: StageView::Look { inner, below: seq![] },
                total: 0,
            },
        ),
        confined(w) ==> confined(walked(w, reply)),
{
    if confined(w) {
        match (w.stage, reply) {
            (StageView::Enter { inner: dir, below }, WalkReply::Entries(entries)) => {
                let all = w.waiting + queued(dir, below, entries@);
                assert forall|i: int| 0 <= i < all.len() implies all_inside(
                    (#[trigger] all[i]).below,
                    w.os,
                ) by {
                    if i < w.waiting.len() {
                        assert(all[i] == w.waiting[i]);
                    }
                }
                lemma_take_next_confined(w.os, all, w.total);
            },
            (StageView::Copy { .. }, WalkReply::Copied(n)) => {
                lemma_take_next_confined(w.os, w.waiting, w.total + n as nat);
            },
            (StageView::MakeLink { .. }, WalkReply::Linked) => {
                lemma_take_next_confined(w.os, w.waiting, w.total);
            },
            _ => {},
        }
    }
}

proof fn lemma_take_next_confined(os: TargetOs, waiting: Seq<PendingView>, total: nat)
    requires
        forall|i: int| 0 <= i < waiting.len() ==> all_inside((#[trigger] waiting[i]).below, os),
    ensures
        confined(take_next(os, waiting, total)),
{
    let w = take_next(os, waiting, total);
    if waiting.len() > 0 {
        let e = waiting.last();
        assert(e == waiting[waiting.len() - 1]);
        assert forall|i: int| 0 <= i < w.waiting.len() implies all_inside(
            (#[trigger] w.waiting[i]).below,
            os,
        ) by {
            assert(w.waiting[i] == waiting[i]);
        }
    }
}

/// How a file of `size` bytes is copied out of the vault: up to its size. What
/// is no file is refused. The target is emptied first.
pub fn get_file(kind: InodeKind, size: u64, inner: &str) -> (r: Result<Transfer, String>)
    ensures
        match r {
            Ok(t) => kind == InodeKind::File && t == transfer_start(Some(size)),
            Err(e) => kind != InodeKind::File && e@ == inner@ + " is not a file"@,
        },
{
    if kind == InodeKind::File {
        Ok(Transfer::new(Some(size)))
    } else {
        Err(join2(inner, " is not a file"))
    }
}

/// How a file is copied into the vault: until there is no more of it. It is
/// refused if its name is `taken`.
pub fn put_file(taken: bool, inner: &str) -> (r: Result<Transfer, String>)
    ensures
        match r {
            Ok(t) => !taken && t == transfer_start(None),
            Err(e) => taken && e@ == inner@ + " already exists"@,
        },
{
    if taken {
        Err(join2(inner, " already exists"))
    } else {
        Ok(Transfer::new(None))
    }
}

/// How many bytes are copied at a time.
pub const COPY_CHUNK: usize = 0x1_0000;

/// The copying of a file, block by block.
pub struct Transfer {
    /// Where the next block goes.
    pub offset: u64,
    /// Stop here, even if there is more.
    pub end: Option<u64>,
    pub done: bool,
}

/// The start of a transfer.
pub open spec fn transfer_start(end: Option<u64>) -> Transfer {
    Transfer { offset: 0, end, done: end == Some(0u64) }
}

/// A transfer after a block of `n` bytes.
pub open spec fn after_block(t: Transfer, n: int) -> Transfer {
    Transfer {
        offset: (t.offset + n) as u64,
        end: t.end,
        done: n == 0 || (t.end matches Some(e) && t.offset + n >= e),
    }
}

impl Transfer {
    /// Copies up to `end`, or until there is no more.
    pub fn new(end: Option<u64>) -> (t: Transfer)
        ensures
            t == transfer_start(end),
    {
        let done = match end {
            Some(n) => n == 0,
            None => false,
        };
        Transfer { offset: 0, end, done }
    }

    /// Takes note of a block of `n` bytes; none means that there is no more.
    pub fn block(&mut self, n: usize)
        requires
            !old(self).done,
            old(self).offset + n <= u64::MAX,
        ensures
            *final(self) == after_block(*old(self), n as int),
    {
        self.offset = self.offset + n as u64;
        self.done = n == 0 || match self.end {
            Some(e) => self.offset >= e,
            None => false,
        };
    }
}

} // verus!
