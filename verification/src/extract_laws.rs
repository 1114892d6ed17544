//! What holds of the copying of files and directories as a whole.

use crate::extract::{DirEntry, InodeKind, PendingView, StageView, Transfer, WalkReply, WalkView, after_block, child_of, queued, transfer_start, walked};
use crate::kinds::TargetOs;
use crate::paths::escapes;
use crate::text::trim_end;
use vstd::prelude::*;

verus! {

/// A file after `data` was written into it at `offset`. What lies between its
/// end and there is filled with zeros.
pub open spec fn written(file: Seq<u8>, offset: int, data: Seq<u8>) -> Seq<u8> {
    let end = offset + data.len();
    Seq::new(
        if end > file.len() {
            end as nat
        } else {
            file.len()
        },
        |i: int|
            if offset <= i < end {
                data[i - offset]
            } else if i < file.len() {
                file[i]
            } else {
                0
            },
    )
}

/// A file being copied: where the transfer is, and what has arrived.
pub struct Copying {
    pub t: Transfer,
    pub target: Seq<u8>,
}

/// The start of a copy. The target is empty: it is new, or was emptied.
pub open spec fn copy_start(end: Option<u64>) -> Copying {
    Copying { t: transfer_start(end), target: seq![] }
}

/// A copy of `source` after blocks of these sizes were read and written, each
/// where the transfer was.
pub open spec fn copied(source: Seq<u8>, end: Option<u64>, sizes: Seq<nat>) -> Copying
    decreases sizes.len(),
{
    if sizes.len() == 0 {
        copy_start(end)
    } else {
        let before = copied(source, end, sizes.drop_last());
        let at = before.t.offset as int;
        let n = sizes.last() as int;
        Copying {
            t: after_block(before.t, n),
            target: written(before.target, at, source.subrange(at, at + n)),
        }
    }
}

/// Whether `source` can be read in blocks of these sizes: the copy is not over
/// before any of them, none reads past the end of the source, and only one
/// that starts there is empty.
pub open spec fn readable(source: Seq<u8>, end: Option<u64>, sizes: Seq<nat>) -> bool
    decreases sizes.len(),
{
    sizes.len() > 0 ==> {
        let t = copied(source, end, sizes.drop_last()).t;
        &&& readable(source, end, sizes.drop_last())
        &&& !t.done
        &&& t.offset + sizes.last() <= source.len()
        &&& sizes.last() == 0 ==> t.offset == source.len()
    }
}

proof fn lemma_end_stays(source: Seq<u8>, end: Option<u64>, sizes: Seq<nat>)
    ensures
        copied(source, end, sizes).t.end == end,
    decreases sizes.len(),
{
    if sizes.len() > 0 {
        lemma_end_stays(source, end, sizes.drop_last());
    }
}

/// The blocks of a copy cover the source in order, without gap or overlap: at
/// any time the target is what the source holds up to where the transfer is,
/// each block starts where the one before it ends, and when the copy is over
/// the target is the source and the count is its length.
pub proof fn law_transfer_covers_the_file(source: Seq<u8>, end: Option<u64>, sizes: Seq<nat>)
    requires
        source.len() <= u64::MAX,
        end matches Some(e) ==> e == source.len(),
        readable(source, end, sizes),
    ensures
        copied(source, end, sizes).t.offset <= source.len(),
        copied(source, end, sizes).target == source.take(
            copied(source, end, sizes).t.offset as int,
        ),
        sizes.len() > 0 ==> copied(source, end, sizes).t.offset == copied(
            source,
            end,
            sizes.drop_last(),
        ).t.offset + sizes.last(),
        copied(source, end, sizes).t.done ==> copied(source, end, sizes).target == source
            && copied(source, end, sizes).t.offset == source.len(),
    decreases sizes.len(),
{
    let now = copied(source, end, sizes);
    if sizes.len() > 0 {
        lemma_end_stays(source, end, sizes.drop_last());
        law_transfer_covers_the_file(source, end, sizes.drop_last());
        let before = copied(source, end, sizes.drop_last());
        assert(before.target.len() == before.t.offset);
        assert(now.target =~= source.take(now.t.offset as int));
    } else {
        assert(source.take(0) =~= seq![]);
    }
    if now.t.done {
        assert(source.take(source.len() as int) =~= source);
    }
}

/// A file that was copied into a vault and out of it again holds what it held,
/// whatever the blocks, and both copies count its bytes: the first reads the
/// file until there is no more, the second reads what the first has written up
/// to its size, into a target that is new or was emptied.
pub proof fn law_put_then_get(
    bytes: Seq<u8>,
    put_sizes: Seq<nat>,
    size: u64,
    get_sizes: Seq<nat>,
)
    requires
        bytes.len() <= u64::MAX,
        readable(bytes, None, put_sizes),
        copied(bytes, None, put_sizes).t.done,
        size == copied(bytes, None, put_sizes).target.len(),
        readable(copied(bytes, None, put_sizes).target, Some(size), get_sizes),
        copied(copied(bytes, None, put_sizes).target, Some(size), get_sizes).t.done,
    ensures
        copied(bytes, None, put_sizes).t.offset == bytes.len(),
        copied(copied(bytes, None, put_sizes).target, Some(size), get_sizes).t.offset
            == bytes.len(),
        copied(copied(bytes, None, put_sizes).target, Some(size), get_sizes).target == bytes,
{
    law_transfer_covers_the_file(bytes, None, put_sizes);
    law_transfer_covers_the_file(bytes, Some(size), get_sizes);
}

/// The start of the extraction of a directory.
pub open spec fn walk_start(inner: Seq<char>, os: TargetOs) -> WalkView {
    WalkView { os, waiting: seq![], stage: StageView::Look { inner, below: seq![] }, total: 0 }
}

/// An extraction after these replies.
pub open spec fn walk_after(inner: Seq<char>, os: TargetOs, replies: Seq<WalkReply>) -> WalkView
    decreases replies.len(),
{
    if replies.len() == 0 {
        walk_start(inner, os)
    } else {
        walked(walk_after(inner, os, replies.drop_last()), replies.last())
    }
}

/// The size of the file that a reply says was copied; none if it is another
/// reply, or no file was to be copied.
pub open spec fn copied_size(w: WalkView, reply: WalkReply) -> Option<u64> {
    match (w.stage, reply) {
        (StageView::Copy { .. }, WalkReply::Copied(n)) => Some(n),
        _ => None,
    }
}

/// The sizes of the files that an extraction has copied.
pub open spec fn sizes_copied(inner: Seq<char>, os: TargetOs, replies: Seq<WalkReply>) -> Seq<nat>
    decreases replies.len(),
{
    if replies.len() == 0 {
        seq![]
    } else {
        let before = sizes_copied(inner, os, replies.drop_last());
        match copied_size(walk_after(inner, os, replies.drop_last()), replies.last()) {
            Some(n) => before.push(n as nat),
            None => before,
        }
    }
}

pub open spec fn sum(sizes: Seq<nat>) -> nat
    decreases sizes.len(),
{
    if sizes.len() == 0 {
        0
    } else {
        sum(sizes.drop_last()) + sizes.last()
    }
}

/// The total of an extraction is the sum of the sizes of all the files that it
/// has copied.
pub proof fn law_total_is_the_sum(inner: Seq<char>, os: TargetOs, replies: Seq<WalkReply>)
    ensures
        walk_after(inner, os, replies).total == sum(sizes_copied(inner, os, replies)),
    decreases replies.len(),
{
    if replies.len() > 0 {
        law_total_is_the_sum(inner, os, replies.drop_last());
        let before = sizes_copied(inner, os, replies.drop_last());
        let w = walk_after(inner, os, replies.drop_last());
        match copied_size(w, replies.last()) {
            Some(n) => {
                assert(before.push(n as nat).drop_last() =~= before);
            },
            None => {},
        }
    }
}

/// How many of these entries are files.
pub open spec fn files_in(entries: Seq<DirEntry>) -> nat
    decreases entries.len(),
{
    if entries.len() == 0 {
        0
    } else {
        files_in(entries.drop_last()) + (if entries.last().kind == InodeKind::File {
            1nat
        } else {
            0
        })
    }
}

/// How many files are waiting.
pub open spec fn files_waiting(waiting: Seq<PendingView>) -> nat
    decreases waiting.len(),
{
    if waiting.len() == 0 {
        0
    } else {
        files_waiting(waiting.drop_last()) + (if waiting.last().kind == InodeKind::File {
            1nat
        } else {
            0
        })
    }
}

/// How many files an extraction was told of.
pub open spec fn files_listed(inner: Seq<char>, os: TargetOs, replies: Seq<WalkReply>) -> nat
    decreases replies.len(),
{
    if replies.len() == 0 {
        0
    } else {
        files_listed(inner, os, replies.drop_last()) + (match (
            walk_after(inner, os, replies.drop_last()).stage,
            replies.last(),
        ) {
            (StageView::Enter { .. }, WalkReply::Entries(entries)) => files_in(entries@),
            _ => 0,
        })
    }
}

proof fn lemma_waiting_concat(a: Seq<PendingView>, b: Seq<PendingView>)
    ensures
        files_waiting(a + b) == files_waiting(a) + files_waiting(b),
    decreases b.len(),
{
    if b.len() == 0 {
        assert(a + b =~= a);
    } else {
        lemma_waiting_concat(a, b.drop_last());
        assert((a + b).drop_last() =~= a + b.drop_last());
    }
}

/// As many files wait as were listed.
proof fn lemma_queued(dir: Seq<char>, below: Seq<Seq<char>>, entries: Seq<DirEntry>)
    ensures
        files_waiting(queued(dir, below, entries)) == files_in(entries),
    decreases entries.len(),
{
    let q = queued(dir, below, entries);
    if entries.len() > 0 {
        let rest = queued(dir, below, entries.drop_last());
        lemma_queued(dir, below, entries.drop_last());
        let first = seq![q[0]];
        assert(q =~= first + rest);
        lemma_waiting_concat(first, rest);
        assert(first.drop_last() =~= seq![]);
        assert(files_waiting(first.drop_last()) == 0);
        assert(files_waiting(first) == (if entries.last().kind == InodeKind::File {
            1nat
        } else {
            0
        }));
    }
}

/// The files that are still to be copied, while the walk has not failed.
spec fn files_left(w: WalkView) -> nat {
    files_waiting(w.waiting) + (if w.stage is Copy {
        1nat
    } else {
        0
    })
}

proof fn lemma_files(inner: Seq<char>, os: TargetOs, replies: Seq<WalkReply>)
    ensures
        !(walk_after(inner, os, replies).stage is Failed) ==> files_listed(inner, os, replies)
            == sizes_copied(inner, os, replies).len() + files_left(
            walk_after(inner, os, replies),
        ),
        walk_after(inner, os, replies).stage is Finished ==> walk_after(
            inner,
            os,
            replies,
        ).waiting.len() == 0,
    decreases replies.len(),
{
    if replies.len() > 0 {
        lemma_files(inner, os, replies.drop_last());
        let w = walk_after(inner, os, replies.drop_last());
        match (w.stage, replies.last()) {
            (StageView::Enter { inner: dir, below }, WalkReply::Entries(entries)) => {
                lemma_queued(dir, below, entries@);
                lemma_waiting_concat(w.waiting, queued(dir, below, entries@));
            },
            _ => {},
        }
    }
}

/// An extraction that has finished has copied every file that it was told of.
pub proof fn law_every_file_is_copied(inner: Seq<char>, os: TargetOs, replies: Seq<WalkReply>)
    requires
        walk_after(inner, os, replies).stage is Finished,
    ensures
        sizes_copied(inner, os, replies).len() == files_listed(inner, os, replies),
{
    lemma_files(inner, os, replies);
}

/// A link is made exactly if its target is not empty, holds no NUL, does not
/// begin with a slash or a backslash, and has no two dots in a row; it is made
/// where the entry is, to the target as it stands. A slash further on does no
/// harm. On Windows no link is made. While it is made, nothing else changes.
pub proof fn law_link_is_made_to_its_target(w: WalkView, target: String)
    requires
        w.stage is ReadLink,
    ensures
        ({
            let t = target@;
            let after = walked(w, WalkReply::Target(target));
            let plain = {
                &&& t.len() > 0
                &&& t[0] != '/' && t[0] != '\\'
                &&& forall|i: int| 0 <= i < t.len() ==> #[trigger] t[i] != '\0'
                &&& forall|i: int|
                    0 < i < t.len() && #[trigger] t[i] == '.' ==> t[i - 1] != '.'
            };
            &&& plain && w.os != TargetOs::Windows ==> after.stage == (StageView::MakeLink {
                target: t,
                below: w.stage->ReadLink_below,
            })
            &&& !plain || w.os == TargetOs::Windows ==> after.stage is Failed
            &&& after.os == w.os && after.waiting == w.waiting && after.total == w.total
        }),
{
    let t = target@;
    if forall|i: int| 0 < i < t.len() && #[trigger] t[i] == '.' ==> t[i - 1] != '.' {
        assert forall|i: int| 0 <= i < t.len() - 1 && #[trigger] t[i] == '.' implies t[i + 1]
            != '.' by {
            let k = i + 1;
            if t[k] == '.' {
                assert(t[k - 1] != '.');
            }
        }
    } else {
        let i = choose|i: int| 0 < i < t.len() && #[trigger] t[i] == '.' && t[i - 1] == '.';
        let k = i - 1;
        assert(t[k] == '.' && t[k + 1] == '.');
    }
    assert(t.contains('\0') <==> exists|i: int| 0 <= i < t.len() && #[trigger] t[i] == '\0');
}

/// What is done with an entry: a file is copied, a directory looked up before it
/// is entered, a link read; each at its own name below its directory.
pub open spec fn stage_for(e: PendingView) -> StageView {
    let inner = child_of(e.dir, e.name);
    let below = e.below.push(e.name);
    match e.kind {
        InodeKind::File => StageView::Copy { inner, below },
        InodeKind::Directory => StageView::Look { inner, below },
        InodeKind::Symlink => StageView::ReadLink { inner, below },
    }
}

/// Whether a reply says that what a walk asked for is done, so that it goes on
/// with the entry that is next.
pub open spec fn done_with(w: WalkView, reply: WalkReply) -> bool {
    ||| w.stage is Copy && reply is Copied
    ||| w.stage is MakeLink && reply is Linked
}

/// When an entry is done the next one is taken, the one that was put there last;
/// when none is left the walk is over. An entry whose name leads out ends the
/// walk.
pub proof fn law_walk_takes_the_next_entry(w: WalkView, reply: WalkReply)
    requires
        done_with(w, reply),
    ensures
        walked(w, reply).os == w.os,
        walked(w, reply).total == w.total + (match reply {
            WalkReply::Copied(n) => n as nat,
            _ => 0nat,
        }),
        w.waiting.len() == 0 ==> walked(w, reply).stage is Finished,
        w.waiting.len() > 0 ==> {
            let e = w.waiting[w.waiting.len() - 1];
            let after = walked(w, reply);
            &&& after.waiting == w.waiting.take(w.waiting.len() - 1)
            &&& !escapes(e.name, w.os) ==> after.stage == stage_for(e)
            &&& escapes(e.name, w.os) ==> after.stage is Failed
        },
{
    if w.waiting.len() > 0 {
        assert(w.waiting.drop_last() =~= w.waiting.take(w.waiting.len() - 1));
    }
}

/// An entry of a directory, waiting.
pub open spec fn waiting_entry(dir: Seq<char>, below: Seq<Seq<char>>, e: DirEntry) -> PendingView {
    PendingView { dir, below, name: e.name@, kind: e.kind }
}

/// The entries of a directory are taken one after the other, in the order in
/// which they were listed, all of them before anything that waited already.
pub proof fn law_entries_are_taken_in_order(w: WalkView, entries: Vec<DirEntry>)
    requires
        w.stage is Enter,
    ensures
        ({
            let dir = w.stage->Enter_inner;
            let below = w.stage->Enter_below;
            let n = entries@.len();
            let after = walked(w, WalkReply::Entries(entries));
            &&& after.total == w.total && after.os == w.os
            &&& n > 0 ==> {
                let first = waiting_entry(dir, below, entries@[0]);
                &&& !escapes(first.name, w.os) ==> after.stage == stage_for(first)
                &&& escapes(first.name, w.os) ==> after.stage is Failed
                &&& after.waiting.len() == w.waiting.len() + n - 1
                &&& forall|k: int|
                    1 <= k < n ==> after.waiting[after.waiting.len() - k] == waiting_entry(
                        dir,
                        below,
                        #[trigger] entries@[k],
                    )
                &&& forall|k: int|
                    0 <= k < w.waiting.len() ==> after.waiting[k] == #[trigger] w.waiting[k]
            }
            &&& n == 0 && w.waiting.len() == 0 ==> after.stage is Finished
            &&& n == 0 && w.waiting.len() > 0 ==> {
                let e = w.waiting[w.waiting.len() - 1];
                &&& after.waiting == w.waiting.take(w.waiting.len() - 1)
                &&& !escapes(e.name, w.os) ==> after.stage == stage_for(e)
                &&& escapes(e.name, w.os) ==> after.stage is Failed
            }
        }),
{
    let dir = w.stage->Enter_inner;
    let below = w.stage->Enter_below;
    let q = queued(dir, below, entries@);
    let all = w.waiting + q;
    if entries@.len() == 0 {
        assert(all =~= w.waiting);
        if w.waiting.len() > 0 {
            assert(w.waiting.drop_last() =~= w.waiting.take(w.waiting.len() - 1));
        }
    } else {
        let after = walked(w, WalkReply::Entries(entries));
        assert(all.last() == q[q.len() - 1]);
        assert(all.last() == waiting_entry(dir, below, entries@[0]));
        assert forall|k: int| 1 <= k < entries@.len() implies after.waiting[after.waiting.len() - k]
            == waiting_entry(dir, below, #[trigger] entries@[k]) by {
            assert(after.waiting[after.waiting.len() - k] == q[q.len() - 1 - k]);
        }
    }
}

/// Only a directory is entered, and an error ends the walk with its text.
pub proof fn law_walk_enters_directories_only(w: WalkView, kind: InodeKind, error: String)
    requires
        !(w.stage is Finished),
        !(w.stage is Failed),
    ensures
        walked(w, WalkReply::Error(error)).stage == (StageView::Failed { text: error@ }),
        w.stage is Look && kind == InodeKind::Directory ==> walked(w, WalkReply::Kind(kind))
            == (WalkView {
            stage: StageView::Enter {
                inner: w.stage->Look_inner,
                below: w.stage->Look_below,
            },
            ..w
        }),
        w.stage is Look && kind != InodeKind::Directory ==> walked(w, WalkReply::Kind(kind)).stage
            is Failed,
{
}

/// An entry of a directory is found below it: one slash stands between the path
/// of the directory and the name, whether or not the path ends in slashes.
pub proof fn law_child_is_below_its_directory(dir: Seq<char>, name: Seq<char>)
    ensures
        child_of(seq!['/'], name) == seq!['/'] + name,
        dir.len() > 0 && dir.last() != '/' ==> child_of(dir, name) == dir + seq!['/'] + name,
        dir.len() > 0 && dir.last() != '/' ==> child_of(dir.push('/'), name) == dir + seq!['/']
            + name,
{
    reveal_strlit("/");
    assert("/"@ =~= seq!['/']);
    if dir.len() > 0 && dir.last() != '/' {
        assert(dir != "/"@);
        assert(dir.push('/').drop_last() =~= dir);
        assert(dir.push('/') != "/"@);
        assert(trim_end(dir.push('/'), '/') == trim_end(dir, '/'));
    }
}

/// A transfer starts at the beginning of the file. It goes on by what was
/// copied, and is over as soon as an empty block was read or the end is reached,
/// not before.
pub proof fn law_transfer_is_over_at_the_end(end: Option<u64>, t: Transfer, n: nat)
    requires
        t.offset + n <= u64::MAX,
    ensures
        transfer_start(end).offset == 0 && transfer_start(end).end == end,
        transfer_start(end).done <==> end == Some(0u64),
        after_block(t, n as int).offset == t.offset + n,
        after_block(t, n as int).end == t.end,
        after_block(t, n as int).done <==> n == 0 || t.end is Some && t.offset + n >= t.end->0,
{
}

} // verus!
