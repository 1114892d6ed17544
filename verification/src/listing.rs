//! The list of a directory in the browser, and the dialogs that change it.

use crate::extract::InodeKind;
use crate::kinds::TargetOs;
use crate::paths::{leaf, leaf_name};
use crate::text_laws::law_last_place_is_last;
use crate::text::{chars_of, find_last, has_char, join2, join3, last_place, same_text, text_of, trim, trimmed};
use vstd::multiset::Multiset;
use vstd::prelude::*;
use vstd::string::*;

verus! {

/// A row of the browser.
pub struct ListEntry {
    pub name: String,
    pub kind: InodeKind,
    pub size: u64,
}

/// Whether `a` comes before `b`, or is `b`, in the order of the characters'
/// code points.
pub open spec fn text_le(a: Seq<char>, b: Seq<char>) -> bool
    decreases a.len(),
{
    if a.len() == 0 {
        true
    } else if b.len() == 0 {
        false
    } else if a[0] != b[0] {
        a[0] < b[0]
    } else {
        text_le(a.skip(1), b.skip(1))
    }
}

fn is_text_le(a: &str, b: &str) -> (r: bool)
    ensures
        r == text_le(a@, b@),
{
    let x = chars_of(a);
    let y = chars_of(b);
    let mut i: usize = 0;
    assert(x@.skip(0) =~= x@);
    assert(y@.skip(0) =~= y@);
    while i < x.len() && i < y.len()
        invariant
            i <= x@.len(),
            i <= y@.len(),
            x@ == a@,
            y@ == b@,
            text_le(a@, b@) == text_le(x@.skip(i as int), y@.skip(i as int)),
        decreases x.len() - i,
    {
        if x[i] != y[i] {
            return x[i] < y[i];
        }
        assert(x@.skip(i as int).skip(1) =~= x@.skip(i + 1));
        assert(y@.skip(i as int).skip(1) =~= y@.skip(i + 1));
        i = i + 1;
    }
    i == x.len()
}

proof fn lemma_text_le_total(a: Seq<char>, b: Seq<char>)
    ensures
        text_le(a, b) || text_le(b, a),
    decreases a.len(),
{
    if a.len() > 0 && b.len() > 0 && a[0] == b[0] {
        lemma_text_le_total(a.skip(1), b.skip(1));
    }
}

proof fn lemma_text_le_trans(a: Seq<char>, b: Seq<char>, c: Seq<char>)
    requires
        text_le(a, b),
        text_le(b, c),
    ensures
        text_le(a, c),
    decreases a.len(),
{
    if a.len() > 0 && b.len() > 0 && c.len() > 0 && a[0] == b[0] && b[0] == c[0] {
        lemma_text_le_trans(a.skip(1), b.skip(1), c.skip(1));
    }
}

/// Whether the rows are in the order of their names.
pub open spec fn in_order(v: Seq<ListEntry>) -> bool {
    forall|i: int, j: int|
        0 <= i < j < v.len() ==> text_le((#[trigger] v[i]).name@, (#[trigger] v[j]).name@)
}

/// Sorts the rows of a directory by name.
pub fn sort_listing(entries: Vec<ListEntry>) -> (r: Vec<ListEntry>)
    ensures
        in_order(r@),
        r@.to_multiset() == entries@.to_multiset(),
{
    let ghost all = entries@;
    let mut rest = entries;
    let mut r: Vec<ListEntry> = Vec::new();
    proof {
        broadcast use vstd::seq_lib::group_to_multiset_ensures;

        assert(r@.to_multiset() =~= Multiset::empty());
    }
    while rest.len() > 0
        invariant
            in_order(r@),
            r@.to_multiset().add(rest@.to_multiset()) == all.to_multiset(),
        decreases rest.len(),
    {
        let ghost before = rest@;
        let e = rest.pop();
        match e {
            None => {},
            Some(e) => {
                let ghost done = r@;
                let mut at: usize = r.len();
                while at > 0 && is_text_le(e.name.as_str(), r[at - 1].name.as_str())
                    invariant
                        at <= r@.len(),
                        r@ == done,
                        in_order(done),
                        forall|k: int| at <= k < r@.len() ==> text_le(e.name@, (#[trigger] r@[k]).name@),
                    decreases at,
                {
                    at = at - 1;
                }
                proof {
                    broadcast use vstd::seq_lib::group_to_multiset_ensures;
                    assert(before =~= rest@.push(e));
                    assert forall|i: int| 0 <= i < at implies text_le(
                        (#[trigger] done[i]).name@,
                        e.name@,
                    ) by {
                        lemma_text_le_total(e.name@, done[at - 1].name@);
                        if i < at - 1 {
                            lemma_text_le_trans(done[i].name@, done[at - 1].name@, e.name@);
                        }
                    }
                }
                let ghost x = e;
                r.insert(at, e);
                proof {
                    broadcast use vstd::seq_lib::group_to_multiset_ensures;
                    assert(r@ == done.insert(at as int, x));
                    vstd::seq_lib::to_multiset_insert(done, at as int, x);
                    assert(r@.to_multiset().add(rest@.to_multiset()) =~= done.to_multiset().add(
                        before.to_multiset(),
                    ));
                    assert(in_order(r@)) by {
                        let v = r@;
                        assert forall|i: int, j: int| 0 <= i < j < v.len() implies text_le(
                            (#[trigger] v[i]).name@,
                            (#[trigger] v[j]).name@,
                        ) by {
                            let a = if i < at {
                                i
                            } else {
                                i - 1
                            };
                            let b = if j < at {
                                j
                            } else {
                                j - 1
                            };
                            if i == at {
                                assert(v[j] == done[b]);
                            } else if j == at {
                                assert(v[i] == done[a]);
                            } else {
                                assert(v[i] == done[a]);
                                assert(v[j] == done[b]);
                            }
                        }
                    }
                }
            },
        }
    }
    proof {
        broadcast use vstd::seq_lib::group_to_multiset_ensures;
        assert(rest@.to_multiset() =~= Multiset::empty());
        assert(r@.to_multiset() =~= all.to_multiset());
    }
    r
}

/// The name that the dialog for a new folder asks for, if it was filled in.
pub fn new_folder_name(input: &str) -> (r: Option<String>)
    ensures
        match r {
            Some(name) => name@ == trim(input@) && name@.len() > 0,
            None => trim(input@).len() == 0,
        },
{
    let name = trimmed(input);
    if name.as_str().is_empty() {
        None
    } else {
        Some(name)
    }
}

/// A rename that the user is typing.
pub struct RenameTarget {
    pub old_name: String,
    pub buf: String,
    pub is_dir: bool,
}

/// What submitting a rename comes to.
pub enum RenameVerdict {
    /// Nothing to do.
    Close,
    Refused(&'static str),
    To(String),
}

/// Decides on a rename: an empty or unchanged name means no rename, and a name
/// cannot lead into another directory.
pub fn submit_rename(t: &RenameTarget) -> (v: RenameVerdict)
    ensures
        match v {
            RenameVerdict::Close => trim(t.buf@).len() == 0 || trim(t.buf@) == t.old_name@,
            RenameVerdict::Refused(text) => {
                &&& trim(t.buf@).len() > 0 && trim(t.buf@) != t.old_name@
                &&& trim(t.buf@).contains('/')
                &&& text@ == "name can't contain '/'"@
            },
            RenameVerdict::To(name) => {
                &&& trim(t.buf@).len() > 0 && trim(t.buf@) != t.old_name@
                &&& !trim(t.buf@).contains('/')
                &&& name@ == trim(t.buf@)
            },
        },
{
    let name = trimmed(t.buf.as_str());
    if name.as_str().is_empty() || same_text(name.as_str(), t.old_name.as_str()) {
        return RenameVerdict::Close;
    }
    let chars = chars_of(name.as_str());
    if has_char(&chars, '/') {
        return RenameVerdict::Refused("name can't contain '/'");
    }
    RenameVerdict::To(name)
}

/// The extension of a file name: what follows its last dot, unless that dot
/// comes first.
pub open spec fn extension(name: Seq<char>) -> Option<Seq<char>> {
    match last_place(name, '.') {
        Some(i) => if i == 0 || name == ".."@ {
            None
        } else {
            Some(name.skip(i + 1))
        },
        None => None,
    }
}

pub fn extension_of(name: &str) -> (r: Option<String>)
    ensures
        match extension(name@) {
            Some(e) => r matches Some(s) && s@ == e,
            None => r is None,
        },
{
    if same_text(name, "..") {
        assert(extension(name@) is None);
        return None;
    }
    let chars = chars_of(name);
    let n: usize = chars.len();
    assert(chars@.subrange(0, n as int) =~= name@);
    match find_last(&chars, 0, n, '.') {
        None => None,
        Some(i) => {
            if i == 0 {
                None
            } else {
                let e = text_of(&chars, i + 1, n);
                assert(e@ =~= name@.skip(i + 1));
                Some(e)
            }
        },
    }
}

/// The extension to put back when a file called `name` in the vault is saved at
/// the host path `chosen`: a save dialog may have dropped it, but a different
/// one is the user's choice.
pub fn lost_extension(name: &str, chosen: &str, os: TargetOs) -> (r: Option<String>)
    ensures
        match r {
            Some(s) => extension(leaf(chosen@, os)) is None && extension(name@) == Some(s@),
            None => extension(leaf(chosen@, os)) is Some || extension(name@) is None,
        },
{
    let file = leaf_name(chosen, os);
    match extension_of(file.as_str()) {
        Some(_) => None,
        None => extension_of(name),
    }
}

/// How the save dialog names the file's own type.
pub fn filter_label(extension: &str) -> (s: String)
    ensures
        s@ == "."@ + extension@ + " file"@,
{
    join3(".", extension, " file")
}

/// The refusal to extract a directory over something that exists.
pub fn taken_destination(local: &str) -> (s: String)
    ensures
        s@ == local@
            + " already exists in destination - pick another folder or move it aside first"@,
{
    join2(local, " already exists in destination - pick another folder or move it aside first")
}

/// One text comes before another in the dictionary order of their characters: it
/// is its beginning, or the first character in which they differ is smaller.
pub proof fn law_order_is_that_of_a_dictionary(a: Seq<char>, b: Seq<char>)
    ensures
        text_le(a, b) <==> a.is_prefix_of(b) || exists|i: int| #[trigger] differs_first(a, b, i)
            && a[i] < b[i],
    decreases a.len(),
{
    if a.len() == 0 {
        assert(b.take(0) =~= a);
    } else if b.len() == 0 {
        assert forall|i: int| !(#[trigger] differs_first(a, b, i)) by {}
    } else if a[0] != b[0] {
        assert(differs_first(a, b, 0));
        assert forall|i: int| #[trigger] differs_first(a, b, i) implies i == 0 by {}
        if a.is_prefix_of(b) {
            assert(a[0] == b[0]);
        }
    } else {
        let x = a.skip(1);
        let y = b.skip(1);
        law_order_is_that_of_a_dictionary(x, y);
        if x.is_prefix_of(y) {
            assert(a =~= b.take(a.len() as int)) by {
                assert forall|i: int| 0 <= i < a.len() implies a[i] == b[i] by {
                    if i > 0 {
                        assert(x[i - 1] == y[i - 1]);
                    }
                }
            }
        }
        if a.is_prefix_of(b) {
            assert(x =~= y.take(x.len() as int)) by {
                assert forall|i: int| 0 <= i < x.len() implies x[i] == y[i] by {
                    assert(a[i + 1] == b[i + 1]);
                }
            }
        }
        assert forall|i: int| #[trigger] differs_first(x, y, i) implies differs_first(
            a,
            b,
            i + 1,
        ) by {
            assert forall|k: int| 0 <= k < i + 1 implies #[trigger] a[k] == b[k] by {
                if k > 0 {
                    assert(x[k - 1] == y[k - 1]);
                }
            }
        }
        assert forall|i: int| #[trigger] differs_first(a, b, i) implies differs_first(
            x,
            y,
            i - 1,
        ) by {
            assert forall|k: int| 0 <= k < i - 1 implies #[trigger] x[k] == y[k] by {
                assert(a[k + 1] == b[k + 1]);
            }
        }
    }
}

/// Whether two texts differ at `i`, and nowhere before.
pub open spec fn differs_first(a: Seq<char>, b: Seq<char>, i: int) -> bool {
    &&& 0 <= i < a.len() && i < b.len()
    &&& a[i] != b[i]
    &&& forall|k: int| 0 <= k < i ==> #[trigger] a[k] == b[k]
}

/// The extension of a file is what follows its last dot, if anything comes before
/// that; a name without a dot, or with none but the first character, has none.
pub proof fn law_extension_follows_the_last_dot(name: Seq<char>, stem: Seq<char>, ext: Seq<char>)
    ensures
        extension(name) matches Some(e) ==> e.len() < name.len() - 1 && !e.contains('.') && name
            == name.take(name.len() - e.len() - 1) + seq!['.'] + e,
        stem.len() > 0 && !ext.contains('.') && !(stem == seq!['.'] && ext.len() == 0)
            ==> extension(stem + seq!['.'] + ext) == Some(ext),
        (forall|i: int| 0 < i < name.len() ==> #[trigger] name[i] != '.') ==> extension(
            name,
        ) is None,
{
    reveal_strlit("..");
    law_last_place_is_last(name, '.');
    if let Some(e) = extension(name) {
        let i = last_place(name, '.')->0;
        assert(name =~= name.take(i) + seq!['.'] + e);
        assert forall|k: int| 0 <= k < e.len() implies #[trigger] e[k] != '.' by {
            assert(e[k] == name[i + 1 + k]);
        }
    }
    let all = stem + seq!['.'] + ext;
    law_last_place_is_last(all, '.');
    if stem.len() > 0 && !ext.contains('.') && !(stem == seq!['.'] && ext.len() == 0) {
        let n = stem.len() as int;
        assert(all[n] == '.');
        assert forall|k: int| n < k < all.len() implies #[trigger] all[k] != '.' by {
            assert(ext.contains(ext[k - n - 1]));
            assert(all[k] == ext[k - n - 1]);
        }
        let i = last_place(all, '.')->0;
        assert(i == n);
        if all == ".."@ {
            assert(all.len() == 2 && all[0] == '.');
            assert(all[0] == stem[0]);
            assert(stem =~= seq!['.']);
        }
        assert(all.skip(n + 1) =~= ext);
    }
}

/// A listing is in order exactly if no entry comes before one whose name is
/// smaller.
pub proof fn law_earlier_entries_have_smaller_names(v: Seq<ListEntry>)
    ensures
        !in_order(v) <==> exists|i: int, j: int|
            0 <= i < j < v.len() && !text_le((#[trigger] v[i]).name@, (#[trigger] v[j]).name@),
{
}

} // verus!
