//! The list of recently opened vaults, most recent first.
//!
//! The list says which vaults a user has and how they are protected, so the
//! program that stores it keeps the file to its owner. What is decided here is
//! what the list holds.

use vstd::prelude::*;

verus! {

/// A vault that was opened before.
pub struct RecentVault {
    pub path: String,
    pub header_path: Option<String>,
    pub anchor_path: Option<String>,
    pub last_opened: Option<i64>,
    pub cipher: String,
    pub has_fido2: bool,
    pub has_hybrid_pq: bool,
    /// Whether any keyslot is bound to a TPM.
    pub has_tpm: bool,
}

/// The list keeps this many vaults.
pub const MAX_RECENT: usize = 20;

/// Whether there is only one way to write this path: it is absolute, with
/// single slashes, nothing that a system drops from a path, and no character
/// that only some systems give a meaning to.
pub open spec fn plain_path(s: Seq<char>) -> bool {
    &&& s.len() >= 2 && s[0] == '/' && s.last() != '/'
    &&& forall|i: int|
        0 <= i < s.len() ==> (#[trigger] s[i]) != '\\' && s[i] != ':' && (s[i] == '/' ==> s[i + 1]
            != '/' && !(s[i + 1] == '.' && (i + 2 == s.len() || s[i + 2] == '/')))
}

/// Whether a system may answer `same` when it is asked if two texts name the
/// same path. How it reads other texts than plain paths is up to the system.
pub open spec fn may_name_same(a: Seq<char>, b: Seq<char>, same: bool) -> bool {
    &&& a == b ==> same
    &&& plain_path(a) && plain_path(b) ==> same == (a == b)
}

/// `==` of `std::path::Path`, which compares component by component. Equal
/// texts are the same path, and two different plain paths are not. Nothing is
/// said of other texts: what separates their components depends on the system
/// the program is built for.
#[verifier::external_body]
fn path_eq(a: &str, b: &str) -> (r: bool)
    ensures
        may_name_same(a@, b@, r),
{
    std::path::Path::new(a) == std::path::Path::new(b)
}

/// Whether the system may answer `same` when it is asked if these two texts name
/// the same path.
pub closed spec fn may_answer(a: Seq<char>, b: Seq<char>, same: bool) -> bool {
    exists|x: &str, y: &str|
        x@ == a && y@ == b && #[trigger] call_ensures(path_eq, (x, y), same)
}

/// Whether two texts name the same path, as the system sees it.
pub(crate) fn same_path(a: &str, b: &str) -> (r: bool)
    ensures
        may_answer(a@, b@, r),
        may_name_same(a@, b@, r),
{
    let ask = path_eq;
    ask(a, b)
}

/// Whether `same` may be the system's answers when it is asked entry by entry
/// which are for `path`.
pub open spec fn may_answer_all(list: Seq<RecentVault>, path: Seq<char>, same: Seq<bool>) -> bool {
    &&& same.len() == list.len()
    &&& forall|i: int|
        0 <= i < list.len() ==> may_answer((#[trigger] list[i]).path@, path, same[i])
}

/// What the system answers fits what is known of its answers.
pub proof fn law_answers_fit(list: Seq<RecentVault>, path: Seq<char>, same: Seq<bool>)
    requires
        may_answer_all(list, path, same),
    ensures
        marks_fit(list, path, same),
{
    assert forall|i: int| 0 <= i < list.len() implies may_name_same(
        (#[trigger] list[i]).path@,
        path,
        same[i],
    ) by {
        assert(may_answer(list[i].path@, path, same[i]));
    }
}

/// Whether `same` fits what is known of the system's answers to the question
/// which entries are for `path`.
pub open spec fn marks_fit(list: Seq<RecentVault>, path: Seq<char>, same: Seq<bool>) -> bool {
    &&& same.len() == list.len()
    &&& forall|i: int|
        0 <= i < list.len() ==> may_name_same((#[trigger] list[i]).path@, path, same[i])
}

/// The entries of `list` that are not marked, in order.
pub open spec fn unmarked(list: Seq<RecentVault>, same: Seq<bool>) -> Seq<RecentVault>
    decreases list.len(),
{
    if list.len() == 0 {
        seq![]
    } else {
        let rest = unmarked(list.drop_last(), same);
        if same[list.len() - 1] {
            rest
        } else {
            rest.push(list.last())
        }
    }
}

/// The list once `entry` was opened, with its older entries marked: it comes
/// first, they go, and the list stays within its limit.
pub open spec fn upserted(list: Seq<RecentVault>, same: Seq<bool>, entry: RecentVault) -> Seq<
    RecentVault,
> {
    let all = seq![entry] + unmarked(list, same);
    if all.len() <= MAX_RECENT {
        all
    } else {
        all.take(MAX_RECENT as int)
    }
}

/// Which entries are for `path`, as the system sees it.
pub(crate) fn mark(list: &Vec<RecentVault>, path: &str) -> (same: Vec<bool>)
    ensures
        may_answer_all(list@, path@, same@),
        marks_fit(list@, path@, same@),
{
    let mut same: Vec<bool> = Vec::new();
    let mut i: usize = 0;
    while i < list.len()
        invariant
            i <= list@.len(),
            same@.len() == i,
            forall|k: int|
                0 <= k < i ==> may_answer((#[trigger] list@[k]).path@, path@, same@[k])
                    && may_name_same(list@[k].path@, path@, same@[k]),
        decreases list.len() - i,
    {
        same.push(same_path(list[i].path.as_str(), path));
        i = i + 1;
    }
    same
}

/// Drops the marked entries. The others keep their order.
pub fn forget_marked(list: Vec<RecentVault>, same: &Vec<bool>) -> (r: Vec<RecentVault>)
    requires
        same@.len() == list@.len(),
    ensures
        r@ == unmarked(list@, same@),
{
    let mut rest = list;
    let mut kept: Vec<RecentVault> = Vec::new();
    let mut k: usize = 0;
    assert(list@.skip(0) =~= list@);
    while rest.len() > 0
        invariant
            k <= same.len(),
            same@.len() == list@.len(),
            rest@ == list@.skip(k as int),
            kept@ == unmarked(list@.take(k as int), same@),
        decreases rest.len(),
    {
        let e = rest.remove(0);
        proof {
            assert(e == list@[k as int]);
            assert(list@.take(k + 1).drop_last() =~= list@.take(k as int));
            assert(rest@ =~= list@.skip(k + 1));
        }
        if !same[k] {
            kept.push(e);
        }
        k = k + 1;
    }
    assert(list@.take(k as int) =~= list@);
    kept
}

/// Puts `entry` at the head of the list, in place of the marked entries.
pub fn upsert_marked(list: Vec<RecentVault>, same: &Vec<bool>, entry: RecentVault) -> (r: Vec<
    RecentVault,
>)
    requires
        same@.len() == list@.len(),
    ensures
        r@ == upserted(list@, same@, entry),
{
    let mut kept = forget_marked(list, same);
    kept.insert(0, entry);
    assert(kept@ =~= seq![entry] + unmarked(list@, same@));
    kept.truncate(MAX_RECENT);
    assert(kept@ =~= upserted(list@, same@, entry));
    kept
}

/// Forgets the vault at `path`. The other entries keep their order.
pub fn forget(list: Vec<RecentVault>, path: &str) -> (r: Vec<RecentVault>)
    ensures
        exists|same: Seq<bool>| #[trigger]
            may_answer_all(list@, path@, same) && marks_fit(list@, path@, same) && r@ == unmarked(list@, same),
{
    let same = mark(&list, path);
    forget_marked(list, &same)
}

/// Puts `entry` at the head of the list.
pub fn upsert(list: Vec<RecentVault>, entry: RecentVault) -> (r: Vec<RecentVault>)
    ensures
        exists|same: Seq<bool>| #[trigger]
            may_answer_all(list@, entry.path@, same) && marks_fit(list@, entry.path@, same) && r@
                == upserted(list@, same, entry),
{
    let same = mark(&list, entry.path.as_str());
    upsert_marked(list, &same, entry)
}

/// What is kept was in the list and was not marked.
proof fn lemma_unmarked_source(list: Seq<RecentVault>, same: Seq<bool>, i: int) -> (k: int)
    requires
        same.len() >= list.len(),
        0 <= i < unmarked(list, same).len(),
    ensures
        0 <= k < list.len(),
        unmarked(list, same)[i] == list[k],
        !same[k],
    decreases list.len(),
{
    let rest = unmarked(list.drop_last(), same);
    if i < rest.len() {
        lemma_unmarked_source(list.drop_last(), same, i)
    } else {
        list.len() - 1
    }
}

/// What is not marked is kept.
proof fn lemma_unmarked_kept(list: Seq<RecentVault>, same: Seq<bool>, k: int)
    requires
        same.len() >= list.len(),
        0 <= k < list.len(),
        !same[k],
    ensures
        unmarked(list, same).contains(list[k]),
    decreases list.len(),
{
    let rest = unmarked(list.drop_last(), same);
    let all = unmarked(list, same);
    if k == list.len() - 1 {
        assert(all.last() == list[k]);
    } else {
        lemma_unmarked_kept(list.drop_last(), same, k);
        let j = choose|j: int| 0 <= j < rest.len() && rest[j] == list[k];
        assert(all[j] == list[k]);
    }
}

/// A list without marks is kept whole.
proof fn lemma_unmarked_all(list: Seq<RecentVault>, same: Seq<bool>)
    requires
        same.len() >= list.len(),
        forall|i: int| 0 <= i < list.len() ==> !#[trigger] same[i],
    ensures
        unmarked(list, same) == list,
    decreases list.len(),
{
    if list.len() > 0 {
        lemma_unmarked_all(list.drop_last(), same);
        assert(list =~= list.drop_last().push(list.last()));
    }
}

/// The first entry goes if it is marked.
proof fn lemma_unmarked_tail(list: Seq<RecentVault>, same: Seq<bool>)
    requires
        same.len() == list.len() > 0,
        same[0],
    ensures
        unmarked(list, same) == unmarked(list.skip(1), same.skip(1)),
    decreases list.len(),
{
    if list.len() == 1 {
        reveal_with_fuel(unmarked, 2);
        assert(list.drop_last() =~= seq![]);
        assert(list.skip(1) =~= seq![]);
    } else {
        let (l, s) = (list.drop_last(), same.drop_last());
        lemma_unmarked_tail(l, s);
        lemma_unmarked_prefix(l, same, s);
        lemma_unmarked_prefix(l.skip(1), same.skip(1), s.skip(1));
        assert(list.skip(1).drop_last() =~= l.skip(1));
        assert(list.skip(1).last() == list.last());
    }
}

/// Only the marks of the entries themselves matter.
proof fn lemma_unmarked_prefix(list: Seq<RecentVault>, a: Seq<bool>, b: Seq<bool>)
    requires
        a.len() >= list.len(),
        b.len() >= list.len(),
        forall|i: int| 0 <= i < list.len() ==> #[trigger] a[i] == b[i],
    ensures
        unmarked(list, a) == unmarked(list, b),
    decreases list.len(),
{
    if list.len() > 0 {
        lemma_unmarked_prefix(list.drop_last(), a, b);
    }
}

/// The list never exceeds its limit, starts with the vault just opened, and
/// has no second entry under that vault's path.
pub proof fn law_upsert_shape(list: Seq<RecentVault>, same: Seq<bool>, entry: RecentVault)
    requires
        marks_fit(list, entry.path@, same),
    ensures
        1 <= upserted(list, same, entry).len() <= MAX_RECENT,
        upserted(list, same, entry)[0] == entry,
        forall|i: int|
            1 <= i < upserted(list, same, entry).len() ==> (#[trigger] upserted(
                list,
                same,
                entry,
            )[i]).path@ != entry.path@,
{
    let up = upserted(list, same, entry);
    assert forall|i: int| 1 <= i < up.len() implies (#[trigger] up[i]).path@ != entry.path@ by {
        assert(up[i] == unmarked(list, same)[i - 1]);
        let k = lemma_unmarked_source(list, same, i - 1);
        assert(may_name_same(list[k].path@, entry.path@, same[k]));
    }
}

/// A forgotten vault is no longer listed. Of plain paths, no other vault is
/// forgotten with it.
pub proof fn law_forget_forgets(list: Seq<RecentVault>, same: Seq<bool>, path: Seq<char>)
    requires
        marks_fit(list, path, same),
    ensures
        forall|i: int|
            0 <= i < unmarked(list, same).len() ==> (#[trigger] unmarked(list, same)[i]).path@
                != path,
        forall|k: int|
            0 <= k < list.len() && plain_path(path) && plain_path((#[trigger] list[k]).path@)
                && list[k].path@ != path ==> unmarked(list, same).contains(list[k]),
{
    let kept = unmarked(list, same);
    assert forall|i: int| 0 <= i < kept.len() implies (#[trigger] kept[i]).path@ != path by {
        let k = lemma_unmarked_source(list, same, i);
        assert(may_name_same(list[k].path@, path, same[k]));
    }
    assert forall|k: int|
        0 <= k < list.len() && plain_path(path) && plain_path((#[trigger] list[k]).path@)
            && list[k].path@ != path implies kept.contains(list[k]) by {
        assert(may_name_same(list[k].path@, path, same[k]));
        lemma_unmarked_kept(list, same, k);
    }
}

/// Opening the vault at the head of the list again changes nothing but its
/// entry, as long as the system still holds the other entries for other paths.
pub proof fn law_upsert_again(
    list: Seq<RecentVault>,
    same: Seq<bool>,
    entry: RecentVault,
    again: RecentVault,
    same_again: Seq<bool>,
)
    requires
        again.path@ == entry.path@,
        marks_fit(upserted(list, same, entry), again.path@, same_again),
        forall|i: int| 1 <= i < same_again.len() ==> !#[trigger] same_again[i],
    ensures
        upserted(upserted(list, same, entry), same_again, again) == upserted(
            list,
            same,
            entry,
        ).update(0, again),
{
    let up = upserted(list, same, entry);
    assert(up[0] == entry);
    assert(may_name_same(up[0].path@, again.path@, same_again[0]));
    lemma_unmarked_tail(up, same_again);
    lemma_unmarked_all(up.skip(1), same_again.skip(1));
    assert(seq![again] + up.skip(1) =~= up.update(0, again));
}

/// The entries that are not marked are kept, in their order, and no others.
pub proof fn law_unmarked_entries_stay_in_order(list: Seq<RecentVault>, same: Seq<bool>, k: int)
    requires
        same.len() == list.len(),
        0 <= k < list.len(),
    ensures
        unmarked(list.take(0), same).len() == 0,
        same[k] ==> unmarked(list.take(k + 1), same) == unmarked(list.take(k), same),
        !same[k] ==> unmarked(list.take(k + 1), same) == unmarked(list.take(k), same).push(list[k]),
{
    assert(list.take(k + 1).drop_last() =~= list.take(k));
    assert(list.take(k + 1).last() == list[k]);
}

/// A vault that was opened comes first; the others follow as they stood, twenty
/// in all at most, the last ones left out.
pub proof fn law_upsert_keeps_the_order(
    list: Seq<RecentVault>,
    same: Seq<bool>,
    entry: RecentVault,
    i: int,
)
    requires
        0 <= i < upserted(list, same, entry).len(),
    ensures
        i == 0 ==> upserted(list, same, entry)[i] == entry,
        i > 0 ==> upserted(list, same, entry)[i] == unmarked(list, same)[i - 1],
        upserted(list, same, entry).len() == (if unmarked(list, same).len() >= 20 {
            20
        } else {
            unmarked(list, same).len() + 1
        }),
{
}

} // verus!
