//! What holds of paths, names and sizes.

use crate::kinds::TargetOs;
use crate::paths::{
    double_step, escapes, host_joined, joined, law_accepted_name_is_a_direct_child, leaf,
    nearest_double, parent_of, round_even, separates, settled, shortened, size_text, size_unit,
    split_of,
};
use crate::text::{decimal, last_place, trim_end, trim_start};
use crate::text_laws::{law_last_place_is_last, law_trim_end_takes_the_tail, law_trim_start_takes_the_head};
use vstd::prelude::*;

verus! {

/// A name is accepted exactly if it is not empty, is not one or two dots, and
/// holds neither a slash nor a backslash, nor a colon under Windows.
pub proof fn law_accepted_names(name: Seq<char>, os: TargetOs)
    ensures
        !escapes(name, os) <==> {
            &&& name.len() > 0
            &&& !(name.len() == 1 && name[0] == '.')
            &&& !(name.len() == 2 && name[0] == '.' && name[1] == '.')
            &&& forall|i: int|
                0 <= i < name.len() ==> #[trigger] name[i] != '/' && name[i] != '\\' && (name[i]
                    == ':' ==> os != TargetOs::Windows)
        },
{
    reveal_strlit(".");
    reveal_strlit("..");
    if name.len() == 1 && name[0] == '.' {
        assert(name =~= "."@);
    }
    if name.len() == 2 && name[0] == '.' && name[1] == '.' {
        assert(name =~= ".."@);
    }
    assert(name.contains('/') <==> exists|i: int| 0 <= i < name.len() && #[trigger] name[i] == '/');
    assert(name.contains('\\') <==> exists|i: int|
        0 <= i < name.len() && #[trigger] name[i] == '\\');
    assert(name.contains(':') <==> exists|i: int| 0 <= i < name.len() && #[trigger] name[i] == ':');
}

/// A slash at the end of a path does not change its parent, and what lies in no
/// directory lies in the root.
pub proof fn law_parent_of_a_plain_name(p: Seq<char>)
    ensures
        parent_of(p.push('/')) == parent_of(p),
        !p.contains('/') ==> parent_of(p) == seq!['/'],
        parent_of(seq!['/']) == seq!['/'],
{
    reveal_strlit("/");
    assert("/"@ =~= seq!['/']);
    assert(p.push('/').drop_last() =~= p);
    assert(trim_end(p.push('/'), '/') == trim_end(p, '/'));
    if p.len() == 0 {
        assert(p.push('/') =~= seq!['/']);
    } else {
        assert(p.push('/').len() != 1);
    }
    if p == "/"@ {
        assert(p.drop_last() =~= Seq::<char>::empty());
        assert(trim_end(p.drop_last(), '/') =~= Seq::<char>::empty());
        assert(last_place(trim_end(p, '/'), '/') is None);
        assert(p.contains(p[0]));
    }
    if !p.contains('/') {
        let t = trim_end(p, '/');
        law_trim_end_takes_the_tail(p, '/');
        law_last_place_is_last(t, '/');
        if let Some(i) = last_place(t, '/') {
            assert(p[i] == t[i]);
            assert(p.contains(p[i]));
        }
    }
}

/// An entry of the root is one slash and its name; of any other directory, the
/// directory, one slash and its name.
pub proof fn law_joined_path(cwd: Seq<char>, name: Seq<char>)
    ensures
        joined(seq!['/'], name) == seq!['/'] + name,
        cwd != seq!['/'] ==> joined(cwd, name) == cwd + seq!['/'] + name,
{
    reveal_strlit("/");
    assert("/"@ =~= seq!['/']);
}

/// Whether a path is `k` slashes, and then `dir` and `name` with a slash between
/// them, or `name` alone.
pub open spec fn is_split(p: Seq<char>, k: int, dir: Seq<char>, name: Seq<char>) -> bool {
    &&& 0 <= k < p.len()
    &&& forall|i: int| 0 <= i < k ==> #[trigger] p[i] == '/'
    &&& p[k] != '/'
    &&& if dir.len() == 0 {
        p.skip(k) == name
    } else {
        p.skip(k) == dir + seq!['/'] + name
    }
}

/// A path is split at its last slash, slashes in front left aside; only a path
/// of nothing but slashes has no parts.
pub proof fn law_path_is_split_at_its_last_slash(p: Seq<char>)
    ensures
        split_of(p) matches Some(parts) ==> !parts.1.contains('/') && exists|k: int| #[trigger]
            is_split(p, k, parts.0, parts.1),
        split_of(p) is None ==> forall|i: int| 0 <= i < p.len() ==> #[trigger] p[i] == '/',
{
    reveal_strlit("");
    let t = trim_start(p, '/');
    law_trim_start_takes_the_head(p, '/');
    if t.len() > 0 {
        let k = p.len() - t.len();
        law_last_place_is_last(t, '/');
        assert(p[k] == t[0]);
        match last_place(t, '/') {
            Some(i) => {
                let dir = t.take(i);
                let name = t.skip(i + 1);
                assert(i > 0);
                assert(t =~= dir + seq!['/'] + name);
                assert forall|j: int| 0 <= j < name.len() implies #[trigger] name[j] != '/' by {
                    assert(name[j] == t[i + 1 + j]);
                }
                assert(!name.contains('/'));
                assert(p.skip(k) == t);
                let parts = split_of(p)->0;
                assert(parts.0 == dir && parts.1 == name);
                assert(is_split(p, k, parts.0, parts.1));
            },
            None => {
                assert(!t.contains('/'));
                assert(p.skip(k) == t);
                let parts = split_of(p)->0;
                assert(parts.0 == ""@ && parts.1 == t);
                assert(is_split(p, k, parts.0, parts.1));
            },
        }
    } else {
        assert forall|i: int| 0 <= i < p.len() implies #[trigger] p[i] == '/' by {
            assert(i < p.len() - t.len());
        }
        assert(split_of(p) is None);
    }
}

/// Where a text was shortened three dots stand, the rest of it is divided evenly
/// between the beginning and the end, and where there is no room for more only
/// dots are left.
pub proof fn law_shortened_shows_the_gap(s: Seq<char>, max: nat, i: int)
    requires
        s.len() > max,
        0 <= i < max,
    ensures
        shortened(s, max).len() == max,
        max <= 3 ==> shortened(s, max)[i] == '.',
        max > 3 ==> {
            let head = (max - 3 + 1) / 2;
            let r = shortened(s, max);
            &&& i < head ==> r[i] == s[i]
            &&& head <= i < head + 3 ==> r[i] == '.'
            &&& i >= head + 3 ==> r[i] == s[s.len() - max + i]
        },
{
    reveal_strlit("...");
}

/// A quotient is rounded to the nearest integer, and where two are equally near
/// to the even one.
pub proof fn law_rounding_is_to_the_nearest(n: nat, d: nat)
    requires
        d > 0,
    ensures
        ({
            let q = round_even(n, d);
            &&& 2 * (q * d - n) <= d
            &&& 2 * (n - q * d) <= d
            &&& 2 * (q * d - n) == d || 2 * (n - q * d) == d ==> q % 2 == 0
        }),
{
    let q = n / d;
    let r = n % d;
    assert(n == q * d + r && 0 <= r < d) by (nonlinear_arith)
        requires
            d > 0,
            q == n / d,
            r == n % d,
    ;
    assert((q + 1) * d == q * d + d) by (nonlinear_arith);
}

/// The distance of double-precision numbers is one as long as 53 bits hold the
/// number, and doubles whenever that does.
pub proof fn law_double_steps(b: nat)
    ensures
        b < 0x20_0000_0000_0000 ==> double_step(b) == 1,
        b >= 0x20_0000_0000_0000 ==> double_step(b) == 2 * double_step(b / 2),
        b < 0x20_0000_0000_0000 ==> nearest_double(b) == b,
{
    if b < 0x20_0000_0000_0000 {
        assert(b / 1 == b && b % 1 == 0);
        assert(round_even(b, 1) == b);
        assert(b * 1 == b);
    }
}

/// What the unit at a place in the row of units is called.
pub open spec fn unit_name(k: int) -> Seq<char> {
    if k == 0 {
        "B"@
    } else if k == 1 {
        "KB"@
    } else if k == 2 {
        "MB"@
    } else if k == 3 {
        "GB"@
    } else {
        "TB"@
    }
}

/// How many bytes the unit at a place stands for: 1024 of the one before.
pub open spec fn unit_size(k: int) -> nat
    decreases k,
{
    if k <= 0 {
        1
    } else {
        1024 * unit_size(k - 1)
    }
}

/// A size is shown in the largest unit of which it holds at least one, up to
/// terabytes; bytes exactly, larger units to the nearest tenth.
pub proof fn law_size_is_shown_to_the_nearest_tenth(b: nat) -> (k: int)
    ensures
        0 <= k <= 4,
        k > 0 ==> b >= unit_size(k),
        k < 4 ==> b < unit_size(k + 1),
        size_unit(b) == (unit_name(k), unit_size(k)),
        k == 0 ==> size_text(b) == decimal(b) + seq![' ', 'B'],
        k > 0 ==> exists|tenths: nat| #[trigger] shows_tenths(b, k, tenths),
{
    reveal_with_fuel(unit_size, 6);
    reveal_strlit(" B");
    assert(" B"@ =~= seq![' ', 'B']);
    let k: int = if b < 0x400 {
        0
    } else if b < 0x10_0000 {
        1
    } else if b < 0x4000_0000 {
        2
    } else if b < 0x100_0000_0000 {
        3
    } else {
        4
    };
    if k > 0 {
        let tenths = round_even(nearest_double(b) * 10, unit_size(k));
        law_rounding_is_to_the_nearest(nearest_double(b) * 10, unit_size(k));
        assert(shows_tenths(b, k, tenths));
    }
    k
}

/// Whether a size is shown as so many tenths of a unit, and they are those
/// nearest to its double-precision value.
pub open spec fn shows_tenths(b: nat, k: int, tenths: nat) -> bool {
    &&& size_text(b) == decimal(tenths / 10) + "."@ + decimal(tenths % 10) + " "@ + unit_name(k)
    &&& 2 * (tenths * unit_size(k) - nearest_double(b) * 10) <= unit_size(k)
    &&& 2 * (nearest_double(b) * 10 - tenths * unit_size(k)) <= unit_size(k)
}

/// The name of the file at a path is the name of the child that the path was made
/// of, whatever separators and dots for the directory itself follow.
pub proof fn law_leaf_is_the_name_of_the_child(
    dir: Seq<char>,
    name: Seq<char>,
    os: TargetOs,
    path: Seq<char>,
)
    requires
        !escapes(name, os),
    ensures
        leaf(host_joined(dir, name, os), os) == name,
        leaf(path.push('/'), os) == leaf(path, os),
        leaf(path.push('/').push('.'), os) == leaf(path, os),
        os == TargetOs::Windows ==> leaf(path.push('\\'), os) == leaf(path, os),
        path.len() > 0 && os != TargetOs::Windows && !path.contains('/') ==> leaf(path, os) == path,
{
    let whole = host_joined(dir, name, os);
    law_accepted_name_is_a_direct_child(dir, name, os);
    law_accepted_names(name, os);
    let n = whole.len();
    assert(whole.last() == name.last());
    assert(!separates(name[name.len() - 1], os));
    if name.len() >= 2 {
        assert(whole[n - 2] == name[name.len() - 2]);
        assert(!separates(name[name.len() - 2], os));
    } else {
        assert(whole.last() != '.');
    }
    assert(settled(whole, os) == whole);
    let a = path.push('/');
    assert(a.drop_last() =~= path);
    let b = a.push('.');
    assert(b.take(b.len() - 2) =~= path);
    let c = path.push('\\');
    assert(c.drop_last() =~= path);
    if path.len() > 0 && os != TargetOs::Windows && !path.contains('/') {
        lemma_plain_leaf(path, os);
        assert(path.contains(path[path.len() - 1]));
        if path.len() >= 2 {
            assert(path.contains(path[path.len() - 2]));
        }
        assert(path.skip(0) =~= path);
    }
}

proof fn lemma_plain_leaf(path: Seq<char>, os: TargetOs)
    requires
        os != TargetOs::Windows,
        !path.contains('/'),
    ensures
        crate::paths::last_component(path, os) == 0,
    decreases path.len(),
{
    if path.len() > 0 {
        assert(path.contains(path[path.len() - 1]));
        let head = path.drop_last();
        assert forall|i: int| 0 <= i < head.len() implies #[trigger] head[i] != '/' by {
            assert(path.contains(path[i]));
        }
        lemma_plain_leaf(head, os);
    }
}

} // verus!
