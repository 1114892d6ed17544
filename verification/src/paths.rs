//! Paths and names: inside a vault, on the host, and as shown to the user.

use crate::kinds::TargetOs;
use crate::text::{chars_of, decimal, decimal_text, find_last, has_char, join2, join3, last_place, same_text, text_of, trim_end, trim_start, trimmed_end, trimmed_start};
use vstd::prelude::*;
use vstd::string::*;

verus! {

/// Whether a directory entry of that name could end up outside the directory
/// it is extracted to: the name is empty or a dot component, or holds a path
/// separator, or a `:` where that starts a drive or a data stream.
pub open spec fn escapes(name: Seq<char>, os: TargetOs) -> bool {
    ||| name.len() == 0
    ||| name == "."@
    ||| name == ".."@
    ||| name.contains('/')
    ||| name.contains('\\')
    ||| os == TargetOs::Windows && name.contains(':')
}

/// Whether joining `name` to a directory could resolve outside of it.
pub fn name_escapes_directory(name: &str, os: TargetOs) -> (b: bool)
    ensures
        b == escapes(name@, os),
{
    if name.is_empty() || same_text(name, ".") || same_text(name, "..") {
        return true;
    }
    let chars = chars_of(name);
    if has_char(&chars, '/') || has_char(&chars, '\\') {
        return true;
    }
    if os == TargetOs::Windows {
        if has_char(&chars, ':') {
            return true;
        }
    }
    false
}

/// The directory that holds `p`; the root is its own parent.
pub open spec fn parent_of(p: Seq<char>) -> Seq<char> {
    if p == "/"@ {
        p
    } else {
        match last_place(trim_end(p, '/'), '/') {
            Some(i) => if i == 0 {
                "/"@
            } else {
                trim_end(p, '/').take(i)
            },
            None => "/"@,
        }
    }
}

/// The parent of a path inside a vault.
pub fn parent_path(p: &str) -> (s: String)
    ensures
        s@ == parent_of(p@),
{
    if same_text(p, "/") {
        return p.to_owned();
    }
    let chars = chars_of(p);
    let n: usize = trimmed_end(&chars, '/');
    match find_last(&chars, 0, n, '/') {
        Some(i) => {
            if i == 0 {
                "/".to_owned()
            } else {
                let s = text_of(&chars, 0, i);
                assert(s@ =~= trim_end(p@, '/').take(i as int));
                s
            }
        },
        None => "/".to_owned(),
    }
}

/// `name` inside the directory `cwd`.
pub open spec fn joined(cwd: Seq<char>, name: Seq<char>) -> Seq<char> {
    if cwd == "/"@ {
        "/"@ + name
    } else {
        cwd + "/"@ + name
    }
}

/// The path of `name` in the directory `cwd` of a vault.
pub fn join_path(cwd: &str, name: &str) -> (s: String)
    ensures
        s@ == joined(cwd@, name@),
{
    if same_text(cwd, "/") {
        join2("/", name)
    } else {
        join3(cwd, "/", name)
    }
}

/// What a path inside a vault names: the directory, and the entry in it.
pub open spec fn split_of(p: Seq<char>) -> Option<(Seq<char>, Seq<char>)> {
    let t = trim_start(p, '/');
    if t.len() == 0 {
        None
    } else {
        match last_place(t, '/') {
            Some(i) => Some((t.take(i), t.skip(i + 1))),
            None => Some((""@, t)),
        }
    }
}

/// Splits a path into its directory and the name in it. A path of nothing but
/// slashes is refused.
pub fn split_parent_name(p: &str) -> (r: Result<(String, String), String>)
    ensures
        match split_of(p@) {
            Some((dir, name)) => r matches Ok(dn) && dn.0@ == dir && dn.1@ == name,
            None => r matches Err(e) && e@ == "empty path"@,
        },
{
    let chars = chars_of(p);
    let start: usize = trimmed_start(&chars, '/');
    let end: usize = chars.len();
    let ghost t = trim_start(p@, '/');
    if start == end {
        return Err("empty path".to_owned());
    }
    match find_last(&chars, start, end, '/') {
        Some(i) => {
            let dir = text_of(&chars, start, start + i);
            let name = text_of(&chars, start + i + 1, end);
            assert(dir@ =~= t.take(i as int));
            assert(name@ =~= t.skip(i + 1));
            Ok((dir, name))
        },
        None => {
            let name = text_of(&chars, start, end);
            Ok(("".to_owned(), name))
        },
    }
}

/// `s` cut down to `max` characters, with dots in place of its middle.
pub open spec fn shortened(s: Seq<char>, max: nat) -> Seq<char> {
    if s.len() <= max {
        s
    } else if max <= 3 {
        Seq::new(max, |i: int| '.')
    } else {
        let keep = (max - 3) as nat;
        s.take((keep - keep / 2) as int) + "..."@ + s.skip(s.len() - keep / 2)
    }
}

/// Shortens a text for display, keeping its beginning and its end.
pub fn shorten_middle(s: &str, max_chars: usize) -> (r: String)
    ensures
        r@ == shortened(s@, max_chars as nat),
{
    let chars = chars_of(s);
    let len: usize = chars.len();
    if len <= max_chars {
        return s.to_owned();
    }
    if max_chars <= 3 {
        let mut r = String::new();
        let mut i: usize = 0;
        while i < max_chars
            invariant
                i <= max_chars,
                r@ == Seq::new(i as nat, |k: int| '.'),
            decreases max_chars - i,
        {
            r.push('.');
            i = i + 1;
            assert(r@ =~= Seq::new(i as nat, |k: int| '.'));
        }
        return r;
    }
    let keep: usize = max_chars - 3;
    let tail: usize = keep / 2;
    let head: usize = keep - tail;
    let mut r = text_of(&chars, 0, head);
    r.append("...");
    r.append(text_of(&chars, len - tail, len).as_str());
    proof {
        assert(chars@.subrange(0, head as int) =~= s@.take(head as int));
        assert(chars@.subrange(len - tail, len as int) =~= s@.skip(len - tail));
    }
    r
}

/// `n / d` rounded to the nearest integer, a tie to the even one.
pub open spec fn round_even(n: nat, d: nat) -> nat {
    let q = n / d;
    let r = n % d;
    if 2 * r > d || (2 * r == d && q % 2 == 1) {
        q + 1
    } else {
        q
    }
}

fn round_to_even(n: u128, d: u128) -> (q: u128)
    requires
        0 < d <= 0x1_0000_0000_0000,
    ensures
        q == round_even(n as nat, d as nat),
{
    let q: u128 = n / d;
    let r: u128 = n % d;
    if 2 * r > d || (2 * r == d && q % 2 == 1) {
        assert(q < u128::MAX) by (nonlinear_arith)
            requires
                q == n / d,
                2 * (n % d) >= d,
                0 < d,
                n <= u128::MAX,
        ;
        q + 1
    } else {
        q
    }
}

/// The distance of neighbouring double-precision numbers around `b`.
pub open spec fn double_step(b: nat) -> nat
    decreases b,
{
    if b < 0x20_0000_0000_0000 {
        1
    } else {
        2 * double_step(b / 2)
    }
}

fn double_step_of(b: u64) -> (s: u64)
    ensures
        s == double_step(b as nat),
        1 <= s <= 0x1000,
        s <= 1 || s * 0x20_0000_0000_0000 <= 2 * b,
        b < 0x20_0000_0000_0000 ==> s == 1,
    decreases b,
{
    if b < 0x20_0000_0000_0000 {
        1
    } else {
        2 * double_step_of(b / 2)
    }
}

/// `b` as a double-precision number.
pub open spec fn nearest_double(b: nat) -> nat {
    round_even(b, double_step(b)) * double_step(b)
}

/// The unit a size is shown in: its name and how many bytes it stands for.
pub open spec fn size_unit(b: nat) -> (Seq<char>, nat) {
    if b < 0x400 {
        ("B"@, 1)
    } else if b < 0x10_0000 {
        ("KB"@, 0x400)
    } else if b < 0x4000_0000 {
        ("MB"@, 0x10_0000)
    } else if b < 0x100_0000_0000 {
        ("GB"@, 0x4000_0000)
    } else {
        ("TB"@, 0x100_0000_0000)
    }
}

/// How a size is shown: bytes as they are, larger units with one decimal of
/// the size's double-precision value.
pub open spec fn size_text(b: nat) -> Seq<char> {
    let (name, unit) = size_unit(b);
    if unit == 1 {
        decimal(b) + " B"@
    } else {
        let tenths = round_even(nearest_double(b) * 10, unit);
        decimal(tenths / 10) + "."@ + decimal(tenths % 10) + " "@ + name
    }
}

/// A file size for display.
pub fn format_size(b: u64) -> (s: String)
    ensures
        s@ == size_text(b as nat),
{
    if b < 0x400 {
        return join2(decimal_text(b).as_str(), " B");
    }
    let name: &str;
    let unit: u64;
    if b < 0x10_0000 {
        name = "KB";
        unit = 0x400;
    } else if b < 0x4000_0000 {
        name = "MB";
        unit = 0x10_0000;
    } else if b < 0x100_0000_0000 {
        name = "GB";
        unit = 0x4000_0000;
    } else {
        name = "TB";
        unit = 0x100_0000_0000;
    }
    let step: u64 = double_step_of(b);
    let steps: u128 = round_to_even(b as u128, step as u128);
    assert(steps <= b + 1) by (nonlinear_arith)
        requires
            steps <= b / step + 1,
            step >= 1,
    ;
    assert(steps * step <= 0x2_0000_0000_0000_0000) by (nonlinear_arith)
        requires
            steps <= b / step + 1,
            1 <= step <= 0x1000,
            b <= 0xffff_ffff_ffff_ffff,
    ;
    let value: u128 = steps * (step as u128);
    let tenths: u128 = round_to_even(value * 10, unit as u128);
    assert(tenths <= 0x1400_0000_0000_0001) by (nonlinear_arith)
        requires
            tenths <= (value * 10) / unit as int + 1,
            value <= 0x2_0000_0000_0000_0000,
            unit >= 0x400,
    ;
    let whole: u64 = (tenths / 10) as u64;
    let part: u64 = (tenths % 10) as u64;
    let mut s = decimal_text(whole);
    s.append(".");
    s.append(decimal_text(part).as_str());
    s.append(" ");
    s.append(name);
    s
}

pub open spec fn home_prefix(os: TargetOs) -> Seq<char> {
    match os {
        TargetOs::Windows => "C:\\Users\\you\\"@,
        TargetOs::Macos => "/Users/you/"@,
        _ => "/home/you/"@,
    }
}

pub open spec fn usb_prefix(os: TargetOs) -> Seq<char> {
    match os {
        TargetOs::Windows => "D:\\"@,
        TargetOs::Macos => "/Volumes/USB/"@,
        _ => "/media/usb/"@,
    }
}

/// An example path in the user's home, for an empty input field.
pub fn home(name: &str, os: TargetOs) -> (s: String)
    ensures
        s@ == home_prefix(os) + name@,
{
    match os {
        TargetOs::Windows => join2("C:\\Users\\you\\", name),
        TargetOs::Macos => join2("/Users/you/", name),
        _ => join2("/home/you/", name),
    }
}

/// An example path on removable storage: where the seed, the anchor and a
/// detached header belong.
pub fn usb(name: &str, os: TargetOs) -> (s: String)
    ensures
        s@ == usb_prefix(os) + name@,
{
    match os {
        TargetOs::Windows => join2("D:\\", name),
        TargetOs::Macos => join2("/Volumes/USB/", name),
        _ => join2("/media/usb/", name),
    }
}

proof fn lemma_trim_end_id(s: Seq<char>, c: char)
    requires
        s.len() == 0 || s.last() != c,
    ensures
        trim_end(s, c) == s,
{
}

proof fn lemma_last_place_after(a: Seq<char>, b: Seq<char>, c: char)
    requires
        !b.contains(c),
    ensures
        last_place(a + seq![c] + b, c) == Some(a.len() as int),
    decreases b.len(),
{
    let s = a + seq![c] + b;
    if b.len() > 0 {
        assert(s.last() == b.last());
        assert(b.contains(b.last()));
        assert(s.drop_last() =~= a + seq![c] + b.drop_last());
        assert forall|i: int| 0 <= i < b.drop_last().len() implies b.drop_last()[i] != c by {
            assert(b.contains(b[i]));
        }
        lemma_last_place_after(a, b.drop_last(), c);
    } else {
        assert(s.last() == c);
    }
}

/// Going into a directory entry and back up leads to where one was.
pub proof fn law_parent_of_joined(cwd: Seq<char>, name: Seq<char>)
    requires
        cwd.len() > 0,
        name.len() > 0,
        !name.contains('/'),
    ensures
        parent_of(joined(cwd, name)) == cwd,
{
    reveal_strlit("/");
    let p = joined(cwd, name);
    assert(name.contains(name.last()));
    assert(p.last() == name.last());
    lemma_trim_end_id(p, '/');
    assert("/"@ =~= seq!['/']);
    if cwd == "/"@ {
        assert(p =~= Seq::<char>::empty() + seq!['/'] + name);
        lemma_last_place_after(Seq::<char>::empty(), name, '/');
    } else {
        lemma_last_place_after(cwd, name, '/');
        assert(p.take(cwd.len() as int) =~= cwd);
    }
    assert(p != "/"@);
}

proof fn lemma_trim_start_prefix(a: Seq<char>, b: Seq<char>, c: char)
    requires
        b.len() > 0,
        b[0] != c,
        forall|i: int| 0 <= i < a.len() ==> a[i] == c,
    ensures
        trim_start(a + b, c) == b,
    decreases a.len(),
{
    if a.len() > 0 {
        assert((a + b).skip(1) =~= a.skip(1) + b);
        lemma_trim_start_prefix(a.skip(1), b, c);
    } else {
        assert(a + b =~= b);
    }
}

proof fn lemma_trim_start_keeps(s: Seq<char>, b: Seq<char>, c: char)
    ensures
        trim_start(s, c).len() > 0 ==> trim_start(s + b, c) == trim_start(s, c) + b,
    decreases s.len(),
{
    if s.len() > 0 && s[0] == c {
        assert((s + b).skip(1) =~= s.skip(1) + b);
        lemma_trim_start_keeps(s.skip(1), b, c);
    }
}

/// An entry added to a directory is found under its own name.
pub proof fn law_split_of_joined(cwd: Seq<char>, name: Seq<char>)
    requires
        name.len() > 0,
        !name.contains('/'),
    ensures
        split_of(joined(cwd, name)) matches Some((dir, n)) && n == name,
{
    reveal_strlit("/");
    reveal_strlit("");
    assert("/"@ =~= seq!['/']);
    assert(name.contains(name[0]));
    let sep = seq!['/'] + name;
    let p = joined(cwd, name);
    if cwd == "/"@ {
        assert(p =~= cwd + name);
        lemma_trim_start_prefix(cwd, name, '/');
        lemma_no_place(name, '/');
    } else {
        assert(p =~= cwd + sep);
        lemma_trim_start_keeps(cwd, sep, '/');
        let t = trim_start(cwd, '/');
        if t.len() > 0 {
            assert(t + sep =~= t + seq!['/'] + name);
            lemma_last_place_after(t, name, '/');
            assert((t + sep).skip(t.len() as int + 1) =~= name);
        } else {
            lemma_trim_start_all(cwd, '/');
            let slashes = cwd + seq!['/'];
            assert(p =~= slashes + name);
            lemma_trim_start_prefix(slashes, name, '/');
            lemma_no_place(name, '/');
        }
    }
}

proof fn lemma_trim_start_all(s: Seq<char>, c: char)
    requires
        trim_start(s, c).len() == 0,
    ensures
        forall|i: int| 0 <= i < s.len() ==> s[i] == c,
    decreases s.len(),
{
    if s.len() > 0 && s[0] == c {
        lemma_trim_start_all(s.skip(1), c);
        assert forall|i: int| 0 <= i < s.len() implies s[i] == c by {
            if i > 0 {
                assert(s[i] == s.skip(1)[i - 1]);
            }
        }
    }
}

proof fn lemma_no_place(s: Seq<char>, c: char)
    requires
        !s.contains(c),
    ensures
        last_place(s, c) is None,
    decreases s.len(),
{
    if s.len() > 0 {
        assert(s.contains(s.last()));
        assert forall|i: int| 0 <= i < s.drop_last().len() implies s.drop_last()[i] != c by {
            assert(s.contains(s[i]));
        }
        lemma_no_place(s.drop_last(), c);
    }
}

/// A shortened text fits; one that fits already is left as it is; and what
/// remains of a longer one is its beginning and its end.
pub proof fn law_shortened_fits(s: Seq<char>, max: nat)
    ensures
        shortened(s, max).len() <= max,
        s.len() <= max ==> shortened(s, max) == s,
        s.len() > max > 3 ==> {
            let keep = (max - 3) as nat;
            let tail = keep / 2;
            let head = keep - tail;
            let r = shortened(s, max);
            &&& r.len() == max
            &&& r.take(head as int) == s.take(head as int)
            &&& r.skip(max - tail) == s.skip(s.len() - tail)
        },
{
    reveal_strlit("...");
    if s.len() > max && max > 3 {
        let keep = (max - 3) as nat;
        let tail = keep / 2;
        let head = keep - tail;
        let r = shortened(s, max);
        assert(r.take(head as int) =~= s.take(head as int));
        assert(r.skip(max - tail) =~= s.skip(s.len() - tail));
    }
}

/// Whether a character separates the components of a host path.
pub open spec fn separates(c: char, os: TargetOs) -> bool {
    c == '/' || os == TargetOs::Windows && c == '\\'
}

/// Whether a path begins with a drive, as in `C:`.
pub open spec fn has_drive(path: Seq<char>, os: TargetOs) -> bool {
    os == TargetOs::Windows && path.len() >= 2 && path[1] == ':'
}

/// `name` joined to the host directory `dir`. A name that begins with a
/// separator or a drive replaces the directory; otherwise it comes behind it,
/// with a separator between them unless the directory ends in one, is empty or
/// is a bare drive.
pub open spec fn host_joined(dir: Seq<char>, name: Seq<char>, os: TargetOs) -> Seq<char> {
    if has_drive(name, os) || name.len() > 0 && separates(name[0], os) {
        name
    } else if dir.len() == 0 || separates(dir.last(), os) || has_drive(dir, os) && dir.len() == 2 {
        dir + name
    } else {
        dir.push(
            if os == TargetOs::Windows {
                '\\'
            } else {
                '/'
            },
        ) + name
    }
}

/// Where the last component of a host path begins: behind the last separator,
/// or else behind the drive.
pub open spec fn last_component(path: Seq<char>, os: TargetOs) -> int
    decreases path.len(),
{
    if path.len() == 0 || separates(path.last(), os) || has_drive(path, os) && path.len() == 2 {
        path.len() as int
    } else {
        last_component(path.drop_last(), os)
    }
}

/// A host path without the separators at its end.
pub open spec fn bare(path: Seq<char>, os: TargetOs) -> Seq<char>
    decreases path.len(),
{
    if path.len() > 0 && separates(path.last(), os) {
        bare(path.drop_last(), os)
    } else {
        path
    }
}

/// A host path without what a system drops from its end: separators, and dots
/// that stand for the directory itself.
pub open spec fn settled(path: Seq<char>, os: TargetOs) -> Seq<char>
    decreases path.len(),
{
    let n = path.len();
    if n > 0 && separates(path.last(), os) {
        settled(path.drop_last(), os)
    } else if n >= 2 && path.last() == '.' && separates(path[n - 2], os) {
        settled(path.take(n - 2), os)
    } else {
        path
    }
}

/// The name of the file at a host path; empty if the path names none.
pub open spec fn leaf(path: Seq<char>, os: TargetOs) -> Seq<char> {
    file_name_of(settled(path, os), os)
}

fn is_separator(c: char, os: TargetOs) -> (b: bool)
    ensures
        b == separates(c, os),
{
    c == '/' || os == TargetOs::Windows && c == '\\'
}

/// The name of the file at a host path.
pub fn leaf_name(path: &str, os: TargetOs) -> (s: String)
    ensures
        s@ == leaf(path@, os),
{
    let chars = chars_of(path);
    let mut n: usize = chars.len();
    assert(chars@.take(n as int) =~= path@);
    while n > 0 && (is_separator(chars[n - 1], os) || n >= 2 && chars[n - 1] == '.'
        && is_separator(chars[n - 2], os))
        invariant
            n <= chars@.len(),
            settled(chars@.take(n as int), os) == settled(path@, os),
        ensures
            n <= chars@.len(),
            chars@.take(n as int) == settled(path@, os),
        decreases n,
    {
        let ghost before = chars@.take(n as int);
        if is_separator(chars[n - 1], os) {
            n = n - 1;
            assert(chars@.take(n as int) =~= before.drop_last());
        } else {
            n = n - 2;
            assert(chars@.take(n as int) =~= before.take(before.len() - 2));
        }
    }
    let ghost whole = chars@.take(n as int);
    let mut i: usize = n;
    while i > 0 && !is_separator(chars[i - 1], os) && !(os == TargetOs::Windows && i == 2
        && chars[1] == ':')
        invariant
            i <= n <= chars@.len(),
            last_component(chars@.take(i as int), os) == last_component(
                chars@.take(n as int),
                os,
            ),
        ensures
            i <= n <= chars@.len(),
            i == last_component(chars@.take(n as int), os),
        decreases i,
    {
        assert(chars@.take(i as int).drop_last() =~= chars@.take(i - 1));
        i = i - 1;
    }
    let s = text_of(&chars, i, n);
    assert(s@ =~= whole.skip(i as int));
    s
}

/// The last component of a host path.
pub open spec fn file_name_of(path: Seq<char>, os: TargetOs) -> Seq<char> {
    path.skip(last_component(path, os))
}

/// The directory that holds the last component of a host path.
pub open spec fn directory_of(path: Seq<char>, os: TargetOs) -> Seq<char> {
    bare(path.take(last_component(path, os)), os)
}

/// A component in front of which the search for separators stops.
proof fn lemma_last_component(head: Seq<char>, name: Seq<char>, os: TargetOs)
    requires
        head.len() == 0 || separates(head.last(), os) || has_drive(head, os) && head.len() == 2,
        forall|i: int| 0 <= i < name.len() ==> !separates(#[trigger] name[i], os),
        !name.contains(':') || os != TargetOs::Windows,
    ensures
        last_component(head + name, os) == head.len(),
    decreases name.len(),
{
    let all = head + name;
    if name.len() == 0 {
        assert(all =~= head);
    } else {
        assert(all.last() == name.last());
        assert(!separates(name[name.len() - 1], os));
        if has_drive(all, os) && all.len() == 2 {
            if head.len() <= 1 {
                assert(name[1 - head.len()] == ':');
                assert(name.contains(':'));
            }
        }
        assert(all.drop_last() =~= head + name.drop_last());
        assert forall|i: int| 0 <= i < name.drop_last().len() implies !separates(
            #[trigger] name.drop_last()[i],
            os,
        ) by {
            assert(name.drop_last()[i] == name[i]);
        }
        if name.drop_last().contains(':') {
            let k = choose|k: int| 0 <= k < name.len() - 1 && name.drop_last()[k] == ':';
            assert(name[k] == ':');
        }
        lemma_last_component(head, name.drop_last(), os);
    }
}

/// An accepted name, joined to a directory, is a direct child of it: the name is
/// the last component, the directory is the directory it lies in, and the name
/// stands for neither the directory itself nor the one above.
pub proof fn law_accepted_name_is_a_direct_child(dir: Seq<char>, name: Seq<char>, os: TargetOs)
    requires
        !escapes(name, os),
    ensures
        file_name_of(host_joined(dir, name, os), os) == name,
        directory_of(host_joined(dir, name, os), os) == bare(dir, os),
        name.len() > 0 && name != "."@ && name != ".."@,
{
    let path = host_joined(dir, name, os);
    assert forall|i: int| 0 <= i < name.len() implies !separates(#[trigger] name[i], os) by {
        assert(name.contains(name[i]));
    }
    if has_drive(name, os) {
        assert(name.contains(name[1]));
    }
    let head = path.take(path.len() - name.len());
    assert(path =~= head + name);
    lemma_last_component(head, name, os);
    assert(path.skip(head.len() as int) =~= name);
    assert(path.take(head.len() as int) =~= head);
    if head.len() > dir.len() {
        assert(head.drop_last() =~= dir);
    } else {
        assert(head =~= dir);
    }
}

} // verus!
