//! What the application needs to know of the host: which helper programs,
//! drive letters and fonts to use.

use crate::kinds::TargetOs;
use crate::text::{join2, join3, same_text, texts};
use vstd::prelude::*;

verus! {

/// The absolute paths at which the system's file-manager helper may be found.
/// Nothing is ever looked up in the search path. `explorer` is the path of
/// `explorer.exe` in the system's root directory, where that is known.
pub open spec fn opener_list(os: TargetOs, explorer: Option<Seq<char>>) -> Seq<Seq<char>> {
    match os {
        TargetOs::Linux => seq![
            "/usr/bin/xdg-open"@,
            "/bin/xdg-open"@,
            "/usr/local/bin/xdg-open"@,
        ],
        TargetOs::Macos => seq!["/usr/bin/open"@],
        TargetOs::Windows => seq![
            match explorer {
                Some(p) => p,
                None => "C:\\Windows\\explorer.exe"@,
            },
        ],
        TargetOs::Other => seq![],
    }
}

pub fn opener_candidates(os: TargetOs, explorer: Option<&str>) -> (v: Vec<String>)
    ensures
        texts(v@) == opener_list(
            os,
            match explorer {
                Some(p) => Some(p@),
                None => None,
            },
        ),
{
    let mut v: Vec<String> = Vec::new();
    match os {
        TargetOs::Linux => {
            v.push("/usr/bin/xdg-open".to_owned());
            v.push("/bin/xdg-open".to_owned());
            v.push("/usr/local/bin/xdg-open".to_owned());
        },
        TargetOs::Macos => {
            v.push("/usr/bin/open".to_owned());
        },
        TargetOs::Windows => match explorer {
            Some(p) => {
                v.push(p.to_owned());
            },
            None => {
                v.push("C:\\Windows\\explorer.exe".to_owned());
            },
        },
        TargetOs::Other => {},
    }
    assert(texts(v@) =~= opener_list(
        os,
        match explorer {
            Some(p) => Some(p@),
            None => None,
        },
    ));
    v
}

/// The first candidate that is a file. `present` says of each whether it is.
pub fn resolved_default_app_opener(candidates: &Vec<String>, present: &Vec<bool>) -> (r: Option<
    String,
>)
    requires
        present@.len() == candidates@.len(),
    ensures
        match r {
            Some(p) => exists|i: int|
                0 <= i < candidates@.len() && #[trigger] present@[i] && p@ == candidates@[i]@
                    && forall|j: int| 0 <= j < i ==> !(#[trigger] present@[j]),
            None => forall|i: int| 0 <= i < present@.len() ==> !(#[trigger] present@[i]),
        },
{
    let mut i: usize = 0;
    while i < candidates.len()
        invariant
            i <= candidates@.len(),
            present@.len() == candidates@.len(),
            forall|j: int| 0 <= j < i ==> !(#[trigger] present@[j]),
        decreases candidates.len() - i,
    {
        if present[i] {
            let p = candidates[i].clone();
            assert(present@[i as int] && p@ == candidates@[i as int]@);
            return Some(p);
        }
        i = i + 1;
    }
    None
}

/// The letter of the drive that is tried in the `i`-th place: `Z` down to `E`.
pub open spec fn drive_letter(i: int) -> char {
    ('Z' as int - i) as char
}

/// The number of drive letters that are tried. `A` to `D` are left alone.
pub const DRIVE_LETTERS: usize = 22;

fn drive_letter_of(i: usize) -> (c: char)
    requires
        i < DRIVE_LETTERS,
    ensures
        c == drive_letter(i as int),
{
    (90u8 - i as u8) as char
}

/// The root directories that tell whether a drive letter is in use.
pub fn drive_roots() -> (v: Vec<String>)
    ensures
        v@.len() == DRIVE_LETTERS,
        forall|i: int| 0 <= i < DRIVE_LETTERS ==> (#[trigger] v@[i])@ == seq![drive_letter(i)] + ":\\"@,
{
    let mut v: Vec<String> = Vec::new();
    let mut i: usize = 0;
    while i < DRIVE_LETTERS
        invariant
            i <= DRIVE_LETTERS,
            v@.len() == i,
            forall|k: int| 0 <= k < i ==> (#[trigger] v@[k])@ == seq![drive_letter(k)] + ":\\"@,
        decreases DRIVE_LETTERS - i,
    {
        let mut s = String::new();
        s.push(drive_letter_of(i));
        assert(s@ =~= seq![drive_letter(i as int)]);
        v.push(join2(s.as_str(), ":\\"));
        i = i + 1;
    }
    v
}

/// The mountpoint for the first free drive letter, from `Z` down. `taken` says
/// of each root in [`drive_roots`] whether it exists.
pub fn find_free_windows_drive_letter(taken: &Vec<bool>) -> (r: Option<String>)
    requires
        taken@.len() == DRIVE_LETTERS,
    ensures
        match r {
            Some(p) => exists|i: int|
                0 <= i < DRIVE_LETTERS && !(#[trigger] taken@[i]) && p@ == seq![drive_letter(i)]
                    + ":"@ && forall|j: int| 0 <= j < i ==> #[trigger] taken@[j],
            None => forall|i: int| 0 <= i < DRIVE_LETTERS ==> #[trigger] taken@[i],
        },
{
    let mut i: usize = 0;
    while i < DRIVE_LETTERS
        invariant
            i <= DRIVE_LETTERS,
            taken@.len() == DRIVE_LETTERS,
            forall|j: int| 0 <= j < i ==> #[trigger] taken@[j],
        decreases DRIVE_LETTERS - i,
    {
        if !taken[i] {
            let mut s = String::new();
            s.push(drive_letter_of(i));
            assert(s@ =~= seq![drive_letter(i as int)]);
            let p = join2(s.as_str(), ":");
            assert(!taken@[i as int] && p@ == seq![drive_letter(i as int)] + ":"@);
            return Some(p);
        }
        i = i + 1;
    }
    None
}

/// A system font that can stand in for glyphs the built-in fonts lack.
pub struct Candidate {
    pub name: &'static str,
    pub path: String,
    /// The face of a font collection.
    pub index: u32,
}

/// The name and path of each candidate font, in the order they are tried.
/// `fonts_dir` is the font directory of a Windows system.
pub open spec fn font_list(os: TargetOs, fonts_dir: Seq<char>) -> Seq<(Seq<char>, Seq<char>)> {
    match os {
        TargetOs::Windows => seq![
            ("sys-cjk"@, fonts_dir + "\\"@ + "msyh.ttc"@),
            ("sys-hangul"@, fonts_dir + "\\"@ + "malgun.ttf"@),
        ],
        TargetOs::Macos => seq![
            ("sys-cjk"@, "/System/Library/Fonts/PingFang.ttc"@),
            ("sys-kana"@, "/System/Library/Fonts/ヒラギノ角ゴシック W3.ttc"@),
            ("sys-hangul"@, "/System/Library/Fonts/AppleSDGothicNeo.ttc"@),
        ],
        _ => seq![
            ("sys-cjk"@, "/usr/share/fonts/opentype/noto/NotoSansCJK-Regular.ttc"@),
            ("sys-cjk"@, "/usr/share/fonts/noto-cjk/NotoSansCJK-Regular.ttc"@),
            ("sys-cjk"@, "/usr/share/fonts/google-noto-sans-cjk-vf-fonts/NotoSansCJK-VF.ttc"@),
            ("sys-cjk"@, "/usr/share/fonts/google-noto-cjk/NotoSansCJK-Regular.ttc"@),
            ("sys-cjk"@, "/usr/share/fonts/truetype/NotoSansCJK-Regular.ttc"@),
            ("sys-cjk"@, "/usr/share/fonts/truetype/wqy/wqy-zenhei.ttc"@),
        ],
    }
}

fn candidate(name: &'static str, path: String) -> (c: Candidate)
    ensures
        c.name@ == name@,
        c.path == path,
        c.index == 0,
{
    Candidate { name, path, index: 0 }
}

/// The fonts to look for on this system.
pub fn candidates(os: TargetOs, fonts_dir: &str) -> (v: Vec<Candidate>)
    ensures
        v@.len() == font_list(os, fonts_dir@).len(),
        forall|i: int|
            0 <= i < v@.len() ==> {
                &&& (#[trigger] v@[i]).name@ == font_list(os, fonts_dir@)[i].0
                &&& v@[i].path@ == font_list(os, fonts_dir@)[i].1
                &&& v@[i].index == 0
            },
{
    let mut v: Vec<Candidate> = Vec::new();
    match os {
        TargetOs::Windows => {
            v.push(candidate("sys-cjk", join3(fonts_dir, "\\", "msyh.ttc")));
            v.push(candidate("sys-hangul", join3(fonts_dir, "\\", "malgun.ttf")));
        },
        TargetOs::Macos => {
            v.push(candidate("sys-cjk", "/System/Library/Fonts/PingFang.ttc".to_owned()));
            v.push(
                candidate("sys-kana", "/System/Library/Fonts/ヒラギノ角ゴシック W3.ttc".to_owned()),
            );
            v.push(candidate("sys-hangul", "/System/Library/Fonts/AppleSDGothicNeo.ttc".to_owned()));
        },
        _ => {
            v.push(
                candidate(
                    "sys-cjk",
                    "/usr/share/fonts/opentype/noto/NotoSansCJK-Regular.ttc".to_owned(),
                ),
            );
            v.push(
                candidate(
                    "sys-cjk",
                    "/usr/share/fonts/noto-cjk/NotoSansCJK-Regular.ttc".to_owned(),
                ),
            );
            v.push(
                candidate(
                    "sys-cjk",
                    "/usr/share/fonts/google-noto-sans-cjk-vf-fonts/NotoSansCJK-VF.ttc".to_owned(),
                ),
            );
            v.push(
                candidate(
                    "sys-cjk",
                    "/usr/share/fonts/google-noto-cjk/NotoSansCJK-Regular.ttc".to_owned(),
                ),
            );
            v.push(
                candidate(
                    "sys-cjk",
                    "/usr/share/fonts/truetype/NotoSansCJK-Regular.ttc".to_owned(),
                ),
            );
            v.push(
                candidate("sys-cjk", "/usr/share/fonts/truetype/wqy/wqy-zenhei.ttc".to_owned()),
            );
        },
    }
    v
}

/// The first four bytes of the font formats that can be parsed: TrueType,
/// `OTTO`, `ttcf` and `true`.
pub open spec fn font_magic(b: Seq<u8>) -> bool {
    ||| b == seq![0u8, 1u8, 0u8, 0u8]
    ||| b == seq![0x4fu8, 0x54u8, 0x54u8, 0x4fu8]
    ||| b == seq![0x74u8, 0x74u8, 0x63u8, 0x66u8]
    ||| b == seq![0x74u8, 0x72u8, 0x75u8, 0x65u8]
}

/// Whether a file starts like a font. The text renderer panics on anything
/// else, so nothing else is handed to it.
pub fn looks_like_font(bytes: &[u8]) -> (b: bool)
    ensures
        b == (bytes@.len() >= 4 && font_magic(bytes@.take(4))),
{
    if bytes.len() < 4 {
        return false;
    }
    let (a, b, c, d): (u8, u8, u8, u8) = (bytes[0], bytes[1], bytes[2], bytes[3]);
    let r = (a == 0 && b == 1 && c == 0 && d == 0) || (a == 0x4f && b == 0x54 && c == 0x54 && d
        == 0x4f) || (a == 0x74 && b == 0x74 && c == 0x63 && d == 0x66) || (a == 0x74 && b == 0x72
        && c == 0x75 && d == 0x65);
    proof {
        let t = bytes@.take(4);
        assert(t =~= seq![a, b, c, d]);
        let m1 = seq![0u8, 1u8, 0u8, 0u8];
        let m2 = seq![0x4fu8, 0x54u8, 0x54u8, 0x4fu8];
        let m3 = seq![0x74u8, 0x74u8, 0x63u8, 0x66u8];
        let m4 = seq![0x74u8, 0x72u8, 0x75u8, 0x65u8];
        if r {
            assert(t =~= m1 || t =~= m2 || t =~= m3 || t =~= m4);
        } else {
            assert(t[0] == a && t[1] == b && t[2] == c && t[3] == d);
            assert(t == m1 ==> t[0] == m1[0] && t[1] == m1[1] && t[2] == m1[2] && t[3] == m1[3]);
            assert(t == m2 ==> t[0] == m2[0] && t[1] == m2[1] && t[2] == m2[2] && t[3] == m2[3]);
            assert(t == m3 ==> t[0] == m3[0] && t[1] == m3[1] && t[2] == m3[2] && t[3] == m3[3]);
            assert(t == m4 ==> t[0] == m4[0] && t[1] == m4[1] && t[2] == m4[2] && t[3] == m4[3]);
        }
    }
    r
}

/// Whether the candidate at `i` is still to be read: a font of the same name
/// that loaded earlier makes it superfluous. `installed` holds one flag for
/// each candidate before `i`.
pub fn wants_font(cands: &Vec<Candidate>, installed: &Vec<bool>, i: usize) -> (b: bool)
    requires
        i < cands@.len(),
        installed@.len() == i,
    ensures
        b == !exists|j: int|
            0 <= j < i && #[trigger] installed@[j] && cands@[j].name@ == cands@[i as int].name@,
{
    let mut j: usize = 0;
    while j < i
        invariant
            j <= i < cands@.len(),
            installed@.len() == i,
            forall|k: int|
                0 <= k < j ==> !(#[trigger] installed@[k] && cands@[k].name@
                    == cands@[i as int].name@),
        decreases i - j,
    {
        if installed[j] && same_text(cands[j].name, cands[i].name) {
            assert(installed@[j as int]);
            return false;
        }
        j = j + 1;
    }
    true
}

/// The helper that opens a file manager is one of the fixed absolute paths, or
/// there is none.
pub proof fn law_opener_is_on_the_list(os: TargetOs, explorer: Option<Seq<char>>, i: int)
    requires
        0 <= i < opener_list(os, explorer).len(),
        os != TargetOs::Windows,
    ensures
        opener_list(os, explorer)[i].len() > 0,
        opener_list(os, explorer)[i][0] == '/',
{
    reveal_strlit("/usr/bin/xdg-open");
    reveal_strlit("/bin/xdg-open");
    reveal_strlit("/usr/local/bin/xdg-open");
    reveal_strlit("/usr/bin/open");
}

/// The drive letters go down from `Z` to `E`, each followed by the one before it
/// in the alphabet.
pub proof fn law_drive_letters_go_down(i: int)
    requires
        0 <= i < DRIVE_LETTERS,
    ensures
        drive_letter(0) == 'Z',
        drive_letter(DRIVE_LETTERS - 1) == 'E',
        'E' <= drive_letter(i) <= 'Z',
        i > 0 ==> drive_letter(i) as int == drive_letter(i - 1) as int - 1,
{
}

/// Whether four bytes spell a word.
pub open spec fn spells(b: Seq<u8>, word: Seq<char>) -> bool {
    b.len() == 4 && word.len() == 4 && forall|i: int|
        0 <= i < 4 ==> #[trigger] b[i] as int == word[i] as int
}

/// A font begins with the version number 1.0, or with one of the words that name
/// the other formats.
pub proof fn law_fonts_begin_with_their_format(b: Seq<u8>)
    ensures
        font_magic(b) <==> {
            ||| b.len() == 4 && b[0] == 0 && b[1] == 1 && b[2] == 0 && b[3] == 0
            ||| spells(b, "OTTO"@)
            ||| spells(b, "ttcf"@)
            ||| spells(b, "true"@)
        },
{
    reveal_strlit("OTTO");
    reveal_strlit("ttcf");
    reveal_strlit("true");
    if b.len() == 4 {
        let m1 = seq![0u8, 1u8, 0u8, 0u8];
        let m2 = seq![0x4fu8, 0x54u8, 0x54u8, 0x4fu8];
        let m3 = seq![0x74u8, 0x74u8, 0x63u8, 0x66u8];
        let m4 = seq![0x74u8, 0x72u8, 0x75u8, 0x65u8];
        assert(b[0] == b[0] && b[1] == b[1] && b[2] == b[2] && b[3] == b[3]);
        assert(b == m1 <==> b[0] == 0 && b[1] == 1 && b[2] == 0 && b[3] == 0) by {
            if b[0] == 0 && b[1] == 1 && b[2] == 0 && b[3] == 0 {
                assert(b =~= m1);
            }
        }
        assert(b == m2 <==> spells(b, "OTTO"@)) by {
            if spells(b, "OTTO"@) {
                assert(b[0] as int == 'O' as int && b[1] as int == 'T' as int && b[2] as int
                    == 'T' as int && b[3] as int == 'O' as int);
                assert(b =~= m2);
            }
        }
        assert(b == m3 <==> spells(b, "ttcf"@)) by {
            if spells(b, "ttcf"@) {
                assert(b[0] as int == 't' as int && b[1] as int == 't' as int && b[2] as int
                    == 'c' as int && b[3] as int == 'f' as int);
                assert(b =~= m3);
            }
        }
        assert(b == m4 <==> spells(b, "true"@)) by {
            if spells(b, "true"@) {
                assert(b[0] as int == 't' as int && b[1] as int == 'r' as int && b[2] as int
                    == 'u' as int && b[3] as int == 'e' as int);
                assert(b =~= m4);
            }
        }
    }
}

} // verus!
