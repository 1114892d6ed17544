//! Destroying a vault beyond recovery.

use crate::recent::{may_answer, may_name_same, same_path};
use crate::script::{Act, LineView, Script, act_of, straight, step, writes_file};
use crate::text::join3;
use vstd::prelude::*;
use vstd::string::*;

verus! {

/// The file that holds the header.
pub open spec fn header_target(vault: Seq<char>, header: Option<Seq<char>>) -> Seq<char> {
    match header {
        Some(h) => h,
        None => vault,
    }
}

/// The lines that destroy a vault. `same` is whether the header is in the same
/// file as the data.
pub open spec fn destroy_lines(
    vault: Seq<char>,
    header: Option<Seq<char>>,
    same: bool,
    wipe_data: bool,
) -> Seq<LineView> {
    let target = header_target(vault, header);
    let first = seq![
        step(
            Act::OpenHeaderTarget,
            "refusing to open "@ + target + " for destructive overwrite: "@,
        ),
    ];
    let second = if wipe_data && !same {
        seq![step(Act::OpenDataTarget, "refusing to open "@ + vault + " for data wipe: "@)]
    } else {
        seq![]
    };
    let third = seq![step(Act::ScrambleHeader, ""@)];
    let fourth = if wipe_data {
        seq![step(Act::ScrambleData { separate: !same }, ""@)]
    } else {
        seq![]
    };
    first + second + third + fourth
}

/// An optional text as its characters.
pub open spec fn text_opt(t: Option<&str>) -> Option<Seq<char>> {
    match t {
        Some(s) => Some(s@),
        None => None,
    }
}

/// Destroys a vault of which it is known whether its header is in the same file
/// as its data.
pub fn destroy_known(vault: &str, header: Option<&str>, same: bool, wipe_data: bool) -> (s: Script)
    ensures
        s@ == destroy_lines(vault@, text_opt(header), same, wipe_data),
{
    let target = match header {
        Some(h) => h,
        None => vault,
    };
    let lead = join3("refusing to open ", target, " for destructive overwrite: ");
    let mut s = Script::new().step(Act::OpenHeaderTarget, lead.as_str());
    if wipe_data && !same {
        let lead = join3("refusing to open ", vault, " for data wipe: ");
        s = s.step(Act::OpenDataTarget, lead.as_str());
    }
    s = s.step(Act::ScrambleHeader, "");
    if wipe_data {
        s = s.step(Act::ScrambleData { separate: !same }, "");
    }
    assert(s@ =~= destroy_lines(vault@, text_opt(header), same, wipe_data));
    s
}

/// Overwrites the header, which makes the data unreadable, and the data too if
/// asked to. Both files are opened, links refused, before either is touched.
pub fn panic_destroy(vault: &str, header: Option<&str>, wipe_data: bool) -> (s: Script)
    ensures
        header is None ==> s@ == destroy_lines(vault@, None, true, wipe_data),
        exists|same: bool| #[trigger]
            may_answer(header_target(vault@, text_opt(header)), vault@, same) && may_name_same(
                header_target(vault@, text_opt(header)),
                vault@,
                same,
            ) && s@ == destroy_lines(vault@, text_opt(header), same, wipe_data),
{
    let target = match header {
        Some(h) => h,
        None => vault,
    };
    let same = same_path(target, vault);
    destroy_known(vault, header, same, wipe_data)
}

/// Nothing is overwritten before every file that will be has been opened: a
/// file that cannot be opened leaves the vault as it is.
pub proof fn law_destroy_opens_first(
    vault: Seq<char>,
    header: Option<Seq<char>>,
    same: bool,
    wipe_data: bool,
    i: int,
    j: int,
)
    requires
        0 <= i < j < destroy_lines(vault, header, same, wipe_data).len(),
        writes_file(act_of(destroy_lines(vault, header, same, wipe_data)[i])),
    ensures
        straight(destroy_lines(vault, header, same, wipe_data)),
        writes_file(act_of(destroy_lines(vault, header, same, wipe_data)[j])),
{
}

/// Destroying a vault overwrites its header, always, and then its data, exactly
/// if asked to; the data is reached through a file of its own exactly if it is
/// not where the header is. Nothing else is done, and nothing twice.
pub proof fn law_destroy_overwrites_what_was_asked(
    vault: Seq<char>,
    header: Option<Seq<char>>,
    same: bool,
    wipe_data: bool,
)
    ensures
        ({
            let lines = destroy_lines(vault, header, same, wipe_data);
            let acts = lines.map_values(|l: LineView| act_of(l));
            &&& straight(lines)
            &&& !wipe_data ==> acts == seq![Act::OpenHeaderTarget, Act::ScrambleHeader]
            &&& wipe_data && same ==> acts == seq![
                Act::OpenHeaderTarget,
                Act::ScrambleHeader,
                Act::ScrambleData { separate: false },
            ]
            &&& wipe_data && !same ==> acts == seq![
                Act::OpenHeaderTarget,
                Act::OpenDataTarget,
                Act::ScrambleHeader,
                Act::ScrambleData { separate: true },
            ]
        }),
{
    let lines = destroy_lines(vault, header, same, wipe_data);
    let acts = lines.map_values(|l: LineView| act_of(l));
    if !wipe_data {
        assert(acts =~= seq![Act::OpenHeaderTarget, Act::ScrambleHeader]);
    } else if same {
        assert(acts =~= seq![
            Act::OpenHeaderTarget,
            Act::ScrambleHeader,
            Act::ScrambleData { separate: false },
        ]);
    } else {
        assert(acts =~= seq![
            Act::OpenHeaderTarget,
            Act::OpenDataTarget,
            Act::ScrambleHeader,
            Act::ScrambleData { separate: true },
        ]);
    }
}

/// How many bytes are overwritten at a time.
pub const WIPE_CHUNK: u64 = 0x10_0000;

/// The overwriting of a file of known length.
pub struct Wipe {
    pub len: u64,
    pub written: u64,
}

impl Wipe {
    pub open spec fn wf(self) -> bool {
        self.written <= self.len
    }

    pub fn new(len: u64) -> (w: Wipe)
        ensures
            w.len == len,
            w.written == 0,
            w.wf(),
    {
        Wipe { len, written: 0 }
    }

    /// How many bytes to write next, if the file is not yet overwritten.
    pub fn next_chunk(&mut self) -> (r: Option<u64>)
        requires
            old(self).wf(),
        ensures
            final(self).wf(),
            final(self).len == old(self).len,
            match r {
                Some(n) => {
                    &&& old(self).written < old(self).len
                    &&& n == if old(self).len - old(self).written < WIPE_CHUNK {
                        old(self).len - old(self).written
                    } else {
                        WIPE_CHUNK as int
                    }
                    &&& final(self).written == old(self).written + n
                },
                None => old(self).written == old(self).len && *final(self) == *old(self),
            },
    {
        if self.written >= self.len {
            return None;
        }
        let left: u64 = self.len - self.written;
        let n: u64 = if left < WIPE_CHUNK {
            left
        } else {
            WIPE_CHUNK
        };
        self.written = self.written + n;
        Some(n)
    }
}

/// How much of a file of length `len` is overwritten after `k` chunks.
pub open spec fn wiped(len: nat, k: nat) -> nat
    decreases k,
{
    if k == 0 {
        0
    } else {
        let w = wiped(len, (k - 1) as nat);
        if len - w < WIPE_CHUNK {
            len
        } else {
            w + WIPE_CHUNK as nat
        }
    }
}

/// The chunks cover the whole file, and nothing behind it.
pub proof fn law_wipe_covers_the_file(len: nat, k: nat)
    ensures
        wiped(len, k) == if k * WIPE_CHUNK < len {
            (k * WIPE_CHUNK) as nat
        } else {
            len
        },
    decreases k,
{
    if k > 0 {
        law_wipe_covers_the_file(len, (k - 1) as nat);
        assert((k - 1) * WIPE_CHUNK + WIPE_CHUNK == k * WIPE_CHUNK) by (nonlinear_arith);
    } else {
        assert(0 * WIPE_CHUNK == 0) by (nonlinear_arith);
    }
}

} // verus!
