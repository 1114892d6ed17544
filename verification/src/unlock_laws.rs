//! What holds of every unlock.

use crate::devices::conventions;
use crate::kinds::Platform;
use crate::requests::{UnlockOpts, filled};
use crate::script::{Act, Goto, LineView, OnFailView, OutcomeView, SecretRef, Stage, UnlockFactors, act_of, advance, error_of, settle, step, writes_file};
use crate::sidecar::{HybridEntry, entry_for};
use crate::slots::SlotFacts;
use crate::unlock::{Findings, Phase, no_chip_lead, phase_after, unlock_lines};
use crate::unlock_deniable::{completion_lines, deniable_entries_lines, deniable_finish_lines, unseal_lines};
use crate::unlock_search::{Quest, block, candidate, entry_of, entry_tries, lemma_entry_tries_len, lemma_tries_len, opens_of, quest_lines, sought, tries};
use crate::unlock_sep::{hmac_tries, in_scope, sep_block, sep_body, sep_common_lines, sep_factors, sep_sought};
use vstd::prelude::*;

verus! {

/// Acts whose success means that the container is open.
pub open spec fn opens(act: Act) -> bool {
    act is OpenWith || act is CompleteOpen
}

/// Whether a line ends the script only by opening the container, jumps only
/// forward and at most to `bound`, undoes nothing and changes no file.
pub open spec fn line_ok(line: LineView, k: int, bound: int) -> bool {
    match line {
        LineView::Do { act, lead, ok, fail } => {
            &&& !writes_file(act)
            &&& match ok {
                Goto::Next => true,
                Goto::At(to) => k < to <= bound,
                Goto::End => opens(act),
            }
            &&& match fail {
                OnFailView::Abort { undo } => undo.len() == 0,
                OnFailView::Skip { to } => k < to <= bound,
                OnFailView::Instead { text, to } => k < to <= bound,
                OnFailView::AbortUnlessOpaque => true,
            }
        },
        _ => true,
    }
}

/// Lines that may be followed by more.
pub open spec fn open_ended(lines: Seq<LineView>) -> bool {
    forall|k: int| 0 <= k < lines.len() ==> line_ok(#[trigger] lines[k], k, lines.len() as int)
}

/// A script that can only be finished by opening the container.
pub open spec fn conclusive(lines: Seq<LineView>) -> bool {
    &&& lines.len() > 0
    &&& forall|k: int|
        0 <= k < lines.len() ==> line_ok(#[trigger] lines[k], k, lines.len() - 1)
    &&& match lines.last() {
        LineView::Do { act, ok, fail, .. } => opens(act) && ok == Goto::Next && fail is Abort,
        LineView::Note { .. } => false,
        _ => true,
    }
}

proof fn lemma_settle_unfinished(lines: Seq<LineView>, pc: int, noted: Option<Seq<char>>)
    requires
        conclusive(lines),
        0 <= pc < lines.len(),
    ensures
        settle(lines, pc, noted) !is Finished,
    decreases lines.len() - pc,
{
    if let LineView::Note { text } = lines[pc] {
        assert(lines[pc] != lines.last());
        lemma_settle_unfinished(lines, pc + 1, Some(text));
    }
}

/// A conclusive script that is finished was finished by an act that opened the
/// container.
pub proof fn law_finished_means_opened(
    lines: Seq<LineView>,
    pc: int,
    noted: Option<Seq<char>>,
    outcome: OutcomeView,
)
    requires
        conclusive(lines),
        0 <= pc < lines.len(),
        lines[pc] is Do,
        advance(lines, Stage::At { pc, noted }, outcome) is Finished,
    ensures
        opens(act_of(lines[pc])),
        outcome is Done,
{
    assert(line_ok(lines[pc], pc, lines.len() - 1));
    if let LineView::Do { act, lead, ok, fail } = lines[pc] {
        if pc + 1 < lines.len() {
            lemma_settle_unfinished(lines, pc + 1, noted);
        } else {
            assert(lines[pc] == lines.last());
        }
        if let Goto::At(to) = ok {
            lemma_settle_unfinished(lines, to as int, noted);
        }
        match outcome {
            OutcomeView::Done => {},
            OutcomeView::Opaque { error } => {
                if let OnFailView::Skip { to } = fail {
                    lemma_settle_unfinished(lines, to, Some(lead + error));
                }
                if let OnFailView::Instead { text, to } = fail {
                    lemma_settle_unfinished(lines, to, Some(text));
                }
            },
            OutcomeView::Failed { error } => {
                if let OnFailView::Skip { to } = fail {
                    lemma_settle_unfinished(lines, to, Some(lead + error));
                }
                if let OnFailView::Instead { text, to } = fail {
                    lemma_settle_unfinished(lines, to, Some(text));
                }
            },
        }
    }
}

/// Lines that stand from `start` on, with jumps up to `start` + their number.
spec fn placed(lines: Seq<LineView>, start: int) -> bool {
    forall|k: int|
        0 <= k < lines.len() ==> line_ok(#[trigger] lines[k], start + k, start + lines.len())
}

proof fn lemma_placed_after(a: Seq<LineView>, b: Seq<LineView>)
    requires
        open_ended(a),
        placed(b, a.len() as int),
    ensures
        open_ended(a + b),
{
    let c = a + b;
    assert forall|k: int| 0 <= k < c.len() implies line_ok(#[trigger] c[k], k, c.len() as int) by {
        if k < a.len() {
            assert(c[k] == a[k]);
            assert(line_ok(a[k], k, a.len() as int));
        } else {
            assert(c[k] == b[k - a.len()]);
            assert(line_ok(b[k - a.len()], a.len() + (k - a.len()), (a.len() + b.len()) as int));
        }
    }
}

proof fn lemma_closing(a: Seq<LineView>, last: LineView)
    requires
        open_ended(a),
        last is GiveUp || last is Stop,
    ensures
        conclusive(a.push(last)),
{
    let c = a.push(last);
    assert forall|k: int| 0 <= k < c.len() implies line_ok(#[trigger] c[k], k, c.len() - 1) by {
        if k < a.len() {
            assert(c[k] == a[k]);
            assert(line_ok(a[k], k, a.len() as int));
        }
    }
}

proof fn lemma_tries_placed(start: int, q: Quest, i: usize, salts: Seq<bool>)
    ensures
        placed(tries(start, q, i, salts), start),
    decreases salts.len(),
{
    lemma_tries_len(start, q, i, salts);
    if salts.len() > 0 {
        let head = tries(start, q, i, salts.drop_last());
        let all = tries(start, q, i, salts);
        lemma_tries_placed(start, q, i, salts.drop_last());
        lemma_tries_len(start, q, i, salts.drop_last());
        assert forall|k: int| 0 <= k < all.len() implies line_ok(
            #[trigger] all[k],
            start + k,
            start + all.len(),
        ) by {
            if k < head.len() {
                assert(all[k] == head[k]);
                assert(line_ok(head[k], start + k, start + head.len()));
            }
        }
    }
}

proof fn lemma_block_placed(
    start: int,
    q: Quest,
    p: Platform,
    i: usize,
    s: SlotFacts,
    entries: Seq<HybridEntry>,
)
    ensures
        placed(block(start, q, p, i, s, entries), start),
{
    let salts = conventions(s.salt_prehashed, p.os);
    lemma_tries_placed(start, q, i, salts);
    lemma_tries_placed(start + 1, q, i, salts);
    let rest = opens_of(start + 1, q, p, i, s);
    let all = block(start, q, p, i, s, entries);
    assert(placed(rest, start + 1));
    if q.wants_spec(s) && (q.stored_cred() ==> s.tpm2_fido2_cred) && q.pq() {
        if entry_of(entries, i as int) is Some {
            assert forall|k: int| 0 <= k < all.len() implies line_ok(
                #[trigger] all[k],
                start + k,
                start + all.len(),
            ) by {
                if k > 0 {
                    assert(all[k] == rest[k - 1]);
                    assert(line_ok(rest[k - 1], start + 1 + (k - 1), start + 1 + rest.len()));
                }
            }
        }
    }
}

proof fn lemma_sought_open_ended(
    prefix: Seq<LineView>,
    q: Quest,
    p: Platform,
    slots: Seq<SlotFacts>,
    entries: Seq<HybridEntry>,
    n: int,
)
    requires
        open_ended(prefix),
    ensures
        open_ended(sought(prefix, q, p, slots, entries, n)),
    decreases n,
{
    if n > 0 {
        lemma_sought_open_ended(prefix, q, p, slots, entries, n - 1);
        let before = sought(prefix, q, p, slots, entries, n - 1);
        lemma_block_placed(
            before.len() as int,
            q,
            p,
            (n - 1) as usize,
            slots[n - 1],
            entries,
        );
        lemma_placed_after(
            before,
            block(before.len() as int, q, p, (n - 1) as usize, slots[n - 1], entries),
        );
    }
}

proof fn lemma_quest_conclusive(
    prefix: Seq<LineView>,
    q: Quest,
    p: Platform,
    slots: Seq<SlotFacts>,
    entries: Seq<HybridEntry>,
)
    requires
        open_ended(prefix),
    ensures
        conclusive(quest_lines(prefix, q, p, slots, entries)),
{
    lemma_sought_open_ended(prefix, q, p, slots, entries, slots.len() as int);
    lemma_closing(
        sought(prefix, q, p, slots, entries, slots.len() as int),
        LineView::GiveUp { text: q.nothing_text() },
    );
}

proof fn lemma_entry_tries_open_ended(entries: Seq<HybridEntry>, n: int)
    requires
        0 <= n,
    ensures
        open_ended(entry_tries(entries, n)),
    decreases n,
{
    if n > 0 {
        lemma_entry_tries_open_ended(entries, n - 1);
        lemma_entry_tries_len(entries, n - 1);
        let head = entry_tries(entries, n - 1);
        let all = entry_tries(entries, n);
        let tail = all.skip(head.len() as int);
        assert(all =~= head + tail);
        lemma_placed_after(head, tail);
    }
}

proof fn lemma_sep_body_placed(
    start: int,
    p: Platform,
    i: usize,
    s: SlotFacts,
    pq: bool,
    secret: SecretRef,
)
    requires
        0 <= start,
        start + 3 <= usize::MAX,
    ensures
        placed(sep_body(start, p, i, s, pq, secret), start),
        sep_body(start, p, i, s, pq, secret).len() <= 3,
{
    let salts = conventions(s.salt_prehashed, p.os);
    let all = sep_body(start, p, i, s, pq, secret);
    if s.sep_fido2 && s.cred_len != 0 {
        assert forall|k: int| 0 <= k < all.len() implies line_ok(
            #[trigger] all[k],
            start + k,
            start + all.len(),
        ) by {
            if k < salts.len() {
                assert(all[k] == hmac_tries(start, i, salts)[k]);
            }
        }
    }
}

proof fn lemma_sep_sought_open_ended(
    prefix: Seq<LineView>,
    p: Platform,
    slots: Seq<SlotFacts>,
    pq: bool,
    secret: SecretRef,
    entries: Seq<HybridEntry>,
    n: int,
)
    requires
        open_ended(prefix),
        prefix.len() <= 16,
        n <= 256,
    ensures
        open_ended(sep_sought(prefix, p, slots, pq, secret, entries, n)),
        n >= 0 ==> sep_sought(prefix, p, slots, pq, secret, entries, n).len() <= 16 + 4 * n,
    decreases n,
{
    if n > 0 {
        lemma_sep_sought_open_ended(prefix, p, slots, pq, secret, entries, n - 1);
        let before = sep_sought(prefix, p, slots, pq, secret, entries, n - 1);
        let start = before.len() as int;
        let i = (n - 1) as usize;
        let s = slots[n - 1];
        let all = sep_block(start, p, i, s, pq, secret, entries);
        lemma_sep_body_placed(start, p, i, s, pq, secret);
        lemma_sep_body_placed(start + 1, p, i, s, pq, secret);
        let body = sep_body(start + 1, p, i, s, pq, secret);
        assert forall|k: int| 0 <= k < all.len() implies line_ok(
            #[trigger] all[k],
            start + k,
            start + all.len(),
        ) by {
            if in_scope(s, pq) && pq && entry_for(entries, i as u8) is Some {
                if k > 0 {
                    assert(all[k] == body[k - 1]);
                    assert(line_ok(body[k - 1], start + 1 + (k - 1), start + 1 + body.len()));
                }
            }
        }
        lemma_placed_after(before, all);
    }
}

proof fn lemma_sep_conclusive(
    p: Platform,
    slots: Seq<SlotFacts>,
    pq: bool,
    secret: SecretRef,
    has_passphrase: bool,
    has_pin: bool,
    entries: Seq<HybridEntry>,
)
    requires
        slots.len() <= 256,
    ensures
        conclusive(sep_common_lines(p, slots, pq, secret, has_passphrase, has_pin, entries)),
{
    let prefix = seq![step(Act::OpenSep, ""@)];
    lemma_sep_sought_open_ended(prefix, p, slots, pq, secret, entries, slots.len() as int);
    lemma_closing(
        sep_sought(prefix, p, slots, pq, secret, entries, slots.len() as int),
        LineView::GiveUp { text: "no Secure Enclave keyslot matched the supplied factors"@ },
    );
}

proof fn lemma_deniable_conclusive(o: UnlockOpts, p: Platform, f: Findings)
    ensures
        conclusive(deniable_finish_lines(o, f.envelope)),
        conclusive(deniable_entries_lines(o, f.envelope, f.entries@)),
{
    let a = unseal_lines(o, f.envelope);
    let b = completion_lines(o, f.envelope);
    assert(b.len() > 0);
    assert((a + b).last() == b.last());
    let c = deniable_entries_lines(o, f.envelope, f.entries@);
    assert(c.last() == b.last() || c.last() is Stop);
}

/// Whether an unlock comes through a phase.
pub open spec fn occurs(o: UnlockOpts, phase: Phase) -> bool {
    let second = phase_after(o, Phase::Start);
    let third = phase_after(o, second);
    phase == Phase::Start || phase == second || phase == third || phase == phase_after(o, third)
}

/// The container is attached only after an act has opened it: in every phase that
/// leads there, a script that is finished was finished by such an act.
pub proof fn law_attach_only_after_open(o: UnlockOpts, p: Platform, phase: Phase, f: Findings)
    requires
        f.slots@.len() <= 256,
        occurs(o, phase),
        phase_after(o, phase) == Phase::Attach,
    ensures
        conclusive(unlock_lines(o, p, phase, f)),
{
    let none = Seq::<LineView>::empty();
    let chip = seq![step(Act::OpenTpm, no_chip_lead())];
    let slots = f.slots@;
    let entries = f.entries@;
    lemma_deniable_conclusive(o, p, f);
    lemma_quest_conclusive(none, Quest::Fido2, p, slots, seq![]);
    lemma_quest_conclusive(chip, Quest::Tpm2Fido2, p, slots, seq![]);
    lemma_quest_conclusive(none, Quest::HybridPqFido2, p, slots, entries);
    lemma_quest_conclusive(none, Quest::HybridPqTpm2, p, slots, entries);
    lemma_quest_conclusive(none, Quest::HybridPqTpm2Fido2, p, slots, entries);
    lemma_sep_conclusive(
        p,
        slots,
        false,
        SecretRef::Passphrase,
        filled(o.passphrase),
        filled(o.pin),
        seq![],
    );
    lemma_sep_conclusive(
        p,
        slots,
        true,
        SecretRef::Passphrase,
        filled(o.passphrase),
        filled(o.pin),
        entries,
    );
    lemma_entry_tries_open_ended(entries, entries.len() as int);
    lemma_closing(
        entry_tries(entries, entries.len() as int),
        LineView::GiveUp { text: "hybrid unlock failed"@ },
    );
}

/// A vault that is older than its anchor stays closed: where there is an anchor,
/// only a comparison that went well finishes the unlock, and one that did not is
/// reported as it is.
pub proof fn law_older_vault_stays_closed(
    o: UnlockOpts,
    p: Platform,
    f: Findings,
    pc: int,
    noted: Option<Seq<char>>,
    outcome: OutcomeView,
)
    requires
        o.anchor_path is Some,
        0 <= pc < unlock_lines(o, p, Phase::Attach, f).len(),
        unlock_lines(o, p, Phase::Attach, f)[pc] is Do,
    ensures
        settle(unlock_lines(o, p, Phase::Attach, f), 0, None) !is Finished,
        ({
            let lines = unlock_lines(o, p, Phase::Attach, f);
            let next = advance(lines, Stage::At { pc, noted }, outcome);
            let compared = act_of(lines[pc]) == Act::CompareAnchor;
            &&& next is Finished ==> compared && outcome is Done
            &&& compared && outcome !is Done ==> next == (Stage::Failed {
                text: error_of(outcome),
            })
        }),
{
    reveal_strlit("");
    assert(""@ + error_of(outcome) =~= error_of(outcome));
    let lines = unlock_lines(o, p, Phase::Attach, f);
    if pc + 1 < lines.len() {
        assert(lines[pc + 1] is Do);
    }
}

/// Unlocking, whatever is tried on the way, changes no file and undoes nothing,
/// and its jumps go forward, so that it comes to an end.
pub proof fn law_unlock_only_reads(o: UnlockOpts, p: Platform, phase: Phase, f: Findings)
    requires
        f.slots@.len() <= 256,
        occurs(o, phase),
    ensures
        open_ended(unlock_lines(o, p, phase, f)),
{
    let lines = unlock_lines(o, p, phase, f);
    if phase_after(o, phase) == Phase::Attach {
        law_attach_only_after_open(o, p, phase, f);
        assert forall|k: int| 0 <= k < lines.len() implies line_ok(
            #[trigger] lines[k],
            k,
            lines.len() as int,
        ) by {
            assert(line_ok(lines[k], k, lines.len() - 1));
        }
    }
}

/// Whether a script tries to open the keyslot at `i` with the given factors.
pub open spec fn tries_slot(
    lines: Seq<LineView>,
    kind: UnlockFactors,
    i: usize,
) -> bool {
    exists|k: int|
        0 <= k < lines.len() && (#[trigger] lines[k]) is Do && act_of(lines[k])
            == (Act::OpenWith { kind, slot: i })
}

/// Whether every try to open is one of `i` with the given factors.
spec fn tries_only(
    lines: Seq<LineView>,
    kind: UnlockFactors,
    i: usize,
) -> bool {
    forall|k: int|
        0 <= k < lines.len() && (#[trigger] lines[k]) is Do && act_of(lines[k]) is OpenWith
            ==> act_of(lines[k]) == (Act::OpenWith { kind, slot: i })
}

proof fn lemma_tries_open(start: int, q: Quest, i: usize, salts: Seq<bool>)
    ensures
        tries_only(tries(start, q, i, salts), q.factors_spec(), i),
        salts.len() > 0 ==> tries_slot(tries(start, q, i, salts), q.factors_spec(), i),
    decreases salts.len(),
{
    if salts.len() > 0 {
        let head = tries(start, q, i, salts.drop_last());
        let all = tries(start, q, i, salts);
        lemma_tries_open(start, q, i, salts.drop_last());
        assert(all[head.len() as int + 1] is Do);
        assert forall|k: int|
            0 <= k < all.len() && (#[trigger] all[k]) is Do && act_of(all[k]) is OpenWith implies act_of(
            all[k],
        ) == (Act::OpenWith { kind: q.factors_spec(), slot: i }) by {
            if k < head.len() {
                assert(all[k] == head[k]);
            }
        }
    }
}

proof fn lemma_block_open(
    start: int,
    q: Quest,
    p: Platform,
    i: usize,
    s: SlotFacts,
    entries: Seq<HybridEntry>,
)
    requires
        i < 256,
    ensures
        tries_only(block(start, q, p, i, s, entries), q.factors_spec(), i),
        tries_slot(block(start, q, p, i, s, entries), q.factors_spec(), i) <==> candidate(
            q,
            i as int,
            s,
            entries,
        ),
{
    let salts = conventions(s.salt_prehashed, p.os);
    let all = block(start, q, p, i, s, entries);
    lemma_tries_open(start, q, i, salts);
    lemma_tries_open(start + 1, q, i, salts);
    let rest = opens_of(start + 1, q, p, i, s);
    if !q.fido2() {
        assert(rest[0] is Do);
    }
    assert(tries_slot(rest, q.factors_spec(), i));
    assert(tries_only(rest, q.factors_spec(), i));
    if candidate(q, i as int, s, entries) {
        if q.pq() {
            let k = choose|k: int|
                0 <= k < rest.len() && (#[trigger] rest[k]) is Do && act_of(rest[k])
                    == (Act::OpenWith { kind: q.factors_spec(), slot: i });
            assert(all[k + 1] == rest[k]);
            assert forall|k: int|
                0 <= k < all.len() && (#[trigger] all[k]) is Do && act_of(
                    all[k],
                ) is OpenWith implies act_of(all[k]) == (Act::OpenWith {
                kind: q.factors_spec(),
                slot: i,
            }) by {
                if k > 0 {
                    assert(all[k] == rest[k - 1]);
                }
            }
        } else {
            assert(all == opens_of(start, q, p, i, s));
        }
    }
}

/// Every keyslot of the wanted kind whose material is there is tried, no other
/// keyslot is, and none is tried with other factors than its own.
pub proof fn law_search_tries_the_candidates(
    prefix: Seq<LineView>,
    q: Quest,
    p: Platform,
    slots: Seq<SlotFacts>,
    entries: Seq<HybridEntry>,
    kind: UnlockFactors,
    i: usize,
)
    requires
        slots.len() <= 256,
        forall|k: int|
            0 <= k < prefix.len() && (#[trigger] prefix[k]) is Do ==> !opens(act_of(prefix[k])),
    ensures
        tries_slot(quest_lines(prefix, q, p, slots, entries), kind, i) <==> {
            &&& i < slots.len()
            &&& candidate(q, i as int, slots[i as int], entries)
            &&& kind == q.factors_spec()
        },
{
    lemma_sought_tries(prefix, q, p, slots, entries, kind, i, slots.len() as int);
    let a = sought(prefix, q, p, slots, entries, slots.len() as int);
    let c = quest_lines(prefix, q, p, slots, entries);
    if tries_slot(a, kind, i) {
        let k = choose|k: int|
            0 <= k < a.len() && (#[trigger] a[k]) is Do && act_of(a[k]) == (Act::OpenWith {
                kind,
                slot: i,
            });
        assert(c[k] == a[k]);
    }
    if tries_slot(c, kind, i) {
        let k = choose|k: int|
            0 <= k < c.len() && (#[trigger] c[k]) is Do && act_of(c[k]) == (Act::OpenWith {
                kind,
                slot: i,
            });
        assert(c[k] == a[k]);
    }
}

proof fn lemma_sought_tries(
    prefix: Seq<LineView>,
    q: Quest,
    p: Platform,
    slots: Seq<SlotFacts>,
    entries: Seq<HybridEntry>,
    kind: UnlockFactors,
    i: usize,
    n: int,
)
    requires
        0 <= n <= slots.len() <= 256,
        forall|k: int|
            0 <= k < prefix.len() && (#[trigger] prefix[k]) is Do ==> !opens(act_of(prefix[k])),
    ensures
        tries_slot(sought(prefix, q, p, slots, entries, n), kind, i) <==> {
            &&& i < n
            &&& candidate(q, i as int, slots[i as int], entries)
            &&& kind == q.factors_spec()
        },
    decreases n,
{
    if n > 0 {
        let a = sought(prefix, q, p, slots, entries, n - 1);
        let j = (n - 1) as usize;
        let b = block(a.len() as int, q, p, j, slots[n - 1], entries);
        let c = a + b;
        lemma_sought_tries(prefix, q, p, slots, entries, kind, i, n - 1);
        lemma_block_open(a.len() as int, q, p, j, slots[n - 1], entries);
        if tries_slot(a, kind, i) {
            let k = choose|k: int|
                0 <= k < a.len() && (#[trigger] a[k]) is Do && act_of(a[k]) == (Act::OpenWith {
                    kind,
                    slot: i,
                });
            assert(c[k] == a[k]);
        }
        if tries_slot(b, kind, i) {
            let k = choose|k: int|
                0 <= k < b.len() && (#[trigger] b[k]) is Do && act_of(b[k]) == (Act::OpenWith {
                    kind,
                    slot: i,
                });
            assert(c[a.len() + k] == b[k]);
        }
        if tries_slot(c, kind, i) {
            let k = choose|k: int|
                0 <= k < c.len() && (#[trigger] c[k]) is Do && act_of(c[k]) == (Act::OpenWith {
                    kind,
                    slot: i,
                });
            if k < a.len() {
                assert(c[k] == a[k]);
            } else {
                assert(c[k] == b[k - a.len()]);
            }
        }
    }
}

/// Whether an enclave slot is tried.
pub open spec fn sep_candidate(i: int, s: SlotFacts, pq: bool, entries: Seq<HybridEntry>) -> bool {
    &&& in_scope(s, pq)
    &&& s.sep_fido2 ==> s.cred_len != 0
    &&& pq ==> entry_for(entries, i as u8) is Some
}

/// Every enclave slot in scope whose material is there is tried with exactly
/// the factors that its kind binds, once the fields that the slots ask for are
/// filled in.
pub proof fn law_sep_search_tries_the_candidates(
    p: Platform,
    slots: Seq<SlotFacts>,
    pq: bool,
    secret: SecretRef,
    entries: Seq<HybridEntry>,
    kind: UnlockFactors,
    i: usize,
)
    requires
        slots.len() <= 256,
    ensures
        tries_slot(sep_common_lines(p, slots, pq, secret, true, true, entries), kind, i) <==> {
            &&& i < slots.len()
            &&& sep_candidate(i as int, slots[i as int], pq, entries)
            &&& kind == sep_factors(slots[i as int], pq, secret)
        },
{
    let prefix = seq![step(Act::OpenSep, ""@)];
    let n = slots.len() as int;
    lemma_sep_sought_tries(prefix, p, slots, pq, secret, entries, kind, i, n);
    let a = sep_sought(prefix, p, slots, pq, secret, entries, n);
    let c = sep_common_lines(p, slots, pq, secret, true, true, entries);
    assert(c.drop_last() =~= a);
    if tries_slot(a, kind, i) {
        let k = choose|k: int|
            0 <= k < a.len() && (#[trigger] a[k]) is Do && act_of(a[k]) == (Act::OpenWith {
                kind,
                slot: i,
            });
        assert(c[k] == a[k]);
    }
    if tries_slot(c, kind, i) {
        let k = choose|k: int|
            0 <= k < c.len() && (#[trigger] c[k]) is Do && act_of(c[k]) == (Act::OpenWith {
                kind,
                slot: i,
            });
        assert(c[k] == a[k]);
    }
}

proof fn lemma_sep_sought_tries(
    prefix: Seq<LineView>,
    p: Platform,
    slots: Seq<SlotFacts>,
    pq: bool,
    secret: SecretRef,
    entries: Seq<HybridEntry>,
    kind: UnlockFactors,
    i: usize,
    n: int,
)
    requires
        0 <= n <= slots.len() <= 256,
        forall|k: int|
            0 <= k < prefix.len() && (#[trigger] prefix[k]) is Do ==> !opens(act_of(prefix[k])),
    ensures
        tries_slot(sep_sought(prefix, p, slots, pq, secret, entries, n), kind, i) <==> {
            &&& i < n
            &&& sep_candidate(i as int, slots[i as int], pq, entries)
            &&& kind == sep_factors(slots[i as int], pq, secret)
        },
    decreases n,
{
    if n > 0 {
        let a = sep_sought(prefix, p, slots, pq, secret, entries, n - 1);
        let j = (n - 1) as usize;
        let s = slots[n - 1];
        let start = a.len() as int;
        let b = sep_block(start, p, j, s, pq, secret, entries);
        let c = a + b;
        lemma_sep_sought_tries(prefix, p, slots, pq, secret, entries, kind, i, n - 1);
        lemma_sep_block_open(start, p, j, s, pq, secret, entries);
        if tries_slot(a, kind, i) {
            let k = choose|k: int|
                0 <= k < a.len() && (#[trigger] a[k]) is Do && act_of(a[k]) == (Act::OpenWith {
                    kind,
                    slot: i,
                });
            assert(c[k] == a[k]);
        }
        if tries_slot(b, kind, i) {
            let k = choose|k: int|
                0 <= k < b.len() && (#[trigger] b[k]) is Do && act_of(b[k]) == (Act::OpenWith {
                    kind,
                    slot: i,
                });
            assert(c[a.len() + k] == b[k]);
        }
        if tries_slot(c, kind, i) {
            let k = choose|k: int|
                0 <= k < c.len() && (#[trigger] c[k]) is Do && act_of(c[k]) == (Act::OpenWith {
                    kind,
                    slot: i,
                });
            if k < a.len() {
                assert(c[k] == a[k]);
            } else {
                assert(c[k] == b[k - a.len()]);
            }
        }
    }
}

proof fn lemma_sep_body_open(
    start: int,
    p: Platform,
    i: usize,
    s: SlotFacts,
    pq: bool,
    secret: SecretRef,
)
    ensures
        tries_only(sep_body(start, p, i, s, pq, secret), sep_factors(s, pq, secret), i),
        tries_slot(sep_body(start, p, i, s, pq, secret), sep_factors(s, pq, secret), i) <==> (
        s.sep_fido2 ==> s.cred_len != 0),
{
    let all = sep_body(start, p, i, s, pq, secret);
    if !s.sep_fido2 {
        assert(all[0] is Do);
    } else if s.cred_len != 0 {
        let salts = conventions(s.salt_prehashed, p.os);
        let head = hmac_tries(start, i, salts);
        assert(all[head.len() as int] is Do);
        assert forall|k: int|
            0 <= k < all.len() && (#[trigger] all[k]) is Do && act_of(all[k]) is OpenWith implies act_of(
            all[k],
        ) == (Act::OpenWith { kind: sep_factors(s, pq, secret), slot: i }) by {
            if k < head.len() {
                assert(all[k] == head[k]);
            }
        }
    }
}

proof fn lemma_sep_block_open(
    start: int,
    p: Platform,
    i: usize,
    s: SlotFacts,
    pq: bool,
    secret: SecretRef,
    entries: Seq<HybridEntry>,
)
    ensures
        tries_only(sep_block(start, p, i, s, pq, secret, entries), sep_factors(s, pq, secret), i),
        tries_slot(sep_block(start, p, i, s, pq, secret, entries), sep_factors(s, pq, secret), i)
            <==> sep_candidate(i as int, s, pq, entries),
{
    let all = sep_block(start, p, i, s, pq, secret, entries);
    let kind = sep_factors(s, pq, secret);
    lemma_sep_body_open(start, p, i, s, pq, secret);
    lemma_sep_body_open(start + 1, p, i, s, pq, secret);
    if in_scope(s, pq) && pq && entry_for(entries, i as u8) is Some {
        let body = sep_body(start + 1, p, i, s, pq, secret);
        if tries_slot(body, kind, i) {
            let k = choose|k: int|
                0 <= k < body.len() && (#[trigger] body[k]) is Do && act_of(body[k])
                    == (Act::OpenWith { kind, slot: i });
            assert(all[k + 1] == body[k]);
        }
        if tries_slot(all, kind, i) {
            let k = choose|k: int|
                0 <= k < all.len() && (#[trigger] all[k]) is Do && act_of(all[k])
                    == (Act::OpenWith { kind, slot: i });
            assert(all[k] == body[k - 1]);
        }
        assert forall|k: int|
            0 <= k < all.len() && (#[trigger] all[k]) is Do && act_of(all[k]) is OpenWith implies act_of(
            all[k],
        ) == (Act::OpenWith { kind, slot: i }) by {
            if k > 0 {
                assert(all[k] == body[k - 1]);
            }
        }
    }
}

} // verus!
