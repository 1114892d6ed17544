//! Auto-clearing clipboard guard for generated passphrases.
//!
//! After a passphrase was put on the clipboard, a [`Guard`] remembers its
//! SHA-256 and how long it may stay there. Once that time is up, the clipboard
//! is wiped if it still holds the same text, and left alone if the user has
//! copied something else in the meantime.

use crate::clock::{elapsed, may_be_now, may_have_elapsed, now};
use sha2::Digest;
use vstd::prelude::*;
use vstd::string::*;

verus! {

/// The SHA-256 digest of `data`.
pub uninterp spec fn sha256_of(data: Seq<u8>) -> Seq<u8>;

/// `sha2::Sha256::digest`: the SHA-256 digest of the bytes, a function of them
/// alone.
#[verifier::external_body]
fn sha256(data: &[u8]) -> (h: [u8; 32])
    ensures
        h@ == sha256_of(data@),
{
    sha2::Sha256::digest(data).into()
}

pub const NANOS_PER_SEC: u32 = 1_000_000_000;

/// A length of time.
#[derive(Clone, Copy, Debug, PartialEq, Eq, Structural)]
pub struct Span {
    secs: u64,
    nanos: u32,
}

impl Span {
    #[verifier::type_invariant]
    spec fn wf(self) -> bool {
        self.nanos < NANOS_PER_SEC
    }

    /// The span in nanoseconds.
    pub closed spec fn total(self) -> int {
        self.secs * NANOS_PER_SEC + self.nanos
    }

    pub fn from_secs(secs: u64) -> (s: Span)
        ensures
            s.total() == secs * NANOS_PER_SEC,
    {
        Span { secs, nanos: 0 }
    }

    pub fn from_millis(millis: u64) -> (s: Span)
        ensures
            s.total() == millis * 1_000_000,
    {
        assert(millis == (millis / 1000) * 1000 + millis % 1000);
        Span { secs: millis / 1000, nanos: ((millis % 1000) * 1_000_000) as u32 }
    }

    fn total_nanos(self) -> (n: u128)
        ensures
            n == self.total(),
            n < (u64::MAX + 1) * NANOS_PER_SEC,
    {
        proof {
            use_type_invariant(&self);
        }
        assert(self.secs * NANOS_PER_SEC <= u64::MAX * NANOS_PER_SEC) by (nonlinear_arith)
            requires
                0 <= self.secs <= u64::MAX,
                NANOS_PER_SEC == 1_000_000_000,
        ;
        (self.secs as u128) * (NANOS_PER_SEC as u128) + (self.nanos as u128)
    }
}

/// The nanoseconds left of `clear_after` once `elapsed` have gone by.
pub open spec fn nanos_left(clear_after: Span, elapsed: int) -> int {
    if elapsed >= clear_after.total() {
        0
    } else {
        clear_after.total() - elapsed
    }
}

/// A pending auto-clear. There is one at a time: copying a new passphrase
/// replaces it.
pub struct Guard {
    pub armed_at: std::time::Instant,
    pub clear_after: Span,
    pub expected_hash: [u8; 32],
}

impl Guard {
    /// Whether `current` has the digest the guard was built for.
    pub open spec fn expects(self, current: Seq<u8>) -> bool {
        sha256_of(current) == self.expected_hash@
    }

    /// A guard for `payload`, due after `clear_after`. Putting the payload on
    /// the clipboard is the caller's business.
    pub fn for_payload(payload: &str, clear_after: Span) -> (g: Guard)
        ensures
            may_be_now(g.armed_at),
            g.clear_after == clear_after,
            g.expected_hash@ == sha256_of(payload.spec_bytes()),
            g.expects(payload.spec_bytes()),
    {
        Guard {
            armed_at: now(),
            clear_after,
            expected_hash: sha256(payload.as_bytes()),
        }
    }

    /// Whole seconds left once `elapsed` nanoseconds have gone by, down to 0.
    pub fn seconds_remaining_after(&self, elapsed: u128) -> (s: u64)
        ensures
            s == nanos_left(self.clear_after, elapsed as int) / NANOS_PER_SEC as int,
    {
        let total: u128 = self.clear_after.total_nanos();
        if elapsed >= total {
            0
        } else {
            ((total - elapsed) / (NANOS_PER_SEC as u128)) as u64
        }
    }

    /// Seconds left until the clipboard is cleared, down to 0, by the clock.
    pub fn seconds_remaining(&self) -> (s: u64)
        ensures
            exists|e: u128| #[trigger]
                may_have_elapsed(self.armed_at, e) && s == nanos_left(self.clear_after, e as int)
                    / NANOS_PER_SEC as int,
    {
        let e: u128 = elapsed(&self.armed_at);
        self.seconds_remaining_after(e)
    }

    /// Whether the time is up once `elapsed` nanoseconds have gone by.
    pub fn expired_after(&self, elapsed: u128) -> (b: bool)
        ensures
            b <==> elapsed >= self.clear_after.total(),
    {
        elapsed >= self.clear_after.total_nanos()
    }

    /// Whether the time is up, by the clock.
    pub fn expired(&self) -> (b: bool)
        ensures
            exists|e: u128| #[trigger]
                may_have_elapsed(self.armed_at, e) && b == (e >= self.clear_after.total()),
    {
        let e: u128 = elapsed(&self.armed_at);
        self.expired_after(e)
    }

    /// Whether `current` is the text the guard was built for, as far as the
    /// digest tells.
    pub fn matches(&self, current: &str) -> (b: bool)
        ensures
            b == self.expects(current.spec_bytes()),
    {
        let actual = sha256(current.as_bytes());
        let mut i: usize = 0;
        while i < 32
            invariant
                i <= 32,
                actual@ == sha256_of(current.spec_bytes()),
                forall|k: int| 0 <= k < i ==> actual@[k] == self.expected_hash@[k],
            decreases 32 - i,
        {
            if actual[i] != self.expected_hash[i] {
                assert(actual@[i as int] != self.expected_hash@[i as int]);
                return false;
            }
            i = i + 1;
        }
        assert(actual@ =~= self.expected_hash@);
        true
    }
}

/// Whether the clipboard is to be wiped, given what could be read from it:
/// only if it can be read and still holds the guard's payload.
pub open spec fn unchanged(guard: Guard, clipboard: Option<Seq<u8>>) -> bool {
    clipboard matches Some(t) && guard.expects(t)
}

pub open spec fn read_bytes(clipboard: Option<&str>) -> Option<Seq<u8>> {
    match clipboard {
        Some(t) => Some(t.spec_bytes()),
        None => None,
    }
}

pub fn is_unchanged(guard: &Guard, clipboard: Option<&str>) -> (wipe: bool)
    ensures
        wipe == unchanged(*guard, read_bytes(clipboard)),
{
    match clipboard {
        None => false,
        Some(current) => guard.matches(current),
    }
}

/// Whether the clipboard was wiped: it was unchanged, and the empty text that
/// was then put on it, `written`, was accepted.
pub fn try_clear_if_unchanged(guard: &Guard, clipboard: Option<&str>, written: bool) -> (cleared:
    bool)
    ensures
        cleared <==> unchanged(*guard, read_bytes(clipboard)) && written,
{
    written && is_unchanged(guard, clipboard)
}

/// What a frame does about the clipboard.
#[derive(Clone, Copy, Debug, PartialEq, Eq, Structural)]
pub enum ClipboardTick {
    /// No guard is armed.
    Idle,
    /// Draw again before the deadline.
    Wait,
    /// The deadline has passed: read the clipboard, drop the guard.
    Check,
}

/// What to do about the clipboard, given how long the guard has been armed
/// (`None` if none is).
pub fn tick_clipboard_guard(guard: Option<&Guard>, elapsed: u128) -> (t: ClipboardTick)
    ensures
        t == (match guard {
            None => ClipboardTick::Idle,
            Some(g) => if elapsed >= g.clear_after.total() {
                ClipboardTick::Check
            } else {
                ClipboardTick::Wait
            },
        }),
{
    match guard {
        None => ClipboardTick::Idle,
        Some(g) => {
            if g.expired_after(elapsed) {
                ClipboardTick::Check
            } else {
                ClipboardTick::Wait
            }
        },
    }
}

/// The seconds shown never grow, and once the guard has expired they are 0 and
/// stay 0.
pub proof fn law_countdown_runs_down(clear_after: Span, earlier: u128, later: u128)
    requires
        earlier <= later,
    ensures
        nanos_left(clear_after, later as int) <= nanos_left(clear_after, earlier as int),
        nanos_left(clear_after, later as int) / NANOS_PER_SEC as int <= nanos_left(
            clear_after,
            earlier as int,
        ) / NANOS_PER_SEC as int,
        earlier >= clear_after.total() ==> nanos_left(clear_after, later as int) == 0,
{
    assert(nanos_left(clear_after, later as int) / NANOS_PER_SEC as int <= nanos_left(
        clear_after,
        earlier as int,
    ) / NANOS_PER_SEC as int) by (nonlinear_arith)
        requires
            0 <= nanos_left(clear_after, later as int) <= nanos_left(clear_after, earlier as int),
            NANOS_PER_SEC == 1_000_000_000,
    ;
}

/// A clipboard that cannot be read, or holds another digest than the payload's,
/// is left alone, and one that holds the payload itself is wiped.
pub proof fn law_only_the_payload_is_wiped(guard: Guard, payload: Seq<u8>, current: Seq<u8>)
    requires
        guard.expected_hash@ == sha256_of(payload),
    ensures
        !unchanged(guard, None),
        current == payload ==> unchanged(guard, Some(current)),
        unchanged(guard, Some(current)) ==> sha256_of(current) == sha256_of(payload),
{
}

/// What is left and what has gone by make up the time that was set, until it is
/// over.
pub proof fn law_time_left_is_what_has_not_gone_by(clear_after: Span, elapsed: u128)
    ensures
        elapsed <= clear_after.total() ==> nanos_left(clear_after, elapsed as int) + elapsed
            == clear_after.total(),
        elapsed > clear_after.total() ==> nanos_left(clear_after, elapsed as int) == 0,
{
}

} // verus!
