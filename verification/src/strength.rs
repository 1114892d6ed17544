//! How hard a passphrase is to guess.

use crate::text::{chars_of, decimal, decimal_text, join3, text_of, texts};
use vstd::arithmetic::power::pow;
use vstd::prelude::*;
use vstd::string::*;

verus! {

/// A passphrase estimate.
#[derive(Clone, Copy, Debug, PartialEq, Eq, Structural)]
pub struct Strength {
    /// 0 = too guessable, 1 = very guessable, 2 = somewhat guessable,
    /// 3 = safe, 4 = very safe.
    pub score: u8,
    /// Guesses an attacker needs; their base-2 logarithm is the entropy shown.
    pub guesses: u64,
}

/// The score of a passphrase that takes so many guesses.
pub open spec fn score_of(guesses: u64) -> u8 {
    if guesses < 1_005 {
        0
    } else if guesses < 1_000_005 {
        1
    } else if guesses < 100_000_005 {
        2
    } else if guesses < 10_000_000_005 {
        3
    } else {
        4
    }
}

/// How many characters the estimator can take at once. It computes the factorial
/// of the number of parts it finds, which is at most the number of characters,
/// in a `usize`.
pub open spec fn longest() -> nat {
    if usize::MAX > 0xffff_ffff {
        20
    } else {
        12
    }
}

fn longest_piece() -> (n: usize)
    ensures
        n == longest(),
{
    if usize::MAX > 0xffff_ffff {
        20
    } else {
        12
    }
}

/// The most guesses that a text of `n` characters can take: ten for each of its
/// characters, multiplied, and at least eleven for a single one, plus one.
pub open spec fn at_most(n: nat) -> int {
    if n == 1 {
        12
    } else {
        pow(10, n) + 1
    }
}

/// `zxcvbn::zxcvbn` without user inputs: the guesses it estimates and the score
/// it gives. The score follows from the guesses. An empty passphrase takes
/// none. Another takes at least two, and at most as many as trying all texts of
/// its length would, which is one of the ways that are compared. How many
/// exactly depends on dictionaries, on the order in which a hash map is walked
/// and, for dates, on the current year, and is not stated. Of a longer text the
/// factorial in it may overflow.
#[verifier::external_body]
fn estimate(s: &str) -> (r: Strength)
    requires
        s@.len() <= longest(),
    ensures
        r.score == score_of(r.guesses),
        s@.len() == 0 ==> r.guesses == 0,
        s@.len() > 0 ==> 2 <= r.guesses <= at_most(s@.len()),
{
    let e = zxcvbn::zxcvbn(s, &[]);
    Strength { score: e.score() as u8, guesses: e.guesses() }
}

/// Whether `r` may be what the estimator answers for a text.
pub closed spec fn may_be_estimate(text: Seq<char>, r: Strength) -> bool {
    exists|s: &str| s@ == text && #[trigger] call_ensures(estimate, (s,), r)
}

/// Whether `got` may be what the estimator answers for these texts, one by one.
pub open spec fn may_be_estimates(texts: Seq<Seq<char>>, got: Seq<Strength>) -> bool {
    &&& got.len() == texts.len()
    &&& forall|i: int| 0 <= i < got.len() ==> may_be_estimate(texts[i], #[trigger] got[i])
}

fn estimate_of(s: &str) -> (r: Strength)
    requires
        s@.len() <= longest(),
    ensures
        may_be_estimate(s@, r),
{
    let ask = estimate;
    ask(s)
}

/// Every estimate is within its bounds, and its score follows from its guesses.
pub proof fn law_estimates_are_bounded(text: Seq<char>, r: Strength)
    requires
        text.len() <= longest(),
        may_be_estimate(text, r),
    ensures
        r.score == score_of(r.guesses),
        text.len() > 0 ==> 2 <= r.guesses <= at_most(text.len()),
{
}

/// A text, cut into pieces that the estimator can take: all but the last are as
/// long as can be.
pub open spec fn pieces_of(text: Seq<char>) -> Seq<Seq<char>>
    decreases text.len(),
{
    if text.len() <= longest() {
        seq![text]
    } else {
        seq![text.take(longest() as int)] + pieces_of(text.skip(longest() as int))
    }
}

/// Cuts a text into pieces.
pub fn pieces(s: &str) -> (r: Vec<String>)
    ensures
        texts(r@) == pieces_of(s@),
{
    let chars = chars_of(s);
    let n: usize = longest_piece();
    let mut r: Vec<String> = Vec::new();
    let mut i: usize = 0;
    proof {
        assert(chars@.skip(0) =~= s@);
        assert(texts(r@) + pieces_of(s@) =~= pieces_of(s@));
    }
    while chars.len() - i > n
        invariant
            n == longest(),
            chars@ == s@,
            i <= chars@.len(),
            pieces_of(s@) == texts(r@) + pieces_of(chars@.skip(i as int)),
        decreases chars.len() - i,
    {
        let ghost before = r@;
        let ghost rest = chars@.skip(i as int);
        let piece = text_of(&chars, i, i + n);
        assert(piece@ =~= rest.take(n as int));
        r.push(piece);
        i = i + n;
        proof {
            assert(rest.skip(n as int) =~= chars@.skip(i as int));
            assert(texts(r@) =~= texts(before).push(rest.take(n as int)));
            assert(texts(before) + (seq![rest.take(n as int)] + pieces_of(chars@.skip(i as int)))
                =~= texts(r@) + pieces_of(chars@.skip(i as int)));
        }
    }
    let ghost before = r@;
    let last = text_of(&chars, i, chars.len());
    assert(last@ =~= chars@.skip(i as int));
    r.push(last);
    assert(texts(r@) =~= texts(before) + seq![chars@.skip(i as int)]);
    r
}

/// Whether `r` is the first of the list that takes the most guesses.
pub open spec fn is_strongest(list: Seq<Strength>, r: Strength) -> bool {
    exists|i: int|
        {
            &&& 0 <= i < list.len()
            &&& #[trigger] list[i] == r
            &&& forall|j: int| 0 <= j < list.len() ==> (#[trigger] list[j]).guesses <= r.guesses
            &&& forall|j: int| 0 <= j < i ==> (#[trigger] list[j]).guesses < r.guesses
        }
}

/// The strongest of some estimates.
pub fn strongest(list: &Vec<Strength>) -> (r: Strength)
    requires
        list@.len() > 0,
    ensures
        is_strongest(list@, r),
{
    let mut best: usize = 0;
    let mut i: usize = 1;
    while i < list.len()
        invariant
            best < i <= list@.len(),
            forall|j: int|
                0 <= j < i ==> (#[trigger] list@[j]).guesses <= list@[best as int].guesses,
            forall|j: int|
                0 <= j < best ==> (#[trigger] list@[j]).guesses < list@[best as int].guesses,
        decreases list.len() - i,
    {
        if list[i].guesses > list[best].guesses {
            best = i;
        }
        i = i + 1;
    }
    list[best]
}

proof fn lemma_pieces_fit(text: Seq<char>, i: int)
    requires
        0 <= i < pieces_of(text).len(),
        text.len() > 0,
    ensures
        0 < pieces_of(text)[i].len() <= longest(),
    decreases text.len(),
{
    if text.len() > longest() && i > 0 {
        lemma_pieces_fit(text.skip(longest() as int), i - 1);
    }
}

/// The pieces of a text, put together again, are the text.
pub proof fn law_pieces_make_the_text(text: Seq<char>)
    ensures
        pieces_of(text).flatten() == text,
    decreases text.len(),
{
    let all = pieces_of(text);
    if text.len() <= longest() {
        all.lemma_flatten_one_element();
    } else {
        let n = longest() as int;
        law_pieces_make_the_text(text.skip(n));
        assert(all.drop_first() =~= pieces_of(text.skip(n)));
        assert(text.take(n) + text.skip(n) =~= text);
    }
}

/// Scores a passphrase. An empty one scores 0 with a single guess, which is an
/// entropy of nothing. One that is too long for the estimator is as strong as
/// the strongest of its pieces.
pub fn passphrase_strength(s: &str) -> (r: Strength)
    ensures
        r.score == score_of(r.guesses),
        r.score <= 4,
        s@.len() == 0 ==> r == (Strength { score: 0, guesses: 1 }),
        s@.len() > 0 ==> r.guesses >= 2,
        0 < s@.len() <= longest() ==> may_be_estimate(s@, r) && r.guesses <= at_most(s@.len()),
        s@.len() > 0 ==> exists|got: Seq<Strength>| #[trigger]
            may_be_estimates(pieces_of(s@), got) && is_strongest(got, r),
{
    if s.is_empty() {
        return Strength { score: 0, guesses: 1 };
    }
    let parts = pieces(s);
    let mut got: Vec<Strength> = Vec::new();
    let mut i: usize = 0;
    while i < parts.len()
        invariant
            s@.len() > 0,
            texts(parts@) == pieces_of(s@),
            i <= parts@.len(),
            got@.len() == i,
            forall|k: int|
                0 <= k < i ==> may_be_estimate(pieces_of(s@)[k], #[trigger] got@[k])
                    && got@[k].score == score_of(got@[k].guesses) && got@[k].guesses >= 2,
        decreases parts.len() - i,
    {
        proof {
            lemma_pieces_fit(s@, i as int);
            assert(texts(parts@)[i as int] == parts@[i as int]@);
        }
        let one = estimate_of(parts[i].as_str());
        proof {
            law_estimates_are_bounded(parts@[i as int]@, one);
        }
        got.push(one);
        i = i + 1;
    }
    assert(parts@.len() == texts(parts@).len());
    assert(may_be_estimates(pieces_of(s@), got@));
    let r = strongest(&got);
    proof {
        if s@.len() <= longest() {
            assert(got@.len() == 1 && r == got@[0]);
            law_estimates_are_bounded(s@, r);
        }
    }
    r
}

pub open spec fn strength_text(score: u8) -> Seq<char> {
    if score == 0 {
        "very weak"@
    } else if score == 1 {
        "weak"@
    } else if score == 2 {
        "okay"@
    } else if score == 3 {
        "strong"@
    } else {
        "very strong"@
    }
}

/// The word shown under a passphrase field.
pub fn strength_label(score: u8) -> (s: &'static str)
    ensures
        s@ == strength_text(score),
{
    match score {
        0 => "very weak",
        1 => "weak",
        2 => "okay",
        3 => "strong",
        _ => "very strong",
    }
}

/// The line under a passphrase field: the word for its strength, and how long
/// it is.
pub fn strength_line(passphrase: &str, score: u8) -> (s: String)
    ensures
        s@ == strength_text(score) + "  ·  "@ + decimal(passphrase@.len()) + (if passphrase@.len()
            == 1 {
            " char"@
        } else {
            " chars"@
        }),
{
    let n: usize = chars_of(passphrase).len();
    let mut s = join3(strength_label(score), "  ·  ", decimal_text(n as u64).as_str());
    s.append(
        if n == 1 {
            " char"
        } else {
            " chars"
        },
    );
    s
}

/// More guesses never score lower.
pub proof fn law_score_is_monotone(a: u64, b: u64)
    requires
        a <= b,
    ensures
        score_of(a) <= score_of(b),
{
}

/// A passphrase scores a point at a thousand guesses, one more at a million, at a
/// hundred million and at ten thousand million, each with a margin of five.
pub proof fn law_score_thresholds(guesses: u64)
    ensures
        score_of(guesses) <= 4,
        score_of(guesses) >= 1 <==> guesses >= 1_000 + 5,
        score_of(guesses) >= 2 <==> guesses >= 1_000 * 1_000 + 5,
        score_of(guesses) >= 3 <==> guesses >= 100 * 1_000 * 1_000 + 5,
        score_of(guesses) >= 4 <==> guesses >= 10 * 1_000 * 1_000 * 1_000 + 5,
{
}

/// The product of the numbers from 1 to `n`.
pub open spec fn factorial(n: nat) -> nat
    decreases n,
{
    if n == 0 {
        1
    } else {
        n * factorial((n - 1) as nat)
    }
}

/// The pieces are as long as they can be: the factorial of their length fits in
/// a `usize`, that of one more does not.
pub proof fn law_pieces_are_as_long_as_can_be()
    ensures
        factorial(longest()) <= usize::MAX,
        factorial(longest() + 1) > usize::MAX,
{
    reveal_with_fuel(factorial, 22);
    assert(factorial(12) == 479_001_600);
    assert(factorial(13) == 6_227_020_800);
    assert(factorial(20) == 2_432_902_008_176_640_000);
    assert(factorial(21) == 51_090_942_171_709_440_000);
}

/// No piece is longer than the estimator can take, and none but the last is
/// shorter; none is empty unless the text is.
pub proof fn law_pieces_are_full(text: Seq<char>, i: int)
    requires
        0 <= i < pieces_of(text).len(),
    ensures
        pieces_of(text)[i].len() <= longest(),
        i < pieces_of(text).len() - 1 ==> pieces_of(text)[i].len() == longest(),
        text.len() > 0 ==> pieces_of(text)[i].len() > 0,
    decreases text.len(),
{
    if text.len() > longest() {
        let rest = text.skip(longest() as int);
        assert(pieces_of(text).len() == pieces_of(rest).len() + 1);
        if i > 0 {
            law_pieces_are_full(rest, i - 1);
            assert(pieces_of(text)[i] == pieces_of(rest)[i - 1]);
        }
    }
}

} // verus!
