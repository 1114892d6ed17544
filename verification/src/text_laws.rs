//! What holds of the texts that are built and taken apart.

use crate::text::{decimal, last_place, trim, trim_end, trim_left, trim_right, trim_start, white};
use vstd::prelude::*;

verus! {

/// The number that a row of decimal digits stands for.
pub open spec fn number_of(digits: Seq<char>) -> int
    decreases digits.len(),
{
    if digits.len() == 0 {
        0
    } else {
        10 * number_of(digits.drop_last()) + (digits.last() as int - '0' as int)
    }
}

/// Whether a text consists of decimal digits.
pub open spec fn all_digits(s: Seq<char>) -> bool {
    forall|i: int| 0 <= i < s.len() ==> '0' <= #[trigger] s[i] <= '9'
}

/// A number is written in decimal digits that stand for it, without a zero in
/// front unless it is zero.
pub proof fn law_decimal_stands_for_the_number(n: nat)
    ensures
        number_of(decimal(n)) == n,
        all_digits(decimal(n)),
        decimal(n).len() > 0,
        n > 0 ==> decimal(n)[0] != '0',
        n == 0 ==> decimal(n) == seq!['0'],
    decreases n,
{
    let s = decimal(n);
    if n < 10 {
        assert(s.drop_last() =~= seq![]);
        assert(number_of(s.drop_last()) == 0);
        assert(s[0] as int == '0' as int + n);
        assert(n == 0 ==> s =~= seq!['0']);
    } else {
        law_decimal_stands_for_the_number(n / 10);
        assert(s.drop_last() =~= decimal(n / 10));
        assert(s.last() as int == '0' as int + n % 10);
        assert forall|i: int| 0 <= i < s.len() implies '0' <= #[trigger] s[i] <= '9' by {
            if i < s.len() - 1 {
                assert(s[i] == decimal(n / 10)[i]);
            }
        }
        assert(s[0] == decimal(n / 10)[0]);
    }
}

/// Different numbers are written differently.
pub proof fn law_decimal_tells_numbers_apart(a: nat, b: nat)
    requires
        decimal(a) == decimal(b),
    ensures
        a == b,
{
    law_decimal_stands_for_the_number(a);
    law_decimal_stands_for_the_number(b);
}

/// The last place of a character is one where it stands and after which it does
/// not; there is none if it stands nowhere.
pub proof fn law_last_place_is_last(s: Seq<char>, c: char)
    ensures
        match last_place(s, c) {
            Some(i) => 0 <= i < s.len() && s[i] == c && forall|k: int|
                i < k < s.len() ==> #[trigger] s[k] != c,
            None => forall|k: int| 0 <= k < s.len() ==> #[trigger] s[k] != c,
        },
    decreases s.len(),
{
    if s.len() > 0 && s.last() != c {
        let head = s.drop_last();
        law_last_place_is_last(head, c);
        match last_place(head, c) {
            Some(i) => {
                assert(s[i] == head[i]);
                assert forall|k: int| i < k < s.len() implies #[trigger] s[k] != c by {
                    if k < head.len() {
                        assert(head[k] != c);
                    }
                }
            },
            None => {
                assert forall|k: int| 0 <= k < s.len() implies #[trigger] s[k] != c by {
                    if k < head.len() {
                        assert(head[k] != c);
                    }
                }
            },
        }
    }
}

/// Trimming a character from the end takes away every one that stands there, and
/// nothing else.
pub proof fn law_trim_end_takes_the_tail(s: Seq<char>, c: char)
    ensures
        trim_end(s, c).is_prefix_of(s),
        trim_end(s, c).len() > 0 ==> trim_end(s, c).last() != c,
        forall|i: int| trim_end(s, c).len() <= i < s.len() ==> #[trigger] s[i] == c,
    decreases s.len(),
{
    if s.len() > 0 && s.last() == c {
        let head = s.drop_last();
        law_trim_end_takes_the_tail(head, c);
        assert forall|i: int| trim_end(s, c).len() <= i < s.len() implies #[trigger] s[i] == c by {
            if i < head.len() {
                assert(head[i] == c);
            }
        }
        assert(trim_end(s, c) =~= s.take(trim_end(s, c).len() as int));
    } else {
        assert(s =~= s.take(s.len() as int));
    }
}

/// Trimming a character from the beginning takes away every one that stands
/// there, and nothing else.
pub proof fn law_trim_start_takes_the_head(s: Seq<char>, c: char)
    ensures
        trim_start(s, c).len() <= s.len(),
        trim_start(s, c) == s.skip(s.len() - trim_start(s, c).len()),
        trim_start(s, c).len() > 0 ==> trim_start(s, c)[0] != c,
        forall|i: int| 0 <= i < s.len() - trim_start(s, c).len() ==> #[trigger] s[i] == c,
    decreases s.len(),
{
    if s.len() > 0 && s[0] == c {
        let rest = s.skip(1);
        law_trim_start_takes_the_head(rest, c);
        assert(trim_start(s, c) =~= s.skip(s.len() - trim_start(s, c).len()));
        assert forall|i: int| 0 <= i < s.len() - trim_start(s, c).len() implies #[trigger] s[i]
            == c by {
            if i > 0 {
                assert(rest[i - 1] == c);
            }
        }
    } else {
        assert(s =~= s.skip(0));
    }
}

/// Among the ASCII characters the white space is the tab, the line feed and
/// those beside it, and the blank; no character beyond the ideographic blank is.
pub proof fn law_ascii_white_space(c: char)
    ensures
        c <= '\u{7f}' ==> (white(c) <==> c == ' ' || c == '\t' || c == '\n' || c == '\u{b}' || c
            == '\u{c}' || c == '\r'),
        c > '\u{3000}' ==> !white(c),
        white('\u{85}') && white('\u{a0}') && white('\u{1680}') && white('\u{2028}') && white(
            '\u{3000}',
        ),
{
}

/// What is trimmed off is white space, and what is left is all that stands
/// between.
pub proof fn law_trim_keeps_the_middle(s: Seq<char>)
    ensures
        exists|a: int, b: int| #[trigger] is_middle(s, trim(s), a, b),
        trim(s).len() > 0 <==> exists|i: int| 0 <= i < s.len() && !white(#[trigger] s[i]),
{
    lemma_trim_left_skips(s);
    let left = trim_left(s);
    lemma_trim_right_takes(left);
    let a = s.len() - left.len();
    let b = a + trim(s).len();
    assert(trim(s) =~= s.subrange(a, b));
    assert forall|i: int| b <= i < s.len() implies white(#[trigger] s[i]) by {
        assert(s[i] == left[i - a]);
    }
    assert(is_middle(s, trim(s), a, b));
    if trim(s).len() > 0 {
        assert(trim(s)[0] == s[a]);
        crate::text::law_trim_is_final(s);
        assert(!white(s[a]));
    } else if exists|i: int| 0 <= i < s.len() && !white(#[trigger] s[i]) {
        let i = choose|i: int| 0 <= i < s.len() && !white(#[trigger] s[i]);
        assert(i < a || i >= b);
    }
}

/// Whether `t` is what stands in `s` from `a` up to `b`, with nothing but white
/// space around it.
pub open spec fn is_middle(s: Seq<char>, t: Seq<char>, a: int, b: int) -> bool {
    &&& 0 <= a <= b <= s.len()
    &&& t == s.subrange(a, b)
    &&& forall|i: int| 0 <= i < a ==> white(#[trigger] s[i])
    &&& forall|i: int| b <= i < s.len() ==> white(#[trigger] s[i])
    &&& a < b ==> !white(s[a]) && !white(s[b - 1])
}

proof fn lemma_trim_left_skips(s: Seq<char>)
    ensures
        trim_left(s).len() <= s.len(),
        trim_left(s) == s.skip(s.len() - trim_left(s).len()),
        trim_left(s).len() > 0 ==> !white(trim_left(s)[0]),
        forall|i: int| 0 <= i < s.len() - trim_left(s).len() ==> white(#[trigger] s[i]),
    decreases s.len(),
{
    if s.len() > 0 && white(s[0]) {
        let rest = s.skip(1);
        lemma_trim_left_skips(rest);
        assert(trim_left(s) =~= s.skip(s.len() - trim_left(s).len()));
        assert forall|i: int| 0 <= i < s.len() - trim_left(s).len() implies white(
            #[trigger] s[i],
        ) by {
            if i > 0 {
                assert(white(rest[i - 1]));
            }
        }
    } else {
        assert(s =~= s.skip(0));
    }
}

proof fn lemma_trim_right_takes(s: Seq<char>)
    ensures
        trim_right(s).len() <= s.len(),
        trim_right(s) == s.take(trim_right(s).len() as int),
        trim_right(s).len() > 0 ==> !white(trim_right(s).last()),
        forall|i: int| trim_right(s).len() <= i < s.len() ==> white(#[trigger] s[i]),
    decreases s.len(),
{
    if s.len() > 0 && white(s.last()) {
        let head = s.drop_last();
        lemma_trim_right_takes(head);
        assert(trim_right(s) =~= s.take(trim_right(s).len() as int));
        assert forall|i: int| trim_right(s).len() <= i < s.len() implies white(#[trigger] s[i]) by {
            if i < head.len() {
                assert(white(head[i]));
            }
        }
    } else {
        assert(s =~= s.take(s.len() as int));
    }
}

} // verus!
