//! The passphrase generator.

use rand_core::RngCore;
use vstd::prelude::*;
use vstd::relations::*;
use vstd::set_lib::*;
use vstd::string::*;
use vstd::utf8::*;

verus! {

/// Charset switches of the passphrase generator. Each switch adds a disjoint
/// subset to the selection alphabet; the final character pool is the union of
/// every selected switch.
#[derive(Clone, Copy, Debug, PartialEq, Eq, Structural)]
pub struct PassgenOpts {
    pub length: usize,
    pub lowercase: bool,
    pub uppercase: bool,
    pub digits: bool,
    pub symbols: bool,
}

/// The characters of an ASCII text as bytes.
pub open spec fn ascii(s: Seq<char>) -> Seq<u8> {
    Seq::new(s.len(), |i: int| s[i] as u8)
}

/// Lower-case letters, without the ambiguous `l`.
pub open spec fn lower_set() -> Seq<u8> {
    ascii("abcdefghijkmnopqrstuvwxyz"@)
}

/// Upper-case letters, without the ambiguous `I` and `O`.
pub open spec fn upper_set() -> Seq<u8> {
    ascii("ABCDEFGHJKLMNPQRSTUVWXYZ"@)
}

/// Digits, without the ambiguous `0` and `1`.
pub open spec fn digit_set() -> Seq<u8> {
    ascii("23456789"@)
}

pub open spec fn symbol_set() -> Seq<u8> {
    ascii("!@#$%^&*-_=+?.,;:"@)
}

pub open spec fn pick(on: bool, set: Seq<u8>) -> Seq<u8> {
    if on {
        set
    } else {
        seq![]
    }
}

fn extend_ascii(out: &mut Vec<u8>, s: &str)
    requires
        is_ascii_chars(s@),
    ensures
        final(out)@ == old(out)@ + ascii(s@),
{
    proof {
        is_ascii_chars_encode_utf8(s@);
    }
    out.extend_from_slice(s.as_bytes());
    assert(s.spec_bytes() =~= ascii(s@));
    assert(out@ =~= old(out)@ + ascii(s@));
}

impl Default for PassgenOpts {
    /// Twenty characters out of all four sets.
    fn default() -> (o: PassgenOpts)
        ensures
            o == (PassgenOpts {
                length: 20,
                lowercase: true,
                uppercase: true,
                digits: true,
                symbols: true,
            }),
    {
        PassgenOpts { length: 20, lowercase: true, uppercase: true, digits: true, symbols: true }
    }
}

impl PassgenOpts {
    /// The alphabet that the switches select.
    pub open spec fn alphabet(self) -> Seq<u8> {
        pick(self.lowercase, lower_set()) + pick(self.uppercase, upper_set()) + pick(
            self.digits,
            digit_set(),
        ) + pick(self.symbols, symbol_set())
    }

    pub open spec fn valid(self) -> bool {
        &&& 4 <= self.length <= 256
        &&& self.lowercase || self.uppercase || self.digits || self.symbols
    }

    /// The selected characters, in a fixed order.
    pub fn charset(self) -> (s: Vec<u8>)
        ensures
            s@ == self.alphabet(),
    {
        let mut s: Vec<u8> = Vec::with_capacity(96);
        proof {
            reveal_strlit("abcdefghijkmnopqrstuvwxyz");
            reveal_strlit("ABCDEFGHJKLMNPQRSTUVWXYZ");
            reveal_strlit("23456789");
            reveal_strlit("!@#$%^&*-_=+?.,;:");
        }
        if self.lowercase {
            extend_ascii(&mut s, "abcdefghijkmnopqrstuvwxyz");
        }
        if self.uppercase {
            extend_ascii(&mut s, "ABCDEFGHJKLMNPQRSTUVWXYZ");
        }
        if self.digits {
            extend_ascii(&mut s, "23456789");
        }
        if self.symbols {
            extend_ascii(&mut s, "!@#$%^&*-_=+?.,;:");
        }
        assert(s@ =~= self.alphabet());
        s
    }

    /// Whether a passphrase can be generated: 4 to 256 characters out of at
    /// least one set.
    pub fn is_valid(self) -> (b: bool)
        ensures
            b == self.valid(),
    {
        self.length >= 4 && self.length <= 256 && (self.lowercase || self.uppercase || self.digits
            || self.symbols)
    }
}

/// The options that are really used: invalid ones are replaced by the default.
pub open spec fn effective(opts: PassgenOpts) -> PassgenOpts {
    if opts.valid() {
        opts
    } else {
        PassgenOpts { length: 20, lowercase: true, uppercase: true, digits: true, symbols: true }
    }
}

/// The largest multiple of `n` among the 256 values of a byte. Bytes from here
/// on are rejected, so that the remainder of the others is not biased.
pub open spec fn cutoff(n: int) -> int {
    256 - 256int % n
}

/// The characters that random `bytes` give, at most `room` of them.
pub open spec fn drawn(charset: Seq<u8>, bytes: Seq<u8>, room: nat) -> Seq<char>
    decreases bytes.len(),
{
    if bytes.len() == 0 || room == 0 {
        seq![]
    } else if bytes[0] < cutoff(charset.len() as int) {
        seq![charset[bytes[0] as int % charset.len() as int] as char] + drawn(
            charset,
            bytes.skip(1),
            (room - 1) as nat,
        )
    } else {
        drawn(charset, bytes.skip(1), room)
    }
}

/// Appends to `out` the characters that `bytes` give, until it is `length`
/// long.
pub fn draw_chars(charset: &Vec<u8>, bytes: &[u8], out: String, length: usize) -> (r: String)
    requires
        0 < charset@.len() <= 256,
        out@.len() <= length,
    ensures
        r@ == out@ + drawn(charset@, bytes@, (length - out@.len()) as nat),
        r@.len() <= length,
{
    let n: usize = charset.len();
    let mut r = out;
    let mut count: usize = r.as_str().unicode_len();
    let mut i: usize = 0;
    assert(bytes@.skip(0) =~= bytes@);
    assert(cutoff(n as int) <= 256);
    let bound: usize = 256 - 256 % n;
    while i < bytes.len() && count < length
        invariant
            n == charset@.len(),
            0 < n <= 256,
            bound == cutoff(n as int),
            i <= bytes@.len(),
            count == r@.len(),
            count <= length,
            out@ + drawn(charset@, bytes@, (length - out@.len()) as nat) == r@ + drawn(
                charset@,
                bytes@.skip(i as int),
                (length - count) as nat,
            ),
        decreases bytes.len() - i,
    {
        let b: u8 = bytes[i];
        proof {
            let rest = bytes@.skip(i as int);
            assert(rest[0] == b);
            assert(rest.skip(1) =~= bytes@.skip(i + 1));
        }
        if (b as usize) < bound {
            let c: char = charset[(b as usize) % n] as char;
            assert(r@ + (seq![c] + drawn(
                charset@,
                bytes@.skip(i + 1),
                (length - count - 1) as nat,
            )) =~= r@.push(c) + drawn(
                charset@,
                bytes@.skip(i + 1),
                (length - count - 1) as nat,
            ));
            r.push(c);
            count = count + 1;
        }
        i = i + 1;
    }
    assert(drawn(charset@, bytes@.skip(i as int), (length - count) as nat) =~= Seq::<char>::empty());
    assert(r@ + Seq::<char>::empty() =~= r@);
    r
}

/// `rand_core::OsRng::try_fill_bytes` on 64 bytes: a block of random bytes, or
/// none if the operating system has none to give. Nothing is claimed of them.
#[verifier::external_body]
fn random_block() -> (b: Option<[u8; 64]>) {
    let mut buf = [0u8; 64];
    match rand_core::OsRng.try_fill_bytes(&mut buf) {
        Ok(()) => Some(buf),
        Err(_) => None,
    }
}

/// How often the generator asks for another block before it gives up.
pub const MAX_BLOCKS: u64 = 0xffff_ffff_ffff_ffff;

/// Whether `block` may be what the random generator answers, when asked for a
/// block.
pub closed spec fn may_be_drawn(block: Option<[u8; 64]>) -> bool {
    call_ensures(random_block, (), block)
}

/// Whether the random generator may give these blocks, one after the other.
pub open spec fn all_drawn(blocks: Seq<[u8; 64]>) -> bool {
    forall|i: int| 0 <= i < blocks.len() ==> may_be_drawn(Some(#[trigger] blocks[i]))
}

/// The passphrase so far, once these blocks have been used up.
pub open spec fn after_blocks(o: PassgenOpts, blocks: Seq<[u8; 64]>) -> Seq<char>
    decreases blocks.len(),
{
    if blocks.len() == 0 {
        seq![]
    } else {
        let before = after_blocks(o, blocks.drop_last());
        before + drawn(o.alphabet(), blocks.last()@, (o.length - before.len()) as nat)
    }
}

fn draw_block() -> (block: Option<[u8; 64]>)
    ensures
        may_be_drawn(block),
{
    let draw = random_block;
    draw()
}

/// Whether `c` is one of the characters of `charset`.
pub open spec fn in_charset(c: char, charset: Seq<u8>) -> bool {
    exists|k: int| 0 <= k < charset.len() && c == (#[trigger] charset[k]) as char
}

/// Whether every character of `s` is in `charset`.
pub open spec fn over(s: Seq<char>, charset: Seq<u8>) -> bool {
    forall|i: int| 0 <= i < s.len() ==> in_charset(#[trigger] s[i], charset)
}

/// Everything that is drawn comes from the charset.
pub proof fn law_drawn_from_charset(charset: Seq<u8>, bytes: Seq<u8>, room: nat)
    requires
        charset.len() > 0,
    ensures
        over(drawn(charset, bytes, room), charset),
        drawn(charset, bytes, room).len() <= room,
    decreases bytes.len(),
{
    if bytes.len() > 0 && room > 0 {
        if bytes[0] < cutoff(charset.len() as int) {
            let rest = drawn(charset, bytes.skip(1), (room - 1) as nat);
            law_drawn_from_charset(charset, bytes.skip(1), (room - 1) as nat);
            let all = drawn(charset, bytes, room);
            let k0 = bytes[0] as int % charset.len() as int;
            assert forall|i: int| 0 <= i < all.len() implies in_charset(#[trigger] all[i], charset) by {
                if i == 0 {
                    assert(all[0] == charset[k0] as char);
                } else {
                    assert(all[i] == rest[i - 1]);
                }
            }
        } else {
            law_drawn_from_charset(charset, bytes.skip(1), room);
        }
    }
}

proof fn lemma_over_concat(a: Seq<char>, b: Seq<char>, charset: Seq<u8>)
    requires
        over(a, charset),
        over(b, charset),
    ensures
        over(a + b, charset),
{
    assert forall|i: int| 0 <= i < (a + b).len() implies in_charset(
        #[trigger] (a + b)[i],
        charset,
    ) by {
        if i < a.len() {
            assert((a + b)[i] == a[i]);
        } else {
            assert((a + b)[i] == b[i - a.len()]);
        }
    }
}

/// The size of the alphabet of valid options.
proof fn lemma_alphabet_len(o: PassgenOpts)
    requires
        o.valid(),
    ensures
        0 < o.alphabet().len() <= 74,
{
    reveal_strlit("abcdefghijkmnopqrstuvwxyz");
    reveal_strlit("ABCDEFGHJKLMNPQRSTUVWXYZ");
    reveal_strlit("23456789");
    reveal_strlit("!@#$%^&*-_=+?.,;:");
}

/// Generates a passphrase of the wanted length out of the selected characters,
/// each equally likely: what as many random blocks give as it takes. Invalid
/// options are replaced by the default ones. There is no passphrase if the
/// operating system's random generator fails, or has given blocks without end
/// that hold nothing of use.
pub fn generate_passphrase_with(opts: &PassgenOpts) -> (r: Option<String>)
    ensures
        match r {
            Some(s) => {
                &&& s@.len() == effective(*opts).length
                &&& over(s@, effective(*opts).alphabet())
                &&& exists|got: Seq<[u8; 64]>| #[trigger]
                    all_drawn(got) && s@ == after_blocks(effective(*opts), got)
            },
            None => may_be_drawn(None) || exists|got: Seq<[u8; 64]>| #[trigger]
                all_drawn(got) && got.len() == MAX_BLOCKS && after_blocks(
                    effective(*opts),
                    got,
                ).len() < effective(*opts).length,
        },
{
    let o = if opts.is_valid() {
        *opts
    } else {
        PassgenOpts::default()
    };
    proof {
        lemma_alphabet_len(o);
    }
    let mut out = String::new();
    let mut blocks: u64 = 0;
    let ghost mut got: Seq<[u8; 64]> = seq![];
    while out.as_str().unicode_len() < o.length
        invariant
            o == effective(*opts),
            o.valid(),
            0 < o.alphabet().len() <= 256,
            out@.len() <= o.length,
            over(out@, o.alphabet()),
            blocks == got.len(),
            all_drawn(got),
            out@ == after_blocks(o, got),
        decreases MAX_BLOCKS - blocks,
    {
        if blocks == MAX_BLOCKS {
            return None;
        }
        blocks = blocks + 1;
        let block = draw_block();
        proof {
            if let Some(b) = block {
                let room = (o.length - out@.len()) as nat;
                law_drawn_from_charset(o.alphabet(), b@, room);
                lemma_over_concat(out@, drawn(o.alphabet(), b@, room), o.alphabet());
                assert(got.push(b).drop_last() =~= got);
                got = got.push(b);
            }
        }
        match take_block(&o, out, block) {
            None => {
                return None;
            },
            Some(longer) => {
                out = longer;
            },
        }
    }
    Some(out)
}

/// No character is favoured: of the byte values that are not rejected, exactly
/// `256 / n` select the character at any given place of an alphabet of `n`.
pub proof fn law_no_bias(n: int, c: int)
    requires
        0 <= c < n <= 256,
    ensures
        ({
            let chosen = Set::new(|b: int| 0 <= b < cutoff(n) && b % n == c);
            chosen.finite() && chosen.len() == 256int / n
        }),
{
    let q = 256int / n;
    let chosen = Set::new(|b: int| 0 <= b < cutoff(n) && b % n == c);
    let f = |k: int| k * n + c;
    let ks = set_int_range(0, q);
    lemma_int_range(0, q);
    assert(cutoff(n) == q * n) by (nonlinear_arith)
        requires
            q == 256int / n,
            cutoff(n) == 256 - 256int % n,
            0 < n,
    ;
    assert forall|b: int| chosen.contains(b) implies ks.map(f).contains(b) by {
        let k = b / n;
        assert(b == k * n + c && 0 <= k < q) by (nonlinear_arith)
            requires
                0 <= b < q * n,
                b % n == c,
                k == b / n,
                0 < n,
        ;
        assert(ks.contains(k) && f(k) == b);
    }
    assert forall|b: int| ks.map(f).contains(b) implies chosen.contains(b) by {
        let k = choose|k: int| ks.contains(k) && f(k) == b;
        assert(0 <= k * n + c < q * n && (k * n + c) % n == c) by (nonlinear_arith)
            requires
                0 <= k < q,
                0 <= c < n,
        ;
    }
    assert(ks.map(f) =~= chosen);
    assert forall|x: int, y: int| ks.contains(x) && ks.contains(y) && f(x) == f(y) implies x == y by {
        assert(x == y) by (nonlinear_arith)
            requires
                x * n + c == y * n + c,
                0 < n,
        ;
    }
    assert(injective_on(f, ks));
    lemma_map_size(ks, chosen, f);
}

/// The four character sets: where each of their characters lies.
proof fn lemma_sets()
    ensures
        lower_set().len() == 25,
        upper_set().len() == 24,
        digit_set().len() == 8,
        symbol_set().len() == 17,
        forall|i: int| 0 <= i < 25 ==> (#[trigger] lower_set()[i]) == 97 + i + (if i >= 11 {
            1int
        } else {
            0
        }),
        forall|i: int| 0 <= i < 24 ==> (#[trigger] upper_set()[i]) == 65 + i + (if i >= 8 {
            1int
        } else {
            0
        }) + (if i >= 13 {
            1int
        } else {
            0
        }),
        forall|i: int| 0 <= i < 8 ==> (#[trigger] digit_set()[i]) == 50 + i,
        forall|i: int|
            0 <= i < 17 ==> {
                let c = #[trigger] symbol_set()[i];
                c < 48 || 57 < c < 65 || 90 < c < 97
            },
        forall|i: int, j: int|
            0 <= i < j < 17 ==> (#[trigger] symbol_set()[i]) != (#[trigger] symbol_set()[j]),
{
    reveal_strlit("abcdefghijkmnopqrstuvwxyz");
    reveal_strlit("ABCDEFGHJKLMNPQRSTUVWXYZ");
    reveal_strlit("23456789");
    reveal_strlit("!@#$%^&*-_=+?.,;:");
}

/// The alphabet lists no character twice: the four sets are disjoint, and each
/// is free of repetitions. None of the characters that are easily mistaken for
/// one another (`0` and `O`, `1`, `l` and `I`) is in it.
pub proof fn law_alphabet_is_disjoint_union(o: PassgenOpts)
    ensures
        o.alphabet().no_duplicates(),
        !o.alphabet().contains(48u8),
        !o.alphabet().contains(79u8),
        !o.alphabet().contains(49u8),
        !o.alphabet().contains(108u8),
        !o.alphabet().contains(73u8),
{
    lemma_sets();
    let a = pick(o.lowercase, lower_set());
    let b = pick(o.uppercase, upper_set());
    let c = pick(o.digits, digit_set());
    let d = pick(o.symbols, symbol_set());
    let all = o.alphabet();
    assert forall|i: int| 0 <= i < all.len() implies #[trigger] all[i] == (if i < a.len() {
        a[i]
    } else if i < a.len() + b.len() {
        b[i - a.len()]
    } else if i < a.len() + b.len() + c.len() {
        c[i - a.len() - b.len()]
    } else {
        d[i - a.len() - b.len() - c.len()]
    }) by {}
}

/// What becomes of the passphrase so far once the random generator has
/// answered: the characters that the block gives are appended, until the
/// wanted length is reached, and without a block there is no passphrase.
pub fn take_block(opts: &PassgenOpts, out: String, block: Option<[u8; 64]>) -> (r: Option<String>)
    requires
        out@.len() <= effective(*opts).length,
    ensures
        match block {
            None => r is None,
            Some(b) => r matches Some(s) && s@ == out@ + drawn(
                effective(*opts).alphabet(),
                b@,
                (effective(*opts).length - out@.len()) as nat,
            ) && s@.len() <= effective(*opts).length,
        },
{
    let opts = if opts.is_valid() {
        *opts
    } else {
        PassgenOpts::default()
    };
    proof {
        lemma_alphabet_len(opts);
    }
    match block {
        None => None,
        Some(b) => {
            let charset = opts.charset();
            Some(draw_chars(&charset, b.as_slice(), out, opts.length))
        },
    }
}

/// The characters that are drawn from two rows of bytes are those from the first
/// and then, as far as there is room, those from the second.
pub proof fn law_drawn_in_order(charset: Seq<u8>, a: Seq<u8>, b: Seq<u8>, room: nat)
    requires
        charset.len() > 0,
    ensures
        drawn(charset, a + b, room) == drawn(charset, a, room) + drawn(
            charset,
            b,
            (room - drawn(charset, a, room).len()) as nat,
        ),
    decreases a.len(),
{
    if a.len() == 0 {
        assert(a + b =~= b);
        assert(drawn(charset, a, room) + drawn(charset, b, room) =~= drawn(charset, b, room));
    } else if room == 0 {
        assert(drawn(charset, a, room) + drawn(charset, b, 0) =~= drawn(charset, a + b, room));
    } else {
        let rest = a.skip(1);
        assert((a + b).skip(1) =~= rest + b);
        assert((a + b)[0] == a[0]);
        if a[0] < cutoff(charset.len() as int) {
            let first = seq![charset[a[0] as int % charset.len() as int] as char];
            law_drawn_in_order(charset, rest, b, (room - 1) as nat);
            let x = drawn(charset, rest, (room - 1) as nat);
            let y = drawn(charset, b, (room - 1 - x.len()) as nat);
            assert(first + (x + y) =~= (first + x) + y);
            assert(drawn(charset, a, room) == first + x);
        } else {
            law_drawn_in_order(charset, rest, b, room);
        }
    }
}

/// Of all the values that a random byte can have, exactly as many give one
/// character of the alphabet as give any other.
pub proof fn law_every_character_is_equally_likely(charset: Seq<u8>, c: int)
    requires
        0 <= c < charset.len() <= 256,
        charset.no_duplicates(),
    ensures
        ({
            let giving = Set::new(
                |b: int|
                    0 <= b < 256 && drawn(charset, seq![b as u8], 1) == seq![charset[c] as char],
            );
            giving.finite() && giving.len() == 256int / charset.len() as int
        }),
{
    let n = charset.len() as int;
    let giving = Set::new(
        |b: int| 0 <= b < 256 && drawn(charset, seq![b as u8], 1) == seq![charset[c] as char],
    );
    let chosen = Set::new(|b: int| 0 <= b < cutoff(n) && b % n == c);
    law_no_bias(n, c);
    assert(cutoff(n) <= 256) by (nonlinear_arith)
        requires
            cutoff(n) == 256 - 256int % n,
            0 < n,
    ;
    assert forall|b: int| 0 <= b < 256 implies (giving.contains(b) <==> chosen.contains(b)) by {
        let one = seq![b as u8];
        assert(one.skip(1) =~= Seq::<u8>::empty());
        assert(drawn(charset, one.skip(1), 0) =~= Seq::<char>::empty());
        assert(drawn(charset, one.skip(1), 1) =~= Seq::<char>::empty());
        let d = drawn(charset, one, 1);
        if b < cutoff(n) {
            let k = b % n;
            assert(d =~= seq![charset[k] as char]);
            if d == seq![charset[c] as char] {
                assert(d[0] == charset[c] as char);
                assert(charset[k] as char == charset[c] as char);
                assert(charset[k] == charset[c]);
            }
        } else {
            assert(d.len() == 0);
            assert(seq![charset[c] as char].len() == 1);
        }
    }
    assert(giving =~= chosen);
}

/// The alphabet holds exactly what the switches select: letters but for `l`, `I`
/// and `O`, digits from 2 on, and seventeen symbols, none of them a letter or a
/// digit.
pub proof fn law_switches_select_the_alphabet(o: PassgenOpts, c: u8)
    ensures
        97 <= c <= 122 && c != 108 ==> (o.alphabet().contains(c) <==> o.lowercase),
        65 <= c <= 90 && c != 73 && c != 79 ==> (o.alphabet().contains(c) <==> o.uppercase),
        50 <= c <= 57 ==> (o.alphabet().contains(c) <==> o.digits),
        !(97 <= c <= 122) && !(65 <= c <= 90) && !(48 <= c <= 57) && o.alphabet().contains(c)
            ==> o.symbols,
        symbol_set().len() == 17 && (symbol_set().contains(c) && o.symbols
            ==> o.alphabet().contains(c)),
{
    lemma_sets();
    let a = pick(o.lowercase, lower_set());
    let b = pick(o.uppercase, upper_set());
    let d = pick(o.digits, digit_set());
    let e = pick(o.symbols, symbol_set());
    let all = o.alphabet();
    assert forall|i: int| 0 <= i < all.len() implies #[trigger] all[i] == (if i < a.len() {
        a[i]
    } else if i < a.len() + b.len() {
        b[i - a.len()]
    } else if i < a.len() + b.len() + d.len() {
        d[i - a.len() - b.len()]
    } else {
        e[i - a.len() - b.len() - d.len()]
    }) by {}
    if all.contains(c) {
        let i = choose|i: int| 0 <= i < all.len() && all[i] == c;
        assert(all[i] == c);
    }
    if 97 <= c <= 122 && c != 108 && o.lowercase {
        let k = c as int - 97 - (if c > 108 {
            1int
        } else {
            0
        });
        assert(a[k] == c);
        assert(all[k] == c);
    }
    if 65 <= c <= 90 && c != 73 && c != 79 && o.uppercase {
        let k = c as int - 65 - (if c > 73 {
            1int
        } else {
            0
        }) - (if c > 79 {
            1int
        } else {
            0
        });
        assert(b[k] == c);
        assert(all[a.len() + k] == c);
    }
    if 50 <= c <= 57 && o.digits {
        let k = c as int - 50;
        assert(d[k] == c);
        assert(all[a.len() + b.len() + k] == c);
    }
    if symbol_set().contains(c) && o.symbols {
        let k = choose|k: int| 0 <= k < symbol_set().len() && symbol_set()[k] == c;
        assert(e[k] == c);
        assert(all[a.len() + b.len() + d.len() + k] == c);
    }
}

/// Options are used as they are if they name a set and a length from 4 to 256,
/// and are replaced by twenty characters out of all sets if not.
pub proof fn law_unusable_options_are_replaced(o: PassgenOpts)
    ensures
        ({
            let usable = 4 <= o.length && o.length <= 256 && (o.lowercase || o.uppercase || o.digits
                || o.symbols);
            let used = effective(o);
            &&& usable ==> used == o
            &&& !usable ==> used.length == 20 && used.lowercase && used.uppercase && used.digits
                && used.symbols
        }),
{
}

/// Each block goes on where the one before it stopped: the passphrase of more
/// blocks begins with that of fewer, it is drawn from all their bytes in turn,
/// and it never becomes longer than was asked for.
pub proof fn law_blocks_go_on_in_turn(o: PassgenOpts, blocks: Seq<[u8; 64]>, next: [u8; 64])
    requires
        o.alphabet().len() > 0,
    ensures
        ({
            let before = after_blocks(o, blocks);
            let after = after_blocks(o, blocks.push(next));
            &&& after_blocks(o, seq![]) == Seq::<char>::empty()
            &&& before.is_prefix_of(after)
            &&& after == before + drawn(o.alphabet(), next@, (o.length - before.len()) as nat)
            &&& before.len() <= o.length
            &&& over(before, o.alphabet())
        }),
    decreases blocks.len(),
{
    let before = after_blocks(o, blocks);
    let after = after_blocks(o, blocks.push(next));
    assert(blocks.push(next).drop_last() =~= blocks);
    assert(after =~= before + drawn(o.alphabet(), next@, (o.length - before.len()) as nat));
    assert(before =~= after.take(before.len() as int));
    if blocks.len() > 0 {
        let first = blocks.drop_last();
        law_blocks_go_on_in_turn(o, first, blocks.last());
        assert(first.push(blocks.last()) =~= blocks);
        let head = after_blocks(o, first);
        let room = (o.length - head.len()) as nat;
        let rest = drawn(o.alphabet(), blocks.last()@, room);
        law_drawn_from_charset(o.alphabet(), blocks.last()@, room);
        assert(before == head + rest);
        assert forall|i: int| 0 <= i < before.len() implies in_charset(
            #[trigger] before[i],
            o.alphabet(),
        ) by {
            if i < head.len() {
                assert(before[i] == head[i]);
            } else {
                assert(before[i] == rest[i - head.len()]);
            }
        }
    }
}

} // verus!
