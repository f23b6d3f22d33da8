//! Decimal rendering of unsigned integers, and how the rendered texts sort.

use vstd::prelude::*;

verus! {

/// The character for the decimal digit `d`.
pub open spec fn digit_char(d: nat) -> char
    recommends
        d < 10,
{
    (48 + d) as char
}

/// The decimal numeral of `n`, without leading zeros.
pub open spec fn decimal_digits(n: nat) -> Seq<char>
    decreases n,
{
    if n < 10 {
        seq![digit_char(n)]
    } else {
        decimal_digits(n / 10).push(digit_char(n % 10))
    }
}

/// The decimal numeral of `n`, zero-padded on the left to at least two digits.
pub open spec fn padded_digits(n: nat) -> Seq<char> {
    if n < 10 {
        seq!['0'] + decimal_digits(n)
    } else {
        decimal_digits(n)
    }
}

/// `x` sorts strictly before `y` when shorter texts come first and texts of
/// one length are compared character by character.
pub open spec fn precedes(x: Seq<char>, y: Seq<char>) -> bool {
    x.len() < y.len() || (x.len() == y.len() && differs_upward(x, y))
}

/// At the first position where `x` and `y` differ, `x` holds the smaller
/// character.
pub open spec fn differs_upward(x: Seq<char>, y: Seq<char>) -> bool {
    exists|k: int| first_difference_at(x, y, k)
}

/// `x` and `y` agree before position `k`, where `x` holds the smaller
/// character.
pub open spec fn first_difference_at(x: Seq<char>, y: Seq<char>, k: int) -> bool {
    &&& 0 <= k < x.len()
    &&& k < y.len()
    &&& x.take(k) == y.take(k)
    &&& (x[k] as u32) < (y[k] as u32)
}

/// `x` is `y`, or sorts before it in dictionary order.
pub open spec fn lexicographic_le(x: Seq<char>, y: Seq<char>) -> bool {
    x.is_prefix_of(y) || differs_upward(x, y)
}

fn digit_of(d: u8) -> (c: char)
    requires
        d < 10,
    ensures
        c == digit_char(d as nat),
{
    (48u8 + d) as char
}

/// Appends the decimal numeral of `n` to `out`.
pub fn push_decimal(out: &mut String, n: u64)
    ensures
        final(out)@ == old(out)@ + decimal_digits(n as nat),
    decreases n,
{
    if n >= 10 {
        push_decimal(out, n / 10);
    }
    out.push(digit_of((n % 10) as u8));
}

/// Appends the decimal numeral of `n`, zero-padded to two digits, to `out`.
pub fn push_padded(out: &mut String, n: u64)
    ensures
        final(out)@ == old(out)@ + padded_digits(n as nat),
{
    if n < 10 {
        out.push('0');
    }
    push_decimal(out, n);
}

/// The decimal numeral of `n` as a string.
pub fn decimal_string(n: u64) -> (s: String)
    ensures
        s@ == decimal_digits(n as nat),
{
    let mut s = String::new();
    push_decimal(&mut s, n);
    s
}

/// A numeral has at least one digit, and at least two from ten upward.
pub proof fn lemma_decimal_len(n: nat)
    ensures
        decimal_digits(n).len() >= 1,
        n >= 10 ==> decimal_digits(n).len() >= 2,
        n < 10 ==> decimal_digits(n).len() == 1,
    decreases n,
{
    if n >= 10 {
        lemma_decimal_len(n / 10);
    }
}

/// Every character of a numeral is a decimal digit, and the first one is not
/// zero unless the number is.
pub proof fn lemma_decimal_chars(n: nat)
    ensures
        forall|i: int|
            0 <= i < decimal_digits(n).len() ==> '0' <= #[trigger] decimal_digits(n)[i] <= '9',
        n > 0 ==> decimal_digits(n)[0] != '0',
    decreases n,
{
    if n >= 10 {
        lemma_decimal_chars(n / 10);
        lemma_decimal_len(n / 10);
    }
}

/// Appending one character to each of two texts keeps their order.
proof fn lemma_precedes_push(x: Seq<char>, y: Seq<char>, c: char, d: char)
    requires
        precedes(x, y),
    ensures
        precedes(x.push(c), y.push(d)),
{
    if x.len() == y.len() {
        let k = choose|k: int| first_difference_at(x, y, k);
        assert(x.push(c).take(k) =~= x.take(k));
        assert(y.push(d).take(k) =~= y.take(k));
        assert(first_difference_at(x.push(c), y.push(d), k));
    }
}

/// A smaller number has the numeral that sorts first.
pub proof fn lemma_decimal_order(a: nat, b: nat)
    requires
        a < b,
    ensures
        precedes(decimal_digits(a), decimal_digits(b)),
    decreases b,
{
    lemma_decimal_len(a);
    lemma_decimal_len(b);
    if b < 10 {
        assert(decimal_digits(a).take(0) =~= decimal_digits(b).take(0));
        assert(first_difference_at(decimal_digits(a), decimal_digits(b), 0));
    } else if a >= 10 {
        let x = decimal_digits(a / 10);
        let y = decimal_digits(b / 10);
        let c = digit_char(a % 10);
        let d = digit_char(b % 10);
        if a / 10 == b / 10 {
            let k = x.len() as int;
            assert(x.push(c).take(k) =~= y.push(d).take(k));
            assert(first_difference_at(x.push(c), y.push(d), k));
        } else {
            lemma_decimal_order(a / 10, b / 10);
            lemma_precedes_push(x, y, c, d);
        }
    }
}

/// A smaller number has the padded numeral that sorts first.
pub proof fn lemma_padded_order(a: nat, b: nat)
    requires
        a < b,
    ensures
        precedes(padded_digits(a), padded_digits(b)),
{
    lemma_decimal_len(a);
    lemma_decimal_len(b);
    let x = padded_digits(a);
    let y = padded_digits(b);
    if b < 10 {
        assert(x.take(1) =~= y.take(1));
        assert(first_difference_at(x, y, 1));
    } else if a < 10 {
        if y.len() == 2 {
            lemma_decimal_chars(b);
            assert(x.take(0) =~= y.take(0));
            assert(first_difference_at(x, y, 0));
        }
    } else {
        lemma_decimal_order(a, b);
    }
}

/// Every character of a padded numeral is a decimal digit.
pub proof fn lemma_padded_chars(n: nat)
    ensures
        padded_digits(n).len() >= 2,
        forall|i: int|
            0 <= i < padded_digits(n).len() ==> '0' <= #[trigger] padded_digits(n)[i] <= '9',
{
    lemma_decimal_chars(n);
    lemma_decimal_len(n);
}

/// Below one hundred, the padded numeral is the tens digit and the units
/// digit.
pub proof fn lemma_padded_two_digits(n: nat)
    requires
        n < 100,
    ensures
        padded_digits(n) == seq![digit_char(n / 10), digit_char(n % 10)],
{
    if n >= 10 {
        assert(decimal_digits(n) == decimal_digits(n / 10).push(digit_char(n % 10)));
    }
    assert(padded_digits(n) =~= seq![digit_char(n / 10), digit_char(n % 10)]);
}

/// Order survives a common prefix and suffixes of one length.
pub proof fn lemma_precedes_framed(
    prefix: Seq<char>,
    x: Seq<char>,
    y: Seq<char>,
    s: Seq<char>,
    t: Seq<char>,
)
    requires
        precedes(x, y),
        s.len() == t.len(),
    ensures
        precedes(prefix + x + s, prefix + y + t),
{
    if x.len() == y.len() {
        let k = choose|k: int| first_difference_at(x, y, k);
        let j = prefix.len() + k;
        assert((prefix + x + s).take(j) =~= prefix + x.take(k));
        assert((prefix + y + t).take(j) =~= prefix + y.take(k));
        assert(first_difference_at(prefix + x + s, prefix + y + t, j));
    }
}

} // verus!
