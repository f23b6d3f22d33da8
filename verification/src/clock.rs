//! Clock times: whole seconds rendered as `HH:MM:SS`.

use crate::decimal::{
    differs_upward, digit_char, first_difference_at, lemma_decimal_len, lemma_padded_chars,
    lemma_padded_order, lemma_padded_two_digits, lemma_precedes_framed, lexicographic_le,
    padded_digits, precedes, push_padded,
};
use vstd::prelude::*;

verus! {

/// The clock text of `seconds`: hours, minutes and seconds, each zero-padded
/// to two digits, the hours growing beyond two digits where needed.
pub open spec fn clock_text(seconds: nat) -> Seq<char> {
    padded_digits(seconds / 3600) + seq![':'] + padded_digits((seconds % 3600) / 60) + seq![':']
        + padded_digits(seconds % 60)
}

/// `x` is `y` or comes before it when clock texts are read as times: a text
/// with fewer hour digits is the earlier one, and texts of one length compare
/// character by character.
pub open spec fn chronological_le(x: Seq<char>, y: Seq<char>) -> bool {
    x == y || precedes(x, y)
}

/// Renders a whole number of seconds as `HH:MM:SS`.
///
/// A fractional offset is truncated to whole seconds by the caller before it
/// gets here; the hours are not bounded.
pub fn format_time(seconds: u64) -> (text: String)
    ensures
        text@ == clock_text(seconds as nat),
{
    let hours: u64 = seconds / 3600;
    let minutes: u64 = (seconds % 3600) / 60;
    let secs: u64 = seconds % 60;
    let mut text = String::new();
    push_padded(&mut text, hours);
    text.push(':');
    push_padded(&mut text, minutes);
    text.push(':');
    push_padded(&mut text, secs);
    assert(text@ =~= clock_text(seconds as nat));
    text
}

/// A clock text is the padded hours followed by exactly six more characters.
pub proof fn lemma_clock_shape(seconds: nat)
    ensures
        clock_text(seconds).len() == padded_digits(seconds / 3600).len() + 6,
        clock_text(seconds).len() >= 8,
        clock_text(seconds) == padded_digits(seconds / 3600) + seq![
            ':',
            digit_char(((seconds % 3600) / 60) / 10),
            digit_char(((seconds % 3600) / 60) % 10),
            ':',
            digit_char((seconds % 60) / 10),
            digit_char((seconds % 60) % 10),
        ],
{
    lemma_padded_two_digits((seconds % 3600) / 60);
    lemma_padded_two_digits(seconds % 60);
    lemma_decimal_len(seconds / 3600);
    assert(clock_text(seconds) =~= padded_digits(seconds / 3600) + seq![
        ':',
        digit_char(((seconds % 3600) / 60) / 10),
        digit_char(((seconds % 3600) / 60) % 10),
        ':',
        digit_char((seconds % 60) / 10),
        digit_char((seconds % 60) % 10),
    ]);
}

/// The clock text never moves backwards as the offset grows: a later offset
/// renders as the same text or as one that reads as a later time. Between
/// texts of one length this is dictionary order.
pub proof fn lemma_format_time_monotonic(earlier: nat, later: nat)
    requires
        earlier <= later,
    ensures
        chronological_le(clock_text(earlier), clock_text(later)),
        clock_text(earlier).len() == clock_text(later).len() ==> lexicographic_le(
            clock_text(earlier),
            clock_text(later),
        ),
{
    let ha = earlier / 3600;
    let hb = later / 3600;
    let ma = (earlier % 3600) / 60;
    let mb = (later % 3600) / 60;
    let sa = earlier % 60;
    let sb = later % 60;
    let none = Seq::<char>::empty();
    let colon = seq![':'];
    let x = clock_text(earlier);
    let y = clock_text(later);
    if earlier < later {
        assert(ha <= hb);
        if ha < hb {
            lemma_padded_order(ha, hb);
            lemma_padded_two_digits(ma);
            lemma_padded_two_digits(mb);
            lemma_padded_two_digits(sa);
            lemma_padded_two_digits(sb);
            let s = colon + padded_digits(ma) + colon + padded_digits(sa);
            let t = colon + padded_digits(mb) + colon + padded_digits(sb);
            lemma_precedes_framed(none, padded_digits(ha), padded_digits(hb), s, t);
            assert(x =~= none + padded_digits(ha) + s);
            assert(y =~= none + padded_digits(hb) + t);
        } else if ma < mb {
            lemma_padded_order(ma, mb);
            lemma_padded_two_digits(sa);
            lemma_padded_two_digits(sb);
            let p = padded_digits(ha) + colon;
            let s = colon + padded_digits(sa);
            let t = colon + padded_digits(sb);
            lemma_precedes_framed(p, padded_digits(ma), padded_digits(mb), s, t);
            assert(x =~= p + padded_digits(ma) + s);
            assert(y =~= p + padded_digits(mb) + t);
        } else {
            assert(ma == mb);
            assert(sa < sb);
            lemma_padded_order(sa, sb);
            let p = padded_digits(ha) + colon + padded_digits(ma) + colon;
            lemma_precedes_framed(p, padded_digits(sa), padded_digits(sb), none, none);
            assert(x =~= p + padded_digits(sa) + none);
            assert(y =~= p + padded_digits(sb) + none);
        }
        assert(precedes(x, y));
    }
}

/// Dictionary order agrees with the order of the offsets exactly where the
/// hour fields allow it: the clock text of an earlier offset sorts at or
/// before that of a later one if and only if both texts have one length or
/// their hour fields, read as text, already sort that way. It fails where
/// the later hour field is longer and starts like the earlier one or below
/// it, as between ninety-nine and one hundred hours.
pub proof fn lemma_format_time_dictionary_order(earlier: nat, later: nat)
    requires
        earlier <= later,
    ensures
        lexicographic_le(clock_text(earlier), clock_text(later)) <==> (clock_text(earlier).len()
            == clock_text(later).len() || differs_upward(
            padded_digits(earlier / 3600),
            padded_digits(later / 3600),
        )),
{
    let x = clock_text(earlier);
    let y = clock_text(later);
    let hx = padded_digits(earlier / 3600);
    let hy = padded_digits(later / 3600);
    let n = hx.len() as int;
    lemma_format_time_monotonic(earlier, later);
    lemma_clock_shape(earlier);
    lemma_clock_shape(later);
    lemma_padded_chars(earlier / 3600);
    lemma_padded_chars(later / 3600);
    if x.len() != y.len() {
        assert(earlier / 3600 <= later / 3600);
        if earlier / 3600 < later / 3600 {
            lemma_padded_order(earlier / 3600, later / 3600);
        }
        assert(n < hy.len());
        assert(x[n] == ':');
        assert(y[n] == hy[n]);
        if differs_upward(hx, hy) {
            let k = choose|k: int| first_difference_at(hx, hy, k);
            assert(x.take(k) =~= hx.take(k));
            assert(y.take(k) =~= hy.take(k));
            assert(first_difference_at(x, y, k));
        }
        if lexicographic_le(x, y) {
            if x.is_prefix_of(y) {
                assert(x[n] == y.subrange(0, x.len() as int)[n]);
            } else {
                let k = choose|k: int| first_difference_at(x, y, k);
                if k < n {
                    assert(hx.take(k) =~= x.take(k).take(k));
                    assert(hy.take(k) =~= y.take(k).take(k));
                    assert(hx.take(k) =~= x.take(k));
                    assert(hy.take(k) =~= y.take(k));
                    assert(first_difference_at(hx, hy, k));
                } else if k > n {
                    assert(x.take(k)[n] == y.take(k)[n]);
                }
            }
        }
    }
}

} // verus!
