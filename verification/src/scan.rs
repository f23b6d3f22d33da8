//! Scanning of line-oriented program output: lines, substrings and fields
//! between separators.

use crate::text::{chars_of, string_of};
use vstd::prelude::*;

verus! {

/// `n` is where `c` first occurs in `s`, or the length of `s` if it does not
/// occur.
pub open spec fn is_first_index(s: Seq<char>, c: char, n: int) -> bool {
    &&& 0 <= n <= s.len()
    &&& forall|k: int| 0 <= k < n ==> s[k] != c
    &&& n < s.len() ==> s[n] == c
}

/// Where `c` first occurs in `s`, or the length of `s` if it does not occur.
pub open spec fn first_index(s: Seq<char>, c: char) -> int {
    choose|n: int| is_first_index(s, c, n)
}

/// `key` occurs in `s` as a contiguous run of characters.
pub open spec fn contains(s: Seq<char>, key: Seq<char>) -> bool {
    exists|i: int| occurs_at(s, key, i)
}

/// `key` occurs in `s` starting at position `i`.
pub open spec fn occurs_at(s: Seq<char>, key: Seq<char>, i: int) -> bool {
    0 <= i && i + key.len() <= s.len() && s.subrange(i, i + key.len()) == key
}

/// The piece numbered `n`, counting from zero, of `s` cut at every
/// occurrence of `separator`; `None` if there are fewer pieces.
pub open spec fn split_piece(s: Seq<char>, separator: char, n: nat) -> Option<Seq<char>>
    decreases n,
{
    let end = first_index(s, separator);
    if n == 0 {
        Some(s.take(end))
    } else if end < s.len() {
        split_piece(s.skip(end + 1), separator, (n - 1) as nat)
    } else {
        None
    }
}

/// `line` without one carriage return at its end.
pub open spec fn without_carriage_return(line: Seq<char>) -> Seq<char> {
    if line.len() > 0 && line.last() == '\r' {
        line.drop_last()
    } else {
        line
    }
}

/// The first line of `text`, up to its line feed if it has one. A line that
/// ends in a line feed loses a carriage return in front of it.
pub open spec fn first_line(text: Seq<char>) -> Seq<char> {
    let end = first_index(text, '\n');
    if end < text.len() {
        without_carriage_return(text.take(end))
    } else {
        text
    }
}

/// The first line of `text` that contains `key`. Lines end at a line feed;
/// the end of the text ends the last line, and no line follows a final line
/// feed.
pub open spec fn line_with(text: Seq<char>, key: Seq<char>) -> Option<Seq<char>>
    decreases text.len(),
{
    let end = first_index(text, '\n');
    if text.len() == 0 {
        None
    } else if contains(first_line(text), key) {
        Some(first_line(text))
    } else if 0 <= end < text.len() {
        line_with(text.skip(end + 1), key)
    } else {
        None
    }
}

/// The position found by a scan is the first index.
pub proof fn lemma_first_index(s: Seq<char>, c: char, n: int)
    requires
        is_first_index(s, c, n),
    ensures
        first_index(s, c) == n,
{
    let m = first_index(s, c);
    assert(is_first_index(s, c, m));
    if m < n {
        assert(s[m] != c);
    } else if n < m {
        assert(s[n] != c);
    }
}

/// Finds the first `c` in `chars[from..to]`; returns `to` if there is none.
pub fn find_char(chars: &Vec<char>, from: usize, to: usize, c: char) -> (at: usize)
    requires
        from <= to <= chars.len(),
    ensures
        from <= at <= to,
        at - from == first_index(chars@.subrange(from as int, to as int), c),
{
    let mut at: usize = from;
    while at < to && chars[at] != c
        invariant
            from <= at <= to <= chars.len(),
            forall|k: int| from <= k < at ==> chars@[k] != c,
        decreases to - at,
    {
        at += 1;
    }
    proof {
        lemma_first_index(chars@.subrange(from as int, to as int), c, at - from);
    }
    at
}

fn matches_at(chars: &Vec<char>, at: usize, to: usize, key: &Vec<char>) -> (found: bool)
    requires
        at <= to <= chars.len(),
        at + key.len() <= to,
    ensures
        found == (chars@.subrange(at as int, at + key.len()) == key@),
{
    let mut j: usize = 0;
    while j < key.len()
        invariant
            j <= key.len(),
            at + key.len() <= to <= chars.len(),
            forall|k: int| 0 <= k < j ==> chars@[at + k] == key@[k],
        decreases key.len() - j,
    {
        if chars[at + j] != key[j] {
            assert(chars@.subrange(at as int, at + key.len())[j as int] != key@[j as int]);
            return false;
        }
        j += 1;
    }
    assert(chars@.subrange(at as int, at + key.len()) =~= key@);
    true
}

/// Whether `key` occurs in `chars[from..to]`.
pub fn range_contains(chars: &Vec<char>, from: usize, to: usize, key: &Vec<char>) -> (found: bool)
    requires
        from <= to <= chars.len(),
    ensures
        found == contains(chars@.subrange(from as int, to as int), key@),
{
    let ghost line = chars@.subrange(from as int, to as int);
    if key.len() == 0 {
        assert(line.subrange(0, 0) =~= key@);
        assert(occurs_at(line, key@, 0));
        return true;
    }
    if key.len() > to - from {
        return false;
    }
    let last: usize = to - key.len();
    let mut at: usize = from;
    while at <= last
        invariant
            from <= at <= last + 1,
            last + key.len() == to,
            key.len() > 0,
            to <= chars.len(),
            line == chars@.subrange(from as int, to as int),
            forall|i: int| 0 <= i < at - from ==> !occurs_at(line, key@, i),
        decreases last + 1 - at,
    {
        if matches_at(chars, at, to, key) {
            assert(line.subrange(at - from, at - from + key.len()) =~= chars@.subrange(
                at as int,
                at + key.len(),
            ));
            assert(occurs_at(line, key@, at - from));
            return true;
        }
        assert(line.subrange(at - from, at - from + key.len()) =~= chars@.subrange(
            at as int,
            at + key.len(),
        ));
        at += 1;
    }
    false
}

/// Locates piece `n` of `chars[from..to]` cut at every `separator`.
pub fn find_piece(chars: &Vec<char>, from: usize, to: usize, separator: char, n: usize) -> (piece:
    Option<(usize, usize)>)
    requires
        from <= to <= chars.len(),
    ensures
        match piece {
            Some((start, end)) => from <= start <= end <= to && split_piece(
                chars@.subrange(from as int, to as int),
                separator,
                n as nat,
            ) == Some(chars@.subrange(start as int, end as int)),
            None => split_piece(chars@.subrange(from as int, to as int), separator, n as nat)
                is None,
        },
{
    let mut start: usize = from;
    let mut left: usize = n;
    loop
        invariant
            from <= start <= to <= chars.len(),
            left <= n,
            split_piece(chars@.subrange(from as int, to as int), separator, n as nat)
                == split_piece(chars@.subrange(start as int, to as int), separator, left as nat),
        decreases left,
    {
        let end = find_char(chars, start, to, separator);
        let ghost rest = chars@.subrange(start as int, to as int);
        if left == 0 {
            assert(rest.take(end - start) =~= chars@.subrange(start as int, end as int));
            return Some((start, end));
        }
        if end == to {
            return None;
        }
        assert(rest.skip(end - start + 1) =~= chars@.subrange(end + 1, to as int));
        start = end + 1;
        left -= 1;
    }
}

/// Locates the first line of `chars` that contains `key`.
pub fn find_line(chars: &Vec<char>, key: &Vec<char>) -> (line: Option<(usize, usize)>)
    ensures
        match line {
            Some((start, end)) => start <= end <= chars.len() && line_with(chars@, key@) == Some(
                chars@.subrange(start as int, end as int),
            ),
            None => line_with(chars@, key@) is None,
        },
{
    let len = chars.len();
    let mut start: usize = 0;
    assert(chars@.skip(0) =~= chars@);
    while start < len
        invariant
            start <= len == chars.len(),
            line_with(chars@, key@) == line_with(chars@.skip(start as int), key@),
        decreases len - start,
    {
        let ghost rest = chars@.skip(start as int);
        assert(rest =~= chars@.subrange(start as int, len as int));
        let feed = find_char(chars, start, len, '\n');
        let end: usize = if feed < len && feed > start && chars[feed - 1] == '\r' {
            feed - 1
        } else {
            feed
        };
        proof {
            if feed < len {
                assert(rest.take(feed - start) =~= chars@.subrange(start as int, feed as int));
                if feed > start && chars@[feed - 1] == '\r' {
                    assert(rest.take(feed - start).drop_last() =~= chars@.subrange(
                        start as int,
                        end as int,
                    ));
                }
            }
            assert(first_line(rest) == chars@.subrange(start as int, end as int));
        }
        if range_contains(chars, start, end, key) {
            return Some((start, end));
        }
        if feed == len {
            return None;
        }
        assert(rest.skip(feed - start + 1) =~= chars@.skip(feed + 1));
        start = feed + 1;
    }
    None
}

/// The field of a report that follows `key`: on the first line that contains
/// `key`, the text between the third and the fourth double quote, or up to
/// the end of the line where there is no fourth.
pub open spec fn quoted_value(report: Seq<char>, key: Seq<char>) -> Option<Seq<char>> {
    match line_with(report, key) {
        Some(line) => split_piece(line, '"', 3),
        None => None,
    }
}

/// Reads the value that a report of the form `"key" = "value"` gives for
/// `key`.
pub fn read_quoted_value(report: &str, key: &str) -> (value: Option<String>)
    ensures
        value.deep_view() == quoted_value(report@, key@),
{
    let chars = chars_of(report);
    let key_chars = chars_of(key);
    match find_line(&chars, &key_chars) {
        Some((start, end)) => match find_piece(&chars, start, end, '"', 3) {
            Some((from, to)) => Some(string_of(&chars, from, to)),
            None => None,
        },
        None => None,
    }
}

} // verus!
