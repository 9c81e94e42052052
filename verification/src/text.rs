//! String utilities: equality, substring search, splitting and decimal
//! digits, each specified over `Seq<char>` views.

use vstd::prelude::*;
use vstd::string::*;

verus! {

/// Character-wise equality of two string slices.
pub fn str_eq(a: &str, b: &str) -> (r: bool)
    ensures
        r == (a@ == b@),
{
    let alen = a.unicode_len();
    let blen = b.unicode_len();
    if alen != blen {
        proof {
            assert(a@.len() != b@.len());
        }
        return false;
    }
    let mut i: usize = 0;
    while i < alen
        invariant
            alen == a@.len(),
            alen == b@.len(),
            i <= alen,
            forall|j: int| 0 <= j < i ==> a@[j] == b@[j],
        decreases alen - i,
    {
        if a.get_char(i) != b.get_char(i) {
            return false;
        }
        i += 1;
    }
    proof {
        assert(a@ =~= b@);
    }
    true
}

/// The needle occurs in the haystack starting at position `i`.
pub open spec fn occurs_at(hay: Seq<char>, needle: Seq<char>, i: int) -> bool {
    &&& 0 <= i
    &&& i + needle.len() <= hay.len()
    &&& hay.subrange(i, i + needle.len() as int) == needle
}

/// The needle occurs somewhere in the haystack.
pub open spec fn contains_seq(hay: Seq<char>, needle: Seq<char>) -> bool {
    exists|i: int| occurs_at(hay, needle, i)
}

/// Whether `needle` occurs at position `at` of `hay`.
fn matches_at(hay: &str, hay_len: usize, needle: &str, needle_len: usize, at: usize) -> (r: bool)
    requires
        hay_len == hay@.len(),
        needle_len == needle@.len(),
        at + needle_len <= hay_len,
    ensures
        r == occurs_at(hay@, needle@, at as int),
{
    let mut j: usize = 0;
    while j < needle_len
        invariant
            hay_len == hay@.len(),
            needle_len == needle@.len(),
            at + needle_len <= hay_len,
            j <= needle_len,
            forall|k: int| 0 <= k < j ==> hay@[at + k] == needle@[k],
        decreases needle_len - j,
    {
        if hay.get_char(at + j) != needle.get_char(j) {
            proof {
                assert(hay@.subrange(at as int, at + needle@.len()) != needle@) by {
                    assert(hay@.subrange(at as int, at + needle@.len())[j as int] != needle@[j as int]);
                }
            }
            return false;
        }
        j += 1;
    }
    proof {
        assert(hay@.subrange(at as int, at + needle@.len()) =~= needle@);
    }
    true
}

/// Substring search: does `needle` occur anywhere in `hay`?
pub fn contains_str(hay: &str, needle: &str) -> (r: bool)
    ensures
        r == contains_seq(hay@, needle@),
{
    let hay_len = hay.unicode_len();
    let needle_len = needle.unicode_len();
    if needle_len == 0 {
        proof {
            assert(occurs_at(hay@, needle@, 0)) by {
                assert(hay@.subrange(0, 0) =~= needle@);
            }
        }
        return true;
    }
    if needle_len > hay_len {
        return false;
    }
    let last = hay_len - needle_len;
    let mut i: usize = 0;
    while i <= last
        invariant
            hay_len == hay@.len(),
            needle_len == needle@.len(),
            1 <= needle_len <= hay_len,
            last == hay_len - needle_len,
            i <= last + 1,
            forall|k: int| 0 <= k < i ==> !occurs_at(hay@, needle@, k),
        decreases hay_len - i,
    {
        if matches_at(hay, hay_len, needle, needle_len, i) {
            return true;
        }
        i += 1;
    }
    false
}

/// The segments of `s` between occurrences of the separator, in order.
/// Mirrors the behaviour of splitting a string on a single character:
/// an empty string yields one empty segment, and every separator ends
/// the segment before it.
pub open spec fn spec_split(s: Seq<char>, sep: char) -> Seq<Seq<char>>
    decreases s.len(),
{
    if s.len() == 0 {
        seq![Seq::<char>::empty()]
    } else if s[0] == sep {
        seq![Seq::<char>::empty()] + spec_split(s.skip(1), sep)
    } else {
        let rest = spec_split(s.skip(1), sep);
        seq![seq![s[0]] + rest[0]] + rest.skip(1)
    }
}

pub proof fn lemma_spec_split_len(s: Seq<char>, sep: char)
    ensures
        spec_split(s, sep).len() >= 1,
    decreases s.len(),
{
    if s.len() != 0 {
        lemma_spec_split_len(s.skip(1), sep);
    }
}

/// Splits `s` at every occurrence of `sep`.
pub fn split_str(s: &str, sep: char) -> (r: Vec<String>)
    ensures
        r.deep_view() == spec_split(s@, sep),
        r@.len() == spec_split(s@, sep).len(),
{
    let len = s.unicode_len();
    let mut done: Vec<String> = Vec::new();
    let mut start: usize = 0;
    let mut i: usize = 0;
    proof {
        lemma_spec_split_len(s@, sep);
        assert(s@.skip(0) =~= s@);
        assert(s@.subrange(0, 0) + spec_split(s@, sep)[0] =~= spec_split(s@, sep)[0]);
        assert(done.deep_view() + seq![spec_split(s@, sep)[0]] + spec_split(s@, sep).skip(1)
            =~= spec_split(s@, sep));
    }
    while i < len
        invariant
            len == s@.len(),
            start <= i <= len,
            spec_split(s@, sep) == done.deep_view() + seq![
                s@.subrange(start as int, i as int) + spec_split(s@.skip(i as int), sep)[0],
            ] + spec_split(s@.skip(i as int), sep).skip(1),
        decreases len - i,
    {
        let c = s.get_char(i);
        proof {
            lemma_spec_split_len(s@.skip(i as int), sep);
            lemma_spec_split_len(s@.skip(i + 1), sep);
            assert(s@.skip(i as int)[0] == s@[i as int]);
            assert(s@.skip(i as int).skip(1) =~= s@.skip(i + 1));
        }
        if c == sep {
            let seg = s.substring_char(start, i);
            let ghost old_done = done.deep_view();
            done.push(seg.to_owned());
            proof {
                assert(done.deep_view() =~= old_done + seq![s@.subrange(start as int, i as int)]);
                let rest = spec_split(s@.skip(i + 1), sep);
                assert(spec_split(s@.skip(i as int), sep) =~= seq![Seq::<char>::empty()] + rest);
                assert(s@.subrange(start as int, i as int) + Seq::<char>::empty()
                    =~= s@.subrange(start as int, i as int));
                assert(spec_split(s@, sep) =~= done.deep_view() + seq![
                    s@.subrange(i + 1, i + 1) + rest[0],
                ] + rest.skip(1)) by {
                    assert(s@.subrange(i + 1, i + 1) =~= Seq::<char>::empty());
                    assert((seq![Seq::<char>::empty()] + rest).skip(1) =~= rest);
                    assert(rest =~= seq![rest[0]] + rest.skip(1));
                }
            }
            start = i + 1;
        } else {
            proof {
                let rest = spec_split(s@.skip(i + 1), sep);
                assert(spec_split(s@.skip(i as int), sep) =~= seq![seq![s@[i as int]] + rest[0]]
                    + rest.skip(1));
                assert(s@.subrange(start as int, i as int) + (seq![s@[i as int]] + rest[0])
                    =~= s@.subrange(start as int, i + 1) + rest[0]);
                assert((seq![seq![s@[i as int]] + rest[0]] + rest.skip(1)).skip(1) =~= rest.skip(1));
            }
        }
        i += 1;
    }
    let seg = s.substring_char(start, len);
    done.push(seg.to_owned());
    proof {
        assert(s@.skip(len as int) =~= Seq::<char>::empty());
        assert(spec_split(s@.skip(len as int), sep) =~= seq![Seq::<char>::empty()]);
        assert(s@.subrange(start as int, len as int) + Seq::<char>::empty()
            =~= s@.subrange(start as int, len as int));
        assert(done.deep_view() =~= spec_split(s@, sep));
    }
    done
}

/// The first position at or after `from` where the needle occurs, if any.
pub open spec fn spec_find(hay: Seq<char>, needle: Seq<char>, from: int) -> Option<int>
    decreases hay.len() - from + 1
        when 0 <= from
{
    if from + needle.len() > hay.len() {
        None
    } else if occurs_at(hay, needle, from) {
        Some(from)
    } else {
        spec_find(hay, needle, from + 1)
    }
}

/// The index of the first occurrence of `needle` in `hay`, if any.
pub fn find_str(hay: &str, needle: &str) -> (r: Option<usize>)
    ensures
        match r {
            Some(i) => spec_find(hay@, needle@, 0) == Some(i as int),
            None => spec_find(hay@, needle@, 0) is None,
        },
{
    let hay_len = hay.unicode_len();
    let needle_len = needle.unicode_len();
    if needle_len == 0 {
        proof {
            assert(occurs_at(hay@, needle@, 0)) by {
                assert(hay@.subrange(0, 0) =~= needle@);
            }
        }
        return Some(0);
    }
    if needle_len > hay_len {
        return None;
    }
    let last = hay_len - needle_len;
    let mut i: usize = 0;
    while i <= last
        invariant
            hay_len == hay@.len(),
            needle_len == needle@.len(),
            1 <= needle_len <= hay_len,
            last == hay_len - needle_len,
            i <= last + 1,
            spec_find(hay@, needle@, 0) == spec_find(hay@, needle@, i as int),
        decreases hay_len - i,
    {
        if matches_at(hay, hay_len, needle, needle_len, i) {
            return Some(i);
        }
        i += 1;
    }
    None
}

pub proof fn lemma_find_some(hay: Seq<char>, needle: Seq<char>, from: int, i: int)
    requires
        0 <= from,
        spec_find(hay, needle, from) == Some(i),
    ensures
        from <= i,
        occurs_at(hay, needle, i),
    decreases hay.len() - from + 1,
{
    if from + needle.len() > hay.len() {
    } else if occurs_at(hay, needle, from) {
    } else {
        lemma_find_some(hay, needle, from + 1, i);
    }
}

pub proof fn lemma_trim_len(s: Seq<char>)
    ensures
        spec_trim(s).len() <= s.len(),
    decreases s.len(),
{
    if s.len() == 0 {
    } else if is_space(s[0]) {
        lemma_trim_len(s.skip(1));
    } else if is_space(s.last()) {
        lemma_trim_len(s.drop_last());
    }
}

/// The position right after the last newline of `s` (the start of its
/// final line), or zero when `s` has no newline.
pub open spec fn spec_line_start(s: Seq<char>) -> int
    decreases s.len(),
{
    if s.len() == 0 {
        0
    } else if s.last() == '\n' {
        s.len() as int
    } else {
        spec_line_start(s.drop_last())
    }
}

proof fn lemma_line_start_bounds(s: Seq<char>)
    ensures
        0 <= spec_line_start(s) <= s.len(),
    decreases s.len(),
{
    if s.len() != 0 && s.last() != '\n' {
        lemma_line_start_bounds(s.drop_last());
    }
}

/// The last line of a non-empty text, as the `lines` iterator of the
/// standard library would yield it: the final line ending is optional,
/// and a carriage return is stripped only together with a newline.
pub open spec fn spec_last_line(text: Seq<char>) -> Seq<char>
    recommends
        text.len() > 0,
{
    let body = if text.len() > 0 && text.last() == '\n' {
        text.drop_last()
    } else {
        text
    };
    let raw = body.subrange(spec_line_start(body), body.len() as int);
    if text.len() > 0 && text.last() == '\n' && raw.len() > 0 && raw.last() == '\r' {
        raw.drop_last()
    } else {
        raw
    }
}

/// Extracts the last line of a non-empty text.
pub fn last_line<'a>(text: &'a str) -> (r: &'a str)
    requires
        text@.len() > 0,
    ensures
        r@ == spec_last_line(text@),
{
    let len = text.unicode_len();
    let ends_with_newline = text.get_char(len - 1) == '\n';
    let body_len = if ends_with_newline {
        len - 1
    } else {
        len
    };
    proof {
        if ends_with_newline {
            assert(text@.drop_last() =~= text@.take(body_len as int));
        } else {
            assert(text@ =~= text@.take(body_len as int));
        }
    }
    let ghost body = text@.take(body_len as int);
    let mut start: usize = body_len;
    proof {
        assert(body.take(body_len as int) =~= body);
    }
    while start > 0 && text.get_char(start - 1) != '\n'
        invariant
            len == text@.len(),
            body_len <= len,
            body == text@.take(body_len as int),
            start <= body_len,
            spec_line_start(body) == spec_line_start(body.take(start as int)),
        decreases start,
    {
        proof {
            assert(body.take(start as int).last() == text@[start - 1]);
            assert(body.take(start as int).drop_last() =~= body.take(start - 1));
        }
        start -= 1;
    }
    proof {
        if start > 0 {
            assert(body.take(start as int).last() == text@[start - 1]);
            assert(spec_line_start(body.take(start as int)) == start);
        } else {
            assert(body.take(0) =~= Seq::<char>::empty());
        }
        lemma_line_start_bounds(body);
    }
    let ghost raw = body.subrange(spec_line_start(body), body.len() as int);
    proof {
        assert(raw =~= text@.subrange(start as int, body_len as int));
    }
    if ends_with_newline && body_len > start && text.get_char(body_len - 1) == '\r' {
        proof {
            assert(raw.last() == text@[body_len - 1]);
            assert(raw.drop_last() =~= text@.subrange(start as int, body_len - 1));
        }
        text.substring_char(start, body_len - 1)
    } else {
        proof {
            if raw.len() > 0 {
                assert(raw.last() == text@[body_len - 1]);
            }
        }
        text.substring_char(start, body_len)
    }
}

/// The character for a single decimal digit.
pub open spec fn digit_char(d: nat) -> char {
    if d == 0 {
        '0'
    } else if d == 1 {
        '1'
    } else if d == 2 {
        '2'
    } else if d == 3 {
        '3'
    } else if d == 4 {
        '4'
    } else if d == 5 {
        '5'
    } else if d == 6 {
        '6'
    } else if d == 7 {
        '7'
    } else if d == 8 {
        '8'
    } else {
        '9'
    }
}

/// The decimal representation of `n`, without leading zeroes
/// (a single `'0'` for zero).
pub open spec fn dec_digits(n: nat) -> Seq<char>
    decreases n,
{
    if n < 10 {
        seq![digit_char(n)]
    } else {
        dec_digits(n / 10) + seq![digit_char(n % 10)]
    }
}

/// The decimal characters of a digit sequence, least significant first.
spec fn rev_digit_chars(ds: Seq<u8>) -> Seq<char>
    decreases ds.len(),
{
    if ds.len() == 0 {
        Seq::empty()
    } else {
        seq![digit_char(ds.last() as nat)] + rev_digit_chars(ds.drop_last())
    }
}

/// A one-character string for the decimal digit `d`.
fn digit_str(d: u8) -> (r: &'static str)
    requires
        d < 10,
    ensures
        r@ == seq![digit_char(d as nat)],
{
    proof {
        reveal_strlit("0");
        reveal_strlit("1");
        reveal_strlit("2");
        reveal_strlit("3");
        reveal_strlit("4");
        reveal_strlit("5");
        reveal_strlit("6");
        reveal_strlit("7");
        reveal_strlit("8");
        reveal_strlit("9");
    }
    match d {
        0 => "0",
        1 => "1",
        2 => "2",
        3 => "3",
        4 => "4",
        5 => "5",
        6 => "6",
        7 => "7",
        8 => "8",
        _ => "9",
    }
}

/// Renders `n` in decimal.
pub fn usize_to_string(n: usize) -> (r: String)
    ensures
        r@ == dec_digits(n as nat),
{
    let mut digits: Vec<u8> = Vec::new();
    let mut m = n;
    while m >= 10
        invariant
            dec_digits(n as nat) == dec_digits(m as nat) + rev_digit_chars(digits@),
            forall|k: int| 0 <= k < digits@.len() ==> digits@[k] < 10,
        decreases m,
    {
        let d = (m % 10) as u8;
        let ghost old_digits = digits@;
        digits.push(d);
        m = m / 10;
        proof {
            assert(digits@.drop_last() =~= old_digits);
            assert(dec_digits(n as nat) =~= dec_digits(m as nat) + rev_digit_chars(digits@));
        }
    }
    let ghost old_digits = digits@;
    digits.push(m as u8);
    proof {
        assert(digits@.drop_last() =~= old_digits);
        assert(dec_digits(n as nat) =~= rev_digit_chars(digits@));
    }
    let mut r = String::new();
    let mut i = digits.len();
    proof {
        assert(digits@.take(i as int) =~= digits@);
        assert(r@ + rev_digit_chars(digits@) =~= rev_digit_chars(digits@));
    }
    while i > 0
        invariant
            i <= digits@.len(),
            forall|k: int| 0 <= k < digits@.len() ==> digits@[k] < 10,
            r@ + rev_digit_chars(digits@.take(i as int)) == rev_digit_chars(digits@),
        decreases i,
    {
        i -= 1;
        let ghost old_r = r@;
        r.append(digit_str(digits[i]));
        proof {
            assert(digits@.take(i + 1).drop_last() =~= digits@.take(i as int));
            assert(digits@.take(i + 1).last() == digits@[i as int]);
            assert(old_r + (seq![digit_char(digits@[i as int] as nat)]
                + rev_digit_chars(digits@.take(i as int)))
                =~= r@ + rev_digit_chars(digits@.take(i as int)));
        }
    }
    proof {
        assert(digits@.take(0) =~= Seq::<u8>::empty());
        assert(r@ + Seq::<char>::empty() =~= r@);
    }
    r
}

/// A decimal digit character.
pub open spec fn is_digit(c: char) -> bool {
    '0' <= c <= '9'
}

/// The numeric value of a digit character.
pub open spec fn digit_value(c: char) -> nat {
    ((c as int) - ('0' as int)) as nat
}

/// Every character of `s` is a decimal digit.
pub open spec fn all_digits(s: Seq<char>) -> bool {
    forall|k: int| 0 <= k < s.len() ==> is_digit(#[trigger] s[k])
}

/// The value of a digit string, most significant digit first.
pub open spec fn digits_value(s: Seq<char>) -> nat
    decreases s.len(),
{
    if s.len() == 0 {
        0
    } else {
        digits_value(s.drop_last()) * 10 + digit_value(s.last())
    }
}

/// Parses a short string of decimal digits.  Returns `None` when the
/// string is empty or holds any non-digit character.
pub fn parse_small_usize(s: &str) -> (r: Option<usize>)
    requires
        s@.len() <= 4,
    ensures
        match r {
            Some(v) => s@.len() >= 1 && all_digits(s@) && v == digits_value(s@),
            None => s@.len() == 0 || !all_digits(s@),
        },
{
    let len = s.unicode_len();
    if len == 0 {
        return None;
    }
    let mut value: usize = 0;
    let mut i: usize = 0;
    while i < len
        invariant
            len == s@.len() <= 4,
            i <= len,
            all_digits(s@.take(i as int)),
            value == digits_value(s@.take(i as int)),
            value <= (if i == 0 {
                0usize
            } else if i == 1 {
                9
            } else if i == 2 {
                99
            } else if i == 3 {
                999
            } else {
                9999
            }),
        decreases len - i,
    {
        let c = s.get_char(i);
        if c < '0' || c > '9' {
            proof {
                assert(!is_digit(s@[i as int]));
            }
            return None;
        }
        proof {
            assert(s@.take(i + 1).drop_last() =~= s@.take(i as int));
            assert(s@.take(i + 1).last() == s@[i as int]);
            assert(forall|k: int| 0 <= k < i + 1 ==> is_digit(#[trigger] s@.take(i + 1)[k]));
        }
        value = value * 10 + (c as u32 - '0' as u32) as usize;
        i += 1;
    }
    proof {
        assert(s@.take(len as int) =~= s@);
    }
    Some(value)
}

/// A character treated as removable whitespace at the ends of a string.
pub open spec fn is_space(c: char) -> bool {
    c == ' ' || c == '\t' || c == '\r' || c == '\n'
}

/// `s` with leading and trailing whitespace removed.
pub open spec fn spec_trim(s: Seq<char>) -> Seq<char>
    decreases s.len(),
{
    if s.len() == 0 {
        s
    } else if is_space(s[0]) {
        spec_trim(s.skip(1))
    } else if is_space(s.last()) {
        spec_trim(s.drop_last())
    } else {
        s
    }
}

proof fn lemma_trim_subrange(s: Seq<char>, a: int, b: int)
    requires
        0 <= a <= b <= s.len(),
        forall|k: int| 0 <= k < a ==> is_space(#[trigger] s[k]),
        forall|k: int| b <= k < s.len() ==> is_space(#[trigger] s[k]),
        a < b ==> !is_space(s[a]) && !is_space(s[b - 1]),
    ensures
        spec_trim(s) == s.subrange(a, b),
    decreases s.len(),
{
    if s.len() == 0 {
        assert(s.subrange(a, b) =~= s);
    } else if a == b {
        // everything is whitespace
        if is_space(s[0]) {
            lemma_trim_subrange(s.skip(1), 0, 0);
            assert(s.skip(1).subrange(0, 0) =~= s.subrange(a, b));
        } else {
            assert(b <= 0 < s.len());
            assert(is_space(s[0]));
        }
    } else if a > 0 {
        lemma_trim_subrange(s.skip(1), a - 1, b - 1);
        assert(s.skip(1).subrange(a - 1, b - 1) =~= s.subrange(a, b));
    } else if b < s.len() {
        lemma_trim_subrange(s.drop_last(), a, b);
        assert(s.drop_last().subrange(a, b) =~= s.subrange(a, b));
    } else {
        assert(s.subrange(a, b) =~= s);
    }
}

/// Whether a character is removable whitespace.
fn space_char(c: char) -> (r: bool)
    ensures
        r == is_space(c),
{
    c == ' ' || c == '\t' || c == '\r' || c == '\n'
}

/// Removes leading and trailing whitespace.
pub fn trim_str<'a>(s: &'a str) -> (r: &'a str)
    ensures
        r@ == spec_trim(s@),
{
    let len = s.unicode_len();
    let mut a: usize = 0;
    while a < len && space_char(s.get_char(a))
        invariant
            len == s@.len(),
            a <= len,
            forall|k: int| 0 <= k < a ==> is_space(#[trigger] s@[k]),
        decreases len - a,
    {
        a += 1;
    }
    let mut b: usize = len;
    while b > a && space_char(s.get_char(b - 1))
        invariant
            len == s@.len(),
            a <= b <= len,
            forall|k: int| b <= k < len ==> is_space(#[trigger] s@[k]),
        decreases b,
    {
        b -= 1;
    }
    proof {
        lemma_trim_subrange(s@, a as int, b as int);
    }
    s.substring_char(a, b)
}

} // verus!
