//! Reading of plain text: characters, separated fields, unsigned numbers and
//! words without regard to case.

use vstd::prelude::*;
use crate::data::text::{is_whitespace, is_whitespace_char, push_char, trim_end};

verus! {

/// The texts of a vector of strings.
pub open spec fn string_views(texts: Seq<String>) -> Seq<Seq<char>> {
    Seq::new(texts.len(), |i: int| texts[i]@)
}

/// The texts of a vector of character vectors.
pub open spec fn field_views(fields: Seq<Vec<char>>) -> Seq<Seq<char>> {
    Seq::new(fields.len(), |i: int| fields[i]@)
}

/// The fields of `s` between the separators. There is always one field more
/// than there are separators; a field may be empty.
pub open spec fn split(s: Seq<char>, sep: char) -> Seq<Seq<char>>
    decreases s.len(),
{
    if s.len() == 0 {
        seq![Seq::empty()]
    } else {
        let front = split(s.drop_last(), sep);
        if s.last() == sep {
            front.push(Seq::empty())
        } else {
            front.drop_last().push(front.last().push(s.last()))
        }
    }
}

/// The value of a decimal digit, if `c` is one.
pub open spec fn digit_value(c: char) -> Option<nat> {
    let u = c as u32;
    if 48 <= u <= 57 {
        Some((u - 48) as nat)
    } else {
        None
    }
}

/// The value of a run of decimal digits; the empty run is worth nothing.
pub open spec fn digits_value(s: Seq<char>) -> Option<nat>
    decreases s.len(),
{
    if s.len() == 0 {
        Some(0)
    } else {
        match (digits_value(s.drop_last()), digit_value(s.last())) {
            (Some(v), Some(d)) => Some(10 * v + d),
            _ => None,
        }
    }
}

/// The number that `s` denotes: an optional plus sign, then one decimal digit
/// or more, worth no more than `max`. Anything else denotes no number.
pub open spec fn parse_unsigned(s: Seq<char>, max: nat) -> Option<nat> {
    let digits = if s.len() > 0 && s[0] == '+' {
        s.skip(1)
    } else {
        s
    };
    if digits.len() == 0 {
        None
    } else {
        match digits_value(digits) {
            Some(v) => if v <= max {
                Some(v)
            } else {
                None
            },
            None => None,
        }
    }
}

/// `s` without its leading whitespace.
pub open spec fn trim_start(s: Seq<char>) -> Seq<char>
    decreases s.len(),
{
    if s.len() > 0 && is_whitespace(s[0]) {
        trim_start(s.skip(1))
    } else {
        s
    }
}

/// `s` without the whitespace at either end.
pub open spec fn trim(s: Seq<char>) -> Seq<char> {
    trim_start(trim_end(s))
}

/// The number that `s` denotes, or `default` where it denotes none.
pub open spec fn number_or_default(s: Seq<char>, max: nat, default: nat) -> nat {
    match parse_unsigned(s, max) {
        Some(n) => n,
        None => default,
    }
}

/// The lower-case form of an ASCII capital; any other character is its own.
pub open spec fn lower(c: char) -> char {
    let u = c as u32;
    if 65 <= u <= 90 {
        ((u + 32) as u8) as char
    } else {
        c
    }
}

/// `s` with its ASCII capitals in lower case.
pub open spec fn lowered(s: Seq<char>) -> Seq<char> {
    Seq::new(s.len(), |i: int| lower(s[i]))
}

/// A longer run of digits is worth no less than its beginning.
pub proof fn lemma_digits_value_grows(s: Seq<char>, k: int)
    requires
        0 <= k <= s.len(),
        digits_value(s) is Some,
    ensures
        digits_value(s.take(k)) is Some,
        digits_value(s.take(k))->0 <= digits_value(s)->0,
    decreases s.len(),
{
    if k == s.len() {
        assert(s.take(k) == s);
    } else {
        lemma_digits_value_grows(s.drop_last(), k);
        assert(s.drop_last().take(k) == s.take(k));
    }
}

/// The characters of `text`.
pub fn chars_of(text: &str) -> (chars: Vec<char>)
    ensures
        chars@ == text@,
{
    let mut chars: Vec<char> = Vec::new();
    for c in it: text.chars()
        invariant
            it.seq() == text@,
            chars@ == text@.take(it.index()),
    {
        chars.push(c);
        assert(text@.take(it.index() + 1) == text@.take(it.index()).push(c));
    }
    assert(text@.take(text@.len() as int) == text@);
    chars
}

/// A string of the given characters.
pub fn string_of(chars: &[char]) -> (text: String)
    ensures
        text@ == chars@,
{
    let mut text = String::new();
    let mut i: usize = 0;
    while i < chars.len()
        invariant
            i <= chars.len(),
            text@ == chars@.take(i as int),
        decreases chars.len() - i,
    {
        push_char(&mut text, chars[i]);
        assert(chars@.take(i + 1) == chars@.take(i as int).push(chars[i as int]));
        i += 1;
    }
    assert(chars@.take(chars@.len() as int) == chars@);
    text
}

/// The characters of `text` without the whitespace at either end.
pub fn trimmed_chars(text: &str) -> (chars: Vec<char>)
    ensures
        chars@ == trim(text@),
{
    let all = chars_of(text);
    let mut end: usize = all.len();
    assert(all@.take(end as int) == all@);
    while end > 0 && is_whitespace_char(all[end - 1])
        invariant
            end <= all.len(),
            trim_end(all@.take(end as int)) == trim_end(all@),
        decreases end,
    {
        assert(all@.take(end as int).drop_last() == all@.take(end - 1));
        end -= 1;
    }
    let ghost kept = all@.take(end as int);
    assert(trim_end(kept) == kept);
    let mut start: usize = 0;
    assert(kept.skip(0) == kept);
    while start < end && is_whitespace_char(all[start])
        invariant
            start <= end <= all.len(),
            kept == all@.take(end as int),
            trim_start(kept.skip(start as int)) == trim_start(kept),
        decreases end - start,
    {
        assert(kept.skip(start as int).skip(1) == kept.skip(start + 1));
        start += 1;
    }
    assert(trim_start(kept.skip(start as int)) == kept.skip(start as int));
    let mut chars: Vec<char> = Vec::new();
    let mut i: usize = start;
    while i < end
        invariant
            start <= i <= end <= all.len(),
            chars@ == all@.subrange(start as int, i as int),
        decreases end - i,
    {
        chars.push(all[i]);
        assert(all@.subrange(start as int, i + 1) == all@.subrange(start as int, i as int).push(
            all@[i as int],
        ));
        i += 1;
    }
    assert(all@.subrange(start as int, end as int) == kept.skip(start as int));
    chars
}

/// Splits `chars` at every `sep`.
pub fn split_chars(chars: &[char], sep: char) -> (fields: Vec<Vec<char>>)
    ensures
        field_views(fields@) == split(chars@, sep),
{
    let mut fields: Vec<Vec<char>> = Vec::new();
    let mut current: Vec<char> = Vec::new();
    let mut i: usize = 0;
    assert(field_views(fields@).push(current@) =~= split(chars@.take(0), sep));
    while i < chars.len()
        invariant
            i <= chars.len(),
            field_views(fields@).push(current@) == split(chars@.take(i as int), sep),
        decreases chars.len() - i,
    {
        let c = chars[i];
        let ghost before = field_views(fields@);
        let ghost open = current@;
        proof {
            let next = chars@.take(i + 1);
            assert(next.drop_last() == chars@.take(i as int));
            assert(next.last() == c);
            assert(before.push(open).drop_last() == before);
        }
        if c == sep {
            fields.push(current);
            current = Vec::new();
            assert(field_views(fields@) =~= before.push(open));
        } else {
            current.push(c);
        }
        i += 1;
    }
    assert(chars@.take(chars@.len() as int) == chars@);
    let ghost before = field_views(fields@);
    fields.push(current);
    assert(field_views(fields@) =~= before.push(current@));
    fields
}

/// Reads an unsigned decimal number of at most `max`.
pub fn parse_number(chars: &[char], max: u64) -> (number: Option<u64>)
    ensures
        match number {
            Some(n) => parse_unsigned(chars@, max as nat) == Some(n as nat),
            None => parse_unsigned(chars@, max as nat) is None,
        },
{
    let start: usize = if chars.len() > 0 && chars[0] == '+' {
        1
    } else {
        0
    };
    if start == chars.len() {
        return None;
    }
    let ghost digits = chars@.skip(start as int);
    assert(chars@.skip(0) == chars@);
    let mut value: u64 = 0;
    let mut i: usize = start;
    assert(digits.take(0) =~= Seq::empty());
    while i < chars.len()
        invariant
            start <= i <= chars.len(),
            start < chars.len(),
            start == if chars@.len() > 0 && chars@[0] == '+' {
                1int
            } else {
                0int
            },
            chars@.skip(0) == chars@,
            digits == chars@.skip(start as int),
            value <= max,
            digits_value(digits.take(i - start)) == Some(value as nat),
        decreases chars.len() - i,
    {
        let u: u32 = chars[i] as u32;
        proof {
            let next = digits.take(i - start + 1);
            assert(next.drop_last() == digits.take(i - start));
            assert(next.last() == chars[i as int]);
            if digits_value(digits) is Some {
                lemma_digits_value_grows(digits, i - start + 1);
            }
        }
        if u < 48 || u > 57 {
            return None;
        }
        let grown: u128 = 10 * (value as u128) + (u - 48) as u128;
        if grown > max as u128 {
            return None;
        }
        value = grown as u64;
        i += 1;
    }
    assert(digits.take(digits.len() as int) == digits);
    Some(value)
}

/// Tells whether two texts are the same.
pub fn same_text(a: &str, b: &str) -> (same: bool)
    ensures
        same == (a@ == b@),
{
    let left = chars_of(a);
    let right = chars_of(b);
    if left.len() != right.len() {
        return false;
    }
    let mut i: usize = 0;
    while i < left.len()
        invariant
            i <= left.len(),
            left@.len() == right@.len(),
            left@ == a@,
            right@ == b@,
            forall|k: int| 0 <= k < i ==> left@[k] == right@[k],
        decreases left.len() - i,
    {
        if left[i] != right[i] {
            return false;
        }
        i += 1;
    }
    assert(left@ =~= right@);
    true
}

/// Reads an unsigned decimal number of at most `max`, and falls back on
/// `default` where the text is none.
pub fn number_or(chars: &[char], max: u64, default: u64) -> (number: u64)
    ensures
        number == number_or_default(chars@, max as nat, default as nat),
{
    match parse_number(chars, max) {
        Some(n) => n,
        None => default,
    }
}

/// Tells whether `chars`, with its ASCII capitals in lower case, is `word`.
pub fn is_word(chars: &[char], word: &str) -> (same: bool)
    ensures
        same == (lowered(chars@) == word@),
{
    let letters = chars_of(word);
    if letters.len() != chars.len() {
        return false;
    }
    let mut i: usize = 0;
    while i < chars.len()
        invariant
            i <= chars.len(),
            letters@ == word@,
            letters@.len() == chars@.len(),
            forall|k: int| 0 <= k < i ==> lower(chars@[k]) == letters@[k],
        decreases chars.len() - i,
    {
        let c = chars[i];
        let u: u32 = c as u32;
        let folded: char = if 65 <= u && u <= 90 {
            ((u + 32) as u8) as char
        } else {
            c
        };
        if folded != letters[i] {
            assert(lowered(chars@)[i as int] != word@[i as int]);
            return false;
        }
        i += 1;
    }
    assert(lowered(chars@) =~= word@);
    true
}

} // verus!
