//! Text building blocks shared by the renderers: whitespace trimming, decimal
//! numbers, and the two conversions that the standard library performs.

use vstd::prelude::*;
use vstd::utf8::{decode_utf8, valid_utf8};

verus! {

/// The characters that carry the Unicode `White_Space` property.
pub open spec fn is_whitespace(c: char) -> bool {
    let u = c as u32;
    ||| 0x09 <= u <= 0x0D
    ||| u == 0x20
    ||| u == 0x85
    ||| u == 0xA0
    ||| u == 0x1680
    ||| 0x2000 <= u <= 0x200A
    ||| u == 0x2028
    ||| u == 0x2029
    ||| u == 0x202F
    ||| u == 0x205F
    ||| u == 0x3000
}

/// `s` without its trailing whitespace.
pub open spec fn trim_end(s: Seq<char>) -> Seq<char>
    decreases s.len(),
{
    if s.len() > 0 && is_whitespace(s.last()) {
        trim_end(s.drop_last())
    } else {
        s
    }
}

/// The character for a digit below ten.
pub open spec fn digit_char(d: nat) -> char
    recommends
        d < 10,
{
    ((48 + d) as u8) as char
}

/// The decimal notation of `n`, without sign or leading zeros.
pub open spec fn decimal(n: nat) -> Seq<char>
    decreases n,
{
    if n < 10 {
        seq![digit_char(n)]
    } else {
        decimal(n / 10).push(digit_char(n % 10))
    }
}

/// Appends one character. Calls `String::push`, which the standard library
/// documents as appending the given character to the end of the string.
#[verifier::external_body]
pub(crate) fn push_char(s: &mut String, c: char)
    ensures
        final(s)@ == old(s)@.push(c),
{
    s.push(c)
}

/// Reads `data` as UTF-8 text. Calls `std::str::from_utf8`, which succeeds
/// exactly on well-formed UTF-8 and then yields the characters that the bytes
/// encode.
#[verifier::external_body]
pub(crate) fn utf8_text(data: &[u8]) -> (text: Option<&str>)
    ensures
        text is Some <==> valid_utf8(data@),
        text matches Some(s) ==> s@ == decode_utf8(data@),
{
    match std::str::from_utf8(data) {
        Ok(s) => Some(s),
        Err(_) => None,
    }
}

/// Tells whether `c` is Unicode whitespace.
pub fn is_whitespace_char(c: char) -> (ws: bool)
    ensures
        ws == is_whitespace(c),
{
    let u: u32 = c as u32;
    (0x09 <= u && u <= 0x0D) || u == 0x20 || u == 0x85 || u == 0xA0 || u == 0x1680 || (0x2000
        <= u && u <= 0x200A) || u == 0x2028 || u == 0x2029 || u == 0x202F || u == 0x205F || u
        == 0x3000
}

/// Appends `text` without its trailing whitespace to `out`.
pub fn append_trimmed(out: &mut String, text: &str)
    ensures
        final(out)@ == old(out)@ + trim_end(text@),
{
    let mut gap = String::new();
    for c in it: text.chars()
        invariant
            it.seq() == text@,
            out@ == old(out)@ + trim_end(text@.take(it.index())),
            trim_end(text@.take(it.index())) + gap@ == text@.take(it.index()),
    {
        assert(text@.take(it.index() + 1).drop_last() == text@.take(it.index()));
        if is_whitespace_char(c) {
            push_char(&mut gap, c);
        } else {
            out.append(gap.as_str());
            push_char(out, c);
            gap = String::new();
        }
    }
    assert(text@.take(text@.len() as int) == text@);
}

/// Appends the decimal notation of `n` to `out`.
pub fn append_decimal(out: &mut String, n: usize)
    ensures
        final(out)@ == old(out)@ + decimal(n as nat),
    decreases n,
{
    if n >= 10 {
        append_decimal(out, n / 10);
    }
    let d: u8 = (n % 10) as u8;
    push_char(out, (48u8 + d) as char);
}

} // verus!
