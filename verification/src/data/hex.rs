//! Hexadecimal byte lists: two upper-case digits per byte, one space between
//! bytes, and the reading that gives the bytes back.

use vstd::prelude::*;
use crate::data::text::push_char;

verus! {

/// The upper-case hexadecimal digit for a value below sixteen.
pub open spec fn hex_digit(n: u8) -> char
    recommends
        n < 16,
{
    if n < 10 {
        ((48 + n) as u8) as char
    } else {
        ((55 + n) as u8) as char
    }
}

/// The two digits of one byte, high nibble first.
pub open spec fn hex_pair(b: u8) -> Seq<char> {
    seq![hex_digit(b / 16), hex_digit(b % 16)]
}

/// The bytes as digit pairs separated by single spaces.
pub open spec fn hex_list(bytes: Seq<u8>) -> Seq<char>
    decreases bytes.len(),
{
    if bytes.len() == 0 {
        Seq::empty()
    } else if bytes.len() == 1 {
        hex_pair(bytes[0])
    } else {
        hex_list(bytes.drop_last()) + seq![' '] + hex_pair(bytes.last())
    }
}

/// The value of an upper-case hexadecimal digit, if `c` is one.
pub open spec fn hex_value(c: char) -> Option<u8> {
    let u = c as u32;
    if 48 <= u <= 57 {
        Some((u - 48) as u8)
    } else if 65 <= u <= 70 {
        Some((u - 55) as u8)
    } else {
        None
    }
}

/// The byte that two hexadecimal digits denote.
pub open spec fn pair_value(hi: char, lo: char) -> Option<u8> {
    match (hex_value(hi), hex_value(lo)) {
        (Some(h), Some(l)) => Some((h * 16 + l) as u8),
        _ => None,
    }
}

/// Reads a list of digit pairs separated by single spaces. Anything else is
/// not a byte list.
pub open spec fn hex_decode(s: Seq<char>) -> Option<Seq<u8>>
    decreases s.len(),
{
    if s.len() == 0 {
        Some(Seq::empty())
    } else if s.len() == 2 {
        match pair_value(s[0], s[1]) {
            Some(b) => Some(seq![b]),
            None => None,
        }
    } else if s.len() >= 5 && s[s.len() - 3] == ' ' {
        match (hex_decode(s.take(s.len() - 3)), pair_value(s[s.len() - 2], s[s.len() - 1])) {
            (Some(front), Some(b)) => if front.len() > 0 {
                Some(front.push(b))
            } else {
                None
            },
            _ => None,
        }
    } else {
        None
    }
}

/// A character that can occur in a byte list: a digit or the separator.
pub open spec fn is_hex_list_char(c: char) -> bool {
    hex_value(c) is Some || c == ' '
}

/// Reading the two digits of a byte gives the byte.
pub proof fn lemma_pair_round_trip(b: u8)
    ensures
        hex_pair(b).len() == 2,
        pair_value(hex_pair(b)[0], hex_pair(b)[1]) == Some(b),
        hex_value(hex_pair(b)[0]) is Some,
        hex_value(hex_pair(b)[1]) is Some,
{
    let h: u8 = b / 16;
    let l: u8 = b % 16;
    assert(h < 16 && l < 16);
    assert(hex_value(hex_digit(h)) == Some(h));
    assert(hex_value(hex_digit(l)) == Some(l));
    assert(h * 16 + l == b);
}

/// A byte list holds three characters per byte, less the separator before the
/// first, and nothing but digits and separators.
pub proof fn lemma_hex_list_shape(bytes: Seq<u8>)
    ensures
        hex_list(bytes).len() == if bytes.len() == 0 {
            0
        } else {
            3 * bytes.len() - 1
        },
        forall|i: int| 0 <= i < hex_list(bytes).len() ==> is_hex_list_char(#[trigger] hex_list(bytes)[i]),
    decreases bytes.len(),
{
    if bytes.len() == 0 {
    } else if bytes.len() == 1 {
        lemma_pair_round_trip(bytes[0]);
    } else {
        lemma_hex_list_shape(bytes.drop_last());
        lemma_pair_round_trip(bytes.last());
    }
}

/// Hex-decoding the byte list of `bytes` gives `bytes` back, in order.
pub proof fn lemma_hex_round_trip(bytes: Seq<u8>)
    ensures
        hex_decode(hex_list(bytes)) == Some(bytes),
    decreases bytes.len(),
{
    if bytes.len() == 0 {
    } else if bytes.len() == 1 {
        lemma_pair_round_trip(bytes[0]);
        assert(seq![bytes[0]] == bytes);
    } else {
        let front = bytes.drop_last();
        let s = hex_list(bytes);
        lemma_hex_round_trip(front);
        lemma_hex_list_shape(front);
        lemma_pair_round_trip(bytes.last());
        assert(s.take(s.len() - 3) == hex_list(front));
        assert(front.push(bytes.last()) == bytes);
    }
}

/// The hexadecimal digit for a value below sixteen.
pub fn hex_digit_char(n: u8) -> (c: char)
    requires
        n < 16,
    ensures
        c == hex_digit(n),
{
    if n < 10 {
        (48u8 + n) as char
    } else {
        (55u8 + n) as char
    }
}

/// Appends the byte list of `bytes` to `out`.
pub fn append_hex_list(out: &mut String, bytes: &[u8])
    ensures
        final(out)@ == old(out)@ + hex_list(bytes@),
{
    let mut i: usize = 0;
    while i < bytes.len()
        invariant
            i <= bytes.len(),
            out@ == old(out)@ + hex_list(bytes@.take(i as int)),
        decreases bytes.len() - i,
    {
        let b: u8 = bytes[i];
        proof {
            let next = bytes@.take(i + 1);
            assert(next.drop_last() == bytes@.take(i as int));
            assert(next.last() == b);
        }
        if i > 0 {
            push_char(out, ' ');
        }
        push_char(out, hex_digit_char(b / 16));
        push_char(out, hex_digit_char(b % 16));
        i += 1;
    }
    assert(bytes@.take(bytes@.len() as int) == bytes@);
}

} // verus!
