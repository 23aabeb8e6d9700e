//! Test data that the user makes up: a line of text, bytes in hexadecimal
//! notation, or a stream of pseudo-random bytes.

use vstd::prelude::*;
use crate::data::text::{is_whitespace, is_whitespace_char};
use crate::parse::{string_of, trim, trimmed_chars, chars_of};

verus! {

/// Why a word is no byte in hexadecimal notation.
#[derive(Debug, Clone, Copy, PartialEq, Eq, Structural)]
pub enum HexError {
    /// A character is no hexadecimal digit, or there is no digit at all.
    InvalidDigit,
    /// The number does not fit a byte.
    TooLarge,
}

/// The value of a hexadecimal digit in either case, if `c` is one.
pub open spec fn hex_digit_value(c: char) -> Option<nat> {
    let u = c as u32;
    if 48 <= u <= 57 {
        Some((u - 48) as nat)
    } else if 65 <= u <= 70 {
        Some((u - 55) as nat)
    } else if 97 <= u <= 102 {
        Some((u - 87) as nat)
    } else {
        None
    }
}

/// The value of a run of hexadecimal digits as a byte, read left to right:
/// the first character that is no digit, or the first digit that takes the
/// value past a byte, is the fault.
pub open spec fn hex_digits_byte(s: Seq<char>) -> Result<nat, HexError>
    decreases s.len(),
{
    if s.len() == 0 {
        Ok(0)
    } else {
        match hex_digits_byte(s.drop_last()) {
            Err(e) => Err(e),
            Ok(v) => match hex_digit_value(s.last()) {
                None => Err(HexError::InvalidDigit),
                Some(d) => if 16 * v + d > 255 {
                    Err(HexError::TooLarge)
                } else {
                    Ok(16 * v + d)
                },
            },
        }
    }
}

/// The byte that a word denotes: an optional plus sign, then one hexadecimal
/// digit or more.
pub open spec fn hex_byte(word: Seq<char>) -> Result<nat, HexError> {
    let digits = if word.len() > 0 && word[0] == '+' {
        word.skip(1)
    } else {
        word
    };
    if digits.len() == 0 {
        Err(HexError::InvalidDigit)
    } else {
        hex_digits_byte(digits)
    }
}

/// The words of a text: its runs of characters that are no whitespace,
/// together with the run that is still open at the end, which may be empty.
pub open spec fn words_open(s: Seq<char>) -> (Seq<Seq<char>>, Seq<char>)
    decreases s.len(),
{
    if s.len() == 0 {
        (Seq::empty(), Seq::empty())
    } else {
        let (done, open) = words_open(s.drop_last());
        if is_whitespace(s.last()) {
            if open.len() == 0 {
                (done, open)
            } else {
                (done.push(open), Seq::empty())
            }
        } else {
            (done, open.push(s.last()))
        }
    }
}

/// The words of a text: its runs of characters that are no whitespace.
pub open spec fn words(s: Seq<char>) -> Seq<Seq<char>> {
    let (done, open) = words_open(s);
    if open.len() == 0 {
        done
    } else {
        done.push(open)
    }
}

/// The bytes that words denote, or the fault of the first word that denotes
/// none.
pub open spec fn hex_bytes(words: Seq<Seq<char>>) -> Result<Seq<u8>, HexError>
    decreases words.len(),
{
    if words.len() == 0 {
        Ok(Seq::empty())
    } else {
        match hex_bytes(words.drop_last()) {
            Err(e) => Err(e),
            Ok(bytes) => match hex_byte(words.last()) {
                Err(e) => Err(e),
                Ok(b) => Ok(bytes.push(b as u8)),
            },
        }
    }
}

/// The state of the generator after `state`: a linear congruential step in
/// 32 bits.
pub open spec fn next_state(state: u32) -> u32 {
    ((state * 1664525 + 1013904223) % 0x1_0000_0000) as u32
}

/// The state of the generator after `n` steps from zero.
pub open spec fn state_after(n: nat) -> u32
    decreases n,
{
    if n == 0 {
        0
    } else {
        next_state(state_after((n - 1) as nat))
    }
}

/// The first `n` bytes of the pseudo-random stream: the low eight bits of
/// each state after the first.
pub open spec fn random_bytes(n: nat) -> Seq<u8> {
    Seq::new(n, |i: int| (state_after((i + 1) as nat) % 256) as u8)
}

/// Test data made up by the user.
pub struct CustomGenerator;

impl CustomGenerator {
    /// The line to send for a text that the user typed: the text without the
    /// whitespace around it, ended by a line feed.
    pub fn send_text(text: &str) -> (data: String)
        ensures
            data@ == trim(text@) + "\n"@,
    {
        let chars = trimmed_chars(text);
        let mut data = string_of(chars.as_slice());
        data.append("\n");
        data
    }

    /// The bytes to send for a line of bytes in hexadecimal notation, such
    /// as `02 1A FF 3C`.
    pub fn send_hex(hex_input: &str) -> (data: Result<Vec<u8>, HexError>)
        ensures
            match data {
                Ok(bytes) => hex_bytes(words(hex_input@)) == Ok::<Seq<u8>, HexError>(bytes@),
                Err(e) => hex_bytes(words(hex_input@)) == Err::<Seq<u8>, HexError>(e),
            },
    {
        let chars = chars_of(hex_input);
        let mut bytes: Vec<u8> = Vec::new();
        let mut word: Vec<char> = Vec::new();
        let mut i: usize = 0;
        assert(chars@.take(0) =~= Seq::empty());
        while i < chars.len()
            invariant
                i <= chars.len(),
                chars@ == hex_input@,
                word@ == words_open(chars@.take(i as int)).1,
                hex_bytes(words_open(chars@.take(i as int)).0) == Ok::<Seq<u8>, HexError>(bytes@),
            decreases chars.len() - i,
        {
            let c = chars[i];
            proof {
                let next = chars@.take(i + 1);
                assert(next.drop_last() == chars@.take(i as int));
                assert(next.last() == c);
                lemma_hex_bytes_prefix(chars@, i + 1);
                let (done, open) = words_open(chars@.take(i as int));
                assert(done.push(open).drop_last() == done);
            }
            if is_whitespace_char(c) {
                if word.len() > 0 {
                    match Self::parse_hex_byte(word.as_slice()) {
                        Ok(b) => bytes.push(b),
                        Err(e) => {
                            proof {
                                let (done, open) = words_open(chars@.take(i as int));
                                let closed = words_open(chars@.take(i + 1)).0;
                                assert(closed == done.push(open));
                                assert(closed.last() == open);
                                assert(hex_bytes(closed) == Err::<Seq<u8>, HexError>(e));
                            }
                            return Err(e);
                        },
                    }
                    word = Vec::new();
                }
            } else {
                word.push(c);
            }
            i += 1;
        }
        assert(chars@.take(chars@.len() as int) == chars@);
        if word.len() > 0 {
            proof {
                let (done, open) = words_open(chars@);
                assert(done.push(open).drop_last() == done);
            }
            match Self::parse_hex_byte(word.as_slice()) {
                Ok(b) => bytes.push(b),
                Err(e) => {
                    return Err(e);
                },
            }
        }
        Ok(bytes)
    }

    /// The first `count` bytes of the pseudo-random stream.
    pub fn send_continuous(count: usize) -> (data: Vec<u8>)
        ensures
            data@ == random_bytes(count as nat),
    {
        let mut data: Vec<u8> = Vec::new();
        let mut rng: u32 = 0;
        let mut i: usize = 0;
        while i < count
            invariant
                i <= count,
                rng == state_after(i as nat),
                data@ == random_bytes(i as nat),
            decreases count - i,
        {
            rng = ((rng as u64 * 1664525 + 1013904223) % 0x1_0000_0000) as u32;
            data.push((rng % 256) as u8);
            i += 1;
            assert(data@ =~= random_bytes(i as nat));
        }
        data
    }

    /// The byte that a word in hexadecimal notation denotes.
    pub fn parse_hex_byte(word: &[char]) -> (byte: Result<u8, HexError>)
        ensures
            match byte {
                Ok(b) => hex_byte(word@) == Ok::<nat, HexError>(b as nat),
                Err(e) => hex_byte(word@) == Err::<nat, HexError>(e),
            },
    {
        let start: usize = if word.len() > 0 && word[0] == '+' {
            1
        } else {
            0
        };
        if start == word.len() {
            return Err(HexError::InvalidDigit);
        }
        let ghost digits = word@.skip(start as int);
        assert(word@.skip(0) == word@);
        assert(digits.take(0) =~= Seq::empty());
        let mut value: u8 = 0;
        let mut i: usize = start;
        while i < word.len()
            invariant
                start <= i <= word.len(),
                start < word.len(),
                start == if word@.len() > 0 && word@[0] == '+' {
                    1int
                } else {
                    0int
                },
                word@.skip(0) == word@,
                digits == word@.skip(start as int),
                hex_digits_byte(digits.take(i - start)) == Ok::<nat, HexError>(value as nat),
            decreases word.len() - i,
        {
            let u: u32 = word[i] as u32;
            proof {
                let next = digits.take(i - start + 1);
                assert(next.drop_last() == digits.take(i - start));
                assert(next.last() == word[i as int]);
                lemma_hex_digits_fault(digits, i - start + 1);
            }
            let digit: u32 = if 48 <= u && u <= 57 {
                u - 48
            } else if 65 <= u && u <= 70 {
                u - 55
            } else if 97 <= u && u <= 102 {
                u - 87
            } else {
                return Err(HexError::InvalidDigit);
            };
            let grown: u32 = 16 * (value as u32) + digit;
            if grown > 255 {
                return Err(HexError::TooLarge);
            }
            value = grown as u8;
            i += 1;
        }
        assert(digits.take(digits.len() as int) == digits);
        Ok(value)
    }
}

/// A fault in the beginning of a run of digits is the fault of the run.
pub proof fn lemma_hex_digits_fault(s: Seq<char>, k: int)
    requires
        0 <= k <= s.len(),
    ensures
        hex_digits_byte(s.take(k)) is Err ==> hex_digits_byte(s) == hex_digits_byte(s.take(k)),
    decreases s.len(),
{
    if k == s.len() {
        assert(s.take(k) == s);
    } else {
        lemma_hex_digits_fault(s.drop_last(), k);
        assert(s.drop_last().take(k) == s.take(k));
    }
}

/// A fault among the words that the beginning of a text completes is the
/// fault of the whole text, and so is a fault in the word that the beginning
/// leaves open when whitespace or the end of the text follows it.
pub proof fn lemma_hex_bytes_prefix(s: Seq<char>, k: int)
    requires
        0 <= k <= s.len(),
    ensures
        hex_bytes(words_open(s.take(k)).0) is Err ==> hex_bytes(words(s)) == hex_bytes(
            words_open(s.take(k)).0,
        ),
    decreases s.len() - k,
{
    let (done, open) = words_open(s.take(k));
    if hex_bytes(done) is Err {
        if k == s.len() {
            assert(s.take(k) == s);
            assert(done.push(open).drop_last() == done);
        } else {
            let next = s.take(k + 1);
            assert(next.drop_last() == s.take(k));
            let (done2, open2) = words_open(next);
            assert(done.push(open).drop_last() == done);
            lemma_hex_bytes_prefix(s, k + 1);
        }
    }
}

} // verus!
