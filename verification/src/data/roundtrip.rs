//! Reading a rendered record back: the bytes that its bracketed byte lists
//! denote are the bytes that went into them.

use vstd::prelude::*;
use crate::data::formatter::{
    bracketed, is_printable, mixed_content, mixed_from, render_binary, render_mixed,
};
use crate::data::hex::{hex_decode, hex_list, is_hex_list_char, lemma_hex_list_shape, lemma_hex_round_trip};
use crate::data::text::{decimal, digit_char, is_whitespace, trim_end};

verus! {

/// The bytes of `data` that are not printable, in their order.
pub open spec fn non_printable(data: Seq<u8>) -> Seq<u8>
    decreases data.len(),
{
    if data.len() == 0 {
        Seq::empty()
    } else if is_printable(data[0]) {
        non_printable(data.skip(1))
    } else {
        seq![data[0]] + non_printable(data.skip(1))
    }
}

/// A piece of mixed content as it is written: a literal character, or the
/// text of a byte list that stands between brackets.
pub enum Piece {
    Literal(char),
    List(Seq<char>),
}

/// The text of a piece.
pub open spec fn piece_text(piece: Piece) -> Seq<char> {
    match piece {
        Piece::Literal(c) => seq![c],
        Piece::List(list) => "["@ + list + "]"@,
    }
}

/// The bytes that hex-decoding the byte list of a piece gives; a literal
/// gives none.
pub open spec fn piece_bytes(piece: Piece) -> Seq<u8> {
    match piece {
        Piece::Literal(_) => Seq::empty(),
        Piece::List(list) => match hex_decode(list) {
            Some(bytes) => bytes,
            None => Seq::empty(),
        },
    }
}

/// The text of pieces, one after the other.
pub open spec fn pieces_text(pieces: Seq<Piece>) -> Seq<char>
    decreases pieces.len(),
{
    if pieces.len() == 0 {
        Seq::empty()
    } else {
        piece_text(pieces[0]) + pieces_text(pieces.skip(1))
    }
}

/// The bytes that hex-decoding the byte lists of pieces gives, one list after
/// the other.
pub open spec fn pieces_bytes(pieces: Seq<Piece>) -> Seq<u8>
    decreases pieces.len(),
{
    if pieces.len() == 0 {
        Seq::empty()
    } else {
        piece_bytes(pieces[0]) + pieces_bytes(pieces.skip(1))
    }
}

/// The piece that an open run of non-printable bytes is written as, if the
/// run holds any.
pub open spec fn run_pieces(run: Seq<u8>) -> Seq<Piece> {
    if run.len() == 0 {
        Seq::empty()
    } else {
        seq![Piece::List(hex_list(run))]
    }
}

/// The pieces that the mixed rendering of `rest` is made of, when `run` holds
/// the non-printable bytes seen since the last literal character.
pub open spec fn pieces_from(run: Seq<u8>, rest: Seq<u8>) -> Seq<Piece>
    decreases rest.len(),
{
    if rest.len() == 0 {
        run_pieces(run)
    } else if rest[0] == 13 || rest[0] == 10 {
        pieces_from(run, rest.skip(1))
    } else if is_printable(rest[0]) {
        run_pieces(run) + seq![Piece::Literal(rest[0] as char)] + pieces_from(
            Seq::empty(),
            rest.skip(1),
        )
    } else {
        pieces_from(run.push(rest[0]), rest.skip(1))
    }
}

/// The place of the first closing bracket at or after `from`, or the length
/// of the text where there is none.
pub open spec fn closing(s: Seq<char>, from: int) -> int
    decreases s.len() - from,
{
    if from >= s.len() {
        s.len() as int
    } else if s[from] == ']' {
        from
    } else {
        closing(s, from + 1)
    }
}

/// The bytes that the bracketed byte lists of a text denote, read left to
/// right. An opening bracket starts a list when a closing bracket follows and
/// a byte list stands between the two; any other character is passed over.
pub open spec fn bracketed_bytes(s: Seq<char>) -> Seq<u8>
    decreases s.len(),
{
    if s.len() == 0 {
        Seq::empty()
    } else if s[0] == '[' {
        let end = closing(s, 1);
        if 1 <= end < s.len() {
            match hex_decode(s.subrange(1, end)) {
                Some(bytes) => bytes + bracketed_bytes(s.skip(end + 1)),
                None => bracketed_bytes(s.skip(1)),
            }
        } else {
            bracketed_bytes(s.skip(1))
        }
    } else {
        bracketed_bytes(s.skip(1))
    }
}

proof fn lemma_closing_bounds(s: Seq<char>, from: int)
    requires
        0 <= from,
    ensures
        from <= closing(s, from) || s.len() <= closing(s, from),
        closing(s, from) <= s.len() || from >= s.len(),
        closing(s, from) < s.len() ==> s[closing(s, from)] == ']',
        forall|i: int| from <= i < closing(s, from) && i < s.len() ==> s[i] != ']',
    decreases s.len() - from,
{
    if from < s.len() && s[from] != ']' {
        lemma_closing_bounds(s, from + 1);
    }
}

/// Where the first closing bracket stands, given that none stands before.
proof fn lemma_closing_at(s: Seq<char>, from: int, end: int)
    requires
        0 <= from <= end <= s.len(),
        forall|i: int| from <= i < end ==> s[i] != ']',
        end < s.len() ==> s[end] == ']',
    ensures
        closing(s, from) == end,
    decreases end - from,
{
    if from < end {
        lemma_closing_at(s, from + 1, end);
    }
}

/// Text without an opening bracket denotes no bytes.
proof fn lemma_no_bracket_no_bytes(s: Seq<char>)
    requires
        forall|i: int| 0 <= i < s.len() ==> s[i] != '[',
    ensures
        bracketed_bytes(s) == Seq::<u8>::empty(),
    decreases s.len(),
{
    if s.len() > 0 {
        assert forall|i: int| 0 <= i < s.skip(1).len() implies s.skip(1)[i] != '[' by {
            assert(s.skip(1)[i] == s[i + 1]);
        }
        lemma_no_bracket_no_bytes(s.skip(1));
    }
}

/// A character that is no opening bracket, put in front, changes nothing.
proof fn lemma_pass_over(c: char, tail: Seq<char>)
    requires
        c != '[',
    ensures
        bracketed_bytes(seq![c] + tail) == bracketed_bytes(tail),
{
    assert((seq![c] + tail).skip(1) == tail);
}

/// A bracketed run, put in front, puts its bytes in front.
proof fn lemma_bracketed_in_front(run: Seq<u8>, tail: Seq<char>)
    ensures
        bracketed_bytes(bracketed(run) + tail) == run + bracketed_bytes(tail),
{
    reveal_strlit("[");
    reveal_strlit("]");
    if run.len() == 0 {
        assert(bracketed(run) + tail == tail);
        assert(run + bracketed_bytes(tail) == bracketed_bytes(tail));
    } else {
        let list = hex_list(run);
        let s = bracketed(run) + tail;
        lemma_hex_list_shape(run);
        lemma_hex_round_trip(run);
        let end = list.len() as int + 1;
        assert(s[0] == '[');
        assert forall|i: int| 1 <= i < end implies s[i] != ']' by {
            assert(s[i] == list[i - 1]);
            assert(is_hex_list_char(list[i - 1]));
        }
        assert(s[end] == ']');
        lemma_closing_at(s, 1, end);
        assert(s.subrange(1, end) == list);
        assert(s.skip(end + 1) == tail);
    }
}

/// A whitespace character at the end changes nothing.
proof fn lemma_trailing_whitespace(s: Seq<char>, w: char)
    requires
        is_whitespace(w),
    ensures
        bracketed_bytes(s.push(w)) == bracketed_bytes(s),
    decreases s.len(),
{
    let t = s.push(w);
    assert(w != '[' && w != ']');
    if s.len() == 0 {
        assert(t.skip(1) == Seq::<char>::empty());
        assert(bracketed_bytes(t) == bracketed_bytes(t.skip(1)));
    } else if s[0] == '[' {
        let end = closing(s, 1);
        lemma_closing_bounds(s, 1);
        assert(t[0] == '[');
        assert(t.skip(1) == s.skip(1).push(w));
        lemma_trailing_whitespace(s.skip(1), w);
        if end < s.len() {
            assert forall|i: int| 1 <= i < end implies t[i] != ']' by {
                assert(t[i] == s[i]);
            }
            assert(t[end] == s[end]);
            lemma_closing_at(t, 1, end);
            assert(t.subrange(1, end) == s.subrange(1, end));
            assert(t.skip(end + 1) == s.skip(end + 1).push(w));
            lemma_trailing_whitespace(s.skip(end + 1), w);
        } else {
            assert(end == s.len());
            assert forall|i: int| 1 <= i < t.len() implies t[i] != ']' by {
                if i < s.len() {
                    assert(t[i] == s[i]);
                }
            }
            lemma_closing_at(t, 1, t.len() as int);
            assert(closing(t, 1) == t.len());
        }
    } else {
        assert(t[0] == s[0]);
        assert(t.skip(1) == s.skip(1).push(w));
        lemma_trailing_whitespace(s.skip(1), w);
    }
}

/// Trimming trailing whitespace takes no byte list away.
pub proof fn lemma_trim_keeps_bytes(s: Seq<char>)
    ensures
        bracketed_bytes(trim_end(s)) == bracketed_bytes(s),
    decreases s.len(),
{
    if s.len() > 0 && is_whitespace(s.last()) {
        lemma_trim_keeps_bytes(s.drop_last());
        lemma_trailing_whitespace(s.drop_last(), s.last());
        assert(s.drop_last().push(s.last()) == s);
    }
}

/// The byte lists of a mixed rendering in progress denote the open run and
/// then the non-printable bytes of what is still to come.
proof fn lemma_mixed_from_bytes(run: Seq<u8>, rest: Seq<u8>)
    requires
        forall|i: int| 0 <= i < rest.len() ==> rest[i] != 0x5B,
    ensures
        bracketed_bytes(mixed_from(run, rest)) == run + non_printable(rest),
    decreases rest.len(),
{
    if rest.len() == 0 {
        lemma_bracketed_in_front(run, Seq::empty());
        assert(bracketed(run) + Seq::<char>::empty() == bracketed(run));
        assert(run + Seq::<u8>::empty() == run);
    } else {
        let tail = rest.skip(1);
        assert forall|i: int| 0 <= i < tail.len() implies tail[i] != 0x5B by {
            assert(tail[i] == rest[i + 1]);
        }
        let b = rest[0];
        if b == 13 || b == 10 {
            lemma_mixed_from_bytes(run, tail);
        } else if is_printable(b) {
            lemma_mixed_from_bytes(Seq::empty(), tail);
            let after = mixed_from(Seq::empty(), tail);
            lemma_pass_over(b as char, after);
            lemma_bracketed_in_front(run, seq![b as char] + after);
            assert(bracketed(run) + seq![b as char] + after == bracketed(run) + (seq![b as char]
                + after));
            assert(Seq::<u8>::empty() + non_printable(tail) == non_printable(tail));
        } else {
            lemma_mixed_from_bytes(run.push(b), tail);
            assert(run.push(b) + non_printable(tail) == run + (seq![b] + non_printable(tail)));
        }
    }
}

/// Text and bytes of pieces put together are the texts and the bytes put
/// together.
proof fn lemma_pieces_concat(a: Seq<Piece>, b: Seq<Piece>)
    ensures
        pieces_text(a + b) == pieces_text(a) + pieces_text(b),
        pieces_bytes(a + b) == pieces_bytes(a) + pieces_bytes(b),
    decreases a.len(),
{
    if a.len() == 0 {
        assert(a + b == b);
        assert(pieces_text(a) + pieces_text(b) == pieces_text(b));
        assert(pieces_bytes(a) + pieces_bytes(b) == pieces_bytes(b));
    } else {
        lemma_pieces_concat(a.skip(1), b);
        assert((a + b).skip(1) == a.skip(1) + b);
        assert((a + b)[0] == a[0]);
        assert(piece_text(a[0]) + (pieces_text(a.skip(1)) + pieces_text(b)) == piece_text(a[0])
            + pieces_text(a.skip(1)) + pieces_text(b));
        assert(piece_bytes(a[0]) + (pieces_bytes(a.skip(1)) + pieces_bytes(b)) == piece_bytes(
            a[0],
        ) + pieces_bytes(a.skip(1)) + pieces_bytes(b));
    }
}

/// A single piece has its own text and bytes.
proof fn lemma_single_piece(piece: Piece)
    ensures
        pieces_text(seq![piece]) == piece_text(piece),
        pieces_bytes(seq![piece]) == piece_bytes(piece),
{
    let one = seq![piece];
    assert(one.skip(1) == Seq::<Piece>::empty());
    assert(pieces_text(one.skip(1)) == Seq::<char>::empty());
    assert(pieces_bytes(one.skip(1)) == Seq::<u8>::empty());
    assert(piece_text(piece) + Seq::<char>::empty() == piece_text(piece));
    assert(piece_bytes(piece) + Seq::<u8>::empty() == piece_bytes(piece));
}

/// An open run is written as its bracketed list, and its list decodes to the
/// run.
proof fn lemma_run_pieces(run: Seq<u8>)
    ensures
        pieces_text(run_pieces(run)) == bracketed(run),
        pieces_bytes(run_pieces(run)) == run,
{
    if run.len() == 0 {
        assert(run == Seq::<u8>::empty());
    } else {
        lemma_hex_round_trip(run);
        lemma_single_piece(Piece::List(hex_list(run)));
    }
}

proof fn lemma_pieces_from(run: Seq<u8>, rest: Seq<u8>)
    ensures
        pieces_text(pieces_from(run, rest)) == mixed_from(run, rest),
        pieces_bytes(pieces_from(run, rest)) == run + non_printable(rest),
    decreases rest.len(),
{
    lemma_run_pieces(run);
    if rest.len() == 0 {
        assert(run + Seq::<u8>::empty() == run);
    } else {
        let tail = rest.skip(1);
        let b = rest[0];
        if b == 13 || b == 10 {
            lemma_pieces_from(run, tail);
        } else if is_printable(b) {
            lemma_pieces_from(Seq::empty(), tail);
            let literal = seq![Piece::Literal(b as char)];
            let after = pieces_from(Seq::empty(), tail);
            lemma_pieces_concat(run_pieces(run), literal);
            lemma_pieces_concat(run_pieces(run) + literal, after);
            lemma_single_piece(Piece::Literal(b as char));
            assert(run + Seq::<u8>::empty() + (Seq::<u8>::empty() + non_printable(tail)) == run
                + non_printable(tail));
        } else {
            lemma_pieces_from(run.push(b), tail);
            assert(run.push(b) + non_printable(tail) == run + (seq![b] + non_printable(tail)));
        }
    }
}

/// Mixed content is made of literal characters and bracketed byte lists, and
/// hex-decoding its byte lists, one after the other, gives back the
/// non-printable bytes of the line, in order.
pub proof fn lemma_mixed_pieces(data: Seq<u8>)
    ensures
        pieces_text(pieces_from(Seq::empty(), data)) == mixed_content(data),
        pieces_bytes(pieces_from(Seq::empty(), data)) == non_printable(data),
{
    lemma_pieces_from(Seq::empty(), data);
    assert(Seq::<u8>::empty() + non_printable(data) == non_printable(data));
}

/// Hex-decoding the bracketed byte list of a binary record gives back every
/// byte of the line, in order.
pub proof fn lemma_binary_round_trip(data: Seq<u8>, timestamp: Seq<char>)
    ensures
        bracketed_bytes(render_binary(data, timestamp).skip(timestamp.len() as int + 11)) == data,
{
    reveal_strlit("[");
    reveal_strlit("] BINARY: [");
    reveal_strlit("] (");
    reveal_strlit(" bytes)");
    reveal_strlit("]");
    let tail = seq![' ', '('] + decimal(data.len()) + " bytes)"@;
    let record = render_binary(data, timestamp);
    let body = record.skip(timestamp.len() as int + 11);
    lemma_decimal_digits(data.len());
    assert forall|i: int| 0 <= i < tail.len() implies tail[i] != '[' by {
        if 2 <= i < 2 + decimal(data.len()).len() {
            assert(tail[i] == decimal(data.len())[i - 2]);
        }
    }
    lemma_no_bracket_no_bytes(tail);
    if data.len() == 0 {
        assert(body == seq!['[', ']'] + tail);
        let s = seq!['[', ']'] + tail;
        lemma_closing_at(s, 1, 1);
        assert(s.subrange(1, 1) == Seq::<char>::empty());
        assert(s.skip(2) == tail);
        assert(Seq::<u8>::empty() + bracketed_bytes(tail) == data);
    } else {
        assert(body == bracketed(data) + tail);
        lemma_bracketed_in_front(data, tail);
        assert(data + Seq::<u8>::empty() == data);
    }
}

/// Read as text, a mixed record gives its byte lists back as well: scanning
/// it for bracketed byte lists and hex-decoding them gives the non-printable
/// bytes of the line, in order, for every line that holds no opening bracket
/// among its literal characters.
pub proof fn lemma_mixed_round_trip(data: Seq<u8>, timestamp: Seq<char>)
    requires
        forall|i: int| 0 <= i < data.len() ==> data[i] != 0x5B,
    ensures
        bracketed_bytes(render_mixed(data, timestamp).skip(timestamp.len() as int + 10)) == non_printable(
            data,
        ),
{
    reveal_strlit("[");
    reveal_strlit("] MIXED: ");
    let content = mixed_content(data);
    assert(render_mixed(data, timestamp).skip(timestamp.len() as int + 10) == trim_end(content));
    lemma_trim_keeps_bytes(content);
    lemma_mixed_from_bytes(Seq::empty(), data);
    assert(Seq::<u8>::empty() + non_printable(data) == non_printable(data));
}

/// Decimal notation holds digits alone.
proof fn lemma_decimal_digits(n: nat)
    ensures
        forall|i: int|
            0 <= i < decimal(n).len() ==> 48 <= (#[trigger] decimal(n)[i]) as u32 <= 57,
    decreases n,
{
    if n >= 10 {
        lemma_decimal_digits(n / 10);
        let d = n % 10;
        assert(digit_char(d) as u32 == 48 + d);
        let front = decimal(n / 10);
        assert forall|i: int| 0 <= i < decimal(n).len() implies 48 <= (
        #[trigger] decimal(n)[i]) as u32 <= 57 by {
            if i < front.len() {
                assert(decimal(n)[i] == front[i]);
            }
        }
    } else {
        assert(digit_char(n) as u32 == 48 + n);
    }
}

} // verus!
