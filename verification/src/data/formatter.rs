//! Rendering of one reassembled line as a display record.

use vstd::prelude::*;
use vstd::utf8::{decode_utf8, valid_utf8};
use crate::data::classifier::DataType;
use crate::data::hex::{append_hex_list, hex_list};
use crate::data::text::{append_decimal, append_trimmed, decimal, push_char, trim_end, utf8_text};

verus! {

/// A byte is printable ASCII when it is a tab, a line feed, a carriage return,
/// or lies in the range from space to tilde.
pub open spec fn is_printable(byte: u8) -> bool {
    byte == 9 || byte == 10 || byte == 13 || (32 <= byte && byte <= 126)
}

/// The text record: the timestamp in brackets, the label, and the text.
pub open spec fn ascii_record(timestamp: Seq<char>, text: Seq<char>) -> Seq<char> {
    "["@ + timestamp + "] ASCII: "@ + text
}

/// What a line renders to as text: nothing when the bytes are not UTF-8 or
/// when nothing but whitespace is left of them, else the record of the text
/// without its trailing whitespace (line endings are whitespace).
pub open spec fn render_ascii(data: Seq<u8>, timestamp: Seq<char>) -> Option<Seq<char>> {
    if valid_utf8(data) && trim_end(decode_utf8(data)).len() > 0 {
        Some(ascii_record(timestamp, trim_end(decode_utf8(data))))
    } else {
        None
    }
}

/// What a line renders to as binary: every byte in the bracketed byte list,
/// followed by the byte count.
pub open spec fn render_binary(data: Seq<u8>, timestamp: Seq<char>) -> Seq<char> {
    "["@ + timestamp + "] BINARY: ["@ + hex_list(data) + "] ("@ + decimal(data.len()) + " bytes)"@
}

/// An open run of non-printable bytes as it is written out: nothing for an
/// empty run, else the bracketed byte list.
pub open spec fn bracketed(run: Seq<u8>) -> Seq<char> {
    if run.len() == 0 {
        Seq::empty()
    } else {
        "["@ + hex_list(run) + "]"@
    }
}

/// The mixed rendering of `rest`, read left to right, when `run` holds the
/// non-printable bytes seen since the last literal character. Carriage returns
/// and line feeds vanish without ending a run; any other printable byte closes
/// the run and stands for itself.
pub open spec fn mixed_from(run: Seq<u8>, rest: Seq<u8>) -> Seq<char>
    decreases rest.len(),
{
    if rest.len() == 0 {
        bracketed(run)
    } else if rest[0] == 13 || rest[0] == 10 {
        mixed_from(run, rest.skip(1))
    } else if is_printable(rest[0]) {
        bracketed(run) + seq![rest[0] as char] + mixed_from(Seq::empty(), rest.skip(1))
    } else {
        mixed_from(run.push(rest[0]), rest.skip(1))
    }
}

/// Literal runs and bracketed byte lists of a line, interleaved in the order
/// of the line.
pub open spec fn mixed_content(data: Seq<u8>) -> Seq<char> {
    mixed_from(Seq::empty(), data)
}

/// What a line renders to as mixed content.
pub open spec fn render_mixed(data: Seq<u8>, timestamp: Seq<char>) -> Seq<char> {
    "["@ + timestamp + "] MIXED: "@ + trim_end(mixed_content(data))
}

/// What a line renders to under a verdict.
pub open spec fn render(data: Seq<u8>, verdict: DataType, timestamp: Seq<char>) -> Option<
    Seq<char>,
> {
    match verdict {
        DataType::Ascii => render_ascii(data, timestamp),
        DataType::Binary => Some(render_binary(data, timestamp)),
        DataType::Mixed => Some(render_mixed(data, timestamp)),
    }
}

/// An empty line renders to nothing as text, to an empty bracketed list with a
/// count of zero as binary, and to the bare label as mixed content.
pub proof fn lemma_render_empty(timestamp: Seq<char>)
    ensures
        render_ascii(Seq::empty(), timestamp) is None,
        render_binary(Seq::empty(), timestamp) == "["@ + timestamp + "] BINARY: [] (0 bytes)"@,
        render_mixed(Seq::empty(), timestamp) == "["@ + timestamp + "] MIXED: "@,
{
    reveal_strlit("] BINARY: [");
    reveal_strlit("] (");
    reveal_strlit(" bytes)");
    reveal_strlit("] BINARY: [] (0 bytes)");
    let none = Seq::<u8>::empty();
    assert(decode_utf8(none) =~= Seq::<char>::empty());
    assert(hex_list(none) =~= Seq::<char>::empty());
    assert(decimal(0) =~= seq!['0']);
    assert("] BINARY: ["@ + hex_list(none) + "] ("@ + decimal(0) + " bytes)"@
        =~= "] BINARY: [] (0 bytes)"@);
    assert(render_binary(none, timestamp) =~= "["@ + timestamp + "] BINARY: [] (0 bytes)"@);
    assert(mixed_content(none) =~= Seq::<char>::empty());
    assert(render_mixed(none, timestamp) =~= "["@ + timestamp + "] MIXED: "@);
}

/// Stateless formatting of lines for display.
pub struct DataFormatter;

impl DataFormatter {
    /// Tells whether `byte` counts as printable ASCII.
    pub fn is_printable_ascii(byte: u8) -> (printable: bool)
        ensures
            printable == is_printable(byte),
    {
        byte == 9 || byte == 10 || byte == 13 || (32 <= byte && byte <= 126)
    }

    /// Renders a line as text.
    pub fn format_ascii(data: &[u8], timestamp: &str) -> (record: Option<String>)
        ensures
            match record {
                Some(r) => render_ascii(data@, timestamp@) == Some(r@),
                None => render_ascii(data@, timestamp@) is None,
            },
    {
        match utf8_text(data) {
            Some(text) => {
                let mut trimmed = String::new();
                append_trimmed(&mut trimmed, text);
                if trimmed.as_str().is_empty() {
                    None
                } else {
                    let mut out = String::from_str("[");
                    out.append(timestamp);
                    out.append("] ASCII: ");
                    out.append(trimmed.as_str());
                    Some(out)
                }
            },
            None => None,
        }
    }

    /// Renders a line as binary.
    pub fn format_binary(data: &[u8], timestamp: &str) -> (record: String)
        ensures
            record@ == render_binary(data@, timestamp@),
    {
        let mut out = String::from_str("[");
        out.append(timestamp);
        out.append("] BINARY: [");
        append_hex_list(&mut out, data);
        out.append("] (");
        append_decimal(&mut out, data.len());
        out.append(" bytes)");
        out
    }

    /// Renders a line as mixed content.
    pub fn format_mixed(data: &[u8], timestamp: &str) -> (record: String)
        ensures
            record@ == render_mixed(data@, timestamp@),
    {
        let mut content = String::new();
        let mut run: Vec<u8> = Vec::new();
        let mut i: usize = 0;
        assert(data@.skip(0) == data@);
        while i < data.len()
            invariant
                i <= data.len(),
                content@ + mixed_from(run@, data@.skip(i as int)) == mixed_content(data@),
            decreases data.len() - i,
        {
            let byte: u8 = data[i];
            proof {
                assert(data@.skip(i as int)[0] == byte);
                assert(data@.skip(i as int).skip(1) == data@.skip(i + 1));
            }
            if byte == 13 || byte == 10 {
            } else if Self::is_printable_ascii(byte) {
                Self::append_bracketed(&mut content, &run);
                push_char(&mut content, byte as char);
                run = Vec::new();
            } else {
                run.push(byte);
            }
            i += 1;
        }
        Self::append_bracketed(&mut content, &run);
        let mut out = String::from_str("[");
        out.append(timestamp);
        out.append("] MIXED: ");
        append_trimmed(&mut out, content.as_str());
        out
    }

    /// Renders a line under the given verdict.
    pub fn format_data(data: &[u8], data_type: &DataType, timestamp: &str) -> (record: Option<
        String,
    >)
        ensures
            match record {
                Some(r) => render(data@, *data_type, timestamp@) == Some(r@),
                None => render(data@, *data_type, timestamp@) is None,
            },
    {
        match data_type {
            DataType::Ascii => Self::format_ascii(data, timestamp),
            DataType::Binary => Some(Self::format_binary(data, timestamp)),
            DataType::Mixed => Some(Self::format_mixed(data, timestamp)),
        }
    }

    /// Writes out an open run of non-printable bytes.
    fn append_bracketed(out: &mut String, run: &Vec<u8>)
        ensures
            final(out)@ == old(out)@ + bracketed(run@),
    {
        if run.len() > 0 {
            out.append("[");
            append_hex_list(out, run.as_slice());
            out.append("]");
        }
    }
}

} // verus!
