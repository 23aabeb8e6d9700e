//! Reassembly of a byte stream into lines, with the running verdict and the
//! byte statistics kept alongside.

use std::collections::HashMap;
use vstd::prelude::*;
use crate::data::classifier::{DataType, StreamClassifier};
use crate::data::formatter::DataFormatter;
use crate::data::stream::{occurrences, rendered, LineView, StreamState, MAX_PENDING};
use crate::parse::string_views;

verus! {

/// An emitted line: its bytes with the terminator, if one ended it, the
/// timestamp of the call that completed it, and the verdict at that moment.
#[derive(Debug)]
pub struct Line {
    pub bytes: Vec<u8>,
    pub timestamp: String,
    pub verdict: DataType,
}

impl View for Line {
    type V = LineView;

    open spec fn view(&self) -> LineView {
        LineView { bytes: self.bytes@, timestamp: self.timestamp@, verdict: self.verdict }
    }
}

/// The lines of a vector, as contracts speak of them.
pub open spec fn line_views(lines: Seq<Line>) -> Seq<LineView> {
    Seq::new(lines.len(), |i: int| lines[i]@)
}

/// Whether `byte` is among the entries of `top`.
pub open spec fn listed(top: Seq<(u8, u64)>, byte: u8) -> bool {
    exists|i: int| 0 <= i < top.len() && #[trigger] top[i].0 == byte
}

/// Whether `top` ranks the most frequent byte values of a table: at most
/// `limit` entries, each a byte value with its count, no value twice, counts
/// never rising, and every value left out counted no more often than any
/// entry, and left out only because the ranking is full. Among equal counts
/// any order and any choice is a ranking.
pub open spec fn is_ranking(frequency: Map<u8, nat>, top: Seq<(u8, u64)>, limit: nat) -> bool {
    &&& top.len() <= limit
    &&& forall|i: int|
        0 <= i < top.len() ==> frequency.contains_key(#[trigger] top[i].0) && frequency[top[i].0]
            == top[i].1
    &&& forall|i: int, j: int|
        0 <= i < j < top.len() ==> (#[trigger] top[i]).0 != (#[trigger] top[j]).0 && top[i].1
            >= top[j].1
    &&& forall|b: u8|
        #[trigger] frequency.contains_key(b) && !listed(top, b) ==> top.len() == limit && forall|
            i: int,
        |
            0 <= i < top.len() ==> (#[trigger] top[i]).1 >= frequency[b]
}

/// The stream parser: classifier, pending line and byte statistics of one
/// session.
pub struct DataParser {
    classifier: StreamClassifier,
    line_buffer: Vec<u8>,
    last_was_cr: bool,
    char_frequency: HashMap<u8, u64>,
}

impl View for DataParser {
    type V = StreamState;

    closed spec fn view(&self) -> StreamState {
        StreamState {
            classifier: self.classifier@,
            pending: self.line_buffer@,
            last_was_cr: self.last_was_cr,
            frequency: Map::new(
                |b: u8| self.char_frequency@.contains_key(b),
                |b: u8| self.char_frequency@[b] as nat,
            ),
        }
    }
}

impl DataParser {
    /// The invariant of the stream state, and that the counts fit their
    /// fields.
    pub open spec fn wf(&self) -> bool {
        &&& self@.wf()
        &&& self@.classifier.total <= u64::MAX
    }

    /// A parser that has seen nothing.
    pub fn new() -> (parser: Self)
        ensures
            parser.wf(),
            parser@ == StreamState::initial(),
    {
        let parser = DataParser {
            classifier: StreamClassifier::new(),
            line_buffer: Vec::new(),
            last_was_cr: false,
            char_frequency: HashMap::new(),
        };
        assert(parser@.frequency =~= Map::empty());
        parser
    }

    /// Takes the pending line out, leaving an empty one.
    fn take_line(&mut self, timestamp: &str) -> (line: Line)
        ensures
            line@ == old(self)@.line(old(self)@.pending, timestamp@),
            final(self)@ == (StreamState { pending: Seq::empty(), ..old(self)@ }),
    {
        let mut bytes: Vec<u8> = Vec::new();
        std::mem::swap(&mut bytes, &mut self.line_buffer);
        Line { bytes, timestamp: timestamp.to_owned(), verdict: self.classifier.classify() }
    }

    /// Counts `byte` in the classifier and in the frequency table.
    fn count(&mut self, byte: u8)
        requires
            old(self).wf(),
            old(self)@.classifier.total < u64::MAX,
        ensures
            final(self)@ == old(self)@.counted(byte),
            final(self)@.counts_wf(),
            final(self)@.classifier.total <= u64::MAX,
    {
        let seen: u64 = match self.char_frequency.get(&byte) {
            Some(n) => *n,
            None => 0,
        };
        assert(seen == old(self)@.occurrences(byte));
        self.classifier.observe(byte);
        self.char_frequency.insert(byte, seen + 1);
        assert(self@.frequency =~= old(self)@.counted(byte).frequency);
        assert forall|b: u8| #[trigger]
            occurrences(self@.frequency, b) <= self@.classifier.total by {
            assert(occurrences(old(self)@.frequency, b) <= old(self)@.classifier.total);
        }
    }

    /// Takes one byte of the stream.
    fn step(&mut self, byte: u8, timestamp: &str) -> (line: Option<Line>)
        requires
            old(self).wf(),
            old(self)@.classifier.total < u64::MAX,
        ensures
            final(self).wf(),
            final(self)@ == old(self)@.step(byte, timestamp@).0,
            match line {
                Some(l) => old(self)@.step(byte, timestamp@).1 == Some(l@),
                None => old(self)@.step(byte, timestamp@).1 is None,
            },
    {
        self.count(byte);
        if byte == 13 {
            self.line_buffer.push(byte);
            self.last_was_cr = true;
            Some(self.take_line(timestamp))
        } else if byte == 10 {
            if self.last_was_cr {
                self.last_was_cr = false;
                None
            } else {
                self.line_buffer.push(byte);
                Some(self.take_line(timestamp))
            }
        } else {
            self.last_was_cr = false;
            self.line_buffer.push(byte);
            if self.line_buffer.len() > MAX_PENDING {
                Some(self.take_line(timestamp))
            } else {
                None
            }
        }
    }

    /// Takes a chunk of the stream and hands back the lines that it
    /// completes, each with the given timestamp and the verdict at the moment
    /// it left. A chunk may hold no line, one, or many, and may end within a
    /// line, which then waits for the next chunk.
    pub fn feed(&mut self, data: &[u8], timestamp: &str) -> (lines: Vec<Line>)
        requires
            old(self).wf(),
            old(self)@.classifier.total + data@.len() <= u64::MAX,
        ensures
            final(self).wf(),
            final(self)@ == old(self)@.run(data@, timestamp@).0,
            final(self)@.classifier.total == old(self)@.classifier.total + data@.len(),
            line_views(lines@) == old(self)@.run(data@, timestamp@).1,
    {
        let mut lines: Vec<Line> = Vec::new();
        let mut i: usize = 0;
        assert(line_views(lines@) =~= Seq::empty());
        while i < data.len()
            invariant
                i <= data.len(),
                self.wf(),
                self@.classifier.total == old(self)@.classifier.total + i,
                old(self)@.classifier.total + data@.len() <= u64::MAX,
                self@ == old(self)@.run(data@.take(i as int), timestamp@).0,
                line_views(lines@) == old(self)@.run(data@.take(i as int), timestamp@).1,
            decreases data.len() - i,
        {
            let ghost before = lines@;
            proof {
                let next = data@.take(i + 1);
                assert(next.drop_last() == data@.take(i as int));
                assert(next.last() == data[i as int]);
            }
            match self.step(data[i], timestamp) {
                Some(line) => {
                    lines.push(line);
                    assert(line_views(lines@) =~= line_views(before).push(line@));
                },
                None => {},
            }
            i += 1;
        }
        assert(data@.take(data@.len() as int) == data@);
        lines
    }

    /// Renders lines, each under its own verdict and timestamp, and hands
    /// back the records of those that render to something.
    pub fn render_lines(lines: &Vec<Line>) -> (records: Vec<String>)
        ensures
            string_views(records@) == rendered(line_views(lines@)),
    {
        let mut records: Vec<String> = Vec::new();
        let mut i: usize = 0;
        assert(string_views(records@) =~= Seq::empty());
        assert(line_views(lines@).take(0) =~= Seq::empty());
        while i < lines.len()
            invariant
                i <= lines.len(),
                string_views(records@) == rendered(line_views(lines@).take(i as int)),
            decreases lines.len() - i,
        {
            let ghost before = records@;
            let line = &lines[i];
            proof {
                let next = line_views(lines@).take(i + 1);
                assert(next.drop_last() == line_views(lines@).take(i as int));
                assert(next.last() == line@);
            }
            match DataFormatter::format_data(
                line.bytes.as_slice(),
                &line.verdict,
                line.timestamp.as_str(),
            ) {
                Some(record) => {
                    records.push(record);
                    assert(string_views(records@) =~= string_views(before).push(record@));
                },
                None => {},
            }
            i += 1;
        }
        assert(line_views(lines@).take(lines@.len() as int) == line_views(lines@));
        records
    }

    /// Takes a chunk of the stream and hands back the display records of the
    /// lines that it completes.
    pub fn process_data(&mut self, data: &[u8], timestamp: &str) -> (records: Vec<String>)
        requires
            old(self).wf(),
            old(self)@.classifier.total + data@.len() <= u64::MAX,
        ensures
            final(self).wf(),
            final(self)@ == old(self)@.run(data@, timestamp@).0,
            final(self)@.classifier.total == old(self)@.classifier.total + data@.len(),
            string_views(records@) == rendered(old(self)@.run(data@, timestamp@).1),
    {
        let lines = self.feed(data, timestamp);
        Self::render_lines(&lines)
    }

    /// The current verdict.
    pub fn detected_type(&self) -> (verdict: DataType)
        ensures
            verdict == self@.classifier.verdict,
    {
        self.classifier.classify()
    }

    /// The number of bytes taken so far.
    pub fn total_count(&self) -> (total: u64)
        ensures
            total == self@.classifier.total,
    {
        self.classifier.total_count()
    }

    /// The number of printable bytes taken so far.
    pub fn ascii_count(&self) -> (printable: u64)
        ensures
            printable == self@.classifier.printable,
    {
        self.classifier.printable_count()
    }

    /// The number of bytes taken so far that are not printable.
    pub fn binary_count(&self) -> (other: u64)
        requires
            self.wf(),
        ensures
            other == self@.classifier.total - self@.classifier.printable,
    {
        self.classifier.total_count() - self.classifier.printable_count()
    }

    /// The bytes that wait for their line to be completed.
    pub fn pending(&self) -> (bytes: &[u8])
        ensures
            bytes@ == self@.pending,
    {
        self.line_buffer.as_slice()
    }

    /// How often `byte` occurred so far.
    pub fn byte_count(&self, byte: u8) -> (n: u64)
        ensures
            n == self@.occurrences(byte),
    {
        match self.char_frequency.get(&byte) {
            Some(n) => *n,
            None => 0,
        }
    }

    /// The five most frequent byte values with their counts, the most
    /// frequent first. Which of several equally frequent values comes first,
    /// or makes it into the five, is left open.
    pub fn most_common(&self) -> (top: Vec<(u8, u64)>)
        ensures
            is_ranking(self@.frequency, top@, 5),
    {
        let mut top: Vec<(u8, u64)> = Vec::new();
        let mut full: bool = false;
        while top.len() < 5 && !full
            invariant
                is_ranking(self@.frequency, top@, top@.len()),
                top@.len() <= 5,
                full ==> forall|b: u8| #[trigger] self@.frequency.contains_key(b) ==> listed(top@, b),
            decreases 5 - top@.len() + if full { 0int } else { 1int },
        {
            let mut best: Option<(u8, u64)> = None;
            let mut v: u16 = 0;
            while v < 256
                invariant
                    v <= 256,
                    match best {
                        Some(e) => self@.frequency.contains_key(e.0) && self@.frequency[e.0] == e.1
                            && !listed(top@, e.0),
                        None => true,
                    },
                    forall|b: u8|
                        b < v && #[trigger] self@.frequency.contains_key(b) && !listed(top@, b)
                            ==> (best matches Some(e) && e.1 >= self@.frequency[b]),
                decreases 256 - v,
            {
                let byte: u8 = v as u8;
                if !Self::is_listed(&top, byte) {
                    match self.char_frequency.get(&byte) {
                        Some(n) => {
                            let better = match best {
                                Some(e) => *n > e.1,
                                None => true,
                            };
                            if better {
                                best = Some((byte, *n));
                            }
                        },
                        None => {},
                    }
                }
                v += 1;
            }
            match best {
                Some(e) => {
                    let ghost before = top@;
                    top.push(e);
                    proof {
                        assert forall|b: u8| #[trigger]
                            self@.frequency.contains_key(b) && !listed(top@, b) implies forall|
                            i: int,
                        |
                            0 <= i < top@.len() ==> (#[trigger] top@[i]).1 >= self@.frequency[b] by {
                            if listed(before, b) {
                                let k = choose|k: int| 0 <= k < before.len() && before[k].0 == b;
                                assert(top@[k].0 == b);
                            }
                            assert(!listed(before, b));
                        }
                        assert forall|i: int, j: int| 0 <= i < j < top@.len() implies (
                        #[trigger] top@[i]).0 != (#[trigger] top@[j]).0 && top@[i].1
                            >= top@[j].1 by {
                            if j == before.len() {
                                assert(before[i].0 == top@[i].0);
                            } else {
                                assert(before[i] == top@[i] && before[j] == top@[j]);
                            }
                        }
                    }
                },
                None => {
                    full = true;
                },
            }
        }
        proof {
            if top@.len() < 5 {
                assert(full);
            }
        }
        top
    }

    /// Tells whether `byte` is among the entries of `top`.
    fn is_listed(top: &Vec<(u8, u64)>, byte: u8) -> (found: bool)
        ensures
            found == listed(top@, byte),
    {
        let mut i: usize = 0;
        while i < top.len()
            invariant
                i <= top.len(),
                forall|k: int| 0 <= k < i ==> top@[k].0 != byte,
            decreases top.len() - i,
        {
            if top[i].0 == byte {
                return true;
            }
            i += 1;
        }
        false
    }
}

impl Default for DataParser {
    fn default() -> (parser: Self)
        ensures
            parser.wf(),
            parser@ == StreamState::initial(),
    {
        DataParser::new()
    }
}

} // verus!
