//! The stream as a state machine: what one byte does to the state, which
//! lines a chunk sends out, and what holds of every run.

use vstd::prelude::*;
use crate::data::classifier::{
    lemma_observe_all_counts, lemma_verdict_holds_below_sample, ClassifierState, DataType,
    MIN_SAMPLE,
};
use crate::data::formatter::render;

verus! {

/// The most bytes that a pending line holds; one byte more forces it out.
pub const MAX_PENDING: usize = 65536;

/// An emitted line, as contracts speak of it.
pub struct LineView {
    pub bytes: Seq<u8>,
    pub timestamp: Seq<char>,
    pub verdict: DataType,
}

/// The records that a run of lines renders to: each line under its own
/// verdict, in order, without the lines that render to nothing.
pub open spec fn rendered(lines: Seq<LineView>) -> Seq<Seq<char>>
    decreases lines.len(),
{
    if lines.len() == 0 {
        Seq::empty()
    } else {
        let line = lines.last();
        match render(line.bytes, line.verdict, line.timestamp) {
            Some(record) => rendered(lines.drop_last()).push(record),
            None => rendered(lines.drop_last()),
        }
    }
}

/// How often `byte` occurred by a frequency table.
pub open spec fn occurrences(frequency: Map<u8, nat>, byte: u8) -> nat {
    if frequency.contains_key(byte) {
        frequency[byte]
    } else {
        0
    }
}

/// The state of a stream between two bytes.
pub struct StreamState {
    /// The classifier's counts and verdict.
    pub classifier: ClassifierState,
    /// The bytes since the last emitted line.
    pub pending: Seq<u8>,
    /// Whether the byte before was a carriage return.
    pub last_was_cr: bool,
    /// How often each byte value occurred; values never seen have no entry.
    pub frequency: Map<u8, nat>,
}

impl StreamState {
    /// The state before the first byte.
    pub open spec fn initial() -> StreamState {
        StreamState {
            classifier: ClassifierState::initial(),
            pending: Seq::empty(),
            last_was_cr: false,
            frequency: Map::empty(),
        }
    }

    /// How often `byte` occurred.
    pub open spec fn occurrences(self, byte: u8) -> nat {
        occurrences(self.frequency, byte)
    }

    /// The counts are sound, and the pending line is within its bound and
    /// empty right after a carriage return.
    pub open spec fn wf(self) -> bool {
        &&& self.counts_wf()
        &&& self.pending.len() <= MAX_PENDING
        &&& self.last_was_cr ==> self.pending.len() == 0
    }

    /// The classifier is sound, and no byte value occurred more often than
    /// bytes were seen nor has an entry without having occurred.
    pub open spec fn counts_wf(self) -> bool {
        &&& self.classifier.wf()
        &&& forall|b: u8| #[trigger] occurrences(self.frequency, b) <= self.classifier.total
        &&& forall|b: u8| #[trigger] self.frequency.contains_key(b) ==> self.frequency[b] > 0
    }

    /// The line that leaves when `bytes` is flushed.
    pub open spec fn line(self, bytes: Seq<u8>, timestamp: Seq<char>) -> LineView {
        LineView { bytes, timestamp, verdict: self.classifier.verdict }
    }

    /// The state with `byte` counted: by the classifier and in the frequency
    /// table.
    pub open spec fn counted(self, byte: u8) -> StreamState {
        StreamState {
            classifier: self.classifier.observe(byte),
            frequency: self.frequency.insert(byte, self.occurrences(byte) + 1),
            ..self
        }
    }

    /// One byte of the stream. The byte is counted first. A carriage return
    /// joins the pending line and sends it out. A line feed right after a
    /// carriage return is dropped; any other line feed joins the pending line
    /// and sends it out. Any other byte joins the pending line, which leaves
    /// without a terminator once it is over its bound. The line carries the
    /// verdict as it stands with this byte counted.
    pub open spec fn step(self, byte: u8, timestamp: Seq<char>) -> (StreamState, Option<LineView>) {
        let s = self.counted(byte);
        let grown = s.pending.push(byte);
        if byte == 13 {
            (
                StreamState { pending: Seq::empty(), last_was_cr: true, ..s },
                Some(s.line(grown, timestamp)),
            )
        } else if byte == 10 {
            if s.last_was_cr {
                (StreamState { last_was_cr: false, ..s }, None)
            } else {
                (
                    StreamState { pending: Seq::empty(), last_was_cr: false, ..s },
                    Some(s.line(grown, timestamp)),
                )
            }
        } else if grown.len() > MAX_PENDING {
            (
                StreamState { pending: Seq::empty(), last_was_cr: false, ..s },
                Some(s.line(grown, timestamp)),
            )
        } else {
            (StreamState { pending: grown, last_was_cr: false, ..s }, None)
        }
    }

    /// A chunk of the stream: its bytes one by one, and the lines that they
    /// send out, in order.
    pub open spec fn run(self, data: Seq<u8>, timestamp: Seq<char>) -> (StreamState, Seq<LineView>)
        decreases data.len(),
    {
        if data.len() == 0 {
            (self, Seq::empty())
        } else {
            let (before, lines) = self.run(data.drop_last(), timestamp);
            let (after, line) = before.step(data.last(), timestamp);
            match line {
                Some(l) => (after, lines.push(l)),
                None => (after, lines),
            }
        }
    }
}

/// The bytes of a run of lines, one line after the other.
pub open spec fn joined(lines: Seq<LineView>) -> Seq<u8>
    decreases lines.len(),
{
    if lines.len() == 0 {
        Seq::empty()
    } else {
        joined(lines.drop_last()) + lines.last().bytes
    }
}

/// The bytes of a chunk that reach a line: all but the line feeds that come
/// right after a carriage return. `after_cr` tells whether the byte before
/// the chunk was a carriage return.
pub open spec fn kept(after_cr: bool, data: Seq<u8>) -> Seq<u8>
    decreases data.len(),
{
    if data.len() == 0 {
        Seq::empty()
    } else {
        let front = data.drop_last();
        let follows_cr = if front.len() == 0 {
            after_cr
        } else {
            front.last() == 13
        };
        if data.last() == 10 && follows_cr {
            kept(after_cr, front)
        } else {
            kept(after_cr, front).push(data.last())
        }
    }
}

/// One byte keeps the state sound, counts the byte, and sends out at most one
/// line, which is never empty nor longer than the bound and one byte.
pub proof fn lemma_step_sound(s: StreamState, byte: u8, timestamp: Seq<char>)
    requires
        s.wf(),
    ensures
        s.step(byte, timestamp).0.wf(),
        s.step(byte, timestamp).0.classifier == s.classifier.observe(byte),
        s.step(byte, timestamp).0.last_was_cr == (byte == 13),
        s.step(byte, timestamp).1 matches Some(line) ==> {
            &&& 0 < line.bytes.len() <= MAX_PENDING + 1
            &&& line.timestamp == timestamp
            &&& line.verdict == s.classifier.observe(byte).verdict
        },
{
    let c = s.counted(byte);
    assert forall|b: u8| #[trigger] occurrences(c.frequency, b) <= c.classifier.total by {
        assert(occurrences(s.frequency, b) <= s.classifier.total);
    }
}

/// A run keeps the state sound. Its counts are those of a classifier that
/// observed the chunk byte by byte, so the total grows by the length of the
/// chunk and never falls behind the printable count. Every line that it sends
/// out is non-empty, at most one byte over the bound, and carries the
/// timestamp of the run.
pub proof fn lemma_run_sound(s: StreamState, data: Seq<u8>, timestamp: Seq<char>)
    requires
        s.wf(),
    ensures
        s.run(data, timestamp).0.wf(),
        s.run(data, timestamp).0.classifier == s.classifier.observe_all(data),
        s.run(data, timestamp).0.classifier.total == s.classifier.total + data.len(),
        s.run(data, timestamp).0.classifier.printable <= s.run(data, timestamp).0.classifier.total,
        s.run(data, timestamp).0.last_was_cr == if data.len() == 0 {
            s.last_was_cr
        } else {
            data.last() == 13
        },
        s.run(data, timestamp).1.len() <= data.len(),
        forall|i: int|
            0 <= i < s.run(data, timestamp).1.len() ==> {
                let line = #[trigger] s.run(data, timestamp).1[i];
                0 < line.bytes.len() <= MAX_PENDING + 1 && line.timestamp == timestamp
            },
    decreases data.len(),
{
    lemma_observe_all_counts(s.classifier, data);
    if data.len() > 0 {
        lemma_run_sound(s, data.drop_last(), timestamp);
        let (before, lines) = s.run(data.drop_last(), timestamp);
        lemma_step_sound(before, data.last(), timestamp);
    }
}

/// While fewer than a hundred bytes have been taken in all, the verdict stays
/// what it was, whatever the chunk holds.
pub proof fn lemma_run_verdict_below_sample(s: StreamState, data: Seq<u8>, timestamp: Seq<char>)
    requires
        s.wf(),
        s.classifier.total + data.len() < MIN_SAMPLE,
    ensures
        s.run(data, timestamp).0.classifier.verdict == s.classifier.verdict,
{
    lemma_run_sound(s, data, timestamp);
    lemma_verdict_holds_below_sample(s.classifier, data);
}

/// Feeding two chunks one after the other is feeding their concatenation:
/// the same state, and the same lines in the same order.
pub proof fn lemma_run_concat(s: StreamState, a: Seq<u8>, b: Seq<u8>, timestamp: Seq<char>)
    ensures
        s.run(a + b, timestamp).0 == s.run(a, timestamp).0.run(b, timestamp).0,
        s.run(a + b, timestamp).1 == s.run(a, timestamp).1 + s.run(a, timestamp).0.run(
            b,
            timestamp,
        ).1,
    decreases b.len(),
{
    if b.len() == 0 {
        assert(a + b == a);
        assert(s.run(a, timestamp).1 + Seq::<LineView>::empty() == s.run(a, timestamp).1);
    } else {
        lemma_run_concat(s, a, b.drop_last(), timestamp);
        assert((a + b).drop_last() == a + b.drop_last());
        assert((a + b).last() == b.last());
        let mid = s.run(a, timestamp);
        let (before, lines) = mid.0.run(b.drop_last(), timestamp);
        match before.step(b.last(), timestamp).1 {
            Some(l) => {
                assert((mid.1 + lines).push(l) == mid.1 + lines.push(l));
            },
            None => {},
        }
    }
}

/// No byte is lost and none comes twice: the lines that a run sends out, one
/// after the other, and then the line left pending, are the line pending
/// before and then the chunk, less the line feeds that complete a carriage
/// return.
pub proof fn lemma_run_conserves(s: StreamState, data: Seq<u8>, timestamp: Seq<char>)
    requires
        s.wf(),
    ensures
        joined(s.run(data, timestamp).1) + s.run(data, timestamp).0.pending == s.pending + kept(
            s.last_was_cr,
            data,
        ),
    decreases data.len(),
{
    if data.len() == 0 {
        assert(joined(s.run(data, timestamp).1) + s.pending == s.pending);
        assert(s.pending + kept(s.last_was_cr, data) == s.pending);
    } else {
        let front = data.drop_last();
        let byte = data.last();
        lemma_run_conserves(s, front, timestamp);
        lemma_run_sound(s, front, timestamp);
        let (before, lines) = s.run(front, timestamp);
        let (after, line) = before.step(byte, timestamp);
        let base = s.pending + kept(s.last_was_cr, front);
        assert(joined(lines) + before.pending == base);
        match line {
            Some(l) => {
                assert(lines.push(l).drop_last() == lines);
                assert(l.bytes == before.pending.push(byte));
                assert(after.pending == Seq::<u8>::empty());
                assert(joined(lines.push(l)) + after.pending == (joined(lines)
                    + before.pending).push(byte));
                assert(base.push(byte) == s.pending + kept(s.last_was_cr, front).push(byte));
            },
            None => {
                if byte == 10 {
                    assert(after.pending == before.pending);
                } else {
                    assert(after.pending == before.pending.push(byte));
                    assert(joined(lines) + after.pending == (joined(lines)
                        + before.pending).push(byte));
                    assert(base.push(byte) == s.pending + kept(s.last_was_cr, front).push(byte));
                }
            },
        }
    }
}

} // verus!
