//! The running verdict on what kind of content a stream carries.

use vstd::prelude::*;
use crate::data::formatter::{is_printable, DataFormatter};

verus! {

/// What a stream is taken to carry.
#[derive(Debug, Clone, Copy, PartialEq, Eq, Structural)]
pub enum DataType {
    Ascii,
    Binary,
    Mixed,
}

/// The number of bytes below which no verdict is drawn.
pub const MIN_SAMPLE: u64 = 100;

/// The verdict that the counts call for: text when more than 95 in 100 bytes
/// are printable, binary when fewer than 30 in 100 are, mixed otherwise. Both
/// bounds themselves are mixed.
pub open spec fn verdict_for(printable: nat, total: nat) -> DataType {
    if 100 * printable > 95 * total {
        DataType::Ascii
    } else if 100 * printable < 30 * total {
        DataType::Binary
    } else {
        DataType::Mixed
    }
}

/// What a classifier has seen and what it makes of it.
pub struct ClassifierState {
    /// Bytes observed since creation.
    pub total: nat,
    /// Those of them that are printable ASCII.
    pub printable: nat,
    /// The current verdict.
    pub verdict: DataType,
}

impl ClassifierState {
    /// A classifier that has seen nothing holds the cautious verdict.
    pub open spec fn initial() -> ClassifierState {
        ClassifierState { total: 0, printable: 0, verdict: DataType::Mixed }
    }

    /// No more printable bytes than bytes; the verdict is the cautious one
    /// while the sample is too small, and afterwards the one that the counts
    /// call for.
    pub open spec fn wf(self) -> bool {
        &&& self.printable <= self.total
        &&& self.total < MIN_SAMPLE ==> self.verdict == DataType::Mixed
        &&& self.total >= MIN_SAMPLE ==> self.verdict == verdict_for(self.printable, self.total)
    }

    /// The state after one more byte: the counts advance, and the verdict is
    /// drawn anew once the sample is large enough, else left as it was.
    pub open spec fn observe(self, byte: u8) -> ClassifierState {
        let total = self.total + 1;
        let printable = if is_printable(byte) {
            self.printable + 1
        } else {
            self.printable
        };
        ClassifierState {
            total,
            printable,
            verdict: if total >= MIN_SAMPLE {
                verdict_for(printable, total)
            } else {
                self.verdict
            },
        }
    }

    /// The state after a run of bytes, observed in order.
    pub open spec fn observe_all(self, bytes: Seq<u8>) -> ClassifierState
        decreases bytes.len(),
    {
        if bytes.len() == 0 {
            self
        } else {
            self.observe_all(bytes.drop_last()).observe(bytes.last())
        }
    }
}

/// The number of printable bytes in `bytes`.
pub open spec fn count_printable(bytes: Seq<u8>) -> nat
    decreases bytes.len(),
{
    if bytes.len() == 0 {
        0
    } else {
        count_printable(bytes.drop_last()) + if is_printable(bytes.last()) {
            1nat
        } else {
            0nat
        }
    }
}

/// After any run of bytes the total has grown by the length of the run, the
/// printable count by the number of printable bytes in it, and no more bytes
/// are counted printable than were seen.
pub proof fn lemma_observe_all_counts(s: ClassifierState, bytes: Seq<u8>)
    ensures
        s.observe_all(bytes).total == s.total + bytes.len(),
        s.observe_all(bytes).printable == s.printable + count_printable(bytes),
        count_printable(bytes) <= bytes.len(),
        s.wf() ==> s.observe_all(bytes).wf(),
    decreases bytes.len(),
{
    if bytes.len() > 0 {
        lemma_observe_all_counts(s, bytes.drop_last());
    }
}

/// While fewer than a hundred bytes have been seen in all, the verdict stays
/// what it was, whatever the bytes.
pub proof fn lemma_verdict_holds_below_sample(s: ClassifierState, bytes: Seq<u8>)
    requires
        s.total + bytes.len() < MIN_SAMPLE,
    ensures
        s.observe_all(bytes).verdict == s.verdict,
    decreases bytes.len(),
{
    if bytes.len() > 0 {
        lemma_observe_all_counts(s, bytes.drop_last());
        lemma_verdict_holds_below_sample(s, bytes.drop_last());
    }
}

/// Observing two runs one after the other is observing their concatenation.
pub proof fn lemma_observe_all_concat(s: ClassifierState, a: Seq<u8>, b: Seq<u8>)
    ensures
        s.observe_all(a + b) == s.observe_all(a).observe_all(b),
    decreases b.len(),
{
    if b.len() == 0 {
        assert(a + b == a);
    } else {
        lemma_observe_all_concat(s, a, b.drop_last());
        assert((a + b).drop_last() == a + b.drop_last());
        assert((a + b).last() == b.last());
    }
}

/// From a hundred bytes on, a stream of printable bytes alone is text, a
/// stream without any printable byte is binary, and a stream that is
/// printable by half is mixed.
pub proof fn lemma_verdict_of_pure_streams(s: ClassifierState)
    requires
        s.wf(),
        s.total >= MIN_SAMPLE,
    ensures
        s.printable == s.total ==> s.verdict == DataType::Ascii,
        s.printable == 0 ==> s.verdict == DataType::Binary,
        2 * s.printable == s.total ==> s.verdict == DataType::Mixed,
{
}

/// The online classifier: counts of what was seen, and the verdict on it.
pub struct StreamClassifier {
    total_count: u64,
    printable_count: u64,
    verdict: DataType,
}

impl View for StreamClassifier {
    type V = ClassifierState;

    closed spec fn view(&self) -> ClassifierState {
        ClassifierState {
            total: self.total_count as nat,
            printable: self.printable_count as nat,
            verdict: self.verdict,
        }
    }
}

impl StreamClassifier {
    /// The classifier's invariant, and that its counts fit their fields.
    pub open spec fn wf(&self) -> bool {
        &&& self@.wf()
        &&& self@.total <= u64::MAX
    }

    /// A classifier that has seen nothing.
    pub fn new() -> (classifier: Self)
        ensures
            classifier.wf(),
            classifier@ == ClassifierState::initial(),
    {
        StreamClassifier { total_count: 0, printable_count: 0, verdict: DataType::Mixed }
    }

    /// Takes one more byte into account.
    pub fn observe(&mut self, byte: u8)
        requires
            old(self).wf(),
            old(self)@.total < u64::MAX,
        ensures
            final(self).wf(),
            final(self)@ == old(self)@.observe(byte),
    {
        self.total_count = self.total_count + 1;
        if DataFormatter::is_printable_ascii(byte) {
            self.printable_count = self.printable_count + 1;
        }
        if self.total_count >= MIN_SAMPLE {
            self.verdict = Self::verdict_of(self.printable_count, self.total_count);
        }
    }

    /// The current verdict.
    pub fn classify(&self) -> (verdict: DataType)
        ensures
            verdict == self@.verdict,
    {
        self.verdict
    }

    /// The number of bytes observed.
    pub fn total_count(&self) -> (total: u64)
        ensures
            total == self@.total,
    {
        self.total_count
    }

    /// The number of printable bytes observed.
    pub fn printable_count(&self) -> (printable: u64)
        ensures
            printable == self@.printable,
    {
        self.printable_count
    }

    /// The verdict that the counts call for.
    pub fn verdict_of(printable: u64, total: u64) -> (verdict: DataType)
        ensures
            verdict == verdict_for(printable as nat, total as nat),
    {
        let p: u128 = printable as u128;
        let t: u128 = total as u128;
        if 100 * p > 95 * t {
            DataType::Ascii
        } else if 100 * p < 30 * t {
            DataType::Binary
        } else {
            DataType::Mixed
        }
    }
}

} // verus!
