//! The sequencer at the heart of a run: it gives every record that the run
//! produces its sequence number and keeps the records in that order until the
//! caller hands them to the sink.
//!
//! A number is taken when the record is queued. A record that the sink later
//! fails to write has still used its number, so the numbers of the records
//! that do reach the sink may then have a gap; the queue itself never has one.
use vstd::prelude::*;

use crate::spec::{Root, RootImpl, Timestamp};

verus! {

/// The state that every object of one run shares: the next sequence number and
/// the records that wait to be written.
pub struct TestState {
    seqno: u64,
    pending: Vec<Root>,
    /// Every record this state has numbered, in the order of their numbers.
    history: Ghost<Seq<Root>>,
}

impl View for TestState {
    type V = Seq<Root>;

    /// Every record numbered so far, the one numbered `i` at index `i`.
    closed spec fn view(&self) -> Seq<Root> {
        self.history@
    }
}

impl TestState {
    /// The records numbered but not yet taken for writing, oldest first.
    pub closed spec fn pending(&self) -> Seq<Root> {
        self.pending@
    }

    /// The counter agrees with the history, each record carries its own index
    /// as its number, and the queue is the tail of the history.
    pub closed spec fn wf(&self) -> bool {
        &&& self.seqno == self.history@.len()
        &&& forall|i: int| 0 <= i < self.history@.len() ==> (#[trigger] self.history@[i]).seqno == i
        &&& self.pending@.len() <= self.history@.len()
        &&& self.pending@ == self.history@.subrange(
            self.history@.len() - self.pending@.len(),
            self.history@.len() as int,
        )
    }

    /// A state that has numbered nothing yet.
    pub fn new() -> (r: TestState)
        ensures
            r.wf(),
            r@ == Seq::<Root>::empty(),
            r.pending() == Seq::<Root>::empty(),
    {
        let r = TestState { seqno: 0, pending: Vec::new(), history: Ghost(Seq::empty()) };
        assert(r.pending@ =~= r.history@.subrange(0, 0));
        r
    }

    /// How many more records this state can number.
    pub fn room(&self) -> (r: u64)
        requires
            self.wf(),
        ensures
            r == u64::MAX - self@.len(),
    {
        u64::MAX - self.seqno
    }

    /// Numbers `artifact` with the next sequence number, stamps it with
    /// `timestamp` and queues it for writing.
    pub fn emit(&mut self, artifact: RootImpl, timestamp: Timestamp)
        requires
            old(self).wf(),
            old(self)@.len() < u64::MAX,
        ensures
            final(self).wf(),
            final(self)@ == old(self)@.push(
                (Root { artifact, timestamp, seqno: old(self)@.len() as u64 }),
            ),
            final(self).pending() == old(self).pending().push(
                (Root { artifact, timestamp, seqno: old(self)@.len() as u64 }),
            ),
    {
        let ghost before = self.history@;
        let root = Root { artifact, timestamp, seqno: self.seqno };
        self.history = Ghost(self.history@.push(root));
        self.pending.push(root);
        self.seqno = self.seqno + 1;
        assert(self.pending@ =~= self.history@.subrange(
            self.history@.len() - self.pending@.len(),
            self.history@.len() as int,
        ));
    }

    /// Hands over the queued records, oldest first, and empties the queue.
    pub fn take_pending(&mut self) -> (r: Vec<Root>)
        requires
            old(self).wf(),
        ensures
            final(self).wf(),
            final(self)@ == old(self)@,
            r@ == old(self).pending(),
            final(self).pending() == Seq::<Root>::empty(),
    {
        let r = self.pending.split_off(0);
        assert(r@ =~= old(self).pending@);
        assert(self.pending@ =~= self.history@.subrange(
            self.history@.len() as int,
            self.history@.len() as int,
        ));
        r
    }

    /// The sequence numbers of a run's records are `0, 1, 2, ...` in the
    /// order the records were made: none is skipped and none repeats.
    pub proof fn lemma_numbers_without_gaps(&self)
        requires
            self.wf(),
        ensures
            forall|i: int| 0 <= i < self@.len() ==> (#[trigger] self@[i]).seqno == i,
            forall|i: int, j: int|
                0 <= i < self@.len() && 0 <= j < self@.len() && i != j ==> (#[trigger] self@[i]).seqno
                    != (#[trigger] self@[j]).seqno,
    {
    }
}

} // verus!
