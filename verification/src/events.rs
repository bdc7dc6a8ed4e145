//! Handling a batch of readiness events: for each event, the stream its
//! token names is read until the read would block, and a stream counts as
//! handled when it reaches end of file. A stream can be reported at end of
//! file more than once (a spurious notification after it was drained), so
//! the ids of handled streams are kept in a set and each stream is counted
//! at most once.
use vstd::prelude::*;
use std::collections::HashSet;
use crate::epoll::Event;

verus! {

broadcast use vstd::std_specs::hash::group_hash_axioms;

/// What one read from a stream gave.
#[derive(PartialEq, Eq, Debug, Structural, Clone, Copy)]
pub enum ReadOutcome {
    /// `n > 0` bytes were read.
    Data(usize),
    /// The read returned 0: the peer closed the stream.
    Eof,
    /// Nothing to read now.
    WouldBlock,
    /// The read was interrupted by a signal.
    Interrupted,
    /// Any other error.
    Failed,
}

/// What to do after a read.
#[derive(PartialEq, Eq, Debug, Structural, Clone, Copy)]
pub enum ReadAction {
    /// Show the data and read the same stream again.
    ReadAgain,
    /// This event is done; go on with the next one.
    NextEvent,
    /// Stop and report the read error.
    Fail,
}

/// A batch of events being handled, in order.
pub struct EventBatch {
    tokens: Vec<usize>,
    next: usize,
    handled_events: usize,
}

/// The batch as a mathematical value: the tokens of its events, the index
/// of the event being handled, and how many streams it has counted.
pub struct EventBatchView {
    pub tokens: Seq<usize>,
    pub next: int,
    pub handled_events: int,
}

impl View for EventBatch {
    type V = EventBatchView;

    closed spec fn view(&self) -> EventBatchView {
        EventBatchView {
            tokens: self.tokens@,
            next: self.next as int,
            handled_events: self.handled_events as int,
        }
    }
}

/// Events handled so far are a prefix of the batch, and each counted at
/// most once.
pub open spec fn batch_wf(b: EventBatchView) -> bool {
    0 <= b.handled_events <= b.next <= b.tokens.len()
}

/// The batch after the current event is done, counting `counted` more
/// handled streams.
pub open spec fn advance(b: EventBatchView, counted: int) -> EventBatchView {
    EventBatchView { tokens: b.tokens, next: b.next + 1, handled_events: b.handled_events + counted }
}

/// Handled set and counter after a sequence of end-of-file reports on the
/// streams `idxs`, starting from the set `handled` and counter 0, when each
/// stream is counted only the first time.
pub open spec fn eof_reports(handled: Set<usize>, idxs: Seq<usize>) -> (Set<usize>, int)
    decreases idxs.len(),
{
    if idxs.len() == 0 {
        (handled, 0)
    } else {
        let (before, count) = eof_reports(handled, idxs.drop_last());
        let idx = idxs.last();
        (before.insert(idx), count + if before.contains(idx) {
            0int
        } else {
            1int
        })
    }
}

/// However many end-of-file reports arrive, for whichever streams and in
/// whatever order, the counter equals the number of distinct streams newly
/// added to the handled set: no stream is counted twice.
pub proof fn lemma_each_stream_counted_once(handled: Set<usize>, idxs: Seq<usize>)
    requires
        handled.finite(),
    ensures
        eof_reports(handled, idxs).0.finite(),
        eof_reports(handled, idxs).0 == handled + idxs.to_set(),
        eof_reports(handled, idxs).1 == eof_reports(handled, idxs).0.len() - handled.len(),
    decreases idxs.len(),
{
    if idxs.len() > 0 {
        lemma_each_stream_counted_once(handled, idxs.drop_last());
        let before = eof_reports(handled, idxs.drop_last()).0;
        assert(idxs.to_set() =~= idxs.drop_last().to_set().insert(idxs.last())) by {
            assert forall|x: usize| idxs.to_set().contains(x) implies idxs.drop_last().to_set().insert(
                idxs.last(),
            ).contains(x) by {
                let i = choose|i: int| 0 <= i < idxs.len() && idxs[i] == x;
                if i < idxs.len() - 1 {
                    assert(idxs.drop_last()[i] == x);
                }
            }
            assert forall|x: usize| idxs.drop_last().to_set().insert(idxs.last()).contains(
                x,
            ) implies idxs.to_set().contains(x) by {
                if x != idxs.last() {
                    let i = choose|i: int| 0 <= i < idxs.drop_last().len() && idxs.drop_last()[i] == x;
                    assert(idxs[i] == x);
                } else {
                    assert(idxs[idxs.len() - 1] == x);
                }
            }
        }
        assert(eof_reports(handled, idxs).0 =~= handled + idxs.to_set());
    } else {
        assert(eof_reports(handled, idxs).0 =~= handled + idxs.to_set());
    }
}

/// One read recorded: the batch, the handled set and the action after
/// reading the current event's stream with this outcome.
pub open spec fn record_spec(b: EventBatchView, handled: Set<usize>, outcome: ReadOutcome) -> (
    EventBatchView,
    Set<usize>,
    ReadAction,
) {
    let idx = b.tokens[b.next];
    match outcome {
        ReadOutcome::Data(_) => (b, handled, ReadAction::ReadAgain),
        ReadOutcome::Eof => (
            advance(
                b,
                if handled.contains(idx) {
                    0int
                } else {
                    1int
                },
            ),
            handled.insert(idx),
            ReadAction::NextEvent,
        ),
        ReadOutcome::WouldBlock | ReadOutcome::Interrupted => (advance(b, 0), handled, ReadAction::NextEvent),
        ReadOutcome::Failed => (b, handled, ReadAction::Fail),
    }
}

/// The batch and handled set after recording `outcomes` one after the
/// other, stopping once every event is done.
pub open spec fn record_all(b: EventBatchView, handled: Set<usize>, outcomes: Seq<ReadOutcome>) -> (
    EventBatchView,
    Set<usize>,
)
    decreases outcomes.len(),
{
    if outcomes.len() == 0 {
        (b, handled)
    } else {
        let (b1, h1) = record_all(b, handled, outcomes.drop_last());
        if b1.next < b1.tokens.len() {
            let (b2, h2, _) = record_spec(b1, h1, outcomes.last());
            (b2, h2)
        } else {
            (b1, h1)
        }
    }
}

/// The tokens of the events whose stream was read to end of file while
/// `outcomes` were recorded one after the other from `b` and `handled`.
pub open spec fn eof_tokens(b: EventBatchView, handled: Set<usize>, outcomes: Seq<ReadOutcome>) -> Set<usize>
    decreases outcomes.len(),
{
    if outcomes.len() == 0 {
        Set::empty()
    } else {
        let (b1, h1) = record_all(b, handled, outcomes.drop_last());
        let earlier = eof_tokens(b, handled, outcomes.drop_last());
        if b1.next < b1.tokens.len() && outcomes.last() == ReadOutcome::Eof {
            earlier.insert(b1.tokens[b1.next])
        } else {
            earlier
        }
    }
}

proof fn lemma_eof_tokens_finite(b: EventBatchView, handled: Set<usize>, outcomes: Seq<ReadOutcome>)
    ensures
        eof_tokens(b, handled, outcomes).finite(),
    decreases outcomes.len(),
{
    if outcomes.len() > 0 {
        lemma_eof_tokens_finite(b, handled, outcomes.drop_last());
    }
}

/// However the reads of a batch turn out, the handled set grows by exactly
/// the streams read to end of file, and the number of streams the batch
/// counts is exactly the number of those streams that were not handled
/// before: a stream already handled, or reported at end of file twice, is
/// not counted again. When the handled set is finite, that number is also
/// how much the set grew.
pub proof fn lemma_batch_counts_new_streams(b: EventBatchView, handled: Set<usize>, outcomes: Seq<ReadOutcome>)
    requires
        batch_wf(b),
    ensures
        batch_wf(record_all(b, handled, outcomes).0),
        handled.subset_of(record_all(b, handled, outcomes).1),
        record_all(b, handled, outcomes).1 == handled + eof_tokens(b, handled, outcomes),
        eof_tokens(b, handled, outcomes).finite(),
        record_all(b, handled, outcomes).0.handled_events - b.handled_events == eof_tokens(
            b,
            handled,
            outcomes,
        ).difference(handled).len(),
        handled.finite() ==> record_all(b, handled, outcomes).1.finite(),
        handled.finite() ==> record_all(b, handled, outcomes).0.handled_events - b.handled_events
            == record_all(b, handled, outcomes).1.len() - handled.len(),
    decreases outcomes.len(),
{
    lemma_eof_tokens_finite(b, handled, outcomes);
    let after = record_all(b, handled, outcomes).1;
    let fresh = eof_tokens(b, handled, outcomes).difference(handled);
    if outcomes.len() > 0 {
        lemma_batch_counts_new_streams(b, handled, outcomes.drop_last());
        let (b1, h1) = record_all(b, handled, outcomes.drop_last());
        let earlier = eof_tokens(b, handled, outcomes.drop_last());
        let fresh1 = earlier.difference(handled);
        vstd::set_lib::lemma_len_subset(fresh1, earlier);
        if b1.next < b1.tokens.len() && outcomes.last() == ReadOutcome::Eof {
            let idx = b1.tokens[b1.next];
            if !h1.contains(idx) {
                assert(fresh =~= fresh1.insert(idx));
            } else {
                assert(h1.insert(idx) =~= h1);
                assert(fresh =~= fresh1);
            }
        } else {
            assert(fresh =~= fresh1);
        }
        assert(after =~= handled + eof_tokens(b, handled, outcomes));
    } else {
        assert(handled + Set::<usize>::empty() =~= handled);
        assert(fresh =~= Set::<usize>::empty());
    }
    if handled.finite() {
        vstd::set_lib::lemma_len_subset(fresh, eof_tokens(b, handled, outcomes));
        assert(after =~= handled + fresh);
        assert(handled.disjoint(fresh));
        vstd::set_lib::lemma_set_disjoint_lens(handled, fresh);
    }
}

impl EventBatch {
    #[verifier::type_invariant]
    spec fn well_formed(self) -> bool {
        batch_wf(self@)
    }

    /// Starts handling `events` from the first one, with nothing counted.
    pub fn new(events: &[Event]) -> (b: EventBatch)
        ensures
            b@.tokens == events@.map_values(|e: Event| e.epoll_data),
            b@.next == 0,
            b@.handled_events == 0,
            batch_wf(b@),
    {
        let mut tokens: Vec<usize> = Vec::new();
        let mut i: usize = 0;
        while i < events.len()
            invariant
                0 <= i <= events@.len(),
                tokens@ == events@.subrange(0, i as int).map_values(|e: Event| e.epoll_data),
            decreases events@.len() - i,
        {
            tokens.push(events[i].token());
            i = i + 1;
            proof {
                assert(tokens@ =~= events@.subrange(0, i as int).map_values(|e: Event| e.epoll_data));
            }
        }
        proof {
            assert(events@.subrange(0, events@.len() as int) =~= events@);
        }
        EventBatch { tokens, next: 0, handled_events: 0 }
    }

    /// Token of the event being handled, or `None` once all are done.
    pub fn current(&self) -> (token: Option<usize>)
        ensures
            self@.next < self@.tokens.len() ==> token == Some(self@.tokens[self@.next]),
            self@.next >= self@.tokens.len() ==> token is None,
    {
        if self.next < self.tokens.len() {
            Some(self.tokens[self.next])
        } else {
            None
        }
    }

    /// Number of streams this batch has counted as handled.
    pub fn handled_events(&self) -> (n: usize)
        ensures
            n == self@.handled_events,
    {
        self.handled_events
    }

    /// Records a read from the stream of the current event when streams are
    /// read until they would block. Data means read again; end of file
    /// adds the stream to `handled` and counts it only if it was not there
    /// yet; a read that would block or was interrupted ends the event; any
    /// other error fails the batch.
    pub fn record(&mut self, handled: &mut HashSet<usize>, outcome: ReadOutcome) -> (action: ReadAction)
        requires
            old(self)@.next < old(self)@.tokens.len(),
        ensures
            batch_wf(final(self)@),
            (final(self)@, final(handled)@, action) == record_spec(old(self)@, old(handled)@, outcome),
    {
        proof {
            use_type_invariant(&*self);
        }
        let index = self.tokens[self.next];
        let n = self.tokens.len();
        assert(self.next < n);
        match outcome {
            ReadOutcome::Data(_) => ReadAction::ReadAgain,
            ReadOutcome::Eof => {
                self.next = self.next + 1;
                if handled.insert(index) {
                    self.handled_events = self.handled_events + 1;
                }
                ReadAction::NextEvent
            },
            ReadOutcome::WouldBlock | ReadOutcome::Interrupted => {
                self.next = self.next + 1;
                ReadAction::NextEvent
            },
            ReadOutcome::Failed => ReadAction::Fail,
        }
    }

    /// Records the result of reading the current event's stream to its end
    /// in one call: whatever was read counts the event as handled, a read
    /// that would block ends the event without counting it, and any error
    /// fails the batch.
    pub fn record_to_end(&mut self, outcome: ReadOutcome) -> (action: ReadAction)
        requires
            old(self)@.next < old(self)@.tokens.len(),
        ensures
            batch_wf(final(self)@),
            match outcome {
                ReadOutcome::Data(_) | ReadOutcome::Eof => action == ReadAction::NextEvent
                    && final(self)@ == advance(old(self)@, 1),
                ReadOutcome::WouldBlock => action == ReadAction::NextEvent && final(self)@
                    == advance(old(self)@, 0),
                ReadOutcome::Interrupted | ReadOutcome::Failed => action == ReadAction::Fail
                    && final(self)@ == old(self)@,
            },
    {
        proof {
            use_type_invariant(&*self);
        }
        let n = self.tokens.len();
        assert(self.next < n);
        match outcome {
            ReadOutcome::Data(_) | ReadOutcome::Eof => {
                self.next = self.next + 1;
                self.handled_events = self.handled_events + 1;
                ReadAction::NextEvent
            },
            ReadOutcome::WouldBlock => {
                self.next = self.next + 1;
                ReadAction::NextEvent
            },
            ReadOutcome::Interrupted | ReadOutcome::Failed => ReadAction::Fail,
        }
    }
}

} // verus!
