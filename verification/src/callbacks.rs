//! The callback runtime: callbacks wait under the id of the event that
//! resumes them, and event ids are handed out by a counter. The reactor
//! thread and the channel that delivers ready ids are the caller's.
use vstd::prelude::*;
use std::collections::HashMap;

verus! {

broadcast use vstd::std_specs::hash::group_hash_axioms;

/// Callbacks waiting for their event, by event id.
pub struct Executor<T> {
    events: HashMap<usize, T>,
}

impl<T> View for Executor<T> {
    type V = Map<usize, T>;

    closed spec fn view(&self) -> Map<usize, T> {
        self.events@
    }
}

impl<T> Executor<T> {
    /// An executor with no callbacks.
    pub fn new() -> (e: Executor<T>)
        ensures
            e@ == Map::<usize, T>::empty(),
    {
        Executor { events: HashMap::new() }
    }

    /// Files callback `f` to run when event `id` is ready, replacing any
    /// callback already filed under `id`.
    pub fn spawn(&mut self, id: usize, f: T)
        ensures
            final(self)@ == old(self)@.insert(id, f),
    {
        self.events.insert(id, f);
    }

    /// Whether a callback is filed under `id`.
    pub fn contains(&self, id: usize) -> (b: bool)
        ensures
            b == self@.contains_key(id),
    {
        self.events.contains_key(&id)
    }

    /// Takes out the callback of the ready event `event`, for the caller to
    /// run. An event with no callback filed is an error the caller reports.
    pub fn resume(&mut self, event: usize) -> (f: T)
        requires
            old(self)@.contains_key(event),
        ensures
            f == old(self)@[event],
            final(self)@ == old(self)@.remove(event),
    {
        match self.events.remove(&event) {
            Some(f) => f,
            None => vstd::pervasive::unreached(),
        }
    }
}

/// Files callback `f` on `executor` to run when event `token` is ready.
pub fn spawn<T>(executor: &mut Executor<T>, token: usize, f: T)
    ensures
        final(executor)@ == old(executor)@.insert(token, f),
{
    executor.spawn(token, f)
}

/// Hands out event ids `1, 2, 3, ...`.
pub struct IdCounter {
    id: usize,
}

impl View for IdCounter {
    type V = int;

    /// The last id handed out (0 before the first).
    closed spec fn view(&self) -> int {
        self.id as int
    }
}

impl IdCounter {
    /// A counter that has handed out nothing.
    pub fn new() -> (c: IdCounter)
        ensures
            c@ == 0,
    {
        IdCounter { id: 0 }
    }

    /// The last id handed out (0 before the first).
    pub fn last(&self) -> (id: usize)
        ensures
            id == self@,
    {
        self.id
    }

    /// The next id: one more than the last.
    pub fn next_id(&mut self) -> (id: usize)
        requires
            old(self)@ < usize::MAX,
        ensures
            id == old(self)@ + 1,
            final(self)@ == id,
    {
        self.id = self.id + 1;
        self.id
    }
}

/// What one wait of the reactor thread for readiness gave.
pub enum PollOutcome {
    /// The wait ended, with the tokens of the ready sources, in order.
    Ready(Vec<usize>),
    /// The wait was interrupted by a signal.
    Interrupted,
    /// Any other error.
    Failed,
}

/// What the reactor thread does after a wait.
pub enum LoopAction {
    /// Send these tokens to the executor, in order, and wait again.
    Forward(Vec<usize>),
    /// Leave the loop.
    Stop,
    /// Stop with the error.
    Fail,
}

/// The reactor thread's decision after a wait: ready tokens are forwarded
/// as they came, an interrupted wait ends the loop, and any other error is
/// fatal.
pub fn after_poll(outcome: PollOutcome) -> (action: LoopAction)
    ensures
        match outcome {
            PollOutcome::Ready(tokens) => action matches LoopAction::Forward(sent) && sent@ == tokens@,
            PollOutcome::Interrupted => action is Stop,
            PollOutcome::Failed => action is Fail,
        },
{
    match outcome {
        PollOutcome::Ready(tokens) => LoopAction::Forward(tokens),
        PollOutcome::Interrupted => LoopAction::Stop,
        PollOutcome::Failed => LoopAction::Fail,
    }
}

/// A callback filed under an id and then resumed is the one handed back,
/// and resuming leaves the other callbacks as they were.
pub proof fn lemma_resume_returns_spawned<T>(events: Map<usize, T>, id: usize, f: T)
    ensures
        events.insert(id, f).contains_key(id),
        events.insert(id, f)[id] == f,
        events.insert(id, f).remove(id) == events.remove(id),
{
    assert(events.insert(id, f).remove(id) =~= events.remove(id));
}

} // verus!
