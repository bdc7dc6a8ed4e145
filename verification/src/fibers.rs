//! Scheduling decisions of a cooperative green-thread runtime.
//!
//! A fixed table of threads, each `Available` (free to take a new task),
//! `Ready` (waiting for the processor) or `Running`. The base thread (index
//! 0) starts out running. Yielding hands the processor to the nearest ready
//! thread in round-robin order, starting from the current one. The machine-level part
//! (saving and restoring registers, preparing a new stack) is done by the
//! caller with the indices and addresses computed here.
use vstd::prelude::*;

verus! {

/// Size in bytes of the stack given to each green thread.
pub const DEFAULT_STACK_SIZE: usize = 1024 * 1024 * 2;

/// Number of threads in the table, the base thread included.
pub const MAX_THREADS: usize = 4;

/// Scheduling state of one green thread.
#[derive(PartialEq, Eq, Debug, Structural, Clone, Copy)]
pub enum State {
    Available,
    Running,
    Ready,
}

/// One entry of the thread table: its id, its scheduling state and the
/// memory of its stack.
pub struct Thread {
    pub id: usize,
    pub state: State,
    pub stack: Vec<u8>,
}

/// The scheduler's state as a mathematical value.
pub struct RuntimeView {
    pub ids: Seq<usize>,
    pub states: Seq<State>,
    pub stacks: Seq<Seq<u8>>,
    pub current: int,
}

/// The thread table and the index of the thread that owns the processor.
pub struct Runtime {
    threads: Vec<Thread>,
    current: usize,
}

spec fn thread_ids(ts: Seq<Thread>) -> Seq<usize> {
    ts.map_values(|t: Thread| t.id)
}

spec fn thread_states(ts: Seq<Thread>) -> Seq<State> {
    ts.map_values(|t: Thread| t.state)
}

spec fn thread_stacks(ts: Seq<Thread>) -> Seq<Seq<u8>> {
    ts.map_values(|t: Thread| t.stack@)
}

/// Replacing one entry of the table changes only that entry's id, state
/// and stack.
broadcast proof fn lemma_thread_update(ts: Seq<Thread>, i: int, t: Thread)
    requires
        0 <= i < ts.len(),
    ensures
        #[trigger] thread_ids(ts.update(i, t)) == thread_ids(ts).update(i, t.id),
        thread_states(ts.update(i, t)) == thread_states(ts).update(i, t.state),
        thread_stacks(ts.update(i, t)) == thread_stacks(ts).update(i, t.stack@),
        t.id == ts[i].id ==> thread_ids(ts.update(i, t)) == thread_ids(ts),
        t.state == ts[i].state ==> thread_states(ts.update(i, t)) == thread_states(ts),
{
    assert(thread_ids(ts.update(i, t)) =~= thread_ids(ts).update(i, t.id));
    assert(thread_states(ts.update(i, t)) =~= thread_states(ts).update(i, t.state));
    assert(thread_stacks(ts.update(i, t)) =~= thread_stacks(ts).update(i, t.stack@));
    if t.id == ts[i].id {
        assert(thread_ids(ts.update(i, t)) =~= thread_ids(ts));
    }
    if t.state == ts[i].state {
        assert(thread_states(ts.update(i, t)) =~= thread_states(ts));
    }
}

impl View for Runtime {
    type V = RuntimeView;

    closed spec fn view(&self) -> RuntimeView {
        RuntimeView {
            ids: thread_ids(self.threads@),
            states: thread_states(self.threads@),
            stacks: thread_stacks(self.threads@),
            current: self.current as int,
        }
    }
}

/// A table with at least one thread, one id and one stack per thread, and
/// a current index inside it.
pub open spec fn wf(v: RuntimeView) -> bool {
    &&& v.states.len() > 0
    &&& v.ids.len() == v.states.len()
    &&& v.stacks.len() == v.states.len()
    &&& 0 <= v.current < v.states.len()
}

/// A fresh stack: `DEFAULT_STACK_SIZE` zero bytes.
pub open spec fn zero_stack() -> Seq<u8> {
    Seq::new(DEFAULT_STACK_SIZE as nat, |i: int| 0u8)
}

/// Index reached after `k` steps forward from `start` in a table of `n`
/// entries, wrapping around once (`start < n`, `k < n`).
pub open spec fn wrap(start: int, k: int, n: int) -> int {
    if start + k < n {
        start + k
    } else {
        start + k - n
    }
}

/// The first ready thread among the entries `k`, `k + 1`, ... steps after
/// `start`, looking at each entry of the table at most once.
pub open spec fn first_ready_from(states: Seq<State>, start: int, k: int) -> Option<int>
    decreases states.len() - k,
{
    if k < 0 || k >= states.len() {
        None
    } else if states[wrap(start, k, states.len() as int)] == State::Ready {
        Some(wrap(start, k, states.len() as int))
    } else {
        first_ready_from(states, start, k + 1)
    }
}

/// The thread that a yield from `current` hands the processor to: the
/// nearest ready one in round-robin order, starting with `current` itself.
pub open spec fn next_ready(states: Seq<State>, current: int) -> Option<int> {
    first_ready_from(states, current, 0)
}

/// States after the processor moves from `from` to `to`: the thread that
/// gives it up becomes ready again unless it has been freed, and the one
/// that receives it runs.
pub open spec fn switch_states(states: Seq<State>, from: int, to: int) -> Seq<State> {
    let left = if states[from] == State::Available {
        State::Available
    } else {
        State::Ready
    };
    states.update(from, left).update(to, State::Running)
}

/// The scheduler after a yield, and whether the processor changed hands.
pub open spec fn after_yield(v: RuntimeView) -> (RuntimeView, bool) {
    match next_ready(v.states, v.current) {
        None => (v, false),
        Some(p) => (
            RuntimeView { states: switch_states(v.states, v.current, p), current: p, ..v },
            true,
        ),
    }
}

/// No thread but the current one is running.
pub open spec fn running_only_current(v: RuntimeView) -> bool {
    forall|i: int| 0 <= i < v.states.len() && i != v.current ==> v.states[i] != State::Running
}

/// Index of the first thread in the given state.
pub open spec fn is_first_in_state(states: Seq<State>, i: int, s: State) -> bool {
    &&& 0 <= i < states.len()
    &&& states[i] == s
    &&& forall|j: int| 0 <= j < i ==> states[j] != s
}

/// Position of index `i` in the round-robin order that starts at `start`.
pub open spec fn offset(start: int, i: int, n: int) -> int {
    if i >= start {
        i - start
    } else {
        i + n - start
    }
}

proof fn lemma_first_ready_found(states: Seq<State>, start: int, k: int, j: int)
    requires
        0 <= start < states.len(),
        0 <= k <= j < states.len(),
        states[wrap(start, j, states.len() as int)] == State::Ready,
    ensures
        first_ready_from(states, start, k) is Some,
    decreases j - k,
{
    if states[wrap(start, k, states.len() as int)] != State::Ready {
        lemma_first_ready_found(states, start, k + 1, j);
    }
}

proof fn lemma_first_ready_is_nearest(states: Seq<State>, start: int, k: int)
    requires
        0 <= start < states.len(),
        0 <= k,
        first_ready_from(states, start, k) is Some,
    ensures
        ({
            let p = first_ready_from(states, start, k)->0;
            let n = states.len() as int;
            &&& 0 <= p < n
            &&& states[p] == State::Ready
            &&& k <= offset(start, p, n) < n
            &&& p == wrap(start, offset(start, p, n), n)
            &&& forall|j: int|
                k <= j < offset(start, p, n) ==> states[wrap(start, j, n)] != State::Ready
        }),
    decreases states.len() - k,
{
    if states[wrap(start, k, states.len() as int)] != State::Ready {
        lemma_first_ready_is_nearest(states, start, k + 1);
    }
}

/// A yield switches threads exactly when some thread is ready, and then it
/// picks the nearest ready thread in round-robin order from the current one:
/// every thread it passes over on the way is not ready.
pub proof fn lemma_yield_picks_nearest_ready(v: RuntimeView)
    requires
        wf(v),
    ensures
        after_yield(v).1 <==> exists|i: int| 0 <= i < v.states.len() && v.states[i] == State::Ready,
        after_yield(v).1 ==> {
            let p = after_yield(v).0.current;
            let n = v.states.len() as int;
            &&& 0 <= p < n
            &&& v.states[p] == State::Ready
            &&& forall|j: int|
                0 <= j < offset(v.current, p, n) ==> v.states[wrap(v.current, j, n)]
                    != State::Ready
        },
{
    let n = v.states.len() as int;
    if exists|i: int| 0 <= i < n && v.states[i] == State::Ready {
        let i = choose|i: int| 0 <= i < n && v.states[i] == State::Ready;
        assert(wrap(v.current, offset(v.current, i, n), n) == i);
        lemma_first_ready_found(v.states, v.current, 0, offset(v.current, i, n));
    }
    if next_ready(v.states, v.current) is Some {
        lemma_first_ready_is_nearest(v.states, v.current, 0);
    }
}

/// No ready thread starves: when the running thread yields, either a ready
/// thread `j` gets the processor, or it stays ready and comes strictly
/// closer to the current thread in round-robin order. So `j` runs within as
/// many yields as there are threads.
pub proof fn lemma_yield_no_starvation(v: RuntimeView, j: int)
    requires
        wf(v),
        running_only_current(v),
        v.states[v.current] == State::Running,
        0 <= j < v.states.len(),
        v.states[j] == State::Ready,
    ensures
        after_yield(v).1,
        ({
            let w = after_yield(v).0;
            let n = v.states.len() as int;
            w.current == j || (w.states[j] == State::Ready && offset(w.current, j, n) < offset(
                v.current,
                j,
                n,
            ))
        }),
{
    lemma_yield_picks_nearest_ready(v);
    let n = v.states.len() as int;
    let p = after_yield(v).0.current;
    assert(wrap(v.current, offset(v.current, j, n), n) == j);
    if offset(v.current, j, n) < offset(v.current, p, n) {
        assert(v.states[wrap(v.current, offset(v.current, j, n), n)] != State::Ready);
    }
}

/// Yielding keeps the invariant that only the current thread runs, and after
/// a switch the new current thread is the running one.
pub proof fn lemma_yield_keeps_single_runner(v: RuntimeView)
    requires
        wf(v),
        running_only_current(v),
    ensures
        wf(after_yield(v).0),
        running_only_current(after_yield(v).0),
        after_yield(v).1 ==> after_yield(v).0.states[after_yield(v).0.current] == State::Running,
{
    if next_ready(v.states, v.current) is Some {
        lemma_first_ready_is_nearest(v.states, v.current, 0);
    }
}

/// A thread that yields while running to another thread becomes ready, so
/// it is scheduled again later; a yield never frees or loses a thread.
pub proof fn lemma_yielding_thread_stays_ready(v: RuntimeView)
    requires
        wf(v),
        v.states[v.current] == State::Running,
    ensures
        after_yield(v).1 && after_yield(v).0.current != v.current ==> after_yield(v).0.states[v.current]
            == State::Ready,
        forall|i: int|
            0 <= i < v.states.len() ==> (after_yield(v).0.states[i] == State::Available
                <==> v.states[i] == State::Available),
{
    if next_ready(v.states, v.current) is Some {
        lemma_first_ready_is_nearest(v.states, v.current, 0);
    }
}

/// A yield never frees a thread nor takes one out of the free pool: every
/// thread is available after it exactly when it was before, whichever
/// thread receives the processor. In particular a thread that gives up the
/// processor while available (its task has ended) stays available.
pub proof fn lemma_yield_keeps_available(v: RuntimeView)
    requires
        wf(v),
    ensures
        after_yield(v).0.states.len() == v.states.len(),
        forall|i: int|
            0 <= i < v.states.len() ==> (#[trigger] after_yield(v).0.states[i] == State::Available
                <==> v.states[i] == State::Available),
{
    if next_ready(v.states, v.current) is Some {
        lemma_first_ready_is_nearest(v.states, v.current, 0);
    }
}

/// Ending the task of a thread other than the base thread frees that
/// thread, whichever thread the processor goes to next, so a later spawn
/// can reuse it; no other thread is freed or taken.
pub proof fn lemma_return_frees_thread(v: RuntimeView)
    requires
        wf(v),
        v.current != 0,
    ensures
        apply_event(v, SchedEvent::Return).states[v.current] == State::Available,
        forall|i: int|
            0 <= i < v.states.len() && i != v.current ==> (#[trigger] apply_event(
                v,
                SchedEvent::Return,
            ).states[i] == State::Available <==> v.states[i] == State::Available),
{
    let u = RuntimeView { states: v.states.update(v.current, State::Available), ..v };
    lemma_yield_keeps_available(u);
    assert(u.states[v.current] == State::Available);
    assert forall|i: int|
        0 <= i < v.states.len() && i != v.current implies (#[trigger] apply_event(
            v,
            SchedEvent::Return,
        ).states[i] == State::Available <==> v.states[i] == State::Available) by {
        assert(u.states[i] == v.states[i]);
    }
}

/// Handing a task to an available thread keeps the invariant that only the
/// current thread runs.
pub proof fn lemma_spawn_keeps_single_runner(v: RuntimeView, idx: int)
    requires
        wf(v),
        running_only_current(v),
        is_first_in_state(v.states, idx, State::Available),
    ensures
        running_only_current(RuntimeView { states: v.states.update(idx, State::Ready), ..v }),
{
}

/// Ending a task keeps the invariant that only the current thread runs.
pub proof fn lemma_return_keeps_single_runner(v: RuntimeView)
    requires
        wf(v),
        running_only_current(v),
        v.current != 0,
    ensures
        running_only_current(
            after_yield(RuntimeView { states: v.states.update(v.current, State::Available), ..v }).0,
        ),
{
    lemma_yield_keeps_single_runner(
        RuntimeView { states: v.states.update(v.current, State::Available), ..v },
    );
}

/// A fresh runtime has exactly one running thread, the base thread.
pub proof fn lemma_new_runtime_single_runner(v: RuntimeView)
    requires
        wf(v),
        v.current == 0,
        v.states[0] == State::Running,
        forall|i: int| 1 <= i < v.states.len() ==> v.states[i] == State::Available,
    ensures
        running_only_current(v),
{
}

/// An operation of the runtime that changes its scheduling state.
pub enum SchedEvent {
    /// The current thread yields.
    Yield,
    /// A new task is handed to the first available thread.
    Spawn,
    /// The current task ends.
    Return,
}

/// Index of the first available thread, if there is one.
pub open spec fn first_available(states: Seq<State>) -> Option<int> {
    if exists|i: int| is_first_in_state(states, i, State::Available) {
        Some(choose|i: int| is_first_in_state(states, i, State::Available))
    } else {
        None
    }
}

/// The scheduler after one operation: a yield as `after_yield` gives it; a
/// spawn makes the first available thread ready (with none, the operation
/// is refused and nothing changes); a return frees the current thread
/// unless it is the base thread, then yields.
pub open spec fn apply_event(v: RuntimeView, e: SchedEvent) -> RuntimeView {
    match e {
        SchedEvent::Yield => after_yield(v).0,
        SchedEvent::Spawn => match first_available(v.states) {
            Some(i) => RuntimeView { states: v.states.update(i, State::Ready), ..v },
            None => v,
        },
        SchedEvent::Return => if v.current == 0 {
            v
        } else {
            after_yield(RuntimeView { states: v.states.update(v.current, State::Available), ..v }).0
        },
    }
}

/// The scheduler after the operations of `events`, in order.
pub open spec fn apply_events(v: RuntimeView, events: Seq<SchedEvent>) -> RuntimeView
    decreases events.len(),
{
    if events.len() == 0 {
        v
    } else {
        apply_event(apply_events(v, events.drop_last()), events.last())
    }
}

/// The scheduler as `Runtime::new` makes it: `MAX_THREADS` threads with
/// ids `0, 1, ...`, each with a fresh stack, the base thread running and
/// current, the others available.
pub open spec fn fresh_runtime(v: RuntimeView) -> bool {
    &&& wf(v)
    &&& v.current == 0
    &&& v.states.len() == MAX_THREADS
    &&& forall|i: int| 0 <= i < MAX_THREADS ==> v.ids[i] == i
    &&& forall|i: int| 0 <= i < MAX_THREADS ==> v.stacks[i] == zero_stack()
    &&& v.states[0] == State::Running
    &&& forall|i: int| 1 <= i < MAX_THREADS ==> v.states[i] == State::Available
}

proof fn lemma_first_in_state_unique(states: Seq<State>, i: int, j: int, s: State)
    requires
        is_first_in_state(states, i, s),
        is_first_in_state(states, j, s),
    ensures
        i == j,
{
    if i < j {
        assert(states[i] != s);
    } else if j < i {
        assert(states[j] != s);
    }
}

/// In every state that a fresh runtime reaches through any sequence of
/// yields, spawns and returns, the table keeps its `MAX_THREADS` threads
/// with ids `0, 1, ...` and their stacks, the current index stays inside
/// it, and no thread but the current one is running.
pub proof fn lemma_runtime_invariant(v0: RuntimeView, events: Seq<SchedEvent>)
    requires
        fresh_runtime(v0),
    ensures
        ({
            let v = apply_events(v0, events);
            &&& wf(v)
            &&& running_only_current(v)
            &&& v.states.len() == MAX_THREADS
            &&& v.ids == v0.ids
            &&& v.stacks == v0.stacks
            &&& forall|i: int| 0 <= i < MAX_THREADS ==> v.ids[i] == i
        }),
    decreases events.len(),
{
    if events.len() == 0 {
        lemma_new_runtime_single_runner(v0);
    } else {
        lemma_runtime_invariant(v0, events.drop_last());
        let u = apply_events(v0, events.drop_last());
        match events.last() {
            SchedEvent::Yield => {
                lemma_yield_keeps_single_runner(u);
            },
            SchedEvent::Spawn => {
                if let Some(i) = first_available(u.states) {
                    lemma_spawn_keeps_single_runner(u, i);
                }
            },
            SchedEvent::Return => {
                if u.current != 0 {
                    lemma_return_keeps_single_runner(u);
                    lemma_yield_keeps_single_runner(
                        RuntimeView { states: u.states.update(u.current, State::Available), ..u },
                    );
                }
            },
        }
    }
}

/// A stack of `DEFAULT_STACK_SIZE` zero bytes.
fn new_stack() -> (s: Vec<u8>)
    ensures
        s@ == zero_stack(),
{
    let s = vec![0u8; DEFAULT_STACK_SIZE];
    assert(s@ =~= zero_stack());
    s
}

impl Thread {
    /// A thread entry with the given id and a fresh stack, free to take a
    /// task.
    pub fn new(id: usize) -> (t: Thread)
        ensures
            t.id == id,
            t.state == State::Available,
            t.stack@ == zero_stack(),
    {
        Thread { id, state: State::Available, stack: new_stack() }
    }
}

impl Runtime {
    #[verifier::type_invariant]
    spec fn well_formed(self) -> bool {
        wf(self@)
    }

    /// A table of `MAX_THREADS` threads with ids `0, 1, ...`: the base
    /// thread 0 runs, all others are available.
    pub fn new() -> (rt: Runtime)
        ensures
            wf(rt@),
            rt@.current == 0,
            rt@.states.len() == MAX_THREADS,
            forall|i: int| 0 <= i < MAX_THREADS ==> rt@.ids[i] == i,
            rt@.states[0] == State::Running,
            forall|i: int| 1 <= i < MAX_THREADS ==> rt@.states[i] == State::Available,
            fresh_runtime(rt@),
    {
        let base_thread = Thread { id: 0, state: State::Running, stack: new_stack() };
        let mut threads: Vec<Thread> = Vec::new();
        threads.push(base_thread);
        let mut i: usize = 1;
        while i < MAX_THREADS
            invariant
                1 <= i <= MAX_THREADS,
                threads@.len() == i,
                threads@[0].id == 0,
                threads@[0].state == State::Running,
                threads@[0].stack@ == zero_stack(),
                forall|j: int| 1 <= j < i ==> threads@[j].id == j && threads@[j].state
                    == State::Available && threads@[j].stack@ == zero_stack(),
            decreases MAX_THREADS - i,
        {
            threads.push(Thread::new(i));
            i = i + 1;
        }
        Runtime { threads, current: 0 }
    }

    /// Index of the thread that owns the processor.
    pub fn current(&self) -> (c: usize)
        ensures
            c == self@.current,
    {
        self.current
    }

    /// Scheduling state of thread `i`.
    pub fn state(&self, i: usize) -> (s: State)
        requires
            i < self@.states.len(),
        ensures
            s == self@.states[i as int],
    {
        self.threads[i].state
    }

    /// The stack of thread `i`, for the caller to lay out the first frame
    /// of a new task; the scheduling state is left as it was.
    pub fn stack_mut(&mut self, i: usize) -> (stack: &mut Vec<u8>)
        requires
            i < old(self)@.states.len(),
        ensures
            stack@ == old(self)@.stacks[i as int],
            final(self)@ == (RuntimeView {
                stacks: old(self)@.stacks.update(i as int, final(stack)@),
                ..old(self)@
            }),
    {
        proof {
            use_type_invariant(&*self);
        }
        broadcast use lemma_thread_update;

        &mut self.threads[i].stack
    }

    fn set_state(&mut self, i: usize, s: State)
        requires
            i < old(self)@.states.len(),
            wf(old(self)@),
        ensures
            final(self)@ == (RuntimeView { states: old(self)@.states.update(i as int, s), ..old(self)@ }),
    {
        self.threads[i].state = s;
        proof {
            assert(self@.ids =~= old(self)@.ids);
            assert(self@.stacks =~= old(self)@.stacks);
            assert(self@.states =~= old(self)@.states.update(i as int, s));
        }
    }

    /// Gives the processor to the nearest ready thread, looking first at the
    /// current thread and then forward, wrapping around the table. Returns
    /// `false`, changing nothing, when no thread is ready; otherwise the
    /// yielding thread becomes ready (unless it has been freed), the chosen
    /// one runs and becomes current, and the caller switches contexts from
    /// the old current thread to the new one.
    pub fn t_yield(&mut self) -> (switched: bool)
        ensures
            wf(final(self)@),
            (final(self)@, switched) == after_yield(old(self)@),
            final(self)@ == apply_event(old(self)@, SchedEvent::Yield),
    {
        proof {
            use_type_invariant(&*self);
        }
        let n = self.threads.len();
        let mut pos = self.current;
        let ghost k: int = 0;
        while self.threads[pos].state != State::Ready
            invariant
                self@ == old(self)@,
                wf(self@),
                n == self@.states.len(),
                0 <= k < n,
                pos == wrap(self.current as int, k, n as int),
                next_ready(self@.states, self@.current) == first_ready_from(
                    self@.states,
                    self@.current,
                    k,
                ),
            decreases n - k,
        {
            pos = pos + 1;
            if pos == n {
                pos = 0;
            }
            proof {
                k = k + 1;
            }
            if pos == self.current {
                assert(k == n);
                return false;
            }
        }
        let ghost p = pos as int;
        assert(next_ready(self@.states, self@.current) == Some(p));
        let cur = self.current;
        if self.threads[cur].state != State::Available {
            self.set_state(cur, State::Ready);
        }
        self.set_state(pos, State::Running);
        self.current = pos;
        proof {
            assert(self@.states =~= switch_states(old(self)@.states, old(self)@.current, p));
        }
        true
    }

    /// Ends the current task: a thread other than the base thread is freed
    /// and the processor goes to the next ready thread, as `t_yield` does;
    /// the base thread is never freed. Returns whether the caller must
    /// switch contexts.
    pub fn t_return(&mut self) -> (switched: bool)
        ensures
            wf(final(self)@),
            old(self)@.current == 0 ==> final(self)@ == old(self)@ && !switched,
            old(self)@.current != 0 ==> (final(self)@, switched) == after_yield(
                RuntimeView {
                    states: old(self)@.states.update(old(self)@.current, State::Available),
                    ..old(self)@
                },
            ),
            final(self)@ == apply_event(old(self)@, SchedEvent::Return),
            old(self)@.current != 0 ==> final(self)@.states[old(self)@.current] == State::Available,
    {
        proof {
            use_type_invariant(&*self);
            if self@.current != 0 {
                lemma_return_frees_thread(self@);
            }
        }
        if self.current != 0 {
            let cur = self.current;
            self.set_state(cur, State::Available);
            self.t_yield()
        } else {
            false
        }
    }

    /// Hands a new task to the first available thread: that thread becomes
    /// ready and its index is returned, so that the caller prepares its
    /// stack. The table must have an available thread.
    pub fn spawn(&mut self) -> (idx: usize)
        requires
            exists|i: int| 0 <= i < old(self)@.states.len() && old(self)@.states[i] == State::Available,
        ensures
            wf(final(self)@),
            is_first_in_state(old(self)@.states, idx as int, State::Available),
            final(self)@ == (RuntimeView {
                states: old(self)@.states.update(idx as int, State::Ready),
                ..old(self)@
            }),
            final(self)@ == apply_event(old(self)@, SchedEvent::Spawn),
    {
        proof {
            use_type_invariant(&*self);
        }
        let n = self.threads.len();
        let mut i: usize = 0;
        while i < n
            invariant
                self@ == old(self)@,
                wf(self@),
                n == self@.states.len(),
                0 <= i <= n,
                forall|j: int| 0 <= j < i ==> self@.states[j] != State::Available,
                exists|j: int| 0 <= j < n && self@.states[j] == State::Available,
            decreases n - i,
        {
            if self.threads[i].state == State::Available {
                proof {
                    let f = choose|f: int| is_first_in_state(old(self)@.states, f, State::Available);
                    assert(is_first_in_state(old(self)@.states, i as int, State::Available));
                    lemma_first_in_state_unique(old(self)@.states, f, i as int, State::Available);
                }
                self.set_state(i, State::Ready);
                return i;
            }
            i = i + 1;
        }
        assert(false);
        0
    }
}

/// Where the first words of a fresh green-thread stack go: the top of the
/// stack rounded down to 16 bytes, the slots that hold the return address
/// of the task's exit handler, the skip trampoline and the task's entry
/// point, and the initial stack pointer.
pub struct StackFrame {
    pub top: usize,
    pub guard_slot: usize,
    pub skip_slot: usize,
    pub entry_slot: usize,
    pub stack_pointer: usize,
}

/// Lays out the initial frame of a stack occupying `stack_len` bytes from
/// address `stack_start`: the top is the end of the stack rounded down to a
/// multiple of 16, the exit handler's slot is 16 bytes below it, the
/// trampoline's 24 and the entry point's 32, where the stack pointer starts.
pub fn initial_frame(stack_start: usize, stack_len: usize) -> (f: StackFrame)
    requires
        stack_start + stack_len <= usize::MAX,
        stack_len >= 48,
    ensures
        f.top == (stack_start + stack_len) as usize & !15usize,
        f.top % 16 == 0,
        stack_start + stack_len - 15 <= f.top <= stack_start + stack_len,
        f.guard_slot == f.top - 16,
        f.skip_slot == f.top - 24,
        f.entry_slot == f.top - 32,
        f.stack_pointer == f.entry_slot,
        stack_start <= f.stack_pointer,
{
    let end = stack_start + stack_len;
    let top = end & !15usize;
    assert(top <= end && end - top <= 15 && top % 16 == 0) by (bit_vector)
        requires
            top == end & !15usize,
    ;
    StackFrame {
        top,
        guard_slot: top - 16,
        skip_slot: top - 24,
        entry_slot: top - 32,
        stack_pointer: top - 32,
    }
}

} // verus!
