//! Bookkeeping of a single-threaded executor: the pending tasks by id, the
//! next id to hand out, and the queue of ids that wakers mark ready. The
//! queue is shared with the wakers, so it is passed in by the caller, who
//! holds its lock; the caller also polls the tasks and parks the thread.
use vstd::prelude::*;
use std::collections::HashMap;

verus! {

broadcast use vstd::std_specs::hash::group_hash_axioms;

/// The tasks of an executor and the id the next spawned task gets.
pub struct ExecutorCore<T> {
    tasks: HashMap<usize, T>,
    next_id: usize,
}

/// The executor as a mathematical value.
pub struct ExecutorView<T> {
    pub tasks: Map<usize, T>,
    pub next_id: int,
}

impl<T> View for ExecutorCore<T> {
    type V = ExecutorView<T>;

    closed spec fn view(&self) -> ExecutorView<T> {
        ExecutorView { tasks: self.tasks@, next_id: self.next_id as int }
    }
}

/// Every task has an id below the next one, so new ids are fresh.
pub open spec fn executor_wf<T>(v: ExecutorView<T>) -> bool {
    forall|id: usize| #[trigger] v.tasks.contains_key(id) ==> id < v.next_id
}

/// The ids popped from the back of `queue` to reach the first one that
/// names a pending task, and that task's id; `None` when no id in the
/// queue does, and then the whole queue is popped.
pub open spec fn first_live(queue: Seq<usize>, tasks: Set<usize>) -> Option<int>
    decreases queue.len(),
{
    if queue.len() == 0 {
        None
    } else if tasks.contains(queue.last()) {
        Some(queue.len() - 1)
    } else {
        first_live(queue.drop_last(), tasks)
    }
}

/// The ids popped by `next_task` are exactly the stale ones: the id it
/// hands out names a pending task, every id above it in the queue names
/// none, and when it finds nothing no id in the queue names a task.
pub proof fn lemma_next_task_skips_only_stale(queue: Seq<usize>, tasks: Set<usize>)
    ensures
        match first_live(queue, tasks) {
            None => forall|j: int| 0 <= j < queue.len() ==> !tasks.contains(#[trigger] queue[j]),
            Some(i) => {
                &&& 0 <= i < queue.len()
                &&& tasks.contains(queue[i])
                &&& forall|j: int| i < j < queue.len() ==> !tasks.contains(#[trigger] queue[j])
            },
        },
    decreases queue.len(),
{
    if queue.len() > 0 {
        lemma_next_task_skips_only_stale(queue.drop_last(), tasks);
        if !tasks.contains(queue.last()) {
            assert forall|j: int| 0 <= j < queue.len() - 1 implies queue.drop_last()[j] == queue[j] by {}
        }
    }
}

/// A task taken out to be polled and put back because it is still pending
/// leaves the executor's tasks as they were, but for the task's new state:
/// no task is lost or duplicated.
pub proof fn lemma_pending_task_kept<T>(tasks: Map<usize, T>, id: usize, task: T)
    requires
        tasks.contains_key(id),
    ensures
        tasks.remove(id).insert(id, task).dom() == tasks.dom(),
        tasks.remove(id).insert(id, task) == tasks.insert(id, task),
{
    assert(tasks.remove(id).insert(id, task).dom() =~= tasks.dom());
    assert(tasks.remove(id).insert(id, task) =~= tasks.insert(id, task));
}

/// Spawning keeps ids fresh: the new task's id was not in use, and every id
/// stays below the next one.
pub proof fn lemma_spawn_id_fresh<T>(v: ExecutorView<T>, task: T)
    requires
        executor_wf(v),
        0 <= v.next_id < usize::MAX,
    ensures
        !v.tasks.contains_key(v.next_id as usize),
        executor_wf(ExecutorView { tasks: v.tasks.insert(v.next_id as usize, task), next_id: v.next_id + 1 }),
{
}

impl<T> ExecutorCore<T> {
    /// An executor with no tasks; ids start at 0.
    pub fn new() -> (e: ExecutorCore<T>)
        ensures
            e@.tasks == Map::<usize, T>::empty(),
            e@.next_id == 0,
            executor_wf(e@),
    {
        ExecutorCore { tasks: HashMap::new(), next_id: 0 }
    }

    /// Takes the last id of the ready queue, if any.
    pub fn pop_ready(&self, ready_queue: &mut Vec<usize>) -> (id: Option<usize>)
        ensures
            old(ready_queue)@.len() == 0 ==> id is None && final(ready_queue)@ == old(ready_queue)@,
            old(ready_queue)@.len() > 0 ==> id == Some(old(ready_queue)@.last()) && final(ready_queue)@ == old(ready_queue)@.drop_last(),
    {
        ready_queue.pop()
    }

    /// Removes the task with this id and hands it out, if there is one.
    pub fn get_future(&mut self, id: usize) -> (task: Option<T>)
        ensures
            final(self)@.tasks == old(self)@.tasks.remove(id),
            final(self)@.next_id == old(self)@.next_id,
            old(self)@.tasks.contains_key(id) ==> task == Some(old(self)@.tasks[id]),
            !old(self)@.tasks.contains_key(id) ==> task is None,
            executor_wf(old(self)@) ==> executor_wf(final(self)@),
    {
        let task = self.tasks.remove(&id);
        proof {
            assert forall|k: usize| #[trigger] final(self)@.tasks.contains_key(k) implies old(self)@.tasks.contains_key(k) by {}
        }
        task
    }

    /// Puts a task back under its id. Ids stay fresh when the id is one
    /// that was handed out.
    pub fn insert_task(&mut self, id: usize, task: T)
        ensures
            final(self)@.tasks == old(self)@.tasks.insert(id, task),
            final(self)@.next_id == old(self)@.next_id,
            executor_wf(old(self)@) && id < old(self)@.next_id ==> executor_wf(final(self)@),
    {
        self.tasks.insert(id, task);
        proof {
            assert forall|k: usize| #[trigger] final(self)@.tasks.contains_key(k) implies k == id
                || old(self)@.tasks.contains_key(k) by {}
        }
    }

    /// The id the next spawned task gets.
    pub fn next_id(&self) -> (id: usize)
        ensures
            id == self@.next_id,
    {
        self.next_id
    }

    /// Number of pending tasks.
    pub fn task_count(&self) -> (n: usize)
        ensures
            n == self@.tasks.len(),
    {
        self.tasks.len()
    }

    /// The next task to poll: ids are taken from the back of the ready
    /// queue until one names a pending task, which is removed from the
    /// table and handed out with its id; ids of tasks that no longer exist
    /// (a wake after the task finished) are dropped. `None` once the queue
    /// is empty.
    pub fn next_task(&mut self, ready_queue: &mut Vec<usize>) -> (next: Option<(usize, T)>)
        ensures
            executor_wf(old(self)@) ==> executor_wf(final(self)@),
            final(self)@.next_id == old(self)@.next_id,
            match first_live(old(ready_queue)@, old(self)@.tasks.dom()) {
                None => next is None && final(ready_queue)@ == Seq::<usize>::empty() && final(self)@
                    == old(self)@,
                Some(i) => {
                    let id = old(ready_queue)@[i];
                    &&& next == Some((id, old(self)@.tasks[id]))
                    &&& final(ready_queue)@ == old(ready_queue)@.subrange(0, i)
                    &&& final(self)@.tasks == old(self)@.tasks.remove(id)
                },
            },
    {
        loop
            invariant
                self@ == old(self)@,
                first_live(ready_queue@, self@.tasks.dom()) == first_live(
                    old(ready_queue)@,
                    old(self)@.tasks.dom(),
                ),
                ready_queue@.len() <= old(ready_queue)@.len(),
                ready_queue@ == old(ready_queue)@.subrange(0, ready_queue@.len() as int),
            decreases ready_queue@.len(),
        {
            let ghost before = ready_queue@;
            match ready_queue.pop() {
                None => {
                    return None;
                },
                Some(id) => {
                    proof {
                        assert(ready_queue@ =~= old(ready_queue)@.subrange(0, ready_queue@.len() as int));
                    }
                    match self.tasks.remove(&id) {
                        Some(task) => {
                            return Some((id, task));
                        },
                        None => {
                            proof {
                                assert(self@.tasks =~= old(self)@.tasks);
                                assert(ready_queue@ =~= before.drop_last());
                            }
                        },
                    }
                },
            }
        }
    }

    /// Files the outcome of polling task `id`: a task that is still pending
    /// goes back in the table; a finished one is dropped. Ids stay fresh
    /// when the id is one that was handed out.
    pub fn finish_poll(&mut self, id: usize, task: T, ready: bool)
        ensures
            final(self)@.next_id == old(self)@.next_id,
            ready ==> final(self)@.tasks == old(self)@.tasks,
            !ready ==> final(self)@.tasks == old(self)@.tasks.insert(id, task),
            executor_wf(old(self)@) && id < old(self)@.next_id ==> executor_wf(final(self)@),
    {
        if !ready {
            self.insert_task(id, task);
        }
    }

    /// After the ready queue is drained: park until a waker fires while
    /// tasks are pending, stop once none are.
    pub fn should_park(&self) -> (park: bool)
        ensures
            park == (self@.tasks.len() > 0),
    {
        self.task_count() > 0
    }
}

/// Spawns `task` on `executor`: it gets the next id, is stored under it and
/// is queued as ready. Returns the id.
pub fn spawn<T>(executor: &mut ExecutorCore<T>, ready_queue: &mut Vec<usize>, task: T) -> (id: usize)
    requires
        old(executor)@.next_id < usize::MAX,
    ensures
        id == old(executor)@.next_id,
        final(executor)@.tasks == old(executor)@.tasks.insert(id, task),
        final(executor)@.next_id == old(executor)@.next_id + 1,
        final(ready_queue)@ == old(ready_queue)@.push(id),
        executor_wf(old(executor)@) ==> executor_wf(final(executor)@) && !old(executor)@.tasks.contains_key(id),
{
    let id = executor.next_id;
    proof {
        if executor_wf(old(executor)@) {
            assert(!old(executor)@.tasks.contains_key(id));
        }
    }
    executor.tasks.insert(id, task);
    ready_queue.push(id);
    executor.next_id = id + 1;
    id
}

} // verus!
