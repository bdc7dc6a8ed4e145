//! An executor that keeps suspended tasks in a list, each under the event
//! id that resumes it; a task stays in the list and can be resumed again.
use vstd::prelude::*;

verus! {

/// Suspended tasks with the event id that resumes each, in the order they
/// were suspended.
pub struct Excutor<T> {
    events: Vec<(usize, T)>,
}

impl<T> View for Excutor<T> {
    type V = Seq<(usize, T)>;

    closed spec fn view(&self) -> Seq<(usize, T)> {
        self.events@
    }
}

/// Index of the first task waiting for `event`.
pub open spec fn is_first_for<T>(events: Seq<(usize, T)>, i: int, event: usize) -> bool {
    &&& 0 <= i < events.len()
    &&& events[i].0 == event
    &&& forall|j: int| 0 <= j < i ==> events[j].0 != event
}

impl<T> Excutor<T> {
    /// An executor with no tasks.
    pub fn new() -> (e: Excutor<T>)
        ensures
            e@ == Seq::<(usize, T)>::empty(),
    {
        Excutor { events: Vec::new() }
    }

    /// Suspends task `f` until event `id` is ready.
    pub fn suspend(&mut self, id: usize, f: T)
        ensures
            final(self)@ == old(self)@.push((id, f)),
    {
        self.events.push((id, f));
    }

    /// Whether some task waits for `event`.
    pub fn has_task(&self, event: usize) -> (b: bool)
        ensures
            b == exists|i: int| 0 <= i < self@.len() && self@[i].0 == event,
    {
        let n = self.events.len();
        let mut i: usize = 0;
        while i < n
            invariant
                n == self@.len(),
                0 <= i <= n,
                forall|j: int| 0 <= j < i ==> self@[j].0 != event,
            decreases n - i,
        {
            if self.events[i].0 == event {
                return true;
            }
            i = i + 1;
        }
        false
    }

    /// The task to run for the ready event `event`: the first one suspended
    /// under it. An event with no task is an error the caller reports.
    pub fn resume(&mut self, event: usize) -> (task: &mut T)
        requires
            exists|i: int| 0 <= i < old(self)@.len() && old(self)@[i].0 == event,
        ensures
            exists|i: int|
                {
                    &&& is_first_for(old(self)@, i, event)
                    &&& *task == old(self)@[i].1
                    &&& final(self)@ == old(self)@.update(i, (event, *final(task)))
                },
    {
        let n = self.events.len();
        let mut i: usize = 0;
        while i < n
            invariant
                self@ == old(self)@,
                n == self@.len(),
                0 <= i <= n,
                forall|j: int| 0 <= j < i ==> self@[j].0 != event,
                exists|j: int| 0 <= j < n && self@[j].0 == event,
            decreases n - i,
        {
            if self.events[i].0 == event {
                assert(is_first_for(old(self)@, i as int, event));
                let entry = &mut self.events[i];
                return &mut entry.1;
            }
            i = i + 1;
        }
        vstd::pervasive::unreached()
    }
}

} // verus!
