//! A minimal future interface, polled with a waker that names the task to
//! schedule again, and the combinator that joins a list of futures.
use vstd::prelude::*;

verus! {

/// The result of polling a future: its output, or not yet.
pub enum PollState<T> {
    Ready(T),
    NotReady,
}

/// Identifies the task that is woken when a pending future can make
/// progress.
pub struct Waker {
    id: usize,
}

impl Waker {
    /// A waker for task `id`.
    pub fn new(id: usize) -> (w: Waker)
        ensures
            w.id() == id,
    {
        Waker { id }
    }

    /// The task this waker wakes.
    pub closed spec fn id(&self) -> usize {
        self.id
    }

    /// The task this waker wakes.
    pub fn task_id(&self) -> (id: usize)
        ensures
            id == self.id(),
    {
        self.id
    }
}

/// A computation that makes progress each time it is polled and finally
/// produces an output.
pub trait Future {
    type Output;

    /// Whether the future has produced its output. An implementation that
    /// keeps the default states nothing: every state counts as done.
    open spec fn is_done(&self) -> bool {
        true
    }

    /// One poll of `self` with `waker` may leave the future as `next`, and
    /// report its output exactly when `ready`. An implementation that keeps
    /// the default states nothing: every poll is allowed.
    open spec fn poll_step(&self, waker: &Waker, next: &Self, ready: bool) -> bool {
        true
    }

    /// Makes progress; a future that reports its output is done.
    fn poll(&mut self, waker: &Waker) -> (r: PollState<Self::Output>)
        ensures
            old(self).poll_step(waker, &*final(self), r is Ready),
            r is Ready ==> final(self).is_done(),
    ;
}

/// Joins a list of futures: each is polled until it is ready, and the join
/// is ready when all of them are.
pub struct JoinAll<F: Future> {
    futures: Vec<(bool, F)>,
    finished_count: usize,
}

/// Number of entries marked finished.
pub open spec fn count_finished<F>(s: Seq<(bool, F)>) -> int
    decreases s.len(),
{
    if s.len() == 0 {
        0
    } else {
        count_finished(s.drop_last()) + if s.last().0 {
            1int
        } else {
            0int
        }
    }
}

/// Every entry is marked finished.
pub open spec fn all_finished<F>(s: Seq<(bool, F)>) -> bool {
    forall|i: int| 0 <= i < s.len() ==> #[trigger] s[i].0
}

/// The futures after a poll of the join, relative to before it: the same
/// number, and those already finished neither polled nor changed.
pub open spec fn finished_untouched<F>(before: Seq<(bool, F)>, after: Seq<(bool, F)>) -> bool {
    &&& after.len() == before.len()
    &&& forall|i: int| 0 <= i < before.len() && before[i].0 ==> after[i] == before[i]
}

/// One poll of the join with `waker`, from the futures `before` to `after`:
/// those already finished are left alone, and each of the others is polled
/// once with `waker`, in place, and marked finished exactly when that poll
/// reported its output.
pub open spec fn join_step<F: Future>(before: Seq<(bool, F)>, waker: &Waker, after: Seq<(bool, F)>) -> bool {
    &&& finished_untouched(before, after)
    &&& forall|i: int|
        0 <= i < before.len() && !before[i].0 ==> #[trigger] before[i].1.poll_step(
            waker,
            &after[i].1,
            after[i].0,
        )
}

/// Every entry marked finished by a poll of the join belongs to a future
/// that reported its output, so it is done.
pub open spec fn newly_finished_are_done<F: Future>(before: Seq<(bool, F)>, after: Seq<(bool, F)>) -> bool {
    forall|i: int|
        0 <= i < before.len() && i < after.len() && !before[i].0 && #[trigger] after[i].0
            ==> after[i].1.is_done()
}

/// A future that has finished stays finished, and a join that is ready
/// stays ready and unchanged when polled again: it polls none of its
/// futures any more.
pub proof fn lemma_finished_stays_finished<F>(before: Seq<(bool, F)>, after: Seq<(bool, F)>)
    requires
        finished_untouched(before, after),
    ensures
        forall|i: int| 0 <= i < before.len() && before[i].0 ==> #[trigger] after[i].0,
        all_finished(before) ==> after == before && all_finished(after),
{
    if all_finished(before) {
        assert(after =~= before);
    }
}

impl<F: Future> View for JoinAll<F> {
    type V = Seq<(bool, F)>;

    /// Each future with a flag telling whether it has finished.
    closed spec fn view(&self) -> Seq<(bool, F)> {
        self.futures@
    }
}

impl<F: Future> JoinAll<F> {
    #[verifier::type_invariant]
    spec fn counted(self) -> bool {
        self.finished_count == count_finished(self.futures@)
    }
}

proof fn lemma_count_bounds<F>(s: Seq<(bool, F)>)
    ensures
        0 <= count_finished(s) <= s.len(),
        count_finished(s) == s.len() <==> all_finished(s),
    decreases s.len(),
{
    if s.len() > 0 {
        lemma_count_bounds(s.drop_last());
        if all_finished(s) {
            assert(all_finished(s.drop_last()));
        }
        if all_finished(s.drop_last()) && s.last().0 {
            assert forall|i: int| 0 <= i < s.len() implies #[trigger] s[i].0 by {
                if i < s.len() - 1 {
                    assert(s.drop_last()[i].0);
                }
            }
        }
    }
}

proof fn lemma_count_update<F>(s: Seq<(bool, F)>, i: int, v: (bool, F))
    requires
        0 <= i < s.len(),
    ensures
        count_finished(s.update(i, v)) == count_finished(s) - (if s[i].0 {
            1int
        } else {
            0int
        }) + (if v.0 {
            1int
        } else {
            0int
        }),
    decreases s.len(),
{
    if i < s.len() - 1 {
        lemma_count_update(s.drop_last(), i, v);
        assert(s.update(i, v).drop_last() =~= s.drop_last().update(i, v));
    } else {
        assert(s.update(i, v).drop_last() =~= s.drop_last());
    }
}

/// Joins `futures`, none of them finished yet.
pub fn join_all<F: Future>(futures: Vec<F>) -> (j: JoinAll<F>)
    ensures
        j@ == futures@.map_values(|f: F| (false, f)),
{
    let mut futures = futures;
    let ghost orig = futures@;
    let mut joined: Vec<(bool, F)> = Vec::new();
    while futures.len() > 0
        invariant
            joined@.len() + futures@.len() == orig.len(),
            futures@ == orig.subrange(joined@.len() as int, orig.len() as int),
            joined@ == orig.subrange(0, joined@.len() as int).map_values(|f: F| (false, f)),
            count_finished(joined@) == 0,
        decreases futures@.len(),
    {
        let f = futures.remove(0);
        let ghost before = joined@;
        joined.push((false, f));
        proof {
            assert(joined@.drop_last() =~= before);
            assert(futures@ =~= orig.subrange(joined@.len() as int, orig.len() as int));
            assert(joined@ =~= orig.subrange(0, joined@.len() as int).map_values(
                |f: F| (false, f),
            ));
        }
    }
    proof {
        assert(orig.subrange(0, orig.len() as int) =~= orig);
    }
    JoinAll { futures: joined, finished_count: 0 }
}

impl<F: Future> Future for JoinAll<F> {
    type Output = String;

    /// The join is done when every future has finished.
    open spec fn is_done(&self) -> bool {
        all_finished(self@)
    }

    /// A poll of the join polls its unfinished futures, and reports its
    /// output once all of them have finished.
    open spec fn poll_step(&self, waker: &Waker, next: &Self, ready: bool) -> bool {
        &&& join_step(self@, waker, next@)
        &&& ready == all_finished(next@)
    }

    /// Polls, in order, each future that has not finished yet, marking
    /// those that become ready; futures already finished are left alone.
    /// Ready, with an empty string, once every future has finished.
    fn poll(&mut self, waker: &Waker) -> (r: PollState<String>)
        ensures
            join_step(old(self)@, waker, final(self)@),
            newly_finished_are_done(old(self)@, final(self)@),
            r is Ready <==> all_finished(final(self)@),
            match r {
                PollState::Ready(s) => s@ == Seq::<char>::empty(),
                PollState::NotReady => true,
            },
    {
        proof {
            use_type_invariant(&*self);
        }
        let mut this = JoinAll { futures: Vec::new(), finished_count: 0 };
        std::mem::swap(self, &mut this);
        let JoinAll { mut futures, mut finished_count } = this;
        let ghost orig = futures@;
        let n = futures.len();
        let mut i: usize = 0;
        while i < n
            invariant
                0 <= i <= n,
                n == futures@.len(),
                n == orig.len(),
                finished_count == count_finished(futures@),
                forall|j: int| 0 <= j < n && orig[j].0 ==> futures@[j] == orig[j],
                forall|j: int| i <= j < n ==> futures@[j] == orig[j],
                newly_finished_are_done(orig, futures@),
                forall|j: int|
                    0 <= j < i && !orig[j].0 ==> #[trigger] orig[j].1.poll_step(
                        waker,
                        &futures@[j].1,
                        futures@[j].0,
                    ),
            decreases n - i,
        {
            let ghost before = futures@;
            let mut became_ready = false;
            let entry = &mut futures[i];
            if !entry.0 {
                match entry.1.poll(waker) {
                    PollState::Ready(_) => {
                        entry.0 = true;
                        became_ready = true;
                    },
                    PollState::NotReady => {},
                }
            }
            proof {
                lemma_count_update(before, i as int, futures@[i as int]);
                lemma_count_bounds(futures@);
            }
            if became_ready {
                finished_count = finished_count + 1;
            }
            i = i + 1;
        }
        proof {
            lemma_count_bounds(futures@);
        }
        let ready = finished_count == futures.len();
        *self = JoinAll { futures, finished_count };
        if ready {
            PollState::Ready(String::new())
        } else {
            PollState::NotReady
        }
    }
}

} // verus!
