//! Bookkeeping of a reactor that wakes tasks when their sources become
//! ready: the waker registered under each source id, and the counter that
//! hands out source ids starting at 1. The event loop thread, the OS poll
//! instance and the locks around this state are the caller's.
use vstd::prelude::*;
use std::collections::HashMap;

verus! {

broadcast use vstd::std_specs::hash::group_hash_axioms;

/// Wakers by source id, and the next source id.
pub struct Reactor<W> {
    wakers: HashMap<usize, W>,
    next_id: usize,
}

/// The reactor as a mathematical value.
pub struct ReactorView<W> {
    pub wakers: Map<usize, W>,
    pub next_id: int,
}

impl<W> View for Reactor<W> {
    type V = ReactorView<W>;

    closed spec fn view(&self) -> ReactorView<W> {
        ReactorView { wakers: self.wakers@, next_id: self.next_id as int }
    }
}

/// The counter after handing out one id: one more, wrapping to 0 after
/// the largest `usize`.
pub open spec fn bump(id: int) -> int {
    if id == usize::MAX {
        0
    } else {
        id + 1
    }
}

impl<W> Reactor<W> {
    /// A reactor with no wakers, whose first source id is 1.
    pub fn new() -> (r: Reactor<W>)
        ensures
            r@.wakers == Map::<usize, W>::empty(),
            r@.next_id == 1,
    {
        Reactor { wakers: HashMap::new(), next_id: 1 }
    }

    /// Registers `waker` as the one to wake when source `id` is ready,
    /// replacing the previous one. Returns whether there was none before.
    pub fn set_waker(&mut self, id: usize, waker: W) -> (first: bool)
        ensures
            final(self)@ == (ReactorView { wakers: old(self)@.wakers.insert(id, waker), ..old(self)@ }),
            first == !old(self)@.wakers.contains_key(id),
    {
        self.wakers.insert(id, waker).is_none()
    }

    /// Forgets the waker of source `id`.
    pub fn deregister(&mut self, id: usize)
        ensures
            final(self)@ == (ReactorView { wakers: old(self)@.wakers.remove(id), ..old(self)@ }),
    {
        self.wakers.remove(&id);
    }

    /// Hands out a source id: the counter's value, which then moves on.
    pub fn next_id(&mut self) -> (id: usize)
        ensures
            id == old(self)@.next_id,
            final(self)@ == (ReactorView { next_id: bump(old(self)@.next_id), ..old(self)@ }),
    {
        let id = self.next_id;
        self.next_id = if id == usize::MAX {
            0
        } else {
            id + 1
        };
        id
    }

    /// The waker to wake for an event on source `id`, if one is registered;
    /// events on other sources are ignored.
    pub fn waker_for(&self, id: usize) -> (w: Option<&W>)
        ensures
            self@.wakers.contains_key(id) ==> w == Some(&self@.wakers[id]),
            !self@.wakers.contains_key(id) ==> w is None,
    {
        self.wakers.get(&id)
    }
}

/// An event on a source wakes the waker registered last for it, and no
/// waker once the source is deregistered.
pub proof fn lemma_event_wakes_latest_waker<W>(wakers: Map<usize, W>, id: usize, w: W, other: usize)
    ensures
        wakers.insert(id, w).contains_key(id) && wakers.insert(id, w)[id] == w,
        !wakers.insert(id, w).remove(id).contains_key(id),
        other != id ==> (wakers.insert(id, w).contains_key(other) == wakers.contains_key(other)),
{
}

/// The counter after `k` ids were handed out from `start`.
pub open spec fn bumped(start: int, k: nat) -> int
    decreases k,
{
    if k == 0 {
        start
    } else {
        bump(bumped(start, (k - 1) as nat))
    }
}

/// The id that a call of `next_id` hands out after `k` earlier calls on a
/// reactor whose counter started at `start` (1 for a new reactor) is
/// `start + k`, wrapping to 0 after the largest `usize`.
pub proof fn lemma_kth_id(start: int, k: nat)
    requires
        0 <= start <= usize::MAX,
    ensures
        bumped(start, k) == (start + k) % (usize::MAX + 1),
    decreases k,
{
    let m: int = usize::MAX + 1;
    if k == 0 {
        vstd::arithmetic::div_mod::lemma_small_mod(start as nat, m as nat);
    } else {
        lemma_kth_id(start, (k - 1) as nat);
        let x = start + k - 1;
        vstd::arithmetic::div_mod::lemma_mod_pos_bound(x, m);
        vstd::arithmetic::div_mod::lemma_add_mod_noop(x, 1, m);
        vstd::arithmetic::div_mod::lemma_small_mod(1, m as nat);
        if x % m + 1 < m {
            vstd::arithmetic::div_mod::lemma_small_mod((x % m + 1) as nat, m as nat);
        } else {
            vstd::arithmetic::div_mod::lemma_mod_self_0(m);
        }
    }
}

/// The ids handed out by `n` successive calls, starting from counter
/// value `start`, are `start, start + 1, ...` and all different, as long as
/// the counter does not wrap.
pub open spec fn ids_from(start: int, n: nat) -> Seq<int> {
    Seq::new(n, |k: int| start + k)
}

/// Successive source ids are distinct while the counter does not wrap.
pub proof fn lemma_ids_distinct(start: int, n: nat)
    requires
        1 <= start,
        start + n <= usize::MAX + 1,
    ensures
        forall|a: int, b: int|
            0 <= a < b < n ==> ids_from(start, n)[a] != ids_from(start, n)[b],
        forall|k: int| 0 <= k < n - 1 ==> bump(ids_from(start, n)[k]) == ids_from(start, n)[k + 1],
{
}

} // verus!
