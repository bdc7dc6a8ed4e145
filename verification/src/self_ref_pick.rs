//! A value that picks one of its own numbers and shows it later. The pick
//! is a reference into the value itself; it is kept here as the index of
//! the picked number.
use vstd::prelude::*;

verus! {

/// Three numbers and, once picked, which of them.
pub struct SelfRef {
    numbers: [usize; 3],
    picked: Option<usize>,
}

/// `SelfRef` as a mathematical value.
pub struct SelfRefView {
    pub numbers: Seq<usize>,
    pub picked: Option<int>,
}

impl View for SelfRef {
    type V = SelfRefView;

    closed spec fn view(&self) -> SelfRefView {
        SelfRefView {
            numbers: self.numbers@,
            picked: match self.picked {
                Some(i) => Some(i as int),
                None => None,
            },
        }
    }
}

impl SelfRef {
    /// The numbers 1, 2, 3, none picked.
    pub fn new() -> (s: SelfRef)
        ensures
            s@.numbers == seq![1usize, 2, 3],
            s@.picked is None,
    {
        let s = SelfRef { numbers: [1, 2, 3], picked: None };
        proof {
            assert(s@.numbers =~= seq![1usize, 2, 3]);
        }
        s
    }

    /// Picks the number at position `n` (there is none past the third).
    pub fn pick(&mut self, n: usize)
        requires
            n < 3,
        ensures
            final(self)@ == (SelfRefView { picked: Some(n as int), ..old(self)@ }),
    {
        self.picked = Some(n);
    }

    /// The picked number (one must have been picked).
    pub fn show(&self) -> (v: usize)
        requires
            self@.picked is Some,
            0 <= self@.picked->0 < 3,
        ensures
            v == self@.numbers[self@.picked->0],
    {
        match self.picked {
            Some(i) => self.numbers[i],
            None => 0,
        }
    }
}

/// Showing after a pick gives the number at the picked position, whatever
/// was picked before.
pub proof fn lemma_show_after_pick(v: SelfRefView, n: int)
    requires
        v.numbers.len() == 3,
        0 <= n < 3,
    ensures
        ({
            let w = SelfRefView { picked: Some(n), ..v };
            w.picked is Some && w.numbers[w.picked->0] == v.numbers[n]
        }),
{
}

} // verus!
