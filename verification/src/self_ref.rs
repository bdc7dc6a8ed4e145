//! The coroutine for
//!
//! ```text
//! async fn foo() {
//!     let numbers: Vec<usize> = (0..10).collect();
//!     let mut nums = numbers.iter();
//!     if let Some(n) = nums.next() {
//!         printfut("Future {n}").wait;
//!     }
//!     for num in nums {
//!         println!("Hello #{num}");
//!     }
//! }
//! ```
//!
//! whose saved state holds both the numbers and an iterator into them; the
//! iterator is kept as the position of the next number.
use vstd::prelude::*;
use vstd::string::*;
use crate::coroutine::lines_view;
use crate::request::{decimal, push_decimal};

verus! {

/// The locals saved at the await point.
pub struct State1 {
    numbers: Vec<usize>,
    nums: usize,
}

/// Await points of the coroutine.
pub enum SelfRef {
    Start,
    Wait(State1),
    Resolved,
}

/// The coroutine as a mathematical value.
pub enum SelfRefView {
    Start,
    Wait { numbers: Seq<usize>, next: int },
    Resolved,
}

impl View for SelfRef {
    type V = SelfRefView;

    closed spec fn view(&self) -> SelfRefView {
        match self {
            SelfRef::Start => SelfRefView::Start,
            SelfRef::Wait(s) => SelfRefView::Wait { numbers: s.numbers@, next: s.nums as int },
            SelfRef::Resolved => SelfRefView::Resolved,
        }
    }
}

/// The numbers `0, 1, ..., 9`.
pub open spec fn first_ten() -> Seq<usize> {
    Seq::new(10, |i: int| i as usize)
}

/// The lines printed for the numbers from position `next` on.
pub open spec fn hello_lines(numbers: Seq<usize>, next: int) -> Seq<Seq<char>> {
    Seq::new(
        (numbers.len() - next) as nat,
        |j: int| "Hello #"@ + decimal(numbers[next + j] as nat),
    )
}

/// A saved state whose iterator position lies inside the numbers.
pub open spec fn self_ref_wf(v: SelfRefView) -> bool {
    match v {
        SelfRefView::Wait { numbers, next } => 0 <= next <= numbers.len(),
        _ => true,
    }
}

fn labelled(label: &str, n: usize) -> (s: String)
    ensures
        s@ == label@ + decimal(n as nat),
{
    let mut s = String::from_str(label);
    push_decimal(&mut s, n);
    s
}

impl SelfRef {
    /// The coroutine before its first poll.
    pub fn new() -> (c: SelfRef)
        ensures
            c@ == SelfRefView::Start,
    {
        SelfRef::Start
    }

    /// Polls the coroutine, appending what it prints to `printed`. The first
    /// poll collects the numbers 0 to 9, prints "Future 0" for the first one
    /// and stops at the await point; the second prints "Hello #k" for each
    /// remaining number and finishes. Returns whether the coroutine is done.
    /// Polling it once done is an error the caller reports.
    pub fn poll(&mut self, printed: &mut Vec<String>) -> (done: bool)
        requires
            self_ref_wf(old(self)@),
            !(old(self)@ is Resolved),
        ensures
            self_ref_wf(final(self)@),
            old(self)@ is Start ==> !done && final(self)@ == (SelfRefView::Wait { numbers: first_ten(), next: 1 })
                && lines_view(final(printed)@) == lines_view(old(printed)@).push("Future "@ + decimal(0)),
            old(self)@ is Wait ==> done && final(self)@ == SelfRefView::Resolved && lines_view(
                final(printed)@,
            ) == lines_view(old(printed)@) + hello_lines(
                old(self)@->numbers,
                old(self)@->next,
            ),
    {
        match self {
            SelfRef::Start => {
                let mut numbers: Vec<usize> = Vec::new();
                let mut i: usize = 0;
                while i < 10
                    invariant
                        0 <= i <= 10,
                        numbers@ == first_ten().subrange(0, i as int),
                    decreases 10 - i,
                {
                    numbers.push(i);
                    i = i + 1;
                    proof {
                        assert(numbers@ =~= first_ten().subrange(0, i as int));
                    }
                }
                proof {
                    assert(numbers@ =~= first_ten());
                }
                let n = numbers[0];
                let ghost before = printed@;
                printed.push(labelled("Future ", n));
                proof {
                    assert(lines_view(printed@) =~= lines_view(before).push("Future "@ + decimal(0)));
                }
                *self = SelfRef::Wait(State1 { numbers, nums: 1 });
                false
            },
            SelfRef::Wait(state) => {
                let len = state.numbers.len();
                let mut j = state.nums;
                let ghost before = printed@;
                let ghost numbers = state.numbers@;
                let ghost start = state.nums as int;
                while j < len
                    invariant
                        start <= j <= len,
                        len == numbers.len(),
                        state.numbers@ == numbers,
                        lines_view(printed@) == lines_view(before) + hello_lines(numbers, start).subrange(
                            0,
                            j - start,
                        ),
                    decreases len - j,
                {
                    let ghost prev = printed@;
                    printed.push(labelled("Hello #", state.numbers[j]));
                    j = j + 1;
                    proof {
                        let h = hello_lines(numbers, start);
                        assert(lines_view(printed@) =~= lines_view(prev).push(printed@.last()@));
                        assert(h[j - 1 - start] == "Hello #"@ + decimal(numbers[j - 1] as nat));
                        assert(h.subrange(0, j - start) =~= h.subrange(0, j - 1 - start).push(
                            h[j - 1 - start],
                        ));
                        assert(lines_view(printed@) =~= lines_view(before) + hello_lines(
                            numbers,
                            start,
                        ).subrange(0, j - start));
                    }
                }
                proof {
                    assert(hello_lines(numbers, start).subrange(0, len - start) =~= hello_lines(
                        numbers,
                        start,
                    ));
                }
                *self = SelfRef::Resolved;
                true
            },
            SelfRef::Resolved => true,
        }
    }
}

} // verus!
