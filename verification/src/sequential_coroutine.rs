//! The coroutine for
//!
//! ```text
//! coro fn async_main() {
//!     println!("Program starting");
//!     let txt = Http::get(&get_path(0)).wait;
//!     println!("{txt}");
//!     let txt = Http::get(&get_path(1)).wait;
//!     println!("{txt}");
//!     let txt = Http::get(&get_path(2)).wait;
//!     println!("{txt}");
//!     let txt = Http::get(&get_path(3)).wait;
//!     println!("{txt}");
//!     let txt = Http::get(&get_path(4)).wait;
//! }
//! ```
//!
//! which awaits five requests one after the other.
use vstd::prelude::*;
use crate::coroutine::{Next, NextView, Phase, Step, StepView, line, no_output, quiet, with_line};
use crate::request::{get_path, path_spec};

verus! {

/// Number of requests the coroutine awaits.
pub const REQUESTS: usize = 5;

/// Await points: before the first poll, waiting for the response to
/// request `k - 1` in `Waitk`, and done.
#[derive(PartialEq, Eq, Debug, Structural, Clone, Copy)]
pub enum State0 {
    Start,
    Wait1,
    Wait2,
    Wait3,
    Wait4,
    Wait5,
    Resolved,
}

/// The coroutine's state.
pub struct Coroutine0 {
    state: State0,
}

impl View for Coroutine0 {
    type V = State0;

    closed spec fn view(&self) -> State0 {
        self.state
    }
}

/// The number of the await point: `k` in `Waitk`, 0 elsewhere.
pub open spec fn wait_index(s: State0) -> int {
    match s {
        State0::Wait1 => 1,
        State0::Wait2 => 2,
        State0::Wait3 => 3,
        State0::Wait4 => 4,
        State0::Wait5 => 5,
        _ => 0,
    }
}

/// The await point with number `k` (`1 <= k <= 5`).
pub open spec fn wait_state(k: int) -> State0 {
    if k == 1 {
        State0::Wait1
    } else if k == 2 {
        State0::Wait2
    } else if k == 3 {
        State0::Wait3
    } else if k == 4 {
        State0::Wait4
    } else {
        State0::Wait5
    }
}

/// First poll: "Program starting" is printed and request 0 awaited.
pub open spec fn start_spec() -> (State0, StepView) {
    (
        State0::Wait1,
        StepView { printed: seq!["Program starting"@], next: NextView::Await(path_spec(0)) },
    )
}

/// Resumption at await point `k` with a response: before the last request
/// the response is printed and request `k` awaited; the last response is
/// not printed and the coroutine finishes with an empty output.
pub open spec fn resume_spec(s: State0, txt: Seq<char>) -> (State0, StepView) {
    let k = wait_index(s);
    if k < REQUESTS {
        (wait_state(k + 1), StepView { printed: seq![txt], next: NextView::Await(path_spec(k as nat)) })
    } else {
        (State0::Resolved, StepView { printed: Seq::empty(), next: NextView::Done(Seq::empty()) })
    }
}

/// The coroutine awaits the paths of requests 0, 1, 2, 3, 4 in this order,
/// one at a time, printing each response but the last, and finishes after
/// the fifth response.
pub proof fn lemma_awaits_requests_in_order(k: int, txt: Seq<char>)
    requires
        1 <= k <= REQUESTS,
    ensures
        wait_index(wait_state(k)) == k,
        k < REQUESTS ==> resume_spec(wait_state(k), txt).1.next == NextView::Await(path_spec(k as nat))
            && resume_spec(wait_state(k), txt).1.printed == seq![txt]
            && resume_spec(wait_state(k), txt).0 == wait_state(k + 1),
        k == REQUESTS ==> resume_spec(wait_state(k), txt).0 == State0::Resolved
            && resume_spec(wait_state(k), txt).1.printed.len() == 0,
        start_spec().0 == wait_state(1),
        start_spec().1.next == NextView::Await(path_spec(0)),
{
}

impl Coroutine0 {
    /// A coroutine that has not run yet.
    pub fn new() -> (c: Coroutine0)
        ensures
            c@ == State0::Start,
    {
        Coroutine0 { state: State0::Start }
    }

    /// Where the coroutine is in its life.
    pub fn phase(&self) -> (p: Phase)
        ensures
            p == match self@ {
                State0::Start => Phase::Start,
                State0::Resolved => Phase::Resolved,
                _ => Phase::Waiting,
            },
    {
        match self.state {
            State0::Start => Phase::Start,
            State0::Resolved => Phase::Resolved,
            _ => Phase::Waiting,
        }
    }

    /// Runs the coroutine from its start to its first await point.
    pub fn start(&mut self) -> (step: Step)
        requires
            old(self)@ == State0::Start,
        ensures
            (final(self)@, step@) == start_spec(),
    {
        self.state = State0::Wait1;
        with_line(line("Program starting"), Next::Await(get_path(0)))
    }

    /// Resumes the coroutine with the text of the response it waits for.
    pub fn resume(&mut self, txt: String) -> (step: Step)
        requires
            1 <= wait_index(old(self)@),
        ensures
            (final(self)@, step@) == resume_spec(old(self)@, txt@),
    {
        let (k, next): (usize, State0) = match self.state {
            State0::Wait1 => (1, State0::Wait2),
            State0::Wait2 => (2, State0::Wait3),
            State0::Wait3 => (3, State0::Wait4),
            State0::Wait4 => (4, State0::Wait5),
            _ => (5, State0::Resolved),
        };
        if k < REQUESTS {
            self.state = next;
            with_line(txt, Next::Await(get_path(k)))
        } else {
            self.state = State0::Resolved;
            quiet(Next::Done(no_output()))
        }
    }
}

/// The coroutine of `async_main`, not started yet.
pub fn async_main() -> (c: Coroutine0)
    ensures
        c@ == State0::Start,
{
    Coroutine0::new()
}

} // verus!
