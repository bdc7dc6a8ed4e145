//! The coroutines for
//!
//! ```text
//! coro fn request(i: usize) {
//!     let path = format!("/{}/HelloWorld{i}", i * 1000);
//!     let txt = Http::get(&path).wait;
//!     println!("{txt}");
//! }
//!
//! coro fn async_main() {
//!     println!("Program starting");
//!     let mut futures = vec![];
//!     for i in 0..5 {
//!         futures.push(request(i));
//!     }
//!     future::join_all(futures).wait;
//! }
//! ```
//!
//! where the main coroutine awaits all five requests at once.
use vstd::prelude::*;
use crate::coroutine::{Next, NextView, Phase, Step, StepView, line, lines_view, no_output, quiet, with_line};
use crate::request::{delay_path, get_path, lemma_path_names_delay_and_tag, path_spec};

verus! {

/// Await points of `request(i)`.
#[derive(PartialEq, Eq, Debug, Structural, Clone, Copy)]
pub enum State0 {
    Start(usize),
    Wait1,
    Resolved,
}

/// The coroutine of `request(i)`.
pub struct Coroutine0 {
    state: State0,
}

impl View for Coroutine0 {
    type V = State0;

    closed spec fn view(&self) -> State0 {
        self.state
    }
}

/// First poll of `request(i)`: the request for `i` is awaited.
pub open spec fn request_start_spec(i: usize) -> (State0, StepView) {
    (State0::Wait1, StepView { printed: Seq::empty(), next: NextView::Await(path_spec(i as nat)) })
}

/// `request(i)` runs to its first await point printing nothing, and awaits
/// the path that waits `i * 1000` ms and is tagged `HelloWorld<i>`, for
/// the same `i`.
pub proof fn lemma_request_awaits_own_path(i: usize)
    ensures
        request_start_spec(i).0 == State0::Wait1,
        request_start_spec(i).1.printed.len() == 0,
        request_start_spec(i).1.next matches NextView::Await(p) && delay_path(
            p,
            i * 1000,
            "HelloWorld"@,
            i as int,
        ),
{
    lemma_path_names_delay_and_tag(i as nat);
}

/// Resumption of `request(i)`: the response is printed and the coroutine
/// finishes with an empty output.
pub open spec fn request_resume_spec(txt: Seq<char>) -> (State0, StepView) {
    (State0::Resolved, StepView { printed: seq![txt], next: NextView::Done(Seq::empty()) })
}

impl Coroutine0 {
    /// The coroutine of `request(i)`, not started yet.
    pub fn new(i: usize) -> (c: Coroutine0)
        ensures
            c@ == State0::Start(i),
    {
        Coroutine0 { state: State0::Start(i) }
    }

    /// Where the coroutine is in its life.
    pub fn phase(&self) -> (p: Phase)
        ensures
            p == match self@ {
                State0::Start(_) => Phase::Start,
                State0::Wait1 => Phase::Waiting,
                State0::Resolved => Phase::Resolved,
            },
    {
        match self.state {
            State0::Start(_) => Phase::Start,
            State0::Wait1 => Phase::Waiting,
            State0::Resolved => Phase::Resolved,
        }
    }

    /// Runs `request(i)` to its await point.
    pub fn start(&mut self) -> (step: Step)
        requires
            old(self)@ is Start,
            old(self)@->Start_0 * 1000 <= usize::MAX,
        ensures
            (final(self)@, step@) == request_start_spec(old(self)@->Start_0),
            step@.printed.len() == 0,
            step@.next matches NextView::Await(p) && delay_path(
                p,
                old(self)@->Start_0 * 1000,
                "HelloWorld"@,
                old(self)@->Start_0 as int,
            ),
    {
        proof {
            lemma_request_awaits_own_path(old(self)@->Start_0);
        }
        let i = match self.state {
            State0::Start(i) => i,
            _ => 0,
        };
        let path = get_path(i);
        self.state = State0::Wait1;
        quiet(Next::Await(path))
    }

    /// Resumes `request(i)` with the response it waits for.
    pub fn resume(&mut self, txt: String) -> (step: Step)
        requires
            old(self)@ == State0::Wait1,
        ensures
            (final(self)@, step@) == request_resume_spec(txt@),
    {
        self.state = State0::Resolved;
        with_line(txt, Next::Done(no_output()))
    }
}

/// The coroutine of `request(i)`, not started yet.
pub fn request(i: usize) -> (c: Coroutine0)
    ensures
        c@ == State0::Start(i),
{
    Coroutine0::new(i)
}

/// Await points of the main coroutine.
#[derive(PartialEq, Eq, Debug, Structural, Clone, Copy)]
pub enum State1 {
    Start,
    Wait1,
    Resolved,
}

/// The main coroutine.
pub struct Coroutine1 {
    state: State1,
}

impl View for Coroutine1 {
    type V = State1;

    closed spec fn view(&self) -> State1 {
        self.state
    }
}

/// The first step of the main coroutine: lines printed, and the
/// arguments `i` of the `request(i)` coroutines whose join it awaits.
pub struct JoinStep {
    pub printed: Vec<String>,
    pub requests: Vec<usize>,
}

/// Number of requests joined by the main coroutine.
pub const REQUESTS: usize = 5;

impl Coroutine1 {
    /// The main coroutine, not started yet.
    pub fn new() -> (c: Coroutine1)
        ensures
            c@ == State1::Start,
    {
        Coroutine1 { state: State1::Start }
    }

    /// Where the coroutine is in its life.
    pub fn phase(&self) -> (p: Phase)
        ensures
            p == match self@ {
                State1::Start => Phase::Start,
                State1::Wait1 => Phase::Waiting,
                State1::Resolved => Phase::Resolved,
            },
    {
        match self.state {
            State1::Start => Phase::Start,
            State1::Wait1 => Phase::Waiting,
            State1::Resolved => Phase::Resolved,
        }
    }

    /// Runs the main coroutine to its await point: "Program starting" is
    /// printed and the join of `request(0)`, ..., `request(4)` awaited.
    pub fn start(&mut self) -> (step: JoinStep)
        requires
            old(self)@ == State1::Start,
        ensures
            final(self)@ == State1::Wait1,
            lines_view(step.printed@) == seq!["Program starting"@],
            step.requests@.len() == REQUESTS,
            forall|i: int| 0 <= i < REQUESTS ==> step.requests@[i] == i,
    {
        let mut printed: Vec<String> = Vec::new();
        printed.push(line("Program starting"));
        let mut requests: Vec<usize> = Vec::new();
        let mut i: usize = 0;
        while i < REQUESTS
            invariant
                0 <= i <= REQUESTS,
                requests@.len() == i,
                forall|j: int| 0 <= j < i ==> requests@[j] == j,
            decreases REQUESTS - i,
        {
            requests.push(i);
            i = i + 1;
        }
        self.state = State1::Wait1;
        proof {
            assert(lines_view(printed@) =~= seq!["Program starting"@]);
        }
        JoinStep { printed, requests }
    }

    /// Resumes the main coroutine once the join is ready: it finishes with
    /// an empty output and prints nothing more.
    pub fn resume(&mut self) -> (step: Step)
        requires
            old(self)@ == State1::Wait1,
        ensures
            final(self)@ == State1::Resolved,
            step@ == (StepView { printed: Seq::empty(), next: NextView::Done(Seq::empty()) }),
    {
        self.state = State1::Resolved;
        quiet(Next::Done(no_output()))
    }
}

/// The main coroutine, not started yet.
pub fn async_main() -> (c: Coroutine1)
    ensures
        c@ == State1::Start,
{
    Coroutine1::new()
}

} // verus!
