//! The coroutine for
//!
//! ```text
//! coro fn async_main() {
//!     let mut buffer = String::from("\nBUFFER:\n----\n");
//!     let writer = &mut buffer;
//!     println!("Program starting");
//!     let txt = http::Http::get("/600/HelloAsyncAwait").wait;
//!     writeln!(writer, "{txt}").unwrap();
//!     let txt = http::Http::get("/400/HelloAsyncAwait").wait;
//!     writeln!(writer, "{txt}").unwrap();
//!     println!("{}", buffer);
//! }
//! ```
//!
//! whose local `buffer` lives across await points in the coroutine's saved
//! stack, and the writer that borrows it writes each response into it.
use vstd::prelude::*;
use vstd::string::*;
use crate::coroutine::{Next, NextView, Phase, Step, StepView, line, no_output, quiet, with_line};

verus! {

/// Await points of the coroutine.
#[derive(PartialEq, Eq, Debug, Structural, Clone, Copy)]
pub enum State0 {
    Start,
    Wait1,
    Wait2,
    Resolved,
}

/// Locals that live across await points.
pub struct Stack0 {
    buffer: Option<String>,
}

/// The coroutine's state: where it stopped, and its saved locals.
pub struct Coroutine0 {
    stack: Stack0,
    state: State0,
}

/// The coroutine as a mathematical value.
pub struct Coroutine0View {
    pub state: State0,
    pub buffer: Option<Seq<char>>,
}

impl View for Coroutine0 {
    type V = Coroutine0View;

    closed spec fn view(&self) -> Coroutine0View {
        Coroutine0View {
            state: self.state,
            buffer: match self.stack.buffer {
                Some(b) => Some(b@),
                None => None,
            },
        }
    }
}

/// The text the buffer starts with.
pub open spec fn buffer_header() -> Seq<char> {
    "\nBUFFER:\n----\n"@
}

/// The buffer exists exactly while the coroutine waits.
pub open spec fn coroutine0_wf(v: Coroutine0View) -> bool {
    (v.state == State0::Wait1 || v.state == State0::Wait2) <==> v.buffer is Some
}

/// First poll: the buffer is set up, "Program starting" is printed and the
/// first request is awaited.
pub open spec fn start_spec() -> (Coroutine0View, StepView) {
    (
        Coroutine0View { state: State0::Wait1, buffer: Some(buffer_header()) },
        StepView {
            printed: seq!["Program starting"@],
            next: NextView::Await("/600/HelloAsyncAwait"@),
        },
    )
}

/// Resumption with the text of a response: the text and a newline are
/// written to the buffer; after the first response the second request is
/// awaited, after the second the buffer is printed, freed, and the
/// coroutine finishes with an empty output.
pub open spec fn resume_spec(v: Coroutine0View, txt: Seq<char>) -> (Coroutine0View, StepView) {
    let kept = match v.buffer {
        Some(b) => b,
        None => Seq::empty(),
    };
    let written = kept + txt + "\n"@;
    if v.state == State0::Wait1 {
        (
            Coroutine0View { state: State0::Wait2, buffer: Some(written) },
            StepView { printed: Seq::empty(), next: NextView::Await("/400/HelloAsyncAwait"@) },
        )
    } else {
        (
            Coroutine0View { state: State0::Resolved, buffer: None },
            StepView { printed: seq![written], next: NextView::Done(Seq::empty()) },
        )
    }
}

/// Whatever the two responses are, the coroutine prints "Program starting",
/// then, at the end, one buffer holding the header and each response on a
/// line of its own, in the order they were requested; then it is resolved.
pub proof fn lemma_buffer_collects_responses(txt1: Seq<char>, txt2: Seq<char>)
    ensures
        ({
            let (s1, _) = start_spec();
            let (s2, step2) = resume_spec(s1, txt1);
            let (s3, step3) = resume_spec(s2, txt2);
            &&& coroutine0_wf(s1) && coroutine0_wf(s2) && coroutine0_wf(s3)
            &&& step2.printed.len() == 0
            &&& step3.printed == seq![buffer_header() + txt1 + "\n"@ + txt2 + "\n"@]
            &&& s3.state == State0::Resolved
        }),
{
    let (s1, _) = start_spec();
    let (s2, _) = resume_spec(s1, txt1);
    assert(buffer_header() + txt1 + "\n"@ + txt2 + "\n"@ =~= s2.buffer->0 + txt2 + "\n"@);
}

impl Coroutine0 {
    /// A coroutine that has not run yet.
    pub fn new() -> (c: Coroutine0)
        ensures
            c@ == (Coroutine0View { state: State0::Start, buffer: None }),
            coroutine0_wf(c@),
    {
        Coroutine0 { state: State0::Start, stack: Stack0 { buffer: None } }
    }

    /// Where the coroutine is in its life.
    pub fn phase(&self) -> (p: Phase)
        ensures
            p == match self@.state {
                State0::Start => Phase::Start,
                State0::Resolved => Phase::Resolved,
                _ => Phase::Waiting,
            },
    {
        match self.state {
            State0::Start => Phase::Start,
            State0::Resolved => Phase::Resolved,
            _ => Phase::Waiting,
        }
    }

    /// Runs the coroutine from its start to its first await point.
    pub fn start(&mut self) -> (step: Step)
        requires
            old(self)@.state == State0::Start,
        ensures
            (final(self)@, step@) == start_spec(),
    {
        self.stack.buffer = Some(String::from_str("\nBUFFER:\n----\n"));
        self.state = State0::Wait1;
        with_line(line("Program starting"), Next::Await(line("/600/HelloAsyncAwait")))
    }

    /// Resumes the coroutine with the text of the response it waits for.
    pub fn resume(&mut self, txt: String) -> (step: Step)
        requires
            old(self)@.state == State0::Wait1 || old(self)@.state == State0::Wait2,
        ensures
            (final(self)@, step@) == resume_spec(old(self)@, txt@),
    {
        let mut buffer = match self.stack.buffer.take() {
            Some(b) => b,
            None => String::new(),
        };
        buffer.append(txt.as_str());
        buffer.append("\n");
        if self.state == State0::Wait1 {
            self.stack.buffer = Some(buffer);
            self.state = State0::Wait2;
            quiet(Next::Await(line("/400/HelloAsyncAwait")))
        } else {
            self.state = State0::Resolved;
            with_line(buffer, Next::Done(no_output()))
        }
    }
}

/// The coroutine of `async_main`, not started yet.
pub fn async_main() -> (c: Coroutine0)
    ensures
        c@ == (Coroutine0View { state: State0::Start, buffer: None }),
{
    Coroutine0::new()
}

} // verus!
