//! The protocol between a hand-written coroutine and the driver that polls
//! it. A coroutine runs its code up to the next await point and hands back a
//! `Step`: the lines its code prints on the way, and either the path of the
//! HTTP request whose response it now waits for or its final output. The
//! driver performs the request; when the response future is ready it
//! resumes the coroutine with the response text, and while it is not ready
//! the coroutine is not ready either.
use vstd::prelude::*;
use vstd::string::*;

verus! {

/// What a coroutine waits for after a step.
pub enum Next {
    /// The response to a GET request for this path.
    Await(String),
    /// Nothing: the coroutine is done, with this output.
    Done(String),
}

/// The effect of running a coroutine up to its next await point.
pub struct Step {
    pub printed: Vec<String>,
    pub next: Next,
}

/// `Next` as a mathematical value.
pub enum NextView {
    Await(Seq<char>),
    Done(Seq<char>),
}

/// `Step` as a mathematical value.
pub struct StepView {
    pub printed: Seq<Seq<char>>,
    pub next: NextView,
}

impl View for Next {
    type V = NextView;

    open spec fn view(&self) -> NextView {
        match self {
            Next::Await(p) => NextView::Await(p@),
            Next::Done(o) => NextView::Done(o@),
        }
    }
}

/// The text of each line, in order.
pub open spec fn lines_view(v: Seq<String>) -> Seq<Seq<char>> {
    v.map_values(|s: String| s@)
}

impl View for Step {
    type V = StepView;

    open spec fn view(&self) -> StepView {
        StepView { printed: lines_view(self.printed@), next: self.next@ }
    }
}

/// Where a coroutine is in its life.
#[derive(PartialEq, Eq, Debug, Structural, Clone, Copy)]
pub enum Phase {
    /// Not polled yet.
    Start,
    /// Waiting for the response to a request.
    Waiting,
    /// Done; polling it again is an error.
    Resolved,
}

/// A step that prints nothing.
pub fn quiet(next: Next) -> (s: Step)
    ensures
        s@ == (StepView { printed: Seq::empty(), next: next@ }),
{
    let printed: Vec<String> = Vec::new();
    proof {
        assert(lines_view(printed@) =~= Seq::<Seq<char>>::empty());
    }
    Step { printed, next }
}

/// A step that prints one line.
pub fn with_line(line: String, next: Next) -> (s: Step)
    ensures
        s@ == (StepView { printed: seq![line@], next: next@ }),
{
    let mut printed: Vec<String> = Vec::new();
    printed.push(line);
    proof {
        assert(lines_view(printed@) =~= seq![line@]);
    }
    Step { printed, next }
}

/// The empty output of a coroutine that returns nothing of interest.
pub fn no_output() -> (s: String)
    ensures
        s@ == Seq::<char>::empty(),
{
    String::new()
}

/// A line of text.
pub fn line(text: &str) -> (s: String)
    ensures
        s@ == text@,
{
    String::from_str(text)
}

} // verus!
