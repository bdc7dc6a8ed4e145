//! A leaf future that reads a response from a non-blocking stream, and a
//! non-leaf future that first sends the request and then waits on the leaf.
//! The stream itself is held by the caller, which performs the connection
//! and the reads and passes their results in.
use vstd::prelude::*;
use crate::future::PollState;
use crate::request::{get_req, request_text};

verus! {

/// Result of reading the whole response from a non-blocking stream.
pub enum StreamRead {
    /// The peer closed the stream; this is all it sent.
    Complete(String),
    /// Not everything has arrived yet.
    WouldBlock,
    /// The read failed.
    Failed,
}

/// A read that a future can act on: anything but a failure.
pub open spec fn usable(r: StreamRead) -> bool {
    !(r is Failed)
}

/// The leaf future: reading the response, then done.
#[derive(PartialEq, Eq, Debug, Structural, Clone, Copy)]
pub enum LeafFuture {
    Step1,
    Resolved,
}

impl LeafFuture {
    /// Polls the leaf with the result of a read from its stream: a complete
    /// response resolves it with the text, a read that would block leaves
    /// it waiting. Polling a resolved leaf, or after a failed read, is an
    /// error the caller reports.
    pub fn poll(&mut self, read: StreamRead) -> (r: PollState<String>)
        requires
            *old(self) == LeafFuture::Step1,
            usable(read),
        ensures
            match read {
                StreamRead::Complete(s) => *final(self) == LeafFuture::Resolved && r == PollState::Ready(s),
                _ => *final(self) == LeafFuture::Step1 && r is NotReady,
            },
    {
        match read {
            StreamRead::Complete(s) => {
                *self = LeafFuture::Resolved;
                PollState::Ready(s)
            },
            _ => PollState::NotReady,
        }
    }
}

/// The non-leaf future: sending the request, waiting on the leaf, done.
#[derive(PartialEq, Eq, Debug, Structural, Clone, Copy)]
pub enum NonLeafFuture {
    Step1,
    Step2(LeafFuture),
    Resolved,
}

/// What polling the non-leaf future asks of its caller, or its result.
pub enum NonLeafPoll {
    /// Connect, send this request, and report not ready.
    Send(String),
    /// Not ready yet.
    NotReady,
    /// Done, with the response text.
    Ready(String),
}

impl NonLeafFuture {
    /// The future before its first poll.
    pub fn new() -> (f: NonLeafFuture)
        ensures
            f == NonLeafFuture::Step1,
    {
        NonLeafFuture::Step1
    }

    /// Polls the future. The first poll asks for the request for
    /// `/1000/helloworld` to be sent and moves on to waiting on a fresh
    /// leaf; later polls pass the leaf the result of reading the stream
    /// and resolve when the leaf does, with its text.
    pub fn poll(&mut self, read: Option<StreamRead>) -> (r: NonLeafPoll)
        requires
            *old(self) == NonLeafFuture::Step1 ==> read is None,
            *old(self) == NonLeafFuture::Step2(LeafFuture::Step1) ==> read is Some && usable(read->0),
            *old(self) == NonLeafFuture::Step1 || *old(self) == NonLeafFuture::Step2(LeafFuture::Step1),
        ensures
            *old(self) == NonLeafFuture::Step1 ==> *final(self) == NonLeafFuture::Step2(
                LeafFuture::Step1,
            ) && r is Send && r->Send_0@ == request_text("/1000/helloworld"@),
            *old(self) != NonLeafFuture::Step1 ==> match read->0 {
                StreamRead::Complete(s) => *final(self) == NonLeafFuture::Resolved && r == NonLeafPoll::Ready(s),
                _ => *final(self) == *old(self) && r is NotReady,
            },
    {
        match *self {
            NonLeafFuture::Step2(leaf) => {
                let mut leaf = leaf;
                let read = match read {
                    Some(r) => r,
                    None => StreamRead::WouldBlock,
                };
                match leaf.poll(read) {
                    PollState::Ready(txt) => {
                        *self = NonLeafFuture::Resolved;
                        NonLeafPoll::Ready(txt)
                    },
                    PollState::NotReady => {
                        *self = NonLeafFuture::Step2(leaf);
                        NonLeafPoll::NotReady
                    },
                }
            },
            _ => {
                *self = NonLeafFuture::Step2(LeafFuture::Step1);
                NonLeafPoll::Send(get_req("/1000/helloworld"))
            },
        }
    }
}

} // verus!
