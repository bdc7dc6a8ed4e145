//! The data that crosses the epoll system-call boundary: interest flags,
//! the event record the kernel fills in, and the poll instance that owns an
//! epoll file descriptor. The system calls themselves are made by the
//! caller; the functions here compute their arguments and interpret their
//! results.
use vstd::prelude::*;

verus! {

/// `op` value of `epoll_ctl` that adds an interest.
pub const EPOLL_CTL_ADD: i32 = 1;

/// Interest in read readiness.
pub const EPOLLIN: i32 = 0x1;

/// Edge-triggered notification (bit 31).
pub const EPOLLET: i32 = 1i32 << 31u32;

/// Remove the interest after the first notification.
pub const EPOLLONESHOT: i32 = 0x40000000;

/// One readiness notification: the event bits and the token that was
/// registered with the source.
#[derive(Debug)]
pub struct Event {
    pub events: u32,
    pub epoll_data: usize,
}

impl Event {
    /// The token that identifies the source this event is about.
    pub fn token(&self) -> (token: usize)
        ensures
            token == self.epoll_data,
    {
        self.epoll_data
    }
}

impl Event {
    /// The event record that registers interest in `interests` for a source
    /// identified by `token`; the flags are passed on bit for bit.
    pub fn interest(interests: i32, token: usize) -> (e: Event)
        ensures
            e.events == interests as u32,
            e.epoll_data == token,
    {
        Event { events: interests as u32, epoll_data: token }
    }
}

/// Handle for adding interests to an epoll instance.
pub struct Registry {
    raw_fd: i32,
}

/// An epoll instance: the descriptor `epoll_create` returned, reached
/// through its registry.
pub struct Poll {
    registry: Registry,
}

impl View for Registry {
    type V = int;

    closed spec fn view(&self) -> int {
        self.raw_fd as int
    }
}

impl View for Poll {
    type V = int;

    closed spec fn view(&self) -> int {
        self.registry.raw_fd as int
    }
}

/// Arguments of one `epoll_wait` call.
pub struct WaitArgs {
    pub epfd: i32,
    pub max_events: i32,
    pub timeout: i32,
}

/// Arguments of one `epoll_ctl` call.
pub struct CtlArgs {
    pub epfd: i32,
    pub op: i32,
    pub fd: i32,
    pub event: Event,
}

/// The result of a system call that returns a count or a descriptor: the
/// value when it is not negative, else the failure.
pub open spec fn os_result(res: i32) -> Result<usize, i32> {
    if res < 0 {
        Err(res)
    } else {
        Ok(res as usize)
    }
}

/// A wait fails only when the system call returns a negative value, and
/// then with that value; any other result, 0 included (the timeout elapsed,
/// or a spurious wakeup, with no event), is that many events.
pub proof fn lemma_wait_fails_only_when_negative(res: i32)
    ensures
        res >= 0 ==> os_result(res) == Ok::<usize, i32>(res as usize),
        res < 0 ==> os_result(res) == Err::<usize, i32>(res),
        os_result(res) is Err <==> res < 0,
{
}

impl Poll {
    /// The poll instance for the result of `epoll_create`: a descriptor when
    /// it is not negative, a failure otherwise.
    pub fn new(create_result: i32) -> (p: Result<Poll, i32>)
        ensures
            match p {
                Ok(p) => create_result >= 0 && p@ == create_result,
                Err(e) => create_result < 0 && e == create_result,
            },
    {
        if create_result < 0 {
            Err(create_result)
        } else {
            Ok(Poll { registry: Registry { raw_fd: create_result } })
        }
    }

    /// The registry through which interests are added to this instance.
    pub fn registry(&self) -> (r: &Registry)
        ensures
            r@ == self@,
    {
        &self.registry
    }

    /// Arguments to wait for events on this instance into a buffer with room
    /// for `capacity` events: no timeout means wait indefinitely (-1).
    pub fn wait_args(&self, capacity: usize, timeout: Option<i32>) -> (a: WaitArgs)
        ensures
            a.epfd == self@,
            a.max_events == capacity as i32,
            a.timeout == match timeout {
                Some(t) => t,
                None => -1i32,
            },
    {
        let timeout = match timeout {
            Some(t) => t,
            None => -1,
        };
        WaitArgs { epfd: self.registry.raw_fd, max_events: capacity as i32, timeout }
    }

    /// Interprets the result of `epoll_wait`: the number of events filled
    /// in, or the failure.
    pub fn wait_result(res: i32) -> (r: Result<usize, i32>)
        ensures
            r == os_result(res),
            res >= 0 ==> r == Ok::<usize, i32>(res as usize),
            r is Err <==> res < 0,
    {
        proof {
            lemma_wait_fails_only_when_negative(res);
        }
        if res < 0 {
            Err(res)
        } else {
            Ok(res as usize)
        }
    }
}

impl Registry {
    /// The epoll descriptor this registry adds interests to.
    pub fn raw_fd(&self) -> (fd: i32)
        ensures
            fd == self@,
    {
        self.raw_fd
    }

    /// Arguments to add interest in `interests` on the source with
    /// descriptor `source_fd`, whose events will carry `token`.
    pub fn register(&self, source_fd: i32, token: usize, interests: i32) -> (a: CtlArgs)
        ensures
            a.epfd == self@,
            a.op == EPOLL_CTL_ADD,
            a.fd == source_fd,
            a.event.events == interests as u32,
            a.event.epoll_data == token,
    {
        CtlArgs { epfd: self.raw_fd, op: EPOLL_CTL_ADD, fd: source_fd, event: Event::interest(interests, token) }
    }

    /// Interprets the result of `epoll_ctl`.
    pub fn register_result(res: i32) -> (r: Result<(), i32>)
        ensures
            r is Ok <==> res >= 0,
            r == Err::<(), i32>(res) <==> res < 0,
    {
        if res < 0 {
            Err(res)
        } else {
            Ok(())
        }
    }
}

} // verus!
