# asyncrt

Building blocks of small asynchronous runtimes, written in Verus with their
behaviour stated and proved:

- `epoll`: interest flags, the event record, and the arguments and results of
  the epoll system calls;
- `events`: handling a batch of readiness events, counting each stream once;
- `fibers`: the round-robin scheduler of a green-thread runtime and the layout
  of a new thread's stack;
- `future`, `coroutine` and the coroutine modules: a minimal future interface,
  `join_all`, and hand-written coroutine state machines;
- `executor`, `reactor`, `callbacks`, `suspended`: task and waker bookkeeping;
- `request`, `request_bytes`: the HTTP requests the examples send;
- `parker`, `thread_pool`, `promise`, `maybe_self_ref`, `self_ref`,
  `self_ref_pick`: smaller pieces.

`app/` holds the programs around the library: the system calls, threads,
sockets and context switches.
