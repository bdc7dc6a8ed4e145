//! Building blocks of small asynchronous runtimes: an epoll interest list,
//! a green-thread scheduler, hand-written coroutine state machines, futures
//! combinators and executor bookkeeping. Each module states its behaviour
//! in contracts that are proved, except where it rests on another thread:
//! the parker's flag lives behind a standard mutex, and the thread pool's
//! claims are stated as the attempts it made.
pub mod epoll;
pub mod fibers;
pub mod request;
pub mod request_bytes;
pub mod events;
pub mod future;
pub mod coroutine;
pub mod pinned_coroutine;
pub mod sequential_coroutine;
pub mod request_coroutine;
pub mod leaf_future;
pub mod self_ref;
pub mod self_ref_pick;
pub mod executor;
pub mod callbacks;
pub mod suspended;
pub mod reactor;
pub mod promise;
pub mod parker;
pub mod thread_pool;
pub mod maybe_self_ref;
