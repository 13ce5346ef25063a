//! The bridge from a stream's completion callback to a polled future.
//!
//! A `FutureCell` is shared between the polling side and the callback that
//! the driver runs on its own thread; its holder guards it with a lock. The
//! cell moves from `Waiting` to `Completed` to `Consumed`, and the callback
//! completes it only while it is still waiting.
use std::rc::Rc;

use vstd::prelude::*;

use crate::context::Handle;
use crate::driver::DriverCall;
use crate::error::{cuda_error, error_of, CudaResult};
use crate::stream::{Stream, StreamPool};

verus! {

/// Where a future stands.
pub enum FutureState {
    /// The queued work has not been reported done.
    Waiting,
    /// The work is done; the result has not been taken.
    Completed(CudaResult<()>),
    /// The result has been taken.
    Consumed,
}

/// What a poll asks of its caller.
pub enum PollStep {
    /// Queue a completion callback on the future's stream, then report pending.
    Register,
    /// The future is done with this result.
    Ready(CudaResult<()>),
}

/// What a poll in state `s` asks for.
pub open spec fn poll_step(s: FutureState) -> PollStep {
    match s {
        FutureState::Completed(v) => PollStep::Ready(v),
        _ => PollStep::Register,
    }
}

/// The state after a poll in state `s`.
pub open spec fn after_poll(s: FutureState) -> FutureState {
    match s {
        FutureState::Completed(_) => FutureState::Consumed,
        _ => s,
    }
}

/// The state after the completion callback has run in state `s`: only a
/// waiting future changes.
pub open spec fn after_complete(s: FutureState) -> FutureState {
    match s {
        FutureState::Waiting => FutureState::Completed(Ok(())),
        _ => s,
    }
}

/// The state shared between a future and its completion callback.
pub struct FutureCell {
    pub state: FutureState,
}

impl FutureCell {
    /// A waiting cell.
    pub fn new() -> (r: FutureCell)
        ensures
            r.state is Waiting,
    {
        FutureCell { state: FutureState::Waiting }
    }

    /// One poll. Polling after the result was taken is a usage error.
    pub fn poll(&mut self) -> (r: PollStep)
        requires
            !(old(self).state is Consumed),
        ensures
            r == poll_step(old(self).state),
            final(self).state == after_poll(old(self).state),
    {
        let mut taken = FutureState::Consumed;
        std::mem::swap(&mut taken, &mut self.state);
        match taken {
            FutureState::Completed(v) => PollStep::Ready(v),
            other => {
                self.state = other;
                PollStep::Register
            },
        }
    }

    /// The completion callback: a waiting cell completes with success, and
    /// any other state is left as it is.
    pub fn complete(&mut self)
        ensures
            final(self).state == after_complete(old(self).state),
    {
        if let FutureState::Waiting = self.state {
            self.state = FutureState::Completed(Ok(()));
        }
    }
}

/// A future over the work queued on one stream, borrowed from its handle's
/// pool.
pub struct CudaFuture<'a> {
    active_stream: Stream<'a>,
    handle: Rc<Handle<'a>>,
}

impl<'a> CudaFuture<'a> {
    /// The stream that the future watches.
    pub closed spec fn stream(&self) -> Stream<'a> {
        self.active_stream
    }

    /// The handle whose pool the stream goes back to.
    pub closed spec fn spec_handle(&self) -> Rc<Handle<'a>> {
        self.handle
    }

    /// A future over the work queued so far on `stream`.
    pub fn new(handle: Rc<Handle<'a>>, stream: Stream<'a>) -> (r: CudaFuture<'a>)
        ensures
            r.stream() == stream,
            r.spec_handle() == handle,
    {
        CudaFuture { active_stream: stream, handle }
    }

    /// The request that queues the completion callback on the stream, for a
    /// poll that asked to `Register`.
    pub fn register_call(&mut self) -> (r: DriverCall)
        ensures
            *final(self) == *old(self),
            r == (DriverCall::LaunchHostFunc { stream: old(self).stream().raw() }),
    {
        self.active_stream.callback()
    }

    /// What the poll returns, from the driver's answer to `register_call`:
    /// pending (`None`) once the callback is queued, else the error.
    pub fn registered(&self, status: u32) -> (r: Option<CudaResult<()>>)
        ensures
            status == 0 <==> r is None,
            r matches Some(v) ==> v == Err::<(), _>(error_of(status)),
    {
        match cuda_error(status) {
            Ok(()) => None,
            Err(e) => Some(Err(e)),
        }
    }

    /// Ends the future, done or not: its stream goes back to `pool`.
    pub fn finish(self, pool: &mut StreamPool<'a>)
        ensures
            final(pool).streams() == old(pool).streams().push(self.stream()),
    {
        pool.put_back(self.active_stream);
    }
}

/// A future polled before its work is done asks for one callback and stays
/// waiting; the callback completes it, a late or repeated one changes
/// nothing, and the next poll yields the result once and consumes it, after
/// which polling is ruled out.
pub proof fn lemma_future_protocol()
    ensures
        poll_step(FutureState::Waiting) is Register,
        after_poll(FutureState::Waiting) is Waiting,
        after_complete(FutureState::Waiting) == FutureState::Completed(Ok(())),
        after_complete(after_complete(FutureState::Waiting)) == after_complete(FutureState::Waiting),
        poll_step(after_complete(FutureState::Waiting)) == PollStep::Ready(Ok(())),
        after_poll(after_complete(FutureState::Waiting)) is Consumed,
        after_complete(FutureState::Consumed) is Consumed,
{
}

/// The callback completes a future at most once, whatever the state.
pub proof fn lemma_complete_idempotent(s: FutureState)
    ensures
        after_complete(after_complete(s)) == after_complete(s),
{
}

} // verus!
