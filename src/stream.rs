use std::rc::Rc;

use vstd::prelude::*;

use crate::context::Handle;
use crate::dim3::Dim3;
use crate::driver::{
    complete, views_of, DriverCall, STREAM_NON_BLOCKING, WAIT_FLUSH, WRITE_NO_MEMORY_BARRIER,
};
use crate::error::{cuda_error, error_of, CudaResult, ErrorCode};
use crate::func::Function;
use crate::kernel_params::KernelParameters;
use crate::mem::DevicePtr;

verus! {

/// An ordered queue of asynchronous operations in one context.
///
/// Host buffers that queued transfers read or fill are retained by the
/// stream until it has been synchronised.
pub struct Stream<'a> {
    handle: Rc<Handle<'a>>,
    inner: u64,
    pending_stores: Vec<Vec<u8>>,
}

/// How a device-side wait compares the word in memory with its operand.
#[derive(Debug, Clone, Copy, PartialEq, Eq, Structural)]
pub enum WaitValueMode {
    /// Until `(int)(*addr - value) >= 0`, a cyclic comparison.
    Geq,
    /// Until `*addr == value`.
    Eq,
    /// Until `(*addr & value) != 0`.
    And,
    /// Until `~(*addr | value) != 0`.
    Nor,
}

impl WaitValueMode {
    /// The driver's number for this mode.
    pub open spec fn spec_code(self) -> u32 {
        match self {
            WaitValueMode::Geq => 0,
            WaitValueMode::Eq => 1,
            WaitValueMode::And => 2,
            WaitValueMode::Nor => 3,
        }
    }

    /// The driver's number for this mode.
    pub fn code(&self) -> (r: u32)
        ensures
            r == self.spec_code(),
    {
        match self {
            WaitValueMode::Geq => 0,
            WaitValueMode::Eq => 1,
            WaitValueMode::And => 2,
            WaitValueMode::Nor => 3,
        }
    }
}

/// The flags of a wait: the mode, and the flush bit when asked for.
pub open spec fn wait_flags(mode: WaitValueMode, flush: bool) -> u32 {
    if flush {
        mode.spec_code() | WAIT_FLUSH
    } else {
        mode.spec_code()
    }
}

/// The flags of a write: the barrier is skipped only when asked.
pub open spec fn write_flags(no_memory_barrier: bool) -> u32 {
    if no_memory_barrier {
        WRITE_NO_MEMORY_BARRIER
    } else {
        0
    }
}

/// What a query of a stream means: done on success, not yet done on
/// `NotReady`, and any other status is an error.
pub open spec fn synced_result(status: u32) -> CudaResult<bool> {
    if status == 0 {
        Ok(true)
    } else if error_of(status) == ErrorCode::NotReady {
        Ok(false)
    } else {
        Err(error_of(status))
    }
}

impl<'a> Stream<'a> {
    /// The stream's native handle.
    pub closed spec fn raw(&self) -> u64 {
        self.inner
    }

    /// The host buffers retained for queued transfers, in order.
    pub closed spec fn pending(&self) -> Seq<Seq<u8>> {
        views_of(self.pending_stores@)
    }

    /// The handle of the context that the stream belongs to.
    pub closed spec fn spec_handle(&self) -> Rc<Handle<'a>> {
        self.handle
    }

    /// The request that creates a stream that does not synchronise with the
    /// default one.
    pub fn new_call() -> (r: DriverCall)
        ensures
            r == (DriverCall::StreamCreate { flags: STREAM_NON_BLOCKING }),
    {
        DriverCall::StreamCreate { flags: STREAM_NON_BLOCKING }
    }

    /// The stream from the driver's answer to `new_call`; it retains nothing.
    pub fn new(handle: &Rc<Handle<'a>>, status: u32, raw: u64) -> (r: CudaResult<Stream<'a>>)
        ensures
            status == 0 <==> r is Ok,
            r matches Ok(s) ==> s.raw() == raw && s.pending() == Seq::<Seq<u8>>::empty()
                && s.spec_handle() == *handle,
            r matches Err(e) ==> e == error_of(status),
    {
        let s = Stream { handle: handle.clone(), inner: raw, pending_stores: Vec::new() };
        proof {
            assert(s.pending() =~= Seq::<Seq<u8>>::empty());
        }
        complete(status, s)
    }

    /// The stream's native handle.
    pub fn as_raw(&self) -> (r: u64)
        ensures
            r == self.raw(),
    {
        self.inner
    }

    /// The handle of the context that the stream belongs to.
    pub fn handle(&self) -> (r: &Rc<Handle<'a>>)
        ensures
            *r == self.spec_handle(),
    {
        &self.handle
    }

    /// The host buffers retained for queued transfers, in order.
    pub fn pending_buffers(&self) -> (r: &Vec<Vec<u8>>)
        ensures
            views_of(r@) == self.pending(),
    {
        &self.pending_stores
    }

    /// The retained host buffers, for the driver to read or fill. Their
    /// heap storage stays in place until the stream is synchronised.
    pub fn pending_buffers_mut(&mut self) -> (r: &mut Vec<Vec<u8>>)
        ensures
            views_of(r@) == old(self).pending(),
            final(self).pending() == views_of(final(r)@),
            final(self).raw() == old(self).raw(),
            final(self).spec_handle() == old(self).spec_handle(),
    {
        &mut self.pending_stores
    }

    /// Retains `data` until the stream is synchronised, and gives its place.
    pub fn retain(&mut self, data: Vec<u8>) -> (r: usize)
        requires
            old(self).pending().len() < usize::MAX,
        ensures
            r == old(self).pending().len(),
            final(self).pending() == old(self).pending().push(data@),
            final(self).raw() == old(self).raw(),
            final(self).spec_handle() == old(self).spec_handle(),
    {
        let r = self.pending_stores.len();
        self.pending_stores.push(data);
        proof {
            assert(self.pending() =~= old(self).pending().push(data@));
        }
        r
    }

    /// The request that blocks until the whole queue has drained.
    pub fn sync_call(&self) -> (r: DriverCall)
        ensures
            r == (DriverCall::StreamSynchronize { stream: self.raw() }),
    {
        DriverCall::StreamSynchronize { stream: self.inner }
    }

    /// Records the driver's answer to `sync_call`. Once the queue has
    /// drained, the retained buffers are released and handed back, in
    /// order; on an error they stay retained.
    pub fn sync(&mut self, status: u32) -> (r: CudaResult<Vec<Vec<u8>>>)
        ensures
            status == 0 <==> r is Ok,
            r matches Ok(bufs) ==> views_of(bufs@) == old(self).pending()
                && final(self).pending() == Seq::<Seq<u8>>::empty(),
            r matches Err(e) ==> e == error_of(status) && final(self).pending() == old(self).pending(),
            final(self).raw() == old(self).raw(),
            final(self).spec_handle() == old(self).spec_handle(),
    {
        cuda_error(status)?;
        let mut released: Vec<Vec<u8>> = Vec::new();
        std::mem::swap(&mut released, &mut self.pending_stores);
        proof {
            assert(self.pending() =~= Seq::<Seq<u8>>::empty());
        }
        Ok(released)
    }

    /// The request that asks, without blocking, whether the queue has drained.
    pub fn is_synced_call(&self) -> (r: DriverCall)
        ensures
            r == (DriverCall::StreamQuery { stream: self.raw() }),
    {
        DriverCall::StreamQuery { stream: self.inner }
    }

    /// Whether the queue has drained, from the driver's answer to
    /// `is_synced_call`: `NotReady` means not yet, and is no error.
    pub fn is_synced(&self, status: u32) -> (r: CudaResult<bool>)
        ensures
            r == synced_result(status),
    {
        match cuda_error(status) {
            Ok(()) => Ok(true),
            Err(ErrorCode::NotReady) => Ok(false),
            Err(e) => Err(e),
        }
    }

    /// The request that holds the queue until the 4-byte word at `addr`
    /// satisfies `mode` against `value`.
    pub fn wait_32(&mut self, addr: &DevicePtr<'a>, value: u32, mode: WaitValueMode, flush: bool) -> (r:
        DriverCall)
        requires
            addr@.len >= 4,
        ensures
            *final(self) == *old(self),
            r == (DriverCall::StreamWaitValue32 {
                stream: old(self).raw(),
                addr: addr@.addr as u64,
                value,
                flags: wait_flags(mode, flush),
            }),
    {
        let flags = if flush {
            mode.code() | WAIT_FLUSH
        } else {
            mode.code()
        };
        DriverCall::StreamWaitValue32 { stream: self.inner, addr: addr.as_raw(), value, flags }
    }

    /// The request that holds the queue until the 8-byte word at `addr`
    /// satisfies `mode` against `value`.
    pub fn wait_64(&mut self, addr: &DevicePtr<'a>, value: u64, mode: WaitValueMode, flush: bool) -> (r:
        DriverCall)
        requires
            addr@.len >= 8,
        ensures
            *final(self) == *old(self),
            r == (DriverCall::StreamWaitValue64 {
                stream: old(self).raw(),
                addr: addr@.addr as u64,
                value,
                flags: wait_flags(mode, flush),
            }),
    {
        let flags = if flush {
            mode.code() | WAIT_FLUSH
        } else {
            mode.code()
        };
        DriverCall::StreamWaitValue64 { stream: self.inner, addr: addr.as_raw(), value, flags }
    }

    /// The request that queues a write of the 4-byte `value` at `addr`.
    pub fn write_32(&mut self, addr: &DevicePtr<'a>, value: u32, no_memory_barrier: bool) -> (r:
        DriverCall)
        requires
            addr@.len >= 4,
        ensures
            *final(self) == *old(self),
            r == (DriverCall::StreamWriteValue32 {
                stream: old(self).raw(),
                addr: addr@.addr as u64,
                value,
                flags: write_flags(no_memory_barrier),
            }),
    {
        let flags = if no_memory_barrier {
            WRITE_NO_MEMORY_BARRIER
        } else {
            0
        };
        DriverCall::StreamWriteValue32 { stream: self.inner, addr: addr.as_raw(), value, flags }
    }

    /// The request that queues a write of the 8-byte `value` at `addr`.
    pub fn write_64(&mut self, addr: &DevicePtr<'a>, value: u64, no_memory_barrier: bool) -> (r:
        DriverCall)
        requires
            addr@.len >= 8,
        ensures
            *final(self) == *old(self),
            r == (DriverCall::StreamWriteValue64 {
                stream: old(self).raw(),
                addr: addr@.addr as u64,
                value,
                flags: write_flags(no_memory_barrier),
            }),
    {
        let flags = if no_memory_barrier {
            WRITE_NO_MEMORY_BARRIER
        } else {
            0
        };
        DriverCall::StreamWriteValue64 { stream: self.inner, addr: addr.as_raw(), value, flags }
    }

    /// The request that queues a host function after all work queued so far;
    /// the caller hands the function itself to the driver.
    pub fn callback(&mut self) -> (r: DriverCall)
        ensures
            *final(self) == *old(self),
            r == (DriverCall::LaunchHostFunc { stream: old(self).raw() }),
    {
        DriverCall::LaunchHostFunc { stream: self.inner }
    }

    /// The request that launches `f` over `grid_dim` blocks of `block_dim`
    /// threads, with `shared_mem_size` bytes of dynamic shared memory and
    /// the parameters' bytes, one buffer per kernel argument in order.
    pub fn launch<'b, K: KernelParameters>(
        &mut self,
        f: &Function<'a, 'b>,
        grid_dim: Dim3,
        block_dim: Dim3,
        shared_mem_size: u32,
        parameters: &K,
    ) -> (r: DriverCall)
        ensures
            *final(self) == *old(self),
            r matches DriverCall::LaunchKernel { function, grid, block, shared_mem_bytes, stream, params }
                && function == f.raw() && grid == grid_dim.0 && block == block_dim.0
                && shared_mem_bytes == shared_mem_size && stream == old(self).raw()
                && views_of(params@) == parameters.param_bytes(),
    {
        let mut params: Vec<Vec<u8>> = Vec::new();
        proof {
            assert(views_of(params@) =~= Seq::<Seq<u8>>::empty());
        }
        parameters.params(&mut params);
        DriverCall::LaunchKernel {
            function: f.as_raw(),
            grid: grid_dim.0,
            block: block_dim.0,
            shared_mem_bytes: shared_mem_size,
            stream: self.inner,
            params,
        }
    }

    /// The request that releases the stream; it consumes the stream.
    pub fn destroy_call(self) -> (r: DriverCall)
        ensures
            r == (DriverCall::StreamDestroy { stream: self.raw() }),
    {
        DriverCall::StreamDestroy { stream: self.inner }
    }
}

/// Idle streams kept for reuse by short-lived asynchronous operations.
pub struct StreamPool<'a> {
    idle: Vec<Stream<'a>>,
}

impl<'a> StreamPool<'a> {
    /// The idle streams, last returned first out.
    pub closed spec fn streams(&self) -> Seq<Stream<'a>> {
        self.idle@
    }

    /// An empty pool.
    pub fn new() -> (r: StreamPool<'a>)
        ensures
            r.streams() == Seq::<Stream<'a>>::empty(),
    {
        StreamPool { idle: Vec::new() }
    }

    /// Takes an idle stream, or `None` when the caller must create one.
    pub fn take(&mut self) -> (r: Option<Stream<'a>>)
        ensures
            old(self).streams().len() == 0 <==> r is None,
            r matches Some(s) ==> s == old(self).streams().last()
                && final(self).streams() == old(self).streams().drop_last(),
            r is None ==> final(self).streams() == old(self).streams(),
    {
        self.idle.pop()
    }

    /// Returns a stream to the pool.
    pub fn put_back(&mut self, stream: Stream<'a>)
        ensures
            final(self).streams() == old(self).streams().push(stream),
    {
        self.idle.push(stream);
    }
}

} // verus!
