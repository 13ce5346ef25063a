use std::rc::Rc;

use vstd::prelude::*;

use crate::device::Device;
use crate::driver::{complete, outcome, DriverCall, CTX_SCHED_BLOCKING_SYNC};
use crate::error::{cuda_error, error_of, status_result, CudaResult};
use crate::version::{decode_version, CudaVersion};
use crate::Cuda;

verus! {

/// An execution context on one device, owned exclusively. Its native
/// handle is released once, by `destroy_call`, which consumes it.
#[derive(Debug)]
pub struct Context {
    inner: u64,
}

/// Proof that a context is the calling thread's current one. It borrows the
/// context for its whole life, so the context can be neither entered again
/// nor released while the handle lives.
#[derive(Debug)]
pub struct Handle<'a> {
    context: &'a Context,
}

impl Context {
    /// The context's native handle.
    pub closed spec fn raw(&self) -> u64 {
        self.inner
    }

    /// The request that creates a context on `device`, with blocking
    /// synchronisation.
    pub fn new_call(device: &Device) -> (r: DriverCall)
        ensures
            r == (DriverCall::CtxCreate { flags: CTX_SCHED_BLOCKING_SYNC, device: device.handle }),
    {
        DriverCall::CtxCreate { flags: CTX_SCHED_BLOCKING_SYNC, device: device.handle }
    }

    /// The context from the driver's answer to `new_call`.
    pub fn new(status: u32, raw: u64) -> (r: CudaResult<Context>)
        ensures
            status == 0 <==> r is Ok,
            r matches Ok(c) ==> c.raw() == raw,
            r matches Err(e) ==> e == error_of(status),
    {
        complete(status, Context { inner: raw })
    }

    /// The context's native handle.
    pub fn as_raw(&self) -> (r: u64)
        ensures
            r == self.raw(),
    {
        self.inner
    }

    /// The request for the API version of this context.
    pub fn version_call(&self) -> (r: DriverCall)
        ensures
            r == (DriverCall::CtxGetApiVersion { context: self.raw() }),
    {
        DriverCall::CtxGetApiVersion { context: self.inner }
    }

    /// The API version from the driver's answer to `version_call`.
    pub fn version(&self, status: u32, raw: u32) -> (r: CudaResult<CudaVersion>)
        ensures
            r == outcome(status, decode_version(raw)),
    {
        complete(status, CudaVersion::from_raw(raw))
    }

    /// The request that waits for all work of the current context.
    pub fn synchronize(&self) -> (r: DriverCall)
        ensures
            r == DriverCall::CtxSynchronize,
    {
        DriverCall::CtxSynchronize
    }

    /// The request that sets a limit; it needs the context exclusively.
    pub fn set_limit(&mut self, limit: LimitType, value: u64) -> (r: DriverCall)
        ensures
            *final(self) == *old(self),
            r == (DriverCall::CtxSetLimit { limit: limit.spec_code(), value }),
    {
        DriverCall::CtxSetLimit { limit: limit.code(), value }
    }

    /// The request that reads a limit.
    pub fn get_limit(&self, limit: LimitType) -> (r: DriverCall)
        ensures
            r == (DriverCall::CtxGetLimit { limit: limit.spec_code() }),
    {
        DriverCall::CtxGetLimit { limit: limit.code() }
    }

    /// The request that makes this context current.
    pub fn enter_call(&self) -> (r: DriverCall)
        ensures
            r == (DriverCall::CtxSetCurrent { context: self.raw() }),
    {
        DriverCall::CtxSetCurrent { context: self.inner }
    }

    /// The handle of the entered context, from the driver's answer to
    /// `enter_call`. The context stays borrowed for as long as the handle or
    /// a clone of it lives.
    pub fn enter<'a>(&'a mut self, status: u32) -> (r: CudaResult<Rc<Handle<'a>>>)
        ensures
            status == 0 <==> r is Ok,
            r matches Ok(h) ==> h.spec_context() == *old(self),
            r matches Err(e) ==> e == error_of(status),
    {
        cuda_error(status)?;
        Ok(Rc::new(Handle { context: self }))
    }

    /// The request that releases the context; it consumes the context, so
    /// no request can name it afterwards.
    pub fn destroy_call(self) -> (r: DriverCall)
        ensures
            r == (DriverCall::CtxDestroy { context: self.raw() }),
    {
        DriverCall::CtxDestroy { context: self.inner }
    }
}

impl<'a> Handle<'a> {
    /// The entered context.
    pub closed spec fn spec_context(&self) -> Context {
        *self.context
    }

    /// The entered context.
    pub fn context(&self) -> (r: &Context)
        ensures
            *r == self.spec_context(),
    {
        self.context
    }

    /// The request that leaves the context, after which none is current.
    pub fn exit_call(&self) -> (r: DriverCall)
        ensures
            r == (DriverCall::CtxSetCurrent { context: 0 }),
    {
        DriverCall::CtxSetCurrent { context: 0 }
    }
}

/// Whether the driver has been initialised in this process.
#[derive(Debug)]
pub struct InitState {
    pub done: bool,
}

impl Cuda {
    /// The request that initialises the driver, or `None` when that was
    /// already done.
    pub fn init_call(state: &InitState) -> (r: Option<DriverCall>)
        ensures
            state.done <==> r is None,
            r matches Some(c) ==> c == (DriverCall::Init { flags: 0 }),
    {
        if state.done {
            None
        } else {
            Some(DriverCall::Init { flags: 0 })
        }
    }

    /// Records the driver's answer to `init_call`; success is remembered,
    /// so later calls cost nothing.
    pub fn init(state: &mut InitState, status: u32) -> (r: CudaResult<()>)
        ensures
            r == status_result(status),
            final(state).done == (old(state).done || status == 0),
    {
        let r = cuda_error(status);
        if r.is_ok() {
            state.done = true;
        }
        r
    }
}

/// A resource limit of a context.
#[derive(Debug, Clone, Copy, PartialEq, Eq, Structural)]
pub enum LimitType {
    /// GPU thread stack size
    StackSize,
    /// GPU printf FIFO size
    PrintfFifoSize,
    /// GPU malloc heap size
    MallocHeapSize,
    /// GPU device runtime launch synchronize depth
    DevRuntimeSyncDepth,
    /// GPU device runtime pending launch count
    DevRuntimePendingLaunchCount,
    /// A value between 0 and 128 that indicates the maximum fetch granularity of L2 (in Bytes). This is a hint
    MaxL2FetchGranularity,
    /// A size in bytes for L2 persisting lines cache size
    PersistingL2CacheSize,
}

impl LimitType {
    /// The driver's number for this value.
    pub open spec fn spec_code(self) -> u32 {
        match self {
            LimitType::StackSize => 0,
            LimitType::PrintfFifoSize => 1,
            LimitType::MallocHeapSize => 2,
            LimitType::DevRuntimeSyncDepth => 3,
            LimitType::DevRuntimePendingLaunchCount => 4,
            LimitType::MaxL2FetchGranularity => 5,
            LimitType::PersistingL2CacheSize => 6,
        }
    }

    /// The driver's number for this value.
    pub fn code(&self) -> (r: u32)
        ensures
            r == self.spec_code(),
    {
        match self {
            LimitType::StackSize => 0,
            LimitType::PrintfFifoSize => 1,
            LimitType::MallocHeapSize => 2,
            LimitType::DevRuntimeSyncDepth => 3,
            LimitType::DevRuntimePendingLaunchCount => 4,
            LimitType::MaxL2FetchGranularity => 5,
            LimitType::PersistingL2CacheSize => 6,
        }
    }

    /// The value that the driver's number `code` stands for, if any.
    pub fn from_code(code: u32) -> (r: Option<LimitType>)
        ensures
            r matches Some(v) ==> v.spec_code() == code,
            r is None ==> forall|v: LimitType| v.spec_code() != code,
    {
        match code {
            0 => Some(LimitType::StackSize),
            1 => Some(LimitType::PrintfFifoSize),
            2 => Some(LimitType::MallocHeapSize),
            3 => Some(LimitType::DevRuntimeSyncDepth),
            4 => Some(LimitType::DevRuntimePendingLaunchCount),
            5 => Some(LimitType::MaxL2FetchGranularity),
            6 => Some(LimitType::PersistingL2CacheSize),
            _ => None,
        }
    }
}

} // verus!
